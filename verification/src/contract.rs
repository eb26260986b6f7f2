//! The vocabulary shared by plugins and the bridge: value type tags and the
//! metadata every plugin declares about itself.

use crate::text::{compare_names, lemma_name_order, same_text, spec_name_lt, NameOrder};
use vstd::prelude::*;

verus! {

/// The closed set of value types a plugin may declare for a parameter or for
/// its result.
#[derive(Clone, Copy, Debug, PartialEq, Eq, Structural)]
pub enum Type {
    String,
    Number,
    Json,
    StringArray,
    NumberArray,
    JsonArray,
}

/// The database column type that stands for a value type.
pub open spec fn spec_type_to_sql(t: Type) -> Seq<char> {
    match t {
        Type::Number => "NUMERIC"@,
        Type::String => "TEXT"@,
        Type::StringArray => "TEXT[]"@,
        Type::NumberArray => "NUMERIC[]"@,
        Type::Json => "JSON"@,
        Type::JsonArray => "JSON[]"@,
    }
}

/// Maps a value type to the name of its database column type.
pub fn type_to_sql(param_type: &Type) -> (sql: String)
    ensures
        sql@ == spec_type_to_sql(*param_type),
{
    match param_type {
        Type::Number => "NUMERIC".to_owned(),
        Type::String => "TEXT".to_owned(),
        Type::StringArray => "TEXT[]".to_owned(),
        Type::NumberArray => "NUMERIC[]".to_owned(),
        Type::Json => "JSON".to_owned(),
        Type::JsonArray => "JSON[]".to_owned(),
    }
}

/// The tag under which a value type travels in a plugin's metadata.
pub open spec fn spec_tag(t: Type) -> Seq<char> {
    match t {
        Type::String => "String"@,
        Type::Number => "Number"@,
        Type::Json => "Json"@,
        Type::StringArray => "StringArray"@,
        Type::NumberArray => "NumberArray"@,
        Type::JsonArray => "JsonArray"@,
    }
}

/// The value type that a tag names, if it names one.
pub open spec fn spec_from_tag(tag: Seq<char>) -> Option<Type> {
    if tag == "String"@ {
        Some(Type::String)
    } else if tag == "Number"@ {
        Some(Type::Number)
    } else if tag == "Json"@ {
        Some(Type::Json)
    } else if tag == "StringArray"@ {
        Some(Type::StringArray)
    } else if tag == "NumberArray"@ {
        Some(Type::NumberArray)
    } else if tag == "JsonArray"@ {
        Some(Type::JsonArray)
    } else {
        None
    }
}

/// Each value type has its own tag, and a tag names at most one value type:
/// reading back the tag of a type gives that type, and a tag that names a
/// type is the tag of that type.
pub proof fn lemma_tags_one_to_one(t: Type, tag: Seq<char>)
    ensures
        spec_from_tag(spec_tag(t)) == Some(t),
        spec_from_tag(tag) == Some(t) ==> tag == spec_tag(t),
{
    reveal_strlit("String");
    reveal_strlit("Number");
    reveal_strlit("Json");
    reveal_strlit("StringArray");
    reveal_strlit("NumberArray");
    reveal_strlit("JsonArray");
    assert("String"@.len() == 6 && "String"@[0] == 'S');
    assert("Number"@.len() == 6 && "Number"@[0] == 'N');
    assert("Json"@.len() == 4 && "Json"@[0] == 'J');
    assert("StringArray"@.len() == 11 && "StringArray"@[0] == 'S');
    assert("NumberArray"@.len() == 11 && "NumberArray"@[0] == 'N');
    assert("JsonArray"@.len() == 9 && "JsonArray"@[0] == 'J');
}

/// Each value type has its own column type.
pub proof fn lemma_column_types_distinct(a: Type, b: Type)
    requires
        spec_type_to_sql(a) == spec_type_to_sql(b),
    ensures
        a == b,
{
    reveal_strlit("NUMERIC");
    reveal_strlit("TEXT");
    reveal_strlit("TEXT[]");
    reveal_strlit("NUMERIC[]");
    reveal_strlit("JSON");
    reveal_strlit("JSON[]");
    assert("NUMERIC"@.len() == 7 && "NUMERIC"@[0] == 'N');
    assert("TEXT"@.len() == 4 && "TEXT"@[0] == 'T');
    assert("JSON"@.len() == 4 && "JSON"@[0] == 'J');
    assert("NUMERIC[]"@.len() == 9 && "NUMERIC[]"@[0] == 'N');
    assert("TEXT[]"@.len() == 6 && "TEXT[]"@[0] == 'T');
    assert("JSON[]"@.len() == 6 && "JSON[]"@[0] == 'J');
}

impl Type {
    /// The tag under which this value type travels in metadata.
    pub fn tag(&self) -> (tag: String)
        ensures
            tag@ == spec_tag(*self),
    {
        match self {
            Type::String => "String".to_owned(),
            Type::Number => "Number".to_owned(),
            Type::Json => "Json".to_owned(),
            Type::StringArray => "StringArray".to_owned(),
            Type::NumberArray => "NumberArray".to_owned(),
            Type::JsonArray => "JsonArray".to_owned(),
        }
    }

    /// Reads a tag; a tag outside the closed set names no value type.
    pub fn from_tag(tag: &str) -> (found: Option<Type>)
        ensures
            found == spec_from_tag(tag@),
    {
        if same_text(tag, "String") {
            Some(Type::String)
        } else if same_text(tag, "Number") {
            Some(Type::Number)
        } else if same_text(tag, "Json") {
            Some(Type::Json)
        } else if same_text(tag, "StringArray") {
            Some(Type::StringArray)
        } else if same_text(tag, "NumberArray") {
            Some(Type::NumberArray)
        } else if same_text(tag, "JsonArray") {
            Some(Type::JsonArray)
        } else {
            None
        }
    }
}

/// One declared parameter: its name and the type of its value.
#[derive(Debug, PartialEq, Eq)]
pub struct Parameter {
    pub name: String,
    pub value_type: Type,
}

impl Clone for Parameter {
    fn clone(&self) -> (copy: Parameter)
        ensures
            copy@ == self@,
    {
        Parameter { name: self.name.clone(), value_type: self.value_type }
    }
}

impl View for Parameter {
    type V = (Seq<char>, Type);

    open spec fn view(&self) -> (Seq<char>, Type) {
        (self.name@, self.value_type)
    }
}

/// Whether the names of a list of parameters strictly ascend, so that no
/// name occurs twice.
pub open spec fn spec_sorted(s: Seq<(Seq<char>, Type)>) -> bool {
    forall|i: int, j: int|
        #![trigger s[i], s[j]]
        0 <= i < j < s.len() ==> spec_name_lt(s[i].0, s[j].0)
}

/// Where a name stands in a list of parameters, if it stands there.
pub open spec fn spec_position(s: Seq<(Seq<char>, Type)>, name: Seq<char>) -> Option<int> {
    if exists|i: int| 0 <= i < s.len() && (#[trigger] s[i]).0 == name {
        Some(choose|i: int| 0 <= i < s.len() && (#[trigger] s[i]).0 == name)
    } else {
        None
    }
}

/// The type declared under a name, if the name is declared.
pub open spec fn spec_lookup(s: Seq<(Seq<char>, Type)>, name: Seq<char>) -> Option<Type> {
    match spec_position(s, name) {
        Some(i) => Some(s[i].1),
        None => None,
    }
}

/// How many of the parameters have a name that comes before `name`.
pub open spec fn spec_rank(s: Seq<(Seq<char>, Type)>, name: Seq<char>) -> int
    decreases s.len(),
{
    if s.len() == 0 {
        0
    } else {
        spec_rank(s.drop_last(), name) + if spec_name_lt(s.last().0, name) {
            1int
        } else {
            0int
        }
    }
}

/// A sorted list with `name` declared as `value_type`: in place of the entry
/// of that name if there is one, else at the place that keeps the list
/// sorted.
pub open spec fn spec_insert(s: Seq<(Seq<char>, Type)>, name: Seq<char>, value_type: Type) -> Seq<
    (Seq<char>, Type),
> {
    let at = spec_rank(s, name);
    if 0 <= at < s.len() && s[at].0 == name {
        s.update(at, (name, value_type))
    } else {
        s.insert(at, (name, value_type))
    }
}

/// In a sorted list a name is found at the one place where it stands.
pub proof fn lemma_lookup_at(s: Seq<(Seq<char>, Type)>, at: int)
    requires
        spec_sorted(s),
        0 <= at < s.len(),
    ensures
        spec_position(s, s[at].0) == Some(at),
        spec_lookup(s, s[at].0) == Some(s[at].1),
{
    let name = s[at].0;
    let found = choose|i: int| 0 <= i < s.len() && (#[trigger] s[i]).0 == name;
    lemma_name_order(name, name, name);
    if found < at {
        assert(spec_name_lt(s[found].0, s[at].0));
    } else if at < found {
        assert(spec_name_lt(s[at].0, s[found].0));
    }
}

/// The rank of a name is the place that splits a list into the names before
/// it and the others.
pub proof fn lemma_rank_at(s: Seq<(Seq<char>, Type)>, name: Seq<char>, at: int)
    requires
        0 <= at <= s.len(),
        forall|k: int| 0 <= k < at ==> spec_name_lt((#[trigger] s[k]).0, name),
        forall|k: int| at <= k < s.len() ==> !spec_name_lt((#[trigger] s[k]).0, name),
    ensures
        spec_rank(s, name) == at,
    decreases s.len(),
{
    if s.len() > 0 {
        let t = s.drop_last();
        if at == s.len() {
            lemma_rank_at(t, name, at - 1);
        } else {
            lemma_rank_at(t, name, at);
        }
    }
}

/// In a sorted list the rank of a name is where the name stands or would
/// stand: the names before that place come before it, those from that place
/// on do not.
pub proof fn lemma_rank_splits(s: Seq<(Seq<char>, Type)>, name: Seq<char>)
    requires
        spec_sorted(s),
    ensures
        0 <= spec_rank(s, name) <= s.len(),
        forall|k: int| 0 <= k < spec_rank(s, name) ==> spec_name_lt((#[trigger] s[k]).0, name),
        forall|k: int|
            spec_rank(s, name) <= k < s.len() ==> !spec_name_lt((#[trigger] s[k]).0, name),
    decreases s.len(),
{
    if s.len() > 0 {
        let t = s.drop_last();
        lemma_rank_splits(t, name);
        let r = spec_rank(t, name);
        if spec_name_lt(s.last().0, name) {
            // every earlier name comes before the last one, hence before `name`
            assert forall|k: int| 0 <= k < s.len() implies spec_name_lt((#[trigger] s[k]).0, name) by {
                if k < s.len() - 1 {
                    assert(spec_name_lt(s[k].0, s[s.len() - 1].0));
                    lemma_name_order(s[k].0, s.last().0, name);
                }
            }
            if r < t.len() {
                assert(!spec_name_lt(t[r].0, name));
                assert(t[r] == s[r]);
            }
        } else {
            assert forall|k: int| r <= k < s.len() implies !spec_name_lt((#[trigger] s[k]).0, name) by {
                if k < s.len() - 1 {
                    assert(t[k] == s[k]);
                }
            }
            assert forall|k: int| 0 <= k < r implies spec_name_lt((#[trigger] s[k]).0, name) by {
                assert(t[k] == s[k]);
            }
        }
    }
}

/// What inserting does to a sorted list: the list stays sorted, the name is
/// then declared with the new type, and every other name keeps what it had.
pub proof fn lemma_insert(s: Seq<(Seq<char>, Type)>, name: Seq<char>, value_type: Type)
    requires
        spec_sorted(s),
    ensures
        spec_sorted(spec_insert(s, name, value_type)),
        spec_lookup(spec_insert(s, name, value_type), name) == Some(value_type),
        forall|other: Seq<char>|
            other != name ==> spec_lookup(spec_insert(s, name, value_type), other) == spec_lookup(
                s,
                other,
            ),
        spec_insert(s, name, value_type).len() == if spec_lookup(s, name) is Some {
            s.len()
        } else {
            s.len() + 1
        },
{
    let at = spec_rank(s, name);
    let r = spec_insert(s, name, value_type);
    lemma_rank_splits(s, name);
    let replace = 0 <= at < s.len() && s[at].0 == name;
    // where each entry of the old list stands in the new one
    let moved = |i: int| if replace || i < at { i } else { i + 1 };
    assert forall|i: int| 0 <= i < s.len() && !(replace && i == at) implies r[moved(i)] == s[i] by {}
    assert(r[at] == (name, value_type));
    assert forall|i: int, j: int| 0 <= i < j < r.len() implies spec_name_lt(
        (#[trigger] r[i]).0,
        (#[trigger] r[j]).0,
    ) by {
        if replace {
            assert(r[i].0 == s[i].0 && r[j].0 == s[j].0);
            assert(spec_name_lt(s[i].0, s[j].0));
        } else {
            let si = if i < at { i } else { i - 1 };
            let sj = if j < at { j } else { j - 1 };
            if i == at {
                // the new name against a later one
                assert(r[j] == s[sj]);
                assert(!spec_name_lt(s[sj].0, name));
                lemma_name_order(name, s[sj].0, name);
                if s[sj].0 == name {
                    assert(!spec_name_lt(s[at].0, name));
                    if sj > at {
                        assert(spec_name_lt(s[at].0, s[sj].0));
                    }
                }
            } else if j == at {
                assert(r[i] == s[si]);
            } else {
                assert(r[i] == s[si] && r[j] == s[sj]);
                assert(spec_name_lt(s[si].0, s[sj].0));
            }
        }
    }
    lemma_lookup_at(r, at);
    assert forall|other: Seq<char>| other != name implies spec_lookup(r, other) == spec_lookup(
        s,
        other,
    ) by {
        if exists|i: int| 0 <= i < s.len() && (#[trigger] s[i]).0 == other {
            let i = choose|i: int| 0 <= i < s.len() && (#[trigger] s[i]).0 == other;
            lemma_lookup_at(s, i);
            assert(r[moved(i)] == s[i]);
            lemma_lookup_at(r, moved(i));
        } else {
            if exists|i: int| 0 <= i < r.len() && (#[trigger] r[i]).0 == other {
                let i = choose|i: int| 0 <= i < r.len() && (#[trigger] r[i]).0 == other;
                let si = if replace || i < at { i } else { i - 1 };
                assert(i != at);
                assert(r[i] == s[si]);
                assert(s[si].0 == other);
            }
        }
    }
    if spec_lookup(s, name) is Some {
        let i = choose|i: int| 0 <= i < s.len() && (#[trigger] s[i]).0 == name;
        lemma_name_order(name, name, name);
        assert(!spec_name_lt(s[i].0, name));
        if at < i {
            assert(spec_name_lt(s[at].0, s[i].0));
            assert(!spec_name_lt(s[at].0, name));
        }
        assert(at == i);
    }
}

/// The parameters of a plugin: a mapping from parameter name to value type,
/// kept in the order of the names.
#[derive(Debug, PartialEq, Eq)]
pub struct ParameterMap {
    entries: Vec<Parameter>,
}

impl Clone for ParameterMap {
    fn clone(&self) -> (copy: ParameterMap)
        ensures
            copy@ == self@,
    {
        proof {
            use_type_invariant(self);
        }
        let mut entries: Vec<Parameter> = Vec::new();
        let mut i: usize = 0;
        while i < self.entries.len()
            invariant
                i <= self.entries@.len(),
                entries@.len() == i,
                forall|k: int| 0 <= k < i ==> (#[trigger] entries@[k])@ == self.entries@[k]@,
            decreases self.entries@.len() - i,
        {
            entries.push(self.entries[i].clone());
            i += 1;
        }
        assert(Seq::new(entries@.len(), |i: int| entries@[i]@) =~= self@);
        ParameterMap { entries }
    }
}

impl View for ParameterMap {
    type V = Seq<(Seq<char>, Type)>;

    closed spec fn view(&self) -> Seq<(Seq<char>, Type)> {
        Seq::new(self.entries@.len(), |i: int| self.entries@[i]@)
    }
}

impl ParameterMap {
    /// Every map keeps its parameters in the strict order of their names.
    #[verifier::type_invariant]
    pub closed spec fn ordered(&self) -> bool {
        spec_sorted(self@)
    }

    /// A mapping without parameters.
    pub fn new() -> (map: ParameterMap)
        ensures
            map@ == Seq::<(Seq<char>, Type)>::empty(),
    {
        let map = ParameterMap { entries: Vec::new() };
        assert(map@ =~= Seq::<(Seq<char>, Type)>::empty());
        map
    }

    /// The number of parameters.
    pub fn len(&self) -> (n: usize)
        ensures
            n == self@.len(),
            spec_sorted(self@),
    {
        proof {
            use_type_invariant(self);
        }
        self.entries.len()
    }

    /// The `index`-th parameter in the order of the names, if there are that
    /// many.
    pub fn parameter(&self, index: usize) -> (found: Option<&Parameter>)
        ensures
            match found {
                Some(parameter) => index < self@.len() && parameter@ == self@[index as int],
                None => index >= self@.len(),
            },
    {
        if index < self.entries.len() {
            Some(&self.entries[index])
        } else {
            None
        }
    }

    // The `index`-th parameter in the order of the names.
    pub(crate) fn entry(&self, index: usize) -> (parameter: &Parameter)
        requires
            index < self@.len(),
        ensures
            parameter@ == self@[index as int],
    {
        &self.entries[index]
    }

    // The place where `name` stands or would stand, and whether it stands there.
    fn locate(&self, name: &str) -> (place: (usize, bool))
        ensures
            spec_sorted(self@),
            place.0 == spec_rank(self@, name@),
            place.0 <= self@.len(),
            place.1 == (place.0 < self@.len() && self@[place.0 as int].0 == name@),
            place.1 == (spec_lookup(self@, name@) is Some),
    {
        proof {
            use_type_invariant(self);
        }
        let ghost s = self@;
        let mut i: usize = 0;
        let mut found = false;
        while i < self.entries.len()
            invariant_except_break
                !found,
            invariant
                s == self@,
                spec_sorted(s),
                i <= s.len(),
                s.len() == self.entries@.len(),
                forall|k: int| 0 <= k < i ==> spec_name_lt((#[trigger] s[k]).0, name@),
            ensures
                i <= s.len(),
                forall|k: int| 0 <= k < i ==> spec_name_lt((#[trigger] s[k]).0, name@),
                i < s.len() ==> !spec_name_lt(s[i as int].0, name@),
                found == (i < s.len() && s[i as int].0 == name@),
            decreases s.len() - i,
        {
            assert(s[i as int] == self.entries@[i as int]@);
            match compare_names(self.entries[i].name.as_str(), name) {
                NameOrder::Before => {
                    i += 1;
                },
                NameOrder::Same => {
                    proof {
                        lemma_name_order(name@, name@, name@);
                    }
                    found = true;
                    break ;
                },
                NameOrder::After => {
                    break ;
                },
            }
        }
        proof {
            assert forall|k: int| i <= k < s.len() implies !spec_name_lt((#[trigger] s[k]).0, name@) by {
                if k > i {
                    assert(spec_name_lt(s[i as int].0, s[k].0));
                    lemma_name_order(s[i as int].0, s[k].0, name@);
                }
            }
            lemma_rank_at(s, name@, i as int);
            if found {
                lemma_lookup_at(s, i as int);
            } else if exists|k: int| 0 <= k < s.len() && (#[trigger] s[k]).0 == name@ {
                let k = choose|k: int| 0 <= k < s.len() && (#[trigger] s[k]).0 == name@;
                lemma_name_order(name@, name@, name@);
                if k > i {
                    lemma_name_order(s[i as int].0, name@, s[i as int].0);
                    assert(spec_name_lt(s[i as int].0, s[k].0));
                }
            }
        }
        (i, found)
    }

    /// The type declared under `name`, if the name is declared.
    pub fn get(&self, name: &str) -> (found: Option<Type>)
        ensures
            found == spec_lookup(self@, name@),
    {
        let (at, present) = self.locate(name);
        if present {
            proof {
                lemma_lookup_at(self@, at as int);
            }
            Some(self.entries[at].value_type)
        } else {
            None
        }
    }

    /// Declares `name` with `value_type`, in place of what the name had
    /// before, and returns the type it had.
    pub fn insert(&mut self, name: String, value_type: Type) -> (previous: Option<Type>)
        ensures
            final(self)@ == spec_insert(old(self)@, name@, value_type),
            previous == spec_lookup(old(self)@, name@),
            spec_sorted(final(self)@),
    {
        let (at, present) = self.locate(name.as_str());
        let ghost before = self@;
        proof {
            lemma_insert(before, name@, value_type);
        }
        if present {
            proof {
                lemma_lookup_at(before, at as int);
            }
            let previous = self.entries[at].value_type;
            let mut entries = Vec::new();
            core::mem::swap(&mut entries, &mut self.entries);
            entries.set(at, Parameter { name, value_type });
            assert(Seq::new(entries@.len(), |i: int| entries@[i]@) =~= spec_insert(
                before,
                name@,
                value_type,
            ));
            let next = ParameterMap { entries };
            *self = next;
            Some(previous)
        } else {
            let mut entries = Vec::new();
            core::mem::swap(&mut entries, &mut self.entries);
            entries.insert(at, Parameter { name, value_type });
            assert(Seq::new(entries@.len(), |i: int| entries@[i]@) =~= spec_insert(
                before,
                name@,
                value_type,
            ));
            let next = ParameterMap { entries };
            *self = next;
            None
        }
    }
}

/// What a plugin declares about itself: the function to call, the parameters
/// it takes, the type of its result and the field of its answer that holds
/// the result.
#[derive(Debug, PartialEq, Eq)]
pub struct PluginMetadata {
    pub entry_point: String,
    pub parameters: ParameterMap,
    pub return_type: Type,
    pub return_field: String,
}

impl Clone for PluginMetadata {
    fn clone(&self) -> (copy: PluginMetadata)
        ensures
            copy@ == self@,
    {
        PluginMetadata {
            entry_point: self.entry_point.clone(),
            parameters: self.parameters.clone(),
            return_type: self.return_type,
            return_field: self.return_field.clone(),
        }
    }
}

/// The mathematical content of a [`PluginMetadata`].
pub struct PluginMetadataView {
    pub entry_point: Seq<char>,
    pub parameters: Seq<(Seq<char>, Type)>,
    pub return_type: Type,
    pub return_field: Seq<char>,
}

impl View for PluginMetadata {
    type V = PluginMetadataView;

    open spec fn view(&self) -> PluginMetadataView {
        PluginMetadataView {
            entry_point: self.entry_point@,
            parameters: self.parameters@,
            return_type: self.return_type,
            return_field: self.return_field@,
        }
    }
}

} // verus!
