//! Text helpers: the order in which names are kept, the test for names that
//! may stand as identifiers, and the joining of text fragments.

use vstd::prelude::*;
use vstd::string::*;
use vstd::utf8::*;

verus! {

/// How one name stands to another.
#[derive(Clone, Copy, Debug, PartialEq, Eq, Structural)]
pub enum NameOrder {
    Before,
    Same,
    After,
}

/// Lexicographic order on byte strings: the first differing byte decides, and
/// a proper prefix comes first.
pub open spec fn spec_bytes_lt(a: Seq<u8>, b: Seq<u8>) -> bool
    decreases a.len(),
{
    if b.len() == 0 {
        false
    } else if a.len() == 0 {
        true
    } else if a[0] != b[0] {
        a[0] < b[0]
    } else {
        spec_bytes_lt(a.drop_first(), b.drop_first())
    }
}

/// The order of names: that of their UTF-8 encodings, byte by byte.
pub open spec fn spec_name_lt(a: Seq<char>, b: Seq<char>) -> bool {
    spec_bytes_lt(encode_utf8(a), encode_utf8(b))
}

/// The three-way comparison that `spec_name_lt` induces.
pub open spec fn spec_compare_names(a: Seq<char>, b: Seq<char>) -> NameOrder {
    if a == b {
        NameOrder::Same
    } else if spec_name_lt(a, b) {
        NameOrder::Before
    } else {
        NameOrder::After
    }
}

/// No byte string comes before itself.
pub proof fn lemma_bytes_lt_irreflexive(a: Seq<u8>)
    ensures
        !spec_bytes_lt(a, a),
    decreases a.len(),
{
    if a.len() > 0 {
        lemma_bytes_lt_irreflexive(a.drop_first());
    }
}

/// What comes before something that comes before a third comes before the
/// third.
pub proof fn lemma_bytes_lt_transitive(a: Seq<u8>, b: Seq<u8>, c: Seq<u8>)
    requires
        spec_bytes_lt(a, b),
        spec_bytes_lt(b, c),
    ensures
        spec_bytes_lt(a, c),
    decreases a.len(),
{
    if a.len() > 0 && a[0] == b[0] && b[0] == c[0] {
        lemma_bytes_lt_transitive(a.drop_first(), b.drop_first(), c.drop_first());
    }
}

/// Of two different byte strings one comes before the other.
pub proof fn lemma_bytes_lt_total(a: Seq<u8>, b: Seq<u8>)
    ensures
        a == b || spec_bytes_lt(a, b) || spec_bytes_lt(b, a),
    decreases a.len(),
{
    if a.len() == 0 || b.len() == 0 {
        if a.len() == 0 && b.len() == 0 {
            assert(a =~= b);
        }
    } else if a[0] == b[0] {
        lemma_bytes_lt_total(a.drop_first(), b.drop_first());
        if a.drop_first() == b.drop_first() {
            assert(a =~= seq![a[0]] + a.drop_first());
            assert(b =~= seq![b[0]] + b.drop_first());
        }
    }
}

/// Two byte strings that agree on their first `n` bytes compare as what
/// follows those bytes.
pub proof fn lemma_bytes_lt_skip(a: Seq<u8>, b: Seq<u8>, n: int)
    requires
        0 <= n <= a.len(),
        n <= b.len(),
        a.take(n) == b.take(n),
    ensures
        spec_bytes_lt(a, b) == spec_bytes_lt(a.skip(n), b.skip(n)),
    decreases n,
{
    if n == 0 {
        assert(a.skip(0) =~= a);
        assert(b.skip(0) =~= b);
    } else {
        assert(a[0] == a.take(n)[0]);
        assert(b[0] == b.take(n)[0]);
        assert(a.drop_first().take(n - 1) =~= a.take(n).drop_first());
        assert(b.drop_first().take(n - 1) =~= b.take(n).drop_first());
        lemma_bytes_lt_skip(a.drop_first(), b.drop_first(), n - 1);
        assert(a.drop_first().skip(n - 1) =~= a.skip(n));
        assert(b.drop_first().skip(n - 1) =~= b.skip(n));
    }
}

/// Names with the same encoding are the same name.
pub proof fn lemma_encoding_injective(a: Seq<char>, b: Seq<char>)
    requires
        encode_utf8(a) == encode_utf8(b),
    ensures
        a == b,
{
    encode_utf8_decode_utf8(a);
    encode_utf8_decode_utf8(b);
}

/// The order of names is a strict total order.
pub proof fn lemma_name_order(a: Seq<char>, b: Seq<char>, c: Seq<char>)
    ensures
        !spec_name_lt(a, a),
        spec_name_lt(a, b) && spec_name_lt(b, c) ==> spec_name_lt(a, c),
        a == b || spec_name_lt(a, b) || spec_name_lt(b, a),
        !(spec_name_lt(a, b) && spec_name_lt(b, a)),
{
    let (x, y, z) = (encode_utf8(a), encode_utf8(b), encode_utf8(c));
    lemma_bytes_lt_irreflexive(x);
    if spec_bytes_lt(x, y) && spec_bytes_lt(y, z) {
        lemma_bytes_lt_transitive(x, y, z);
    }
    if spec_bytes_lt(x, y) && spec_bytes_lt(y, x) {
        lemma_bytes_lt_transitive(x, y, x);
    }
    lemma_bytes_lt_total(x, y);
    if x == y {
        lemma_encoding_injective(a, b);
    }
}

/// Compares two names in the order in which a sorted map of strings keeps
/// its keys.
pub fn compare_names(a: &str, b: &str) -> (order: NameOrder)
    ensures
        order == spec_compare_names(a@, b@),
{
    let x = a.as_bytes();
    let y = b.as_bytes();
    let mut i: usize = 0;
    while i < x.len() && i < y.len()
        invariant
            i <= x@.len(),
            i <= y@.len(),
            x@.take(i as int) == y@.take(i as int),
            x@ == encode_utf8(a@),
            y@ == encode_utf8(b@),
        decreases x@.len() - i,
    {
        if x[i] != y[i] {
            proof {
                lemma_bytes_lt_skip(x@, y@, i as int);
                assert(x@.skip(i as int)[0] == x@[i as int]);
                assert(y@.skip(i as int)[0] == y@[i as int]);
                if x@[i as int] > y@[i as int] {
                    assert(!spec_bytes_lt(x@.skip(i as int), y@.skip(i as int)));
                }
            }
            if x[i] < y[i] {
                return NameOrder::Before;
            } else {
                return NameOrder::After;
            }
        }
        proof {
            assert(x@.take(i + 1) =~= x@.take(i as int).push(x@[i as int]));
            assert(y@.take(i + 1) =~= y@.take(i as int).push(y@[i as int]));
        }
        i += 1;
    }
    proof {
        lemma_bytes_lt_skip(x@, y@, i as int);
        if x@.len() == y@.len() {
            assert(x@ =~= x@.take(i as int));
            assert(y@ =~= y@.take(i as int));
            lemma_encoding_injective(a@, b@);
        }
    }
    if x.len() == y.len() {
        NameOrder::Same
    } else if x.len() < y.len() {
        NameOrder::Before
    } else {
        NameOrder::After
    }
}

/// Whether two texts are the same.
pub fn same_text(a: &str, b: &str) -> (same: bool)
    ensures
        same == (a@ == b@),
{
    match compare_names(a, b) {
        NameOrder::Same => true,
        _ => false,
    }
}

/// Whether a character may begin an identifier: an ASCII letter or `_`.
pub open spec fn spec_is_identifier_start(c: char) -> bool {
    ('a' <= c <= 'z') || ('A' <= c <= 'Z') || c == '_'
}

/// Whether a character may continue an identifier: an ASCII letter, an ASCII
/// digit or `_`.
pub open spec fn spec_is_identifier_part(c: char) -> bool {
    spec_is_identifier_start(c) || ('0' <= c <= '9')
}

/// Whether a name can be written as an unquoted identifier in a function
/// definition: it is not empty, begins with a letter or `_`, and holds only
/// ASCII letters, digits and `_`.
pub open spec fn spec_is_identifier(name: Seq<char>) -> bool {
    &&& name.len() > 0
    &&& spec_is_identifier_start(name[0])
    &&& forall|i: int| 0 <= i < name.len() ==> spec_is_identifier_part(#[trigger] name[i])
}

/// Decides whether `name` can be written as an unquoted identifier.
pub fn is_identifier(name: &str) -> (ok: bool)
    ensures
        ok == spec_is_identifier(name@),
{
    if !name.is_ascii() {
        proof {
            let i = choose|i: int| 0 <= i < name@.len() && !('\0' <= #[trigger] name@[i] <= '\u{7f}');
            assert(!spec_is_identifier_part(name@[i]));
        }
        return false;
    }
    let bytes = name.as_bytes();
    proof {
        is_ascii_spec_bytes(name);
    }
    if bytes.len() == 0 {
        return false;
    }
    let first: u8 = bytes[0];
    if !((97 <= first && first <= 122) || (65 <= first && first <= 90) || first == 95) {
        return false;
    }
    let mut i: usize = 1;
    while i < bytes.len()
        invariant
            1 <= i <= bytes@.len(),
            bytes@.len() == name@.len(),
            is_ascii_chars(name@),
            forall|k: int| 0 <= k < name@.len() ==> bytes@[k] == (#[trigger] name@[k]) as u8,
            forall|k: int| 0 <= k < i ==> spec_is_identifier_part(#[trigger] name@[k]),
        decreases bytes@.len() - i,
    {
        let b: u8 = bytes[i];
        let ok = (97 <= b && b <= 122) || (65 <= b && b <= 90) || b == 95 || (48 <= b && b <= 57);
        if !ok {
            assert(!spec_is_identifier_part(name@[i as int]));
            return false;
        }
        i += 1;
    }
    true
}

/// Every part but the first, each with the separator before it.
pub open spec fn spec_join_rest(parts: Seq<Seq<char>>, sep: Seq<char>) -> Seq<char>
    decreases parts.len(),
{
    if parts.len() == 0 {
        Seq::empty()
    } else {
        spec_join_rest(parts.drop_last(), sep) + sep + parts.last()
    }
}

/// The parts in order, with the separator between neighbours.
pub open spec fn spec_join(parts: Seq<Seq<char>>, sep: Seq<char>) -> Seq<char> {
    if parts.len() == 0 {
        Seq::empty()
    } else {
        parts[0] + spec_join_rest(parts.skip(1), sep)
    }
}

/// The views of a list of strings.
pub open spec fn spec_texts(parts: Seq<String>) -> Seq<Seq<char>> {
    Seq::new(parts.len(), |i: int| parts[i]@)
}

/// Joins the parts with `sep` between neighbours.
pub fn join(parts: &Vec<String>, sep: &str) -> (text: String)
    ensures
        text@ == spec_join(spec_texts(parts@), sep@),
{
    let mut text = String::new();
    if parts.len() == 0 {
        return text;
    }
    text.append(parts[0].as_str());
    let ghost texts = spec_texts(parts@);
    let mut i: usize = 1;
    assert(texts.skip(1).take(0) =~= Seq::<Seq<char>>::empty());
    while i < parts.len()
        invariant
            1 <= i <= parts@.len(),
            texts == spec_texts(parts@),
            text@ == texts[0] + spec_join_rest(texts.skip(1).take(i - 1), sep@),
        decreases parts@.len() - i,
    {
        text.append(sep);
        text.append(parts[i].as_str());
        proof {
            let done = texts.skip(1).take(i as int);
            assert(done.drop_last() =~= texts.skip(1).take(i - 1));
            assert(done.last() == texts[i as int]);
        }
        i += 1;
    }
    assert(texts.skip(1).take(i - 1) =~= texts.skip(1));
    text
}

} // verus!
