//! Text helpers: literal-backed strings, byte-wise ordering, and the few
//! standard-library text transformations that the core relies on.

use vstd::prelude::*;
use vstd::utf8::*;

verus! {

broadcast use vstd::utf8::encode_utf8_decode_utf8;

/// The UTF-8 bytes of a text, whose lexicographic order is the order of `String`.
pub open spec fn text_bytes(s: Seq<char>) -> Seq<u8> {
    encode_utf8(s)
}

/// Strict lexicographic order on byte sequences.
pub open spec fn bytes_less(a: Seq<u8>, b: Seq<u8>) -> bool
    decreases a.len(),
{
    if a.len() == 0 {
        b.len() > 0
    } else if b.len() == 0 {
        false
    } else if a[0] < b[0] {
        true
    } else if a[0] > b[0] {
        false
    } else {
        bytes_less(a.drop_first(), b.drop_first())
    }
}

/// The order of `String`: lexicographic on the UTF-8 bytes.
pub open spec fn text_less(a: Seq<char>, b: Seq<char>) -> bool {
    bytes_less(text_bytes(a), text_bytes(b))
}

pub proof fn lemma_bytes_less_irreflexive(a: Seq<u8>)
    ensures
        !bytes_less(a, a),
    decreases a.len(),
{
    if a.len() > 0 {
        lemma_bytes_less_irreflexive(a.drop_first());
    }
}

pub proof fn lemma_bytes_less_asymmetric(a: Seq<u8>, b: Seq<u8>)
    ensures
        bytes_less(a, b) ==> !bytes_less(b, a),
    decreases a.len(),
{
    if a.len() > 0 && b.len() > 0 && a[0] == b[0] {
        lemma_bytes_less_asymmetric(a.drop_first(), b.drop_first());
    }
}

pub proof fn lemma_bytes_less_transitive(a: Seq<u8>, b: Seq<u8>, c: Seq<u8>)
    ensures
        bytes_less(a, b) && bytes_less(b, c) ==> bytes_less(a, c),
    decreases a.len(),
{
    if a.len() > 0 && b.len() > 0 && c.len() > 0 {
        lemma_bytes_less_transitive(a.drop_first(), b.drop_first(), c.drop_first());
    }
}

pub proof fn lemma_bytes_less_total(a: Seq<u8>, b: Seq<u8>)
    ensures
        a != b ==> bytes_less(a, b) || bytes_less(b, a),
    decreases a.len(),
{
    if a.len() > 0 && b.len() > 0 {
        lemma_bytes_less_total(a.drop_first(), b.drop_first());
        if a[0] == b[0] && a != b {
            assert(a.drop_first() != b.drop_first()) by {
                if a.drop_first() == b.drop_first() {
                    assert(a =~= seq![a[0]] + a.drop_first());
                    assert(b =~= seq![b[0]] + b.drop_first());
                }
            }
        }
    } else if a.len() == 0 && b.len() == 0 {
        assert(a =~= b);
    }
}

/// `text_less` is a strict total order on texts.
pub proof fn lemma_text_less_order(a: Seq<char>, b: Seq<char>, c: Seq<char>)
    ensures
        !text_less(a, a),
        text_less(a, b) ==> !text_less(b, a),
        text_less(a, b) && text_less(b, c) ==> text_less(a, c),
        a != b ==> text_less(a, b) || text_less(b, a),
{
    lemma_bytes_less_irreflexive(text_bytes(a));
    lemma_bytes_less_asymmetric(text_bytes(a), text_bytes(b));
    lemma_bytes_less_transitive(text_bytes(a), text_bytes(b), text_bytes(c));
    lemma_bytes_less_total(text_bytes(a), text_bytes(b));
    if a != b {
        assert(decode_utf8(text_bytes(a)) == a);
        assert(decode_utf8(text_bytes(b)) == b);
    }
}

/// Byte-wise strict comparison of two texts.
pub fn less_than(a: &str, b: &str) -> (r: bool)
    ensures
        r == text_less(a@, b@),
{
    let x = a.as_bytes();
    let y = b.as_bytes();
    let mut i: usize = 0;
    assert(x@.skip(0) =~= x@);
    assert(y@.skip(0) =~= y@);
    while i < x.len() && i < y.len()
        invariant
            x@ == text_bytes(a@),
            y@ == text_bytes(b@),
            i <= x@.len(),
            i <= y@.len(),
            bytes_less(x@, y@) == bytes_less(x@.skip(i as int), y@.skip(i as int)),
        decreases x@.len() - i,
    {
        if x[i] < y[i] {
            assert(x@.skip(i as int)[0] == x@[i as int]);
            assert(y@.skip(i as int)[0] == y@[i as int]);
            return true;
        }
        if x[i] > y[i] {
            assert(x@.skip(i as int)[0] == x@[i as int]);
            assert(y@.skip(i as int)[0] == y@[i as int]);
            return false;
        }
        assert(x@.skip(i as int).drop_first() =~= x@.skip(i + 1 as int));
        assert(y@.skip(i as int).drop_first() =~= y@.skip(i + 1 as int));
        i = i + 1;
    }
    assert(i == x@.len() ==> x@.skip(i as int).len() == 0);
    assert(i == y@.len() ==> y@.skip(i as int).len() == 0);
    i == x.len() && i < y.len()
}

/// A fresh `String` holding exactly the given text.
pub fn text(s: &str) -> (r: String)
    ensures
        r@ == s@,
{
    s.to_owned()
}

/// Equality of a `String` with a literal.
pub fn is_text(s: &String, literal: &str) -> (r: bool)
    ensures
        r == (s@ == literal@),
{
    let other = literal.to_owned();
    *s == other
}

/// Equality of an optional `String` with a literal.
pub fn is_some_text(s: &Option<String>, literal: &str) -> (r: bool)
    ensures
        r == (s matches Some(v) && v@ == literal@),
{
    match s {
        Some(v) => is_text(v, literal),
        None => false,
    }
}

/// A copy of an optional `String`.
pub fn copy_optional_text(s: &Option<String>) -> (r: Option<String>)
    ensures
        r == *s,
{
    match s {
        Some(v) => Some(v.clone()),
        None => None,
    }
}

/// A copy of a list of texts.
pub fn copy_texts(v: &Vec<String>) -> (r: Vec<String>)
    ensures
        r@ == v@,
{
    let mut r: Vec<String> = Vec::new();
    for i in 0..v.len()
        invariant
            r@ == v@.take(i as int),
    {
        r.push(v[i].clone());
        assert(r@ =~= v@.take(i + 1 as int));
    }
    assert(v@.take(v.len() as int) =~= v@);
    r
}

/// Whether a list of texts holds the given text.
pub fn contains_text(v: &Vec<String>, s: &String) -> (r: bool)
    ensures
        r == exists|i: int| 0 <= i < v@.len() && v@[i]@ == s@,
{
    for i in 0..v.len()
        invariant
            forall|j: int| 0 <= j < i ==> v@[j]@ != s@,
    {
        if v[i] == *s {
            return true;
        }
    }
    false
}

/// Whether two lists of texts hold the same texts in the same order.
pub fn same_texts(a: &Vec<String>, b: &Vec<String>) -> (r: bool)
    ensures
        r == (a@.len() == b@.len() && forall|i: int| 0 <= i < a@.len() ==> a@[i]@ == b@[i]@),
{
    if a.len() != b.len() {
        return false;
    }
    for i in 0..a.len()
        invariant
            a@.len() == b@.len(),
            forall|j: int| 0 <= j < i ==> a@[j]@ == b@[j]@,
    {
        if a[i] != b[i] {
            return false;
        }
    }
    true
}

/// The decimal digits of a natural number.
pub open spec fn decimal(n: nat) -> Seq<char>
    decreases n,
{
    if n < 10 {
        seq![digit_char(n)]
    } else {
        decimal(n / 10).push(digit_char(n % 10))
    }
}

pub open spec fn digit_char(d: nat) -> char {
    if d == 0 { '0' }
    else if d == 1 { '1' }
    else if d == 2 { '2' }
    else if d == 3 { '3' }
    else if d == 4 { '4' }
    else if d == 5 { '5' }
    else if d == 6 { '6' }
    else if d == 7 { '7' }
    else if d == 8 { '8' }
    else { '9' }
}

/// The one-character text of a decimal digit.
fn digit_text(d: u64) -> (r: String)
    requires
        d < 10,
    ensures
        r@ == seq![digit_char(d as nat)],
{
    proof {
        reveal_strlit("0"); reveal_strlit("1"); reveal_strlit("2"); reveal_strlit("3"); reveal_strlit("4");
        reveal_strlit("5"); reveal_strlit("6"); reveal_strlit("7"); reveal_strlit("8"); reveal_strlit("9");
    }
    let s = if d == 0 { "0" } else if d == 1 { "1" } else if d == 2 { "2" } else if d == 3 { "3" }
        else if d == 4 { "4" } else if d == 5 { "5" } else if d == 6 { "6" } else if d == 7 { "7" }
        else if d == 8 { "8" } else { "9" };
    let r = text(s);
    assert(r@ =~= seq![digit_char(d as nat)]);
    r
}

/// The plain decimal digits of a number, without sign, padding or separators.
pub(crate) fn decimal_text(n: u64) -> (r: String)
    ensures
        r@ == decimal(n as nat),
    decreases n,
{
    if n < 10 {
        digit_text(n)
    } else {
        let head = decimal_text(n / 10);
        let r = head.concat(digit_text(n % 10).as_str());
        assert(r@ =~= decimal((n / 10) as nat).push(digit_char((n % 10) as nat)));
        r
    }
}

/// The ASCII lower-case image of a character.
pub open spec fn ascii_lower(c: char) -> char {
    if 'A' <= c && c <= 'Z' {
        ((c as u32) + 32) as char
    } else {
        c
    }
}

/// `str::to_ascii_lowercase`: every ASCII upper-case letter is replaced by
/// its lower-case letter and every other character is kept.
#[verifier::external_body]
pub(crate) fn ascii_lowercase(s: &str) -> (r: String)
    ensures
        r@ == s@.map_values(|c: char| ascii_lower(c)),
{
    s.to_ascii_lowercase()
}

/// The full Unicode lower-case mapping of a text, as `str::to_lowercase`
/// computes it.
pub uninterp spec fn unicode_lowercase(s: Seq<char>) -> Seq<char>;

/// The full Unicode upper-case mapping of a text, as `str::to_uppercase`
/// computes it.
pub uninterp spec fn unicode_uppercase(s: Seq<char>) -> Seq<char>;

/// `str::to_lowercase`: its result is a function of the text alone.
#[verifier::external_body]
pub(crate) fn lowercase(s: &str) -> (r: String)
    ensures
        r@ == unicode_lowercase(s@),
{
    s.to_lowercase()
}

/// `str::to_uppercase`: its result is a function of the text alone.
#[verifier::external_body]
pub(crate) fn uppercase(s: &str) -> (r: String)
    ensures
        r@ == unicode_uppercase(s@),
{
    s.to_uppercase()
}

/// Unicode `White_Space`, the property that `str::trim` removes.
pub open spec fn is_white_space(c: char) -> bool {
    let u = c as u32;
    (0x09 <= u && u <= 0x0d) || u == 0x20 || u == 0x85 || u == 0xa0 || u == 0x1680
        || (0x2000 <= u && u <= 0x200a) || u == 0x2028 || u == 0x2029 || u == 0x202f
        || u == 0x205f || u == 0x3000
}

pub open spec fn trim_start(s: Seq<char>) -> Seq<char>
    decreases s.len(),
{
    if s.len() > 0 && is_white_space(s[0]) {
        trim_start(s.drop_first())
    } else {
        s
    }
}

pub open spec fn trim_end(s: Seq<char>) -> Seq<char>
    decreases s.len(),
{
    if s.len() > 0 && is_white_space(s.last()) {
        trim_end(s.drop_last())
    } else {
        s
    }
}

/// The text without leading and trailing white space.
pub open spec fn trimmed(s: Seq<char>) -> Seq<char> {
    trim_end(trim_start(s))
}

/// `str::trim`: leading and trailing Unicode white space removed.
#[verifier::external_body]
pub(crate) fn trim(s: &str) -> (r: String)
    ensures
        r@ == trimmed(s@),
{
    s.trim().to_owned()
}

} // verus!

verus! {

/// The texts are in strictly increasing `String` order (so without repeats).
pub open spec fn strictly_sorted(s: Seq<Seq<char>>) -> bool {
    forall|i: int, j: int| 0 <= i < j < s.len() ==> text_less(s[i], s[j])
}

/// Adds a text to a strictly sorted list of texts, keeping it strictly
/// sorted; a text already present leaves the list unchanged.
pub fn insert_sorted_text(v: &mut Vec<String>, s: String)
    requires
        strictly_sorted(texts_of(old(v)@)),
    ensures
        strictly_sorted(texts_of(final(v)@)),
        forall|x: Seq<char>| texts_of(final(v)@).contains(x) <==> (texts_of(old(v)@).contains(x) || x == s@),
{
    let ghost before = texts_of(v@);
    let mut i: usize = 0;
    while i < v.len()
        invariant
            texts_of(v@) == before,
            i <= v@.len(),
            strictly_sorted(before),
            forall|j: int| 0 <= j < i ==> text_less(#[trigger] before[j], s@),
        ensures
            texts_of(v@) == before,
            i <= v@.len(),
            forall|j: int| 0 <= j < i ==> text_less(#[trigger] before[j], s@),
            i < v@.len() ==> before[i as int] != s@ && !text_less(before[i as int], s@),
        decreases v@.len() - i,
    {
        if v[i] == s {
            assert(before.contains(s@)) by { assert(before[i as int] == s@); }
            return;
        }
        if less_than(v[i].as_str(), s.as_str()) {
            i = i + 1;
        } else {
            break;
        }
    }
    proof {
        if i < v@.len() {
            lemma_text_less_order(s@, before[i as int], s@);
            assert(before[i as int] != s@);
            lemma_text_less_order(before[i as int], s@, s@);
            assert(text_less(s@, before[i as int]));
        }
    }
    v.insert(i, s);
    let ghost after = texts_of(v@);
    assert(after =~= before.take(i as int).push(s@) + before.skip(i as int));
    assert forall|a: int, b: int| 0 <= a < b < after.len() implies text_less(after[a], after[b]) by {
        if b < i {
        } else if a < i && b == i {
        } else if a < i && b > i {
            assert(after[b] == before[b - 1]);
            lemma_text_less_order(before[a], s@, before[b - 1]);
            assert(text_less(s@, before[i as int]));
            if b - 1 > i {
                lemma_text_less_order(s@, before[i as int], before[b - 1]);
            }
        } else if a == i {
            assert(after[b] == before[b - 1]);
            if b - 1 > i {
                lemma_text_less_order(s@, before[i as int], before[b - 1]);
            }
        } else {
            assert(after[a] == before[a - 1]);
            assert(after[b] == before[b - 1]);
        }
    }
    assert forall|x: Seq<char>| after.contains(x) <==> (before.contains(x) || x == s@) by {
        if after.contains(x) {
            let k = choose|k: int| 0 <= k < after.len() && after[k] == x;
            if k < i {
                assert(before[k] == x);
            } else if k > i {
                assert(before[k - 1] == x);
            }
        }
        if before.contains(x) {
            let k = choose|k: int| 0 <= k < before.len() && before[k] == x;
            if k < i {
                assert(after[k] == x);
            } else {
                assert(after[k + 1] == x);
            }
        }
        if x == s@ {
            assert(after[i as int] == x);
        }
    }
}

/// The texts of a list of strings (the same as `model::texts`).
pub open spec fn texts_of(v: Seq<String>) -> Seq<Seq<char>> {
    v.map_values(|s: String| s@)
}

} // verus!
