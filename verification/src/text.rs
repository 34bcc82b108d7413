//! Small text utilities shared by the rest of the crate: decimal rendering
//! of indices and string concatenation with exact contracts.
use vstd::prelude::*;
use vstd::string::StringExecFns;
use vstd::utf8::{encode_utf8, encode_utf8_decode_utf8};

verus! {

/// The character of a decimal digit.
pub open spec fn digit_char(d: nat) -> char
    recommends
        d < 10,
{
    if d == 0 {
        '0'
    } else if d == 1 {
        '1'
    } else if d == 2 {
        '2'
    } else if d == 3 {
        '3'
    } else if d == 4 {
        '4'
    } else if d == 5 {
        '5'
    } else if d == 6 {
        '6'
    } else if d == 7 {
        '7'
    } else if d == 8 {
        '8'
    } else {
        '9'
    }
}

/// The decimal text of a natural number, as `{}` formatting prints it:
/// no sign, no leading zeros, and `"0"` for zero.
pub open spec fn decimal_text(n: nat) -> Seq<char>
    decreases n,
{
    if n < 10 {
        seq![digit_char(n)]
    } else {
        decimal_text(n / 10).push(digit_char(n % 10))
    }
}

fn digit_str(d: usize) -> (s: &'static str)
    requires
        d < 10,
    ensures
        s@ == seq![digit_char(d as nat)],
{
    if d == 0 {
        proof { reveal_strlit("0"); }
        "0"
    } else if d == 1 {
        proof { reveal_strlit("1"); }
        "1"
    } else if d == 2 {
        proof { reveal_strlit("2"); }
        "2"
    } else if d == 3 {
        proof { reveal_strlit("3"); }
        "3"
    } else if d == 4 {
        proof { reveal_strlit("4"); }
        "4"
    } else if d == 5 {
        proof { reveal_strlit("5"); }
        "5"
    } else if d == 6 {
        proof { reveal_strlit("6"); }
        "6"
    } else if d == 7 {
        proof { reveal_strlit("7"); }
        "7"
    } else if d == 8 {
        proof { reveal_strlit("8"); }
        "8"
    } else {
        proof { reveal_strlit("9"); }
        "9"
    }
}

/// Renders `n` in decimal.
pub fn usize_decimal(n: usize) -> (s: String)
    ensures
        s@ == decimal_text(n as nat),
    decreases n,
{
    if n < 10 {
        digit_str(n).to_owned()
    } else {
        let mut s = usize_decimal(n / 10);
        s.append(digit_str(n % 10));
        s
    }
}

/// `prefix` followed by `rest`, as a new string.
pub fn concat_str(prefix: &str, rest: &str) -> (s: String)
    ensures
        s@ == prefix@ + rest@,
{
    let mut s = prefix.to_owned();
    s.append(rest);
    s
}

/// Whether two string slices hold the same characters.
pub fn str_equal(a: &str, b: &str) -> (r: bool)
    ensures
        r == (a@ == b@),
{
    a.to_owned() == b.to_owned()
}

/// Lexicographic order on byte strings: `a` comes strictly before `b`.
pub open spec fn bytes_before(a: Seq<u8>, b: Seq<u8>) -> bool
    decreases a.len(),
{
    if a.len() == 0 {
        b.len() > 0
    } else if b.len() == 0 {
        false
    } else if a[0] < b[0] {
        true
    } else if a[0] > b[0] {
        false
    } else {
        bytes_before(a.drop_first(), b.drop_first())
    }
}

/// The order in which Rust compares strings: lexicographic on their UTF-8
/// encodings.
pub open spec fn text_before(a: Seq<char>, b: Seq<char>) -> bool {
    bytes_before(encode_utf8(a), encode_utf8(b))
}

/// No byte string comes before itself.
pub proof fn lemma_bytes_before_irreflexive(a: Seq<u8>)
    ensures
        !bytes_before(a, a),
    decreases a.len(),
{
    if a.len() > 0 {
        lemma_bytes_before_irreflexive(a.drop_first());
    }
}

/// The byte order is transitive.
pub proof fn lemma_bytes_before_transitive(a: Seq<u8>, b: Seq<u8>, c: Seq<u8>)
    requires
        bytes_before(a, b),
        bytes_before(b, c),
    ensures
        bytes_before(a, c),
    decreases a.len(),
{
    if a.len() > 0 && b.len() > 0 && c.len() > 0 && a[0] == b[0] && b[0] == c[0] {
        lemma_bytes_before_transitive(a.drop_first(), b.drop_first(), c.drop_first());
    }
}

/// Of two different byte strings, exactly one comes first.
pub proof fn lemma_bytes_before_total(a: Seq<u8>, b: Seq<u8>)
    ensures
        a != b ==> (bytes_before(a, b) || bytes_before(b, a)),
        !(bytes_before(a, b) && bytes_before(b, a)),
    decreases a.len(),
{
    if a.len() > 0 && b.len() > 0 && a[0] == b[0] {
        lemma_bytes_before_total(a.drop_first(), b.drop_first());
        if a != b {
            assert(a =~= seq![a[0]] + a.drop_first());
            assert(b =~= seq![b[0]] + b.drop_first());
        }
    } else if a.len() == 0 && b.len() == 0 {
        assert(a =~= b);
    }
}

/// Strings with the same UTF-8 encoding are the same string.
pub proof fn lemma_encoding_injective(a: Seq<char>, b: Seq<char>)
    ensures
        encode_utf8(a) == encode_utf8(b) ==> a == b,
{
    encode_utf8_decode_utf8(a);
    encode_utf8_decode_utf8(b);
}

/// The text order is a strict total order.
pub proof fn lemma_text_before_strict_total(a: Seq<char>, b: Seq<char>, c: Seq<char>)
    ensures
        !text_before(a, a),
        a != b ==> (text_before(a, b) || text_before(b, a)),
        !(text_before(a, b) && text_before(b, a)),
        text_before(a, b) && text_before(b, c) ==> text_before(a, c),
{
    lemma_bytes_before_irreflexive(encode_utf8(a));
    lemma_bytes_before_total(encode_utf8(a), encode_utf8(b));
    lemma_encoding_injective(a, b);
    if text_before(a, b) && text_before(b, c) {
        lemma_bytes_before_transitive(encode_utf8(a), encode_utf8(b), encode_utf8(c));
    }
}

/// Where one string stands relative to another in the text order.
#[derive(Debug, Clone, Copy, PartialEq, Eq, Structural)]
pub enum TextOrder {
    Before,
    Same,
    After,
}

proof fn lemma_bytes_before_skip(a: Seq<u8>, b: Seq<u8>, i: int)
    requires
        0 <= i < a.len(),
        i < b.len(),
        a[i] == b[i],
    ensures
        bytes_before(a.skip(i), b.skip(i)) == bytes_before(a.skip(i + 1), b.skip(i + 1)),
{
    assert(a.skip(i).drop_first() =~= a.skip(i + 1));
    assert(b.skip(i).drop_first() =~= b.skip(i + 1));
}

/// Compares two strings as Rust orders them.
pub fn text_order(a: &str, b: &str) -> (o: TextOrder)
    ensures
        (o == TextOrder::Before) <==> text_before(a@, b@),
        (o == TextOrder::Same) <==> a@ == b@,
        (o == TextOrder::After) <==> text_before(b@, a@),
{
    let ab = a.as_bytes();
    let bb = b.as_bytes();
    let ghost ea = encode_utf8(a@);
    let ghost eb = encode_utf8(b@);
    proof {
        lemma_text_before_strict_total(a@, b@, b@);
        assert(ab@ == ea);
        assert(bb@ == eb);
        assert(ea.skip(0) =~= ea);
        assert(eb.skip(0) =~= eb);
    }
    let mut i: usize = 0;
    while i < ab.len() && i < bb.len()
        invariant
            ab@ == ea,
            bb@ == eb,
            ea == encode_utf8(a@),
            eb == encode_utf8(b@),
            i <= ea.len(),
            i <= eb.len(),
            ea.subrange(0, i as int) =~= eb.subrange(0, i as int),
            bytes_before(ea, eb) == bytes_before(ea.skip(i as int), eb.skip(i as int)),
            bytes_before(eb, ea) == bytes_before(eb.skip(i as int), ea.skip(i as int)),
        decreases ea.len() - i,
    {
        if ab[i] < bb[i] {
            proof {
                assert(ea.skip(i as int)[0] == ea[i as int]);
                assert(eb.skip(i as int)[0] == eb[i as int]);
                assert(ea != eb);
            }
            return TextOrder::Before;
        }
        if ab[i] > bb[i] {
            proof {
                assert(ea.skip(i as int)[0] == ea[i as int]);
                assert(eb.skip(i as int)[0] == eb[i as int]);
                assert(ea != eb);
            }
            return TextOrder::After;
        }
        proof {
            lemma_bytes_before_skip(ea, eb, i as int);
            lemma_bytes_before_skip(eb, ea, i as int);
            assert(ea.subrange(0, i + 1) =~= ea.subrange(0, i as int).push(ea[i as int]));
            assert(eb.subrange(0, i + 1) =~= eb.subrange(0, i as int).push(eb[i as int]));
        }
        i = i + 1;
    }
    if ab.len() < bb.len() {
        TextOrder::Before
    } else if ab.len() > bb.len() {
        TextOrder::After
    } else {
        proof {
            assert(ea =~= ea.subrange(0, i as int));
            assert(eb =~= eb.subrange(0, i as int));
            lemma_encoding_injective(a@, b@);
        }
        TextOrder::Same
    }
}

} // verus!
