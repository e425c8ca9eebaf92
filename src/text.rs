//! Byte and text helpers shared by the wire-level code.

use vstd::prelude::*;

verus! {

/// Whether two byte slices are equal.
pub fn bytes_eq(a: &[u8], b: &[u8]) -> (r: bool)
    ensures
        r == (a@ == b@),
{
    if a.len() != b.len() {
        return false;
    }
    let mut i: usize = 0;
    while i < a.len()
        invariant
            a@.len() == b@.len(),
            i <= a@.len(),
            forall|j: int| 0 <= j < i ==> a@[j] == b@[j],
        decreases a@.len() - i,
    {
        if a[i] != b[i] {
            return false;
        }
        i = i + 1;
    }
    assert(a@ =~= b@);
    true
}

/// Whether `s` and `lit` hold the same characters, decided on
/// their UTF-8 bytes.
pub fn str_is(s: &str, lit: &str) -> (r: bool)
    ensures
        r == (s@ == lit@),
{
    let r = bytes_eq(s.as_bytes(), lit.as_bytes());
    proof {
        vstd::utf8::encode_utf8_decode_utf8(s@);
        vstd::utf8::encode_utf8_decode_utf8(lit@);
    }
    r
}

/// The decimal digit character for `d < 10`.
pub open spec fn digit_char(d: nat) -> char {
    if d == 0 { '0' } else if d == 1 { '1' } else if d == 2 { '2' } else if d == 3 { '3' }
    else if d == 4 { '4' } else if d == 5 { '5' } else if d == 6 { '6' } else if d == 7 { '7' }
    else if d == 8 { '8' } else { '9' }
}

/// The decimal text of `n`, without leading zeros.
pub open spec fn decimal(n: nat) -> Seq<char>
    decreases n,
{
    if n < 10 {
        seq![digit_char(n)]
    } else {
        decimal(n / 10) + seq![digit_char(n % 10)]
    }
}

/// The one-character text of the digit `d`.
fn digit_str(d: u64) -> (r: &'static str)
    requires
        d < 10,
    ensures
        r@ == seq![digit_char(d as nat)],
{
    proof {
        reveal_strlit("0");
        reveal_strlit("1");
        reveal_strlit("2");
        reveal_strlit("3");
        reveal_strlit("4");
        reveal_strlit("5");
        reveal_strlit("6");
        reveal_strlit("7");
        reveal_strlit("8");
        reveal_strlit("9");
    }
    if d == 0 { "0" } else if d == 1 { "1" } else if d == 2 { "2" } else if d == 3 { "3" }
    else if d == 4 { "4" } else if d == 5 { "5" } else if d == 6 { "6" } else if d == 7 { "7" }
    else if d == 8 { "8" } else { "9" }
}

/// Appends the decimal text of `n` to `s`.
pub fn append_decimal(s: &mut String, n: u64)
    ensures
        final(s)@ == old(s)@ + decimal(n as nat),
    decreases n,
{
    if n >= 10 {
        append_decimal(s, n / 10);
    }
    s.append(digit_str(n % 10));
    assert(final(s)@ =~= old(s)@ + decimal(n as nat));
}

/// `s` followed by `t`.
pub fn concat_str(s: &str, t: &str) -> (r: String)
    ensures
        r@ == s@ + t@,
{
    let mut r = String::from_str(s);
    r.append(t);
    r
}

/// The dotted-decimal text of an IPv4 address.
pub open spec fn dotted_quad(a: Seq<u8>) -> Seq<char> {
    decimal(a[0] as nat) + "."@ + decimal(a[1] as nat) + "."@ + decimal(a[2] as nat) + "."@ + decimal(
        a[3] as nat,
    )
}

/// The dotted-decimal text of the four address bytes `a`, such as `127.0.0.1`.
pub fn ipv4_text(a: &[u8]) -> (r: String)
    requires
        a@.len() == 4,
    ensures
        r@ == dotted_quad(a@),
{
    let mut r = String::new();
    append_decimal(&mut r, a[0] as u64);
    r.append(".");
    append_decimal(&mut r, a[1] as u64);
    r.append(".");
    append_decimal(&mut r, a[2] as u64);
    r.append(".");
    append_decimal(&mut r, a[3] as u64);
    r
}

/// The text that `String::from_utf8_lossy` makes of `b`.
pub uninterp spec fn utf8_lossy(b: Seq<u8>) -> Seq<char>;

/// Relies on `String::from_utf8_lossy`: decodes `b` as UTF-8, replacing each
/// invalid sequence; the result depends on the bytes alone.
#[verifier::external_body]
pub(crate) fn decode_utf8_lossy(b: &[u8]) -> (r: String)
    ensures
        r@ == utf8_lossy(b@),
{
    String::from_utf8_lossy(b).into_owned()
}

/// The text that `Ipv6Addr`'s `Display` makes of the sixteen address bytes
/// `a` (the RFC 5952 form: lowercase hexadecimal groups, the longest run of
/// zero groups written `::`).
pub uninterp spec fn ipv6_text_of(a: Seq<u8>) -> Seq<char>;

/// Relies on `core::net::Ipv6Addr::from([u8; 16])` and its `Display`: the
/// textual form of an IPv6 address, a function of its bytes alone.
#[verifier::external_body]
pub(crate) fn ipv6_text(a: &[u8]) -> (r: String)
    requires
        a@.len() == 16,
    ensures
        r@ == ipv6_text_of(a@),
{
    let mut octets = [0u8; 16];
    octets.copy_from_slice(a);
    core::net::Ipv6Addr::from(octets).to_string()
}

/// Whether `b` begins with `prefix`.
pub fn starts_with(b: &[u8], prefix: &[u8]) -> (r: bool)
    ensures
        r == (prefix@.len() <= b@.len() && b@.subrange(0, prefix@.len() as int) == prefix@),
{
    if prefix.len() > b.len() {
        return false;
    }
    let mut i: usize = 0;
    while i < prefix.len()
        invariant
            prefix@.len() <= b@.len(),
            i <= prefix@.len(),
            forall|j: int| 0 <= j < i ==> b@[j] == prefix@[j],
        decreases prefix@.len() - i,
    {
        if b[i] != prefix[i] {
            assert(b@.subrange(0, prefix@.len() as int)[i as int] != prefix@[i as int]);
            return false;
        }
        i = i + 1;
    }
    assert(b@.subrange(0, prefix@.len() as int) =~= prefix@);
    true
}

/// Whether `b` ends with `suffix`.
pub fn ends_with(b: &[u8], suffix: &[u8]) -> (r: bool)
    ensures
        r == (suffix@.len() <= b@.len() && b@.subrange(b@.len() - suffix@.len(), b@.len() as int)
            == suffix@),
{
    if suffix.len() > b.len() {
        return false;
    }
    let off = b.len() - suffix.len();
    let mut i: usize = 0;
    while i < suffix.len()
        invariant
            suffix@.len() <= b@.len(),
            off + suffix@.len() == b@.len(),
            b@.len() <= usize::MAX,
            i <= suffix@.len(),
            forall|j: int| 0 <= j < i ==> b@[off + j] == suffix@[j],
        decreases suffix@.len() - i,
    {
        if b[off + i] != suffix[i] {
            assert(b@.subrange(off as int, b@.len() as int)[i as int] != suffix@[i as int]);
            return false;
        }
        i = i + 1;
    }
    assert(b@.subrange(off as int, b@.len() as int) =~= suffix@);
    true
}

} // verus!
