//! SHA-256 through the `sha2` crate, and the lowercase hexadecimal and decimal
//! renderings the harness builds its identities from.

use vstd::prelude::*;
use crate::identity::{is_lower_hex_char, is_lower_hex_digest};

verus! {

/// The SHA-256 digest of a byte string, as computed by the `sha2` crate.
pub uninterp spec fn sha256_digest(bytes: Seq<u8>) -> Seq<u8>;

/// Calls `<sha2::Sha256 as sha2::Digest>::digest`: the contract claims that the
/// result is the SHA-256 of exactly the given bytes (named `sha256_digest`) and
/// that it is 32 bytes long, as the digest's output size is fixed at 32.
#[verifier::external_body]
pub(crate) fn sha256(bytes: &[u8]) -> (r: Vec<u8>)
    ensures
        r@ == sha256_digest(bytes@),
        r@.len() == 32,
{
    <sha2::Sha256 as sha2::Digest>::digest(bytes).to_vec()
}

/// The lowercase hexadecimal digit of a nibble.
pub open spec fn hex_char(n: u8) -> char {
    if n < 10 {
        ('0' as u8 + n) as char
    } else {
        ('a' as u8 + (n - 10)) as char
    }
}

/// The lowercase hexadecimal rendering of a byte string, two digits per byte.
pub open spec fn hex_of(bytes: Seq<u8>) -> Seq<char>
    decreases bytes.len(),
{
    if bytes.len() == 0 {
        Seq::empty()
    } else {
        hex_of(bytes.drop_last()) + seq![hex_char(bytes.last() / 16), hex_char(bytes.last() % 16)]
    }
}

/// The lowercase SHA-256 hex digest of a byte string.
pub open spec fn sha256_hex_of(bytes: Seq<u8>) -> Seq<char> {
    hex_of(sha256_digest(bytes))
}

fn hex_digit(n: u8) -> (r: &'static str)
    requires
        n < 16,
    ensures
        r@ == seq![hex_char(n)],
{
    proof {
        reveal_strlit("0");
        reveal_strlit("1");
        reveal_strlit("2");
        reveal_strlit("3");
        reveal_strlit("4");
        reveal_strlit("5");
        reveal_strlit("6");
        reveal_strlit("7");
        reveal_strlit("8");
        reveal_strlit("9");
        reveal_strlit("a");
        reveal_strlit("b");
        reveal_strlit("c");
        reveal_strlit("d");
        reveal_strlit("e");
        reveal_strlit("f");
    }
    let r = match n {
        0 => "0",
        1 => "1",
        2 => "2",
        3 => "3",
        4 => "4",
        5 => "5",
        6 => "6",
        7 => "7",
        8 => "8",
        9 => "9",
        10 => "a",
        11 => "b",
        12 => "c",
        13 => "d",
        14 => "e",
        _ => "f",
    };
    assert(r@ =~= seq![hex_char(n)]);
    r
}

/// Renders bytes as lowercase hexadecimal.
pub fn hex_lower(bytes: &[u8]) -> (r: String)
    ensures
        r@ == hex_of(bytes@),
{
    let mut out = String::new();
    let mut i: usize = 0;
    while i < bytes.len()
        invariant
            i <= bytes@.len(),
            out@ == hex_of(bytes@.subrange(0, i as int)),
        decreases bytes@.len() - i,
    {
        let b = bytes[i];
        out.append(hex_digit(b / 16));
        out.append(hex_digit(b % 16));
        proof {
            let next = bytes@.subrange(0, i + 1);
            assert(next.drop_last() =~= bytes@.subrange(0, i as int));
            assert(next.last() == b);
        }
        i = i + 1;
    }
    assert(bytes@.subrange(0, bytes@.len() as int) =~= bytes@);
    out
}

/// Every hex rendering is as long as two digits per byte, all lowercase hex.
pub proof fn lemma_hex_shape(bytes: Seq<u8>)
    ensures
        hex_of(bytes).len() == 2 * bytes.len(),
        forall|i: int| 0 <= i < hex_of(bytes).len() ==> is_lower_hex_char(#[trigger] hex_of(bytes)[i]),
    decreases bytes.len(),
{
    if bytes.len() > 0 {
        lemma_hex_shape(bytes.drop_last());
        let rest = hex_of(bytes.drop_last());
        let last = bytes.last();
        assert forall|i: int| 0 <= i < hex_of(bytes).len() implies is_lower_hex_char(
            #[trigger] hex_of(bytes)[i],
        ) by {
            if i >= rest.len() {
                assert((last / 16) < 16 && (last % 16) < 16);
            }
        }
    }
}

/// A lowercase SHA-256 hex digest has the digest shape.
pub proof fn lemma_sha256_hex_is_digest(bytes: Seq<u8>)
    requires
        sha256_digest(bytes).len() == 32,
    ensures
        is_lower_hex_digest(sha256_hex_of(bytes)),
{
    lemma_hex_shape(sha256_digest(bytes));
}

/// The lowercase SHA-256 hex digest of a byte string: 64 lowercase hex digits.
pub fn sha256_hex(bytes: &[u8]) -> (r: String)
    ensures
        r@ == sha256_hex_of(bytes@),
        is_lower_hex_digest(r@),
{
    let d = sha256(bytes);
    proof {
        lemma_sha256_hex_is_digest(bytes@);
    }
    hex_lower(d.as_slice())
}

/// The decimal digit of a value below ten.
pub open spec fn decimal_char(n: nat) -> char {
    ('0' as nat + n) as char
}

/// The decimal rendering of a natural number, without leading zeros.
pub open spec fn decimal_of(n: nat) -> Seq<char>
    decreases n,
{
    if n < 10 {
        seq![decimal_char(n)]
    } else {
        decimal_of(n / 10) + seq![decimal_char(n % 10)]
    }
}

fn decimal_digit(n: u64) -> (r: &'static str)
    requires
        n < 10,
    ensures
        r@ == seq![decimal_char(n as nat)],
{
    proof {
        reveal_strlit("0");
        reveal_strlit("1");
        reveal_strlit("2");
        reveal_strlit("3");
        reveal_strlit("4");
        reveal_strlit("5");
        reveal_strlit("6");
        reveal_strlit("7");
        reveal_strlit("8");
        reveal_strlit("9");
    }
    let r = match n {
        0 => "0",
        1 => "1",
        2 => "2",
        3 => "3",
        4 => "4",
        5 => "5",
        6 => "6",
        7 => "7",
        8 => "8",
        _ => "9",
    };
    assert(r@ =~= seq![decimal_char(n as nat)]);
    r
}

/// Renders an unsigned integer in decimal.
pub fn decimal(n: u64) -> (r: String)
    ensures
        r@ == decimal_of(n as nat),
    decreases n,
{
    if n < 10 {
        decimal_digit(n).to_owned()
    } else {
        let mut s = decimal(n / 10);
        s.append(decimal_digit(n % 10));
        s
    }
}

} // verus!
