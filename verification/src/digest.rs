//! SHA-256 digests and their textual form.

use vstd::prelude::*;

verus! {

/// The SHA-256 digest of `bytes`.
pub uninterp spec fn sha256_digest(bytes: Seq<u8>) -> Seq<u8>;

/// The hexadecimal digit of `n`, which is below sixteen, in lower case.
pub open spec fn hex_digit(n: int) -> char {
    if n < 10 {
        (('0' as u8) + n) as u8 as char
    } else {
        (('a' as u8) + (n - 10)) as u8 as char
    }
}

/// `bytes` in hexadecimal: two digits for each byte, the higher first.
pub open spec fn lower_hex(bytes: Seq<u8>) -> Seq<char> {
    Seq::new(
        2 * bytes.len(),
        |i: int| hex_digit(if i % 2 == 0 { bytes[i / 2] as int / 16 } else { bytes[i / 2] as int % 16 }),
    )
}

/// The form in which a digest is given: the name of the function, a colon, and the digest in
/// hexadecimal.
pub open spec fn sha256_text(bytes: Seq<u8>) -> Seq<char> {
    "sha256:"@ + lower_hex(sha256_digest(bytes))
}

/// Calls `sha2::Sha256::digest`, which computes the digest of `bytes`.
#[verifier::external_body]
fn digest_of(bytes: &[u8]) -> (digest: [u8; 32])
    ensures
        digest@ == sha256_digest(bytes@),
{
    <sha2::Sha256 as sha2::Digest>::digest(bytes).into()
}

/// The hexadecimal digit of `n`.
fn hex_digit_of(n: u8) -> (text: &'static str)
    requires
        n < 16,
    ensures
        text@ == seq![hex_digit(n as int)],
{
    let text: &'static str = match n {
        0 => "0",
        1 => "1",
        2 => "2",
        3 => "3",
        4 => "4",
        5 => "5",
        6 => "6",
        7 => "7",
        8 => "8",
        9 => "9",
        10 => "a",
        11 => "b",
        12 => "c",
        13 => "d",
        14 => "e",
        _ => "f",
    };
    proof {
        reveal_strlit("0");
        reveal_strlit("1");
        reveal_strlit("2");
        reveal_strlit("3");
        reveal_strlit("4");
        reveal_strlit("5");
        reveal_strlit("6");
        reveal_strlit("7");
        reveal_strlit("8");
        reveal_strlit("9");
        reveal_strlit("a");
        reveal_strlit("b");
        reveal_strlit("c");
        reveal_strlit("d");
        reveal_strlit("e");
        reveal_strlit("f");
        assert(text@ =~= seq![hex_digit(n as int)]);
    }
    text
}

/// `digest` in its textual form.
pub fn digest_text(digest: &[u8]) -> (text: String)
    ensures
        text@ == "sha256:"@ + lower_hex(digest@),
{
    let mut text = "sha256:".to_owned();
    let mut i: usize = 0;
    while i < digest.len()
        invariant
            i <= digest.len(),
            text@ =~= "sha256:"@ + lower_hex(digest@.take(i as int)),
        decreases digest.len() - i,
    {
        let b: u8 = digest[i];
        text.append(hex_digit_of(b / 16));
        text.append(hex_digit_of(b % 16));
        assert(lower_hex(digest@.take(i + 1)) =~= lower_hex(digest@.take(i as int)).push(
            hex_digit(b as int / 16),
        ).push(hex_digit(b as int % 16)));
        i = i + 1;
    }
    assert(digest@.take(digest@.len() as int) =~= digest@);
    text
}

/// The digest of `bytes` in its textual form.
pub fn sha256(bytes: &[u8]) -> (text: String)
    ensures
        text@ == sha256_text(bytes@),
{
    let digest = digest_of(bytes);
    digest_text(digest.as_slice())
}

} // verus!
