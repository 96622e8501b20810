use sha2::Digest;
use vstd::prelude::*;

verus! {

/// The SHA-256 digest of `data`, as the `sha2` crate computes it.
pub uninterp spec fn spec_sha256(data: Seq<u8>) -> Seq<u8>;

/// `sha2::Sha256::digest`: the contract names the digest of `data` and states
/// that it is 32 bytes long, as the crate's output size says; nothing more of
/// the hash function is stated.
#[verifier::external_body]
fn sha256_digest(data: &[u8]) -> (r: Vec<u8>)
    ensures
        r@ == spec_sha256(data@),
        r@.len() == 32,
{
    sha2::Sha256::digest(data).to_vec()
}

/// Lowercase hexadecimal digit for a value below 16.
pub open spec fn hex_char(n: nat) -> char {
    if n < 10 {
        crate::text::digit_char(n)
    } else if n == 10 {
        'a'
    } else if n == 11 {
        'b'
    } else if n == 12 {
        'c'
    } else if n == 13 {
        'd'
    } else if n == 14 {
        'e'
    } else {
        'f'
    }
}

/// Lowercase hexadecimal encoding, two digits per byte, most significant first.
pub open spec fn lower_hex(bytes: Seq<u8>) -> Seq<char>
    decreases bytes.len(),
{
    if bytes.len() == 0 {
        Seq::empty()
    } else {
        lower_hex(bytes.drop_last()) + seq![
            hex_char((bytes.last() / 16) as nat),
            hex_char((bytes.last() % 16) as nat),
        ]
    }
}

/// The SHA-256 digest of `data` in lowercase hexadecimal.
pub open spec fn sha256_hex_spec(data: Seq<u8>) -> Seq<char> {
    lower_hex(spec_sha256(data))
}

fn hex_digit(n: u8) -> (c: char)
    requires
        n < 16,
    ensures
        c == hex_char(n as nat),
{
    if n == 0 {
        '0'
    } else if n == 1 {
        '1'
    } else if n == 2 {
        '2'
    } else if n == 3 {
        '3'
    } else if n == 4 {
        '4'
    } else if n == 5 {
        '5'
    } else if n == 6 {
        '6'
    } else if n == 7 {
        '7'
    } else if n == 8 {
        '8'
    } else if n == 9 {
        '9'
    } else if n == 10 {
        'a'
    } else if n == 11 {
        'b'
    } else if n == 12 {
        'c'
    } else if n == 13 {
        'd'
    } else if n == 14 {
        'e'
    } else {
        'f'
    }
}

pub proof fn lemma_lower_hex_len(bytes: Seq<u8>)
    ensures
        lower_hex(bytes).len() == 2 * bytes.len(),
    decreases bytes.len(),
{
    if bytes.len() > 0 {
        lemma_lower_hex_len(bytes.drop_last());
    }
}

pub proof fn lemma_lower_hex_digits(bytes: Seq<u8>)
    ensures
        forall|i: int|
            0 <= i < lower_hex(bytes).len() ==> crate::text::is_lower_hex_digit(
                #[trigger] lower_hex(bytes)[i],
            ),
    decreases bytes.len(),
{
    if bytes.len() > 0 {
        lemma_lower_hex_digits(bytes.drop_last());
        let h = lower_hex(bytes);
        let p = lower_hex(bytes.drop_last());
        assert forall|i: int| 0 <= i < h.len() implies crate::text::is_lower_hex_digit(
            #[trigger] h[i],
        ) by {
            if i < p.len() {
                assert(h[i] == p[i]);
            }
        }
    }
}

/// Lowercase hexadecimal encoding of `bytes`.
pub fn to_lower_hex(bytes: &[u8]) -> (r: Vec<char>)
    ensures
        r@ == lower_hex(bytes@),
{
    let mut r: Vec<char> = Vec::new();
    let mut i: usize = 0;
    while i < bytes.len()
        invariant
            i <= bytes@.len(),
            r@ == lower_hex(bytes@.take(i as int)),
        decreases bytes@.len() - i,
    {
        let b = bytes[i];
        r.push(hex_digit(b / 16));
        r.push(hex_digit(b % 16));
        proof {
            let t = bytes@.take(i + 1);
            assert(t.drop_last() == bytes@.take(i as int));
            assert(t.last() == b);
            assert(r@ =~= lower_hex(bytes@.take(i as int)) + seq![
                hex_char((b / 16) as nat),
                hex_char((b % 16) as nat),
            ]);
        }
        i = i + 1;
    }
    proof {
        assert(bytes@.take(bytes@.len() as int) == bytes@);
    }
    r
}

/// The SHA-256 digest of `data` in lowercase hexadecimal (64 characters).
pub fn sha256_hex(data: &[u8]) -> (r: Vec<char>)
    ensures
        r@ == sha256_hex_spec(data@),
        r@.len() == 64,
{
    let digest = sha256_digest(data);
    proof {
        lemma_lower_hex_len(digest@);
    }
    to_lower_hex(digest.as_slice())
}

} // verus!
