//! Content hashing for source file tracking: SHA-256 digests rendered as
//! lowercase hex, as stored in `SourceFile.hash`.

use sha2::Digest;
use vstd::prelude::*;

use crate::manifest::hex_digit;
use vstd::string::StringSliceAdditionalSpecFns;
use crate::strutil::push_char;

verus! {

/// The SHA-256 digest of a byte string.
pub uninterp spec fn spec_sha256(data: Seq<u8>) -> Seq<u8>;

/// Relies on sha2::Sha256: the digest is 32 bytes and depends on the input
/// bytes alone.
#[verifier::external_body]
fn sha256(data: &[u8]) -> (r: Vec<u8>)
    ensures
        r@ == spec_sha256(data@),
        r@.len() == 32,
{
    let mut hasher = sha2::Sha256::new();
    hasher.update(data);
    hasher.finalize().to_vec()
}

/// The lowercase hex rendering of a byte string.
pub open spec fn spec_to_hex_lower(data: Seq<u8>) -> Seq<char>
    decreases data.len(),
{
    if data.len() == 0 {
        Seq::empty()
    } else {
        seq![
            hex_digit(data.first() as int / 16),
            hex_digit(data.first() as int % 16),
        ] + spec_to_hex_lower(data.drop_first())
    }
}

/// The stored hash of a source file: the lowercase hex SHA-256 of its
/// bytes.
pub open spec fn spec_sha256_hex(data: Seq<u8>) -> Seq<char> {
    spec_to_hex_lower(spec_sha256(data))
}

/// A hex rendering is twice as long as its input and never contains a
/// colon, so it always fits the `"name:path:hash"` string form.
pub proof fn lemma_hex_lower_props(data: Seq<u8>)
    ensures
        spec_to_hex_lower(data).len() == 2 * data.len(),
        forall|k: int|
            0 <= k < spec_to_hex_lower(data).len() ==> #[trigger] spec_to_hex_lower(data)[k]
                != ':',
    decreases data.len(),
{
    if data.len() > 0 {
        lemma_hex_lower_props(data.drop_first());
    }
}

/// Renders bytes as lowercase hex.
fn to_hex_lower(data: &Vec<u8>) -> (r: String)
    ensures
        r@ == spec_to_hex_lower(data@),
{
    let mut r = String::new();
    let mut i: usize = 0;
    proof {
        assert(data@.skip(0) =~= data@);
    }
    while i < data.len()
        invariant
            i <= data.len(),
            spec_to_hex_lower(data@) =~= r@ + spec_to_hex_lower(data@.skip(i as int)),
        decreases data.len() - i,
    {
        let b = data[i];
        push_char(&mut r, hex_digit_exec((b / 16) as u32));
        push_char(&mut r, hex_digit_exec((b % 16) as u32));
        proof {
            assert(data@.skip(i as int).first() == data@[i as int]);
            assert(data@.skip(i as int).drop_first() =~= data@.skip(i + 1));
        }
        i = i + 1;
    }
    proof {
        assert(data@.skip(data.len() as int) =~= Seq::<u8>::empty());
        assert(r@ =~= spec_to_hex_lower(data@));
    }
    r
}

/// The lowercase hex digit for `n`, executable form.
fn hex_digit_exec(n: u32) -> (r: char)
    requires
        n < 16,
    ensures
        r == hex_digit(n as int),
{
    if n == 0 {
        '0'
    } else if n == 1 {
        '1'
    } else if n == 2 {
        '2'
    } else if n == 3 {
        '3'
    } else if n == 4 {
        '4'
    } else if n == 5 {
        '5'
    } else if n == 6 {
        '6'
    } else if n == 7 {
        '7'
    } else if n == 8 {
        '8'
    } else if n == 9 {
        '9'
    } else if n == 10 {
        'a'
    } else if n == 11 {
        'b'
    } else if n == 12 {
        'c'
    } else if n == 13 {
        'd'
    } else if n == 14 {
        'e'
    } else {
        'f'
    }
}

/// The hash recorded for a piece of text: the lowercase hex SHA-256 of
/// its UTF-8 bytes.
pub open spec fn spec_text_hash(s: Seq<char>) -> Seq<char> {
    spec_to_hex_lower(spec_sha256(vstd::utf8::encode_utf8(s)))
}

/// The lowercase hex SHA-256 of the text's UTF-8 bytes: the hash recorded
/// for every source file at application time.
pub fn sha256_hex(content: &str) -> (r: String)
    ensures
        r@ == spec_text_hash(content@),
        r@.len() == 64,
        forall|k: int| 0 <= k < r@.len() ==> r@[k] != ':',
{
    let digest = sha256(content.as_bytes());
    let r = to_hex_lower(&digest);
    proof {
        lemma_hex_lower_props(digest@);
    }
    r
}

} // verus!
