//! Small utilities: lowercase hex, SHA-256 digests and version information.

use sha2::Digest;
use vstd::prelude::*;

verus! {

/// The sixteen lowercase hex digits, in order.
pub open spec fn hex_digits() -> Seq<char> {
    seq!['0', '1', '2', '3', '4', '5', '6', '7', '8', '9', 'a', 'b', 'c', 'd', 'e', 'f']
}

/// Lowercase hex of a byte string: two digits per byte, high nibble first.
pub open spec fn hex_of(data: Seq<u8>) -> Seq<char>
    decreases data.len(),
{
    if data.len() == 0 {
        Seq::empty()
    } else {
        let b = data.last();
        hex_of(data.drop_last()) + seq![hex_digits()[(b / 16) as int], hex_digits()[(b % 16) as int]]
    }
}

proof fn lemma_hex_len(data: Seq<u8>)
    ensures
        hex_of(data).len() == 2 * data.len(),
    decreases data.len(),
{
    if data.len() > 0 {
        lemma_hex_len(data.drop_last());
    }
}

fn hex_digit(n: u8) -> (r: &'static str)
    requires
        n < 16,
    ensures
        r@ == seq![hex_digits()[n as int]],
{
    let digits = "0123456789abcdef";
    proof {
        reveal_strlit("0123456789abcdef");
        assert(digits@ =~= hex_digits());
    }
    let r = digits.substring_char(n as usize, n as usize + 1);
    assert(r@ =~= seq![hex_digits()[n as int]]);
    r
}

/// Lowercase hex encoding of `data`.
pub fn encode(data: &[u8]) -> (r: String)
    ensures
        r@ == hex_of(data@),
        r@.len() == 2 * data@.len(),
{
    let mut result = String::new();
    let mut i: usize = 0;
    while i < data.len()
        invariant
            i <= data@.len(),
            result@ == hex_of(data@.subrange(0, i as int)),
        decreases data@.len() - i,
    {
        let b = data[i];
        result.append(hex_digit(b / 16));
        result.append(hex_digit(b % 16));
        proof {
            let next = data@.subrange(0, i + 1);
            assert(next.drop_last() =~= data@.subrange(0, i as int));
            assert(next.last() == b);
        }
        i = i + 1;
    }
    assert(data@.subrange(0, data@.len() as int) =~= data@);
    proof {
        lemma_hex_len(data@);
    }
    result
}

/// SHA-256 digest of a byte string, as the hash function defines it.
pub uninterp spec fn sha256_of(data: Seq<u8>) -> Seq<u8>;

/// Relies on sha2's `Sha256::digest`: the 32-byte SHA-256 digest of `data`,
/// a function of the bytes alone.
#[verifier::external_body]
fn sha256_digest(data: &[u8]) -> (r: Vec<u8>)
    ensures
        r@ == sha256_of(data@),
        r@.len() == 32,
{
    sha2::Sha256::digest(data).to_vec()
}

/// SHA-256 of `data` as 64 lowercase hex digits.
pub fn sha256_hash(data: &[u8]) -> (r: String)
    ensures
        r@ == hex_of(sha256_of(data@)),
        r@.len() == 64,
{
    let digest = sha256_digest(data);
    encode(digest.as_slice())
}

/// Version information of the agent.
#[derive(Debug, Clone)]
pub struct VersionInfo {
    pub version: String,
    pub git_hash: String,
    pub build_time: String,
}

/// Version information from the package version and the optional build stamps;
/// a missing stamp reads `unknown`.
pub fn version_info(version: &str, git_hash: Option<&str>, build_time: Option<&str>) -> (r:
    VersionInfo)
    ensures
        r.version@ == version@,
        r.git_hash@ == (match git_hash {
            Some(h) => h@,
            None => "unknown"@,
        }),
        r.build_time@ == (match build_time {
            Some(t) => t@,
            None => "unknown"@,
        }),
{
    let git_hash = match git_hash {
        Some(h) => String::from_str(h),
        None => String::from_str("unknown"),
    };
    let build_time = match build_time {
        Some(t) => String::from_str(t),
        None => String::from_str("unknown"),
    };
    VersionInfo { version: String::from_str(version), git_hash, build_time }
}

} // verus!
