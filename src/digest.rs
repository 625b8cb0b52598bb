use sha2::Digest;
use vstd::prelude::*;

verus! {

/// The SHA-256 digest of a byte stream.
pub uninterp spec fn sha256_of(data: Seq<u8>) -> Seq<u8>;

/// Relies on `sha2::Sha256::digest` (through `digest::Digest::digest`): the
/// digest depends on the bytes alone and is 32 bytes long.
#[verifier::external_body]
fn sha256(data: &[u8]) -> (r: Vec<u8>)
    ensures
        r@ == sha256_of(data@),
        r@.len() == 32,
{
    sha2::Sha256::digest(data).to_vec()
}

/// Why the contents of a file could not be read for a comparison.
#[derive(Clone, Debug, PartialEq, Eq)]
pub enum DigestError {
    /// The file is missing or may not be opened.
    CannotOpen(String),
    /// Reading failed part way through.
    ReadFailed(String),
}

/// The state of the impersonated slot, as one comparison found it.
#[derive(Clone, Debug, PartialEq, Eq)]
pub enum Comparison {
    /// One of the two files could not be read; nothing is decided this time.
    Unavailable(DigestError),
    /// Both digests are equal.
    Consistent,
    /// The digests differ.
    Drifted,
}

pub open spec fn comparison_of(
    impersonated: Result<Seq<u8>, DigestError>,
    own_image: Result<Seq<u8>, DigestError>,
) -> Comparison {
    match impersonated {
        Err(e) => Comparison::Unavailable(e),
        Ok(a) => match own_image {
            Err(e) => Comparison::Unavailable(e),
            Ok(b) => if sha256_of(a) == sha256_of(b) {
                Comparison::Consistent
            } else {
                Comparison::Drifted
            },
        },
    }
}

pub open spec fn contents_view(c: Result<Vec<u8>, DigestError>) -> Result<Seq<u8>, DigestError> {
    match c {
        Ok(v) => Ok(v@),
        Err(e) => Err(e),
    }
}

/// The digest of a file's contents.
pub fn get_hash(contents: &[u8]) -> (r: Vec<u8>)
    ensures
        r@ == sha256_of(contents@),
        r@.len() == 32,
{
    sha256(contents)
}

/// Whether two byte sequences are equal.
pub fn bytes_equal(a: &[u8], b: &[u8]) -> (r: bool)
    ensures
        r == (a@ == b@),
{
    if a.len() != b.len() {
        return false;
    }
    let mut i: usize = 0;
    while i < a.len()
        invariant
            a@.len() == b@.len(),
            i <= a@.len(),
            forall|j: int| 0 <= j < i ==> a@[j] == b@[j],
        decreases a@.len() - i,
    {
        if a[i] != b[i] {
            return false;
        }
        i = i + 1;
    }
    assert(a@ =~= b@);
    true
}

/// Compares the impersonated file with the running image by their digests.
/// A read failure of the impersonated file is reported before one of the
/// running image.
pub fn compare_images(
    impersonated: Result<Vec<u8>, DigestError>,
    own_image: Result<Vec<u8>, DigestError>,
) -> (r: Comparison)
    ensures
        r == comparison_of(contents_view(impersonated), contents_view(own_image)),
{
    match impersonated {
        Err(e) => Comparison::Unavailable(e),
        Ok(a) => match own_image {
            Err(e) => Comparison::Unavailable(e),
            Ok(b) => {
                let da = get_hash(a.as_slice());
                let db = get_hash(b.as_slice());
                if bytes_equal(da.as_slice(), db.as_slice()) {
                    Comparison::Consistent
                } else {
                    Comparison::Drifted
                }
            },
        },
    }
}

} // verus!
