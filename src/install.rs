//! What an install run decides: how a fetched body becomes a tarball, and
//! which outcome of a batch of installs is reported.

use std::io::Read;
use vstd::prelude::*;

verus! {

/// Why a plugin could not be installed.
#[derive(Debug, PartialEq, Eq)]
pub enum InstallError {
    /// The download failed; the message says how.
    Fetch(String),
    /// The downloaded body is not a gzip stream.
    Decompress,
    /// The tarball could not be unpacked; the message says how.
    Unpack(String),
}

/// The bytes that a gzip stream decodes to, or `None` where it is not one.
pub uninterp spec fn gunzip_of(compressed: Seq<u8>) -> Option<Seq<u8>>;

/// Relies on flate2::read::GzDecoder, read to its end: it decodes a gzip
/// stream held in memory, so the outcome depends on the bytes alone.
#[verifier::external_body]
fn gunzip(compressed: &[u8]) -> (r: Option<Vec<u8>>)
    ensures
        match r {
            Some(v) => gunzip_of(compressed@) == Some(v@),
            None => gunzip_of(compressed@) is None,
        },
{
    let mut out = Vec::new();
    match flate2::read::GzDecoder::new(compressed).read_to_end(&mut out) {
        Ok(_) => Some(out),
        Err(_) => None,
    }
}

/// Turns the outcome of a download into the tarball to unpack: a failed
/// download is a fetch error, a body that does not decode is a
/// decompression error.
pub fn archive_from_response(response: Result<Vec<u8>, String>) -> (r: Result<
    Vec<u8>,
    InstallError,
>)
    ensures
        match response {
            Err(m) => r == Err::<Vec<u8>, InstallError>(InstallError::Fetch(m)),
            Ok(body) => match gunzip_of(body@) {
                Some(tar) => r is Ok && r->Ok_0@ == tar,
                None => r == Err::<Vec<u8>, InstallError>(InstallError::Decompress),
            },
        },
{
    match response {
        Err(m) => Err(InstallError::Fetch(m)),
        Ok(body) => match gunzip(body.as_slice()) {
            Some(tar) => Ok(tar),
            None => Err(InstallError::Decompress),
        },
    }
}

/// The result of a batch of installs, taken in the order in which they were
/// started: success when every one succeeded, else the first failure.
pub fn first_error<E>(outcomes: Vec<Result<(), E>>) -> (r: Result<(), E>)
    ensures
        r is Ok <==> forall|i: int| 0 <= i < outcomes@.len() ==> outcomes@[i] is Ok,
        r is Err ==> exists|i: int|
            0 <= i < outcomes@.len() && outcomes@[i] == r && forall|j: int|
                0 <= j < i ==> (#[trigger] outcomes@[j]) is Ok,
{
    let ghost all = outcomes@;
    let mut pending = outcomes;
    let n = pending.len();
    let mut i: usize = 0;
    while i < n
        invariant
            pending@ == all,
            all == outcomes@,
            n == all.len(),
            i <= n,
            forall|j: int| 0 <= j < i ==> (#[trigger] all[j]) is Ok,
        decreases n - i,
    {
        if pending[i].is_err() {
            let r = pending.remove(i);
            assert(0 <= i < all.len() && all[i as int] == r);
            return r;
        }
        i = i + 1;
    }
    Ok(())
}

} // verus!
