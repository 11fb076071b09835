//! Canonical paths on systems that write them in more than one way.

use crate::bytes::{contains_byte, same_bytes};
use crate::error::{IoError, IoErrorKind};
use crate::path::SLASH;
use std::path::{Path, PathBuf};
use url::Url;
use vstd::prelude::*;
use vstd::slice::slice_subrange;

verus! {

/// `std::path::Path`: a path, borrowed.
#[verifier::external_type_specification]
#[verifier::external_body]
pub struct ExPath(Path);

/// `std::path::PathBuf`: a path.
#[verifier::external_type_specification]
#[verifier::external_body]
pub struct ExPathBuf(PathBuf);

/// `url::Url`: a URL.
#[verifier::external_type_specification]
#[verifier::external_body]
pub struct ExUrl(Url);

/// `Url::from_file_path` writes an absolute path as a URL in the `file` scheme. Nothing is
/// stated of the result but that it came from this call: what a path is made of is up to the
/// system.
pub assume_specification<P: AsRef<Path>>[ Url::from_file_path::<P> ](path: P) -> (url: Result<
    Url,
    (),
>);

/// `Url::as_str` returns the text of a URL. Nothing is stated of the result but that it came
/// from this call.
pub assume_specification[ Url::as_str ](url: &Url) -> (text: &str);

/// `Url::to_file_path` reads a URL as a path. Nothing is stated of the result but that it came
/// from this call: what a path is made of is up to the system.
///
/// On Windows it may panic when the path that it reads is not absolute. Of the URLs that a
/// path was written as, those for which it may are among those whose text does not
/// [lead to a root](is_rooted); the others of these it does not read as a path.
pub assume_specification[ Url::to_file_path ](url: &Url) -> (path: Result<PathBuf, ()>)
    requires
        exists|written: &PathBuf|
            #[trigger] call_ensures(
                Url::from_file_path::<&PathBuf>,
                (written,),
                Ok::<Url, ()>(*url),
            ),
        exists|text: &str|
            #[trigger] call_ensures(Url::as_str, (url,), text) && is_rooted(
                vstd::utf8::encode_utf8(text@),
            ),
;

/// Where the host begins in the text of a URL in the `file` scheme: behind `file://`.
pub const HOST_START: usize = 7;

/// The host that is dropped when a URL is read.
pub open spec fn is_localhost(host: Seq<u8>) -> bool {
    host == vstd::utf8::encode_utf8("localhost"@)
}

/// What follows the host begins with a name: it is not empty and does not begin with a slash,
/// be it written as one or as `%2F`.
pub open spec fn begins_with_name(share: Seq<u8>) -> bool {
    &&& share.len() > 0
    &&& share[0] != SLASH
    &&& !(share.len() >= 3 && share[0] == 0x25 && share[1] == 0x32 && share[2] == 0x46)
}

/// The URL with the given text is read as an absolute path, or not as a path at all: it names
/// no host, or a host and a share on it. The host `localhost` is dropped when it is read, so
/// that there has to be something behind the share.
pub open spec fn is_rooted(text: Seq<u8>) -> bool {
    let slash = crate::path::slash_from(text, HOST_START as int);
    let share = text.skip(slash + 1);
    ||| slash == HOST_START
    ||| slash < text.len() && begins_with_name(share) && (is_localhost(
        text.subrange(HOST_START as int, slash),
    ) ==> share.contains(SLASH))
}

/// Whether the URL with the given text is read as an absolute path, or not as a path at all.
pub fn can_read(text: &[u8]) -> (can_read: bool)
    ensures
        can_read == is_rooted(text@),
{
    let mut slash: usize = HOST_START;
    while slash < text.len() && text[slash] != SLASH
        invariant
            HOST_START <= slash,
            slash == HOST_START || slash <= text@.len(),
            crate::path::slash_from(text@, HOST_START as int) == crate::path::slash_from(text@, slash as int),
        decreases text@.len() - slash,
    {
        slash += 1;
    }
    if slash == HOST_START {
        return true;
    }
    if slash == text.len() {
        return false;
    }
    let share = slice_subrange(text, slash + 1, text.len());
    assert(share@ =~= text@.skip(slash + 1));
    if share.len() == 0 || share[0] == SLASH {
        return false;
    }
    if share.len() >= 3 && share[0] == 0x25 && share[1] == 0x32 && share[2] == 0x46 {
        return false;
    }
    let host = slice_subrange(text, HOST_START, slash);
    !same_bytes(host, "localhost".as_bytes()) || contains_byte(share, SLASH)
}

/// An error with the given message that came from no system call.
pub open spec fn is_other(error: IoError, message: Seq<char>) -> bool {
    &&& error.kind == IoErrorKind::Other
    &&& error.os_code is None
    &&& error.message@ == message
}

/// `path` is what was read of a URL, or tells that it was not read as a path.
pub open spec fn is_read(read: Result<PathBuf, ()>, path: Result<PathBuf, IoError>) -> bool {
    match read {
        Ok(read) => path == Ok::<PathBuf, IoError>(read),
        Err(_) => path matches Err(error) && is_other(error, "path canonicalization error"@),
    }
}

/// `path` is what was read back of the URL that a path was written as. What would not be read
/// as an absolute path is not read.
pub open spec fn is_read_back(url: Result<Url, ()>, path: Result<PathBuf, IoError>) -> bool {
    match url {
        Ok(url) => exists|text: &str|
            #[trigger] call_ensures(Url::as_str, (&url,), text) && if is_rooted(
                vstd::utf8::encode_utf8(text@),
            ) {
                exists|read: Result<PathBuf, ()>|
                    #[trigger] call_ensures(Url::to_file_path, (&url,), read) && is_read(read, path)
            } else {
                is_read(Err(()), path)
            },
        Err(_) => path matches Err(error) && is_other(error, "URL passing error"@),
    }
}

/// An error with the given message that came from no system call.
fn other(message: &str) -> (error: IoError)
    ensures
        is_other(error, message@),
{
    IoError { kind: IoErrorKind::Other, os_code: None, message: message.to_owned() }
}

/// What was read of a URL, as a path.
pub fn read_back(read: Result<PathBuf, ()>) -> (path: Result<PathBuf, IoError>)
    ensures
        is_read(read, path),
{
    match read {
        Ok(path) => Ok(path),
        Err(_) => Err(other("path canonicalization error")),
    }
}

/// Rids a canonical path of the prefix that some systems put before it and that LMDB cannot
/// take: as a URL a path is written without it.
pub fn canonicalize_path(canonical: &PathBuf) -> (path: Result<PathBuf, IoError>)
    ensures
        exists|url: Result<Url, ()>|
            #[trigger] call_ensures(Url::from_file_path::<&PathBuf>, (canonical,), url)
                && is_read_back(url, path),
{
    match Url::from_file_path(canonical) {
        Ok(url) => {
            let text = url.as_str().as_bytes();
            if can_read(text) {
                read_back(url.to_file_path())
            } else {
                read_back(Err(()))
            }
        },
        Err(_) => Err(other("URL passing error")),
    }
}

} // verus!
