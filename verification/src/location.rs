//! Mapping an object's content location to a relative filesystem path.
//!
//! An absolute URL contributes its path component; a relative reference is
//! used as it stands; anything else is a parse error. A leading slash is
//! dropped so the result stays inside the destination directory.

use crate::errors::{ErrorKind, FluteError};
use vstd::prelude::*;
use vstd::slice::slice_subrange;
use vstd::string::StringSliceAdditionalSpecFns;

verus! {

/// Whether `url::Url::parse` accepts the string as an absolute URL.
pub uninterp spec fn url_parse_accepts(s: Seq<char>) -> bool;

/// Whether `url::Url::parse` rejects the string as a relative reference
/// (rather than as malformed).
pub uninterp spec fn url_parse_relative(s: Seq<char>) -> bool;

/// The path component of the parsed URL, in bytes: a function of the string
/// alone.
pub uninterp spec fn url_path_bytes_of(s: Seq<char>) -> Seq<u8>;

/// How a content location string parses.
pub enum LocationParse {
    /// An absolute URL; carries the bytes of its path component.
    Url(Vec<u8>),
    /// A relative reference: no scheme, usable as a path itself.
    Relative,
    /// Malformed: neither an absolute URL nor a relative reference.
    Invalid,
}

/// Relies on `url::Url::parse` and `url::Url::path`: both are functions of
/// the input string alone, and parse fails with `RelativeUrlWithoutBase` or
/// `RelativeUrlWithCannotBeABaseBase` exactly on relative references.
#[verifier::external_body]
fn parse_content_location(s: &str) -> (r: LocationParse)
    ensures
        (r is Url) == url_parse_accepts(s@),
        (r is Relative) == (!url_parse_accepts(s@) && url_parse_relative(s@)),
        r matches LocationParse::Url(p) ==> p@ == url_path_bytes_of(s@),
{
    match url::Url::parse(s) {
        Ok(u) => LocationParse::Url(u.path().as_bytes().to_vec()),
        Err(url::ParseError::RelativeUrlWithoutBase) => LocationParse::Relative,
        Err(url::ParseError::RelativeUrlWithCannotBeABaseBase) => LocationParse::Relative,
        Err(_) => LocationParse::Invalid,
    }
}

/// `b` without its leading slash, if it has one.
pub open spec fn spec_strip_leading_slash(b: Seq<u8>) -> Seq<u8> {
    if b.len() > 0 && b[0] == 47u8 {
        b.skip(1)
    } else {
        b
    }
}

/// Drop a leading slash.
fn strip_leading_slash(v: Vec<u8>) -> (r: Vec<u8>)
    ensures
        r@ == spec_strip_leading_slash(v@),
{
    if v.len() > 0 && v[0] == 47u8 {
        let s = slice_subrange(v.as_slice(), 1, v.len());
        let mut out: Vec<u8> = Vec::new();
        out.extend_from_slice(s);
        proof {
            assert(v@.subrange(1, v@.len() as int) =~= v@.skip(1));
        }
        out
    } else {
        v
    }
}

/// The path, relative to a destination directory, that an object's content
/// location names: the URL path for an absolute URL, the location itself for
/// a relative reference, a `Parse` error for anything else; a leading slash
/// is dropped either way. Returned as bytes; the filesystem layer decides how
/// to interpret them.
pub fn content_location_relative_path(content_location: &str) -> (r: Result<Vec<u8>, FluteError>)
    ensures
        r is Ok <==> url_parse_accepts(content_location@) || url_parse_relative(
            content_location@,
        ),
        r matches Ok(p) ==> p@ == spec_strip_leading_slash(
            if url_parse_accepts(content_location@) {
                url_path_bytes_of(content_location@)
            } else {
                content_location.spec_bytes()
            },
        ),
        r matches Err(e) ==> e.kind == ErrorKind::Parse,
{
    match parse_content_location(content_location) {
        LocationParse::Url(path) => Ok(strip_leading_slash(path)),
        LocationParse::Relative => {
            let b = content_location.as_bytes();
            let mut v: Vec<u8> = Vec::new();
            v.extend_from_slice(b);
            Ok(strip_leading_slash(v))
        },
        LocationParse::Invalid => Err(
            FluteError::new(ErrorKind::Parse, "fail to parse content location"),
        ),
    }
}

} // verus!
