use vstd::prelude::*;

use crate::error::ComicError;

verus! {

/// `url`'s parse error, carried through opaque.
#[verifier::external_type_specification]
#[verifier::external_body]
pub struct ExUrlParseError(url::ParseError);

/// The last segment of the path of the URL that `s` denotes: `None` where `s`
/// does not parse as an absolute URL, `Some(None)` where the URL has no path
/// segments.
pub uninterp spec fn url_last_segment(s: Seq<char>) -> Option<Option<Seq<char>>>;

/// Relies on `url::Url::parse` to parse `s`, and on `Url::path_segments` for
/// the segments of its path, of which the last is taken.
#[verifier::external_body]
fn last_path_segment(s: &str) -> (r: Result<Option<String>, url::ParseError>)
    ensures
        r is Err <==> url_last_segment(s@) is None,
        r matches Ok(None) ==> url_last_segment(s@) == Some(None::<Seq<char>>),
        r matches Ok(Some(t)) ==> url_last_segment(s@) == Some(Some(t@)),
{
    let url = url::Url::parse(s)?;
    Ok(url.path_segments().and_then(|segments| segments.last()).map(|t| t.to_string()))
}

/// The name an image is saved under: the last, non-empty segment of the
/// path of its URL.
pub open spec fn file_name_of(image_url: Seq<char>) -> Option<Seq<char>> {
    match url_last_segment(image_url) {
        Some(Some(t)) => if t.len() > 0 {
            Some(t)
        } else {
            None
        },
        _ => None,
    }
}

/// The file name for the image at `image_url`; `InvalidUrl` where the URL
/// does not parse or its path ends in no usable segment.
pub fn image_file_name(image_url: &String) -> (r: Result<String, ComicError>)
    ensures
        match r {
            Ok(name) => file_name_of(image_url@) == Some(name@),
            Err(e) => e == ComicError::InvalidUrl && file_name_of(image_url@) is None,
        },
{
    match last_path_segment(image_url.as_str()) {
        Ok(Some(t)) => if t.as_str().is_empty() {
            Err(ComicError::InvalidUrl)
        } else {
            Ok(t)
        },
        _ => Err(ComicError::InvalidUrl),
    }
}

} // verus!
