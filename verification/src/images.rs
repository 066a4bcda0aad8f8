//! Profile avatars and banners: where the image is served from, and what
//! type a fetched image is served as.
use vstd::prelude::*;
use crate::model::ProfileMetadata;
use crate::profile_view::value_or_empty;
use crate::text::{chars_eq, chars_of, has_prefix, starts_with, strings_view};

verus! {

/// Where a profile image is served from.
#[derive(Clone, Copy, Debug, PartialEq, Eq, Structural)]
pub enum ImageSource {
    /// The site's default image.
    Default,
    /// The image the user uploaded to this server.
    Uploaded,
    /// The image at the URL the user gave.
    Remote,
}

/// Whether `url` starts with one of `hosts`.
pub open spec fn blocked_by(url: Seq<char>, hosts: Seq<Seq<char>>) -> bool {
    exists|i: int| 0 <= i < hosts.len() && has_prefix(url, #[trigger] hosts[i])
}

/// Where the image at `url` is served from: the upload where the URL is
/// `rb://` and uploads are kept; the default image where the URL points at
/// this server (starts with `host`), at a blocked host, or is empty; else
/// the URL itself.
pub open spec fn image_source_of(url: Seq<char>, uploads_kept: bool, host: Seq<char>, blocked: Seq<Seq<char>>) -> ImageSource {
    if url == "rb://"@ && uploads_kept {
        ImageSource::Uploaded
    } else if has_prefix(url, host) {
        ImageSource::Default
    } else if blocked_by(url, blocked) {
        ImageSource::Default
    } else if url.len() == 0 {
        ImageSource::Default
    } else {
        ImageSource::Remote
    }
}

/// The URL a profile gives for an image under metadata key `key` (empty
/// where it gives none).
pub fn image_url(metadata: &ProfileMetadata, key: &str) -> (r: String)
    ensures
        r@ == value_or_empty(metadata.kv@, key@),
{
    match metadata.kv.get(key) {
        Some(v) => v.clone(),
        None => String::new(),
    }
}

/// Where the image at `url` is served from; `uploads_kept` says whether the
/// server keeps uploads, `host` is the server's own origin and
/// `blocked_hosts` the hosts whose images are not served.
pub fn image_source(url: &str, uploads_kept: bool, host: &str, blocked_hosts: &Vec<String>) -> (r: ImageSource)
    ensures
        r == image_source_of(url@, uploads_kept, host@, strings_view(blocked_hosts@)),
{
    proof {
        reveal_strlit("rb://");
    }
    let u = chars_of(url);
    let rb = chars_of("rb://");
    if chars_eq(u.as_slice(), rb.as_slice()) && uploads_kept {
        return ImageSource::Uploaded;
    }
    let h = chars_of(host);
    if starts_with(u.as_slice(), h.as_slice()) {
        return ImageSource::Default;
    }
    let ghost bv = strings_view(blocked_hosts@);
    let mut i: usize = 0;
    while i < blocked_hosts.len()
        invariant
            u@ == url@,
            bv == strings_view(blocked_hosts@),
            !has_prefix(url@, host@),
            !(url@ == "rb://"@ && uploads_kept),
            i <= blocked_hosts.len(),
            forall|j: int| 0 <= j < i ==> !has_prefix(url@, #[trigger] bv[j]),
        decreases blocked_hosts.len() - i,
    {
        let b = chars_of(blocked_hosts[i].as_str());
        assert(bv[i as int] == blocked_hosts@[i as int]@);
        if starts_with(u.as_slice(), b.as_slice()) {
            assert(has_prefix(url@, bv[i as int]));
            assert(blocked_by(url@, bv));
            return ImageSource::Default;
        }
        i = i + 1;
    }
    if u.len() == 0 {
        return ImageSource::Default;
    }
    ImageSource::Remote
}

/// The type a fetched image is served as: nothing (the default image is
/// served instead) where the answer says its content is not an image; else
/// the type guessed from the URL, with HTML served as plain text.
pub open spec fn served_type(content_type: Option<Seq<char>>, guessed: Seq<char>) -> Option<Seq<char>> {
    match content_type {
        Some(ct) if !has_prefix(ct, "image/"@) => None,
        _ => Some(if guessed == "text/html"@ { "text/plain"@ } else { guessed }),
    }
}

/// The type a fetched image is served as, given the content type of the
/// answer (if it had one) and the type guessed from the URL.
pub fn remote_image_type(content_type: Option<&str>, guessed: &str) -> (r: Option<String>)
    ensures
        match r {
            Some(t) => served_type(match content_type { Some(c) => Some(c@), None => None }, guessed@)
                == Some(t@),
            None => served_type(match content_type { Some(c) => Some(c@), None => None }, guessed@) is None,
        },
{
    proof {
        reveal_strlit("image/");
        reveal_strlit("text/html");
    }
    if let Some(ct) = content_type {
        let c = chars_of(ct);
        let img = chars_of("image/");
        if !starts_with(c.as_slice(), img.as_slice()) {
            return None;
        }
    }
    let g = chars_of(guessed);
    let html = chars_of("text/html");
    if chars_eq(g.as_slice(), html.as_slice()) {
        return Some("text/plain".to_owned());
    }
    Some(guessed.to_owned())
}

} // verus!
