//! The discovery view's logic: turning the `show` request parameter into a
//! show id, and the values the human-facing page presents.

use crate::model::{MetadataModel, ProgramMetadata};
use crate::resolve::{image_url, resolved};
use vstd::prelude::*;

verus! {

/// What the url crate makes of a text: `None` when it is not an absolute
/// URL or cannot carry path segments, else the path segments in order.
/// A function of the text alone.
pub uninterp spec fn url_path_segments(s: Seq<char>) -> Option<Seq<Seq<char>>>;

/// Relies on `url::Url::parse` and `Url::path_segments`: both depend on the
/// URL text alone; a parse failure or a cannot-be-a-base URL yields `None`,
/// else the path segments in order.
#[verifier::external_body]
fn path_segments_of(s: &str) -> (r: Option<Vec<String>>)
    ensures
        r.deep_view() == url_path_segments(s@),
{
    match url::Url::parse(s) {
        Ok(u) => match u.path_segments() {
            Some(seg) => Some(seg.map(str::to_string).collect()),
            None => None,
        },
        Err(_) => None,
    }
}

/// The show id a discovery request resolves to: the third path segment of
/// a full show URL, or the parameter itself when it is not such a URL.
pub open spec fn spec_show_id(p: Seq<char>) -> Seq<char> {
    match url_path_segments(p) {
        Option::Some(segs) => if segs.len() >= 3 {
            segs[2]
        } else {
            p
        },
        Option::None => p,
    }
}

/// Extracts the show id from the `show` request parameter: the third path
/// segment when the parameter is a full show URL with at least three
/// segments, else the parameter unchanged.
pub fn show_id_from_param(param: &str) -> (id: String)
    ensures
        id@ == spec_show_id(param@),
{
    match path_segments_of(param) {
        Option::Some(segs) => {
            if segs.len() >= 3 {
                let s = segs[2].clone();
                proof {
                    assert(segs.deep_view()[2] == segs@[2]@);
                }
                s
            } else {
                String::from_str(param)
            }
        },
        Option::None => String::from_str(param),
    }
}

/// The feed URL the discovery page presents: `{host}/feed/{id}`.
pub open spec fn spec_feed_info_url(host: Seq<char>, id: Seq<char>) -> Seq<char> {
    host + "/feed/"@ + id
}

/// Builds the feed URL the discovery page presents for a show.
pub fn feed_info_url(host: &str, id: &str) -> (r: String)
    ensures
        r@ == spec_feed_info_url(host@, id@),
{
    let mut u = String::from_str(host);
    u.append("/feed/");
    u.append(id);
    proof {
        assert(u@ =~= spec_feed_info_url(host@, id@));
    }
    u
}

/// The artwork the discovery page presents: the metadata image resolved at
/// width 512, absent when the metadata or its URL template is absent.
pub open spec fn spec_metadata_image(m: MetadataModel) -> Option<Seq<char>> {
    match m.image {
        Option::None => Option::None,
        Option::Some(img) => match img.url {
            Option::None => Option::None,
            Option::Some(u) => Option::Some(resolved(u, 512)),
        },
    }
}

/// Resolves the discovery page's artwork URL from show metadata.
pub fn metadata_image(meta: &ProgramMetadata) -> (r: Option<String>)
    ensures
        r.deep_view() == spec_metadata_image(meta.deep_view()),
{
    match &meta.image {
        Option::Some(img) => match &img.url {
            Option::Some(u) => Option::Some(image_url(u.as_str(), 512)),
            Option::None => Option::None,
        },
        Option::None => Option::None,
    }
}

} // verus!
