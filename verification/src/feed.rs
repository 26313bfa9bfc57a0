//! The feed builder: the pure mapping from one fetched page of a show to
//! a complete Atom feed. Missing or malformed upstream fields never abort
//! the build; they only leave the matching output fields absent.

use crate::atom::{AtomEntry, AtomFeed, AtomLink, EntryModel, FeedModel, LinkModel, Timestamp};
use crate::model::{
    AudioAsset, AudioModel, EdgeModel, EpisodeModel, EpisodeNode, ImageModel, ProgramSet,
    ProgramSetModel,
};
use crate::resolve::{image_url, resolved};
use crate::timestamp::{parse_rfc3339, rfc3339_instant};
use vstd::prelude::*;

verus! {

/// The instant an optional upstream timestamp yields: absence and parse
/// failure both yield absence, never a default.
pub open spec fn spec_instant(d: Option<Seq<char>>) -> Option<Timestamp> {
    match d {
        Option::None => Option::None,
        Option::Some(s) => rfc3339_instant(s),
    }
}

/// The enclosure link one audio asset yields.
pub open spec fn spec_enclosure(a: AudioModel) -> LinkModel {
    LinkModel {
        href: a.url,
        rel: "enclosure"@,
        mime_type: Option::Some(a.mime_type),
        title: a.title,
    }
}

/// The entry one episode yields: id and title copied, content duplicating
/// the summary, both time fields from the publish date, one enclosure per
/// audio asset.
pub open spec fn spec_entry(n: EpisodeModel) -> EntryModel {
    EntryModel {
        id: n.id,
        title: n.title,
        summary: n.summary,
        content: n.summary,
        published: spec_instant(n.publish_date),
        updated: spec_instant(n.publish_date),
        links: n.audios.map_values(|a: AudioModel| spec_enclosure(a)),
    }
}

/// The artwork URL at width `w`: absent when the image or its URL template
/// is absent, else the template resolved at `w`.
pub open spec fn spec_image_at(img: Option<ImageModel>, w: u32) -> Option<Seq<char>> {
    match img {
        Option::None => Option::None,
        Option::Some(i) => match i.url {
            Option::None => Option::None,
            Option::Some(u) => Option::Some(resolved(u, w)),
        },
    }
}

/// The target of the pagination link: `http://{host}/feed/{id}?cursor={c}`.
pub open spec fn spec_next_url(host: Seq<char>, id: Seq<char>, c: Seq<char>) -> Seq<char> {
    "http://"@ + host + "/feed/"@ + id + "?cursor="@ + c
}

/// The feed's link list: one `next` link built from the cursor of the first
/// edge of the page, or nothing when the page is empty or its first edge
/// carries no cursor.
pub open spec fn spec_feed_links(p: ProgramSetModel, host: Seq<char>) -> Seq<LinkModel> {
    if p.edges.len() > 0 && p.edges[0].cursor is Some {
        seq![
            LinkModel {
                href: spec_next_url(host, p.id, p.edges[0].cursor->0),
                rel: "next"@,
                mime_type: Option::None,
                title: Option::None,
            },
        ]
    } else {
        Seq::empty()
    }
}

/// The complete feed one page yields.
pub open spec fn spec_feed(p: ProgramSetModel, host: Seq<char>) -> FeedModel {
    FeedModel {
        id: p.id,
        title: p.title,
        updated: spec_instant(p.last_item_modified),
        icon: spec_image_at(p.image, 256),
        logo: spec_image_at(p.image, 512),
        entries: p.edges.map_values(|e: EdgeModel| spec_entry(e.node)),
        links: spec_feed_links(p, host),
    }
}

/// Clones an optional string, keeping its mathematical value.
fn clone_opt_string(o: &Option<String>) -> (r: Option<String>)
    ensures
        r.deep_view() == o.deep_view(),
{
    match o {
        Option::Some(s) => Option::Some(s.clone()),
        Option::None => Option::None,
    }
}

/// Maps one audio asset to its enclosure link.
pub fn audio_to_link(audio: &AudioAsset) -> (l: AtomLink)
    ensures
        l.deep_view() == spec_enclosure(audio.deep_view()),
{
    let l = AtomLink {
        href: audio.url.clone(),
        rel: String::from_str("enclosure"),
        mime_type: Option::Some(audio.mime_type.clone()),
        title: clone_opt_string(&audio.title),
    };
    proof {
        assert(l.deep_view() =~~= spec_enclosure(audio.deep_view()));
    }
    l
}

/// Maps one episode to its Atom entry. Total: a missing summary, a missing
/// or malformed publish date and an empty audio list all map to absence,
/// never to a failure.
pub fn node_to_episode(item: &EpisodeNode) -> (e: AtomEntry)
    ensures
        e.deep_view() == spec_entry(item.deep_view()),
{
    let mut links: Vec<AtomLink> = Vec::new();
    let mut i: usize = 0;
    while i < item.audios.len()
        invariant
            i <= item.audios.len(),
            links.deep_view().len() == i,
            forall|j: int|
                0 <= j < i ==> #[trigger] links.deep_view()[j] == spec_enclosure(
                    item.audios.deep_view()[j],
                ),
        decreases item.audios.len() - i,
    {
        let l = audio_to_link(&item.audios[i]);
        let ghost links0 = links@;
        let ghost dv0 = links.deep_view();
        links.push(l);
        proof {
            assert forall|j: int| 0 <= j < i + 1 implies #[trigger] links.deep_view()[j]
                == spec_enclosure(item.audios.deep_view()[j]) by {
                assert(links.deep_view()[j] == links@[j].deep_view());
                if j < i {
                    assert(dv0[j] == spec_enclosure(item.audios.deep_view()[j]));
                    assert(dv0[j] == links0[j].deep_view());
                    assert(links@[j] == links0[j]);
                } else {
                    assert(links@[j] == l);
                }
            }
        }
        i += 1;
    }
    let published = match &item.publish_date {
        Option::Some(d) => parse_rfc3339(d.as_str()),
        Option::None => Option::None,
    };
    let e = AtomEntry {
        id: item.id.clone(),
        title: item.title.clone(),
        summary: clone_opt_string(&item.summary),
        content: clone_opt_string(&item.summary),
        published,
        updated: published,
        links,
    };
    proof {
        assert(e.deep_view().links =~= spec_entry(item.deep_view()).links);
        assert(e.deep_view() =~~= spec_entry(item.deep_view()));
    }
    e
}

/// Builds the Atom feed for one fetched page. Pure and total: every absent
/// or malformed upstream field degrades to an absent output field.
pub fn create_feed(program_set: &ProgramSet, host: &str) -> (feed: AtomFeed)
    ensures
        feed.deep_view() == spec_feed(program_set.deep_view(), host@),
{
    let mut entries: Vec<AtomEntry> = Vec::new();
    let mut i: usize = 0;
    while i < program_set.edges.len()
        invariant
            i <= program_set.edges.len(),
            entries.deep_view().len() == i,
            forall|j: int|
                0 <= j < i ==> #[trigger] entries.deep_view()[j] == spec_entry(
                    program_set.edges.deep_view()[j].node,
                ),
        decreases program_set.edges.len() - i,
    {
        let e = node_to_episode(&program_set.edges[i].node);
        let ghost entries0 = entries@;
        let ghost dv0 = entries.deep_view();
        entries.push(e);
        proof {
            assert forall|j: int| 0 <= j < i + 1 implies #[trigger] entries.deep_view()[j]
                == spec_entry(program_set.edges.deep_view()[j].node) by {
                assert(entries.deep_view()[j] == entries@[j].deep_view());
                if j < i {
                    assert(dv0[j] == spec_entry(program_set.edges.deep_view()[j].node));
                    assert(dv0[j] == entries0[j].deep_view());
                    assert(entries@[j] == entries0[j]);
                } else {
                    assert(entries@[j] == e);
                }
            }
        }
        i += 1;
    }

    let updated = match &program_set.last_item_modified {
        Option::Some(d) => parse_rfc3339(d.as_str()),
        Option::None => Option::None,
    };

    let logo = match &program_set.image {
        Option::Some(img) => match &img.url {
            Option::Some(u) => Option::Some(image_url(u.as_str(), 512)),
            Option::None => Option::None,
        },
        Option::None => Option::None,
    };
    let icon = match &program_set.image {
        Option::Some(img) => match &img.url {
            Option::Some(u) => Option::Some(image_url(u.as_str(), 256)),
            Option::None => Option::None,
        },
        Option::None => Option::None,
    };

    let mut links: Vec<AtomLink> = Vec::new();
    if program_set.edges.len() > 0 {
        match &program_set.edges[0].cursor {
            Option::Some(c) => {
                let mut href = String::from_str("http://");
                href.append(host);
                href.append("/feed/");
                href.append(program_set.id.as_str());
                href.append("?cursor=");
                href.append(c.as_str());
                proof {
                    assert(href@ =~= spec_next_url(host@, program_set.id@, c@));
                }
                let next_page = AtomLink {
                    href,
                    rel: String::from_str("next"),
                    mime_type: Option::None,
                    title: Option::None,
                };
                links.push(next_page);
            },
            Option::None => {},
        }
    }

    let feed = AtomFeed {
        id: program_set.id.clone(),
        title: program_set.title.clone(),
        updated,
        icon,
        logo,
        entries,
        links,
    };
    proof {
        assert(feed.deep_view().entries =~= spec_feed(program_set.deep_view(), host@).entries);
        assert(feed.deep_view().links =~~= spec_feed(program_set.deep_view(), host@).links);
        assert(feed.deep_view() =~~= spec_feed(program_set.deep_view(), host@));
    }
    feed
}

/// An episode without a publish date yields an entry with `published` and
/// `updated` both absent: no default instant is ever substituted.
pub proof fn lemma_entry_without_date(n: EpisodeModel)
    requires
        n.publish_date is None,
    ensures
        spec_entry(n).published is None,
        spec_entry(n).updated is None,
{
}

/// An episode without audio assets yields an entry with no enclosure links;
/// the mapping never fails on an empty audio list.
pub proof fn lemma_entry_without_audio(n: EpisodeModel)
    requires
        n.audios.len() == 0,
    ensures
        spec_entry(n).links.len() == 0,
{
}

/// The feed keeps the page's episodes in upstream order: entry `j` is the
/// image of edge `j`'s node, for every `j`; nothing is dropped, added or
/// re-sorted.
pub proof fn lemma_entries_in_order(p: ProgramSetModel, host: Seq<char>)
    ensures
        spec_feed(p, host).entries.len() == p.edges.len(),
        forall|j: int|
            0 <= j < p.edges.len() ==> spec_feed(p, host).entries[j] == spec_entry(
                #[trigger] p.edges[j].node,
            ),
{
}

/// A page whose first edge carries a cursor yields exactly one link, of
/// relation `next`, whose target ends in `?cursor=` followed by that
/// cursor; a page without edges, or whose first edge carries none, yields
/// no link at all.
pub proof fn lemma_next_link(p: ProgramSetModel, host: Seq<char>)
    ensures
        p.edges.len() > 0 && p.edges[0].cursor is Some ==> spec_feed(p, host).links.len() == 1,
        p.edges.len() > 0 && p.edges[0].cursor is Some ==> spec_feed(p, host).links[0].rel
            == "next"@,
        p.edges.len() > 0 && p.edges[0].cursor is Some ==> spec_feed(p, host).links[0].href
            == spec_next_url(host, p.id, p.edges[0].cursor->0),
        p.edges.len() > 0 && p.edges[0].cursor is Some ==> spec_feed(p, host).links[0].href.skip(
            spec_feed(p, host).links[0].href.len() - ("?cursor="@ + p.edges[0].cursor->0).len(),
        ) == "?cursor="@ + p.edges[0].cursor->0,
        !(p.edges.len() > 0 && p.edges[0].cursor is Some) ==> spec_feed(p, host).links.len() == 0,
{
    if p.edges.len() > 0 && p.edges[0].cursor is Some {
        let c = p.edges[0].cursor->0;
        let href = spec_feed(p, host).links[0].href;
        let tail = "?cursor="@ + c;
        assert(href == "http://"@ + host + "/feed/"@ + p.id + "?cursor="@ + c);
        assert(href.skip(href.len() - tail.len()) =~= tail);
    }
}

} // verus!
