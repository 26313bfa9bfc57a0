//! The Atom side of the pipeline: the feed document that the library
//! assembles, together with the ghost models that the contracts speak of.

use vstd::prelude::*;

verus! {

/// An instant on the time line: seconds and nanoseconds since the Unix
/// epoch, together with the UTC offset that the source text carried.
#[derive(Clone, Copy, PartialEq, Eq, Structural, Debug)]
pub struct Timestamp {
    pub secs: i64,
    pub nanos: u32,
    pub offset_secs: i32,
}

/// One Atom link, used both for enclosures and for the pagination link.
#[derive(Clone, Debug, PartialEq, Eq)]
pub struct AtomLink {
    pub href: String,
    pub rel: String,
    pub mime_type: Option<String>,
    pub title: Option<String>,
}

/// One Atom entry, the image of one episode.
#[derive(Clone, Debug, PartialEq, Eq)]
pub struct AtomEntry {
    pub id: String,
    pub title: String,
    pub summary: Option<String>,
    pub content: Option<String>,
    pub published: Option<Timestamp>,
    pub updated: Option<Timestamp>,
    pub links: Vec<AtomLink>,
}

/// The assembled Atom feed.
#[derive(Clone, Debug, PartialEq, Eq)]
pub struct AtomFeed {
    pub id: String,
    pub title: String,
    pub updated: Option<Timestamp>,
    pub icon: Option<String>,
    pub logo: Option<String>,
    pub entries: Vec<AtomEntry>,
    pub links: Vec<AtomLink>,
}

/// Mathematical image of an [`AtomLink`].
#[verifier::ext_equal]
pub ghost struct LinkModel {
    pub href: Seq<char>,
    pub rel: Seq<char>,
    pub mime_type: Option<Seq<char>>,
    pub title: Option<Seq<char>>,
}

/// Mathematical image of an [`AtomEntry`].
#[verifier::ext_equal]
pub ghost struct EntryModel {
    pub id: Seq<char>,
    pub title: Seq<char>,
    pub summary: Option<Seq<char>>,
    pub content: Option<Seq<char>>,
    pub published: Option<Timestamp>,
    pub updated: Option<Timestamp>,
    pub links: Seq<LinkModel>,
}

/// Mathematical image of an [`AtomFeed`].
#[verifier::ext_equal]
pub ghost struct FeedModel {
    pub id: Seq<char>,
    pub title: Seq<char>,
    pub updated: Option<Timestamp>,
    pub icon: Option<Seq<char>>,
    pub logo: Option<Seq<char>>,
    pub entries: Seq<EntryModel>,
    pub links: Seq<LinkModel>,
}

impl DeepView for AtomLink {
    type V = LinkModel;

    open spec fn deep_view(&self) -> LinkModel {
        LinkModel {
            href: self.href@,
            rel: self.rel@,
            mime_type: self.mime_type.deep_view(),
            title: self.title.deep_view(),
        }
    }
}

impl DeepView for AtomEntry {
    type V = EntryModel;

    open spec fn deep_view(&self) -> EntryModel {
        EntryModel {
            id: self.id@,
            title: self.title@,
            summary: self.summary.deep_view(),
            content: self.content.deep_view(),
            published: self.published,
            updated: self.updated,
            links: self.links.deep_view(),
        }
    }
}

impl DeepView for AtomFeed {
    type V = FeedModel;

    open spec fn deep_view(&self) -> FeedModel {
        FeedModel {
            id: self.id@,
            title: self.title@,
            updated: self.updated,
            icon: self.icon.deep_view(),
            logo: self.logo.deep_view(),
            entries: self.entries.deep_view(),
            links: self.links.deep_view(),
        }
    }
}

} // verus!
