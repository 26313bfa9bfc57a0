//! The upstream side of the pipeline: one fetched page of a show, as the
//! catalog reports it, with the ghost models that the contracts speak of.

use vstd::prelude::*;

verus! {

/// One playable rendition of an episode.
#[derive(Clone, Debug, PartialEq, Eq)]
pub struct AudioAsset {
    pub url: String,
    pub mime_type: String,
    pub title: Option<String>,
}

/// One episode of a show. Summary and publish date may be missing, and the
/// list of audio assets may be empty; none of that is an error.
#[derive(Clone, Debug, PartialEq, Eq)]
pub struct EpisodeNode {
    pub id: String,
    pub title: String,
    pub summary: Option<String>,
    pub publish_date: Option<String>,
    pub audios: Vec<AudioAsset>,
}

/// One edge of the paginated episode list: the node together with the
/// opaque cursor the catalog attached to it, if any.
#[derive(Clone, Debug, PartialEq, Eq)]
pub struct EpisodeEdge {
    pub cursor: Option<String>,
    pub node: EpisodeNode,
}

/// The show's artwork: a URL template that may carry a width placeholder.
/// The URL itself may be absent.
#[derive(Clone, Debug, PartialEq, Eq)]
pub struct ShowImage {
    pub url: Option<String>,
}

/// One fetched page of a show's episode list. The edges keep the upstream
/// order; they are never re-sorted.
#[derive(Clone, Debug, PartialEq, Eq)]
pub struct ProgramSet {
    pub id: String,
    pub title: String,
    pub last_item_modified: Option<String>,
    pub image: Option<ShowImage>,
    pub edges: Vec<EpisodeEdge>,
}

/// Show metadata alone, fetched without episode data for the discovery view.
#[derive(Clone, Debug, PartialEq, Eq)]
pub struct ProgramMetadata {
    pub title: String,
    pub image: Option<ShowImage>,
}

/// Mathematical image of an [`AudioAsset`].
#[verifier::ext_equal]
pub ghost struct AudioModel {
    pub url: Seq<char>,
    pub mime_type: Seq<char>,
    pub title: Option<Seq<char>>,
}

/// Mathematical image of an [`EpisodeNode`].
#[verifier::ext_equal]
pub ghost struct EpisodeModel {
    pub id: Seq<char>,
    pub title: Seq<char>,
    pub summary: Option<Seq<char>>,
    pub publish_date: Option<Seq<char>>,
    pub audios: Seq<AudioModel>,
}

/// Mathematical image of an [`EpisodeEdge`].
#[verifier::ext_equal]
pub ghost struct EdgeModel {
    pub cursor: Option<Seq<char>>,
    pub node: EpisodeModel,
}

/// Mathematical image of a [`ShowImage`].
#[verifier::ext_equal]
pub ghost struct ImageModel {
    pub url: Option<Seq<char>>,
}

/// Mathematical image of a [`ProgramSet`].
#[verifier::ext_equal]
pub ghost struct ProgramSetModel {
    pub id: Seq<char>,
    pub title: Seq<char>,
    pub last_item_modified: Option<Seq<char>>,
    pub image: Option<ImageModel>,
    pub edges: Seq<EdgeModel>,
}

/// Mathematical image of a [`ProgramMetadata`].
#[verifier::ext_equal]
pub ghost struct MetadataModel {
    pub title: Seq<char>,
    pub image: Option<ImageModel>,
}

impl DeepView for AudioAsset {
    type V = AudioModel;

    open spec fn deep_view(&self) -> AudioModel {
        AudioModel {
            url: self.url@,
            mime_type: self.mime_type@,
            title: self.title.deep_view(),
        }
    }
}

impl DeepView for EpisodeNode {
    type V = EpisodeModel;

    open spec fn deep_view(&self) -> EpisodeModel {
        EpisodeModel {
            id: self.id@,
            title: self.title@,
            summary: self.summary.deep_view(),
            publish_date: self.publish_date.deep_view(),
            audios: self.audios.deep_view(),
        }
    }
}

impl DeepView for EpisodeEdge {
    type V = EdgeModel;

    open spec fn deep_view(&self) -> EdgeModel {
        EdgeModel { cursor: self.cursor.deep_view(), node: self.node.deep_view() }
    }
}

impl DeepView for ShowImage {
    type V = ImageModel;

    open spec fn deep_view(&self) -> ImageModel {
        ImageModel { url: self.url.deep_view() }
    }
}

impl DeepView for ProgramSet {
    type V = ProgramSetModel;

    open spec fn deep_view(&self) -> ProgramSetModel {
        ProgramSetModel {
            id: self.id@,
            title: self.title@,
            last_item_modified: self.last_item_modified.deep_view(),
            image: self.image.deep_view(),
            edges: self.edges.deep_view(),
        }
    }
}

impl DeepView for ProgramMetadata {
    type V = MetadataModel;

    open spec fn deep_view(&self) -> MetadataModel {
        MetadataModel { title: self.title@, image: self.image.deep_view() }
    }
}

} // verus!
