use audiothek_feed::atom::Timestamp;
use audiothek_feed::feed::{create_feed, node_to_episode};
use audiothek_feed::model::{AudioAsset, EpisodeEdge, EpisodeNode, ProgramSet, ShowImage};

fn episode(id: &str, title: &str) -> EpisodeNode {
    EpisodeNode {
        id: id.to_string(),
        title: title.to_string(),
        summary: None,
        publish_date: None,
        audios: Vec::new(),
    }
}

fn page(id: &str, title: &str, edges: Vec<EpisodeEdge>) -> ProgramSet {
    ProgramSet {
        id: id.to_string(),
        title: title.to_string(),
        last_item_modified: None,
        image: None,
        edges,
    }
}

#[test]
fn entry_without_publish_date_has_no_instants() {
    let entry = node_to_episode(&episode("e1", "Ep1"));
    assert!(entry.published.is_none());
    assert!(entry.updated.is_none());
}

#[test]
fn entry_with_malformed_publish_date_has_no_instants() {
    let mut node = episode("e1", "Ep1");
    node.publish_date = Some("not-a-date".to_string());
    let entry = node_to_episode(&node);
    assert!(entry.published.is_none());
    assert!(entry.updated.is_none());
}

#[test]
fn entry_without_audios_has_no_enclosures() {
    let entry = node_to_episode(&episode("e1", "Ep1"));
    assert!(entry.links.is_empty());
}

#[test]
fn entry_publish_date_sets_both_instants() {
    let mut node = episode("e1", "Ep1");
    node.publish_date = Some("2023-01-01T00:00:00Z".to_string());
    let entry = node_to_episode(&node);
    let expected = Timestamp { secs: 1672531200, nanos: 0, offset_secs: 0 };
    assert_eq!(entry.published, Some(expected));
    assert_eq!(entry.updated, Some(expected));
}

#[test]
fn entry_keeps_offset_of_publish_date() {
    let mut node = episode("e1", "Ep1");
    node.publish_date = Some("2023-05-01T14:00:00+02:00".to_string());
    let entry = node_to_episode(&node);
    let expected = Timestamp { secs: 1682942400, nanos: 0, offset_secs: 7200 };
    assert_eq!(entry.published, Some(expected));
}

#[test]
fn entry_content_duplicates_summary() {
    let mut node = episode("e1", "Ep1");
    node.summary = Some("about the episode".to_string());
    let entry = node_to_episode(&node);
    assert_eq!(entry.summary.as_deref(), Some("about the episode"));
    assert_eq!(entry.content.as_deref(), Some("about the episode"));

    let bare = node_to_episode(&episode("e2", "Ep2"));
    assert!(bare.summary.is_none());
    assert!(bare.content.is_none());
}

#[test]
fn enclosure_copies_audio_fields() {
    let mut node = episode("e1", "Ep1");
    node.audios = vec![
        AudioAsset {
            url: "http://x/a.mp3".to_string(),
            mime_type: "audio/mpeg".to_string(),
            title: Some("mp3".to_string()),
        },
        AudioAsset {
            url: "http://x/a.ogg".to_string(),
            mime_type: "audio/ogg".to_string(),
            title: None,
        },
    ];
    let entry = node_to_episode(&node);
    assert_eq!(entry.links.len(), 2);
    assert_eq!(entry.links[0].href, "http://x/a.mp3");
    assert_eq!(entry.links[0].rel, "enclosure");
    assert_eq!(entry.links[0].mime_type.as_deref(), Some("audio/mpeg"));
    assert_eq!(entry.links[0].title.as_deref(), Some("mp3"));
    assert_eq!(entry.links[1].href, "http://x/a.ogg");
    assert_eq!(entry.links[1].rel, "enclosure");
    assert!(entry.links[1].title.is_none());
}

#[test]
fn cursor_of_first_edge_yields_one_next_link() {
    let edges = vec![
        EpisodeEdge { cursor: Some("abc".to_string()), node: episode("e1", "Ep1") },
        EpisodeEdge { cursor: Some("def".to_string()), node: episode("e2", "Ep2") },
    ];
    let feed = create_feed(&page("42", "Show", edges), "example.org");
    assert_eq!(feed.links.len(), 1);
    assert_eq!(feed.links[0].rel, "next");
    assert!(feed.links[0].href.ends_with("cursor=abc"));
    assert_eq!(feed.links[0].href, "http://example.org/feed/42?cursor=abc");
}

#[test]
fn no_cursor_yields_no_link() {
    let edges = vec![EpisodeEdge { cursor: None, node: episode("e1", "Ep1") }];
    let feed = create_feed(&page("42", "Show", edges), "example.org");
    assert!(feed.links.is_empty());

    let empty = create_feed(&page("42", "Show", Vec::new()), "example.org");
    assert!(empty.links.is_empty());
}

#[test]
fn last_item_modified_round_trips() {
    let mut p = page("42", "Show", Vec::new());
    p.last_item_modified = Some("2023-05-01T12:00:00Z".to_string());
    let feed = create_feed(&p, "example.org");
    assert_eq!(feed.updated, Some(Timestamp { secs: 1682942400, nanos: 0, offset_secs: 0 }));
}

#[test]
fn malformed_last_item_modified_leaves_updated_absent() {
    let mut p = page("42", "Show", Vec::new());
    p.last_item_modified = Some("not-a-date".to_string());
    let feed = create_feed(&p, "example.org");
    assert!(feed.updated.is_none());

    let bare = create_feed(&page("42", "Show", Vec::new()), "example.org");
    assert!(bare.updated.is_none());
}

#[test]
fn absent_image_leaves_artwork_absent() {
    let mut p = page("42", "Show", Vec::new());
    let feed = create_feed(&p, "example.org");
    assert!(feed.icon.is_none());
    assert!(feed.logo.is_none());

    p.image = Some(ShowImage { url: None });
    let feed = create_feed(&p, "example.org");
    assert!(feed.icon.is_none());
    assert!(feed.logo.is_none());
}

#[test]
fn entries_keep_upstream_order() {
    let edges = vec![
        EpisodeEdge { cursor: None, node: episode("e1", "C") },
        EpisodeEdge { cursor: None, node: episode("e2", "A") },
        EpisodeEdge { cursor: None, node: episode("e3", "B") },
    ];
    let feed = create_feed(&page("42", "Show", edges), "example.org");
    let ids: Vec<&str> = feed.entries.iter().map(|e| e.id.as_str()).collect();
    assert_eq!(ids, ["e1", "e2", "e3"]);
}

#[test]
fn full_page_builds_full_feed() {
    let node = EpisodeNode {
        id: "e1".to_string(),
        title: "Ep1".to_string(),
        summary: Some("S".to_string()),
        publish_date: Some("2023-01-01T00:00:00Z".to_string()),
        audios: vec![AudioAsset {
            url: "http://x/a.mp3".to_string(),
            mime_type: "audio/mpeg".to_string(),
            title: None,
        }],
    };
    let p = ProgramSet {
        id: "42".to_string(),
        title: "Show".to_string(),
        last_item_modified: None,
        image: Some(ShowImage { url: Some("http://img/{width}/p.jpg".to_string()) }),
        edges: vec![EpisodeEdge { cursor: None, node }],
    };
    let feed = create_feed(&p, "example.org");
    assert_eq!(feed.id, "42");
    assert_eq!(feed.title, "Show");
    assert_eq!(feed.logo.as_deref(), Some("http://img/512/p.jpg"));
    assert_eq!(feed.icon.as_deref(), Some("http://img/256/p.jpg"));
    assert_eq!(feed.entries.len(), 1);
    let entry = &feed.entries[0];
    assert_eq!(entry.id, "e1");
    assert_eq!(entry.title, "Ep1");
    assert_eq!(entry.summary.as_deref(), Some("S"));
    assert_eq!(entry.content.as_deref(), Some("S"));
    assert_eq!(entry.published, Some(Timestamp { secs: 1672531200, nanos: 0, offset_secs: 0 }));
    assert_eq!(entry.links.len(), 1);
    assert_eq!(entry.links[0].href, "http://x/a.mp3");
    assert_eq!(entry.links[0].rel, "enclosure");
    assert_eq!(entry.links[0].mime_type.as_deref(), Some("audio/mpeg"));
    assert!(feed.links.is_empty());
}
