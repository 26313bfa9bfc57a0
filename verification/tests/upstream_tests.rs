use audiothek_feed::model::{ProgramMetadata, ProgramSet};
use audiothek_feed::upstream::{
    feed_from_response, metadata_or_not_found, payload_or_error, show_page_or_not_found, FeedError,
};

fn empty_page() -> ProgramSet {
    ProgramSet {
        id: "42".to_string(),
        title: "Show".to_string(),
        last_item_modified: None,
        image: None,
        edges: Vec::new(),
    }
}

#[test]
fn present_payload_is_used() {
    assert_eq!(payload_or_error(Some(5u32)), Ok(5u32));
}

#[test]
fn absent_payload_is_empty_response() {
    assert_eq!(payload_or_error::<u32>(None), Err(FeedError::EmptyResponse));
}

#[test]
fn null_show_is_not_found() {
    assert_eq!(show_page_or_not_found(None), Err(FeedError::ShowNotFound));
    let meta: Option<ProgramMetadata> = None;
    assert_eq!(metadata_or_not_found(meta), Err(FeedError::ShowNotFound));
}

#[test]
fn present_show_passes_through() {
    let page = empty_page();
    assert_eq!(show_page_or_not_found(Some(page.clone())), Ok(page));
    let meta = ProgramMetadata { title: "Show".to_string(), image: None };
    assert_eq!(metadata_or_not_found(Some(meta.clone())), Ok(meta));
}

#[test]
fn feed_from_null_show_is_not_found() {
    assert_eq!(feed_from_response(None, "example.org"), Err(FeedError::ShowNotFound));
}

#[test]
fn feed_from_present_show_is_built() {
    let feed = feed_from_response(Some(empty_page()), "example.org").unwrap();
    assert_eq!(feed.id, "42");
    assert_eq!(feed.title, "Show");
    assert!(feed.entries.is_empty());
}

#[test]
fn error_messages_name_the_failure() {
    assert_eq!(FeedError::Transport.message(), "upstream unavailable");
    assert_eq!(FeedError::EmptyResponse.message(), "failed to run GraphQL query");
    assert_eq!(FeedError::ShowNotFound.message(), "no result");
}
