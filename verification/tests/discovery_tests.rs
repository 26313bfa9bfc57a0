use audiothek_feed::discovery::{feed_info_url, metadata_image, show_id_from_param};
use audiothek_feed::model::{ProgramMetadata, ShowImage};

#[test]
fn show_url_yields_third_segment() {
    let id = show_id_from_param("https://www.ardaudiothek.de/sendung/kalk-welk/12557411/");
    assert_eq!(id, "12557411");
}

#[test]
fn plain_id_passes_through() {
    assert_eq!(show_id_from_param("12557411"), "12557411");
}

#[test]
fn short_url_passes_through() {
    let id = show_id_from_param("https://www.ardaudiothek.de/sendung");
    assert_eq!(id, "https://www.ardaudiothek.de/sendung");
}

#[test]
fn feed_info_url_joins_host_and_id() {
    assert_eq!(feed_info_url("example.org:3000", "42"), "example.org:3000/feed/42");
}

#[test]
fn metadata_image_resolves_at_512() {
    let meta = ProgramMetadata {
        title: "Show".to_string(),
        image: Some(ShowImage { url: Some("http://img/{width}/p.jpg".to_string()) }),
    };
    assert_eq!(metadata_image(&meta).as_deref(), Some("http://img/512/p.jpg"));
}

#[test]
fn absent_metadata_image_stays_absent() {
    let none = ProgramMetadata { title: "Show".to_string(), image: None };
    assert!(metadata_image(&none).is_none());
    let no_url = ProgramMetadata { title: "Show".to_string(), image: Some(ShowImage { url: None }) };
    assert!(metadata_image(&no_url).is_none());
}
