use audiothek_feed::resolve::image_url;

#[test]
fn fills_single_token() {
    assert_eq!(image_url("http://img/{width}/p.jpg", 512), "http://img/512/p.jpg");
}

#[test]
fn fills_every_token() {
    assert_eq!(image_url("a{width}b{width}c", 7), "a7b7c");
}

#[test]
fn template_without_token_is_unchanged() {
    assert_eq!(image_url("http://img/p.jpg", 512), "http://img/p.jpg");
    assert_eq!(image_url("", 512), "");
    assert_eq!(image_url("{widt}", 99), "{widt}");
}

#[test]
fn zero_width_renders_one_digit() {
    assert_eq!(image_url("x/{width}", 0), "x/0");
}

#[test]
fn large_width_renders_all_digits() {
    assert_eq!(image_url("{width}", 4294967295), "4294967295");
}

#[test]
fn resolving_is_idempotent() {
    let once = image_url("a{width}b{width}", 256);
    assert_eq!(once, "a256b256");
    let twice = image_url(&once, 256);
    assert_eq!(twice, once);
    let other_width = image_url(&once, 512);
    assert_eq!(other_width, once);
}

#[test]
fn partial_tokens_do_not_merge() {
    assert_eq!(image_url("{wid{width}th}", 5), "{wid5th}");
    assert_eq!(image_url("{{width}}", 5), "{5}");
}
