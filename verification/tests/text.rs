use model_provider::text::{join_url, normalize_for_embedding};

#[test]
fn normalize_trims_and_collapses_whitespace() {
    assert_eq!(normalize_for_embedding("  a \n\t b  "), "a b");
}

#[test]
fn normalize_handles_unicode_white_space() {
    assert_eq!(normalize_for_embedding("\u{3000}x\u{a0}\u{a0}y\u{2028}"), "x y");
    assert_eq!(normalize_for_embedding(" \t\n "), "");
    assert_eq!(normalize_for_embedding("plain"), "plain");
}

#[test]
fn normalize_twice_is_normalize_once() {
    let texts = ["  a \n\t b  ", "x\r\ny", "\u{2003}lead and  trail\u{2003}", ""];
    for t in texts.iter() {
        let once = normalize_for_embedding(t);
        assert_eq!(normalize_for_embedding(&once), once);
    }
}

#[test]
fn join_url_drops_trailing_slashes() {
    assert_eq!(join_url("https://h/v1", "/messages"), "https://h/v1/messages");
    assert_eq!(join_url("https://h/v1/", "/messages"), "https://h/v1/messages");
    assert_eq!(join_url("https://h/v1///", "/messages"), "https://h/v1/messages");
    assert_eq!(join_url("", "/x"), "/x");
}
