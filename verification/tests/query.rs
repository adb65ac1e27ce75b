use stockin_api::handler::query::{concat_parts, extract_info};

#[test]
fn info_from_a_full_page() {
    let doc = r#"<!DOCTYPE html><html><head>
        <title>  Example Domain
        </title>
        <meta property="og:image" content="  https://example.com/image.png ">
        </head><body><title>not this</title></body></html>"#;
    let info = extract_info(doc);
    assert_eq!(info.title, "Example Domain");
    assert_eq!(info.thumbnail, "https://example.com/image.png");
}

#[test]
fn info_from_a_page_without_head_data() {
    let info = extract_info("<html><body><p>hello</p></body></html>");
    assert_eq!(info.title, "");
    assert_eq!(info.thumbnail, "");
}

#[test]
fn info_uses_the_first_title_and_image() {
    let doc = r#"<html><head><title>First</title><title>Second</title>
        <meta property="og:image" content="a.png"><meta property="og:image" content="b.png">
        </head></html>"#;
    let info = extract_info(doc);
    assert_eq!(info.title, "First");
    assert_eq!(info.thumbnail, "a.png");
}

#[test]
fn info_image_without_content_is_empty() {
    let doc = r#"<html><head><meta property="og:image"><title>T</title></head></html>"#;
    let info = extract_info(doc);
    assert_eq!(info.title, "T");
    assert_eq!(info.thumbnail, "");
}

#[test]
fn info_trims_unicode_white_space() {
    let doc = "<html><head><title>\u{3000}\u{a0}Rust\u{2003}</title></head></html>";
    let info = extract_info(doc);
    assert_eq!(info.title, "Rust");
}

#[test]
fn parts_are_joined_in_order() {
    let parts = vec!["ab".to_string(), "".to_string(), "c d".to_string()];
    assert_eq!(concat_parts(&parts), "abc d");
    assert_eq!(concat_parts(&vec![]), "");
}
