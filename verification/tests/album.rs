use imgur_a::album::{Album, AlbumImages, AlbumPattern};

fn page(data: &str, end: &str) -> String {
    format!(
        "<html><script type=\"text/javascript\">\n  widget = {{\n    image : {},{}    group: {{}}\n  }};\n</script></html>",
        data, end
    )
}

fn album(title: Option<&str>, description: Option<&str>, count: Option<usize>) -> Album {
    Album {
        title: title.map(String::from),
        description: description.map(String::from),
        album_images: count.map(|count| AlbumImages { count }),
    }
}

#[test]
fn album_data_is_found() {
    let pattern = AlbumPattern::new().unwrap();
    let data = "{\"title\":\"t\",\"album_images\":{\"count\":2}}";
    assert_eq!(pattern.find(&page(data, "\n")), Some(String::from(data)));
    assert_eq!(pattern.find(&page(data, "\r\n")), Some(String::from(data)));
}

#[test]
fn album_data_may_span_lines() {
    let pattern = AlbumPattern::new().unwrap();
    let data = "{\"title\":\n\"t\"}";
    assert_eq!(pattern.find(&page(data, "\n")), Some(String::from(data)));
}

#[test]
fn the_case_of_letters_plays_no_part() {
    let pattern = AlbumPattern::new().unwrap();
    assert_eq!(
        pattern.find("<SCRIPT>IMAGE:{\"a\":1},\n</SCRIPT>"),
        Some(String::from("{\"a\":1}"))
    );
}

#[test]
fn pages_without_album_data() {
    let pattern = AlbumPattern::new().unwrap();
    assert_eq!(pattern.find(""), None);
    assert_eq!(pattern.find("<html>nothing here</html>"), None);
    assert_eq!(pattern.find("image : {},\n</script>"), None);
    assert_eq!(pattern.find("<script>image : {}, group</script>"), None);
}

#[test]
fn albums_that_count() {
    assert!(album(None, None, Some(1)).has_content());
    assert!(album(Some("title"), None, None).has_content());
    assert!(album(None, Some("description"), Some(0)).has_content());
    assert!(album(Some(""), Some("d"), None).has_content());
}

#[test]
fn albums_that_do_not_count() {
    assert!(!album(None, None, None).has_content());
    assert!(!album(Some(""), Some(""), Some(0)).has_content());
    assert!(!album(None, Some(""), None).has_content());
}
