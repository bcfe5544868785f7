use iced_nsview::clipboard::clipboard_content;

#[test]
fn a_failed_read_has_no_content() {
    assert_eq!(clipboard_content(None), None);
}

#[test]
fn an_empty_pasteboard_has_no_content() {
    assert_eq!(clipboard_content(Some(Vec::new())), None);
}

#[test]
fn a_single_string_is_the_content() {
    let r = clipboard_content(Some(vec![String::from("hello")]));
    assert_eq!(r, Some(String::from("hello")));
}

#[test]
fn the_first_of_several_strings_is_the_content() {
    let r = clipboard_content(Some(vec![String::from("first"), String::from("second")]));
    assert_eq!(r, Some(String::from("first")));
}

#[test]
fn an_empty_string_is_still_content() {
    let r = clipboard_content(Some(vec![String::new()]));
    assert_eq!(r, Some(String::new()));
}
