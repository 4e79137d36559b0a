use bili_live_chat::text::parse_description;

#[test]
fn test_parse_description() {
    let description = "Hello\\nWorld!\\n".to_owned();
    let expect = vec!["Hello".to_owned(), "World!".to_owned()];
    let actual = parse_description(description.as_str());
    assert_eq!(expect, actual);

    let description = "Hello\\n\\n\\n\\n\\n\\nWorld!\\n".to_owned();
    let expect = vec!["Hello".to_owned(), "World!".to_owned()];
    let actual = parse_description(description.as_str());
    assert_eq!(expect, actual);

    // a single line: the display layer shows it inline after the label
    let description = "Hello\\n".to_owned();
    let expect = vec!["Hello".to_owned()];
    let actual = parse_description(description.as_str());
    assert_eq!(expect, actual);
}

#[test]
fn parse_description_handles_edges() {
    assert!(parse_description("").is_empty());
    assert!(parse_description("\\n\\n").is_empty());
    assert_eq!(parse_description("no breaks"), vec!["no breaks".to_owned()]);
    // a lone backslash is not a line break
    assert_eq!(parse_description("a\\b"), vec!["a\\b".to_owned()]);
    // the break may sit anywhere, and non-ascii text is kept whole
    assert_eq!(
        parse_description("one\\ntwo three\\n\u{76f4}\u{64ad}"),
        vec!["one".to_owned(), "two three".to_owned(), "\u{76f4}\u{64ad}".to_owned()]
    );
}
