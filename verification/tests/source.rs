use queryer::source::{locate, Location};

#[test]
fn text_without_scheme_is_a_path() {
    assert_eq!(locate("data/people.csv"), Location::Local("data/people.csv"));
    assert_eq!(locate("/tmp/a.csv"), Location::Local("/tmp/a.csv"));
    assert_eq!(locate(""), Location::Local(""));
    assert_eq!(locate("a:b"), Location::Local("a:b"));
    assert_eq!(locate("http:/x"), Location::Local("http:/x"));
    assert_eq!(locate("http:"), Location::Local("http:"));
    assert_eq!(locate("://x"), Location::Local("://x"));
    assert_eq!(locate("1http://x"), Location::Local("1http://x"));
    assert_eq!(locate("ht tp://x"), Location::Local("ht tp://x"));
}

#[test]
fn file_scheme_is_a_path() {
    assert_eq!(locate("file:///tmp/a.csv"), Location::Local("/tmp/a.csv"));
    assert_eq!(locate("file://rel/a.csv"), Location::Local("rel/a.csv"));
    assert_eq!(locate("file://"), Location::Local(""));
    assert_eq!(locate("file://données.csv"), Location::Local("données.csv"));
}

#[test]
fn other_schemes_are_urls() {
    assert_eq!(locate("https://example.org/a.csv"), Location::Remote("https://example.org/a.csv"));
    assert_eq!(locate("http://h"), Location::Remote("http://h"));
    assert_eq!(locate("s3+x-y.z://bucket"), Location::Remote("s3+x-y.z://bucket"));
    assert_eq!(locate("FILE://a"), Location::Remote("FILE://a"));
    assert_eq!(locate("files://a"), Location::Remote("files://a"));
    assert_eq!(locate("fil://a"), Location::Remote("fil://a"));
    assert_eq!(locate("x://"), Location::Remote("x://"));
}
