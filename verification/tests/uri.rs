use curio::definitions::uniform_resource_identifier::URI;
use curio::structs::HTTPtype;

#[test]
fn parse_uri_string() {
    let uri = "https://example.com:8012/this/is/the/path";

    let parsed = URI::new(uri);

    println!("{:#?}", parsed.unwrap());

    assert_eq!(1, 1)
}

#[test]
fn uri_parts() {
    let uri = URI::new("https://example.com:8012/this/is/the/path").unwrap();
    assert_eq!(uri.protocol, HTTPtype::HTTPS);
    assert_eq!(uri.domain.sub, None);
    assert_eq!(uri.domain.host, "example");
    assert_eq!(uri.domain.tld, "com");
    assert_eq!(uri.domain.port, 8012);
    assert_eq!(uri.path, "/this/is/the/path");
}
