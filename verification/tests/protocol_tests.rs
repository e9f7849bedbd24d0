use std::io::Write;
use subgrabber::protocol::{
    decompress_subtitle, extract_first_link, extract_token, login_payload, search_payload,
};
use subgrabber::RetrievalError;

#[test]
fn login_payload_has_the_fixed_shape() {
    let body = login_payload();
    assert!(body.starts_with("<?xml version=\"1.0\"?>"));
    assert!(body.contains("<methodName>LogIn</methodName>"));
    assert!(body.contains("<value><string>TemporaryUserAgent</string></value>"));
    // Three empty positional parameters come before the user agent.
    assert_eq!(body.matches("<value><string></string></value>").count(), 3);
}

#[test]
fn search_payload_embeds_token_hash_and_size() {
    let body = search_payload("sometoken", "8e245d9679d31e12", 733906744);
    assert!(body.contains("<methodName>SearchSubtitles</methodName>"));
    assert!(body.contains("<value><string>sometoken</string></value>"));
    assert!(body.contains("<name>sublanguageid</name>"));
    assert!(body.contains("<value><string>eng</string></value>"));
    assert!(body.contains("<name>moviehash</name>"));
    assert!(body.contains("<value><string>8e245d9679d31e12</string></value>"));
    assert!(body.contains("<name>moviebytesize</name>"));
    assert!(body.contains("<value><string>733906744</string></value>"));
}

#[test]
fn search_payload_renders_size_in_decimal() {
    let body = search_payload("t", "0000000000000000", 0);
    assert!(body.contains("<name>moviebytesize</name>"));
    assert!(body.contains("<value><string>0</string></value>"));
    let body = search_payload("t", "0000000000000000", u64::MAX);
    assert!(body.contains("<value><string>18446744073709551615</string></value>"));
}

#[test]
fn token_is_read_from_a_login_response() {
    let response = "<?xml version=\"1.0\"?><methodResponse><params><param><value><struct>\
        <member><name>token</name><value><string>abc123xyz</string></value></member>\
        <member><name>status</name><value><string>200 OK</string></value></member>\
        </struct></value></param></params></methodResponse>";
    assert_eq!(extract_token(response), Some("abc123xyz".to_string()));
}

#[test]
fn missing_token_field_is_absent() {
    let response = "<?xml version=\"1.0\"?><methodResponse><params></params></methodResponse>";
    assert_eq!(extract_token(response), None);
}

#[test]
fn empty_token_field_is_absent() {
    let response = "<member><name>token</name><value><string></string></value></member>";
    assert_eq!(extract_token(response), None);
}

#[test]
fn first_of_several_links_is_taken() {
    let response = "<struct>\
        <member><name>SubDownloadLink</name><value><string>http://example/first.gz</string></value></member>\
        <member><name>SubDownloadLink</name><value><string>http://example/second.gz</string></value></member>\
        </struct>";
    assert_eq!(
        extract_first_link(response),
        Some("http://example/first.gz".to_string())
    );
}

#[test]
fn response_without_link_is_not_found() {
    let response = "<?xml version=\"1.0\"?><methodResponse><params><param>\
        <value><struct><member><name>status</name><value><string>200 OK</string></value></member>\
        </struct></value></param></params></methodResponse>";
    assert_eq!(extract_first_link(response), None);
}

#[test]
fn gzip_round_trip() {
    let subtitle = b"1\n00:00:01,000 --> 00:00:04,000\nHello there.\n".to_vec();
    let mut encoder = flate2::write::GzEncoder::new(Vec::new(), flate2::Compression::default());
    encoder.write_all(&subtitle).unwrap();
    let compressed = encoder.finish().unwrap();
    let inflated = decompress_subtitle(&compressed).unwrap();
    assert_eq!(inflated, subtitle);
}

#[test]
fn malformed_gzip_is_a_decompress_error() {
    let garbage = vec![0x00, 0x01, 0x02, 0x03, 0x04];
    assert_eq!(
        decompress_subtitle(&garbage),
        Err(RetrievalError::Decompress)
    );
}
