//! Protocol messages and response fields.
//!
//! The remote service speaks a fixed XML-RPC schema: a `LogIn` call whose
//! response carries one `token` field, a `SearchSubtitles` call whose
//! response carries zero or more `SubDownloadLink` fields ordered
//! best-match-first, and a plain download whose body is gzip-compressed.
//! The payload builders and the field readers are verified; only the gzip
//! primitive is taken on trust.

use vstd::prelude::*;

verus! {

use vstd::string::{StringExecFns, StrSliceExecFns};
use crate::render::dec_chars;
use crate::scan::extract_between;
use crate::RetrievalError;

/// The body sent on a login call; its service, language and user-agent
/// fields are constants of the deployment.
pub open spec fn login_payload_text() -> Seq<char> {
    r#"<?xml version="1.0"?>
    <methodCall>
        <methodName>LogIn</methodName>
        <params>
            <param>
            <value><string></string></value>
            </param>
            <param>
            <value><string></string></value>
            </param>
            <param>
            <value><string></string></value>
            </param>
            <param>
            <value><string>TemporaryUserAgent</string></value>
            </param>
        </params>
    </methodCall>
    "#@
}

/// Builds the login request body.
pub fn login_payload() -> (r: &'static str)
    ensures
        r@ == login_payload_text(),
{
    r#"<?xml version="1.0"?>
    <methodCall>
        <methodName>LogIn</methodName>
        <params>
            <param>
            <value><string></string></value>
            </param>
            <param>
            <value><string></string></value>
            </param>
            <param>
            <value><string></string></value>
            </param>
            <param>
            <value><string>TemporaryUserAgent</string></value>
            </param>
        </params>
    </methodCall>
    "#
}

/// The search body up to the token field.
pub open spec fn search_part_before_token() -> Seq<char> {
    r#"<?xml version="1.0"?>
    <methodCall>
        <methodName>SearchSubtitles</methodName>
        <params>
            <param>
                <value><string>"#@
}

/// The search body between the token and the fingerprint hash.
pub open spec fn search_part_before_hash() -> Seq<char> {
    r#"</string></value>
            </param>
            <param>
                <value>
                    <array>
                        <data>
                            <value>
                                <struct>
                                    <member>
                                        <name>sublanguageid</name>
                                        <value><string>eng</string></value>
                                    </member>
                                    <member>
                                        <name>moviehash</name>
                                        <value><string>"#@
}

/// The search body between the fingerprint hash and the byte size.
pub open spec fn search_part_before_size() -> Seq<char> {
    r#"</string></value>
                                    </member>
                                    <member>
                                        <name>moviebytesize</name>
                                        <value><string>"#@
}

/// The search body after the byte size.
pub open spec fn search_part_after_size() -> Seq<char> {
    r#"</string></value>
                                    </member>
                                </struct>
                            </value>
                        </data>
                    </array>
                </value>
            </param>
        </params>
    </methodCall>
    "#@
}

/// The body sent on a search call: the fixed schema with the token, the
/// fingerprint hash and the decimal byte size in their positional slots.
pub open spec fn search_payload_text(token: Seq<char>, hash: Seq<char>, size: u64) -> Seq<char> {
    search_part_before_token() + token + search_part_before_hash() + hash
        + search_part_before_size() + dec_chars(size as nat) + search_part_after_size()
}

/// Builds the search request body for one token and one fingerprint.
pub fn search_payload(token: &str, hash: &str, size: u64) -> (r: String)
    ensures
        r@ == search_payload_text(token@, hash@, size),
{
    let mut s = (r#"<?xml version="1.0"?>
    <methodCall>
        <methodName>SearchSubtitles</methodName>
        <params>
            <param>
                <value><string>"#).to_owned();
    s.append(token);
    s.append(
        r#"</string></value>
            </param>
            <param>
                <value>
                    <array>
                        <data>
                            <value>
                                <struct>
                                    <member>
                                        <name>sublanguageid</name>
                                        <value><string>eng</string></value>
                                    </member>
                                    <member>
                                        <name>moviehash</name>
                                        <value><string>"#,
    );
    s.append(hash);
    s.append(
        r#"</string></value>
                                    </member>
                                    <member>
                                        <name>moviebytesize</name>
                                        <value><string>"#,
    );
    let size_text = crate::render::to_decimal(size);
    s.append(size_text.as_str());
    s.append(
        r#"</string></value>
                                    </member>
                                </struct>
                            </value>
                        </data>
                    </array>
                </value>
            </param>
        </params>
    </methodCall>
    "#,
    );
    s
}

/// The token field of a login response: the text between the token marker
/// and the string terminator that follows it.
pub open spec fn token_field(response: Seq<char>) -> Option<Seq<char>> {
    extract_between(response, "<name>token</name><value><string>"@, "</string>"@)
}

/// Reads the token out of a login response; absent when the response does
/// not carry the field.
pub fn extract_token(response: &str) -> (r: Option<String>)
    ensures
        r is Some <==> token_field(response@) is Some,
        r is Some ==> r.unwrap()@ == token_field(response@).unwrap(),
{
    proof {
        reveal_strlit("<name>token</name><value><string>");
        reveal_strlit("</string>");
    }
    crate::scan::extract_field(response, "<name>token</name><value><string>", "</string>")
}

/// The first download-link field of a search response.  The service orders
/// candidates best-match-first, so the first field is the one to use.
pub open spec fn link_field(response: Seq<char>) -> Option<Seq<char>> {
    extract_between(
        response,
        "<name>SubDownloadLink</name><value><string>"@,
        "</string></value>"@,
    )
}

/// Reads the first download link out of a search response; absent is the
/// normal not-found outcome, not an error.
pub fn extract_first_link(response: &str) -> (r: Option<String>)
    ensures
        r is Some <==> link_field(response@) is Some,
        r is Some ==> r.unwrap()@ == link_field(response@).unwrap(),
{
    proof {
        reveal_strlit("<name>SubDownloadLink</name><value><string>");
        reveal_strlit("</string></value>");
    }
    crate::scan::extract_field(
        response,
        "<name>SubDownloadLink</name><value><string>",
        "</string></value>",
    )
}

/// What gzip decompression yields on a byte sequence: the inflated bytes,
/// or nothing when the sequence is not a well-formed gzip stream.  The
/// result depends on the input bytes alone.
pub uninterp spec fn gunzip_of(compressed: Seq<u8>) -> Option<Seq<u8>>;

/// Relies on flate2's `read::GzDecoder` together with `Read::read_to_end`:
/// inflating a gzip stream is a function of the input bytes alone, and a
/// malformed stream reports an error instead of bytes.
#[verifier::external_body]
fn gunzip(data: &[u8]) -> (r: Option<Vec<u8>>)
    ensures
        r is Some <==> gunzip_of(data@) is Some,
        r is Some ==> r.unwrap()@ == gunzip_of(data@).unwrap(),
{
    let mut decoder = flate2::read::GzDecoder::new(data);
    let mut inflated = Vec::new();
    match std::io::Read::read_to_end(&mut decoder, &mut inflated) {
        Ok(_) => Some(inflated),
        Err(_) => None,
    }
}

/// Decompresses a downloaded subtitle body; a body that is not a
/// well-formed gzip stream is a decompression failure.
pub fn decompress_subtitle(body: &[u8]) -> (r: Result<Vec<u8>, RetrievalError>)
    ensures
        r is Ok <==> gunzip_of(body@) is Some,
        r is Ok ==> r.unwrap()@ == gunzip_of(body@).unwrap(),
        r is Err ==> r.unwrap_err() == RetrievalError::Decompress,
{
    match gunzip(body) {
        Some(bytes) => Ok(bytes),
        None => Err(RetrievalError::Decompress),
    }
}

} // verus!
