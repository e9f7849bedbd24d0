//! Verified core of a subtitle grabber.
//!
//! The library computes a content fingerprint for a media file, builds and
//! parses the messages of a fixed XML-RPC subtitle-lookup protocol, and
//! drives the authenticated search/retry state machine that obtains a
//! subtitle download link.  File and network transport stay outside; the
//! logic that decides what is sent, what a response means and when a retry
//! happens is stated in contracts and proved here.

pub mod coordinator;
pub mod fingerprint;
pub mod paths;
pub mod protocol;
pub mod render;
pub mod scan;

use vstd::prelude::*;

verus! {

/// The failure kinds of one retrieval, fatal unless stated otherwise.
#[derive(Clone, Copy, Debug, PartialEq, Eq, Structural)]
pub enum RetrievalError {
    /// A file or cache location could not be read or written.
    IoFailure,
    /// A network request could not be carried out.
    TransportFailure,
    /// An expected field was absent from an otherwise successful response.
    ProtocolParse,
    /// The login response could not be parsed into a token.
    Auth,
    /// Both the initial search and the one permitted retry found nothing.
    SearchExhausted,
    /// A downloaded body was not a well-formed gzip stream.
    Decompress,
}

} // verus!
