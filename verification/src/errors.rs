//! The failure taxonomy of a run. Everything here is fatal and unwinds to the
//! caller, with one exception handled by the assembler: an image that fails to
//! decode on a non-bootstrap page ends the document gracefully instead.

use vstd::prelude::*;

verus! {

/// Rejection of the supplied credentials before any request is made.
#[derive(Clone, Copy, Debug, PartialEq, Eq, Structural)]
pub enum ConfigError {
    /// The session cookie holds a byte that cannot stand in an HTTP header value.
    InvalidCookie,
    /// The auxiliary auth token holds a byte that cannot stand in an HTTP header value.
    InvalidAuthToken,
}

/// A per-page retrieval that did not come back with a usable body.
/// Constructed at the transport boundary and handed in as an event.
#[derive(Clone, Copy, Debug, PartialEq, Eq, Structural)]
pub enum FetchFailure {
    /// The transport layer failed before a complete response arrived.
    Transport,
    /// The service answered with the given non-success status code.
    Status(u16),
}

/// Why an annotation payload was rejected. The outer document and the nested
/// payload inside its text field fail distinctly, so a diagnostic can say
/// which of the two decodes went wrong.
#[derive(Clone, Copy, Debug, PartialEq, Eq, Structural)]
pub enum AnnotError {
    /// The outer payload nests deeper than the decoder's bound and is
    /// rejected before it is handed to the parser.
    OuterTooDeep,
    /// The outer payload is not a well-formed document.
    OuterSyntax,
    /// The outer payload parses but does not hold the expected text field.
    OuterShape,
    /// The nested payload nests deeper than the decoder's bound and is
    /// rejected before it is handed to the parser.
    InnerTooDeep,
    /// The nested payload inside the text field is not a well-formed document.
    InnerSyntax,
    /// The nested payload parses but its glyph-run list is malformed.
    InnerShape,
}

/// The first fatal condition of a run. When one arises, no output is written.
#[derive(Clone, Copy, Debug, PartialEq, Eq, Structural)]
pub enum RunError {
    /// Credential headers could not be built.
    Config(ConfigError),
    /// A page retrieval failed outright.
    Fetch(FetchFailure),
    /// The bootstrap page's image did not decode; a document must have at
    /// least one page, so this aborts instead of ending the document.
    BootstrapDecode,
    /// A page's annotation payload did not decode.
    Annotation(AnnotError),
    /// The assembled document could not be written out.
    Sink,
}

} // verus!
