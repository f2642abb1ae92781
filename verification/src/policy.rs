//! The server's response policy: an asset request whose file exists is
//! answered with the file's bytes; every other request is answered with the
//! entry document, and when even that cannot be read, with a short HTML
//! message — always with status 200, never with a transport-level failure.

use vstd::prelude::*;

use crate::mime::{content_type_for, mime_for};
use crate::response::{Body, BodyView, Response, ResponseView};
use crate::routes::{classify, spec_classify, RouteDecision};

verus! {

/// The body served when the entry document cannot be read.
pub open spec fn error_body() -> Seq<char> {
    "<h1>Error: index.html not found</h1>"@
}

/// The content type of the fallback response.
pub open spec fn html_content_type() -> Seq<char> {
    "text/html"@
}

/// The model of an `Option<String>`: the text it holds, if any.
pub open spec fn opt_str_view(o: Option<String>) -> Option<Seq<char>> {
    match o {
        Some(s) => Some(s@),
        None => None,
    }
}

/// The model of an `Option<Vec<u8>>`: the bytes it holds, if any.
pub open spec fn opt_bytes_view(o: Option<Vec<u8>>) -> Option<Seq<u8>> {
    match o {
        Some(b) => Some(b@),
        None => None,
    }
}

/// The response to a fallback request, given what reading the entry document
/// yielded: its text when the read succeeded, the error message otherwise,
/// in both cases status 200 and `text/html`.
pub open spec fn spec_fallback(index: Option<Seq<char>>) -> ResponseView {
    ResponseView {
        status: 200,
        content_type: html_content_type(),
        body: match index {
            Some(t) => BodyView::Text(t),
            None => BodyView::Text(error_body()),
        },
    }
}

/// The response to an asset request whose file was read: status 200, the
/// file's bytes unchanged, the content type inferred from the path.
pub open spec fn spec_asset(rel: Seq<char>, bytes: Seq<u8>) -> ResponseView {
    ResponseView { status: 200, content_type: mime_for(rel), body: BodyView::Bytes(bytes) }
}

/// The whole policy: what the server answers on path `p`, given what reading
/// the asset file yielded (when `p` is an asset request) and what reading the
/// entry document yielded.
pub open spec fn spec_respond(
    p: Seq<char>,
    asset: Option<Seq<u8>>,
    index: Option<Seq<char>>,
) -> ResponseView {
    match spec_classify(p) {
        Some(rel) => match asset {
            Some(bytes) => spec_asset(rel, bytes),
            None => spec_fallback(index),
        },
        None => spec_fallback(index),
    }
}

/// Builds the fallback response from the result of reading the entry
/// document.
pub fn fallback_response(index: Option<String>) -> (r: Response)
    ensures
        r@ == spec_fallback(opt_str_view(index)),
{
    match index {
        Some(text) => Response {
            status: 200,
            content_type: String::from_str("text/html"),
            body: Body::Text(text),
        },
        None => Response {
            status: 200,
            content_type: String::from_str("text/html"),
            body: Body::Text(String::from_str("<h1>Error: index.html not found</h1>")),
        },
    }
}

/// Builds the response for an asset file that was read successfully.
pub fn asset_response(rel: &String, bytes: Vec<u8>) -> (r: Response)
    ensures
        r@ == spec_asset(rel@, bytes@),
{
    Response { status: 200, content_type: content_type_for(rel.as_str()), body: Body::Bytes(bytes) }
}

/// Answers one request: `path` is the request path, `asset` what reading the
/// named asset file yielded (ignored unless `path` is a safe asset request),
/// `index` what reading the entry document yielded.
pub fn respond(path: &String, asset: Option<Vec<u8>>, index: Option<String>) -> (r: Response)
    ensures
        r@ == spec_respond(path@, opt_bytes_view(asset), opt_str_view(index)),
{
    match classify(path) {
        RouteDecision::Asset(rel) => match asset {
            Some(bytes) => asset_response(&rel, bytes),
            None => fallback_response(index),
        },
        RouteDecision::Fallback => fallback_response(index),
    }
}

/// An existing asset is served byte-identically: on an asset request whose
/// file was read, the response has status 200 and carries exactly the bytes
/// read from disk.
pub proof fn lemma_existing_asset_served(p: Seq<char>, bytes: Seq<u8>, index: Option<Seq<char>>)
    requires
        (spec_classify(p) is Some),
    ensures
        spec_respond(p, Some(bytes), index).status == 200,
        spec_respond(p, Some(bytes), index).body == BodyView::Bytes(bytes),
{
}

/// Every fallback-eligible request is answered with the entry document when
/// it exists: status 200, content type `text/html`, body the document's text.
pub proof fn lemma_fallback_serves_entry_document(
    p: Seq<char>,
    asset: Option<Seq<u8>>,
    text: Seq<char>,
)
    requires
        (spec_classify(p) is None),
    ensures
        spec_respond(p, asset, Some(text)) == (ResponseView {
            status: 200,
            content_type: html_content_type(),
            body: BodyView::Text(text),
        }),
{
}

/// When the entry document cannot be read, every request not answered by an
/// asset file still gets status 200, with the error message as its body.
pub proof fn lemma_missing_entry_document(p: Seq<char>, asset: Option<Seq<u8>>)
    requires
        (spec_classify(p) is None || asset is None),
    ensures
        spec_respond(p, asset, None) == (ResponseView {
            status: 200,
            content_type: html_content_type(),
            body: BodyView::Text(error_body()),
        }),
{
}

/// An asset request whose file could not be read falls through to the
/// fallback handler: the response is the fallback response, not an error.
pub proof fn lemma_missing_asset_falls_back(p: Seq<char>, index: Option<Seq<char>>)
    ensures
        spec_respond(p, None, index) == spec_fallback(index),
{
}

/// The server never answers with a hard failure: whatever the path and
/// whatever the two reads yielded, the status is 200.
pub proof fn lemma_status_always_ok(p: Seq<char>, asset: Option<Seq<u8>>, index: Option<Seq<char>>)
    ensures
        spec_respond(p, asset, index).status == 200,
{
}

/// Requests are idempotent: two identical requests against the same
/// filesystem contents receive the same response.
pub proof fn lemma_responses_identical(
    p1: Seq<char>,
    asset1: Option<Seq<u8>>,
    index1: Option<Seq<char>>,
    p2: Seq<char>,
    asset2: Option<Seq<u8>>,
    index2: Option<Seq<char>>,
)
    requires
        p1 == p2,
        asset1 == asset2,
        index1 == index2,
    ensures
        spec_respond(p1, asset1, index1) == spec_respond(p2, asset2, index2),
{
}

} // verus!
