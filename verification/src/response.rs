//! The HTTP response as the policy sees it: a status code, a content type,
//! and a body that is either raw bytes (an asset) or text (a document).

use vstd::prelude::*;

verus! {

/// Body of a response: raw bytes for a static asset, text for a document.
#[derive(Debug, PartialEq, Eq)]
pub enum Body {
    Bytes(Vec<u8>),
    Text(String),
}

/// Mathematical model of a [`Body`].
#[verifier::ext_equal]
pub enum BodyView {
    Bytes(Seq<u8>),
    Text(Seq<char>),
}

impl View for Body {
    type V = BodyView;

    open spec fn view(&self) -> BodyView {
        match self {
            Body::Bytes(b) => BodyView::Bytes(b@),
            Body::Text(t) => BodyView::Text(t@),
        }
    }
}

/// An HTTP response, reduced to the parts the policy decides.
#[derive(Debug, PartialEq, Eq)]
pub struct Response {
    pub status: u16,
    pub content_type: String,
    pub body: Body,
}

/// Mathematical model of a [`Response`].
#[verifier::ext_equal]
pub struct ResponseView {
    pub status: u16,
    pub content_type: Seq<char>,
    pub body: BodyView,
}

impl View for Response {
    type V = ResponseView;

    open spec fn view(&self) -> ResponseView {
        ResponseView {
            status: self.status,
            content_type: self.content_type@,
            body: self.body@,
        }
    }
}

} // verus!
