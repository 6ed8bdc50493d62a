//! Request and response records of the service's wire protocol.

use vstd::prelude::*;

verus! {

/// The body of a `POST /query` request: a category label and the query text.
pub struct QueryDetails {
    pub category: String,
    pub query: String,
}

/// The one externally visible entity: every request is answered with a
/// `ResponseDetails`, serialised as JSON.
///
/// `status` is `"OK"` or `"KO"`; `query` is present only when processing
/// reached the resolver; `data` carries either loaded document content or a
/// human-readable reason; `score` is a decimal rendering of the similarity
/// score, `"0.0"` when not applicable.
pub struct ResponseDetails {
    pub status: String,
    pub query: Option<String>,
    pub data: String,
    pub score: String,
}

/// Mathematical image of a `QueryDetails`.
pub struct QueryView {
    pub category: Seq<char>,
    pub query: Seq<char>,
}

/// Mathematical image of a `ResponseDetails`.
pub struct ResponseView {
    pub status: Seq<char>,
    pub query: Option<Seq<char>>,
    pub data: Seq<char>,
    pub score: Seq<char>,
}

impl View for QueryDetails {
    type V = QueryView;

    open spec fn view(&self) -> QueryView {
        QueryView { category: self.category@, query: self.query@ }
    }
}

impl View for ResponseDetails {
    type V = ResponseView;

    open spec fn view(&self) -> ResponseView {
        ResponseView {
            status: self.status@,
            query: match self.query {
                Some(q) => Some(q@),
                None => None,
            },
            data: self.data@,
            score: self.score@,
        }
    }
}

impl ResponseView {
    /// A response that reports success.
    pub open spec fn is_ok(self) -> bool {
        self.status == "OK"@
    }

    /// A response that reports failure or a non-answer.
    pub open spec fn is_ko(self) -> bool {
        self.status == "KO"@
    }
}

} // verus!
