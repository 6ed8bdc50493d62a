//! The query resolver: the decisions of the embed → search → threshold-gate →
//! load pipeline.
//!
//! The resolver is a linear state machine.  The surrounding binary performs
//! the external calls (vector-store connection, embedding, search, file read)
//! and hands each outcome to the functions here, which decide the next action
//! and shape the terminal response.  No retry exists: every failure is
//! terminal for the request.

use vstd::prelude::*;

use crate::schema::{ResponseDetails, ResponseView};
use crate::score::{Score, score_text, zero_score_text};

verus! {

/// Which external adapter an outcome came from: the vector store or the
/// embedding service.
pub enum AdapterKind {
    VectorStore,
    Embedding,
}

/// The result of the similarity search: the best match's score, and the file
/// path found under the payload's `id` key, or `None` when the store returned
/// an empty payload.
pub struct SearchMatch {
    pub score: Score,
    pub path: Option<String>,
}

/// Mathematical image of a `SearchMatch`: the score in micro-units and the
/// payload path, if any.
pub struct MatchView {
    pub score: int,
    pub path: Option<Seq<char>>,
}

impl View for SearchMatch {
    type V = MatchView;

    open spec fn view(&self) -> MatchView {
        MatchView {
            score: self.score.micros as int,
            path: match self.path {
                Some(p) => Some(p@),
                None => None,
            },
        }
    }
}

/// The advisory message returned both when the search finds no candidate and
/// when the best candidate's score does not clear the threshold.  The two
/// cases are deliberately indistinguishable to the caller.
pub open spec fn refine_prompt_text() -> Seq<char> {
    "I could not find any related info, please refine your prompt"@
}

/// The diagnostic prefix naming the adapter that failed.
pub open spec fn adapter_prefix(kind: AdapterKind) -> Seq<char> {
    match kind {
        AdapterKind::VectorStore => "qdrant "@,
        AdapterKind::Embedding => "ollama "@,
    }
}

/// The response when an adapter call failed: `KO`, no query echoed, zero
/// score, and the adapter's diagnostic behind its prefix.
pub open spec fn adapter_failed_view(kind: AdapterKind, diag: Seq<char>) -> ResponseView {
    ResponseView {
        status: "KO"@,
        query: None,
        data: adapter_prefix(kind) + diag,
        score: score_text(0),
    }
}

/// The response when no confident match exists: `KO`, the query echoed, zero
/// score, and the fixed advisory message.
pub open spec fn no_match_view(query: Seq<char>) -> ResponseView {
    ResponseView { status: "KO"@, query: Some(query), data: refine_prompt_text(), score: score_text(0) }
}

/// The response for a confident match whose content was loaded: `OK`, the
/// query echoed, the match's score rendered as text, and the content itself.
pub open spec fn content_view(query: Seq<char>, score_micros: int, content: Seq<char>) -> ResponseView {
    ResponseView {
        status: "OK"@,
        query: Some(query),
        data: content,
        score: score_text(score_micros),
    }
}

/// The response when a confident match's content could not be read: `KO`, the
/// query echoed, zero score, and the read diagnostic behind a prefix.
pub open spec fn content_failed_view(query: Seq<char>, diag: Seq<char>) -> ResponseView {
    ResponseView {
        status: "KO"@,
        query: Some(query),
        data: "content "@ + diag,
        score: score_text(0),
    }
}

/// The response the whole pipeline resolves to, as a function of the query,
/// the search outcome, the configured threshold, and the backing store's
/// answer for the matched path (`Ok` its content, `Err` a read diagnostic).
/// The store's answer is consulted only on a confident match.
pub open spec fn resolved_view(
    query: Seq<char>,
    found: MatchView,
    threshold: int,
    loaded: Result<Seq<char>, Seq<char>>,
) -> ResponseView {
    if found.path is None || found.score <= threshold {
        no_match_view(query)
    } else {
        match loaded {
            Ok(content) => content_view(query, found.score, content),
            Err(diag) => content_failed_view(query, diag),
        }
    }
}

/// What the resolver asks the binary to do after the search came back:
/// either load the file at `path` and report the outcome, or answer with the
/// finished response at once.
pub enum MatchDecision {
    Load { path: String, score: Score },
    Done { response: ResponseDetails },
}

/// The terminal response when constructing the vector-store client or calling
/// an adapter failed: the failure is recovered into a `KO` answer, never a
/// crash.
pub fn adapter_failed_response(kind: AdapterKind, diag: &str) -> (r: ResponseDetails)
    ensures
        r@ == adapter_failed_view(kind, diag@),
{
    let mut data = match kind {
        AdapterKind::VectorStore => String::from_str("qdrant "),
        AdapterKind::Embedding => String::from_str("ollama "),
    };
    data.append(diag);
    ResponseDetails {
        status: String::from_str("KO"),
        query: None,
        data,
        score: zero_score_text(),
    }
}

/// The terminal response when the search produced no confident match.
pub fn no_match_response(query: &str) -> (r: ResponseDetails)
    ensures
        r@ == no_match_view(query@),
{
    ResponseDetails {
        status: String::from_str("KO"),
        query: Some(String::from_str(query)),
        data: String::from_str("I could not find any related info, please refine your prompt"),
        score: zero_score_text(),
    }
}

/// The terminal response for a confident match whose content was read.
pub fn content_loaded_response(query: &str, score: &Score, content: String) -> (r: ResponseDetails)
    ensures
        r@ == content_view(query@, score.micros as int, content@),
{
    ResponseDetails {
        status: String::from_str("OK"),
        query: Some(String::from_str(query)),
        data: content,
        score: score.to_text(),
    }
}

/// The terminal response for a confident match whose content could not be
/// read.
pub fn content_failed_response(query: &str, diag: &str) -> (r: ResponseDetails)
    ensures
        r@ == content_failed_view(query@, diag@),
{
    let mut data = String::from_str("content ");
    data.append(diag);
    ResponseDetails {
        status: String::from_str("KO"),
        query: Some(String::from_str(query)),
        data,
        score: zero_score_text(),
    }
}

/// The threshold gate.  An empty payload or a score at or below the threshold
/// ends the request with the advisory `KO` response — without any file read —
/// and only a strictly greater score asks for the matched file's content.
pub fn evaluate_match(query: &str, found: &SearchMatch, threshold: &Score) -> (d: MatchDecision)
    ensures
        (found@.path is None || found@.score <= threshold.micros) ==> (d matches
            MatchDecision::Done { response } && response@ == no_match_view(query@)),
        (found@.path is Some && found@.score > threshold.micros) ==> (d matches
            MatchDecision::Load { path, score } && path@ == found@.path->0 && score
            == found.score),
        d matches MatchDecision::Done { response } ==> forall|loaded: Result<Seq<char>, Seq<char>>|
            response@ == #[trigger] resolved_view(query@, found@, threshold.micros as int, loaded),
        d matches MatchDecision::Load { path, score } ==> forall|content: Seq<char>|
            #[trigger] resolved_view(query@, found@, threshold.micros as int, Ok(content))
                == content_view(query@, score.micros as int, content),
{
    match &found.path {
        None => MatchDecision::Done { response: no_match_response(query) },
        Some(p) => {
            if found.score.exceeds(threshold) {
                MatchDecision::Load { path: p.clone(), score: found.score }
            } else {
                MatchDecision::Done { response: no_match_response(query) }
            }
        },
    }
}

/// An empty search payload resolves to the advisory `KO` response with zero
/// score, whatever the reported score, the threshold, and the backing store
/// hold.
pub proof fn lemma_empty_payload_refused(
    query: Seq<char>,
    found: MatchView,
    threshold: int,
    loaded: Result<Seq<char>, Seq<char>>,
)
    requires
        found.path is None,
    ensures
        resolved_view(query, found, threshold, loaded) == no_match_view(query),
        resolved_view(query, found, threshold, loaded).is_ko(),
        resolved_view(query, found, threshold, loaded).score == score_text(0),
        resolved_view(query, found, threshold, loaded).data == refine_prompt_text(),
{
}

/// A score at or below the threshold — a tie included — resolves to the same
/// advisory `KO` response with zero score.
pub proof fn lemma_low_score_refused(
    query: Seq<char>,
    found: MatchView,
    threshold: int,
    loaded: Result<Seq<char>, Seq<char>>,
)
    requires
        found.score <= threshold,
    ensures
        resolved_view(query, found, threshold, loaded) == no_match_view(query),
        resolved_view(query, found, threshold, loaded).is_ko(),
        resolved_view(query, found, threshold, loaded).score == score_text(0),
{
}

/// A match strictly above the threshold resolves to `OK`, carries the match's
/// score rendered as text, and its data is exactly the stored content.
pub proof fn lemma_confident_match_answers(
    query: Seq<char>,
    found: MatchView,
    threshold: int,
    content: Seq<char>,
)
    requires
        found.path is Some,
        found.score > threshold,
    ensures
        resolved_view(query, found, threshold, Ok(content)) == content_view(
            query,
            found.score,
            content,
        ),
        resolved_view(query, found, threshold, Ok(content)).is_ok(),
        resolved_view(query, found, threshold, Ok(content)).score == score_text(found.score),
        resolved_view(query, found, threshold, Ok(content)).data == content,
{
}

/// An `OK` response arises only from a confident match whose content was
/// read, and then its data is exactly the stored content.  Every other
/// resolution is `KO`, and a `KO` resolution never depends on the store's
/// content (the two refusal lemmas above hold for every `loaded`).
pub proof fn lemma_ok_carries_stored_content(
    query: Seq<char>,
    found: MatchView,
    threshold: int,
    loaded: Result<Seq<char>, Seq<char>>,
)
    requires
        resolved_view(query, found, threshold, loaded).is_ok(),
    ensures
        found.path is Some,
        found.score > threshold,
        loaded is Ok,
        resolved_view(query, found, threshold, loaded).data == loaded->Ok_0,
{
    reveal_strlit("OK");
    reveal_strlit("KO");
    assert("KO"@[0] != "OK"@[0]);
    assert("KO"@ != "OK"@);
}

/// Idempotence: the resolution is a function of the query, the search
/// outcome, the threshold, and the backing store's content alone, so issuing
/// the same query twice against an unchanged store yields identical
/// responses.
pub proof fn lemma_resolution_idempotent(
    query1: Seq<char>,
    found1: MatchView,
    threshold1: int,
    loaded1: Result<Seq<char>, Seq<char>>,
    query2: Seq<char>,
    found2: MatchView,
    threshold2: int,
    loaded2: Result<Seq<char>, Seq<char>>,
)
    requires
        query1 == query2,
        found1 == found2,
        threshold1 == threshold2,
        loaded1 == loaded2,
    ensures
        resolved_view(query1, found1, threshold1, loaded1) == resolved_view(
            query2,
            found2,
            threshold2,
            loaded2,
        ),
{
}

} // verus!
