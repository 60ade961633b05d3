//! The verdict on what a call gave: a full response, a stream, or a failure
//! is held against what the scenario expects.

use vstd::prelude::*;
use crate::classify::{classification, classify, ErrorKind};
use crate::expect::{
    echo_of,
    fallback_marker,
    last_user_content,
    ContentCheck,
    ContentCheckView,
    UsageCheck,
};
use crate::model::{
    CallError,
    CallErrorView,
    ChunkView,
    CompletionChunk,
    CompletionResponse,
    FinishReason,
    MessageView,
    ResponseView,
    Role,
};
use crate::reply::{inspect_response, response_defect};
use crate::stream::{
    chunk_views,
    defect_at,
    reconstruct,
    reconstructs_to,
    sound_before,
    stream_text,
    terminal_reason,
    Reconstruction,
    StreamError,
};
use crate::text::{contains, occurs_at};
use crate::verdict::{
    failure_of,
    failure_of_error,
    failure_of_stream,
    Failure,
    Mismatch,
    ProtocolDefect,
    Verdict,
};

verus! {

/// What is wrong with a full response to a request for `model`: first its
/// shape, then its finish reason, then its content, then its usage.
pub open spec fn reply_failure(
    model: Seq<char>,
    content: ContentCheckView,
    usage: UsageCheck,
    response: ResponseView,
) -> Option<Failure> {
    match response_defect(model, response) {
        Some(defect) => Some(Failure::Protocol(ProtocolDefect::Response(defect))),
        None => {
            let first = response.choices[0];
            if first.finish_reason != Some(FinishReason::Stop) {
                Some(Failure::Assertion(Mismatch::Finish(first.finish_reason->0)))
            } else {
                match content.fault(first.message.content->0) {
                    Some(m) => Some(Failure::Assertion(m)),
                    None => match usage.fault(response.usage) {
                        Some(m) => Some(Failure::Assertion(m)),
                        None => None,
                    },
                }
            }
        },
    }
}

/// Holds a full response against what the scenario expects.
pub fn check_reply(
    model: &str,
    content: &ContentCheck,
    usage: UsageCheck,
    response: &CompletionResponse,
) -> (v: Verdict)
    ensures
        v == Verdict::of(reply_failure(model@, content@, usage, response@)),
{
    match inspect_response(model, response) {
        Some(defect) => {
            return Verdict::Failed(Failure::Protocol(ProtocolDefect::Response(defect)));
        },
        None => {},
    }
    let first = &response.choices[0];
    match first.finish_reason {
        Some(FinishReason::Stop) => {},
        Some(other) => {
            return Verdict::Failed(Failure::Assertion(Mismatch::Finish(other)));
        },
        None => {
            return Verdict::Failed(
                Failure::Protocol(ProtocolDefect::Response(crate::reply::ResponseDefect::NoFinishReason)),
            );
        },
    }
    match &first.message.content {
        Some(text) => match content.check(text.as_str()) {
            Some(m) => {
                return Verdict::Failed(Failure::Assertion(m));
            },
            None => {},
        },
        None => {
            return Verdict::Failed(
                Failure::Protocol(ProtocolDefect::Response(crate::reply::ResponseDefect::NoContent)),
            );
        },
    }
    match usage.check(response.usage) {
        Some(m) => Verdict::Failed(Failure::Assertion(m)),
        None => Verdict::Passed,
    }
}

/// The verdict on a call that is expected to succeed with a full response.
pub open spec fn reply_verdict(
    model: Seq<char>,
    content: ContentCheckView,
    usage: UsageCheck,
    outcome: Result<ResponseView, CallErrorView>,
) -> Verdict {
    match outcome {
        Ok(response) => Verdict::of(reply_failure(model, content, usage, response)),
        Err(error) => Verdict::Failed(failure_of(error)),
    }
}

/// The view of what a call gave.
pub open spec fn outcome_view(outcome: Result<CompletionResponse, CallError>) -> Result<
    ResponseView,
    CallErrorView,
> {
    match outcome {
        Ok(response) => Ok(response@),
        Err(error) => Err(error@),
    }
}

/// Judges a call that is expected to succeed with a full response.
pub fn judge_reply(
    model: &str,
    content: &ContentCheck,
    usage: UsageCheck,
    outcome: &Result<CompletionResponse, CallError>,
) -> (v: Verdict)
    ensures
        v == reply_verdict(model@, content@, usage, outcome_view(*outcome)),
{
    match outcome {
        Ok(response) => check_reply(model, content, usage, response),
        Err(error) => Verdict::Failed(failure_of_error(error)),
    }
}

/// The verdict on a call that is expected to fail with the given kind. An
/// error of no known kind never passes.
pub open spec fn rejection_verdict(expected: ErrorKind, error: Option<CallErrorView>) -> Verdict {
    match error {
        None => Verdict::Failed(Failure::Assertion(Mismatch::Accepted)),
        Some(e) => {
            let found = classification(e);
            if found == expected && found != ErrorKind::Unclassified {
                Verdict::Passed
            } else {
                Verdict::Failed(Failure::Assertion(Mismatch::Kind { expected, found }))
            }
        },
    }
}

/// The view of the error that a call gave, if it gave one.
pub open spec fn error_view(error: Option<&CallError>) -> Option<CallErrorView> {
    match error {
        Some(e) => Some(e@),
        None => None,
    }
}

/// Judges a call that is expected to fail with the given kind; `error` is
/// the failure of the call, and `None` where the call succeeded.
pub fn judge_rejection(expected: ErrorKind, error: Option<&CallError>) -> (v: Verdict)
    ensures
        v == rejection_verdict(expected, error_view(error)),
{
    match error {
        None => Verdict::Failed(Failure::Assertion(Mismatch::Accepted)),
        Some(e) => {
            let found = classify(e);
            let known = match found {
                ErrorKind::Unclassified => false,
                _ => true,
            };
            if known && found == expected {
                Verdict::Passed
            } else {
                Verdict::Failed(Failure::Assertion(Mismatch::Kind { expected, found }))
            }
        },
    }
}

/// What is wrong with a completed stream whose reply is `content` and whose
/// last chunk carried `reason`: first the finish reason, then the content.
pub open spec fn completion_failure(
    expected: ContentCheckView,
    content: Seq<char>,
    reason: FinishReason,
) -> Option<Failure> {
    if reason != FinishReason::Stop {
        Some(Failure::Assertion(Mismatch::Finish(reason)))
    } else {
        match expected.fault(content) {
            Some(m) => Some(Failure::Assertion(m)),
            None => None,
        }
    }
}

/// The verdict on the result of a stream that ended without a failed pull.
pub open spec fn reconstruction_verdict(
    expected: ContentCheckView,
    result: Result<Reconstruction, StreamError>,
) -> Verdict {
    match result {
        Ok(done) => Verdict::of(completion_failure(expected, done.content@, done.terminal_reason)),
        Err(error) => Verdict::Failed(failure_of_stream(error)),
    }
}

/// Judges the result of a stream that ended without a failed pull.
pub fn judge_reconstruction(
    expected: &ContentCheck,
    result: &Result<Reconstruction, StreamError>,
) -> (v: Verdict)
    ensures
        v == reconstruction_verdict(expected@, *result),
{
    match result {
        Ok(done) => {
            match done.terminal_reason {
                FinishReason::Stop => {},
                other => {
                    return Verdict::Failed(Failure::Assertion(Mismatch::Finish(other)));
                },
            }
            match expected.check(done.content.as_str()) {
                Some(m) => Verdict::Failed(Failure::Assertion(m)),
                None => Verdict::Passed,
            }
        },
        Err(StreamError::Malformed { position, defect }) => Verdict::Failed(
            Failure::Protocol(ProtocolDefect::Chunk { position: *position, defect: *defect }),
        ),
        Err(StreamError::Unfinished) => Verdict::Failed(
            Failure::Protocol(ProtocolDefect::Unfinished),
        ),
    }
}

/// The chunk at position `i` is the first of the stream with a defect.
pub open spec fn is_first_defect(model: Seq<char>, chunks: Seq<ChunkView>, i: int) -> bool {
    &&& 0 <= i < chunks.len()
    &&& sound_before(model, chunks, i)
    &&& defect_at(model, chunks, i) is Some
}

/// The position of the first chunk with a defect, in a stream that has one.
pub open spec fn first_defect(model: Seq<char>, chunks: Seq<ChunkView>) -> int {
    choose|i: int| is_first_defect(model, chunks, i)
}

/// What is wrong with a streamed reply to a request for `model`, of which
/// `chunks` arrived in this order before the stream ended or, where
/// `interrupted` holds an error, before a pull failed. A failed pull comes
/// before everything; then the first defect of a chunk; then the want of a
/// finish reason; then a finish reason other than `Stop`; then the content.
pub open spec fn stream_failure(
    model: Seq<char>,
    expected: ContentCheckView,
    chunks: Seq<ChunkView>,
    interrupted: Option<CallErrorView>,
) -> Option<Failure> {
    if interrupted is Some {
        Some(failure_of(interrupted->0))
    } else if !sound_before(model, chunks, chunks.len() as int) {
        let position = first_defect(model, chunks);
        Some(
            Failure::Protocol(
                ProtocolDefect::Chunk {
                    position: position as usize,
                    defect: defect_at(model, chunks, position)->0,
                },
            ),
        )
    } else if terminal_reason(chunks) is None {
        Some(Failure::Protocol(ProtocolDefect::Unfinished))
    } else {
        completion_failure(expected, stream_text(chunks), terminal_reason(chunks)->0)
    }
}

/// Only one chunk of a stream is the first with a defect.
pub proof fn lemma_first_defect_is_unique(
    model: Seq<char>,
    chunks: Seq<ChunkView>,
    i: int,
    j: int,
)
    requires
        is_first_defect(model, chunks, i),
        is_first_defect(model, chunks, j),
    ensures
        i == j,
{
    if i < j {
        assert(defect_at(model, chunks, i) is None);
    }
    if j < i {
        assert(defect_at(model, chunks, j) is None);
    }
}

/// The verdict on the result of a stream is the verdict on its chunks.
pub proof fn lemma_verdict_of_result(
    model: Seq<char>,
    expected: ContentCheckView,
    chunks: Seq<ChunkView>,
    result: Result<Reconstruction, StreamError>,
)
    requires
        reconstructs_to(model, chunks, result),
    ensures
        reconstruction_verdict(expected, result) == Verdict::of(
            stream_failure(model, expected, chunks, None),
        ),
{
    match result {
        Err(StreamError::Malformed { position, defect }) => {
            assert(is_first_defect(model, chunks, position as int));
            lemma_first_defect_is_unique(
                model,
                chunks,
                position as int,
                first_defect(model, chunks),
            );
        },
        _ => {},
    }
}

/// Judges a streamed call that is expected to succeed. `chunks` are the
/// chunks that arrived, in this order; `interrupted` is the error of the
/// pull that failed, and `None` where the stream ended by itself.
pub fn judge_stream(
    model: &str,
    expected: &ContentCheck,
    chunks: &Vec<CompletionChunk>,
    interrupted: Option<&CallError>,
) -> (v: Verdict)
    ensures
        v == Verdict::of(
            stream_failure(model@, expected@, chunk_views(chunks@), error_view(interrupted)),
        ),
{
    match interrupted {
        Some(error) => Verdict::Failed(failure_of_error(error)),
        None => {
            let result = reconstruct(model, chunks);
            proof {
                lemma_verdict_of_result(model@, expected@, chunk_views(chunks@), result);
            }
            judge_reconstruction(expected, &result)
        },
    }
}

/// Echo identity: where the user says one thing and nothing else is said,
/// a full response that passes holds exactly that as its content.
pub proof fn lemma_echo_identity(
    model: Seq<char>,
    said: Seq<char>,
    usage: UsageCheck,
    response: ResponseView,
)
    requires
        reply_failure(
            model,
            echo_of(seq![MessageView { role: Role::User, content: said }]),
            usage,
            response,
        ) is None,
    ensures
        response.choices.len() > 0,
        response.choices[0].message.content == Some(said),
{
    let messages = seq![MessageView { role: Role::User, content: said }];
    lemma_last_message_wins(model, messages, usage, response);
}

/// The last message wins: where a conversation ends with a message of the
/// user, the echo model answers with the content of that message, whatever
/// was said before it, and a full response that passes holds exactly that.
pub proof fn lemma_last_message_wins(
    model: Seq<char>,
    messages: Seq<MessageView>,
    usage: UsageCheck,
    response: ResponseView,
)
    requires
        messages.len() > 0,
        messages.last().role == Role::User,
        reply_failure(model, echo_of(messages), usage, response) is None,
    ensures
        echo_of(messages) == ContentCheckView::Equals(messages.last().content),
        response.choices.len() > 0,
        response.choices[0].message.content == Some(messages.last().content),
{
}

/// Where the user has said nothing, the echo model's answer is its fallback
/// reply: a full response that passes holds the marker of that reply, and
/// so is not empty.
pub proof fn lemma_fallback_without_user(
    model: Seq<char>,
    messages: Seq<MessageView>,
    usage: UsageCheck,
    response: ResponseView,
)
    requires
        forall|i: int| 0 <= i < messages.len() ==> messages[i].role != Role::User,
        reply_failure(model, echo_of(messages), usage, response) is None,
    ensures
        echo_of(messages) == ContentCheckView::Contains(fallback_marker()),
        response.choices.len() > 0,
        response.choices[0].message.content is Some,
        contains(response.choices[0].message.content->0, fallback_marker()),
        response.choices[0].message.content->0.len() > 0,
{
    lemma_no_user_no_content(messages);
    reveal_strlit("Echo model");
    let content = response.choices[0].message.content->0;
    let at = choose|at: int| occurs_at(content, fallback_marker(), at);
    assert(occurs_at(content, fallback_marker(), at));
}

/// A conversation without a message of the user has no last such message.
pub proof fn lemma_no_user_no_content(messages: Seq<MessageView>)
    requires
        forall|i: int| 0 <= i < messages.len() ==> messages[i].role != Role::User,
    ensures
        last_user_content(messages) is None,
    decreases messages.len(),
{
    if messages.len() > 0 {
        lemma_no_user_no_content(messages.drop_last());
    }
}

/// Streaming round trip: where the user says one thing and nothing else is
/// said, a stream that passes spells exactly that, chunk after chunk in the
/// order of arrival, and exactly one of its chunks carries a finish reason:
/// the last one, and the reason is `Stop`.
pub proof fn lemma_streaming_round_trip(model: Seq<char>, said: Seq<char>, chunks: Seq<ChunkView>)
    requires
        stream_failure(
            model,
            echo_of(seq![MessageView { role: Role::User, content: said }]),
            chunks,
            None,
        ) is None,
    ensures
        stream_text(chunks) == said,
        chunks.len() > 0,
        chunks.last().finish() == Some(FinishReason::Stop),
        forall|i: int| 0 <= i < chunks.len() - 1 ==> (#[trigger] chunks[i]).finish() is None,
{
    assert forall|i: int| 0 <= i < chunks.len() - 1 implies (#[trigger] chunks[i]).finish()
        is None by {
        crate::stream::lemma_only_the_last_finishes(model, chunks, i);
    }
}

/// How the first pull on a stream went.
#[derive(Clone, Copy, Debug, PartialEq, Eq, Structural)]
pub enum FirstPull {
    /// The call failed before any stream was there.
    CallFailed,
    /// The first pull failed.
    PullFailed,
    /// The stream ended at once.
    Ended,
    /// The first pull gave a chunk.
    Delivered,
}

/// The verdict on a streamed call that is expected to be refused: it passes
/// unless the first pull gave a chunk.
pub open spec fn refusal_verdict(first: FirstPull) -> Verdict {
    if first == FirstPull::Delivered {
        Verdict::Failed(Failure::Assertion(Mismatch::Accepted))
    } else {
        Verdict::Passed
    }
}

/// Judges a streamed call that is expected to be refused.
pub fn judge_refusal(first: FirstPull) -> (v: Verdict)
    ensures
        v == refusal_verdict(first),
{
    match first {
        FirstPull::Delivered => Verdict::Failed(Failure::Assertion(Mismatch::Accepted)),
        _ => Verdict::Passed,
    }
}

} // verus!
