//! A scenario: one request, the credential it is sent with, and what is
//! expected to come back; and the verdict on what did come back.

use vstd::prelude::*;
use crate::classify::{classification, ErrorKind};
use crate::expect::{echo_of, expected_reply, ContentCheck, ContentCheckView, UsageCheck};
use crate::judge::{
    check_reply,
    error_view,
    judge_reconstruction,
    judge_refusal,
    judge_rejection,
    judge_stream,
    lemma_verdict_of_result,
    refusal_verdict,
    rejection_verdict,
    reply_failure,
    stream_failure,
    FirstPull,
};
use crate::model::{
    CallError,
    CallErrorView,
    ChunkView,
    CompletionChunk,
    CompletionRequest,
    CompletionResponse,
    RequestView,
    ResponseView,
};
use crate::stream::{chunk_views, Reconstructor};
use crate::verdict::{
    failure_of,
    failure_of_error,
    Failure,
    FailureKind,
    ProtocolDefect,
    Verdict,
};

verus! {

/// The credential that a scenario is sent with.
#[derive(Clone, Debug, PartialEq, Eq)]
pub enum Credential {
    /// The one that the run was configured with.
    Configured,
    /// One of the scenario's own.
    Key(String),
}

/// A credential with its key as a sequence of characters.
pub enum CredentialView {
    Configured,
    Key(Seq<char>),
}

impl View for Credential {
    type V = CredentialView;

    open spec fn view(&self) -> CredentialView {
        match self {
            Credential::Configured => CredentialView::Configured,
            Credential::Key(k) => CredentialView::Key(k@),
        }
    }
}

/// What a scenario expects to come back.
#[derive(Clone, Debug, PartialEq, Eq)]
pub enum Expectation {
    /// A full response that meets the two checks.
    Reply { content: ContentCheck, usage: UsageCheck },
    /// A stream that ends with `Stop` and spells a reply that meets the
    /// check.
    Stream { content: ContentCheck },
    /// A failure of this kind.
    Rejected(ErrorKind),
    /// A streamed call that delivers no chunk.
    StreamRefused,
}

/// An expectation with its texts as sequences of characters.
pub enum ExpectationView {
    Reply { content: ContentCheckView, usage: UsageCheck },
    Stream { content: ContentCheckView },
    Rejected(ErrorKind),
    StreamRefused,
}

impl View for Expectation {
    type V = ExpectationView;

    open spec fn view(&self) -> ExpectationView {
        match self {
            Expectation::Reply { content, usage } => ExpectationView::Reply {
                content: content@,
                usage: *usage,
            },
            Expectation::Stream { content } => ExpectationView::Stream { content: content@ },
            Expectation::Rejected(kind) => ExpectationView::Rejected(*kind),
            Expectation::StreamRefused => ExpectationView::StreamRefused,
        }
    }
}

/// One conformance check.
#[derive(Clone, Debug, PartialEq, Eq)]
pub struct Scenario {
    pub name: String,
    pub credential: Credential,
    pub request: CompletionRequest,
    pub expect: Expectation,
}

/// A scenario with its texts as sequences of characters.
pub struct ScenarioView {
    pub name: Seq<char>,
    pub credential: CredentialView,
    pub request: RequestView,
    pub expect: ExpectationView,
}

impl View for Scenario {
    type V = ScenarioView;

    open spec fn view(&self) -> ScenarioView {
        ScenarioView {
            name: self.name@,
            credential: self.credential@,
            request: self.request@,
            expect: self.expect@,
        }
    }
}

/// What came back from the target.
#[derive(Clone, Debug, PartialEq, Eq)]
pub enum Observation {
    /// The call gave a full response.
    Reply(CompletionResponse),
    /// The call gave a stream: the chunks that arrived, in order, and the
    /// error of the pull that failed, where one did.
    Stream { chunks: Vec<CompletionChunk>, interrupted: Option<CallError> },
    /// The call itself failed.
    Failed(CallError),
}

/// What came back, with its texts as sequences of characters.
pub enum ObservationView {
    Reply(ResponseView),
    Stream { chunks: Seq<ChunkView>, interrupted: Option<CallErrorView> },
    Failed(CallErrorView),
}

impl View for Observation {
    type V = ObservationView;

    open spec fn view(&self) -> ObservationView {
        match self {
            Observation::Reply(r) => ObservationView::Reply(r@),
            Observation::Stream { chunks, interrupted } => ObservationView::Stream {
                chunks: chunk_views(chunks@),
                interrupted: match interrupted {
                    Some(e) => Some(e@),
                    None => None,
                },
            },
            Observation::Failed(e) => ObservationView::Failed(e@),
        }
    }
}

/// The failure of a reply that has not the shape that was asked for.
pub open spec fn shape_failure() -> Verdict {
    Verdict::Failed(Failure::Protocol(ProtocolDefect::Shape))
}

/// How the first pull went on a stream of which `chunks` arrived before it
/// ended or, where `interrupted` holds an error, before a pull failed.
pub open spec fn first_pull_of(chunks: Seq<ChunkView>, interrupted: Option<CallErrorView>) -> FirstPull {
    if chunks.len() > 0 {
        FirstPull::Delivered
    } else if interrupted is Some {
        FirstPull::PullFailed
    } else {
        FirstPull::Ended
    }
}

impl ScenarioView {
    /// The verdict of the scenario on what came back.
    pub open spec fn verdict(self, observed: ObservationView) -> Verdict {
        match self.expect {
            ExpectationView::Reply { content, usage } => match observed {
                ObservationView::Reply(response) => Verdict::of(
                    reply_failure(self.request.model, content, usage, response),
                ),
                ObservationView::Failed(error) => Verdict::Failed(failure_of(error)),
                ObservationView::Stream { .. } => shape_failure(),
            },
            ExpectationView::Stream { content } => match observed {
                ObservationView::Stream { chunks, interrupted } => Verdict::of(
                    stream_failure(self.request.model, content, chunks, interrupted),
                ),
                ObservationView::Failed(error) => Verdict::Failed(failure_of(error)),
                ObservationView::Reply(_) => shape_failure(),
            },
            ExpectationView::Rejected(kind) => match observed {
                ObservationView::Failed(error) => rejection_verdict(kind, Some(error)),
                ObservationView::Reply(_) => rejection_verdict(kind, None),
                ObservationView::Stream { .. } => shape_failure(),
            },
            ExpectationView::StreamRefused => match observed {
                ObservationView::Failed(_) => refusal_verdict(FirstPull::CallFailed),
                ObservationView::Stream { chunks, interrupted } => refusal_verdict(
                    first_pull_of(chunks, interrupted),
                ),
                ObservationView::Reply(_) => shape_failure(),
            },
        }
    }
}

/// What is expected of the echo model's answer to a request: the reply of
/// the echo model to the conversation, as a stream where the request asks
/// for one and as a full response where not.
pub open spec fn echo_expectation(request: RequestView, usage: UsageCheck) -> ExpectationView {
    if request.stream {
        ExpectationView::Stream { content: echo_of(request.messages) }
    } else {
        ExpectationView::Reply { content: echo_of(request.messages), usage }
    }
}

impl Scenario {
    /// A scenario that sends `request` with the configured credential and
    /// expects what the echo model answers to it. The usage check is
    /// applied to a full response only.
    pub fn echo(name: &str, request: CompletionRequest, usage: UsageCheck) -> (s: Scenario)
        ensures
            s@ == (ScenarioView {
                name: name@,
                credential: CredentialView::Configured,
                request: request@,
                expect: echo_expectation(request@, usage),
            }),
    {
        let content = expected_reply(&request.messages);
        let expect = if request.stream {
            Expectation::Stream { content }
        } else {
            Expectation::Reply { content, usage }
        };
        Scenario { name: name.to_owned(), credential: Credential::Configured, request, expect }
    }

    /// A scenario that sends `request` with the configured credential and
    /// expects a full response with any content.
    pub fn lenient(name: &str, request: CompletionRequest) -> (s: Scenario)
        ensures
            s@ == (ScenarioView {
                name: name@,
                credential: CredentialView::Configured,
                request: request@,
                expect: ExpectationView::Reply {
                    content: ContentCheckView::Present,
                    usage: UsageCheck::Unchecked,
                },
            }),
    {
        Scenario {
            name: name.to_owned(),
            credential: Credential::Configured,
            request,
            expect: Expectation::Reply {
                content: ContentCheck::Present,
                usage: UsageCheck::Unchecked,
            },
        }
    }

    /// A scenario that expects the call to fail with the given kind.
    pub fn rejected(
        name: &str,
        credential: Credential,
        request: CompletionRequest,
        kind: ErrorKind,
    ) -> (s: Scenario)
        ensures
            s@ == (ScenarioView {
                name: name@,
                credential: credential@,
                request: request@,
                expect: ExpectationView::Rejected(kind),
            }),
    {
        Scenario { name: name.to_owned(), credential, request, expect: Expectation::Rejected(kind) }
    }

    /// A scenario that expects a streamed call to deliver no chunk.
    pub fn refused_stream(name: &str, credential: Credential, request: CompletionRequest) -> (s:
        Scenario)
        ensures
            s@ == (ScenarioView {
                name: name@,
                credential: credential@,
                request: request@,
                expect: ExpectationView::StreamRefused,
            }),
    {
        Scenario { name: name.to_owned(), credential, request, expect: Expectation::StreamRefused }
    }

    /// Whether nothing but the first pull on the stream is wanted: the
    /// scenario expects the stream to be refused, and what follows a
    /// delivered chunk has no say.
    pub fn stops_after_first_pull(&self) -> (r: bool)
        ensures
            r == (self@.expect is StreamRefused),
    {
        match self.expect {
            Expectation::StreamRefused => true,
            _ => false,
        }
    }

    /// An accumulator for the stream that answers the scenario's request.
    pub fn begin_stream(&self) -> (state: Reconstructor)
        ensures
            state.wf(),
            state.model() == self@.request.model,
            state.seen() == Seq::<ChunkView>::empty(),
    {
        Reconstructor::new(self.request.model.as_str())
    }

    /// Judges a stream whose chunks were taken one at a time as they
    /// arrived; `interrupted` is the error of the pull that failed, and
    /// `None` where the stream ended by itself or was left.
    pub fn judge_streamed(&self, state: Reconstructor, interrupted: Option<&CallError>) -> (v:
        Verdict)
        requires
            state.wf(),
            state.model() == self@.request.model,
        ensures
            v == self@.verdict(
                ObservationView::Stream {
                    chunks: state.seen(),
                    interrupted: error_view(interrupted),
                },
            ),
    {
        match &self.expect {
            Expectation::Stream { content } => match interrupted {
                Some(error) => Verdict::Failed(failure_of_error(error)),
                None => {
                    let ghost chunks = state.seen();
                    let result = state.finish();
                    proof {
                        lemma_verdict_of_result(self@.request.model, content@, chunks, result);
                    }
                    judge_reconstruction(content, &result)
                },
            },
            Expectation::StreamRefused => {
                if state.len() > 0 {
                    judge_refusal(FirstPull::Delivered)
                } else if interrupted.is_some() {
                    judge_refusal(FirstPull::PullFailed)
                } else {
                    judge_refusal(FirstPull::Ended)
                }
            },
            _ => Verdict::Failed(Failure::Protocol(ProtocolDefect::Shape)),
        }
    }

    /// Judges what came back.
    pub fn judge(&self, observed: &Observation) -> (v: Verdict)
        ensures
            v == self@.verdict(observed@),
    {
        let model = self.request.model.as_str();
        match &self.expect {
            Expectation::Reply { content, usage } => match observed {
                Observation::Reply(response) => check_reply(model, content, *usage, response),
                Observation::Failed(error) => Verdict::Failed(failure_of_error(error)),
                Observation::Stream { .. } => Verdict::Failed(
                    Failure::Protocol(ProtocolDefect::Shape),
                ),
            },
            Expectation::Stream { content } => match observed {
                Observation::Stream { chunks, interrupted } => judge_stream(
                    model,
                    content,
                    chunks,
                    interrupted.as_ref(),
                ),
                Observation::Failed(error) => Verdict::Failed(failure_of_error(error)),
                Observation::Reply(_) => Verdict::Failed(Failure::Protocol(ProtocolDefect::Shape)),
            },
            Expectation::Rejected(kind) => match observed {
                Observation::Failed(error) => judge_rejection(*kind, Some(error)),
                Observation::Reply(_) => judge_rejection(*kind, None),
                Observation::Stream { .. } => Verdict::Failed(
                    Failure::Protocol(ProtocolDefect::Shape),
                ),
            },
            Expectation::StreamRefused => match observed {
                Observation::Reply(_) => Verdict::Failed(Failure::Protocol(ProtocolDefect::Shape)),
                Observation::Failed(_) => judge_refusal(FirstPull::CallFailed),
                Observation::Stream { chunks, interrupted } => {
                    if chunks.len() > 0 {
                        judge_refusal(FirstPull::Delivered)
                    } else if interrupted.is_some() {
                        judge_refusal(FirstPull::PullFailed)
                    } else {
                        judge_refusal(FirstPull::Ended)
                    }
                },
            },
        }
    }
}

/// Sampling parameters are without effect: two requests that differ in
/// nothing but `temperature`, `top_p`, `max_tokens`, the two penalties and
/// `user` are expected to get the same answer from the echo model, under
/// the same model name, so that whatever comes back gets the same verdict
/// for both.
pub proof fn lemma_sampling_is_without_effect(
    a: ScenarioView,
    b: ScenarioView,
    usage: UsageCheck,
    observed: ObservationView,
)
    requires
        a.request.model == b.request.model,
        a.request.messages == b.request.messages,
        a.request.stream == b.request.stream,
        a.expect == echo_expectation(a.request, usage),
        b.expect == echo_expectation(b.request, usage),
    ensures
        a.expect == b.expect,
        a.verdict(observed) == b.verdict(observed),
{
}

/// A scenario that expects a failure passes on nothing but a failed call
/// of the expected kind; a failure of no known kind never passes.
pub proof fn lemma_rejection_passes_on_its_kind(
    scenario: ScenarioView,
    kind: ErrorKind,
    observed: ObservationView,
)
    requires
        scenario.expect == ExpectationView::Rejected(kind),
    ensures
        scenario.verdict(observed) is Passed <==> observed is Failed && classification(
            observed->Failed_0,
        ) == kind && kind != ErrorKind::Unclassified,
{
}

/// Where success is expected, a failed call fails the scenario, with the
/// kind that the failure is classified as.
pub proof fn lemma_failed_call_fails(scenario: ScenarioView, error: CallErrorView)
    requires
        scenario.expect is Reply || scenario.expect is Stream,
    ensures
        scenario.verdict(ObservationView::Failed(error)) == Verdict::Failed(failure_of(error)),
        failure_of(error).kind() == match classification(error) {
            ErrorKind::Authentication => FailureKind::Authentication,
            ErrorKind::Validation => FailureKind::Validation,
            ErrorKind::Unclassified => FailureKind::Transport,
        },
{
}

/// The three ways in which a streamed reply can fail by itself stay apart:
/// a failed pull is reported as the failure of that pull, whatever chunks
/// came before it; a defect of a chunk and the want of a finish reason are
/// both failures of the protocol, and differ in what they name.
pub proof fn lemma_stream_failures_stay_apart(
    model: Seq<char>,
    expected: ContentCheckView,
    chunks: Seq<ChunkView>,
    interrupted: Option<CallErrorView>,
)
    ensures
        interrupted is Some ==> stream_failure(model, expected, chunks, interrupted) == Some(
            failure_of(interrupted->0),
        ),
        interrupted is Some ==> !(stream_failure(model, expected, chunks, interrupted)->0
            is Protocol),
        interrupted is None && !crate::stream::sound_before(model, chunks, chunks.len() as int)
            ==> stream_failure(model, expected, chunks, interrupted)->0 matches Failure::Protocol(
            ProtocolDefect::Chunk { .. },
        ),
        interrupted is None && crate::stream::sound_before(model, chunks, chunks.len() as int)
            && crate::stream::terminal_reason(chunks) is None ==> stream_failure(
            model,
            expected,
            chunks,
            interrupted,
        ) == Some(Failure::Protocol(ProtocolDefect::Unfinished)),
{
}

} // verus!
