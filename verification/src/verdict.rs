//! How a scenario ends: it passes, or it fails with the invariant that
//! broke. The five kinds of failure stay apart in every report.

use vstd::prelude::*;
use vstd::string::StringExecFns;
use crate::classify::{classification, classify, ErrorKind};
use crate::model::{CallError, CallErrorView, FinishReason};
use crate::reply::ResponseDefect;
use crate::stream::{ChunkDefect, StreamError};

verus! {

/// A reply that breaks the protocol.
#[derive(Clone, Copy, Debug, PartialEq, Eq, Structural)]
pub enum ProtocolDefect {
    /// A full response has not the shape asked for.
    Response(ResponseDefect),
    /// The chunk at `position` of a stream is the first with a defect.
    Chunk { position: usize, defect: ChunkDefect },
    /// A stream ended without a finish reason.
    Unfinished,
    /// A stream came where a full response was asked for, or the reverse.
    Shape,
}

/// A value that differs from what the scenario expects.
#[derive(Clone, Copy, Debug, PartialEq, Eq, Structural)]
pub enum Mismatch {
    /// The reply is not the expected text.
    Content,
    /// The reply does not hold the expected marker.
    MarkerMissing,
    /// Generation stopped for another reason than `Stop`.
    Finish(FinishReason),
    /// No usage was reported where it is asked for.
    UsageMissing,
    /// The reported total of tokens is zero.
    UsageZero,
    /// The reported total of tokens is over the limit.
    UsageOver { limit: u32, observed: u32 },
    /// The call succeeded where a failure is expected.
    Accepted,
    /// The call failed, but not in the expected way.
    Kind { expected: ErrorKind, found: ErrorKind },
}

/// Why a scenario failed.
#[derive(Clone, Copy, Debug, PartialEq, Eq, Structural)]
pub enum Failure {
    /// The call or a pull failed for a reason of no known kind.
    Transport,
    /// The credential was refused.
    Authentication,
    /// The request was refused.
    Validation,
    /// The reply breaks the protocol.
    Protocol(ProtocolDefect),
    /// The reply is well formed and not what the scenario expects.
    Assertion(Mismatch),
}

/// The five kinds of failure.
#[derive(Clone, Copy, Debug, PartialEq, Eq, Structural)]
pub enum FailureKind {
    Transport,
    Authentication,
    Validation,
    Protocol,
    Assertion,
}

/// How a scenario that has run ended.
#[derive(Clone, Copy, Debug, PartialEq, Eq, Structural)]
pub enum Verdict {
    Passed,
    Failed(Failure),
}

impl FailureKind {
    /// The name of the kind.
    pub open spec fn label(self) -> Seq<char> {
        match self {
            FailureKind::Transport => "transport error"@,
            FailureKind::Authentication => "authentication error"@,
            FailureKind::Validation => "validation error"@,
            FailureKind::Protocol => "protocol error"@,
            FailureKind::Assertion => "assertion failure"@,
        }
    }

    /// The name of the kind.
    pub fn name(self) -> (r: &'static str)
        ensures
            r@ == self.label(),
    {
        match self {
            FailureKind::Transport => "transport error",
            FailureKind::Authentication => "authentication error",
            FailureKind::Validation => "validation error",
            FailureKind::Protocol => "protocol error",
            FailureKind::Assertion => "assertion failure",
        }
    }
}

impl ProtocolDefect {
    /// Whose defect it is.
    pub open spec fn subject(self) -> Seq<char> {
        match self {
            ProtocolDefect::Response(_) => "the response is malformed: "@,
            ProtocolDefect::Chunk { .. } => "a chunk of the stream is malformed: "@,
            ProtocolDefect::Unfinished => "the stream is incomplete: "@,
            ProtocolDefect::Shape => "the reply has the wrong shape: "@,
        }
    }

    /// What the defect is.
    pub open spec fn detail(self) -> Seq<char> {
        match self {
            ProtocolDefect::Response(defect) => defect.text(),
            ProtocolDefect::Chunk { position: _, defect } => defect.text(),
            ProtocolDefect::Unfinished => "it ended without a finish reason"@,
            ProtocolDefect::Shape => "a stream came for a full response, or the reverse"@,
        }
    }
}

impl Mismatch {
    /// The mismatch in words.
    pub open spec fn text(self) -> Seq<char> {
        match self {
            Mismatch::Content => "the reply is not the expected text"@,
            Mismatch::MarkerMissing => "the reply does not hold the expected marker"@,
            Mismatch::Finish(_) => "the finish reason is not stop"@,
            Mismatch::UsageMissing => "no usage was reported"@,
            Mismatch::UsageZero => "the reported total of tokens is zero"@,
            Mismatch::UsageOver { .. } => "the reported total of tokens is over the limit"@,
            Mismatch::Accepted => "the call succeeded where a failure is expected"@,
            Mismatch::Kind { .. } => "the call failed, but not in the expected way"@,
        }
    }

    /// The mismatch in words.
    pub fn describe(self) -> (r: &'static str)
        ensures
            r@ == self.text(),
    {
        match self {
            Mismatch::Content => "the reply is not the expected text",
            Mismatch::MarkerMissing => "the reply does not hold the expected marker",
            Mismatch::Finish(_) => "the finish reason is not stop",
            Mismatch::UsageMissing => "no usage was reported",
            Mismatch::UsageZero => "the reported total of tokens is zero",
            Mismatch::UsageOver { .. } => "the reported total of tokens is over the limit",
            Mismatch::Accepted => "the call succeeded where a failure is expected",
            Mismatch::Kind { .. } => "the call failed, but not in the expected way",
        }
    }
}

impl Failure {
    /// What broke, without the name of the kind.
    pub open spec fn detail(self) -> Seq<char> {
        match self {
            Failure::Transport => "the call failed for a reason of no known kind"@,
            Failure::Authentication => "the credential was refused"@,
            Failure::Validation => "the request was refused"@,
            Failure::Protocol(defect) => defect.subject() + defect.detail(),
            Failure::Assertion(mismatch) => mismatch.text(),
        }
    }

    /// The cause of the failure for a reader: the name of its kind, a
    /// colon and a space, and what broke.
    pub open spec fn cause_text(self) -> Seq<char> {
        self.kind_spec().label() + ": "@ + self.detail()
    }

    /// The cause of the failure for a reader.
    pub fn cause(self) -> (r: String)
        ensures
            r@ == self.cause_text(),
    {
        let mut r = String::from_str(self.kind().name());
        r.append(": ");
        match self {
            Failure::Transport => {
                r.append("the call failed for a reason of no known kind");
            },
            Failure::Authentication => {
                r.append("the credential was refused");
            },
            Failure::Validation => {
                r.append("the request was refused");
            },
            Failure::Protocol(defect) => {
                match defect {
                    ProtocolDefect::Response(d) => {
                        r.append("the response is malformed: ");
                        r.append(d.describe());
                    },
                    ProtocolDefect::Chunk { position: _, defect: d } => {
                        r.append("a chunk of the stream is malformed: ");
                        r.append(d.describe());
                    },
                    ProtocolDefect::Unfinished => {
                        r.append("the stream is incomplete: ");
                        r.append("it ended without a finish reason");
                    },
                    ProtocolDefect::Shape => {
                        r.append("the reply has the wrong shape: ");
                        r.append("a stream came for a full response, or the reverse");
                    },
                }
                proof {
                    let head = self.kind_spec().label() + ": "@;
                    assert(head + defect.subject() + defect.detail() =~= head + (defect.subject()
                        + defect.detail()));
                }
            },
            Failure::Assertion(mismatch) => {
                r.append(mismatch.describe());
            },
        }
        r
    }

    /// The kind of this failure.
    pub open spec fn kind_spec(self) -> FailureKind {
        match self {
            Failure::Transport => FailureKind::Transport,
            Failure::Authentication => FailureKind::Authentication,
            Failure::Validation => FailureKind::Validation,
            Failure::Protocol(_) => FailureKind::Protocol,
            Failure::Assertion(_) => FailureKind::Assertion,
        }
    }

    /// The kind of this failure.
    #[verifier::when_used_as_spec(kind_spec)]
    pub fn kind(self) -> (k: FailureKind)
        ensures
            k == self.kind_spec(),
    {
        match self {
            Failure::Transport => FailureKind::Transport,
            Failure::Authentication => FailureKind::Authentication,
            Failure::Validation => FailureKind::Validation,
            Failure::Protocol(_) => FailureKind::Protocol,
            Failure::Assertion(_) => FailureKind::Assertion,
        }
    }
}

impl Verdict {
    /// The verdict that a looked-for failure amounts to.
    pub open spec fn of(failure: Option<Failure>) -> Verdict {
        match failure {
            Some(f) => Verdict::Failed(f),
            None => Verdict::Passed,
        }
    }

    /// The scenario passed.
    pub open spec fn passed_spec(self) -> bool {
        self is Passed
    }

    /// Whether the scenario passed.
    #[verifier::when_used_as_spec(passed_spec)]
    pub fn passed(self) -> (r: bool)
        ensures
            r == (self is Passed),
    {
        match self {
            Verdict::Passed => true,
            Verdict::Failed(_) => false,
        }
    }
}

/// The failure that a failed call amounts to where success is expected: by
/// its kind where it has one, a transport failure where it has none.
pub open spec fn failure_of(error: CallErrorView) -> Failure {
    match classification(error) {
        ErrorKind::Authentication => Failure::Authentication,
        ErrorKind::Validation => Failure::Validation,
        ErrorKind::Unclassified => Failure::Transport,
    }
}

/// The failure that a failed call or a failed pull amounts to where success
/// is expected.
pub fn failure_of_error(error: &CallError) -> (f: Failure)
    ensures
        f == failure_of(error@),
{
    match classify(error) {
        ErrorKind::Authentication => Failure::Authentication,
        ErrorKind::Validation => Failure::Validation,
        ErrorKind::Unclassified => Failure::Transport,
    }
}

/// The failure that a stream without a completion amounts to.
pub open spec fn failure_of_stream(error: StreamError) -> Failure {
    match error {
        StreamError::Malformed { position, defect } => Failure::Protocol(
            ProtocolDefect::Chunk { position, defect },
        ),
        StreamError::Unfinished => Failure::Protocol(ProtocolDefect::Unfinished),
    }
}

} // verus!
