use chat_conformance::classify::ErrorKind;
use chat_conformance::expect::{expected_reply, ContentCheck};
use chat_conformance::judge::{
    judge_reconstruction, judge_refusal, judge_rejection, judge_stream, FirstPull,
};
use chat_conformance::model::{
    user_message, CallError, CompletionChunk, Delta, DeltaChoice, FinishReason,
};
use chat_conformance::stream::{reconstruct, ChunkDefect, Reconstruction, StreamError};
use chat_conformance::verdict::{
    failure_of_error, Failure, Mismatch, ProtocolDefect, Verdict,
};

fn chunk(content: Option<&str>, finish: Option<FinishReason>) -> CompletionChunk {
    CompletionChunk {
        id: "chatcmpl-1".to_string(),
        object: "chat.completion.chunk".to_string(),
        created: 1_700_000_000,
        model: "echo".to_string(),
        choices: vec![DeltaChoice {
            index: 0,
            delta: Delta { content: content.map(|c| c.to_string()) },
            finish_reason: finish,
        }],
    }
}

fn hello_stream() -> Vec<CompletionChunk> {
    vec![
        chunk(None, None),
        chunk(Some("Hello"), None),
        chunk(Some(" World"), None),
        chunk(None, Some(FinishReason::Stop)),
    ]
}

fn equals(text: &str) -> ContentCheck {
    ContentCheck::Equals(text.to_string())
}

#[test]
fn hello_world_stream_passes() {
    let expected = expected_reply(&vec![user_message("Hello World")]);
    assert_eq!(judge_stream("echo", &expected, &hello_stream(), None), Verdict::Passed);
}

#[test]
fn streaming_round_trip_for_several_contents() {
    for text in ["Hello Stream", "Reconstruct me", "Line 1\nLine 2\nLine 3", "\u{1F31F}", "a"] {
        let chars: Vec<char> = text.chars().collect();
        let mut chunks: Vec<CompletionChunk> = Vec::new();
        for c in &chars {
            chunks.push(chunk(Some(&c.to_string()), None));
        }
        chunks.push(chunk(None, Some(FinishReason::Stop)));
        let expected = expected_reply(&vec![user_message(text)]);
        assert_eq!(judge_stream("echo", &expected, &chunks, None), Verdict::Passed);
        let with_finish = chunks.iter().filter(|c| c.choices[0].finish_reason.is_some()).count();
        assert_eq!(with_finish, 1);
    }
}

#[test]
fn stream_with_other_content_fails_the_assertion() {
    let v = judge_stream("echo", &equals("Hello Stream"), &hello_stream(), None);
    assert_eq!(v, Verdict::Failed(Failure::Assertion(Mismatch::Content)));
}

#[test]
fn stream_that_stops_for_another_reason_fails_the_assertion() {
    let chunks = vec![chunk(Some("Hello World"), Some(FinishReason::Length))];
    let v = judge_stream("echo", &equals("Hello World"), &chunks, None);
    assert_eq!(v, Verdict::Failed(Failure::Assertion(Mismatch::Finish(FinishReason::Length))));
}

#[test]
fn finish_reason_is_judged_before_content() {
    let chunks = vec![chunk(Some("other"), Some(FinishReason::ContentFilter))];
    let v = judge_stream("echo", &equals("Hello World"), &chunks, None);
    assert_eq!(
        v,
        Verdict::Failed(Failure::Assertion(Mismatch::Finish(FinishReason::ContentFilter)))
    );
}

#[test]
fn three_stream_failures_are_told_apart() {
    let net = CallError { status: None, message: "connection closed".to_string() };
    let interrupted = judge_stream("echo", &equals("Hello World"), &hello_stream()[..2].to_vec(), Some(&net));
    assert_eq!(interrupted, Verdict::Failed(Failure::Transport));

    let mut bad = hello_stream();
    bad[1].object = "chat.completion".to_string();
    let malformed = judge_stream("echo", &equals("Hello World"), &bad, None);
    assert_eq!(
        malformed,
        Verdict::Failed(Failure::Protocol(ProtocolDefect::Chunk {
            position: 1,
            defect: ChunkDefect::WrongObject
        }))
    );

    let unfinished = judge_stream("echo", &equals("Hello World"), &hello_stream()[..3].to_vec(), None);
    assert_eq!(unfinished, Verdict::Failed(Failure::Protocol(ProtocolDefect::Unfinished)));

    assert_ne!(interrupted, malformed);
    assert_ne!(malformed, unfinished);
    assert_ne!(interrupted, unfinished);
}

#[test]
fn failed_pull_comes_before_everything() {
    let auth = CallError { status: Some(401), message: String::new() };
    let mut bad = hello_stream();
    bad[0].id = String::new();
    let v = judge_stream("echo", &equals("nothing"), &bad, Some(&auth));
    assert_eq!(v, Verdict::Failed(Failure::Authentication));
    let v = judge_stream("echo", &equals("Hello World"), &hello_stream(), Some(&auth));
    assert_eq!(v, Verdict::Failed(Failure::Authentication));
}

#[test]
fn empty_stream_fails_as_unfinished() {
    let v = judge_stream("echo", &equals(""), &vec![], None);
    assert_eq!(v, Verdict::Failed(Failure::Protocol(ProtocolDefect::Unfinished)));
}

#[test]
fn judging_a_result_agrees_with_judging_the_stream() {
    let streams = vec![
        hello_stream(),
        hello_stream()[..2].to_vec(),
        vec![],
        vec![chunk(Some("Hello World"), Some(FinishReason::Length))],
        {
            let mut s = hello_stream();
            s[3].model = "x".to_string();
            s
        },
    ];
    for chunks in streams {
        let result = reconstruct("echo", &chunks);
        assert_eq!(
            judge_reconstruction(&equals("Hello World"), &result),
            judge_stream("echo", &equals("Hello World"), &chunks, None)
        );
    }
}

#[test]
fn judge_reconstruction_on_each_result() {
    let ok = Ok(Reconstruction {
        content: "abc".to_string(),
        terminal_reason: FinishReason::Stop,
        chunks: 3,
    });
    assert_eq!(judge_reconstruction(&equals("abc"), &ok), Verdict::Passed);
    assert_eq!(
        judge_reconstruction(&equals("abd"), &ok),
        Verdict::Failed(Failure::Assertion(Mismatch::Content))
    );
    assert_eq!(judge_reconstruction(&ContentCheck::Contains("b".to_string()), &ok), Verdict::Passed);
    let err = Err(StreamError::Malformed { position: 4, defect: ChunkDefect::IdChanged });
    assert_eq!(
        judge_reconstruction(&equals("abc"), &err),
        Verdict::Failed(Failure::Protocol(ProtocolDefect::Chunk {
            position: 4,
            defect: ChunkDefect::IdChanged
        }))
    );
    assert_eq!(
        judge_reconstruction(&equals("abc"), &Err(StreamError::Unfinished)),
        Verdict::Failed(Failure::Protocol(ProtocolDefect::Unfinished))
    );
}

#[test]
fn rejection_passes_on_the_expected_kind_only() {
    let unauthorized = CallError { status: None, message: "401 Unauthorized".to_string() };
    let bad = CallError { status: Some(400), message: String::new() };
    let unknown = CallError { status: None, message: "timeout".to_string() };

    assert_eq!(judge_rejection(ErrorKind::Authentication, Some(&unauthorized)), Verdict::Passed);
    assert_eq!(judge_rejection(ErrorKind::Validation, Some(&bad)), Verdict::Passed);
    assert_eq!(
        judge_rejection(ErrorKind::Authentication, Some(&bad)),
        Verdict::Failed(Failure::Assertion(Mismatch::Kind {
            expected: ErrorKind::Authentication,
            found: ErrorKind::Validation
        }))
    );
    assert_eq!(
        judge_rejection(ErrorKind::Validation, Some(&unauthorized)),
        Verdict::Failed(Failure::Assertion(Mismatch::Kind {
            expected: ErrorKind::Validation,
            found: ErrorKind::Authentication
        }))
    );
    assert_eq!(
        judge_rejection(ErrorKind::Authentication, Some(&unknown)),
        Verdict::Failed(Failure::Assertion(Mismatch::Kind {
            expected: ErrorKind::Authentication,
            found: ErrorKind::Unclassified
        }))
    );
}

#[test]
fn unclassified_never_passes() {
    let unknown = CallError { status: None, message: "timeout".to_string() };
    assert_eq!(
        judge_rejection(ErrorKind::Unclassified, Some(&unknown)),
        Verdict::Failed(Failure::Assertion(Mismatch::Kind {
            expected: ErrorKind::Unclassified,
            found: ErrorKind::Unclassified
        }))
    );
}

#[test]
fn accepted_call_fails_a_rejection() {
    assert_eq!(
        judge_rejection(ErrorKind::Authentication, None),
        Verdict::Failed(Failure::Assertion(Mismatch::Accepted))
    );
    assert_eq!(
        judge_rejection(ErrorKind::Validation, None),
        Verdict::Failed(Failure::Assertion(Mismatch::Accepted))
    );
}

#[test]
fn refusal_passes_unless_a_chunk_is_delivered() {
    assert_eq!(judge_refusal(FirstPull::CallFailed), Verdict::Passed);
    assert_eq!(judge_refusal(FirstPull::PullFailed), Verdict::Passed);
    assert_eq!(judge_refusal(FirstPull::Ended), Verdict::Passed);
    assert_eq!(
        judge_refusal(FirstPull::Delivered),
        Verdict::Failed(Failure::Assertion(Mismatch::Accepted))
    );
}

#[test]
fn failure_of_error_follows_the_classification() {
    let e = CallError { status: Some(401), message: "Bad Request".to_string() };
    assert_eq!(failure_of_error(&e), Failure::Authentication);
    let e = CallError { status: Some(400), message: "Unauthorized".to_string() };
    assert_eq!(failure_of_error(&e), Failure::Validation);
    let e = CallError { status: Some(500), message: "Unauthorized".to_string() };
    assert_eq!(failure_of_error(&e), Failure::Transport);
    let e = CallError { status: None, message: "stream error: broken pipe".to_string() };
    assert_eq!(failure_of_error(&e), Failure::Transport);
}
