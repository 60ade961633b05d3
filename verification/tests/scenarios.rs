use chat_conformance::catalogue::{
    ask, auth_error_batch, basic_batch, batches, option_batch, streaming_batch, BatchKind,
};
use chat_conformance::classify::ErrorKind;
use chat_conformance::expect::{ContentCheck, UsageCheck};
use chat_conformance::model::{
    CallError, Choice, CompletionChunk, CompletionRequest, CompletionResponse, Delta,
    DeltaChoice, FinishReason, ReplyMessage, Role, Usage,
};
use chat_conformance::scenario::{Credential, Expectation, Observation, Scenario};
use chat_conformance::target::Target;
use chat_conformance::verdict::{Failure, Mismatch, ProtocolDefect, Verdict};

fn echo_text(request: &CompletionRequest) -> String {
    for m in request.messages.iter().rev() {
        if m.role == Role::User {
            return m.content.clone();
        }
    }
    "Echo model: send a message and it comes back.".to_string()
}

fn full_reply(request: &CompletionRequest) -> CompletionResponse {
    let text = echo_text(request);
    let words = text.split_whitespace().count() as u32;
    CompletionResponse {
        id: "chatcmpl-echo".to_string(),
        object: "chat.completion".to_string(),
        created: 1_700_000_000,
        model: request.model.clone(),
        choices: vec![Choice {
            index: 0,
            message: ReplyMessage { role: Some(Role::Assistant), content: Some(text) },
            finish_reason: Some(FinishReason::Stop),
        }],
        usage: Some(Usage {
            prompt_tokens: words + 1,
            completion_tokens: words + 1,
            total_tokens: 2 * words + 2,
        }),
    }
}

fn chunk_of(request: &CompletionRequest, content: Option<String>, finish: Option<FinishReason>) -> CompletionChunk {
    CompletionChunk {
        id: "chatcmpl-echo".to_string(),
        object: "chat.completion.chunk".to_string(),
        created: 1_700_000_000,
        model: request.model.clone(),
        choices: vec![DeltaChoice { index: 0, delta: Delta { content }, finish_reason: finish }],
    }
}

fn streamed_reply(request: &CompletionRequest) -> Vec<CompletionChunk> {
    let text = echo_text(request);
    let mut chunks = vec![chunk_of(request, None, None)];
    for piece in text.split_inclusive(' ') {
        chunks.push(chunk_of(request, Some(piece.to_string()), None));
    }
    chunks.push(chunk_of(request, None, Some(FinishReason::Stop)));
    chunks
}

fn echo_target(target: &Target, scenario: &Scenario) -> Observation {
    let key = target.key_for(&scenario.credential);
    if key != "testkey" {
        return Observation::Failed(CallError {
            status: None,
            message: "{\"error\":{\"message\":\"Unauthorized\",\"code\":401}}".to_string(),
        });
    }
    if scenario.request.validate().is_err() {
        return Observation::Failed(CallError {
            status: None,
            message: "invalid_request_error: messages must not be empty".to_string(),
        });
    }
    if scenario.request.stream {
        Observation::Stream { chunks: streamed_reply(&scenario.request), interrupted: None }
    } else {
        Observation::Reply(full_reply(&scenario.request))
    }
}

fn run(scenario: &Scenario) -> Verdict {
    let target = Target::resolve(None, None);
    scenario.judge(&echo_target(&target, scenario))
}

fn equals(text: &str) -> ContentCheck {
    ContentCheck::Equals(text.to_string())
}

fn reply(content: ContentCheck, usage: UsageCheck) -> Expectation {
    Expectation::Reply { content, usage }
}

#[test]
fn test_basic_completion() {
    let s = &basic_batch()[0];
    assert_eq!(s.name, "basic completion");
    assert_eq!(s.request, ask("Hello World"));
    assert_eq!(s.expect, reply(equals("Hello World"), UsageCheck::Positive));
    assert_eq!(run(s), Verdict::Passed);
    let mut r = full_reply(&s.request);
    r.usage = None;
    assert_eq!(
        s.judge(&Observation::Reply(r)),
        Verdict::Failed(Failure::Assertion(Mismatch::UsageMissing))
    );
}

#[test]
fn test_multi_message_conversation() {
    let s = &basic_batch()[1];
    assert_eq!(s.request.messages.len(), 4);
    assert_eq!(s.request.messages[0].role, Role::System);
    assert_eq!(s.request.messages[1].role, Role::User);
    assert_eq!(s.request.messages[2].role, Role::Assistant);
    assert_eq!(s.request.messages[3].role, Role::User);
    assert_eq!(s.expect, reply(equals("Last message"), UsageCheck::Unchecked));
    assert_eq!(run(s), Verdict::Passed);
}

#[test]
fn test_system_prompt_with_user_message() {
    let s = &basic_batch()[2];
    assert_eq!(s.request.messages.len(), 2);
    assert_eq!(s.expect, reply(equals("Test message"), UsageCheck::Unchecked));
    assert_eq!(run(s), Verdict::Passed);
}

#[test]
fn test_system_only_returns_default() {
    let s = &basic_batch()[3];
    assert_eq!(s.request.messages.len(), 1);
    assert_eq!(s.request.messages[0].role, Role::System);
    assert_eq!(
        s.expect,
        reply(ContentCheck::Contains("Echo model".to_string()), UsageCheck::Unchecked)
    );
    assert_eq!(run(s), Verdict::Passed);
}

#[test]
fn test_response_structure() {
    let s = &basic_batch()[4];
    assert_eq!(s.expect, reply(equals("Structure test"), UsageCheck::Positive));
    assert_eq!(run(s), Verdict::Passed);
    let mut r = full_reply(&s.request);
    r.choices[0].finish_reason = Some(FinishReason::Length);
    assert_eq!(
        s.judge(&Observation::Reply(r)),
        Verdict::Failed(Failure::Assertion(Mismatch::Finish(FinishReason::Length)))
    );
}

#[test]
fn test_empty_message_handling() {
    let s = &basic_batch()[5];
    assert_eq!(s.request, ask(""));
    assert_eq!(s.expect, reply(ContentCheck::Present, UsageCheck::Unchecked));
    assert_eq!(run(s), Verdict::Passed);
    let mut r = full_reply(&s.request);
    r.choices[0].message.content = Some("anything at all".to_string());
    assert_eq!(s.judge(&Observation::Reply(r)), Verdict::Passed);
}

#[test]
fn test_special_characters_and_unicode() {
    let s = &basic_batch()[6];
    let text = "Hello! 🌟 Special chars: @#$%^&*()_+-={}[]|\\:;\"'<>?,./ 中文";
    assert_eq!(s.request, ask(text));
    assert_eq!(s.expect, reply(equals(text), UsageCheck::Unchecked));
    assert_eq!(run(s), Verdict::Passed);
}

#[test]
fn test_multiline_content() {
    let s = &basic_batch()[7];
    let text = "Line 1\nLine 2\nLine 3 with more content\nFinal line";
    assert_eq!(s.request, ask(text));
    assert_eq!(s.expect, reply(equals(text), UsageCheck::Unchecked));
    assert_eq!(run(s), Verdict::Passed);
}

#[test]
fn test_basic_streaming_completion() {
    let s = &streaming_batch()[0];
    assert_eq!(s.request, ask("Hello Stream").with_stream(true));
    assert_eq!(s.expect, Expectation::Stream { content: equals("Hello Stream") });
    assert_eq!(run(s), Verdict::Passed);
    let none = Observation::Stream { chunks: vec![], interrupted: None };
    assert_eq!(s.judge(&none), Verdict::Failed(Failure::Protocol(ProtocolDefect::Unfinished)));
}

#[test]
fn test_streaming_content_reconstruction() {
    let s = &streaming_batch()[1];
    assert_eq!(s.expect, Expectation::Stream { content: equals("Reconstruct me") });
    assert_eq!(run(s), Verdict::Passed);
}

#[test]
fn test_streaming_with_multiline_content() {
    let s = &streaming_batch()[2];
    assert_eq!(s.expect, Expectation::Stream { content: equals("Line 1\nLine 2\nLine 3") });
    assert_eq!(run(s), Verdict::Passed);
}

#[test]
fn test_streaming_with_special_characters() {
    let s = &streaming_batch()[3];
    let text = "Hello! \u{F0}\u{178}\u{152}\u{178} Special: @#$%";
    assert_eq!(s.request, ask(text).with_stream(true));
    assert_eq!(s.expect, Expectation::Stream { content: equals(text) });
    assert_eq!(run(s), Verdict::Passed);
}

#[test]
fn test_streaming_response_structure() {
    let s = &streaming_batch()[4];
    assert_eq!(s.expect, Expectation::Stream { content: equals("Structure validation") });
    assert_eq!(run(s), Verdict::Passed);
}

#[test]
fn test_missing_api_key() {
    let s = &auth_error_batch()[0];
    assert_eq!(s.credential, Credential::Key(String::new()));
    assert_eq!(s.request, ask("Test message"));
    assert_eq!(s.expect, Expectation::Rejected(ErrorKind::Authentication));
    assert_eq!(run(s), Verdict::Passed);
    let accepted = Observation::Reply(full_reply(&s.request));
    assert_eq!(s.judge(&accepted), Verdict::Failed(Failure::Assertion(Mismatch::Accepted)));
}

#[test]
fn test_invalid_api_key() {
    let s = &auth_error_batch()[1];
    assert_eq!(s.credential, Credential::Key("invalid-key-12345".to_string()));
    assert_eq!(s.expect, Expectation::Rejected(ErrorKind::Authentication));
    assert_eq!(run(s), Verdict::Passed);
}

#[test]
fn test_empty_messages_array() {
    let s = &auth_error_batch()[2];
    assert_eq!(s.credential, Credential::Configured);
    assert!(s.request.messages.is_empty());
    assert_eq!(s.request.model, "echo");
    assert_eq!(s.expect, Expectation::Rejected(ErrorKind::Validation));
    assert_eq!(run(s), Verdict::Passed);
}

#[test]
fn test_streaming_with_invalid_api_key() {
    let s = &auth_error_batch()[3];
    assert_eq!(s.credential, Credential::Key("invalid-streaming-key".to_string()));
    assert!(s.request.stream);
    assert_eq!(s.expect, Expectation::StreamRefused);
    assert_eq!(run(s), Verdict::Passed);
    let broken = Observation::Stream {
        chunks: vec![],
        interrupted: Some(CallError { status: None, message: "stream failed".to_string() }),
    };
    assert_eq!(s.judge(&broken), Verdict::Passed);
    let ended = Observation::Stream { chunks: vec![], interrupted: None };
    assert_eq!(s.judge(&ended), Verdict::Passed);
    let delivered =
        Observation::Stream { chunks: streamed_reply(&s.request)[..1].to_vec(), interrupted: None };
    assert_eq!(s.judge(&delivered), Verdict::Failed(Failure::Assertion(Mismatch::Accepted)));
}

#[test]
fn test_custom_temperature_parameter() {
    let s = &option_batch()[0];
    assert_eq!(s.request, ask("Temperature test").with_temperature_milli(700));
    assert_eq!(s.expect, reply(equals("Temperature test"), UsageCheck::Unchecked));
    assert_eq!(run(s), Verdict::Passed);
}

#[test]
fn test_custom_max_tokens_parameter() {
    let s = &option_batch()[1];
    assert_eq!(s.request, ask("Max tokens test").with_max_tokens(50));
    assert_eq!(s.expect, reply(equals("Max tokens test"), UsageCheck::AtMostIfReported(100)));
    assert_eq!(run(s), Verdict::Passed);
    let mut r = full_reply(&s.request);
    r.usage = Some(Usage { prompt_tokens: 100, completion_tokens: 1, total_tokens: 101 });
    assert_eq!(
        s.judge(&Observation::Reply(r)),
        Verdict::Failed(Failure::Assertion(Mismatch::UsageOver { limit: 100, observed: 101 }))
    );
}

#[test]
fn test_multiple_parameters_combined() {
    let s = &option_batch()[2];
    assert_eq!(
        s.request,
        ask("Combined parameters").with_temperature_milli(500).with_max_tokens(100).with_top_p_milli(900)
    );
    assert_eq!(s.expect, reply(equals("Combined parameters"), UsageCheck::PositiveIfReported));
    assert_eq!(run(s), Verdict::Passed);
}

#[test]
fn test_streaming_with_parameters() {
    let s = &option_batch()[3];
    assert_eq!(
        s.request,
        ask("Streaming with options").with_temperature_milli(800).with_max_tokens(75).with_stream(true)
    );
    assert_eq!(s.expect, Expectation::Stream { content: equals("Streaming with options") });
    assert_eq!(run(s), Verdict::Passed);
}

#[test]
fn test_user_parameter_in_request() {
    let s = &option_batch()[4];
    assert_eq!(s.request, ask("User parameter test").with_user("test-user-123"));
    assert_eq!(s.expect, reply(equals("User parameter test"), UsageCheck::Unchecked));
    assert_eq!(run(s), Verdict::Passed);
}

#[test]
fn test_frequency_and_presence_penalty_parameters() {
    let s = &option_batch()[5];
    assert_eq!(
        s.request,
        ask("Penalty parameters test").with_frequency_penalty_milli(500).with_presence_penalty_milli(300)
    );
    assert_eq!(s.expect, reply(equals("Penalty parameters test"), UsageCheck::Unchecked));
    assert_eq!(run(s), Verdict::Passed);
}

#[test]
fn batches_come_in_order_with_their_names() {
    let all = batches();
    assert_eq!(
        all,
        vec![BatchKind::Basic, BatchKind::Streaming, BatchKind::AuthErrors, BatchKind::Options]
    );
    let names: Vec<String> = all.iter().map(|b| b.name()).collect();
    assert_eq!(names, vec!["basic", "streaming", "auth-errors", "options"]);
    let sizes: Vec<usize> = all.iter().map(|b| b.scenarios().len()).collect();
    assert_eq!(sizes, vec![8, 5, 4, 6]);
    assert_eq!(BatchKind::Basic.scenarios(), basic_batch());
    assert_eq!(BatchKind::Streaming.scenarios(), streaming_batch());
    assert_eq!(BatchKind::AuthErrors.scenarios(), auth_error_batch());
    assert_eq!(BatchKind::Options.scenarios(), option_batch());
}

#[test]
fn every_scenario_asks_the_echo_model_and_passes_on_it() {
    for batch in batches() {
        for s in batch.scenarios() {
            assert_eq!(s.request.model, "echo");
            assert_eq!(run(&s), Verdict::Passed, "{}", s.name);
        }
    }
}

#[test]
fn sampling_parameters_change_no_expectation() {
    let plain = Scenario::echo("plain", ask("Same words"), UsageCheck::Unchecked);
    let tuned = Scenario::echo(
        "tuned",
        ask("Same words")
            .with_temperature_milli(700)
            .with_top_p_milli(900)
            .with_max_tokens(50)
            .with_frequency_penalty_milli(500)
            .with_presence_penalty_milli(300)
            .with_user("test-user-123"),
        UsageCheck::Unchecked,
    );
    assert_eq!(plain.expect, tuned.expect);
    let good = Observation::Reply(full_reply(&plain.request));
    assert_eq!(plain.judge(&good), tuned.judge(&good));
    assert_eq!(tuned.judge(&good), Verdict::Passed);
    let mut other = full_reply(&plain.request);
    other.model = "echo-tuned".to_string();
    let bad = Observation::Reply(other);
    assert_eq!(plain.judge(&bad), tuned.judge(&bad));
    assert_ne!(tuned.judge(&bad), Verdict::Passed);
}

#[test]
fn echo_scenario_follows_the_stream_flag() {
    let s = Scenario::echo("s", ask("x").with_stream(true), UsageCheck::Positive);
    assert_eq!(s.expect, Expectation::Stream { content: equals("x") });
    assert_eq!(s.credential, Credential::Configured);
    let s = Scenario::echo("s", ask("x"), UsageCheck::Positive);
    assert_eq!(s.expect, reply(equals("x"), UsageCheck::Positive));
}

#[test]
fn reply_of_the_wrong_shape_breaks_the_protocol() {
    let shape = Verdict::Failed(Failure::Protocol(ProtocolDefect::Shape));
    let plain = Scenario::echo("plain", ask("x"), UsageCheck::Unchecked);
    let streamed = Scenario::echo("streamed", ask("x").with_stream(true), UsageCheck::Unchecked);
    let stream = Observation::Stream { chunks: streamed_reply(&streamed.request), interrupted: None };
    let full = Observation::Reply(full_reply(&plain.request));
    assert_eq!(plain.judge(&stream), shape);
    assert_eq!(streamed.judge(&full), shape);
    let rejected =
        Scenario::rejected("r", Credential::Configured, ask("x"), ErrorKind::Validation);
    assert_eq!(rejected.judge(&stream), shape);
    let refused = Scenario::refused_stream("r", Credential::Configured, ask("x").with_stream(true));
    assert_eq!(refused.judge(&full), shape);
}

#[test]
fn failed_call_fails_a_scenario_that_expects_success() {
    let plain = Scenario::echo("plain", ask("x"), UsageCheck::Unchecked);
    let streamed = Scenario::echo("streamed", ask("x").with_stream(true), UsageCheck::Unchecked);
    let auth = Observation::Failed(CallError { status: Some(401), message: String::new() });
    let net = Observation::Failed(CallError { status: None, message: "refused".to_string() });
    assert_eq!(plain.judge(&auth), Verdict::Failed(Failure::Authentication));
    assert_eq!(streamed.judge(&auth), Verdict::Failed(Failure::Authentication));
    assert_eq!(plain.judge(&net), Verdict::Failed(Failure::Transport));
    assert_eq!(streamed.judge(&net), Verdict::Failed(Failure::Transport));
}

#[test]
fn lenient_scenario_still_asks_for_a_well_formed_reply() {
    let s = Scenario::lenient("l", ask(""));
    let mut r = full_reply(&s.request);
    r.choices.clear();
    assert_eq!(
        s.judge(&Observation::Reply(r)),
        Verdict::Failed(Failure::Protocol(ProtocolDefect::Response(
            chat_conformance::reply::ResponseDefect::NoChoices
        )))
    );
}

#[test]
fn chunks_taken_one_at_a_time_get_the_same_verdict() {
    let s = Scenario::echo("s", ask("Hello Stream").with_stream(true), UsageCheck::Unchecked);
    let good = streamed_reply(&s.request);
    let mut bad = good.clone();
    bad[1].created = 0;
    let short = good[..good.len() - 1].to_vec();
    for chunks in [good, bad, short, vec![]] {
        let mut state = s.begin_stream();
        for c in &chunks {
            state.push(c);
        }
        assert_eq!(state.len(), chunks.len());
        let whole = s.judge(&Observation::Stream { chunks: chunks.clone(), interrupted: None });
        assert_eq!(s.judge_streamed(state, None), whole);
    }
}

#[test]
fn failed_pull_on_a_stream_taken_one_at_a_time() {
    let s = Scenario::echo("s", ask("Hello Stream").with_stream(true), UsageCheck::Unchecked);
    let chunks = streamed_reply(&s.request);
    let mut state = s.begin_stream();
    state.push(&chunks[0]);
    let net = CallError { status: None, message: "connection reset".to_string() };
    assert_eq!(s.judge_streamed(state, Some(&net)), Verdict::Failed(Failure::Transport));
}

#[test]
fn refused_stream_taken_one_at_a_time() {
    let s = Scenario::refused_stream(
        "r",
        Credential::Key("invalid-streaming-key".to_string()),
        ask("Test message").with_stream(true),
    );
    assert!(s.stops_after_first_pull());
    let net = CallError { status: Some(401), message: String::new() };
    assert_eq!(s.judge_streamed(s.begin_stream(), Some(&net)), Verdict::Passed);
    assert_eq!(s.judge_streamed(s.begin_stream(), None), Verdict::Passed);
    let mut state = s.begin_stream();
    state.push(&streamed_reply(&s.request)[0]);
    assert_eq!(
        s.judge_streamed(state, None),
        Verdict::Failed(Failure::Assertion(Mismatch::Accepted))
    );
}

#[test]
fn only_a_refused_stream_stops_after_the_first_pull() {
    for batch in batches() {
        for s in batch.scenarios() {
            assert_eq!(s.stops_after_first_pull(), s.expect == Expectation::StreamRefused);
        }
    }
}

#[test]
fn stream_for_a_scenario_that_asked_for_none() {
    let s = Scenario::echo("s", ask("x"), UsageCheck::Unchecked);
    assert_eq!(
        s.judge_streamed(s.begin_stream(), None),
        Verdict::Failed(Failure::Protocol(ProtocolDefect::Shape))
    );
}
