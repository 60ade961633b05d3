//! The scenarios that make up a run, batch by batch. Every request is for
//! the model `echo`.

use vstd::prelude::*;
use vstd::string::StringExecFns;
use crate::classify::ErrorKind;
use crate::expect::UsageCheck;
use crate::model::{
    assistant_message,
    system_message,
    user_message,
    CompletionRequest,
    Message,
    MessageView,
    RequestView,
    Role,
};
use crate::scenario::{
    echo_expectation,
    Credential,
    CredentialView,
    ExpectationView,
    Scenario,
    ScenarioView,
};
use crate::expect::ContentCheckView;

verus! {

/// The views of a batch's scenarios, in order.
pub open spec fn scenario_views(scenarios: Seq<Scenario>) -> Seq<ScenarioView> {
    scenarios.map_values(|s: Scenario| s@)
}

/// A conversation in which the user says one thing.
pub open spec fn said(text: Seq<char>) -> Seq<MessageView> {
    seq![MessageView { role: Role::User, content: text }]
}

/// A plain request to the echo model.
pub open spec fn echo_request(messages: Seq<MessageView>) -> RequestView {
    RequestView::plain("echo"@, messages)
}

/// A scenario that expects the echo model's answer to `request`.
pub open spec fn echo_case(name: Seq<char>, request: RequestView, usage: UsageCheck) -> ScenarioView {
    ScenarioView {
        name,
        credential: CredentialView::Configured,
        request,
        expect: echo_expectation(request, usage),
    }
}

/// A plain request to the echo model in which the user says one thing.
pub fn ask(text: &str) -> (r: CompletionRequest)
    ensures
        r@ == echo_request(said(text@)),
{
    let mut messages: Vec<Message> = Vec::new();
    messages.push(user_message(text));
    let r = CompletionRequest::new("echo", messages);
    proof {
        assert(r@.messages =~= said(text@));
    }
    r
}

/// The four batches of a run.
#[derive(Clone, Copy, Debug, PartialEq, Eq, Structural)]
pub enum BatchKind {
    /// The reply to a request that is not streamed.
    Basic,
    /// The reply to a streamed request.
    Streaming,
    /// Refused credentials and refused payloads.
    AuthErrors,
    /// Sampling parameters, which change nothing.
    Options,
}

/// The conversation of four messages that ends with the user's last word.
pub open spec fn long_conversation() -> Seq<MessageView> {
    seq![
        MessageView { role: Role::System, content: "You are a helpful assistant."@ },
        MessageView { role: Role::User, content: "First message"@ },
        MessageView { role: Role::Assistant, content: "First response"@ },
        MessageView { role: Role::User, content: "Last message"@ },
    ]
}

/// The conversation of a system prompt and one message of the user.
pub open spec fn prompted_conversation() -> Seq<MessageView> {
    seq![
        MessageView { role: Role::System, content: "You are a helpful assistant."@ },
        MessageView { role: Role::User, content: "Test message"@ },
    ]
}

/// The conversation that holds a system prompt and nothing else.
pub open spec fn system_only_conversation() -> Seq<MessageView> {
    seq![MessageView { role: Role::System, content: "You are a helpful assistant."@ }]
}

/// The scenarios of the batch `basic`.
pub open spec fn basic_cases() -> Seq<ScenarioView> {
    seq![
        echo_case("basic completion"@, echo_request(said("Hello World"@)), UsageCheck::Positive),
        echo_case(
            "multi-message conversation"@,
            echo_request(long_conversation()),
            UsageCheck::Unchecked,
        ),
        echo_case(
            "system prompt with user message"@,
            echo_request(prompted_conversation()),
            UsageCheck::Unchecked,
        ),
        echo_case(
            "system-only returns default"@,
            echo_request(system_only_conversation()),
            UsageCheck::Unchecked,
        ),
        echo_case(
            "response structure"@,
            echo_request(said("Structure test"@)),
            UsageCheck::Positive,
        ),
        ScenarioView {
            name: "empty message handling"@,
            credential: CredentialView::Configured,
            request: echo_request(said(""@)),
            expect: ExpectationView::Reply {
                content: ContentCheckView::Present,
                usage: UsageCheck::Unchecked,
            },
        },
        echo_case(
            "special characters and unicode"@,
            echo_request(
                said("Hello! \u{1F31F} Special chars: @#$%^&*()_+-={}[]|\\:;\"'<>?,./ \u{4E2D}\u{6587}"@),
            ),
            UsageCheck::Unchecked,
        ),
        echo_case(
            "multiline content"@,
            echo_request(said("Line 1\nLine 2\nLine 3 with more content\nFinal line"@)),
            UsageCheck::Unchecked,
        ),
    ]
}

/// The scenarios of the batch `basic`.
pub fn basic_batch() -> (v: Vec<Scenario>)
    ensures
        scenario_views(v@) == basic_cases(),
{
    let mut v: Vec<Scenario> = Vec::new();
    v.push(Scenario::echo("basic completion", ask("Hello World"), UsageCheck::Positive));

    let mut long: Vec<Message> = Vec::new();
    long.push(system_message("You are a helpful assistant."));
    long.push(user_message("First message"));
    long.push(assistant_message("First response"));
    long.push(user_message("Last message"));
    let request = CompletionRequest::new("echo", long);
    proof {
        assert(request@.messages =~= long_conversation());
    }
    v.push(Scenario::echo("multi-message conversation", request, UsageCheck::Unchecked));

    let mut prompted: Vec<Message> = Vec::new();
    prompted.push(system_message("You are a helpful assistant."));
    prompted.push(user_message("Test message"));
    let request = CompletionRequest::new("echo", prompted);
    proof {
        assert(request@.messages =~= prompted_conversation());
    }
    v.push(Scenario::echo("system prompt with user message", request, UsageCheck::Unchecked));

    let mut system_only: Vec<Message> = Vec::new();
    system_only.push(system_message("You are a helpful assistant."));
    let request = CompletionRequest::new("echo", system_only);
    proof {
        assert(request@.messages =~= system_only_conversation());
    }
    v.push(Scenario::echo("system-only returns default", request, UsageCheck::Unchecked));

    v.push(Scenario::echo("response structure", ask("Structure test"), UsageCheck::Positive));
    v.push(Scenario::lenient("empty message handling", ask("")));
    v.push(
        Scenario::echo(
            "special characters and unicode",
            ask("Hello! \u{1F31F} Special chars: @#$%^&*()_+-={}[]|\\:;\"'<>?,./ \u{4E2D}\u{6587}"),
            UsageCheck::Unchecked,
        ),
    );
    v.push(
        Scenario::echo(
            "multiline content",
            ask("Line 1\nLine 2\nLine 3 with more content\nFinal line"),
            UsageCheck::Unchecked,
        ),
    );
    proof {
        assert(scenario_views(v@) =~= basic_cases());
    }
    v
}

/// A streamed request to the echo model in which the user says one thing.
pub open spec fn streamed(text: Seq<char>) -> RequestView {
    RequestView { stream: true, ..echo_request(said(text)) }
}

/// The scenarios of the batch `streaming`.
pub open spec fn streaming_cases() -> Seq<ScenarioView> {
    seq![
        echo_case("basic streaming completion"@, streamed("Hello Stream"@), UsageCheck::Unchecked),
        echo_case(
            "streaming content reconstruction"@,
            streamed("Reconstruct me"@),
            UsageCheck::Unchecked,
        ),
        echo_case(
            "streaming with multiline content"@,
            streamed("Line 1\nLine 2\nLine 3"@),
            UsageCheck::Unchecked,
        ),
        echo_case(
            "streaming with special characters"@,
            streamed("Hello! \u{F0}\u{178}\u{152}\u{178} Special: @#$%"@),
            UsageCheck::Unchecked,
        ),
        echo_case(
            "streaming response structure"@,
            streamed("Structure validation"@),
            UsageCheck::Unchecked,
        ),
    ]
}

/// The scenarios of the batch `streaming`.
pub fn streaming_batch() -> (v: Vec<Scenario>)
    ensures
        scenario_views(v@) == streaming_cases(),
{
    let mut v: Vec<Scenario> = Vec::new();
    v.push(
        Scenario::echo(
            "basic streaming completion",
            ask("Hello Stream").with_stream(true),
            UsageCheck::Unchecked,
        ),
    );
    v.push(
        Scenario::echo(
            "streaming content reconstruction",
            ask("Reconstruct me").with_stream(true),
            UsageCheck::Unchecked,
        ),
    );
    v.push(
        Scenario::echo(
            "streaming with multiline content",
            ask("Line 1\nLine 2\nLine 3").with_stream(true),
            UsageCheck::Unchecked,
        ),
    );
    v.push(
        Scenario::echo(
            "streaming with special characters",
            ask("Hello! \u{F0}\u{178}\u{152}\u{178} Special: @#$%").with_stream(true),
            UsageCheck::Unchecked,
        ),
    );
    v.push(
        Scenario::echo(
            "streaming response structure",
            ask("Structure validation").with_stream(true),
            UsageCheck::Unchecked,
        ),
    );
    proof {
        assert(scenario_views(v@) =~= streaming_cases());
    }
    v
}

/// The scenarios of the batch `auth-errors`.
pub open spec fn auth_error_cases() -> Seq<ScenarioView> {
    seq![
        ScenarioView {
            name: "missing API key"@,
            credential: CredentialView::Key(""@),
            request: echo_request(said("Test message"@)),
            expect: ExpectationView::Rejected(ErrorKind::Authentication),
        },
        ScenarioView {
            name: "invalid API key"@,
            credential: CredentialView::Key("invalid-key-12345"@),
            request: echo_request(said("Test message"@)),
            expect: ExpectationView::Rejected(ErrorKind::Authentication),
        },
        ScenarioView {
            name: "empty messages array"@,
            credential: CredentialView::Configured,
            request: echo_request(Seq::empty()),
            expect: ExpectationView::Rejected(ErrorKind::Validation),
        },
        ScenarioView {
            name: "streaming with invalid API key"@,
            credential: CredentialView::Key("invalid-streaming-key"@),
            request: streamed("Test message"@),
            expect: ExpectationView::StreamRefused,
        },
    ]
}

/// The scenarios of the batch `auth-errors`.
pub fn auth_error_batch() -> (v: Vec<Scenario>)
    ensures
        scenario_views(v@) == auth_error_cases(),
{
    let mut v: Vec<Scenario> = Vec::new();
    v.push(
        Scenario::rejected(
            "missing API key",
            Credential::Key(String::from_str("")),
            ask("Test message"),
            ErrorKind::Authentication,
        ),
    );
    v.push(
        Scenario::rejected(
            "invalid API key",
            Credential::Key(String::from_str("invalid-key-12345")),
            ask("Test message"),
            ErrorKind::Authentication,
        ),
    );
    let nothing = CompletionRequest::new("echo", Vec::new());
    proof {
        assert(nothing@.messages =~= Seq::<MessageView>::empty());
    }
    v.push(
        Scenario::rejected(
            "empty messages array",
            Credential::Configured,
            nothing,
            ErrorKind::Validation,
        ),
    );
    v.push(
        Scenario::refused_stream(
            "streaming with invalid API key",
            Credential::Key(String::from_str("invalid-streaming-key")),
            ask("Test message").with_stream(true),
        ),
    );
    proof {
        assert(scenario_views(v@) =~= auth_error_cases());
    }
    v
}

/// The scenarios of the batch `options`.
pub open spec fn option_cases() -> Seq<ScenarioView> {
    seq![
        echo_case(
            "custom temperature parameter"@,
            RequestView { temperature_milli: Some(700u32), ..echo_request(said("Temperature test"@)) },
            UsageCheck::Unchecked,
        ),
        echo_case(
            "custom max tokens parameter"@,
            RequestView { max_tokens: Some(50u32), ..echo_request(said("Max tokens test"@)) },
            UsageCheck::AtMostIfReported(100),
        ),
        echo_case(
            "multiple parameters combined"@,
            RequestView {
                temperature_milli: Some(500u32),
                max_tokens: Some(100u32),
                top_p_milli: Some(900u32),
                ..echo_request(said("Combined parameters"@))
            },
            UsageCheck::PositiveIfReported,
        ),
        echo_case(
            "streaming with parameters"@,
            RequestView {
                temperature_milli: Some(800u32),
                max_tokens: Some(75u32),
                ..streamed("Streaming with options"@)
            },
            UsageCheck::Unchecked,
        ),
        echo_case(
            "user parameter in request"@,
            RequestView { user: Some("test-user-123"@), ..echo_request(said("User parameter test"@)) },
            UsageCheck::Unchecked,
        ),
        echo_case(
            "frequency and presence penalty parameters"@,
            RequestView {
                frequency_penalty_milli: Some(500i32),
                presence_penalty_milli: Some(300i32),
                ..echo_request(said("Penalty parameters test"@))
            },
            UsageCheck::Unchecked,
        ),
    ]
}

/// The scenarios of the batch `options`.
pub fn option_batch() -> (v: Vec<Scenario>)
    ensures
        scenario_views(v@) == option_cases(),
{
    let mut v: Vec<Scenario> = Vec::new();
    v.push(
        Scenario::echo(
            "custom temperature parameter",
            ask("Temperature test").with_temperature_milli(700),
            UsageCheck::Unchecked,
        ),
    );
    v.push(
        Scenario::echo(
            "custom max tokens parameter",
            ask("Max tokens test").with_max_tokens(50),
            UsageCheck::AtMostIfReported(100),
        ),
    );
    v.push(
        Scenario::echo(
            "multiple parameters combined",
            ask("Combined parameters").with_temperature_milli(500).with_max_tokens(
                100,
            ).with_top_p_milli(900),
            UsageCheck::PositiveIfReported,
        ),
    );
    v.push(
        Scenario::echo(
            "streaming with parameters",
            ask("Streaming with options").with_temperature_milli(800).with_max_tokens(
                75,
            ).with_stream(true),
            UsageCheck::Unchecked,
        ),
    );
    v.push(
        Scenario::echo(
            "user parameter in request",
            ask("User parameter test").with_user("test-user-123"),
            UsageCheck::Unchecked,
        ),
    );
    v.push(
        Scenario::echo(
            "frequency and presence penalty parameters",
            ask("Penalty parameters test").with_frequency_penalty_milli(
                500,
            ).with_presence_penalty_milli(300),
            UsageCheck::Unchecked,
        ),
    );
    proof {
        assert(scenario_views(v@) =~= option_cases());
    }
    v
}

impl BatchKind {
    /// The name of the batch.
    pub open spec fn title(self) -> Seq<char> {
        match self {
            BatchKind::Basic => "basic"@,
            BatchKind::Streaming => "streaming"@,
            BatchKind::AuthErrors => "auth-errors"@,
            BatchKind::Options => "options"@,
        }
    }

    /// The scenarios of the batch, in the order in which they run.
    pub open spec fn cases(self) -> Seq<ScenarioView> {
        match self {
            BatchKind::Basic => basic_cases(),
            BatchKind::Streaming => streaming_cases(),
            BatchKind::AuthErrors => auth_error_cases(),
            BatchKind::Options => option_cases(),
        }
    }

    /// The name of the batch.
    pub fn name(self) -> (r: String)
        ensures
            r@ == self.title(),
    {
        match self {
            BatchKind::Basic => String::from_str("basic"),
            BatchKind::Streaming => String::from_str("streaming"),
            BatchKind::AuthErrors => String::from_str("auth-errors"),
            BatchKind::Options => String::from_str("options"),
        }
    }

    /// The scenarios of the batch, in the order in which they run.
    pub fn scenarios(self) -> (v: Vec<Scenario>)
        ensures
            scenario_views(v@) == self.cases(),
    {
        match self {
            BatchKind::Basic => basic_batch(),
            BatchKind::Streaming => streaming_batch(),
            BatchKind::AuthErrors => auth_error_batch(),
            BatchKind::Options => option_batch(),
        }
    }
}

/// The batches of a run, in the order in which they run.
pub fn batches() -> (v: Vec<BatchKind>)
    ensures
        v@ == seq![
            BatchKind::Basic,
            BatchKind::Streaming,
            BatchKind::AuthErrors,
            BatchKind::Options,
        ],
{
    let mut v: Vec<BatchKind> = Vec::new();
    v.push(BatchKind::Basic);
    v.push(BatchKind::Streaming);
    v.push(BatchKind::AuthErrors);
    v.push(BatchKind::Options);
    proof {
        assert(v@ =~= seq![
            BatchKind::Basic,
            BatchKind::Streaming,
            BatchKind::AuthErrors,
            BatchKind::Options,
        ]);
    }
    v
}

} // verus!
