//! What a scenario expects of a reply, and what the echo model is known to
//! answer to a conversation.

use vstd::prelude::*;
use vstd::string::StringExecFns;
use crate::model::{Message, MessageView, Role, Usage};
use crate::text::{contains, same_text, str_contains};
use crate::verdict::Mismatch;

verus! {

/// What the content of a reply is held against.
#[derive(Clone, Debug, PartialEq, Eq)]
pub enum ContentCheck {
    /// The reply is this text, letter for letter.
    Equals(String),
    /// The reply holds this marker somewhere.
    Contains(String),
    /// Any reply will do.
    Present,
}

/// A content check with its text as a sequence of characters.
pub enum ContentCheckView {
    Equals(Seq<char>),
    Contains(Seq<char>),
    Present,
}

impl View for ContentCheck {
    type V = ContentCheckView;

    open spec fn view(&self) -> ContentCheckView {
        match self {
            ContentCheck::Equals(t) => ContentCheckView::Equals(t@),
            ContentCheck::Contains(m) => ContentCheckView::Contains(m@),
            ContentCheck::Present => ContentCheckView::Present,
        }
    }
}

impl ContentCheckView {
    /// What is wrong with a reply under this check, if anything.
    pub open spec fn fault(self, content: Seq<char>) -> Option<Mismatch> {
        match self {
            ContentCheckView::Equals(t) => if content == t {
                None
            } else {
                Some(Mismatch::Content)
            },
            ContentCheckView::Contains(m) => if contains(content, m) {
                None
            } else {
                Some(Mismatch::MarkerMissing)
            },
            ContentCheckView::Present => None,
        }
    }
}

impl ContentCheck {
    /// Holds a reply against this check.
    pub fn check(&self, content: &str) -> (r: Option<Mismatch>)
        ensures
            r == self@.fault(content@),
    {
        match self {
            ContentCheck::Equals(t) => if same_text(content, t.as_str()) {
                None
            } else {
                Some(Mismatch::Content)
            },
            ContentCheck::Contains(m) => if str_contains(content, m.as_str()) {
                None
            } else {
                Some(Mismatch::MarkerMissing)
            },
            ContentCheck::Present => None,
        }
    }
}

/// What the reported usage is held against.
#[derive(Clone, Copy, Debug, PartialEq, Eq, Structural)]
pub enum UsageCheck {
    /// The usage is not looked at.
    Unchecked,
    /// A usage is reported, and its total is above zero.
    Positive,
    /// Where a usage is reported, its total is above zero.
    PositiveIfReported,
    /// Where a usage is reported, its total is at most the limit.
    AtMostIfReported(u32),
}

impl UsageCheck {
    /// What is wrong with a reported usage under this check, if anything.
    pub open spec fn fault(self, usage: Option<Usage>) -> Option<Mismatch> {
        match (self, usage) {
            (UsageCheck::Unchecked, _) => None,
            (UsageCheck::Positive, None) => Some(Mismatch::UsageMissing),
            (UsageCheck::Positive, Some(u)) | (UsageCheck::PositiveIfReported, Some(u)) => if u.total_tokens
                == 0 {
                Some(Mismatch::UsageZero)
            } else {
                None
            },
            (UsageCheck::PositiveIfReported, None) => None,
            (UsageCheck::AtMostIfReported(_), None) => None,
            (UsageCheck::AtMostIfReported(limit), Some(u)) => if u.total_tokens > limit {
                Some(Mismatch::UsageOver { limit, observed: u.total_tokens })
            } else {
                None
            },
        }
    }

    /// Holds a reported usage against this check.
    pub fn check(self, usage: Option<Usage>) -> (r: Option<Mismatch>)
        ensures
            r == self.fault(usage),
    {
        match self {
            UsageCheck::Unchecked => None,
            UsageCheck::Positive => match usage {
                None => Some(Mismatch::UsageMissing),
                Some(u) => if u.total_tokens == 0 {
                    Some(Mismatch::UsageZero)
                } else {
                    None
                },
            },
            UsageCheck::PositiveIfReported => match usage {
                None => None,
                Some(u) => if u.total_tokens == 0 {
                    Some(Mismatch::UsageZero)
                } else {
                    None
                },
            },
            UsageCheck::AtMostIfReported(limit) => match usage {
                None => None,
                Some(u) => if u.total_tokens > limit {
                    Some(Mismatch::UsageOver { limit, observed: u.total_tokens })
                } else {
                    None
                },
            },
        }
    }
}

/// The marker that the echo model's fallback reply holds.
pub open spec fn fallback_marker() -> Seq<char> {
    "Echo model"@
}

/// The content of the last message of the user in a conversation.
pub open spec fn last_user_content(messages: Seq<MessageView>) -> Option<Seq<char>>
    decreases messages.len(),
{
    if messages.len() == 0 {
        None
    } else if messages.last().role == Role::User {
        Some(messages.last().content)
    } else {
        last_user_content(messages.drop_last())
    }
}

/// What the echo model answers to a conversation: the content of the last
/// message of the user, and its fallback reply where the user said nothing.
pub open spec fn echo_of(messages: Seq<MessageView>) -> ContentCheckView {
    match last_user_content(messages) {
        Some(content) => ContentCheckView::Equals(content),
        None => ContentCheckView::Contains(fallback_marker()),
    }
}

/// The check that the echo model's reply to a conversation must meet.
pub fn expected_reply(messages: &Vec<Message>) -> (r: ContentCheck)
    ensures
        r@ == echo_of(crate::model::conversation(messages@)),
{
    let ghost all = crate::model::conversation(messages@);
    let mut i: usize = messages.len();
    proof {
        assert(all.subrange(0, i as int) =~= all);
    }
    while i > 0
        invariant
            i <= messages.len(),
            all == crate::model::conversation(messages@),
            last_user_content(all) == last_user_content(all.subrange(0, i as int)),
        decreases i,
    {
        let m = &messages[i - 1];
        proof {
            let head = all.subrange(0, i as int);
            assert(head.last() == m@);
            assert(head.drop_last() =~= all.subrange(0, i - 1));
        }
        match m.role {
            Role::User => {
                return ContentCheck::Equals(m.content.clone());
            },
            _ => {},
        }
        i -= 1;
    }
    ContentCheck::Contains(String::from_str("Echo model"))
}

} // verus!
