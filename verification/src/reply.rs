//! The inspection of a full response: whether it has the shape that the
//! protocol asks of the reply to a request that is not streamed.

use vstd::prelude::*;
use vstd::string::StringExecFns;
use crate::model::{response_object, CompletionResponse, ResponseView, Role};

verus! {

/// What can be wrong with the shape of a full response.
#[derive(Clone, Copy, Debug, PartialEq, Eq, Structural)]
pub enum ResponseDefect {
    /// Its `id` is empty.
    EmptyId,
    /// Its `object` is not the tag of a full response.
    WrongObject,
    /// Its `created` is zero.
    ZeroCreated,
    /// Its `model` is not the one that was asked for.
    WrongModel,
    /// It has no choice.
    NoChoices,
    /// Its first choice does not have index 0.
    WrongChoiceIndex,
    /// The message of its first choice is not the assistant's.
    WrongRole,
    /// The message of its first choice has no content.
    NoContent,
    /// Its first choice carries no finish reason.
    NoFinishReason,
}

impl ResponseDefect {
    /// The defect in words.
    pub open spec fn text(self) -> Seq<char> {
        match self {
            ResponseDefect::EmptyId => "its id is empty"@,
            ResponseDefect::WrongObject => "its object is not chat.completion"@,
            ResponseDefect::ZeroCreated => "its created is zero"@,
            ResponseDefect::WrongModel => "its model is not the one asked for"@,
            ResponseDefect::NoChoices => "it has no choices"@,
            ResponseDefect::WrongChoiceIndex => "its first choice has not index 0"@,
            ResponseDefect::WrongRole => "its message is not the assistant's"@,
            ResponseDefect::NoContent => "its message has no content"@,
            ResponseDefect::NoFinishReason => "it has no finish reason"@,
        }
    }

    /// The defect in words.
    pub fn describe(self) -> (r: &'static str)
        ensures
            r@ == self.text(),
    {
        match self {
            ResponseDefect::EmptyId => "its id is empty",
            ResponseDefect::WrongObject => "its object is not chat.completion",
            ResponseDefect::ZeroCreated => "its created is zero",
            ResponseDefect::WrongModel => "its model is not the one asked for",
            ResponseDefect::NoChoices => "it has no choices",
            ResponseDefect::WrongChoiceIndex => "its first choice has not index 0",
            ResponseDefect::WrongRole => "its message is not the assistant's",
            ResponseDefect::NoContent => "its message has no content",
            ResponseDefect::NoFinishReason => "it has no finish reason",
        }
    }
}

/// What is wrong with the shape of a response, the first of the defects in
/// the order of the fields; only the first choice is looked at.
pub open spec fn response_defect(model: Seq<char>, response: ResponseView) -> Option<
    ResponseDefect,
> {
    if response.id.len() == 0 {
        Some(ResponseDefect::EmptyId)
    } else if response.object != response_object() {
        Some(ResponseDefect::WrongObject)
    } else if response.created == 0 {
        Some(ResponseDefect::ZeroCreated)
    } else if response.model != model {
        Some(ResponseDefect::WrongModel)
    } else if response.choices.len() == 0 {
        Some(ResponseDefect::NoChoices)
    } else if response.choices[0].index != 0 {
        Some(ResponseDefect::WrongChoiceIndex)
    } else if response.choices[0].message.role != Some(Role::Assistant) {
        Some(ResponseDefect::WrongRole)
    } else if response.choices[0].message.content is None {
        Some(ResponseDefect::NoContent)
    } else if response.choices[0].finish_reason is None {
        Some(ResponseDefect::NoFinishReason)
    } else {
        None
    }
}

/// Looks for a defect in the shape of a response to a request for `model`.
pub fn inspect_response(model: &str, response: &CompletionResponse) -> (r: Option<ResponseDefect>)
    ensures
        r == response_defect(model@, response@),
{
    let tag = String::from_str("chat.completion");
    let wanted = String::from_str(model);
    if response.id.as_str().is_empty() {
        return Some(ResponseDefect::EmptyId);
    }
    if response.object != tag {
        return Some(ResponseDefect::WrongObject);
    }
    if response.created == 0 {
        return Some(ResponseDefect::ZeroCreated);
    }
    if response.model != wanted {
        return Some(ResponseDefect::WrongModel);
    }
    if response.choices.len() == 0 {
        return Some(ResponseDefect::NoChoices);
    }
    let first = &response.choices[0];
    if first.index != 0 {
        return Some(ResponseDefect::WrongChoiceIndex);
    }
    match first.message.role {
        Some(Role::Assistant) => {},
        _ => {
            return Some(ResponseDefect::WrongRole);
        },
    }
    if first.message.content.is_none() {
        return Some(ResponseDefect::NoContent);
    }
    if first.finish_reason.is_none() {
        return Some(ResponseDefect::NoFinishReason);
    }
    None
}

} // verus!
