//! The adapters between a foreign callback and the framework's hooks.

use crate::value::{Content, Value, ValueView};
use vstd::prelude::*;

verus! {

/// The outcome of a validation.
#[derive(Debug, PartialEq, Eq)]
pub enum Validity {
    Valid,
    Invalid,
    InvalidWithMessage(String),
}

/// The mathematical model of a `Validity`.
pub enum ValidityView {
    Valid,
    Invalid,
    InvalidWithMessage(Seq<char>),
}

impl View for Validity {
    type V = ValidityView;

    open spec fn view(&self) -> ValidityView {
        match *self {
            Validity::Valid => ValidityView::Valid,
            Validity::Invalid => ValidityView::Invalid,
            Validity::InvalidWithMessage(message) => ValidityView::InvalidWithMessage(message@),
        }
    }
}

/// What the reply of a validate callback means. A null reply is valid, a
/// boolean reply is its own verdict, and a text reply is valid where the
/// framework accepts the text and is otherwise the message of the failure.
/// No other reply has a meaning.
pub open spec fn validity_of(reply: ValueView, text_accepted: bool) -> Option<ValidityView> {
    match reply {
        ValueView::Null => Some(ValidityView::Valid),
        ValueView::Bool(verdict) => Some(
            if verdict {
                ValidityView::Valid
            } else {
                ValidityView::Invalid
            },
        ),
        ValueView::String(text) => Some(
            if text_accepted {
                ValidityView::Valid
            } else {
                ValidityView::InvalidWithMessage(text)
            },
        ),
        _ => None,
    }
}

/// True of the replies that a validate callback may give.
pub open spec fn is_validate_reply(reply: ValueView) -> bool {
    reply is Null || reply is Bool || reply is String
}

/// Whether a validate callback may give this reply.
pub fn reply_is_supported(reply: &Value) -> (supported: bool)
    ensures
        supported == is_validate_reply(reply@),
{
    match reply.content() {
        Content::Null => true,
        Content::Bool(_) => true,
        Content::String(_) => true,
        _ => false,
    }
}

/// The outcome for a reply, given what the framework said of its text.
/// `text_accepted` is read for a text reply only.
pub fn reply_validity(reply: &Value, text_accepted: bool) -> (outcome: Validity)
    requires
        is_validate_reply(reply@),
    ensures
        Some(outcome@) == validity_of(reply@, text_accepted),
{
    match reply.content() {
        Content::Bool(verdict) => {
            if *verdict {
                Validity::Valid
            } else {
                Validity::Invalid
            }
        },
        Content::String(text) => {
            if text_accepted {
                Validity::Valid
            } else {
                Validity::InvalidWithMessage(text.clone())
            }
        },
        // What is left is the null reply.
        _ => Validity::Valid,
    }
}

/// Runs a transform callback on a framework value: the callback is handed a
/// fresh handle on the input, and a copy of what its reply holds goes back.
pub fn transform_adapter<F: Fn(Value) -> Value>(callback: &F, input: Content) -> (output: Content)
    requires
        forall|argument: Value| argument@ == input@ ==> call_requires(callback, (argument,)),
    ensures
        exists|argument: Value, reply: Value|
            argument@ == input@ && call_ensures(callback, (argument,), reply) && output@ == reply@,
{
    let argument = Value::new(input);
    let ghost handle = argument;
    let reply = callback(argument);
    assert(call_ensures(callback, (handle,), reply));
    reply.content().duplicate()
}

/// True where `accepted` is an answer of the framework's test to the text of
/// the reply; of a reply without text it is true of either answer.
pub open spec fn is_text_verdict<P: Fn(&str) -> bool>(
    accepts_text: &P,
    reply: ValueView,
    accepted: bool,
) -> bool {
    reply matches ValueView::String(wanted) ==> exists|text: &str|
        text@ == wanted && #[trigger] call_ensures(accepts_text, (text,), accepted)
}

/// Runs a validate callback on a framework value and reads its reply as an
/// outcome. The framework's test is asked about the text of a text reply, and
/// about nothing else. `None` where the reply has no meaning.
pub fn validate_adapter<F: Fn(Value) -> Value, P: Fn(&str) -> bool>(
    callback: &F,
    accepts_text: &P,
    input: Content,
) -> (outcome: Option<Validity>)
    requires
        forall|argument: Value| argument@ == input@ ==> call_requires(callback, (argument,)),
        forall|text: &str| call_requires(accepts_text, (text,)),
    ensures
        exists|argument: Value, reply: Value, accepted: bool|
            {
                &&& argument@ == input@
                &&& #[trigger] call_ensures(callback, (argument,), reply)
                &&& #[trigger] is_text_verdict(accepts_text, reply@, accepted)
                &&& match outcome {
                    Some(validity) => validity_of(reply@, accepted) == Some(validity@),
                    None => validity_of(reply@, accepted) is None,
                }
            },
{
    let argument = Value::new(input);
    let ghost handle = argument;
    let reply = callback(argument);
    assert(call_ensures(callback, (handle,), reply));
    if !reply_is_supported(&reply) {
        assert(is_text_verdict(accepts_text, reply@, false));
        return None;
    }
    let accepted = match reply.content().as_str() {
        Some(text) => {
            let answer = accepts_text(text);
            assert(call_ensures(accepts_text, (text,), answer));
            answer
        },
        None => false,
    };
    assert(is_text_verdict(accepts_text, reply@, accepted));
    Some(reply_validity(&reply, accepted))
}

/// Runs a perform callback on a framework value; nothing comes back.
pub fn perform_adapter<F: Fn(Value)>(callback: &F, input: Content)
    requires
        forall|argument: Value| argument@ == input@ ==> call_requires(callback, (argument,)),
    ensures
        exists|argument: Value| argument@ == input@ && call_ensures(callback, (argument,), ()),
{
    let argument = Value::new(input);
    let ghost handle = argument;
    callback(argument);
    assert(call_ensures(callback, (handle,), ()));
}

/// A null reply is valid and a boolean reply is its own verdict, whatever the
/// framework says of texts; a text that the framework rejects is the message
/// of the failure; the replies with a meaning are these three kinds.
pub proof fn law_validate_replies(reply: ValueView, text: Seq<char>, accepted: bool)
    ensures
        validity_of(ValueView::Null, accepted) == Some(ValidityView::Valid),
        validity_of(ValueView::Bool(true), accepted) == Some(ValidityView::Valid),
        validity_of(ValueView::Bool(false), accepted) == Some(ValidityView::Invalid),
        validity_of(ValueView::String(text), true) == Some(ValidityView::Valid),
        validity_of(ValueView::String(text), false) == Some(
            ValidityView::InvalidWithMessage(text),
        ),
        validity_of(reply, accepted) is Some <==> is_validate_reply(reply),
{
}

} // verus!
