//! The error type handed to generic serialization frameworks. It adds no
//! error kind of its own: it wraps the runtime's native error, and turns a
//! framework's custom message into a conversion error that carries it.

use crate::native::{render, with_context, DuccError, ErrorView, KindView};
use vstd::prelude::*;
use vstd::std_specs::convert::FromSpecImpl;
use vstd::string::*;

verus! {

/// A runtime error, as seen by a serialization framework.
#[derive(Debug)]
pub struct Error(DuccError);

/// What a serializer's custom message becomes: a failed conversion of a
/// `serde` value into a script `value`, with the message as its only context.
pub open spec fn ser_custom_view(msg: Seq<char>) -> ErrorView {
    ErrorView {
        kind: KindView::ToJsConversion { from: "serde"@, to: "value"@ },
        context: seq![msg],
    }
}

/// What a deserializer's custom message becomes: a failed conversion of a
/// script `value` into a `serde` value, with the message as its only context.
pub open spec fn de_custom_view(msg: Seq<char>) -> ErrorView {
    ErrorView {
        kind: KindView::FromJsConversion { from: "value"@, to: "serde"@ },
        context: seq![msg],
    }
}

impl View for Error {
    type V = ErrorView;

    /// The value of the native error inside.
    closed spec fn view(&self) -> ErrorView {
        self.0@
    }
}

impl Error {
    /// The native error inside.
    pub closed spec fn inner(self) -> DuccError {
        self.0
    }

    /// The error that holds `err` inside.
    pub closed spec fn wrap(err: DuccError) -> Error {
        Error(err)
    }

    /// The error for a serialization failure whose message is the text
    /// `msg`.
    pub fn ser_message(msg: String) -> (err: Error)
        ensures
            err@ == ser_custom_view(msg@),
    {
        let err = Error(DuccError::to_js_conversion("serde", "value").js_err_context(msg));
        assert(err@.context =~= seq![msg@]);
        err
    }

    /// The error for a deserialization failure whose message is the text
    /// `msg`.
    pub fn de_message(msg: String) -> (err: Error)
        ensures
            err@ == de_custom_view(msg@),
    {
        let err = Error(DuccError::from_js_conversion("value", "serde").js_err_context(msg));
        assert(err@.context =~= seq![msg@]);
        err
    }

    /// The error for a serialization failure described by `msg`: that of
    /// [`Error::ser_message`] for the text that `msg` displays as.
    pub fn ser_custom<T: core::fmt::Display>(msg: T) -> (err: Error)
        ensures
            exists|text: String| #[trigger]
                to_string_from_display_ensures::<T>(&msg, text) && err@ == ser_custom_view(text@),
    {
        let text = msg.to_string();
        Error::ser_message(text)
    }

    /// The error for a deserialization failure described by `msg`: that of
    /// [`Error::de_message`] for the text that `msg` displays as.
    pub fn de_custom<T: core::fmt::Display>(msg: T) -> (err: Error)
        ensures
            exists|text: String| #[trigger]
                to_string_from_display_ensures::<T>(&msg, text) && err@ == de_custom_view(text@),
    {
        let text = msg.to_string();
        Error::de_message(text)
    }

    /// The fixed explanation that stands for every error of this type where
    /// a static description is asked for.
    pub fn description(&self) -> (text: &'static str)
        ensures
            text@ == "failed to serialize to Ducc value"@,
    {
        "failed to serialize to Ducc value"
    }

    /// The human-readable description of this error: that of the native
    /// error inside.
    pub fn message(&self) -> (text: String)
        ensures
            text@ == render(self@),
    {
        self.0.message()
    }
}

impl From<DuccError> for Error {
    /// Wraps a native error.
    fn from(err: DuccError) -> (wrapped: Error)
        ensures
            wrapped == Error::wrap(err),
            wrapped@ == err@,
    {
        Error(err)
    }
}

impl FromSpecImpl<DuccError> for Error {
    open spec fn obeys_from_spec() -> bool {
        true
    }

    open spec fn from_spec(err: DuccError) -> Error {
        Error::wrap(err)
    }
}

impl From<Error> for DuccError {
    /// Takes the native error out again.
    fn from(err: Error) -> (inner: DuccError)
        ensures
            inner == err.inner(),
            inner@ == err@,
    {
        err.0
    }
}

impl FromSpecImpl<Error> for DuccError {
    open spec fn obeys_from_spec() -> bool {
        true
    }

    open spec fn from_spec(err: Error) -> DuccError {
        err.inner()
    }
}

/// Wrapping a native error and taking it out again gives back the very same
/// error: its kind and every context message are untouched.
pub proof fn lemma_wrap_then_unwrap(err: DuccError)
    ensures
        Error::wrap(err).inner() == err,
{
}

/// Taking the native error out of a wrapped error and wrapping it again gives
/// back the very same wrapped error.
pub proof fn lemma_unwrap_then_wrap(err: Error)
    ensures
        Error::wrap(err.inner()) == err,
{
}

/// Wrapping keeps the value, and with it the message: the wrapped error
/// renders exactly as the native error does.
pub proof fn lemma_wrap_keeps_view(err: DuccError)
    ensures
        Error::wrap(err)@ == err@,
{
}

/// Unwrapping keeps the value: the native error taken out renders exactly as
/// the wrapped error did.
pub proof fn lemma_unwrap_keeps_view(err: Error)
    ensures
        err.inner()@ == err@,
{
}

/// The description of a serialization failure is a fixed prefix followed by
/// the custom message, character for character.
pub proof fn lemma_ser_custom_message(msg: Seq<char>)
    ensures
        render(ser_custom_view(msg)) == "error converting serde to JavaScript value: "@ + msg,
{
    reveal_strlit("error converting ");
    reveal_strlit("serde");
    reveal_strlit(" to JavaScript ");
    reveal_strlit("value");
    reveal_strlit(": ");
    reveal_strlit("error converting serde to JavaScript value: ");
    assert(seq![msg].drop_last() =~= Seq::<Seq<char>>::empty());
    reveal_with_fuel(with_context, 2);
    assert(render(ser_custom_view(msg)) =~= "error converting serde to JavaScript value: "@ + msg);
}

/// The description of a deserialization failure is a fixed prefix followed by
/// the custom message, character for character.
pub proof fn lemma_de_custom_message(msg: Seq<char>)
    ensures
        render(de_custom_view(msg)) == "error converting JavaScript value to serde: "@ + msg,
{
    reveal_strlit("error converting JavaScript ");
    reveal_strlit("value");
    reveal_strlit(" to ");
    reveal_strlit("serde");
    reveal_strlit(": ");
    reveal_strlit("error converting JavaScript value to serde: ");
    assert(seq![msg].drop_last() =~= Seq::<Seq<char>>::empty());
    reveal_with_fuel(with_context, 2);
    assert(render(de_custom_view(msg)) =~= "error converting JavaScript value to serde: "@ + msg);
}

/// No custom message is lost: two failures of the same direction are the same
/// error only if their messages are the same, and a serialization failure is
/// never the same error as a deserialization failure.
pub proof fn lemma_custom_keeps_message(a: Seq<char>, b: Seq<char>)
    ensures
        ser_custom_view(a) == ser_custom_view(b) ==> a == b,
        de_custom_view(a) == de_custom_view(b) ==> a == b,
        ser_custom_view(a) != de_custom_view(b),
{
    assert(seq![a][0] == a);
    assert(seq![b][0] == b);
}

} // verus!
