//! The runtime's native error type: what went wrong, and the context messages
//! attached to it on the way up.

use vstd::prelude::*;
use vstd::string::*;

verus! {

/// What kind of failure an error reports.
#[derive(Debug)]
pub enum ErrorKind {
    /// A host value of type `from` could not be converted into a script value
    /// of kind `to`.
    ToJsConversion { from: &'static str, to: &'static str },
    /// A script value of kind `from` could not be converted into a host value
    /// of type `to`.
    FromJsConversion { from: &'static str, to: &'static str },
    /// The script threw; `thrown` is the thrown value rendered as text.
    ScriptException { thrown: String },
    /// Execution was aborted because the cancellation predicate returned true.
    Cancelled,
    /// Any other failure of the engine, with the diagnostic text it provided.
    Engine { diagnostic: String },
}

/// A runtime error: its kind and the context messages attached to it, oldest
/// first.
#[derive(Debug)]
pub struct DuccError {
    pub kind: ErrorKind,
    pub context: Vec<String>,
}

/// The mathematical value of an [`ErrorKind`]: every text as a sequence of
/// characters.
pub ghost enum KindView {
    ToJsConversion { from: Seq<char>, to: Seq<char> },
    FromJsConversion { from: Seq<char>, to: Seq<char> },
    ScriptException { thrown: Seq<char> },
    Cancelled,
    Engine { diagnostic: Seq<char> },
}

/// The mathematical value of a [`DuccError`].
pub ghost struct ErrorView {
    pub kind: KindView,
    pub context: Seq<Seq<char>>,
}

impl View for ErrorKind {
    type V = KindView;

    open spec fn view(&self) -> KindView {
        match *self {
            ErrorKind::ToJsConversion { from, to } => KindView::ToJsConversion {
                from: from@,
                to: to@,
            },
            ErrorKind::FromJsConversion { from, to } => KindView::FromJsConversion {
                from: from@,
                to: to@,
            },
            ErrorKind::ScriptException { thrown } => KindView::ScriptException { thrown: thrown@ },
            ErrorKind::Cancelled => KindView::Cancelled,
            ErrorKind::Engine { diagnostic } => KindView::Engine { diagnostic: diagnostic@ },
        }
    }
}

impl View for DuccError {
    type V = ErrorView;

    open spec fn view(&self) -> ErrorView {
        ErrorView { kind: self.kind@, context: self.context@.map_values(|s: String| s@) }
    }
}

/// The description of a failure of the given kind, before any context.
pub open spec fn kind_text(kind: KindView) -> Seq<char> {
    match kind {
        KindView::ToJsConversion { from, to } => "error converting "@ + from + " to JavaScript "@
            + to,
        KindView::FromJsConversion { from, to } => "error converting JavaScript "@ + from + " to "@
            + to,
        KindView::ScriptException { thrown } => "JavaScript exception: "@ + thrown,
        KindView::Cancelled => "execution cancelled"@,
        KindView::Engine { diagnostic } => "JavaScript runtime error: "@ + diagnostic,
    }
}

/// `head` followed by each context message in turn, every one introduced by
/// a colon and a space.
pub open spec fn with_context(head: Seq<char>, context: Seq<Seq<char>>) -> Seq<char>
    decreases context.len(),
{
    if context.len() == 0 {
        head
    } else {
        with_context(head, context.drop_last()) + ": "@ + context.last()
    }
}

/// The human-readable description of an error: what failed, then its context
/// messages, oldest first.
pub open spec fn render(err: ErrorView) -> Seq<char> {
    with_context(kind_text(err.kind), err.context)
}

impl ErrorKind {
    /// The description of this kind of failure, before any context.
    pub fn text(&self) -> (text: String)
        ensures
            text@ == kind_text(self@),
    {
        match self {
            ErrorKind::ToJsConversion { from, to } => {
                let mut text = String::from_str("error converting ");
                text.append(from);
                text.append(" to JavaScript ");
                text.append(to);
                text
            },
            ErrorKind::FromJsConversion { from, to } => {
                let mut text = String::from_str("error converting JavaScript ");
                text.append(from);
                text.append(" to ");
                text.append(to);
                text
            },
            ErrorKind::ScriptException { thrown } => {
                let mut text = String::from_str("JavaScript exception: ");
                text.append(thrown.as_str());
                text
            },
            ErrorKind::Cancelled => String::from_str("execution cancelled"),
            ErrorKind::Engine { diagnostic } => {
                let mut text = String::from_str("JavaScript runtime error: ");
                text.append(diagnostic.as_str());
                text
            },
        }
    }
}

impl DuccError {
    /// An error saying that a host value of type `from` could not become a
    /// script value of kind `to`. It carries no context yet.
    pub fn to_js_conversion(from: &'static str, to: &'static str) -> (err: DuccError)
        ensures
            err@.kind == (KindView::ToJsConversion { from: from@, to: to@ }),
            err@.context == Seq::<Seq<char>>::empty(),
    {
        let err = DuccError { kind: ErrorKind::ToJsConversion { from, to }, context: Vec::new() };
        assert(err@.context =~= Seq::<Seq<char>>::empty());
        err
    }

    /// An error saying that a script value of kind `from` could not become a
    /// host value of type `to`. It carries no context yet.
    pub fn from_js_conversion(from: &'static str, to: &'static str) -> (err: DuccError)
        ensures
            err@.kind == (KindView::FromJsConversion { from: from@, to: to@ }),
            err@.context == Seq::<Seq<char>>::empty(),
    {
        let err = DuccError { kind: ErrorKind::FromJsConversion { from, to }, context: Vec::new() };
        assert(err@.context =~= Seq::<Seq<char>>::empty());
        err
    }

    /// The same error with `context` attached after the messages it already
    /// carries.
    pub fn js_err_context(self, context: String) -> (err: DuccError)
        ensures
            err@.kind == self@.kind,
            err@.context == self@.context.push(context@),
    {
        let mut err = self;
        err.context.push(context);
        assert(err@.context =~= self@.context.push(context@));
        err
    }

    /// The human-readable description of this error.
    pub fn message(&self) -> (text: String)
        ensures
            text@ == render(self@),
    {
        let mut text = self.kind.text();
        let mut i: usize = 0;
        assert(self@.context.take(0) =~= Seq::<Seq<char>>::empty());
        while i < self.context.len()
            invariant
                i <= self.context.len(),
                text@ == with_context(kind_text(self.kind@), self@.context.take(i as int)),
            decreases self.context.len() - i,
        {
            text.append(": ");
            text.append(self.context[i].as_str());
            proof {
                let next = self@.context.take(i + 1);
                assert(next.drop_last() =~= self@.context.take(i as int));
                assert(next.last() == self.context@[i as int]@);
            }
            i += 1;
        }
        assert(self@.context.take(i as int) =~= self@.context);
        text
    }
}

/// Attaching one more context message extends the description by a colon, a
/// space and that message; what was rendered before stays in front, unchanged.
pub proof fn lemma_context_extends_message(err: ErrorView, context: Seq<char>)
    ensures
        render(ErrorView { kind: err.kind, context: err.context.push(context) }) == render(err)
            + ": "@ + context,
{
    assert(err.context.push(context).drop_last() =~= err.context);
}

/// An error without context is described by its kind alone.
pub proof fn lemma_message_without_context(kind: KindView)
    ensures
        render(ErrorView { kind, context: Seq::empty() }) == kind_text(kind),
{
}

} // verus!
