//! The `register_diagnostic` builtin: the one host function that a plugin's
//! pattern can call to report a finding.
//!
//! The pattern engine resolves the call's arguments against its own state;
//! what it found is handed over as [`ResolvedPattern`] values, which hold as
//! plain data what the builtin reads of them.

use crate::diagnostic::{lemma_plain_text_of_new, Diagnostic, DiagnosticView, TextRange};
use crate::engine::{constant_text, constant_to_string, generic_pattern_error, new_pattern_error};
use grit_pattern_matcher::constant::Constant;
use grit_util::error::GritPatternError;
use vstd::prelude::*;

verus! {

/// What the builtin answers to a call with a wrong set of arguments.
pub const ARITY_MESSAGE: &'static str =
    "register_diagnostic() takes 2 or 5 arguments: span and message, and optional fixer_description, category and applicability";

/// The message of a diagnostic whose message argument yields no text.
pub const NO_MESSAGE: &'static str = "(no message)";

/// How a builtin is declared to the pattern compiler: the name by which
/// patterns call it and the names of its positional parameters.
#[derive(Clone, Debug, PartialEq, Eq)]
pub struct Builtin {
    pub name: &'static str,
    pub params: Vec<&'static str>,
}

/// A [`Builtin`] as the contracts see it.
#[verifier::ext_equal]
pub ghost struct BuiltinView {
    pub name: Seq<char>,
    pub params: Seq<Seq<char>>,
}

impl DeepView for Builtin {
    type V = BuiltinView;

    open spec fn deep_view(&self) -> BuiltinView {
        BuiltinView { name: self.name@, params: self.params.deep_view() }
    }
}

/// The declaration of the builtin: `register_diagnostic`, with its five
/// parameters in the order of the argument slots.
pub open spec fn builtin_view() -> BuiltinView {
    BuiltinView {
        name: "register_diagnostic"@,
        params: seq![
            "span"@,
            "message"@,
            "fixer_description"@,
            "category"@,
            "applicability"@,
        ],
    }
}

/// The declaration of the builtin, for the table handed to the compiler.
pub fn builtin() -> (builtin: Builtin)
    ensures
        builtin.deep_view() == builtin_view(),
{
    let mut params: Vec<&'static str> = Vec::new();
    params.push("span");
    params.push("message");
    params.push("fixer_description");
    params.push("category");
    params.push("applicability");
    let builtin = Builtin { name: "register_diagnostic", params };
    assert(builtin.deep_view().params =~= builtin_view().params);
    builtin
}

/// Whether the presence of the positional arguments is one of the two
/// accepted shapes: five slots, of which either the first two or all five are
/// filled.
pub open spec fn arity_is_valid<P>(args: Seq<Option<P>>) -> bool {
    &&& args.len() == 5
    &&& args[0] is Some
    &&& args[1] is Some
    &&& (args[2] is Some) == (args[3] is Some)
    &&& (args[3] is Some) == (args[4] is Some)
}

/// The argument that an optional reference stands for.
pub open spec fn deref_slot<P>(slot: Option<&P>) -> Option<P> {
    match slot {
        Some(pattern) => Some(*pattern),
        None => None,
    }
}

/// The arguments of one call of the builtin, once their shape is accepted.
/// The last three are either all present or all absent.
#[derive(Debug)]
pub struct RegisterDiagnosticArgs<'a, P> {
    pub span: &'a P,
    pub message: &'a P,
    pub fixer_description: Option<&'a P>,
    pub category: Option<&'a P>,
    pub applicability: Option<&'a P>,
}

impl<'a, P> RegisterDiagnosticArgs<'a, P> {
    /// Whether these are the arguments in the slots `args`.
    pub open spec fn matches_slots(self, args: Seq<Option<P>>) -> bool {
        &&& args.len() == 5
        &&& args[0] == Some(*self.span)
        &&& args[1] == Some(*self.message)
        &&& args[2] == deref_slot(self.fixer_description)
        &&& args[3] == deref_slot(self.category)
        &&& args[4] == deref_slot(self.applicability)
    }

    /// Checks the shape of a call's arguments. The call is accepted if and
    /// only if the shape is valid; any other call is answered with the
    /// generic pattern error that says [`ARITY_MESSAGE`].
    pub fn from_slots(args: &'a [Option<P>]) -> (result: Result<Self, GritPatternError>)
        ensures
            match result {
                Ok(accepted) => arity_is_valid(args@) && accepted.matches_slots(args@),
                Err(error) => !arity_is_valid(args@) && error == generic_pattern_error(
                    ARITY_MESSAGE@,
                ),
            },
    {
        if args.len() != 5 {
            return Err(new_pattern_error(ARITY_MESSAGE));
        }
        match (&args[0], &args[1], &args[2], &args[3], &args[4]) {
            (Some(span), Some(message), None, None, None) => Ok(
                RegisterDiagnosticArgs {
                    span,
                    message,
                    fixer_description: None,
                    category: None,
                    applicability: None,
                },
            ),
            (
                Some(span),
                Some(message),
                Some(fixer_description),
                Some(category),
                Some(applicability),
            ) => Ok(
                RegisterDiagnosticArgs {
                    span,
                    message,
                    fixer_description: Some(fixer_description),
                    category: Some(category),
                    applicability: Some(applicability),
                },
            ),
            _ => Err(new_pattern_error(ARITY_MESSAGE)),
        }
    }
}

/// A value bound to a pattern variable during matching, as far as the builtin
/// reads it.
#[derive(Clone, Debug, PartialEq, Eq)]
pub struct Binding {
    /// Where the binding points: the byte range of the syntax node it refers
    /// to, without the trivia around the node. `None` if it refers to no node.
    pub node_range: Option<TextRange>,
    /// The source text of the binding; `None` if the engine cannot tell it.
    pub text: Option<String>,
}

/// A [`Binding`] as the contracts see it.
#[verifier::ext_equal]
pub ghost struct BindingView {
    pub node_range: Option<TextRange>,
    pub text: Option<Seq<char>>,
}

impl DeepView for Binding {
    type V = BindingView;

    open spec fn deep_view(&self) -> BindingView {
        BindingView { node_range: self.node_range, text: self.text.deep_view() }
    }
}

/// An argument of the builtin after the engine has resolved it against its
/// state.
#[derive(Debug)]
pub enum ResolvedPattern {
    /// A literal of the pattern language.
    Constant(Constant),
    /// A list of snippets of source text, each with its text, or `None` where
    /// the engine cannot tell it.
    Snippets(Vec<Option<String>>),
    /// Any other value, with the binding that it was last bound to, if it was
    /// bound at all.
    Other(Option<Binding>),
}

/// A [`ResolvedPattern`] as the contracts see it. Of a constant only its
/// string form is kept.
#[verifier::ext_equal]
pub ghost enum ResolvedPatternView {
    Constant(Seq<char>),
    Snippets(Seq<Option<Seq<char>>>),
    Other(Option<BindingView>),
}

impl DeepView for ResolvedPattern {
    type V = ResolvedPatternView;

    open spec fn deep_view(&self) -> ResolvedPatternView {
        match self {
            ResolvedPattern::Constant(constant) => ResolvedPatternView::Constant(
                constant_text(*constant),
            ),
            ResolvedPattern::Snippets(snippets) => ResolvedPatternView::Snippets(
                snippets.deep_view(),
            ),
            ResolvedPattern::Other(binding) => ResolvedPatternView::Other(binding.deep_view()),
        }
    }
}

impl ResolvedPatternView {
    /// The position that a span argument gives: the range of the node that
    /// its last binding refers to. A value without a binding, or whose last
    /// binding refers to no node, gives none.
    pub open spec fn span(self) -> Option<TextRange> {
        match self {
            ResolvedPatternView::Other(Some(binding)) => binding.node_range,
            _ => None,
        }
    }

    /// First tier of the message: the string form of a constant.
    pub open spec fn constant_message(self) -> Option<Seq<char>> {
        match self {
            ResolvedPatternView::Constant(text) => Some(text),
            _ => None,
        }
    }

    /// Second tier of the message: the texts of a list of snippets, one after
    /// the other, provided that each of them has a text.
    pub open spec fn snippets_message(self) -> Option<Seq<char>> {
        match self {
            ResolvedPatternView::Snippets(snippets) => if all_resolved(snippets) {
                Some(concatenation(snippets))
            } else {
                None
            },
            _ => None,
        }
    }

    /// Third tier of the message: the text of the last binding, if there is
    /// a binding and it has a text.
    pub open spec fn binding_message(self) -> Option<Seq<char>> {
        match self {
            ResolvedPatternView::Other(Some(binding)) => binding.text,
            _ => None,
        }
    }

    /// The message that a message argument gives: what the first of the
    /// three tiers that yields a text yields, and [`NO_MESSAGE`] if none does.
    pub open spec fn message(self) -> Seq<char> {
        if let Some(text) = self.constant_message() {
            text
        } else if let Some(text) = self.snippets_message() {
            text
        } else if let Some(text) = self.binding_message() {
            text
        } else {
            NO_MESSAGE@
        }
    }
}

/// Whether every snippet of the list has a text.
pub open spec fn all_resolved(snippets: Seq<Option<Seq<char>>>) -> bool {
    forall|i: int| 0 <= i < snippets.len() ==> (#[trigger] snippets[i]) is Some
}

/// The texts of the snippets, one after the other.
pub open spec fn concatenation(snippets: Seq<Option<Seq<char>>>) -> Seq<char> {
    snippets.map_values(|text: Option<Seq<char>>| text->0).flatten()
}

/// The diagnostic that a call with the given span and message arguments
/// registers.
pub open spec fn registered_diagnostic(
    span: ResolvedPatternView,
    message: ResolvedPatternView,
) -> DiagnosticView {
    DiagnosticView::new(span.span(), message.message())
}

impl ResolvedPattern {
    /// The position that this value gives as a span argument.
    pub fn span(&self) -> (span: Option<TextRange>)
        ensures
            span == self.deep_view().span(),
    {
        match self {
            ResolvedPattern::Other(Some(binding)) => binding.node_range,
            _ => None,
        }
    }

    /// First tier of the message: the string form of a constant.
    pub fn constant_message(&self) -> (message: Option<String>)
        ensures
            message.deep_view() == self.deep_view().constant_message(),
    {
        match self {
            ResolvedPattern::Constant(constant) => Some(constant_to_string(constant)),
            _ => None,
        }
    }

    /// Second tier of the message: the texts of a list of snippets, one after
    /// the other, or nothing if one of them has no text.
    pub fn snippets_message(&self) -> (message: Option<String>)
        ensures
            message.deep_view() == self.deep_view().snippets_message(),
    {
        match self {
            ResolvedPattern::Snippets(snippets) => {
                let ghost texts = snippets.deep_view();
                let ghost known = texts.map_values(|text: Option<Seq<char>>| text->0);
                let mut message = String::new();
                let mut index: usize = 0;
                while index < snippets.len()
                    invariant
                        index <= snippets.len(),
                        texts == snippets.deep_view(),
                        self.deep_view() == ResolvedPatternView::Snippets(texts),
                        known == texts.map_values(|text: Option<Seq<char>>| text->0),
                        forall|i: int| 0 <= i < index ==> (#[trigger] texts[i]) is Some,
                        message@ == known.take(index as int).flatten(),
                    decreases snippets.len() - index,
                {
                    match &snippets[index] {
                        Some(text) => {
                            proof {
                                assert(known.take(index + 1) =~= known.take(index as int).push(
                                    known[index as int],
                                ));
                                known.take(index as int).lemma_flatten_push(known[index as int]);
                            }
                            message.append(text.as_str());
                        },
                        None => {
                            assert(texts[index as int] is None);
                            return None;
                        },
                    }
                    index += 1;
                }
                assert(known.take(index as int) =~= known);
                Some(message)
            },
            _ => None,
        }
    }

    /// Third tier of the message: the text of the last binding, if there is
    /// a binding and it has a text.
    pub fn binding_message(&self) -> (message: Option<String>)
        ensures
            message.deep_view() == self.deep_view().binding_message(),
    {
        match self {
            ResolvedPattern::Other(Some(binding)) => binding.text.clone(),
            _ => None,
        }
    }

    /// The message that this value gives as a message argument.
    pub fn message(&self) -> (message: String)
        ensures
            message@ == self.deep_view().message(),
    {
        if let Some(text) = self.constant_message() {
            text
        } else if let Some(text) = self.snippets_message() {
            text
        } else if let Some(text) = self.binding_message() {
            text
        } else {
            NO_MESSAGE.to_owned()
        }
    }
}

/// The builtin. A call whose arguments have a valid shape appends one
/// diagnostic to `diagnostics`, made of what the span and message arguments
/// give, and returns the span argument as it was handed in. Any other call
/// fails with the generic pattern error that says [`ARITY_MESSAGE`] and
/// leaves `diagnostics` as it was.
///
/// The three optional arguments count for the shape and are otherwise not
/// read.
pub fn register_diagnostic<'a>(
    args: &'a [Option<ResolvedPattern>],
    diagnostics: &mut Vec<Diagnostic>,
) -> (result: Result<&'a ResolvedPattern, GritPatternError>)
    ensures
        match result {
            Ok(returned) => {
                &&& arity_is_valid(args@)
                &&& args@[0] == Some(*returned)
                &&& final(diagnostics).deep_view() == old(diagnostics).deep_view().push(
                    registered_diagnostic(args@[0]->0.deep_view(), args@[1]->0.deep_view()),
                )
            },
            Err(error) => {
                &&& !arity_is_valid(args@)
                &&& error == generic_pattern_error(ARITY_MESSAGE@)
                &&& *final(diagnostics) == *old(diagnostics)
            },
        },
{
    let accepted = match RegisterDiagnosticArgs::from_slots(args) {
        Ok(accepted) => accepted,
        Err(error) => {
            return Err(error);
        },
    };
    let span = accepted.span.span();
    let message = accepted.message.message();
    let diagnostic = Diagnostic::new(span, message.as_str());
    diagnostics.push(diagnostic);
    assert(diagnostics.deep_view() =~= old(diagnostics).deep_view().push(diagnostic.deep_view()));
    Ok(accepted.span)
}

/// The number of argument slots that are filled.
pub open spec fn present_count<P>(args: Seq<Option<P>>) -> nat {
    args.filter(|slot: Option<P>| slot is Some).len()
}

proof fn lemma_present_count_push<P>(args: Seq<Option<P>>, slot: Option<P>)
    ensures
        present_count(args.push(slot)) == present_count(args) + if slot is Some {
            1nat
        } else {
            0nat
        },
{
    reveal(Seq::filter);
    assert(args.push(slot).drop_last() =~= args);
}

/// The shape of a call, told by the number of arguments present: a call with
/// none, one, three or four of them is never accepted, nor one with more or
/// fewer than five slots; a call with all five is accepted; a call with two
/// is accepted when the two are the span and the message.
pub proof fn lemma_arity_by_count<P>(args: Seq<Option<P>>)
    ensures
        arity_is_valid(args) ==> args.len() == 5 && (present_count(args) == 2 || present_count(
            args,
        ) == 5),
        args.len() == 5 && present_count(args) == 5 ==> arity_is_valid(args),
        args.len() == 5 && present_count(args) == 2 && args[0] is Some && args[1] is Some
            ==> arity_is_valid(args),
{
    if args.len() == 5 {
        let none = Seq::<Option<P>>::empty();
        let one = none.push(args[0]);
        let two = one.push(args[1]);
        let three = two.push(args[2]);
        let four = three.push(args[3]);
        assert(args =~= four.push(args[4]));
        assert(present_count(none) == 0) by {
            reveal(Seq::filter);
        }
        lemma_present_count_push(none, args[0]);
        lemma_present_count_push(one, args[1]);
        lemma_present_count_push(two, args[2]);
        lemma_present_count_push(three, args[3]);
        lemma_present_count_push(four, args[4]);
    }
}

/// Where the registered diagnostic points: at the range of the node that the
/// span argument's last binding refers to, exactly as the engine gave it, and
/// nowhere if the argument has no binding or the binding refers to no node.
pub proof fn lemma_span_resolution(span: ResolvedPatternView, message: ResolvedPatternView)
    ensures
        span matches ResolvedPatternView::Other(Some(binding)) ==> registered_diagnostic(
            span,
            message,
        ).span == binding.node_range,
        span is Constant || span is Snippets || span == ResolvedPatternView::Other(None)
            ==> registered_diagnostic(span, message).span is None,
{
}

/// What the registered diagnostic says, case by case: a constant gives its
/// string form; a list of snippets gives their texts in a row if each has one,
/// so an empty list gives the empty message; any other value gives the text
/// of its last binding if there is one with a text. In every remaining case
/// the message is [`NO_MESSAGE`].
pub proof fn lemma_message_resolution(span: ResolvedPatternView, message: ResolvedPatternView)
    ensures
        registered_diagnostic(span, message).text() == message.message(),
        message matches ResolvedPatternView::Constant(text) ==> message.message() == text,
        message matches ResolvedPatternView::Snippets(snippets) ==> message.message() == (if all_resolved(
            snippets,
        ) {
            concatenation(snippets)
        } else {
            NO_MESSAGE@
        }),
        message == ResolvedPatternView::Snippets(Seq::empty()) ==> message.message()
            == Seq::<char>::empty(),
        message matches ResolvedPatternView::Other(Some(binding)) ==> message.message()
            == (match binding.text {
            Some(text) => text,
            None => NO_MESSAGE@,
        }),
        message == ResolvedPatternView::Other(None) ==> message.message() == NO_MESSAGE@,
{
    lemma_plain_text_of_new(span.span(), message.message());
    if message == ResolvedPatternView::Snippets(Seq::empty()) {
        assert(Seq::<Option<Seq<char>>>::empty().map_values(|text: Option<Seq<char>>| text->0)
            =~= Seq::<Seq<char>>::empty());
    }
}

} // verus!
