//! The diagnostics that a plugin run hands to the host.
//!
//! A [`Diagnostic`] is plain data: a category, an optional position, a
//! severity and a message made of styled parts. The host turns it into its
//! own representation; how the parts are rendered is the host's business.

use vstd::prelude::*;

verus! {

/// A half-open range of byte offsets into the analysed file.
#[derive(Clone, Copy, Debug, PartialEq, Eq, Structural)]
pub struct TextRange {
    pub start: u32,
    pub end: u32,
}

impl TextRange {
    /// The range from `start` up to, but not including, `end`.
    pub fn new(start: u32, end: u32) -> (range: TextRange)
        ensures
            range == (TextRange { start, end }),
    {
        TextRange { start, end }
    }
}

/// The category under which the host files a diagnostic. All diagnostics of a
/// plugin run belong to the one category `plugin`.
#[derive(Clone, Copy, Debug, PartialEq, Eq, Structural)]
pub enum Category {
    Plugin,
}

impl Category {
    /// The name by which the host knows the category.
    pub fn name(&self) -> (name: &'static str)
        ensures
            name@ == "plugin"@,
    {
        match self {
            Category::Plugin => "plugin",
        }
    }
}

/// How loudly the host reports a diagnostic.
#[derive(Clone, Copy, Debug, PartialEq, Eq, Structural)]
pub enum Severity {
    /// A finding or a failure; what a diagnostic is unless marked otherwise.
    Error,
    /// Informational; shown only when the host is asked for verbose output.
    Verbose,
}

/// The emphasis that the host gives to one part of a message.
#[derive(Clone, Copy, Debug, PartialEq, Eq, Structural)]
pub enum MarkupStyle {
    Plain,
    Emphasis,
    Info,
    Error,
}

/// A run of message text under one style.
#[derive(Clone, Debug, PartialEq, Eq)]
pub struct MessagePart {
    pub style: MarkupStyle,
    pub text: String,
}

/// A [`MessagePart`] as the contracts see it.
#[verifier::ext_equal]
pub ghost struct MessagePartView {
    pub style: MarkupStyle,
    pub text: Seq<char>,
}

impl DeepView for MessagePart {
    type V = MessagePartView;

    open spec fn deep_view(&self) -> MessagePartView {
        MessagePartView { style: self.style, text: self.text@ }
    }
}

/// The unit that a plugin run returns to the host.
#[derive(Clone, Debug, PartialEq, Eq)]
pub struct Diagnostic {
    pub category: Category,
    pub span: Option<TextRange>,
    pub severity: Severity,
    pub message: Vec<MessagePart>,
}

/// A [`Diagnostic`] as the contracts see it.
#[verifier::ext_equal]
pub ghost struct DiagnosticView {
    pub category: Category,
    pub span: Option<TextRange>,
    pub severity: Severity,
    pub message: Seq<MessagePartView>,
}

impl DeepView for Diagnostic {
    type V = DiagnosticView;

    open spec fn deep_view(&self) -> DiagnosticView {
        DiagnosticView {
            category: self.category,
            span: self.span,
            severity: self.severity,
            message: self.message.deep_view(),
        }
    }
}

/// The text of a message with its styles taken off: the texts of its parts,
/// one after the other.
pub open spec fn plain_text(message: Seq<MessagePartView>) -> Seq<char> {
    message.map_values(|part: MessagePartView| part.text).flatten()
}

impl DiagnosticView {
    /// A diagnostic of the `plugin` category and of severity `Error`, whose
    /// message is `text` in one plain part.
    pub open spec fn new(span: Option<TextRange>, text: Seq<char>) -> DiagnosticView {
        DiagnosticView {
            category: Category::Plugin,
            span,
            severity: Severity::Error,
            message: seq![MessagePartView { style: MarkupStyle::Plain, text }],
        }
    }

    /// The message without its styles.
    pub open spec fn text(self) -> Seq<char> {
        plain_text(self.message)
    }
}

impl MessagePart {
    /// A part that says `text` under `style`.
    pub fn new(style: MarkupStyle, text: &str) -> (part: MessagePart)
        ensures
            part.deep_view() == (MessagePartView { style, text: text@ }),
    {
        MessagePart { style, text: text.to_owned() }
    }
}

impl Diagnostic {
    /// A diagnostic of the `plugin` category at `span`, of severity `Error`,
    /// that says `message` in plain text.
    pub fn new(span: Option<TextRange>, message: &str) -> (diagnostic: Diagnostic)
        ensures
            diagnostic.deep_view() == DiagnosticView::new(span, message@),
    {
        let mut parts: Vec<MessagePart> = Vec::new();
        parts.push(MessagePart::new(MarkupStyle::Plain, message));
        let diagnostic = Diagnostic {
            category: Category::Plugin,
            span,
            severity: Severity::Error,
            message: parts,
        };
        assert(diagnostic.deep_view().message =~= DiagnosticView::new(span, message@).message);
        diagnostic
    }

    /// The message as one string, without its styles.
    pub fn message_text(&self) -> (text: String)
        ensures
            text@ == self.deep_view().text(),
    {
        let mut text = String::new();
        let ghost parts = self.message.deep_view();
        let ghost texts = parts.map_values(|part: MessagePartView| part.text);
        let mut index: usize = 0;
        while index < self.message.len()
            invariant
                index <= self.message.len(),
                parts == self.message.deep_view(),
                texts == parts.map_values(|part: MessagePartView| part.text),
                text@ == texts.take(index as int).flatten(),
            decreases self.message.len() - index,
        {
            proof {
                assert(texts.take(index + 1) =~= texts.take(index as int).push(texts[index as int]));
                texts.take(index as int).lemma_flatten_push(texts[index as int]);
            }
            text.append(self.message[index].text.as_str());
            index += 1;
        }
        assert(texts.take(index as int) =~= texts);
        text
    }
}

/// The plain text of a one-part message is the text of that part.
pub proof fn lemma_plain_text_of_new(span: Option<TextRange>, text: Seq<char>)
    ensures
        DiagnosticView::new(span, text).text() == text,
{
    let texts = DiagnosticView::new(span, text).message.map_values(
        |part: MessagePartView| part.text,
    );
    assert(texts =~= seq![text]);
    texts.lemma_flatten_one_element();
}

/// The plain text of a three-part message is its three texts in a row,
/// whatever the styles.
pub proof fn lemma_plain_text_of_three(
    first: MessagePartView,
    second: MessagePartView,
    third: MessagePartView,
)
    ensures
        plain_text(seq![first, second, third]) == first.text + second.text + third.text,
{
    let texts = seq![first, second, third].map_values(|part: MessagePartView| part.text);
    assert(texts =~= Seq::<Seq<char>>::empty().push(first.text).push(second.text).push(third.text));
    let none = Seq::<Seq<char>>::empty();
    none.lemma_flatten_push(first.text);
    none.push(first.text).lemma_flatten_push(second.text);
    none.push(first.text).push(second.text).lemma_flatten_push(third.text);
    assert(none.flatten() =~= Seq::<char>::empty());
    assert(texts.flatten() =~= first.text + second.text + third.text);
}

} // verus!
