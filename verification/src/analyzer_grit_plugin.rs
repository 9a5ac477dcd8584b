//! Analyzer plugins written as pattern queries: how one is loaded, and what
//! the host reports after running it on a file.
//!
//! Reading the plugin's source, compiling it and executing the compiled query
//! are the work of the host and of the pattern engine. This module decides
//! what the compiler is asked for, what becomes of its answer, and which
//! diagnostics a run amounts to.

use crate::diagnostic::{
    lemma_plain_text_of_three, Category, Diagnostic, DiagnosticView, MarkupStyle, MessagePart,
    MessagePartView, Severity, TextRange,
};
use crate::engine::{
    describes, log_at, log_entries, logs_len, pattern_error_text, ByteRange, LogEntry,
    LogEntryView,
};
use crate::registrar::{builtin, builtin_view, Builtin};
use grit_util::error::GritPatternError;
use grit_util::AnalysisLogs;
use std::rc::Rc;
use vstd::prelude::*;

verus! {

/// The display name of a plugin whose source declares none.
pub const ANONYMOUS: &'static str = "anonymous";

/// What stands between a plugin's name and the message of one of its logs.
pub const LOGGED: &'static str = " logged: ";

/// What stands between a plugin's name and the text of the error that ended
/// its run.
pub const ERRORED: &'static str = " errored: ";

/// What a successful run of a compiled query leaves behind.
#[derive(Debug)]
pub struct ExecutionResult {
    /// The logs that the engine emitted, in its order.
    pub logs: AnalysisLogs,
    /// The diagnostics that the plugin registered, in the order of the calls.
    pub diagnostics: Vec<Diagnostic>,
}

/// The position that the host gives to an engine range: the same two byte
/// offsets.
pub open spec fn text_range_of(range: ByteRange) -> TextRange {
    TextRange { start: range.start_byte, end: range.end_byte }
}

/// The diagnostic that reports one log of the plugin called `name`.
pub open spec fn log_diagnostic_view(name: Seq<char>, entry: LogEntryView) -> DiagnosticView {
    DiagnosticView {
        category: Category::Plugin,
        span: match entry.range {
            Some(range) => Some(text_range_of(range)),
            None => None,
        },
        severity: Severity::Verbose,
        message: seq![
            MessagePartView { style: MarkupStyle::Emphasis, text: name },
            MessagePartView { style: MarkupStyle::Plain, text: LOGGED@ },
            MessagePartView { style: MarkupStyle::Info, text: entry.message },
        ],
    }
}

/// The diagnostic that reports that the run of the plugin called `name`
/// failed with an error that reads `error_text`.
pub open spec fn failure_diagnostic_view(name: Seq<char>, error_text: Seq<char>) -> DiagnosticView {
    DiagnosticView {
        category: Category::Plugin,
        span: None,
        severity: Severity::Error,
        message: seq![
            MessagePartView { style: MarkupStyle::Emphasis, text: name },
            MessagePartView { style: MarkupStyle::Plain, text: ERRORED@ },
            MessagePartView { style: MarkupStyle::Error, text: error_text },
        ],
    }
}

/// What the host reports after a successful run: one diagnostic for each
/// log, in the order of the logs, and after them the registered diagnostics,
/// untouched and in their order.
pub open spec fn evaluation(
    name: Seq<char>,
    logs: Seq<LogEntryView>,
    registered: Seq<DiagnosticView>,
) -> Seq<DiagnosticView> {
    logs.map_values(|entry: LogEntryView| log_diagnostic_view(name, entry)) + registered
}

/// Converts a range of the engine into a position of the host. The offsets
/// are taken over as they are.
pub fn from_grit_range(range: ByteRange) -> (position: TextRange)
    ensures
        position == text_range_of(range),
{
    TextRange::new(range.start_byte, range.end_byte)
}

/// Builds the diagnostic that reports one log of the plugin called `name`.
pub fn log_diagnostic(name: &str, entry: &LogEntry) -> (diagnostic: Diagnostic)
    ensures
        diagnostic.deep_view() == log_diagnostic_view(name@, entry.deep_view()),
{
    let span = match entry.range {
        Some(range) => Some(from_grit_range(range)),
        None => None,
    };
    let mut message: Vec<MessagePart> = Vec::new();
    message.push(MessagePart::new(MarkupStyle::Emphasis, name));
    message.push(MessagePart::new(MarkupStyle::Plain, LOGGED));
    message.push(MessagePart::new(MarkupStyle::Info, entry.message.as_str()));
    let diagnostic = Diagnostic {
        category: Category::Plugin,
        span,
        severity: Severity::Verbose,
        message,
    };
    assert(diagnostic.deep_view().message =~= log_diagnostic_view(
        name@,
        entry.deep_view(),
    ).message);
    diagnostic
}

/// Builds the diagnostic that reports a failed run of the plugin called
/// `name`.
pub fn failure_diagnostic(name: &str, error_text: &str) -> (diagnostic: Diagnostic)
    ensures
        diagnostic.deep_view() == failure_diagnostic_view(name@, error_text@),
{
    let mut message: Vec<MessagePart> = Vec::new();
    message.push(MessagePart::new(MarkupStyle::Emphasis, name));
    message.push(MessagePart::new(MarkupStyle::Plain, ERRORED));
    message.push(MessagePart::new(MarkupStyle::Error, error_text));
    let diagnostic = Diagnostic {
        category: Category::Plugin,
        span: None,
        severity: Severity::Error,
        message,
    };
    assert(diagnostic.deep_view().message =~= failure_diagnostic_view(name@, error_text@).message);
    diagnostic
}

/// What the pattern compiler is asked to compile for one plugin.
#[derive(Debug)]
pub struct CompileRequest<P, L> {
    /// The plugin's source, as it was read.
    pub source: String,
    /// Where the source was read from, for the compiler's error messages.
    pub path: Option<P>,
    /// The language of the files that the plugin is to be run on.
    pub language: L,
    /// The host functions that the plugin's patterns may call.
    pub builtins: Vec<Builtin>,
}

impl<P, L> CompileRequest<P, L> {
    /// The request for the plugin read from `path`. The source and the
    /// language are handed on as given; the table of builtins holds the
    /// declaration of `register_diagnostic` and nothing else.
    pub fn new(source: String, path: P, language: L) -> (request: Self)
        ensures
            request.source == source,
            request.path == Some(path),
            request.language == language,
            request.builtins.deep_view() == seq![builtin_view()],
    {
        let mut builtins: Vec<Builtin> = Vec::new();
        builtins.push(builtin());
        assert(builtins.deep_view() =~= seq![builtin_view()]);
        CompileRequest { source, path: Some(path), language, builtins }
    }
}

/// A compiled query together with the name that the plugin's source gives
/// itself, if it gives one.
#[derive(Debug)]
pub struct CompiledQuery<Q> {
    pub query: Q,
    pub name: Option<String>,
}

/// Why a plugin could not be loaded.
#[derive(Debug, PartialEq, Eq)]
pub enum LoadError<I, C> {
    /// The plugin's source could not be read; holds the reader's error.
    Io(I),
    /// The plugin's source did not compile; holds the compiler's error.
    Compile(C),
}

/// Definition of an analyzer plugin: a compiled query behind a shared
/// handle. Nothing of it changes after it is loaded.
#[derive(Debug)]
pub struct AnalyzerGritPlugin<Q> {
    grit_query: Rc<Q>,
    name: Option<String>,
}

/// `Rc::clone`: one more handle to the value that `handle` points to.
#[verifier::external_body]
fn share<Q>(handle: &Rc<Q>) -> (shared: Rc<Q>)
    ensures
        shared == *handle,
{
    Rc::clone(handle)
}

impl<Q> Clone for AnalyzerGritPlugin<Q> {
    /// Another holder of the same plugin: the compiled query is shared, not
    /// copied.
    fn clone(&self) -> (copy: Self)
        ensures
            copy.query() == self.query(),
            copy.declared_name() == self.declared_name(),
    {
        AnalyzerGritPlugin { grit_query: share(&self.grit_query), name: self.name.clone() }
    }
}

impl<Q> AnalyzerGritPlugin<Q> {
    /// The compiled query.
    pub closed spec fn query(&self) -> Q {
        *self.grit_query
    }

    /// The name that the plugin's source declares, if any.
    pub closed spec fn declared_name(&self) -> Option<Seq<char>> {
        self.name.deep_view()
    }

    /// The name under which the plugin shows in messages: the declared
    /// name, or [`ANONYMOUS`].
    pub open spec fn display_name(&self) -> Seq<char> {
        match self.declared_name() {
            Some(name) => name,
            None => ANONYMOUS@,
        }
    }

    /// Ends the loading of a plugin. `outcome` is what reading the source
    /// gave and, where it could be read, what compiling it gave. A read
    /// error and a compile error are handed on as they came; a compiled
    /// query becomes a plugin with the name that came with the query.
    pub fn load<I, C>(outcome: Result<Result<CompiledQuery<Q>, C>, I>) -> (result: Result<
        Self,
        LoadError<I, C>,
    >)
        ensures
            match outcome {
                Ok(Ok(compiled)) => {
                    &&& result matches Ok(plugin)
                    &&& plugin.query() == compiled.query
                    &&& plugin.declared_name() == compiled.name.deep_view()
                    &&& plugin.display_name() == match compiled.name {
                        Some(name) => name@,
                        None => ANONYMOUS@,
                    }
                },
                Ok(Err(error)) => result matches Err(LoadError::Compile(handed_on))
                    && handed_on == error,
                Err(error) => result matches Err(LoadError::Io(handed_on)) && handed_on == error,
            },
    {
        match outcome {
            Ok(Ok(compiled)) => Ok(
                AnalyzerGritPlugin { grit_query: Rc::new(compiled.query), name: compiled.name },
            ),
            Ok(Err(error)) => Err(LoadError::Compile(error)),
            Err(error) => Err(LoadError::Io(error)),
        }
    }

    /// The compiled query, for the host to execute.
    pub fn grit_query(&self) -> (query: &Q)
        ensures
            *query == self.query(),
    {
        &*self.grit_query
    }

    /// The plugin's display name.
    pub fn name(&self) -> (name: &str)
        ensures
            name@ == self.display_name(),
    {
        match &self.name {
            Some(name) => name.as_str(),
            None => ANONYMOUS,
        }
    }

    /// Turns the outcome of one execution of the query into what the host
    /// reports.
    ///
    /// After a successful run these are the logs, each as a verbose
    /// diagnostic, followed by the registered diagnostics. After a failed
    /// run it is the one diagnostic that carries the error's text; what the
    /// error displays is not known here beyond what [`describes`] says.
    pub fn evaluate(&self, outcome: Result<ExecutionResult, GritPatternError>) -> (diagnostics: Vec<
        Diagnostic,
    >)
        ensures
            match outcome {
                Ok(result) => diagnostics.deep_view() == evaluation(
                    self.display_name(),
                    log_entries(result.logs),
                    result.diagnostics.deep_view(),
                ),
                Err(error) => exists|text: Seq<char>|
                    describes(text, error) && diagnostics.deep_view() == seq![
                        failure_diagnostic_view(self.display_name(), text),
                    ],
            },
    {
        let name = self.name();
        match outcome {
            Ok(result) => {
                let logs = result.logs;
                let mut registered = result.diagnostics;
                let ghost entries = log_entries(logs);
                let ghost reported = entries.map_values(
                    |entry: LogEntryView| log_diagnostic_view(name@, entry),
                );
                let mut diagnostics: Vec<Diagnostic> = Vec::new();
                let count = logs_len(&logs);
                let mut index: usize = 0;
                while index < count
                    invariant
                        index <= count,
                        count == entries.len(),
                        entries == log_entries(logs),
                        reported == entries.map_values(
                            |entry: LogEntryView| log_diagnostic_view(name@, entry),
                        ),
                        diagnostics.deep_view() == reported.take(index as int),
                    decreases count - index,
                {
                    let entry = log_at(&logs, index);
                    let diagnostic = log_diagnostic(name, &entry);
                    let ghost before = diagnostics.deep_view();
                    diagnostics.push(diagnostic);
                    assert(diagnostics.deep_view() =~= before.push(reported[index as int]));
                    index += 1;
                }
                assert(reported.take(index as int) =~= reported);
                let ghost before = diagnostics.deep_view();
                diagnostics.append(&mut registered);
                assert(diagnostics.deep_view() =~= before + result.diagnostics.deep_view());
                diagnostics
            },
            Err(error) => {
                let text = pattern_error_text(&error);
                let mut diagnostics: Vec<Diagnostic> = Vec::new();
                diagnostics.push(failure_diagnostic(name, text.as_str()));
                assert(diagnostics.deep_view() =~= seq![
                    failure_diagnostic_view(self.display_name(), text@),
                ]);
                diagnostics
            },
        }
    }
}

/// A run with `N` logs and `M` registered diagnostics is reported as `N + M`
/// diagnostics: first the logs, each as its own diagnostic and in the order in
/// which the engine emitted them, then the registered diagnostics, untouched
/// and in the order in which they were registered.
pub proof fn lemma_evaluation_order(
    name: Seq<char>,
    logs: Seq<LogEntryView>,
    registered: Seq<DiagnosticView>,
)
    ensures
        evaluation(name, logs, registered).len() == logs.len() + registered.len(),
        forall|i: int|
            0 <= i < logs.len() ==> #[trigger] evaluation(name, logs, registered)[i]
                == log_diagnostic_view(name, logs[i]),
        forall|i: int|
            logs.len() <= i < logs.len() + registered.len() ==> #[trigger] evaluation(
                name,
                logs,
                registered,
            )[i] == registered[i - logs.len()],
{
}

/// What the diagnostic of a log says and where it points: the plugin's name,
/// `" logged: "` and the log's message; at the log's own byte offsets, if
/// the log has a range.
pub proof fn lemma_log_diagnostic(name: Seq<char>, entry: LogEntryView)
    ensures
        log_diagnostic_view(name, entry).text() == name + LOGGED@ + entry.message,
        entry.range matches Some(range) ==> log_diagnostic_view(name, entry).span matches Some(
            position,
        ) && position.start == range.start_byte && position.end == range.end_byte,
        entry.range is None ==> log_diagnostic_view(name, entry).span is None,
{
    let message = log_diagnostic_view(name, entry).message;
    lemma_plain_text_of_three(message[0], message[1], message[2]);
    assert(message =~= seq![message[0], message[1], message[2]]);
}

/// What the diagnostic of a failed run says: the plugin's name, `" errored: "`
/// and the text of the error.
pub proof fn lemma_failure_diagnostic(name: Seq<char>, error_text: Seq<char>)
    ensures
        failure_diagnostic_view(name, error_text).text() == name + ERRORED@ + error_text,
{
    let message = failure_diagnostic_view(name, error_text).message;
    lemma_plain_text_of_three(message[0], message[1], message[2]);
    assert(message =~= seq![message[0], message[1], message[2]]);
}

} // verus!
