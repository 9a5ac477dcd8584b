//! What this crate takes from the pattern engine's own crates: its log
//! collection, its error type and its literal constants.
//!
//! Values of these types are opaque to the verifier. Each function below
//! makes one call into the engine's crates, and its contract is taken on
//! trust from their source.

use grit_pattern_matcher::constant::Constant;
use grit_util::error::GritPatternError;
use grit_util::{AnalysisLog, AnalysisLogs};
use vstd::prelude::*;

verus! {

/// The byte offsets of a range reported by the pattern engine.
#[derive(Clone, Copy, Debug, PartialEq, Eq, Structural)]
pub struct ByteRange {
    pub start_byte: u32,
    pub end_byte: u32,
}

/// One log emitted by the pattern engine: where it points, if anywhere, and
/// what it says.
#[derive(Clone, Debug, PartialEq, Eq)]
pub struct LogEntry {
    pub range: Option<ByteRange>,
    pub message: String,
}

/// A [`LogEntry`] as the contracts see it.
#[verifier::ext_equal]
pub ghost struct LogEntryView {
    pub range: Option<ByteRange>,
    pub message: Seq<char>,
}

impl DeepView for LogEntry {
    type V = LogEntryView;

    open spec fn deep_view(&self) -> LogEntryView {
        LogEntryView { range: self.range, message: self.message@ }
    }
}

/// `grit_util::AnalysisLog`, one log as the engine keeps it. It is named here
/// only because `AnalysisLogs` dereferences to a vector of it.
#[verifier::external_type_specification]
#[verifier::external_body]
pub struct ExAnalysisLog(AnalysisLog);

/// `grit_util::AnalysisLogs`, the ordered collection of logs that a run of the
/// engine leaves behind.
#[verifier::external_type_specification]
#[verifier::external_body]
pub struct ExAnalysisLogs(AnalysisLogs);

/// The logs that an `AnalysisLogs` holds, in the order of its vector, which is
/// the order in which the engine emitted them. Of each log only the byte
/// offsets of its `range` and its `message` are kept.
pub uninterp spec fn log_entries(logs: AnalysisLogs) -> Seq<LogEntryView>;

/// `Vec::len` on the vector that `AnalysisLogs` dereferences to: the number of
/// logs in the collection.
#[verifier::external_body]
pub(crate) fn logs_len(logs: &AnalysisLogs) -> (len: usize)
    ensures
        len == log_entries(*logs).len(),
{
    logs.len()
}

/// Indexing of the vector that `AnalysisLogs` dereferences to: the log at
/// `index`, with the `start_byte` and `end_byte` of its `range` and a copy of
/// its `message`.
#[verifier::external_body]
pub(crate) fn log_at(logs: &AnalysisLogs, index: usize) -> (entry: LogEntry)
    requires
        index < log_entries(*logs).len(),
    ensures
        entry.deep_view() == log_entries(*logs)[index as int],
{
    let log = &logs[index];
    LogEntry {
        range: log.range.map(|range| ByteRange { start_byte: range.start_byte, end_byte: range.end_byte }),
        message: log.message.clone(),
    }
}

/// `grit_util::error::GritPatternError`, the error with which the engine
/// aborts the evaluation of a pattern.
#[verifier::external_type_specification]
#[verifier::external_body]
pub struct ExGritPatternError(GritPatternError);

/// The error that `GritPatternError::new` makes of a reason: its `Generic`
/// variant, holding the reason.
pub uninterp spec fn generic_pattern_error(reason: Seq<char>) -> GritPatternError;

/// Whether `text` can be what `error` displays. An error made by
/// `GritPatternError::new` displays its reason and nothing else; of the other
/// errors nothing is said.
pub open spec fn describes(text: Seq<char>, error: GritPatternError) -> bool {
    forall|reason: Seq<char>| error == #[trigger] generic_pattern_error(reason) ==> text == reason
}

/// `GritPatternError::new`: the generic error that holds `reason`.
#[verifier::external_body]
pub(crate) fn new_pattern_error(reason: &str) -> (error: GritPatternError)
    ensures
        error == generic_pattern_error(reason@),
{
    GritPatternError::new(reason)
}

/// `ToString::to_string` on a `GritPatternError`, that is its `Display`: for
/// the `Generic` variant the format is `"{0}"`, the reason as it stands. What
/// the other variants display is left open.
#[verifier::external_body]
pub(crate) fn pattern_error_text(error: &GritPatternError) -> (text: String)
    ensures
        describes(text@, *error),
{
    error.to_string()
}

/// `grit_pattern_matcher::constant::Constant`, a literal of the pattern
/// language: a boolean, a string, an integer, a float or undefined.
#[verifier::external_type_specification]
#[verifier::external_body]
pub struct ExConstant(Constant);

/// The string form of a constant, as its `Display` writes it.
pub uninterp spec fn constant_text(constant: Constant) -> Seq<char>;

/// `ToString::to_string` on a `Constant`, that is its `Display`, which writes
/// the value the constant holds and nothing for the undefined constant.
#[verifier::external_body]
pub(crate) fn constant_to_string(constant: &Constant) -> (text: String)
    ensures
        text@ == constant_text(*constant),
{
    constant.to_string()
}

} // verus!
