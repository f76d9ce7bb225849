//! From the compiler's log to diagnostics.
//!
//! The compiler reports a problem on two lines that need not be adjacent: a
//! message line (`error: ...`) and, later, an anchor line (`l.` and a line
//! number). The log is scanned once, line by line, with one slot for the
//! message that waits for its anchor.

use crate::diagnostic::{diagnostics, CompileError, Diagnostic};
use crate::pattern::{
    capture_group, captured_group, compile_pattern, pattern_accepted, CompiledPattern,
};
use crate::text::{
    lines, lines_of, optional_text, parse_u32, parsed_u32, texts, trim, trimmed,
};
use vstd::prelude::*;

verus! {

/// The pattern of a message line. Its first group holds the message.
pub const MESSAGE_PATTERN: &'static str = "^error:\\s*(.*)$";

/// The pattern of an anchor line. Its first group holds the line number.
pub const ANCHOR_PATTERN: &'static str = "^l\\.(\\d+)";

/// The message of an anchor that no message line waits for.
pub const DEFAULT_MESSAGE: &'static str = "Compilation error";

/// One of the two patterns that lines are matched against.
#[derive(Clone, Copy, Debug, PartialEq, Eq, Structural)]
pub enum LineRule {
    Message,
    Anchor,
}

/// A line pattern that the `regex` crate refused.
#[derive(Debug)]
pub struct RuleError {
    pub rule: LineRule,
    pub cause: regex::Error,
}

/// What a line of the log is, as mathematical values.
pub enum LineClass {
    /// A message line, with its message.
    Message(Seq<char>),
    /// An anchor line, with the line number it names.
    Anchor(u32),
    /// Any other line.
    Other,
}

/// What a line of the log is.
#[derive(Clone, Debug, PartialEq, Eq)]
pub enum LineKind {
    /// A message line, with its message.
    Message(String),
    /// An anchor line, with the line number it names.
    Anchor(u32),
    /// Any other line.
    Other,
}

impl View for LineKind {
    type V = LineClass;

    open spec fn view(&self) -> LineClass {
        match self {
            LineKind::Message(m) => LineClass::Message(m@),
            LineKind::Anchor(n) => LineClass::Anchor(*n),
            LineKind::Other => LineClass::Other,
        }
    }
}

/// The classes that a list of line kinds stands for, in order.
pub open spec fn classes(kinds: Seq<LineKind>) -> Seq<LineClass> {
    kinds.map_values(|k: LineKind| k@)
}

/// The line number that the digits of an anchor denote: their value, or 0
/// where they are no number that fits.
pub open spec fn line_number(digits: Seq<char>) -> u32 {
    match parsed_u32(digits) {
        Some(n) => n,
        None => 0,
    }
}

/// The class of a line, given what the two patterns captured in it. The
/// message pattern is asked first.
pub open spec fn class_from_captures(
    message: Option<Seq<char>>,
    anchor: Option<Seq<char>>,
) -> LineClass {
    match message {
        Some(m) => LineClass::Message(trimmed(m)),
        None => match anchor {
            Some(digits) => LineClass::Anchor(line_number(digits)),
            None => LineClass::Other,
        },
    }
}

/// The class of a line that has no white space around it.
pub open spec fn line_class(line: Seq<char>) -> LineClass {
    class_from_captures(
        captured_group(MESSAGE_PATTERN@, line, 1),
        captured_group(ANCHOR_PATTERN@, line, 1),
    )
}

/// The classes of the lines of a log, each line taken without the white
/// space around it.
pub open spec fn classes_of(log: Seq<char>) -> Seq<LineClass> {
    lines_of(log).map_values(|line: Seq<char>| line_class(trimmed(line)))
}

/// The scanner's state: what it has emitted, and the message that waits for
/// an anchor.
pub struct ScanState {
    pub emitted: Seq<Diagnostic>,
    pub pending: Option<Seq<char>>,
}

/// The message of a diagnostic whose anchor finds `pending` waiting.
pub open spec fn message_for(pending: Option<Seq<char>>) -> Seq<char> {
    match pending {
        Some(m) => m,
        None => DEFAULT_MESSAGE@,
    }
}

/// The scanner's state after one more line. A message replaces the one that
/// waits; an anchor emits a diagnostic and leaves none waiting; any other
/// line changes nothing.
pub open spec fn scan_step(state: ScanState, class: LineClass) -> ScanState {
    match class {
        LineClass::Message(m) => ScanState { emitted: state.emitted, pending: Some(m) },
        LineClass::Anchor(n) => ScanState {
            emitted: state.emitted.push(Diagnostic::at_line(n, message_for(state.pending))),
            pending: None,
        },
        LineClass::Other => state,
    }
}

/// The scanner's state after the given lines.
pub open spec fn scanned(lines: Seq<LineClass>) -> ScanState
    decreases lines.len(),
{
    if lines.len() == 0 {
        ScanState { emitted: Seq::empty(), pending: None }
    } else {
        scan_step(scanned(lines.drop_last()), lines.last())
    }
}

/// The diagnostics of a scan, or, where it found none, the one diagnostic
/// that carries the whole log.
pub open spec fn or_whole_log(found: Seq<Diagnostic>, log: Seq<char>) -> Seq<Diagnostic> {
    if found.len() == 0 {
        seq![Diagnostic::unlocalized(trimmed(log))]
    } else {
        found
    }
}

/// The diagnostics that a log yields.
pub open spec fn diagnostics_of(log: Seq<char>) -> Seq<Diagnostic> {
    or_whole_log(scanned(classes_of(log)).emitted, log)
}

/// The line number that the digits of an anchor denote.
pub fn line_number_from(digits: &str) -> (n: u32)
    ensures
        n == line_number(digits@),
{
    match parse_u32(digits) {
        Some(n) => n,
        None => 0,
    }
}

/// The kind of a line, given what the two patterns captured in it.
pub fn classify_captures(message: Option<String>, anchor: Option<String>) -> (kind: LineKind)
    ensures
        kind@ == class_from_captures(optional_text(message), optional_text(anchor)),
{
    match message {
        Some(m) => LineKind::Message(trim(m.as_str())),
        None => match anchor {
            Some(digits) => LineKind::Anchor(line_number_from(digits.as_str())),
            None => LineKind::Other,
        },
    }
}

/// Whether the `regex` crate accepts both line patterns.
pub open spec fn rules_accepted() -> bool {
    pattern_accepted(MESSAGE_PATTERN@) && pattern_accepted(ANCHOR_PATTERN@)
}

/// The rule that is reported where the line patterns are not both accepted:
/// the message pattern is compiled first.
pub open spec fn refused_rule() -> LineRule {
    if pattern_accepted(MESSAGE_PATTERN@) {
        LineRule::Anchor
    } else {
        LineRule::Message
    }
}

/// The two line patterns, compiled. They are compiled once and then serve
/// for every line.
#[derive(Debug)]
pub struct LineRules {
    message: CompiledPattern,
    anchor: CompiledPattern,
}

impl LineRules {
    #[verifier::type_invariant]
    spec fn holds_the_line_patterns(self) -> bool {
        self.message@ == MESSAGE_PATTERN@ && self.anchor@ == ANCHOR_PATTERN@
    }

    /// Compiles the two line patterns, the message pattern first. Succeeds
    /// exactly where the `regex` crate accepts both, and otherwise names
    /// the first that it refused.
    pub fn compile() -> (r: Result<LineRules, RuleError>)
        ensures
            r is Ok <==> rules_accepted(),
            r matches Err(e) ==> e.rule == refused_rule(),
    {
        let message = match compile_pattern(MESSAGE_PATTERN) {
            Ok(compiled) => compiled,
            Err(cause) => {
                return Err(RuleError { rule: LineRule::Message, cause });
            },
        };
        let anchor = match compile_pattern(ANCHOR_PATTERN) {
            Ok(compiled) => compiled,
            Err(cause) => {
                return Err(RuleError { rule: LineRule::Anchor, cause });
            },
        };
        Ok(LineRules { message, anchor })
    }

    /// The kind of a line that has no white space around it. The anchor
    /// pattern is tried only where the message pattern finds nothing.
    pub fn classify(&self, line: &str) -> (kind: LineKind)
        ensures
            kind@ == line_class(line@),
    {
        proof {
            use_type_invariant(self);
        }
        let message = capture_group(&self.message, line, 1);
        let anchor = if message.is_some() {
            None
        } else {
            capture_group(&self.anchor, line, 1)
        };
        classify_captures(message, anchor)
    }

    /// The kinds of the lines of a log, each line taken without the white
    /// space around it.
    pub fn classify_all(&self, log: &str) -> (kinds: Vec<LineKind>)
        ensures
            classes(kinds@) == classes_of(log@),
    {
        let all = lines(log);
        let mut kinds: Vec<LineKind> = Vec::new();
        let mut i: usize = 0;
        while i < all.len()
            invariant
                i <= all.len(),
                texts(all@) == lines_of(log@),
                classes(kinds@) == classes_of(log@).take(i as int),
            decreases all.len() - i,
        {
            let line = trim(all[i].as_str());
            let kind = self.classify(line.as_str());
            proof {
                assert(texts(all@)[i as int] == all@[i as int]@);
                assert(classes(kinds@.push(kind)) =~= classes(kinds@).push(kind@));
                assert(classes_of(log@).take(i + 1) =~= classes_of(log@).take(i as int).push(
                    kind@,
                ));
            }
            kinds.push(kind);
            i += 1;
        }
        proof {
            assert(classes_of(log@).take(i as int) =~= classes_of(log@));
        }
        kinds
    }

    /// The diagnostics of a compiler log: one for each anchor line, in the
    /// order of the log, or one for the whole log where it has no anchor
    /// line.
    pub fn extract(&self, log: &str) -> (found: Vec<CompileError>)
        ensures
            diagnostics(found@) == diagnostics_of(log@),
            found@.len() >= 1,
    {
        let kinds = self.classify_all(log);
        or_fallback(scan(&kinds), log)
    }
}

/// The kind of a line that has no white space around it. Compiles the line
/// patterns for this one line; fails exactly where the `regex` crate does
/// not accept both.
pub fn classify_line(line: &str) -> (r: Result<LineKind, RuleError>)
    ensures
        r is Ok <==> rules_accepted(),
        r matches Ok(kind) ==> kind@ == line_class(line@),
        r matches Err(e) ==> e.rule == refused_rule(),
{
    match LineRules::compile() {
        Ok(rules) => Ok(rules.classify(line)),
        Err(e) => Err(e),
    }
}

/// The kinds of the lines of a log. Compiles the line patterns once; fails
/// exactly where the `regex` crate does not accept both.
pub fn classify_log(log: &str) -> (r: Result<Vec<LineKind>, RuleError>)
    ensures
        r is Ok <==> rules_accepted(),
        r matches Ok(kinds) ==> classes(kinds@) == classes_of(log@),
        r matches Err(e) ==> e.rule == refused_rule(),
{
    match LineRules::compile() {
        Ok(rules) => Ok(rules.classify_all(log)),
        Err(e) => Err(e),
    }
}

/// Runs the scanner over classified lines and hands out what it emits.
pub fn scan(kinds: &Vec<LineKind>) -> (found: Vec<CompileError>)
    ensures
        diagnostics(found@) == scanned(classes(kinds@)).emitted,
{
    let mut found: Vec<CompileError> = Vec::new();
    let mut pending: Option<String> = None;
    let mut i: usize = 0;
    proof {
        assert(classes(kinds@).take(0) =~= Seq::<LineClass>::empty());
        assert(diagnostics(found@) =~= Seq::<Diagnostic>::empty());
    }
    while i < kinds.len()
        invariant
            i <= kinds.len(),
            diagnostics(found@) == scanned(classes(kinds@).take(i as int)).emitted,
            optional_text(pending) == scanned(classes(kinds@).take(i as int)).pending,
        decreases kinds.len() - i,
    {
        let ghost before = classes(kinds@).take(i as int);
        let ghost upto = classes(kinds@).take(i + 1);
        proof {
            assert(upto.drop_last() =~= before);
            assert(upto.last() == kinds@[i as int]@);
        }
        match &kinds[i] {
            LineKind::Message(m) => {
                pending = Some(m.clone());
            },
            LineKind::Anchor(n) => {
                let message = match pending {
                    Some(m) => m,
                    None => DEFAULT_MESSAGE.to_string(),
                };
                let error = CompileError::at_line(*n, message);
                proof {
                    assert(diagnostics(found@.push(error)) =~= diagnostics(found@).push(error@));
                }
                found.push(error);
                pending = None;
            },
            LineKind::Other => {},
        }
        i += 1;
    }
    proof {
        assert(classes(kinds@).take(i as int) =~= classes(kinds@));
    }
    found
}

/// Keeps what a scan found, or, where it found nothing, reports the whole
/// log, without the white space around it, as one error that belongs to no
/// line.
pub fn or_fallback(found: Vec<CompileError>, log: &str) -> (r: Vec<CompileError>)
    ensures
        diagnostics(r@) == or_whole_log(diagnostics(found@), log@),
        r@.len() >= 1,
{
    if found.len() == 0 {
        let whole = trim(log);
        let error = CompileError::simple(whole.as_str());
        let mut r: Vec<CompileError> = Vec::new();
        r.push(error);
        proof {
            assert(diagnostics(r@) =~= seq![Diagnostic::unlocalized(trimmed(log@))]);
        }
        r
    } else {
        found
    }
}

/// The diagnostics of a compiler log: one for each anchor line, in the
/// order of the log, or one for the whole log where it has no anchor line.
/// Compiles the line patterns once; fails exactly where the `regex` crate
/// does not accept both, whatever the log holds.
pub fn extract_diagnostics(log: &str) -> (r: Result<Vec<CompileError>, RuleError>)
    ensures
        r is Ok <==> rules_accepted(),
        r matches Ok(found) ==> diagnostics(found@) == diagnostics_of(log@) && found@.len() >= 1,
        r matches Err(e) ==> e.rule == refused_rule(),
{
    match LineRules::compile() {
        Ok(rules) => Ok(rules.extract(log)),
        Err(e) => Err(e),
    }
}

/// What the scanner has emitted after the first `k` lines is still there,
/// in the same places, after all of them.
pub proof fn lemma_emitted_is_kept(lines: Seq<LineClass>, k: int)
    requires
        0 <= k <= lines.len(),
    ensures
        scanned(lines.take(k)).emitted.len() <= scanned(lines).emitted.len(),
        scanned(lines.take(k)).emitted == scanned(lines).emitted.take(
            scanned(lines.take(k)).emitted.len() as int,
        ),
    decreases lines.len() - k,
{
    if k < lines.len() {
        lemma_emitted_is_kept(lines.drop_last(), k);
        assert(lines.drop_last().take(k) =~= lines.take(k));
        let shorter = scanned(lines.drop_last()).emitted;
        let n = scanned(lines.take(k)).emitted.len() as int;
        assert(scanned(lines).emitted.take(n) =~= shorter.take(n));
    } else {
        assert(lines.take(k) =~= lines);
        assert(scanned(lines).emitted.take(scanned(lines).emitted.len() as int) =~= scanned(
            lines,
        ).emitted);
    }
}

/// An anchor at line `j` yields one diagnostic. It stands after those of the
/// earlier anchors and carries the anchor's line number and the message that
/// waited when the scanner reached the anchor.
pub proof fn lemma_anchor_emits(lines: Seq<LineClass>, j: int, n: u32)
    requires
        0 <= j < lines.len(),
        lines[j] == LineClass::Anchor(n),
    ensures
        scanned(lines.take(j)).emitted.len() < scanned(lines).emitted.len(),
        scanned(lines).emitted[scanned(lines.take(j)).emitted.len() as int] == Diagnostic::at_line(
            n,
            message_for(scanned(lines.take(j)).pending),
        ),
{
    let upto = lines.take(j + 1);
    assert(upto.drop_last() =~= lines.take(j));
    assert(upto.last() == lines[j]);
    lemma_emitted_is_kept(lines, j + 1);
    let at = scanned(lines.take(j)).emitted.len() as int;
    assert(scanned(upto).emitted[at] == scanned(lines).emitted.take(
        scanned(upto).emitted.len() as int,
    )[at]);
}

/// A message at line `i` still waits before line `j` where every line
/// between the two is neither a message nor an anchor.
pub proof fn lemma_message_waits(lines: Seq<LineClass>, i: int, j: int, message: Seq<char>)
    requires
        0 <= i < j <= lines.len(),
        lines[i] == LineClass::Message(message),
        forall|k: int| i < k < j ==> #[trigger] lines[k] == LineClass::Other,
    ensures
        scanned(lines.take(j)).pending == Some(message),
    decreases j - i,
{
    let upto = lines.take(j);
    assert(upto.drop_last() =~= lines.take(j - 1));
    assert(upto.last() == lines[j - 1]);
    if j - 1 > i {
        lemma_message_waits(lines, i, j - 1, message);
    }
}

/// No message waits before line `j` where each message before it is
/// followed, still before `j`, by an anchor.
pub proof fn lemma_nothing_waits(lines: Seq<LineClass>, j: int)
    requires
        0 <= j <= lines.len(),
        forall|i: int|
            0 <= i < j && #[trigger] lines[i] is Message ==> exists|k: int|
                i < k < j && #[trigger] lines[k] is Anchor,
    ensures
        scanned(lines.take(j)).pending is None,
    decreases j,
{
    if j > 0 {
        let upto = lines.take(j);
        assert(upto.drop_last() =~= lines.take(j - 1));
        assert(upto.last() == lines[j - 1]);
        if lines[j - 1] is Message {
            let k = choose|k: int| j - 1 < k < j && #[trigger] lines[k] is Anchor;
            assert(false);
        } else if lines[j - 1] is Other {
            assert forall|i: int| 0 <= i < j - 1 && #[trigger] lines[i] is Message implies exists|
                k: int,
            |
                i < k < j - 1 && #[trigger] lines[k] is Anchor by {
                let k = choose|k: int| i < k < j && #[trigger] lines[k] is Anchor;
                assert(k != j - 1);
                assert(lines[k] is Anchor);
            }
            lemma_nothing_waits(lines, j - 1);
        }
    }
}

/// A message line and a later anchor line, with no message or anchor line
/// between them, yield a diagnostic with that message and that line number.
pub proof fn lemma_pair_is_reported(
    lines: Seq<LineClass>,
    i: int,
    j: int,
    message: Seq<char>,
    n: u32,
)
    requires
        0 <= i < j < lines.len(),
        lines[i] == LineClass::Message(message),
        lines[j] == LineClass::Anchor(n),
        forall|k: int| i < k < j ==> #[trigger] lines[k] == LineClass::Other,
    ensures
        scanned(lines).emitted.contains(Diagnostic::at_line(n, message)),
{
    lemma_message_waits(lines, i, j, message);
    lemma_anchor_emits(lines, j, n);
}

/// A log with a message line and a later anchor line, with no message or
/// anchor line between them, yields a diagnostic with that message and that
/// line number.
pub proof fn lemma_log_pair_is_reported(log: Seq<char>, i: int, j: int, message: Seq<char>, n: u32)
    requires
        0 <= i < j < classes_of(log).len(),
        classes_of(log)[i] == LineClass::Message(message),
        classes_of(log)[j] == LineClass::Anchor(n),
        forall|k: int| i < k < j ==> #[trigger] classes_of(log)[k] == LineClass::Other,
    ensures
        diagnostics_of(log).contains(Diagnostic::at_line(n, message)),
{
    lemma_pair_is_reported(classes_of(log), i, j, message, n);
}

/// An anchor line that no message waits for yields a diagnostic with the
/// default message: every message line before it was followed by an earlier
/// anchor.
pub proof fn lemma_anchor_without_message(lines: Seq<LineClass>, j: int, n: u32)
    requires
        0 <= j < lines.len(),
        lines[j] == LineClass::Anchor(n),
        forall|i: int|
            0 <= i < j && #[trigger] lines[i] is Message ==> exists|k: int|
                i < k < j && #[trigger] lines[k] is Anchor,
    ensures
        scanned(lines.take(j)).emitted.len() < scanned(lines).emitted.len(),
        scanned(lines).emitted[scanned(lines.take(j)).emitted.len() as int] == Diagnostic::at_line(
            n,
            DEFAULT_MESSAGE@,
        ),
{
    lemma_nothing_waits(lines, j);
    lemma_anchor_emits(lines, j, n);
}

/// The number of anchor lines among the given lines.
pub open spec fn anchor_count(lines: Seq<LineClass>) -> nat
    decreases lines.len(),
{
    if lines.len() == 0 {
        0
    } else if lines.last() is Anchor {
        anchor_count(lines.drop_last()) + 1
    } else {
        anchor_count(lines.drop_last())
    }
}

/// The scanner emits one diagnostic for each anchor line, and none besides.
pub proof fn lemma_one_diagnostic_for_each_anchor(lines: Seq<LineClass>)
    ensures
        scanned(lines).emitted.len() == anchor_count(lines),
    decreases lines.len(),
{
    if lines.len() > 0 {
        lemma_one_diagnostic_for_each_anchor(lines.drop_last());
    }
}

/// Lines without an anchor yield no diagnostic, whatever messages they hold.
pub proof fn lemma_no_anchor_emits_nothing(lines: Seq<LineClass>)
    requires
        forall|j: int| 0 <= j < lines.len() ==> !(#[trigger] lines[j] is Anchor),
    ensures
        scanned(lines).emitted.len() == 0,
    decreases lines.len(),
{
    if lines.len() > 0 {
        assert(!(lines[lines.len() - 1] is Anchor));
        assert forall|j: int| 0 <= j < lines.drop_last().len() implies !(
        #[trigger] lines.drop_last()[j] is Anchor) by {
            assert(lines.drop_last()[j] == lines[j]);
        }
        lemma_no_anchor_emits_nothing(lines.drop_last());
    }
}

/// A log without an anchor line yields one diagnostic: the whole log,
/// without the white space around it, at no line. The messages of its
/// message lines are dropped.
pub proof fn lemma_log_without_anchor(log: Seq<char>)
    requires
        forall|j: int| 0 <= j < classes_of(log).len() ==> !(#[trigger] classes_of(log)[j] is Anchor),
    ensures
        diagnostics_of(log) == seq![Diagnostic::unlocalized(trimmed(log))],
{
    lemma_no_anchor_emits_nothing(classes_of(log));
}

/// Every log yields at least one diagnostic.
pub proof fn lemma_never_empty(log: Seq<char>)
    ensures
        diagnostics_of(log).len() >= 1,
{
}

/// The diagnostics depend on the text of the log and on nothing else: two
/// extractions from the same text agree.
pub proof fn lemma_same_log_same_diagnostics(
    first_log: Seq<char>,
    second_log: Seq<char>,
    first: Seq<CompileError>,
    second: Seq<CompileError>,
)
    requires
        first_log == second_log,
        diagnostics(first) == diagnostics_of(first_log),
        diagnostics(second) == diagnostics_of(second_log),
    ensures
        diagnostics(first) == diagnostics(second),
{
}

} // verus!
