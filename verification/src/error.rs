//! The two-layer error model: a closed set of parser-local data faults, and
//! the structured error that every fault crossing the component boundary is
//! wrapped into.

use vstd::prelude::*;
use vstd::string::StringExecFns;

use crate::uvs_specs::spec_uvs_message;
use crate::uvs_specs::uvs_render;

verus! {

/// Closed set of parser-local data faults (the inner error layer).  These
/// never cross the component boundary directly: they are wrapped into
/// [`WparseError`] first.
#[derive(Debug, PartialEq)]
pub enum DataErrKind {
    /// Malformed input, with a message and an optional detail.
    FormatError(String, Option<String>),
    /// The input ends before the record does.
    NotComplete,
    /// Nothing could be parsed, with a note.
    UnParse(String),
    /// Less data than the record needs.
    LessData,
    /// No data at all.
    EmptyData,
    /// A named structural element is missing.
    LessStc(String),
    /// A named definition is missing.
    LessDef(String),
}

/// How an optional detail is shown inside a fault's message: `None`, or the
/// detail between `Some("` and `")`.
pub open spec fn spec_detail_part(detail: Option<String>) -> Seq<char> {
    match detail {
        Some(d) => "Some(\""@ + d@ + "\")"@,
        None => "None"@,
    }
}

impl DataErrKind {
    /// The canonical rendering of each fault, used for display and as the
    /// detail embedded when the fault is wrapped into [`WparseError`].
    pub open spec fn spec_message(&self) -> Seq<char> {
        match self {
            DataErrKind::FormatError(msg, detail) => "format error : "@ + msg@ + "\n"@
                + spec_detail_part(*detail) + " "@,
            DataErrKind::NotComplete => "not complete"@,
            DataErrKind::UnParse(s) => "no parse data: "@ + s@,
            DataErrKind::LessData => "less data"@,
            DataErrKind::EmptyData => "empty data"@,
            DataErrKind::LessStc(s) => "struct less : "@ + s@,
            DataErrKind::LessDef(s) => "define less : "@ + s@,
        }
    }

    /// Renders the fault as human-readable text.
    pub fn message(&self) -> (r: String)
        ensures
            r@ == self.spec_message(),
    {
        match self {
            DataErrKind::FormatError(msg, detail) => {
                let mut s = String::from_str("format error : ");
                s.append(msg.as_str());
                s.append("\n");
                match detail {
                    Some(d) => {
                        s.append("Some(\"");
                        s.append(d.as_str());
                        s.append("\")");
                    },
                    None => {
                        s.append("None");
                    },
                }
                s.append(" ");
                proof {
                    assert(s@ =~= self.spec_message());
                }
                s
            },
            DataErrKind::NotComplete => String::from_str("not complete"),
            DataErrKind::UnParse(note) => {
                let mut s = String::from_str("no parse data: ");
                s.append(note.as_str());
                s
            },
            DataErrKind::LessData => String::from_str("less data"),
            DataErrKind::EmptyData => String::from_str("empty data"),
            DataErrKind::LessStc(name) => {
                let mut s = String::from_str("struct less : ");
                s.append(name.as_str());
                s
            },
            DataErrKind::LessDef(name) => {
                let mut s = String::from_str("define less : ");
                s.append(name.as_str());
                s
            },
        }
    }
}

/// Any raw message can be lifted to a format fault with no detail; this is the
/// fallback when no more specific fault kind applies.
impl From<String> for DataErrKind {
    fn from(value: String) -> (r: Self) {
        DataErrKind::FormatError(value, None)
    }
}

impl vstd::std_specs::convert::FromSpecImpl<String> for DataErrKind {
    open spec fn obeys_from_spec() -> bool {
        true
    }

    open spec fn from_spec(v: String) -> Self {
        DataErrKind::FormatError(v, None)
    }
}

/// The classification a structured error carries (the outer error layer).
/// The first three branches are closed and specific to this domain; the last
/// wraps the open, lower-level reason enumeration.
#[derive(Debug, Clone, PartialEq)]
pub enum WparseReason {
    /// A fault the processor itself names, tagged as plugin-origin.
    Plugin(String),
    /// A pattern or signature did not match; no partial detail exists.
    NotMatch,
    /// A fault while processing a line.
    LineProc(String),
    /// A generic systemic fault from the lower-level error layer.
    Uvs(orion_error::UnifiedReason),
}

impl WparseReason {
    /// The canonical rendering of each classification.
    pub open spec fn spec_message(&self) -> Seq<char> {
        match self {
            WparseReason::Plugin(s) => "plugin >"@ + s@,
            WparseReason::NotMatch => "not match"@,
            WparseReason::LineProc(s) => "line proc > "@ + s@,
            WparseReason::Uvs(u) => spec_uvs_message(*u),
        }
    }

    /// Renders the classification as human-readable text.
    pub fn message(&self) -> (r: String)
        ensures
            r@ == self.spec_message(),
    {
        match self {
            WparseReason::Plugin(s) => {
                let mut out = String::from_str("plugin >");
                out.append(s.as_str());
                out
            },
            WparseReason::NotMatch => String::from_str("not match"),
            WparseReason::LineProc(s) => {
                let mut out = String::from_str("line proc > ");
                out.append(s.as_str());
                out
            },
            WparseReason::Uvs(u) => uvs_render(u),
        }
    }

    /// The numeric classification code: one fixed value for this whole
    /// taxonomy, signalling a library-internal fault class to callers.
    pub fn error_code(&self) -> (r: i32)
        ensures
            r == 500,
    {
        500
    }
}

/// The open reason enumeration lifts into the generic systemic branch.
impl From<orion_error::UnifiedReason> for WparseReason {
    fn from(value: orion_error::UnifiedReason) -> (r: Self) {
        WparseReason::Uvs(value)
    }
}

impl vstd::std_specs::convert::FromSpecImpl<orion_error::UnifiedReason> for WparseReason {
    open spec fn obeys_from_spec() -> bool {
        true
    }

    open spec fn from_spec(v: orion_error::UnifiedReason) -> Self {
        WparseReason::Uvs(v)
    }
}

/// A raw message lifts into the line-processing branch.
impl From<String> for WparseReason {
    fn from(value: String) -> (r: Self) {
        WparseReason::LineProc(value)
    }
}

impl vstd::std_specs::convert::FromSpecImpl<String> for WparseReason {
    open spec fn obeys_from_spec() -> bool {
        true
    }

    open spec fn from_spec(v: String) -> Self {
        WparseReason::LineProc(v)
    }
}

/// The structured error every fault surfaced by a processor or a
/// buffer-producing operation is reported as: a classification, free-text
/// detail, and an optional chained cause.  The numeric code is a function of
/// the classification and is fixed at 500 for this taxonomy.
#[derive(Debug, Clone, PartialEq)]
pub struct WparseError {
    /// The classification of the fault.
    pub reason: WparseReason,
    /// Free-text detail; carries the inner fault's rendered message when one
    /// is wrapped.
    pub detail: Option<String>,
    /// The rendered message of a deeper cause, when one was attached.
    pub cause: Option<String>,
}

/// Holds when `e` is the structured form of the data fault `kind`: classified
/// as a systemic data fault, with the kind's rendered message as detail.
pub open spec fn wraps_data_kind(e: WparseError, kind: DataErrKind) -> bool {
    &&& e.reason == WparseReason::Uvs(orion_error::UnifiedReason::DataError)
    &&& e.detail matches Some(d) && d@ == kind.spec_message()
    &&& e.cause is None
}

impl WparseError {
    /// A structured error with the given classification and nothing else.
    pub fn new(reason: WparseReason) -> (r: Self)
        ensures
            r == (WparseError { reason, detail: None, cause: None }),
    {
        WparseError { reason, detail: None, cause: None }
    }

    /// Attaches free-text detail.
    pub fn with_detail(self, detail: String) -> (r: Self)
        ensures
            r == (WparseError { detail: Some(detail), ..self }),
    {
        WparseError { detail: Some(detail), ..self }
    }

    /// Attaches the rendered message of a deeper cause.
    pub fn with_cause(self, cause: String) -> (r: Self)
        ensures
            r == (WparseError { cause: Some(cause), ..self }),
    {
        WparseError { cause: Some(cause), ..self }
    }

    /// The numeric classification code; fixed at 500 for this taxonomy.
    pub fn error_code(&self) -> (r: i32)
        ensures
            r == 500,
    {
        self.reason.error_code()
    }

    /// Wraps a parser-local data fault: the generic systemic branch tagged as
    /// a data fault, carrying the fault's rendered message as detail.  The
    /// conversion keeps the full message but only the message: the inner
    /// kind's structured fields do not survive.
    pub fn from_data(kind: DataErrKind) -> (r: Self)
        ensures
            wraps_data_kind(r, kind),
    {
        let detail = kind.message();
        WparseError {
            reason: WparseReason::Uvs(orion_error::UnifiedReason::DataError),
            detail: Some(detail),
            cause: None,
        }
    }

    /// What `render` produces: the classification's message, then the detail
    /// and the cause on their own marked lines, each only when present.
    pub open spec fn spec_rendered(&self) -> Seq<char> {
        self.reason.spec_message() + spec_info_part(self.detail) + spec_cause_part(self.cause)
    }

    /// Renders the structured error as human-readable text.
    pub fn render(&self) -> (r: String)
        ensures
            r@ == self.spec_rendered(),
    {
        let mut out = self.reason.message();
        match &self.detail {
            Some(d) => {
                out.append("\n  -> Info: ");
                out.append(d.as_str());
            },
            None => {},
        }
        match &self.cause {
            Some(c) => {
                out.append("\n  -> Caused by:\n      1. ");
                out.append(c.as_str());
            },
            None => {},
        }
        proof {
            assert(out@ =~= self.spec_rendered());
        }
        out
    }
}

/// The detail's contribution to the rendering.
pub open spec fn spec_info_part(detail: Option<String>) -> Seq<char> {
    match detail {
        Some(d) => "\n  -> Info: "@ + d@,
        None => Seq::<char>::empty(),
    }
}

/// The cause's contribution to the rendering.
pub open spec fn spec_cause_part(cause: Option<String>) -> Seq<char> {
    match cause {
        Some(c) => "\n  -> Caused by:\n      1. "@ + c@,
        None => Seq::<char>::empty(),
    }
}

/// Wrapping a data fault is lossless in message content.
impl From<DataErrKind> for WparseError {
    fn from(value: DataErrKind) -> (r: Self) {
        WparseError::from_data(value)
    }
}

impl vstd::std_specs::convert::FromSpecImpl<DataErrKind> for WparseError {
    open spec fn obeys_from_spec() -> bool {
        false
    }

    open spec fn from_spec(v: DataErrKind) -> Self {
        arbitrary()
    }
}

/// `needle` occurs contiguously inside `hay`.
pub open spec fn contains_sub<T>(hay: Seq<T>, needle: Seq<T>) -> bool {
    exists|i: int|
        0 <= i && i + needle.len() <= hay.len() && #[trigger] hay.subrange(i, i + needle.len())
            == needle
}

/// Wrapping a layer-1 fault into the structured error and rendering the
/// result keeps the fault's own rendered message verbatim, as a contiguous
/// substring of the rendering.
pub proof fn lemma_wrapped_message_survives(e: WparseError, kind: DataErrKind)
    requires
        wraps_data_kind(e, kind),
    ensures
        contains_sub(e.spec_rendered(), kind.spec_message()),
{
    let hay = e.spec_rendered();
    let needle = kind.spec_message();
    let i: int = (e.reason.spec_message().len() + "\n  -> Info: "@.len()) as int;
    assert(hay.subrange(i, i + needle.len()) =~= needle);
    assert(0 <= i && i + needle.len() <= hay.len() && hay.subrange(i, i + needle.len())
        == needle);
}

/// The same property at the function level: whatever `from_data` wraps and
/// `render` then shows, the fault's rendered message stands verbatim inside
/// the shown text.
pub proof fn lemma_conversion_keeps_message(kind: DataErrKind, e: WparseError, shown: String)
    requires
        call_ensures(WparseError::from_data, (kind,), e),
        call_ensures(WparseError::render, (&e,), shown),
    ensures
        contains_sub(shown@, kind.spec_message()),
{
    lemma_wrapped_message_survives(e, kind);
}

/// Result type for operations that report the structured error.
pub type WparseResult<T> = Result<T, WparseError>;

/// Older name for [`WparseReason`], kept for call sites written against the
/// earlier naming scheme; a pure rename.
pub type WplParseReason = WparseReason;

/// Older name for [`WparseError`]; a pure rename.
pub type WplParseError = WparseError;

/// Older name for [`WparseResult`]; a pure rename.
pub type WplParseResult<T> = WparseResult<T>;

} // verus!
