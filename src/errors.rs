//! Errors surfaced by the boundary layer: engine failures, compile
//! diagnostics and I/O failures at the edge.
use vstd::prelude::*;

use crate::yara_sys;
use crate::yara_sys::{YARA_ERROR_LEVEL_ERROR, YARA_ERROR_LEVEL_WARNING};

verus! {

/// An engine failure, by its status-code kind.
#[derive(Clone, Copy, Debug, PartialEq, Eq, Structural)]
pub struct YaraError {
    pub kind: yara_sys::Error,
}

impl YaraError {
    pub fn new(kind: yara_sys::Error) -> (r: YaraError)
        ensures
            r.kind == kind,
    {
        YaraError { kind }
    }
}

/// The boundary operation during which an I/O failure happened.
#[derive(Clone, Copy, Debug, PartialEq, Eq, Structural)]
pub enum IoErrorKind {
    OpenRulesFile,
    OpenScanFile,
    ReadingRules,
    WritingRules,
}

/// An I/O failure at the boundary, tagged with the operation it interrupted.
#[derive(Clone, Debug)]
pub struct IoError {
    pub kind: IoErrorKind,
    /// Description of the underlying failure.
    pub message: String,
}

impl IoError {
    pub fn new(message: String, kind: IoErrorKind) -> (r: IoError)
        ensures
            r.kind == kind,
            r.message == message,
    {
        IoError { kind, message }
    }
}

/// Severity of a compile diagnostic.
#[derive(Clone, Copy, Debug, PartialEq, Eq, Structural)]
pub enum CompileErrorLevel {
    Error,
    Warning,
}

/// A severity code the engine hands to its diagnostic callback.
pub open spec fn is_level_code(code: i32) -> bool {
    code == YARA_ERROR_LEVEL_ERROR as i32 || code == YARA_ERROR_LEVEL_WARNING as i32
}

impl CompileErrorLevel {
    pub fn from_code(code: i32) -> (r: CompileErrorLevel)
        requires
            is_level_code(code),
        ensures
            (r == CompileErrorLevel::Error) == (code == YARA_ERROR_LEVEL_ERROR as i32),
    {
        if code == YARA_ERROR_LEVEL_ERROR as i32 {
            CompileErrorLevel::Error
        } else {
            CompileErrorLevel::Warning
        }
    }
}

/// One diagnostic reported while compiling rule source.
#[derive(Clone, Debug)]
pub struct CompileError {
    pub level: CompileErrorLevel,
    /// Source file the diagnostic refers to, when the source came from a file.
    pub filename: Option<String>,
    pub line: usize,
    pub message: String,
}

/// The ordered diagnostics of a failed compile call.
#[derive(Clone, Debug)]
pub struct CompileErrors {
    errors: Vec<CompileError>,
}

impl View for CompileErrors {
    type V = Seq<CompileError>;

    closed spec fn view(&self) -> Seq<CompileError> {
        self.errors@
    }
}

impl CompileErrors {
    pub fn new(errors: Vec<CompileError>) -> (r: CompileErrors)
        ensures
            r@ == errors@,
    {
        CompileErrors { errors }
    }

    pub fn errors(&self) -> (r: &Vec<CompileError>)
        ensures
            r@ == self@,
    {
        &self.errors
    }

    pub fn into_errors(self) -> (r: Vec<CompileError>)
        ensures
            r@ == self@,
    {
        self.errors
    }
}

/// Any failure of a boundary operation.
#[derive(Clone, Debug)]
pub enum Error {
    Compile(CompileErrors),
    Yara(YaraError),
    Io(IoError),
}

/// Whether some diagnostic has Error severity.
pub open spec fn has_error_level(d: Seq<CompileError>) -> bool {
    exists|i: int| 0 <= i < d.len() && #[trigger] d[i].level == CompileErrorLevel::Error
}

/// Whether a compile call succeeded: a zero status, or no Error-severity diagnostic.
pub open spec fn compile_succeeded(status: i32, d: Seq<CompileError>) -> bool {
    status == 0 || !has_error_level(d)
}

/// The engine failure carried by a status code, as a boundary error.
pub open spec fn engine_failure(code: i32) -> YaraError {
    YaraError { kind: yara_sys::error_of_code(code) }
}


/// Warning-severity diagnostics alone never fail a compile call, whatever
/// the engine's status; one Error-severity diagnostic under a non-zero
/// status always does.
pub proof fn lemma_only_errors_fail(status: i32, d: Seq<CompileError>)
    ensures
        (forall|i: int| 0 <= i < d.len() ==> #[trigger] d[i].level == CompileErrorLevel::Warning)
            ==> compile_succeeded(status, d),
        (status != 0 && exists|i: int|
            0 <= i < d.len() && #[trigger] d[i].level == CompileErrorLevel::Error) ==> !compile_succeeded(
            status,
            d,
        ),
{
}

/// Maps a status code to a result whose failure is a boundary error.
pub fn yara_result(code: i32) -> (r: Result<(), YaraError>)
    ensures
        code == 0 ==> r is Ok,
        code != 0 ==> r == Err::<(), YaraError>(engine_failure(code)),
{
    match yara_sys::Error::from_code(code) {
        Ok(()) => Ok(()),
        Err(kind) => Err(YaraError { kind }),
    }
}

/// Decides the outcome of one compile call from the engine's status and
/// the diagnostics its callback collected.
pub fn compile_result(status: i32, messages: Vec<CompileError>) -> (r: Result<(), Error>)
    ensures
        compile_succeeded(status, messages@) ==> r is Ok,
        !compile_succeeded(status, messages@) ==> (r matches Err(Error::Compile(c))
            && c@ == messages@),
{
    if status == 0 {
        return Ok(());
    }
    let mut i: usize = 0;
    while i < messages.len()
        invariant
            0 <= i <= messages@.len(),
            status != 0,
            forall|j: int| 0 <= j < i ==> messages@[j].level != CompileErrorLevel::Error,
        decreases messages@.len() - i,
    {
        if messages[i].level == CompileErrorLevel::Error {
            assert(has_error_level(messages@)) by {
                assert(messages@[i as int].level == CompileErrorLevel::Error);
            }
            return Err(Error::Compile(CompileErrors::new(messages)));
        }
        i = i + 1;
    }
    Ok(())
}

/// Collects the diagnostics the engine reports during one compile call.
pub struct DiagnosticSink {
    errors: Vec<CompileError>,
}

impl View for DiagnosticSink {
    type V = Seq<CompileError>;

    closed spec fn view(&self) -> Seq<CompileError> {
        self.errors@
    }
}

impl DiagnosticSink {
    pub fn new() -> (r: DiagnosticSink)
        ensures
            r@.len() == 0,
    {
        DiagnosticSink { errors: Vec::new() }
    }

    /// Records one callback invocation as a structured diagnostic.
    pub fn report(
        &mut self,
        error_level: i32,
        filename: Option<String>,
        line_number: i32,
        message: String,
    )
        requires
            is_level_code(error_level),
            line_number >= 0,
        ensures
            final(self)@.len() == old(self)@.len() + 1,
            final(self)@.drop_last() == old(self)@,
            ({
                let d = final(self)@.last();
                &&& (d.level == CompileErrorLevel::Error) == (error_level
                    == YARA_ERROR_LEVEL_ERROR as i32)
                &&& d.filename == filename
                &&& d.line == line_number as int
                &&& d.message == message
            }),
    {
        let level = CompileErrorLevel::from_code(error_level);
        self.errors.push(CompileError { level, filename, line: line_number as usize, message });
        proof {
            assert(self.errors@.drop_last() =~= old(self).errors@);
        }
    }

    pub fn into_errors(self) -> (r: Vec<CompileError>)
        ensures
            r@ == self@,
    {
        self.errors
    }
}

} // verus!
