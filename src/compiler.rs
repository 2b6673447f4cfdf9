//! Rule compiler: a session over the engine's compiler handle.
//!
//! Each method takes what the engine reported for the corresponding native
//! call and decides the outcome.
use vstd::prelude::*;

use crate::errors::{
    compile_result, compile_succeeded, engine_failure, yara_result, DiagnosticSink,
    Error, IoError, IoErrorKind, YaraError,
};
use crate::rules::Rules;

verus! {

/// Yara rules compiler
#[derive(Debug)]
pub struct Compiler {
    handle: usize,
}

impl Compiler {
    /// Address of the engine's compiler.
    pub closed spec fn spec_handle(&self) -> usize {
        self.handle
    }

    /// Outcome of creating the engine's compiler, which it put at `handle`.
    pub fn new(status: i32, handle: usize) -> (r: Result<Self, YaraError>)
        ensures
            status == 0 ==> (r matches Ok(c) && c.spec_handle() == handle),
            status != 0 ==> r == Err::<Compiler, YaraError>(engine_failure(status)),
    {
        match yara_result(status) {
            Ok(()) => Ok(Compiler { handle }),
            Err(e) => Err(e),
        }
    }

    pub fn handle(&self) -> (r: usize)
        ensures
            r == self.spec_handle(),
    {
        self.handle
    }

    /// Outcome of adding rule source text, from the engine's status and the
    /// diagnostics reported during that call.
    pub fn add_rules_str(&mut self, status: i32, diagnostics: DiagnosticSink) -> (r: Result<
        (),
        Error,
    >)
        ensures
            *final(self) == *old(self),
            compile_succeeded(status, diagnostics@) ==> r is Ok,
            !compile_succeeded(status, diagnostics@) ==> (r matches Err(Error::Compile(c)) && c@
                == diagnostics@),
    {
        compile_result(status, diagnostics.into_errors())
    }

    /// Outcome of adding a rule file: `open_error` is the failure to open
    /// it, if any; otherwise as for rule source text.
    pub fn add_rules_file(
        &mut self,
        open_error: Option<String>,
        status: i32,
        diagnostics: DiagnosticSink,
    ) -> (r: Result<(), Error>)
        ensures
            *final(self) == *old(self),
            open_error matches Some(m) ==> (r matches Err(Error::Io(e)) && e.kind
                == IoErrorKind::OpenRulesFile && e.message == m),
            open_error is None && compile_succeeded(status, diagnostics@) ==> r is Ok,
            open_error is None && !compile_succeeded(status, diagnostics@) ==> (r matches Err(
                Error::Compile(c),
            ) && c@ == diagnostics@),
    {
        match open_error {
            Some(m) => Err(Error::Io(IoError::new(m, IoErrorKind::OpenRulesFile))),
            None => compile_result(status, diagnostics.into_errors()),
        }
    }

    /// Outcome of defining an external variable.
    pub fn define_variable(&mut self, status: i32) -> (r: Result<(), YaraError>)
        ensures
            *final(self) == *old(self),
            status == 0 ==> r is Ok,
            status != 0 ==> r == Err::<(), YaraError>(engine_failure(status)),
    {
        yara_result(status)
    }

    /// Finalizes the compiler: outcome of asking the engine for the rule set,
    /// which it put at `rules`. The compiler is consumed either way.
    pub fn compile_rules(self, status: i32, rules: usize) -> (r: Result<Rules, YaraError>)
        ensures
            status == 0 ==> (r matches Ok(x) && x.spec_handle() == rules && x.spec_flags() == 0),
            status != 0 ==> r == Err::<Rules, YaraError>(engine_failure(status)),
    {
        Rules::load_from_file(status, rules)
    }
}

} // verus!
