//! Bridge between a byte reader or writer and the engine's pull/push
//! callbacks used while a rule set is saved or loaded.
//!
//! Each callback invocation hands the bridge what the reader or writer
//! reported. A failure is never propagated through the callback: it is kept
//! in the bridge's error slot and the callback reports zero items, which makes
//! the engine stop. Once the engine call returns, a kept failure wins over the
//! engine's own status.
use vstd::prelude::*;

use crate::errors::{engine_failure, yara_result, Error, IoError, IoErrorKind};

verus! {

pub struct StreamBridge {
    context: IoErrorKind,
    error: Option<IoError>,
}

impl StreamBridge {
    pub closed spec fn context(&self) -> IoErrorKind {
        self.context
    }

    /// The first failure reported by the reader or writer, if any.
    pub closed spec fn error(&self) -> Option<IoError> {
        self.error
    }

    /// A kept failure is tagged with the bridge's operation.
    pub closed spec fn wf(&self) -> bool {
        self.error matches Some(e) ==> e.kind == self.context
    }

    /// A bridge for saving rules into a writer.
    pub fn for_writing() -> (r: StreamBridge)
        ensures
            r.wf(),
            r.context() == IoErrorKind::WritingRules,
            r.error() is None,
    {
        StreamBridge { context: IoErrorKind::WritingRules, error: None }
    }

    /// A bridge for loading rules from a reader.
    pub fn for_reading() -> (r: StreamBridge)
        ensures
            r.wf(),
            r.context() == IoErrorKind::ReadingRules,
            r.error() is None,
    {
        StreamBridge { context: IoErrorKind::ReadingRules, error: None }
    }

    /// Whether the reader or writer should still be used: nothing has failed yet.
    pub fn is_open(&self) -> (r: bool)
        ensures
            r == (self.error() is None),
    {
        self.error.is_none()
    }

    /// Handles one callback asking to move `count` items; `outcome` is what
    /// the reader or writer reported for them. Returns the item count the
    /// callback hands back to the engine.
    pub fn transfer(&mut self, count: usize, outcome: Result<(), String>) -> (r: usize)
        requires
            old(self).wf(),
        ensures
            final(self).wf(),
            final(self).context() == old(self).context(),
            outcome is Ok && old(self).error() is None ==> r == count && final(self).error()
                is None,
            old(self).error() is Some ==> r == 0 && final(self).error() == old(self).error(),
            old(self).error() is None && outcome is Err ==> r == 0 && (final(self).error() matches Some(e)
                && e.kind == old(self).context() && e.message == outcome->Err_0),
    {
        if self.error.is_some() {
            return 0;
        }
        match outcome {
            Ok(()) => count,
            Err(message) => {
                self.error = Some(IoError::new(message, self.context));
                0
            },
        }
    }

    /// The outcome of the engine call the bridge served: a kept I/O failure
    /// first, then the engine's status.
    pub fn finish(self, status: i32) -> (r: Result<(), Error>)
        requires
            self.wf(),
        ensures
            self.error() matches Some(e) ==> (r matches Err(Error::Io(x)) && x.kind
                == self.context() && x.message == e.message),
            self.error() is None && status == 0 ==> r is Ok,
            self.error() is None && status != 0 ==> (r matches Err(Error::Yara(y)) && y
                == engine_failure(status)),
    {
        match self.error {
            Some(e) => Err(Error::Io(e)),
            None => match yara_result(status) {
                Ok(()) => Ok(()),
                Err(y) => Err(Error::Yara(y)),
            },
        }
    }
}

} // verus!
