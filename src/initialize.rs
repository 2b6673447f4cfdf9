//! Process-wide reference count of the engine's holders.
//!
//! The counter is kept behind a single process-wide lock by its owner; it
//! decides when the engine must be initialized (first holder) and torn down
//! (last holder).
use vstd::prelude::*;

use crate::errors::{engine_failure, yara_result, YaraError};

verus! {

pub struct InitCounter {
    holders: usize,
}

impl View for InitCounter {
    type V = nat;

    closed spec fn view(&self) -> nat {
        self.holders as nat
    }
}

impl InitCounter {
    pub fn new() -> (r: InitCounter)
        ensures
            r@ == 0,
    {
        InitCounter { holders: 0 }
    }

    pub fn holders(&self) -> (r: usize)
        ensures
            r == self@,
    {
        self.holders
    }

    /// Whether the next acquisition is the first one, which must initialize the engine.
    pub fn needs_initialize(&self) -> (r: bool)
        ensures
            r == (self@ == 0),
    {
        self.holders == 0
    }

    /// Registers one more holder. `init_status` is the status of the engine's
    /// initialization, which only the first holder performs; it is not looked
    /// at otherwise. A failed initialization registers nobody.
    pub fn acquire(&mut self, init_status: i32) -> (r: Result<(), YaraError>)
        requires
            old(self)@ < usize::MAX,
        ensures
            old(self)@ == 0 && init_status != 0 ==> r == Err::<(), YaraError>(
                engine_failure(init_status),
            ) && final(self)@ == old(self)@,
            !(old(self)@ == 0 && init_status != 0) ==> r is Ok && final(self)@ == old(self)@ + 1,
    {
        if self.holders == 0 {
            match yara_result(init_status) {
                Ok(()) => {},
                Err(e) => {
                    return Err(e);
                },
            }
        }
        self.holders = self.holders + 1;
        Ok(())
    }

    /// Unregisters one holder; returns whether it was the last one, in which
    /// case the engine must be torn down.
    pub fn release(&mut self) -> (r: bool)
        requires
            old(self)@ > 0,
        ensures
            final(self)@ == old(self)@ - 1,
            r == (final(self)@ == 0),
    {
        self.holders = self.holders - 1;
        self.holders == 0
    }
}

} // verus!
