use std::sync::atomic::AtomicBool;
use std::sync::atomic::Ordering;
use std::sync::Arc;
use vstd::prelude::*;

verus! {

/// A single boolean stop request shared by reference between the operator
/// surface and every running session.
///
/// Any thread may set or read it at any time. Because other threads write it
/// concurrently, a read promises nothing about the value it returns: logic
/// that depends on the value takes it as an argument (see `FlightSession`).
pub struct CancellationToken {
    flag: Arc<AtomicBool>,
}

impl CancellationToken {
    /// Whether the two handles reach one and the same flag.
    pub closed spec fn same_flag(&self, o: &CancellationToken) -> bool {
        self.flag == o.flag
    }

    /// A fresh token with no stop requested.
    pub fn new() -> (r: CancellationToken) {
        CancellationToken { flag: Arc::new(AtomicBool::new(false)) }
    }

    /// Another handle on the same flag: a write through either is seen
    /// through both.
    pub fn share(&self) -> (r: CancellationToken)
        ensures
            r.same_flag(self),
            self.same_flag(&r),
    {
        CancellationToken { flag: Arc::clone(&self.flag) }
    }

    /// Records `requested` as the current stop request. Wait-free.
    pub fn set(&self, requested: bool) {
        self.flag.store(requested, Ordering::SeqCst);
    }

    /// The most recently stored stop request. Wait-free.
    pub fn get(&self) -> (r: bool) {
        self.flag.load(Ordering::SeqCst)
    }
}

} // verus!
