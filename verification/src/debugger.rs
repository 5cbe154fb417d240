//! Debug observability: a callback trait a front-end may implement to
//! watch the emulator work, and the silent default.

use vstd::prelude::*;

verus! {

/// The severity a debug message carries.
#[derive(Clone, Copy, PartialEq, Eq, Structural, Debug)]
pub enum DebugKind {
    Info,
    Warn,
    Error,
}

/// A sink for debug messages; the core promises nothing about what an
/// implementation does with them.
pub trait Debugger: Sized {
    fn debug(&mut self, message: &str, kind: DebugKind);
}

/// A driver that executes one instruction per call and hands back the
/// fetched opcode byte.
pub trait CpuDebugger {
    fn step(&mut self) -> u8;
}

/// The silent debugger: messages go nowhere.
#[derive(Debug)]
pub struct NoneDebugger;

impl Default for NoneDebugger {
    fn default() -> (r: NoneDebugger)
        ensures
            true,
    {
        NoneDebugger
    }
}

impl Debugger for NoneDebugger {
    fn debug(&mut self, _message: &str, _kind: DebugKind) {
    }
}

} // verus!
