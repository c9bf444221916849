//! Levels of diagnostic output.
use vstd::prelude::*;

verus! {

/// How much the program reports about what it does.
#[derive(PartialEq, Eq, Structural, Clone, Copy, Debug)]
pub enum LogLevel {
    Info,
    Debug,
    Trace,
}

} // verus!
