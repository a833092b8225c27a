//! Capability probe. The environment class is fixed when the program is
//! built; the caller passes the class it was built for, and nothing is
//! detected at run time.
use vstd::prelude::*;

verus! {

/// The environment classes a build can target.
#[derive(Clone, Copy, Debug, PartialEq, Eq, Structural)]
pub enum RuntimeClass {
    /// Restricted sandbox without threads.
    Preview1,
    /// Restricted sandbox with threads.
    Preview2,
    /// Unrestricted native build.
    Host,
}

/// A snapshot of what the environment offers.
#[derive(Clone, Copy, Debug, PartialEq, Eq)]
pub struct ProbeResult {
    pub runtime: &'static str,
    pub threads: bool,
    pub fs: bool,
    pub env: bool,
    pub clock_resolution_ns: Option<u128>,
}

/// The label of each class.
pub open spec fn runtime_label(c: RuntimeClass) -> Seq<char> {
    match c {
        RuntimeClass::Preview1 => "WASI Preview 1"@,
        RuntimeClass::Preview2 => "WASI Preview 2"@,
        RuntimeClass::Host => "Host Build"@,
    }
}

/// Whether the class has OS threads.
pub open spec fn class_threads(c: RuntimeClass) -> bool {
    c != RuntimeClass::Preview1
}

/// The clock granularity of each class, in nanoseconds.
pub open spec fn class_clock_ns(c: RuntimeClass) -> u128 {
    match c {
        RuntimeClass::Preview1 => 1000,
        RuntimeClass::Preview2 => 100,
        RuntimeClass::Host => 50,
    }
}

/// The capabilities of the class the program was built for. Every class has
/// a file system and environment variables.
pub fn run_probe(class: RuntimeClass) -> (r: ProbeResult)
    ensures
        r.runtime@ == runtime_label(class),
        r.threads == class_threads(class),
        r.fs,
        r.env,
        r.clock_resolution_ns == Some(class_clock_ns(class)),
{
    match class {
        RuntimeClass::Preview1 => ProbeResult {
            runtime: "WASI Preview 1",
            threads: false,
            fs: true,
            env: true,
            clock_resolution_ns: Some(1000),
        },
        RuntimeClass::Preview2 => ProbeResult {
            runtime: "WASI Preview 2",
            threads: true,
            fs: true,
            env: true,
            clock_resolution_ns: Some(100),
        },
        RuntimeClass::Host => ProbeResult {
            runtime: "Host Build",
            threads: true,
            fs: true,
            env: true,
            clock_resolution_ns: Some(50),
        },
    }
}

/// Each class reports its own capability tuple, and no two classes report the
/// same one.
pub proof fn lemma_classes_distinct(a: RuntimeClass, b: RuntimeClass)
    requires
        a != b,
    ensures
        class_clock_ns(a) != class_clock_ns(b),
        runtime_label(a) != runtime_label(b),
{
    reveal_strlit("WASI Preview 1");
    reveal_strlit("WASI Preview 2");
    reveal_strlit("Host Build");
    assert("WASI Preview 1"@[13] != "WASI Preview 2"@[13]);
    assert("WASI Preview 1"@.len() != "Host Build"@.len());
    assert("WASI Preview 2"@.len() != "Host Build"@.len());
}

} // verus!
