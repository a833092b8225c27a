//! The threaded runner's decisions and its result record. Spawning, joining
//! and reading the clock are done by the caller: it asks `plan_run` how many
//! execution units to start, runs the kernel on each of them, measures the
//! span from first dispatch to last completion and hands that span to
//! `finish_run`.
use vstd::prelude::*;

verus! {

/// The closed set of workloads.
#[derive(Clone, Copy, Debug, PartialEq, Eq, Structural)]
pub enum Kernel {
    IntegerAdd,
    FloatOps,
    MemoryRw,
    Memcpy,
}

/// The identifier of each kernel.
pub open spec fn kernel_name(k: Kernel) -> Seq<char> {
    match k {
        Kernel::IntegerAdd => "integer-add"@,
        Kernel::FloatOps => "float-ops"@,
        Kernel::MemoryRw => "memory-rw"@,
        Kernel::Memcpy => "memcpy"@,
    }
}

impl Kernel {
    /// The kernel's identifier, as it appears in a result.
    pub fn name(&self) -> (r: &'static str)
        ensures
            r@ == kernel_name(*self),
    {
        match self {
            Kernel::IntegerAdd => "integer-add",
            Kernel::FloatOps => "float-ops",
            Kernel::MemoryRw => "memory-rw",
            Kernel::Memcpy => "memcpy",
        }
    }
}

/// How one benchmark run is carried out.
#[derive(Clone, Copy, Debug, PartialEq, Eq, Structural)]
pub struct RunPlan {
    /// Number of execution units; each runs the whole workload.
    pub units: usize,
    /// Whether more than one unit was asked for but concurrency is missing,
    /// which the caller must report as a warning.
    pub warn: bool,
}

/// The plan for `requested` units when the probe reports `threads_supported`.
pub open spec fn plan_spec(requested: usize, threads_supported: bool) -> RunPlan {
    if requested <= 1 || !threads_supported {
        RunPlan { units: 1, warn: requested > 1 && !threads_supported }
    } else {
        RunPlan { units: requested, warn: false }
    }
}

/// Chooses the concurrency mode: a single unit on the calling thread when one
/// or none is asked for or when concurrency is unavailable (with a warning in
/// the latter case), else one unit per requested thread.
pub fn plan_run(requested: usize, threads_supported: bool) -> (r: RunPlan)
    ensures
        r == plan_spec(requested, threads_supported),
        r.units >= 1,
{
    if requested <= 1 || !threads_supported {
        RunPlan { units: 1, warn: requested > 1 && !threads_supported }
    } else {
        RunPlan { units: requested, warn: false }
    }
}

/// One executed benchmark.
#[derive(Clone, Copy, Debug, PartialEq, Eq, Structural)]
pub struct BenchResult {
    pub name: Kernel,
    /// Nanoseconds from first dispatch to the last unit's completion.
    pub duration_ns_total: u128,
    /// `duration_ns_total` divided by `threads`, rounded down.
    pub duration_ns_avg: u128,
    /// The number of units that actually ran.
    pub threads: usize,
}

impl BenchResult {
    /// The record's invariant: at least one unit, and the average derived
    /// from the total.
    pub open spec fn wf(&self) -> bool {
        &&& self.threads >= 1
        &&& self.duration_ns_avg == self.duration_ns_total / (self.threads as u128)
    }
}

/// Builds the result of a run of `kernel` under `plan` that took
/// `duration_ns_total` nanoseconds.
pub fn finish_run(kernel: Kernel, plan: RunPlan, duration_ns_total: u128) -> (r: BenchResult)
    requires
        plan.units >= 1,
    ensures
        r.wf(),
        r.name == kernel,
        r.threads == plan.units,
        r.duration_ns_total == duration_ns_total,
        r.duration_ns_avg == duration_ns_total / (plan.units as u128),
        plan.units == 1 ==> r.duration_ns_avg == duration_ns_total,
{
    let avg = duration_ns_total / (plan.units as u128);
    proof {
        if plan.units == 1 {
            vstd::arithmetic::div_mod::lemma_div_basics(duration_ns_total as int);
        }
    }
    BenchResult {
        name: kernel,
        duration_ns_total,
        duration_ns_avg: avg,
        threads: plan.units,
    }
}

/// The average never exceeds the total's share: `avg * threads <= total`, with
/// equality exactly when `threads` divides `total`.
pub proof fn lemma_average_bounded(r: BenchResult)
    requires
        r.wf(),
    ensures
        r.duration_ns_avg * r.threads <= r.duration_ns_total,
        r.duration_ns_total - r.duration_ns_avg * r.threads < r.threads,
        (r.duration_ns_total % (r.threads as u128) == 0) <==> (r.duration_ns_avg * r.threads
            == r.duration_ns_total),
{
    let t = r.threads as int;
    let total = r.duration_ns_total as int;
    assert(total == (total / t) * t + total % t) by (nonlinear_arith)
        requires
            t >= 1,
    {
        vstd::arithmetic::div_mod::lemma_fundamental_div_mod(total, t);
    }
    assert(0 <= total % t < t) by {
        vstd::arithmetic::div_mod::lemma_mod_bound(total, t);
    }
}

/// Asking for more than one unit where concurrency is unavailable plans a
/// single unit and a warning; `finish_run` then records `threads == 1`.
pub proof fn lemma_fallback_single_unit(requested: usize)
    requires
        requested > 1,
    ensures
        plan_spec(requested, false) == (RunPlan { units: 1, warn: true }),
{
}

} // verus!
