use std::time::Instant;
use wstressr::kernels::{cpu_integer_bench, memcpy_bench};
use wstressr::runner::{finish_run, plan_run, BenchResult, Kernel, RunPlan};

#[test]
fn plan_single_when_one_requested() {
    assert_eq!(plan_run(1, true), RunPlan { units: 1, warn: false });
    assert_eq!(plan_run(0, true), RunPlan { units: 1, warn: false });
    assert_eq!(plan_run(1, false), RunPlan { units: 1, warn: false });
}

#[test]
fn plan_fans_out_when_supported() {
    assert_eq!(plan_run(4, true), RunPlan { units: 4, warn: false });
}

#[test]
fn plan_falls_back_with_warning() {
    let plan = plan_run(8, false);
    assert_eq!(plan, RunPlan { units: 1, warn: true });
    let r = finish_run(Kernel::MemoryRw, plan, 777);
    assert_eq!(r.threads, 1);
    assert_eq!(r.duration_ns_avg, 777);
}

#[test]
fn average_is_total_divided_by_threads() {
    let r = finish_run(Kernel::FloatOps, plan_run(3, true), 1000);
    assert_eq!(r, BenchResult { name: Kernel::FloatOps, duration_ns_total: 1000, duration_ns_avg: 333, threads: 3 });
    assert!(r.duration_ns_avg * r.threads as u128 <= r.duration_ns_total);
    let e = finish_run(Kernel::FloatOps, plan_run(4, true), 1000);
    assert_eq!(e.duration_ns_avg * e.threads as u128, e.duration_ns_total);
}

#[test]
fn kernel_names() {
    assert_eq!(Kernel::IntegerAdd.name(), "integer-add");
    assert_eq!(Kernel::FloatOps.name(), "float-ops");
    assert_eq!(Kernel::MemoryRw.name(), "memory-rw");
    assert_eq!(Kernel::Memcpy.name(), "memcpy");
}

#[test]
fn integer_add_single_thread_run() {
    let plan = plan_run(1, true);
    let start = Instant::now();
    let sum = cpu_integer_bench(1000);
    let total = start.elapsed().as_nanos();
    let r = finish_run(Kernel::IntegerAdd, plan, total);
    assert_eq!(sum, 499_500);
    assert_eq!(r.name.name(), "integer-add");
    assert_eq!(r.threads, 1);
    assert!(r.duration_ns_total > 0);
}

#[test]
fn memcpy_run_of_1024_bytes() {
    let plan = plan_run(1, true);
    let start = Instant::now();
    let (_, dst) = memcpy_bench(1024);
    let total = start.elapsed().as_nanos();
    let r = finish_run(Kernel::Memcpy, plan, total);
    assert_eq!(r.name.name(), "memcpy");
    assert!(r.duration_ns_total > 0);
    assert_eq!(dst, vec![42u8; 1024]);
}
