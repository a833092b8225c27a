use wstressr::probe::{run_probe, RuntimeClass};

#[test]
fn probe_preview1() {
    let p = run_probe(RuntimeClass::Preview1);
    assert_eq!(p.runtime, "WASI Preview 1");
    assert_eq!((p.threads, p.fs, p.env), (false, true, true));
    assert_eq!(p.clock_resolution_ns, Some(1000));
}

#[test]
fn probe_preview2() {
    let p = run_probe(RuntimeClass::Preview2);
    assert_eq!(p.runtime, "WASI Preview 2");
    assert_eq!((p.threads, p.fs, p.env), (true, true, true));
    assert_eq!(p.clock_resolution_ns, Some(100));
}

#[test]
fn probe_host() {
    let p = run_probe(RuntimeClass::Host);
    assert_eq!(p.runtime, "Host Build");
    assert_eq!((p.threads, p.fs, p.env), (true, true, true));
    assert_eq!(p.clock_resolution_ns, Some(50));
}
