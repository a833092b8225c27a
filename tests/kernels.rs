use wstressr::kernels::{cpu_integer_bench, memcpy_bench, memory_rw_bench, COPY_FILL};

#[test]
fn integer_sum_matches_closed_form() {
    assert_eq!(cpu_integer_bench(0), 0);
    assert_eq!(cpu_integer_bench(1), 0);
    assert_eq!(cpu_integer_bench(2), 1);
    assert_eq!(cpu_integer_bench(1000), 499_500);
    let n: u64 = 100_000;
    assert_eq!(cpu_integer_bench(n), n * (n - 1) / 2);
}

#[test]
fn memory_rw_writes_index_mod_256() {
    let buf = memory_rw_bench(1000);
    assert_eq!(buf.len(), 1000);
    for (i, b) in buf.iter().enumerate() {
        assert_eq!(*b as usize, i % 256);
    }
    assert_eq!(buf[255], 255);
    assert_eq!(buf[256], 0);
    assert_eq!(buf[999], (999 % 256) as u8);
}

#[test]
fn memory_rw_zero_size_is_empty() {
    assert!(memory_rw_bench(0).is_empty());
}

#[test]
fn memcpy_destination_equals_source() {
    let (src, dst) = memcpy_bench(1024);
    assert_eq!(src.len(), 1024);
    assert_eq!(dst, src);
    assert_eq!(dst, vec![42u8; 1024]);
    assert_eq!(COPY_FILL, 42);
}

#[test]
fn memcpy_zero_size_is_empty() {
    let (src, dst) = memcpy_bench(0);
    assert!(src.is_empty());
    assert!(dst.is_empty());
}
