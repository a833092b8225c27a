//! The fixed workloads. Each is deterministic; its result passes through an
//! opaque sink so that an optimising compiler keeps the work.
use vstd::arithmetic::div_mod::lemma_add_mod_noop;
use vstd::prelude::*;

verus! {

/// Byte that the copy kernel writes into its source buffer.
pub const COPY_FILL: u8 = 42;

/// 2^64, the modulus of wraparound `u64` addition.
pub open spec fn word_modulus() -> int {
    0x1_0000_0000_0000_0000
}

/// `0 + 1 + ... + (n - 1)` over unbounded integers.
pub open spec fn triangular(n: nat) -> nat
    decreases n,
{
    if n == 0 {
        0
    } else {
        triangular((n - 1) as nat) + (n - 1) as nat
    }
}

/// The closed form of the sum: `n * (n - 1) / 2`.
pub proof fn lemma_triangular_closed_form(n: nat)
    ensures
        triangular(n) == n * (n - 1) / 2,
    decreases n,
{
    if n > 0 {
        lemma_triangular_closed_form((n - 1) as nat);
        assert((n - 1) * (n - 2) / 2 + (n - 1) == n * (n - 1) / 2) by (nonlinear_arith)
            requires
                n >= 1,
        {
            assert((n - 1) * (n - 2) + 2 * (n - 1) == n * (n - 1));
        }
    }
}

/// Relies on std::hint::black_box: an identity function that the optimiser
/// may not see through, used as the sink of every kernel.
#[verifier::external_body]
fn keep<T>(x: T) -> (r: T)
    ensures
        r == x,
{
    std::hint::black_box(x)
}

/// Sums `0..iterations` with wraparound addition.
pub fn cpu_integer_bench(iterations: u64) -> (r: u64)
    ensures
        r as int == (iterations as int * (iterations as int - 1) / 2) % word_modulus(),
{
    let mut sum: u64 = 0;
    let mut i: u64 = 0;
    while i < iterations
        invariant
            i <= iterations,
            sum as int == (triangular(i as nat) as int) % word_modulus(),
        decreases iterations - i,
    {
        proof {
            lemma_add_mod_noop(triangular(i as nat) as int, i as int, word_modulus());
            assert((i as int) % word_modulus() == i as int);
            assert((triangular(i as nat) as int) % word_modulus() == sum as int);
        }
        sum = sum.wrapping_add(i);
        i = i + 1;
    }
    proof {
        lemma_triangular_closed_form(iterations as nat);
    }
    keep(sum)
}

/// Relies on slice::copy_from_slice: copies every element of `src` into
/// `dst`; it panics on a length mismatch, which `requires` rules out.
#[verifier::external_body]
fn copy_bytes(dst: &mut Vec<u8>, src: &Vec<u8>)
    requires
        old(dst)@.len() == src@.len(),
    ensures
        final(dst)@ == src@,
{
    dst.copy_from_slice(src)
}

/// Allocates a zeroed buffer of `mem_size` bytes and writes `i mod 256` into
/// byte `i`, in order. A size of 0 gives an empty buffer.
pub fn memory_rw_bench(mem_size: usize) -> (r: Vec<u8>)
    ensures
        r@.len() == mem_size,
        forall|i: int| 0 <= i < mem_size ==> #[trigger] r@[i] as int == i % 256,
{
    let mut data: Vec<u8> = vec![0u8; mem_size];
    let mut i: usize = 0;
    while i < mem_size
        invariant
            i <= mem_size,
            data@.len() == mem_size,
            forall|j: int| 0 <= j < i ==> #[trigger] data@[j] as int == j % 256,
        decreases mem_size - i,
    {
        data.set(i, (i % 256) as u8);
        i = i + 1;
    }
    keep(data)
}

/// Fills a source buffer of `mem_size` bytes with `COPY_FILL`, allocates a
/// zeroed destination of the same size and copies the source into it in one
/// operation. Returns `(source, destination)`.
pub fn memcpy_bench(mem_size: usize) -> (r: (Vec<u8>, Vec<u8>))
    ensures
        r.0@ == Seq::new(mem_size as nat, |i: int| COPY_FILL),
        r.1@ == r.0@,
{
    let src: Vec<u8> = vec![COPY_FILL; mem_size];
    let mut dst: Vec<u8> = vec![0u8; mem_size];
    copy_bytes(&mut dst, &src);
    assert(src@ =~= Seq::new(mem_size as nat, |i: int| COPY_FILL));
    (src, keep(dst))
}

} // verus!
