//! Values read from the command line: `--key value` pairs of unsigned
//! decimal integers.
use vstd::prelude::*;
use vstd::string::StrSliceExecFns;

verus! {

/// Largest accepted iteration count.
pub const MAX_ITERATIONS: u64 = 4_294_967_295;

/// Largest accepted buffer size in bytes.
pub const MAX_MEM_SIZE: u64 = 4_294_967_295;

/// Why a command-line value was refused.
#[derive(Clone, Copy, Debug, PartialEq, Eq, Structural)]
pub enum ArgError {
    /// The value is above the largest one allowed for its key.
    ExceedsMax { max: u64 },
}

pub open spec fn is_decimal_digit(c: char) -> bool {
    '0' <= c && c <= '9'
}

/// The digits of `s` once an optional leading `+` is removed.
pub open spec fn unsigned_digits(s: Seq<char>) -> Seq<char> {
    if s.len() > 0 && s[0] == '+' {
        s.drop_first()
    } else {
        s
    }
}

/// An optional `+` followed by one or more decimal digits, and nothing else.
pub open spec fn is_decimal(s: Seq<char>) -> bool {
    let d = unsigned_digits(s);
    d.len() > 0 && forall|i: int| 0 <= i < d.len() ==> #[trigger] is_decimal_digit(d[i])
}

/// The number that a string of decimal digits denotes.
pub open spec fn digits_value(d: Seq<char>) -> nat
    decreases d.len(),
{
    if d.len() == 0 {
        0
    } else {
        digits_value(d.drop_last()) * 10 + ((d.last() as u32) - ('0' as u32)) as nat
    }
}

/// What parsing `s` as an unsigned integer whose largest value is `max`
/// gives: the number, where `s` is decimal and the number is at most `max`.
pub open spec fn decimal_within(s: Seq<char>, max: nat) -> Option<nat> {
    if is_decimal(s) && digits_value(unsigned_digits(s)) <= max {
        Some(digits_value(unsigned_digits(s)))
    } else {
        None
    }
}

/// Relies on `<u64 as FromStr>::from_str`: accepts an optional `+` followed by
/// decimal digits only, whose value fits in a `u64`.
#[verifier::external_body]
fn parse_u64(s: &str) -> (r: Option<u64>)
    ensures
        r is Some <==> decimal_within(s@, u64::MAX as nat) is Some,
        r is Some ==> decimal_within(s@, u64::MAX as nat) == Some(r->0 as nat),
{
    s.parse::<u64>().ok()
}

/// Relies on `<usize as FromStr>::from_str`: accepts an optional `+` followed
/// by decimal digits only, whose value fits in a `usize`.
#[verifier::external_body]
fn parse_usize(s: &str) -> (r: Option<usize>)
    ensures
        r is Some <==> decimal_within(s@, usize::MAX as nat) is Some,
        r is Some ==> decimal_within(s@, usize::MAX as nat) == Some(r->0 as nat),
{
    s.parse::<usize>().ok()
}

/// The arguments as character sequences.
pub open spec fn arg_views(args: Seq<String>) -> Seq<Seq<char>> {
    args.map_values(|a: String| a@)
}

/// `i` is the first position of `key` in `a`.
pub open spec fn is_first_position(a: Seq<Seq<char>>, key: Seq<char>, i: int) -> bool {
    &&& 0 <= i < a.len()
    &&& a[i] == key
    &&& forall|j: int| 0 <= j < i ==> a[j] != key
}

/// The argument that follows the first occurrence of `key`, if both exist.
pub open spec fn value_after(a: Seq<Seq<char>>, key: Seq<char>) -> Option<Seq<char>> {
    if exists|i: int| is_first_position(a, key, i) {
        let i = choose|i: int| is_first_position(a, key, i);
        if i + 1 < a.len() {
            Some(a[i + 1])
        } else {
            None
        }
    } else {
        None
    }
}

/// Finds the argument that follows the first occurrence of `key`.
fn find_value<'a>(args: &'a Vec<String>, key: &String) -> (r: Option<&'a String>)
    ensures
        value_after(arg_views(args@), key@) is Some <==> r is Some,
        r is Some ==> value_after(arg_views(args@), key@) == Some(r->0@),
{
    let ghost a = arg_views(args@);
    let mut i: usize = 0;
    while i < args.len()
        invariant
            i <= args.len(),
            a == arg_views(args@),
            forall|j: int| 0 <= j < i ==> a[j] != key@,
        decreases args.len() - i,
    {
        if args[i] == *key {
            assert(is_first_position(a, key@, i as int));
            proof {
                let k = choose|k: int| is_first_position(a, key@, k);
                assert(k == i) by {
                    if k < i {
                        assert(a[k] != key@);
                    } else if k > i {
                        assert(a[i as int] != key@);
                    }
                }
            }
            if i + 1 < args.len() {
                return Some(&args[i + 1]);
            } else {
                return None;
            }
        }
        i = i + 1;
    }
    assert(!exists|k: int| is_first_position(a, key@, k));
    None
}

/// Whether `s` is an optional `+` followed by one or more decimal digits.
fn is_plain_decimal(s: &str) -> (r: bool)
    ensures
        r == is_decimal(s@),
{
    let n = s.unicode_len();
    let mut start: usize = 0;
    if n > 0 && s.get_char(0) == '+' {
        start = 1;
    }
    let ghost d = unsigned_digits(s@);
    assert(d =~= s@.subrange(start as int, n as int));
    if start >= n {
        return false;
    }
    let mut i: usize = start;
    while i < n
        invariant
            start <= i <= n,
            n == s@.len(),
            d == s@.subrange(start as int, n as int),
            d == unsigned_digits(s@),
            forall|k: int| 0 <= k < i - start ==> #[trigger] is_decimal_digit(d[k]),
        decreases n - i,
    {
        let c = s.get_char(i);
        if !('0' <= c && c <= '9') {
            assert(d[i - start] == c);
            assert(!is_decimal_digit(d[i - start]));
            return false;
        }
        i = i + 1;
    }
    true
}

/// What the command line asks of `key`: the number written after its first
/// occurrence, where there is one and it is an unsigned decimal.
pub open spec fn requested_value(args: Seq<String>, key: Seq<char>) -> Option<nat> {
    match value_after(arg_views(args), key) {
        Some(v) => if is_decimal(v) {
            Some(digits_value(unsigned_digits(v)))
        } else {
            None
        },
        None => None,
    }
}

/// Reads the value of `key`. Where the key is missing, has no value after it,
/// or its value is not an unsigned decimal, the result is `default`; a value
/// above `max` is refused, also where it does not fit in a `u64`.
pub fn parse_arg_value(args: &Vec<String>, key: &String, default: u64, max: u64) -> (r: Result<
    u64,
    ArgError,
>)
    ensures
        match requested_value(args@, key@) {
            Some(n) => if n <= max {
                r == Ok::<u64, ArgError>(n as u64)
            } else {
                r == Err::<u64, ArgError>(ArgError::ExceedsMax { max })
            },
            None => r == Ok::<u64, ArgError>(default),
        },
{
    match find_value(args, key) {
        Some(v) => match parse_u64(v.as_str()) {
            Some(n) => if n <= max {
                Ok(n)
            } else {
                Err(ArgError::ExceedsMax { max })
            },
            None => if is_plain_decimal(v.as_str()) {
                Err(ArgError::ExceedsMax { max })
            } else {
                Ok(default)
            },
        },
        None => Ok(default),
    }
}

/// The number of execution units asked for with `--threads`; 1 where the
/// flag is missing or its value is not an unsigned decimal that fits in a
/// `usize`.
pub fn parse_thread_count(args: &Vec<String>) -> (r: usize)
    ensures
        match requested_value(args@, "--threads"@) {
            Some(n) => if n <= usize::MAX {
                r == n
            } else {
                r == 1
            },
            None => r == 1,
        },
{
    let key = "--threads".to_owned();
    match find_value(args, &key) {
        Some(v) => match parse_usize(v.as_str()) {
            Some(n) => n,
            None => 1,
        },
        None => 1,
    }
}

} // verus!
