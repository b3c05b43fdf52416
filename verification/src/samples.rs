//! Verified analogues of the sample routines the corpus describes.
//!
//! Each routine keeps the name and shape of the corresponding sample in
//! the issues fixture — an unwrap, a needless return, a truncating cast
//! — with a contract that pins down whatever the routine computes.
//! Routines whose only behaviour is to panic, and routines built on
//! code the verifier refuses, have no analogue here.

use vstd::prelude::*;
use vstd::string::StringExecFns;

verus! {

/// Unwraps an option that provably holds a value.
pub fn unwrap_example() {
    let x: Option<i32> = Some(1);
    let _ = x.unwrap();
}

/// Unwraps a result that provably holds a success value.
pub fn unwrap_result() {
    let x: Result<i32, &str> = Ok(1);
    let _ = x.unwrap();
}

/// Unwraps a result with a message, on a provably successful value.
pub fn expect_example() {
    let x: Result<i32, &str> = Ok(1);
    let _ = x.expect("failed");
}

/// The sample panics when asked to; that input is excluded here, so the
/// panicking branch is provably unreachable.
pub fn panic_example(should_panic: bool)
    requires
        !should_panic,
{
    if should_panic {
        proof {
            assert(false);
        }
    }
}

/// The decision table of the deeply nested sample: which branch the
/// four sign tests select.
pub open spec fn complex_outcome(a: i32, b: i32, c: i32, d: i32) -> i32 {
    if a > 0 {
        if b > 0 {
            if c > 0 {
                if d > 0 {
                    1
                } else {
                    2
                }
            } else {
                if d > 0 {
                    3
                } else {
                    4
                }
            }
        } else {
            if c > 0 {
                5
            } else {
                6
            }
        }
    } else {
        7
    }
}

/// Deeply nested branching over the signs of four integers.
pub fn complex_function(a: i32, b: i32, c: i32, d: i32) -> (result: i32)
    ensures
        result == complex_outcome(a, b, c, d),
{
    let mut result: i32 = 0;
    if a > 0 {
        if b > 0 {
            if c > 0 {
                if d > 0 {
                    result = 1;
                } else {
                    result = 2;
                }
            } else {
                if d > 0 {
                    result = 3;
                } else {
                    result = 4;
                }
            }
        } else {
            if c > 0 {
                result = 5;
            } else {
                result = 6;
            }
        }
    } else {
        result = 7;
    }
    result
}

/// Sums eight integers. The intermediate sum is widened, so only the
/// total is required to fit.
pub fn too_many_args(
    a: i32,
    b: i32,
    c: i32,
    d: i32,
    e: i32,
    f: i32,
    g: i32,
    h: i32,
) -> (result: i32)
    requires
        i32::MIN <= a + b + c + d + e + f + g + h <= i32::MAX,
    ensures
        result == a + b + c + d + e + f + g + h,
{
    let wide: i64 = a as i64 + b as i64 + c as i64 + d as i64 + e as i64 + f as i64 + g as i64
        + h as i64;
    wide as i32
}

/// Returns its argument plus one, through an explicit return.
pub fn needless_return_example(x: i32) -> (result: i32)
    requires
        x < i32::MAX,
    ensures
        result == x + 1,
{
    return x + 1;
}

/// Clones a value of a copyable type.
pub fn clone_on_copy() {
    let x: i32 = 5;
    let y = x.clone();
    assert(y == x);
}

/// Maps an option by hand: a held value comes back incremented, an
/// absent value stays absent.
pub fn manual_map_example(x: Option<i32>) -> (result: Option<i32>)
    requires
        x is Some ==> x->0 < i32::MAX,
    ensures
        x is None ==> result is None,
        x is Some ==> result is Some && result->0 == x->0 + 1,
{
    match x {
        Some(v) => Some(v + 1),
        None => None,
    }
}

/// Renders each element of a small vector through a closure that only
/// forwards to the rendering call.
#[verifier::loop_isolation(false)]
pub fn redundant_closure_example() {
    let v: Vec<i32> = vec![1, 2, 3];
    let render = |x: i32| -> (r: String)
        requires
            x >= i32::MIN,
        {
            x.to_string()
        };
    let mut out: Vec<String> = Vec::new();
    let mut i: usize = 0;
    while i < v.len()
        invariant
            i <= v@.len(),
        decreases v@.len() - i,
    {
        out.push(render(v[i]));
        i = i + 1;
    }
}

/// Casts a value that does not fit the narrower type; the cast
/// truncates.
pub fn cast_truncation() {
    let x: i64 = 1_000_000_000_000;
    let _y: i32 = #[verifier::truncate] (x as i32);
}

/// Casts a negative value to an unsigned type; the cast loses the sign.
pub fn cast_sign_loss() {
    let x: i32 = -5;
    let _y: u32 = #[verifier::truncate] (x as u32);
}

/// Concatenates two strings with an owning concatenation.
pub fn string_add() {
    let s1: String = "Hello, ".to_owned();
    let s2: String = "world!".to_owned();
    let s3 = s1.concat(s2.as_str());
    assert(s3@ == "Hello, "@ + "world!"@);
}

/// The mathematical sum of a sequence of integers.
pub open spec fn sum_of(s: Seq<i32>) -> int
    decreases s.len(),
{
    if s.len() == 0 {
        0
    } else {
        sum_of(s.drop_last()) + s.last()
    }
}

/// Sums the elements of a vector taken by reference. Every prefix sum
/// is required to fit, so the running total never overflows.
pub fn ptr_arg_example(v: &Vec<i32>) -> (result: i32)
    requires
        forall|i: int| 0 <= i <= v@.len() ==> i32::MIN <= sum_of(#[trigger] v@.take(i)) <= i32::MAX,
    ensures
        result == sum_of(v@),
{
    let mut total: i32 = 0;
    let mut i: usize = 0;
    while i < v.len()
        invariant
            i <= v@.len(),
            total == sum_of(v@.take(i as int)),
            forall|k: int|
                0 <= k <= v@.len() ==> i32::MIN <= sum_of(#[trigger] v@.take(k)) <= i32::MAX,
        decreases v@.len() - i,
    {
        proof {
            assert(v@.take(i as int + 1).drop_last() =~= v@.take(i as int));
            assert(v@.take(i as int + 1).last() == v@[i as int]);
            assert(sum_of(v@.take(i as int + 1)) == sum_of(v@.take(i as int)) + v@[i as int]);
        }
        total = total + v[i];
        i = i + 1;
    }
    proof {
        assert(v@.take(v@.len() as int) =~= v@);
    }
    total
}

/// Whether a slice is empty, tested by comparing its length to zero.
pub fn len_zero_example(v: &[i32]) -> (result: bool)
    ensures
        result == (v@.len() == 0),
{
    v.len() == 0
}

/// Takes a reference to a local and reads it back through the
/// reference.
pub fn dangerous_ref_patterns() {
    let x: i32 = 5;
    let r: &i32 = &x;
    let copied: i32 = *r;
    assert(copied == 5);
}

} // verus!
