//! Scoring: circular distance between an objective and the stopped counter,
//! the score of one objective, and the random objectives of a turn.

use vstd::prelude::*;

use rand::rngs::ThreadRng;
use rand::Rng;

verus! {

/// Length of the counter's cycle: it counts 0, 1, ..., 99 and starts over.
pub const CYCLE: u32 = 100;

/// Largest objective that can be drawn (objectives range over 0..=100).
pub const MAX_OBJECTIVE: u32 = 100;

/// Message of the error returned when no objective is asked for.
pub const NO_OBJECTIVES_MESSAGE: &'static str = "Le nombre d'objectifs doit être supérieur à 0.";

/// `|a - b|`.
pub open spec fn abs_diff(a: int, b: int) -> int {
    if a >= b {
        a - b
    } else {
        b - a
    }
}

/// Distance between two positions on the counter's cycle of 100: the shorter
/// of the direct gap and the gap that goes round through 0.
pub open spec fn cyclic_distance(a: int, b: int) -> int {
    let d = abs_diff(a, b);
    if d <= 100 - d {
        d
    } else {
        100 - d
    }
}

/// The scale of base scores by distance to the objective:
/// 0 → 100, 1..=5 → 80, 6..=10 → 60, 11..=20 → 40, 21..=40 → 20, above → 0.
pub open spec fn base_points(difference: int) -> int {
    if difference == 0 {
        100
    } else if difference <= 5 {
        80
    } else if difference <= 10 {
        60
    } else if difference <= 20 {
        40
    } else if difference <= 40 {
        20
    } else {
        0
    }
}

/// Computes the circular distance between two values of the counter's cycle.
///
/// 95 and 15 are 20 apart, not 80, because the counter loops after 99.
/// The original operands are values from 0 to 100, so that they are at most
/// 100 apart.
pub fn circular_distance(a: u32, b: u32) -> (r: u32)
    requires
        abs_diff(a as int, b as int) <= 100,
    ensures
        r == cyclic_distance(a as int, b as int),
        a >= b && a - b <= 50 ==> r == a - b,
        a >= b && a - b > 50 ==> r == 100 - (a - b),
        a < b && b - a <= 50 ==> r == b - a,
        a < b && b - a > 50 ==> r == 100 - (b - a),
{
    let diff = if a >= b { a - b } else { b - a };
    let wrap_diff = CYCLE - diff;
    if diff <= wrap_diff {
        diff
    } else {
        wrap_diff
    }
}

/// The base score of an objective, from the distance between the objective
/// and the stopped counter.
pub fn base_score(difference: u32) -> (r: i32)
    ensures
        r == base_points(difference as int),
        difference == 0 ==> r == 100,
        1 <= difference <= 5 ==> r == 80,
        6 <= difference <= 10 ==> r == 60,
        11 <= difference <= 20 ==> r == 40,
        21 <= difference <= 40 ==> r == 20,
        difference > 40 ==> r == 0,
{
    if difference == 0 {
        100
    } else if difference <= 5 {
        80
    } else if difference <= 10 {
        60
    } else if difference <= 20 {
        40
    } else if difference <= 40 {
        20
    } else {
        0
    }
}

/// The score of one objective, as the exact fraction `numerator / denominator`.
#[derive(Debug, Clone, Copy, PartialEq, Eq, Structural)]
pub struct Score {
    pub numerator: i64,
    pub denominator: u64,
}

/// Computes the score of one objective: `(base + strength) / (miss + 1)`, where
/// `base` is the base score of the distance and `miss` counts the times the
/// counter went round before it was stopped.
pub fn calculate_score(difference: u32, strength: i32, miss: u32) -> (s: Score)
    ensures
        s.numerator == base_points(difference as int) + strength,
        s.denominator == miss + 1,
{
    let base = base_score(difference);
    Score { numerator: base as i64 + strength as i64, denominator: miss as u64 + 1 }
}

/// The thread-local random generator of the rand crate, carried through opaque.
#[verifier::external_type_specification]
#[verifier::external_body]
pub struct ExThreadRng(rand::rngs::ThreadRng);

/// Calls `rand::thread_rng`, the lazily seeded generator of the current thread.
/// Nothing is claimed of the generator; the call panics only where the
/// operating system gives no seed.
#[verifier::external_body]
fn thread_rng() -> ThreadRng {
    rand::thread_rng()
}

/// Calls `Rng::gen_range` with the inclusive range `low..=high`, which the rand
/// documentation says yields a value of that range (it panics only on an empty
/// range, which `requires` rules out). Which value comes out is left open.
#[verifier::external_body]
fn gen_range_inclusive(rng: &mut ThreadRng, low: u32, high: u32) -> (r: u32)
    requires
        low <= high,
    ensures
        low <= r <= high,
{
    rng.gen_range(low..=high)
}

/// Draws `count` random objectives, each from 0 to 100.
///
/// Fails when `count` is 0.
pub fn generate_objectives(count: usize) -> (r: Result<Vec<u32>, String>)
    ensures
        r is Err <==> count == 0,
        r matches Err(e) ==> e@ == NO_OBJECTIVES_MESSAGE@,
        r matches Ok(v) ==> v.len() == count && forall|i: int|
            0 <= i < v.len() ==> #[trigger] v[i] <= MAX_OBJECTIVE,
{
    if count == 0 {
        return Err(String::from_str(NO_OBJECTIVES_MESSAGE));
    }
    let mut rng = thread_rng();
    let mut objectives: Vec<u32> = Vec::new();
    let mut i: usize = 0;
    while i < count
        invariant
            i <= count,
            objectives.len() == i,
            forall|j: int| 0 <= j < objectives.len() ==> #[trigger] objectives[j] <= MAX_OBJECTIVE,
        decreases count - i,
    {
        let objective = gen_range_inclusive(&mut rng, 0, MAX_OBJECTIVE);
        objectives.push(objective);
        i = i + 1;
    }
    Ok(objectives)
}

/// The circular distance is symmetric.
pub proof fn lemma_distance_symmetric(a: int, b: int)
    ensures
        cyclic_distance(a, b) == cyclic_distance(b, a),
{
}

/// Two values at most 100 apart are at most 50 apart on the cycle, and their
/// circular distance is 0 exactly when they are equal or 100 apart.
pub proof fn lemma_distance_bounds(a: int, b: int)
    requires
        abs_diff(a, b) <= 100,
    ensures
        0 <= cyclic_distance(a, b) <= 50,
        cyclic_distance(a, b) == 0 <==> (a == b || abs_diff(a, b) == 100),
{
}

/// The circular distance is the direct gap when the two values are at most 50
/// apart, and otherwise the gap that goes round the cycle of 100.
pub proof fn lemma_distance_is_shorter_way(a: int, b: int)
    requires
        -100 <= a - b <= 100,
    ensures
        a >= b && a - b <= 50 ==> cyclic_distance(a, b) == a - b,
        a >= b && a - b > 50 ==> cyclic_distance(a, b) == 100 - (a - b),
        a < b && b - a <= 50 ==> cyclic_distance(a, b) == b - a,
        a < b && b - a > 50 ==> cyclic_distance(a, b) == 100 - (b - a),
        cyclic_distance(a, b) <= a - b || cyclic_distance(a, b) <= b - a,
        cyclic_distance(a, b) <= 100 - (a - b) || cyclic_distance(a, b) <= 100 - (b - a),
{
}

/// The scale of base scores: 100 for an exact stop, 80 up to 5 away, 60 up to
/// 10, 40 up to 20, 20 up to 40, and 0 beyond.
pub proof fn lemma_base_points_scale(d: int)
    requires
        d >= 0,
    ensures
        d == 0 ==> base_points(d) == 100,
        1 <= d <= 5 ==> base_points(d) == 80,
        6 <= d <= 10 ==> base_points(d) == 60,
        11 <= d <= 20 ==> base_points(d) == 40,
        21 <= d <= 40 ==> base_points(d) == 20,
        d > 40 ==> base_points(d) == 0,
{
}

/// A closer stop never earns a lower base score.
pub proof fn lemma_base_points_monotone(d1: int, d2: int)
    requires
        0 <= d1 <= d2,
    ensures
        base_points(d1) >= base_points(d2),
{
}

} // verus!
