//! Guess evaluation: scoring a clicked location by its distance to the
//! target, or a typed name by normalized (trimmed, case-insensitive)
//! equality with the target's name.
//!
//! A location guess earns the per-round maximum minus the guess's distance to
//! the target, rounded to whole scene units, floored at zero. Distances are
//! computed exactly on milliunit coordinates with an integer square root.

use vstd::arithmetic::div_mod::lemma_div_is_ordered;
use vstd::prelude::*;
use vstd::string::StrSliceExecFns;

use crate::types::{guess_in_bounds, local_in_bounds, CityRecord, GuessType, LocalPoint};
use crate::MAX_POINTS;

verus! {

/// True when `s` is the integer square root of `n` rounded down.
pub open spec fn is_sqrt_floor(n: int, s: int) -> bool {
    &&& 0 <= s
    &&& s * s <= n
    &&& n < (s + 1) * (s + 1)
}

/// The integer square root of `n`, rounded down; meaningful for `n >= 0`.
pub open spec fn sqrt_floor(n: int) -> int {
    choose|s: int| is_sqrt_floor(n, s)
}

/// Every nonnegative integer has a floored square root.
pub proof fn lemma_sqrt_floor_exists(n: int)
    requires
        n >= 0,
    ensures
        is_sqrt_floor(n, sqrt_floor(n)),
    decreases n,
{
    if n == 0 {
        assert(is_sqrt_floor(0, 0));
    } else {
        lemma_sqrt_floor_exists(n - 1);
        let s = sqrt_floor(n - 1);
        if (s + 1) * (s + 1) <= n {
            assert(n == (s + 1) * (s + 1));
            assert(n < (s + 2) * (s + 2)) by (nonlinear_arith)
                requires
                    n == (s + 1) * (s + 1),
                    s >= 0,
            ;
            assert(is_sqrt_floor(n, s + 1));
        } else {
            assert(is_sqrt_floor(n, s));
        }
    }
}

/// The floored square root is unique: any witness equals `sqrt_floor`.
pub proof fn lemma_sqrt_floor_is(n: int, s: int)
    requires
        is_sqrt_floor(n, s),
    ensures
        sqrt_floor(n) == s,
{
    let t = sqrt_floor(n);
    assert(is_sqrt_floor(n, t));
    if t < s {
        assert((t + 1) * (t + 1) <= s * s) by (nonlinear_arith)
            requires
                0 <= t < s,
        ;
    } else if s < t {
        assert((s + 1) * (s + 1) <= t * t) by (nonlinear_arith)
            requires
                0 <= s < t,
        ;
    }
}

/// The floored square root is monotone.
pub proof fn lemma_sqrt_floor_monotone(a: int, b: int)
    requires
        0 <= a <= b,
    ensures
        sqrt_floor(a) <= sqrt_floor(b),
{
    lemma_sqrt_floor_exists(a);
    lemma_sqrt_floor_exists(b);
    let sa = sqrt_floor(a);
    let sb = sqrt_floor(b);
    if sb < sa {
        assert((sb + 1) * (sb + 1) <= sa * sa) by (nonlinear_arith)
            requires
                0 <= sb < sa,
        ;
    }
}

/// The squared distance between two local points, in squared milliunits.
pub open spec fn dist2_spec(p: LocalPoint, q: LocalPoint) -> int {
    let dx = p.x_milli - q.x_milli;
    let dy = p.y_milli - q.y_milli;
    dx * dx + dy * dy
}

/// A squared distance is never negative.
pub proof fn lemma_dist2_nonneg(p: LocalPoint, q: LocalPoint)
    ensures
        dist2_spec(p, q) >= 0,
{
    let dx = p.x_milli - q.x_milli;
    let dy = p.y_milli - q.y_milli;
    assert(dx * dx >= 0 && dy * dy >= 0) by (nonlinear_arith);
}

/// The distance in whole scene units, rounded half-up, for a squared
/// distance in squared milliunits.
pub open spec fn rounded_dist_units(d2: int) -> int {
    (sqrt_floor(d2) + 500) / 1000
}

/// Points awarded for a location guess with squared distance `d2` to the
/// target: the per-round maximum minus the rounded distance in units,
/// floored at zero.
pub open spec fn points_of_dist2(d2: int) -> int {
    let k = rounded_dist_units(d2);
    if k >= MAX_POINTS as int {
        0
    } else {
        MAX_POINTS as int - k
    }
}

/// What the lowercasing of a character sequence returns; the trusted
/// lowercasing wrapper ties it to the standard library.
pub uninterp spec fn lower_of(s: Seq<char>) -> Seq<char>;

/// Whether a character counts as whitespace; the trusted whitespace wrapper
/// ties it to the standard library.
pub uninterp spec fn is_ws(c: char) -> bool;

/// `s` with its leading whitespace removed.
pub open spec fn ltrim(s: Seq<char>) -> Seq<char>
    decreases s.len(),
{
    if s.len() > 0 && is_ws(s[0]) {
        ltrim(s.drop_first())
    } else {
        s
    }
}

/// `s` with its trailing whitespace removed.
pub open spec fn rtrim(s: Seq<char>) -> Seq<char>
    decreases s.len(),
{
    if s.len() > 0 && is_ws(s.last()) {
        rtrim(s.drop_last())
    } else {
        s
    }
}

/// `s` with leading and trailing whitespace removed.
pub open spec fn trim_spec(s: Seq<char>) -> Seq<char> {
    rtrim(ltrim(s))
}

/// Whether a typed guess matches a target name: equal after trimming
/// whitespace and lowercasing both sides.
pub open spec fn name_matches(guess: Seq<char>, target: Seq<char>) -> bool {
    lower_of(trim_spec(guess)) == lower_of(trim_spec(target))
}

/// Points awarded for a guess against a target city.
pub open spec fn eval_spec(g: GuessType, t: CityRecord) -> int {
    match g {
        GuessType::Name(s) => if name_matches(s@, t.name@) {
            MAX_POINTS as int
        } else {
            0
        },
        GuessType::Location(p) => points_of_dist2(dist2_spec(p, t.location)),
    }
}

/// Relies on char::is_whitespace: whether the character has the Unicode
/// whitespace property, a fact of the character alone.
#[verifier::external_body]
fn ws_char(c: char) -> (r: bool)
    ensures
        r == is_ws(c),
{
    c.is_whitespace()
}

/// Relies on str::to_lowercase: the lowercased text is a function of the
/// characters alone.
#[verifier::external_body]
fn lowercase(s: &str) -> (r: String)
    ensures
        r@ == lower_of(s@),
{
    s.to_lowercase()
}

/// Remove leading and trailing whitespace from a string slice.
pub fn trim_str<'a>(s: &'a str) -> (r: &'a str)
    ensures
        r@ == trim_spec(s@),
{
    let n = s.unicode_len();
    proof {
        assert(s@.subrange(0, n as int) =~= s@);
    }
    let mut i: usize = 0;
    while i < n
        invariant
            i <= n,
            n == s@.len(),
            ltrim(s@) == ltrim(s@.subrange(i as int, n as int)),
        ensures
            i <= n,
            n == s@.len(),
            ltrim(s@) == s@.subrange(i as int, n as int),
        decreases n - i,
    {
        let c = s.get_char(i);
        if !ws_char(c) {
            proof {
                let t = s@.subrange(i as int, n as int);
                assert(t[0] == s@[i as int]);
            }
            break ;
        }
        proof {
            let t = s@.subrange(i as int, n as int);
            assert(t[0] == s@[i as int]);
            assert(t.drop_first() =~= s@.subrange(i as int + 1, n as int));
        }
        i += 1;
    }
    proof {
        if i == n {
            assert(s@.subrange(i as int, n as int) =~= Seq::<char>::empty());
        }
    }
    let mut j: usize = n;
    while j > i
        invariant
            i <= j <= n,
            n == s@.len(),
            ltrim(s@) == s@.subrange(i as int, n as int),
            rtrim(s@.subrange(i as int, n as int)) == rtrim(s@.subrange(i as int, j as int)),
        ensures
            i <= j <= n,
            n == s@.len(),
            rtrim(s@.subrange(i as int, n as int)) == s@.subrange(i as int, j as int),
        decreases j,
    {
        let c = s.get_char(j - 1);
        if !ws_char(c) {
            proof {
                let t = s@.subrange(i as int, j as int);
                assert(t.last() == s@[j as int - 1]);
            }
            break ;
        }
        proof {
            let t = s@.subrange(i as int, j as int);
            assert(t.last() == s@[j as int - 1]);
            assert(t.drop_last() =~= s@.subrange(i as int, j as int - 1));
        }
        j -= 1;
    }
    proof {
        if i == j {
            assert(s@.subrange(i as int, j as int) =~= Seq::<char>::empty());
        }
    }
    s.substring_char(i, j)
}

/// The integer square root of `n`, rounded down.
pub fn isqrt(n: u64) -> (r: u64)
    ensures
        is_sqrt_floor(n as int, r as int),
        r <= 4_294_967_295,
{
    let mut lo: u64 = 0;
    let mut hi: u64 = 4_294_967_296;
    while lo + 1 < hi
        invariant
            lo < hi <= 4_294_967_296,
            (lo as int) * (lo as int) <= n as int,
            (n as int) < (hi as int) * (hi as int),
        decreases hi - lo,
    {
        let mid = lo + (hi - lo) / 2;
        assert(mid * mid <= 0xFFFF_FFFE_0000_0001u64) by (nonlinear_arith)
            requires
                mid <= 4_294_967_295u64,
        ;
        if mid * mid <= n {
            lo = mid;
        } else {
            hi = mid;
        }
    }
    lo
}

/// Points for a clicked location: the per-round maximum minus the rounded
/// distance to the target in scene units, never below zero.
pub fn points_for_location(p: &LocalPoint, q: &LocalPoint) -> (r: u32)
    requires
        local_in_bounds(*p),
        local_in_bounds(*q),
    ensures
        r as int == points_of_dist2(dist2_spec(*p, *q)),
        r <= MAX_POINTS,
{
    let dx: u64 = if p.x_milli >= q.x_milli {
        (p.x_milli - q.x_milli) as u64
    } else {
        (q.x_milli - p.x_milli) as u64
    };
    let dy: u64 = if p.y_milli >= q.y_milli {
        (p.y_milli - q.y_milli) as u64
    } else {
        (q.y_milli - p.y_milli) as u64
    };
    proof {
        let dxi = p.x_milli as int - q.x_milli as int;
        let dyi = p.y_milli as int - q.y_milli as int;
        assert(dx as int * dx as int == dxi * dxi && dx as int * dx as int
            <= 4_000_000_000_000_000_000) by (nonlinear_arith)
            requires
                dx as int == dxi || dx as int == -dxi,
                -2_000_000_000 <= dx as int <= 2_000_000_000,
        ;
        assert(dy as int * dy as int == dyi * dyi && dy as int * dy as int
            <= 4_000_000_000_000_000_000) by (nonlinear_arith)
            requires
                dy as int == dyi || dy as int == -dyi,
                -2_000_000_000 <= dy as int <= 2_000_000_000,
        ;
    }
    let d2: u64 = dx * dx + dy * dy;
    let s = isqrt(d2);
    proof {
        lemma_sqrt_floor_is(d2 as int, s as int);
    }
    let k: u64 = (s + 500) / 1000;
    if k >= MAX_POINTS as u64 {
        0
    } else {
        (MAX_POINTS as u64 - k) as u32
    }
}

/// Score a guess against the active target city: the distance-based award
/// for a clicked location, or all-or-nothing for a typed name matched
/// case-insensitively after trimming whitespace. Pure: the result is a
/// function of the guess and the target alone.
pub fn evaluate(guess: &GuessType, target: &CityRecord) -> (r: u32)
    requires
        guess_in_bounds(*guess),
        target.wf(),
    ensures
        r as int == eval_spec(*guess, *target),
        r <= MAX_POINTS,
{
    match guess {
        GuessType::Name(s) => {
            let gt = trim_str(s.as_str());
            let tt = trim_str(target.name.as_str());
            let gl = lowercase(gt);
            let tl = lowercase(tt);
            if gl == tl {
                MAX_POINTS
            } else {
                0
            }
        },
        GuessType::Location(p) => points_for_location(p, &target.location),
    }
}

/// Law: distance scoring is monotone. Of two clicked locations, the one
/// closer to the target never earns fewer points.
pub proof fn lemma_distance_monotonic(p1: LocalPoint, p2: LocalPoint, t: CityRecord)
    requires
        dist2_spec(p1, t.location) <= dist2_spec(p2, t.location),
    ensures
        eval_spec(GuessType::Location(p1), t) >= eval_spec(GuessType::Location(p2), t),
{
    let a = dist2_spec(p1, t.location);
    let b = dist2_spec(p2, t.location);
    lemma_dist2_nonneg(p1, t.location);
    lemma_sqrt_floor_monotone(a, b);
    lemma_div_is_ordered(sqrt_floor(a) + 500, sqrt_floor(b) + 500, 1000);
}

/// Law: an evaluation is never negative and never exceeds the per-round
/// maximum, however far the guess is from the target.
pub proof fn lemma_points_bounded(g: GuessType, t: CityRecord)
    ensures
        0 <= eval_spec(g, t) <= MAX_POINTS,
{
    match g {
        GuessType::Name(_) => {
        },
        GuessType::Location(p) => {
            let d2 = dist2_spec(p, t.location);
            lemma_dist2_nonneg(p, t.location);
            lemma_sqrt_floor_exists(d2);
            assert(rounded_dist_units(d2) >= 0);
        },
    }
}

} // verus!
