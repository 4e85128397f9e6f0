//! Integer square roots and planar vector helpers on fixed-point values.
use vstd::prelude::*;

verus! {

/// Largest component magnitude accepted for a planar vector (mm/s, or ppm of a unit vector).
pub const VEC_LIMIT: i64 = 1_000_000_000;

pub open spec fn abs(x: int) -> int {
    if x < 0 { -x } else { x }
}

pub open spec fn len_sq(x: int, z: int) -> int {
    x * x + z * z
}

/// Division that rounds toward zero, as Rust's `/` does on signed integers.
pub open spec fn div_trunc(a: int, b: int) -> int {
    if a >= 0 { a / b } else { -((-a) / b) }
}

/// The smallest `c` with `n <= c * c`, found by counting up from `c`.
pub open spec fn ceil_sqrt_from(n: nat, c: nat) -> nat
    decreases n - c,
{
    if n <= c * c || n <= c {
        c
    } else {
        ceil_sqrt_from(n, c + 1)
    }
}

/// The smallest natural number whose square is at least `n`.
pub open spec fn ceil_sqrt(n: nat) -> nat {
    ceil_sqrt_from(n, 0)
}

/// The largest natural number whose square is at most `n`.
pub open spec fn is_floor_sqrt(r: nat, n: nat) -> bool {
    r * r <= n && n < (r + 1) * (r + 1)
}

proof fn lemma_square_monotone(a: nat, b: nat)
    requires
        a <= b,
    ensures
        a * a <= b * b,
{
    assert(a * a <= a * b) by (nonlinear_arith)
        requires a <= b;
    assert(a * b <= b * b) by (nonlinear_arith)
        requires a <= b;
}

proof fn lemma_ceil_sqrt_from(n: nat, k: nat, c: nat)
    requires
        k <= c,
        n <= c * c,
        c == 0 || (c - 1) * (c - 1) < n,
    ensures
        ceil_sqrt_from(n, k) == c,
    decreases c - k,
{
    if k < c {
        lemma_square_monotone(k, (c - 1) as nat);
        assert(k * k < n);
        assert(k < n) by (nonlinear_arith)
            requires k * k < n, k < c, c >= 1;
        lemma_ceil_sqrt_from(n, k + 1, c);
    } else {
        assert(n <= c * c);
    }
}

/// `c` is the ceiling square root of `n` exactly when it meets the defining bounds.
pub proof fn lemma_ceil_sqrt_unique(n: nat, c: nat)
    requires
        n <= c * c,
        c == 0 || (c - 1) * (c - 1) < n,
    ensures
        ceil_sqrt(n) == c,
{
    lemma_ceil_sqrt_from(n, 0, c);
}

/// Floor of the square root of `n`.
pub fn isqrt_floor(n: u64) -> (r: u64)
    ensures
        is_floor_sqrt(r as nat, n as nat),
        r as nat == floor_sqrt(n as nat),
{
    let mut lo: u64 = 0;
    let mut hi: u64 = 4_294_967_296;
    assert(4_294_967_296int * 4_294_967_296int > u64::MAX as int);
    while hi - lo > 1
        invariant
            lo < hi <= 4_294_967_296,
            lo as int * lo as int <= n as int,
            (n as int) < hi as int * hi as int,
        decreases hi - lo,
    {
        let mid: u64 = lo + (hi - lo) / 2;
        proof {
            lemma_square_monotone(mid as nat, 4_294_967_296);
        }
        let sq: u128 = (mid as u128) * (mid as u128);
        if sq <= n as u128 {
            lo = mid;
        } else {
            hi = mid;
        }
    }
    proof {
        lemma_floor_sqrt_unique(n as nat, lo as nat);
    }
    lo
}

/// `floor_sqrt(n)` meets the defining bounds of the floor square root.
pub proof fn lemma_floor_sqrt_bounds(n: nat)
    ensures
        is_floor_sqrt(floor_sqrt(n), n),
{
    let c = ceil_sqrt(n);
    lemma_ceil_sqrt_bounds(n);
    if c * c != n {
        assert(c > 0);
        assert(((c - 1) as nat + 1) * ((c - 1) as nat + 1) == c * c);
    } else {
        lemma_square_monotone(c, c + 1);
        assert(c * c < (c + 1) * (c + 1)) by (nonlinear_arith);
    }
}

/// `r` is the floor square root of `n` exactly when it meets the defining bounds.
pub proof fn lemma_floor_sqrt_unique(n: nat, r: nat)
    requires
        is_floor_sqrt(r, n),
    ensures
        floor_sqrt(n) == r,
{
    if r * r == n {
        if r > 0 {
            assert((r - 1) * (r - 1) < r * r) by (nonlinear_arith)
                requires r > 0;
        }
        lemma_ceil_sqrt_unique(n, r);
    } else {
        lemma_ceil_sqrt_unique(n, r + 1);
    }
}

/// Ceiling of the square root of `n`.
pub fn isqrt_ceil(n: u64) -> (r: u64)
    ensures
        r as nat == ceil_sqrt(n as nat),
        r <= 4_294_967_296,
{
    let f = isqrt_floor(n);
    proof {
        if f >= 4_294_967_296 {
            lemma_square_monotone(4_294_967_296, f as nat);
            assert(false);
        }
    }
    if (f as u128) * (f as u128) < n as u128 {
        proof {
            lemma_ceil_sqrt_unique(n as nat, (f + 1) as nat);
        }
        f + 1
    } else {
        proof {
            if f > 0 {
                assert((f - 1) * (f - 1) < f * f) by (nonlinear_arith)
                    requires f > 0;
            }
            lemma_ceil_sqrt_unique(n as nat, f as nat);
        }
        f
    }
}


/// Largest component magnitude accepted for a difference of two planar vectors.
pub const DIFF_LIMIT: i64 = 2_000_000_001;

/// The vector `(x, z)` shortened, keeping its direction, so that its length is at most `m`.
/// A vector already short enough is left as it is; a longer one has each component scaled by
/// `m / ceil_sqrt(x² + z²)`, rounding toward zero.
pub open spec fn clamped(x: int, z: int, m: int) -> (int, int) {
    if len_sq(x, z) <= m * m {
        (x, z)
    } else {
        scaled_to(x, z, m)
    }
}

/// `(x, z)` rescaled to length `m`: each component times `m / ceil_sqrt(x² + z²)`, rounded
/// toward zero, so the result is never longer than `m`.
pub open spec fn scaled_to(x: int, z: int, m: int) -> (int, int) {
    let l = ceil_sqrt(len_sq(x, z) as nat) as int;
    (div_trunc(x * m, l), div_trunc(z * m, l))
}

/// The largest natural number whose square is at most `n`.
pub open spec fn floor_sqrt(n: nat) -> nat {
    let c = ceil_sqrt(n);
    if c * c == n { c } else { (c - 1) as nat }
}

proof fn lemma_scaled_component(a: nat, m: nat, l: nat)
    requires
        l > 0,
    ensures
        (a * m / l) * l <= a * m,
        a <= l ==> a * m / l <= m,
        m <= l ==> a * m / l <= a,
{
    vstd::arithmetic::div_mod::lemma_fundamental_div_mod(a * m as int, l as int);
    vstd::arithmetic::div_mod::lemma_mod_pos_bound(a * m as int, l as int);
    assert((a * m / l) * l <= a * m) by (nonlinear_arith)
        requires
            (a * m) as int == l * ((a * m) as int / l as int) + (a * m) as int % l as int,
            (a * m) as int % l as int >= 0;
    if a <= l {
        assert(a * m <= l * m) by (nonlinear_arith)
            requires a <= l;
        vstd::arithmetic::div_mod::lemma_div_is_ordered((a * m) as int, (m * l) as int, l as int);
        vstd::arithmetic::div_mod::lemma_div_by_multiple(m as int, l as int);
    }
    if m <= l {
        assert(a * m <= a * l) by (nonlinear_arith)
            requires m <= l;
        vstd::arithmetic::div_mod::lemma_div_is_ordered((a * m) as int, (a * l) as int, l as int);
        vstd::arithmetic::div_mod::lemma_div_by_multiple(a as int, l as int);
    }
}

/// A nonzero vector rescaled to length `m` is no longer than `m`, each component is at most
/// `m` in magnitude and keeps its sign, and when the vector was longer than `m` no component
/// grows.
pub proof fn lemma_scaled_bounds(x: int, z: int, m: int)
    requires
        m >= 0,
        len_sq(x, z) > 0,
    ensures
        len_sq(scaled_to(x, z, m).0, scaled_to(x, z, m).1) <= m * m,
        abs(scaled_to(x, z, m).0) <= m,
        abs(scaled_to(x, z, m).1) <= m,
        scaled_to(x, z, m).0 * x >= 0,
        scaled_to(x, z, m).1 * z >= 0,
        m * m < len_sq(x, z) ==> abs(scaled_to(x, z, m).0) <= abs(x),
        m * m < len_sq(x, z) ==> abs(scaled_to(x, z, m).1) <= abs(z),
{
    let n = len_sq(x, z);
    let l = ceil_sqrt(n as nat);
    lemma_ceil_sqrt_bounds(n as nat);
    let a = abs(x) as nat;
    let b = abs(z) as nat;
    assert(l > 0);
    assert(a * a + b * b == n) by (nonlinear_arith)
        requires a == abs(x), b == abs(z), n == x * x + z * z;
    assert(a * a <= l * l && b * b <= l * l) by (nonlinear_arith)
        requires a * a + b * b == n, n <= l * l;
    if a > l {
        lemma_square_monotone(l, a);
        assert(l * l < a * a) by (nonlinear_arith)
            requires l < a;
    }
    if b > l {
        assert(l * l < b * b) by (nonlinear_arith)
            requires l < b;
    }
    if m * m < n && l <= m {
        lemma_square_monotone(l, m as nat);
    }
    lemma_scaled_component(a, m as nat, l);
    lemma_scaled_component(b, m as nat, l);
    let p = a * (m as nat) / l;
    let q = b * (m as nat) / l;
    assert(div_trunc(x * m, l as int) == if x >= 0 { p as int } else { -p }) by {
        if x < 0 {
            assert(-(x * m) == a * m) by (nonlinear_arith)
                requires a == -x;
        } else {
            assert(x * m == a * m);
        }
    }
    assert(div_trunc(z * m, l as int) == if z >= 0 { q as int } else { -q }) by {
        if z < 0 {
            assert(-(z * m) == b * m) by (nonlinear_arith)
                requires b == -z;
        } else {
            assert(z * m == b * m);
        }
    }
    assert(p * p + q * q <= m * m) by (nonlinear_arith)
        requires
            p * l <= a * m,
            q * l <= b * m,
            a * a + b * b <= l * l,
            l > 0,
            m >= 0,
    {
        assert(p * p * (l * l) <= a * a * (m * m));
        assert(q * q * (l * l) <= b * b * (m * m));
        assert((p * p + q * q) * (l * l) <= (a * a + b * b) * (m * m));
        assert((a * a + b * b) * (m * m) <= (l * l) * (m * m));
    }
    let rx = scaled_to(x, z, m).0;
    let rz = scaled_to(x, z, m).1;
    assert(rx * rx == p * p && rz * rz == q * q) by (nonlinear_arith)
        requires
            rx == p || rx == -p,
            rz == q || rz == -q;
    if x < 0 {
        assert((-p) * x >= 0) by (nonlinear_arith)
            requires x < 0, p >= 0;
    } else {
        assert(p * x >= 0) by (nonlinear_arith)
            requires x >= 0, p >= 0;
    }
    if z < 0 {
        assert((-q) * z >= 0) by (nonlinear_arith)
            requires z < 0, q >= 0;
    } else {
        assert(q * z >= 0) by (nonlinear_arith)
            requires z >= 0, q >= 0;
    }
}

/// The shortened vector is no longer than `m`, and each of its components keeps the sign of
/// the corresponding input component and is no larger in magnitude.
pub proof fn lemma_clamped_bounds(x: int, z: int, m: int)
    requires
        m >= 0,
    ensures
        len_sq(clamped(x, z, m).0, clamped(x, z, m).1) <= m * m,
        abs(clamped(x, z, m).0) <= abs(x),
        abs(clamped(x, z, m).1) <= abs(z),
        clamped(x, z, m).0 * x >= 0,
        clamped(x, z, m).1 * z >= 0,
{
    assert(x * x >= 0 && z * z >= 0 && m * m >= 0) by (nonlinear_arith);
    if len_sq(x, z) > m * m {
        lemma_scaled_bounds(x, z, m);
    }
}

/// A component that keeps the sign of `x` and is no larger in magnitude lies between 0 and `x`.
pub proof fn lemma_between_zero(x: int, d: int)
    requires
        d * x >= 0,
        abs(d) <= abs(x),
    ensures
        (0 <= d <= x) || (x <= d <= 0),
{
    if x > 0 && d < 0 {
        assert(d * x < 0) by (nonlinear_arith)
            requires x > 0, d < 0;
    }
    if x < 0 && d > 0 {
        assert(d * x < 0) by (nonlinear_arith)
            requires x < 0, d > 0;
    }
}

/// `ceil_sqrt(n)` squared is at least `n`, and the number just below it squares to less.
pub proof fn lemma_ceil_sqrt_bounds(n: nat)
    ensures
        n <= ceil_sqrt(n) * ceil_sqrt(n),
        ceil_sqrt(n) == 0 || (ceil_sqrt(n) - 1) * (ceil_sqrt(n) - 1) < n,
{
    lemma_ceil_sqrt_from_bounds(n, 0);
}

proof fn lemma_ceil_sqrt_from_bounds(n: nat, k: nat)
    requires
        k == 0 || (k - 1) * (k - 1) < n,
    ensures
        n <= ceil_sqrt_from(n, k) * ceil_sqrt_from(n, k),
        ceil_sqrt_from(n, k) == 0 || (ceil_sqrt_from(n, k) - 1) * (ceil_sqrt_from(n, k) - 1) < n,
    decreases n - k,
{
    if n <= k * k {
    } else if n <= k {
        assert(k * k >= k) by (nonlinear_arith)
            requires k >= 1;
    } else {
        assert(k * k < n);
        lemma_ceil_sqrt_from_bounds(n, k + 1);
    }
}

/// Rescales the nonzero vector `(x, z)` to length `m` (rounding toward zero).
pub fn scale_to_length(x: i64, z: i64, m: i64) -> (r: (i64, i64))
    requires
        -DIFF_LIMIT <= x <= DIFF_LIMIT,
        -DIFF_LIMIT <= z <= DIFF_LIMIT,
        x != 0 || z != 0,
        0 <= m <= VEC_LIMIT,
    ensures
        (r.0 as int, r.1 as int) == scaled_to(x as int, z as int, m as int),
        -m <= r.0 <= m,
        -m <= r.1 <= m,
{
    let ax: u64 = if x < 0 { (-x) as u64 } else { x as u64 };
    let az: u64 = if z < 0 { (-z) as u64 } else { z as u64 };
    proof {
        lemma_square_monotone(ax as nat, DIFF_LIMIT as nat);
        lemma_square_monotone(az as nat, DIFF_LIMIT as nat);
        assert(ax * ax == x * x && az * az == z * z) by (nonlinear_arith)
            requires ax == abs(x as int), az == abs(z as int);
        assert(ax * ax > 0 || az * az > 0) by (nonlinear_arith)
            requires ax > 0 || az > 0;
    }
    let n: u64 = ax * ax + az * az;
    let l = isqrt_ceil(n);
    proof {
        lemma_ceil_sqrt_bounds(n as nat);
        lemma_scaled_bounds(x as int, z as int, m as int);
        assert(ax as int * m as int <= DIFF_LIMIT as int * VEC_LIMIT as int) by (nonlinear_arith)
            requires ax <= DIFF_LIMIT, 0 <= m <= VEC_LIMIT;
        assert(az as int * m as int <= DIFF_LIMIT as int * VEC_LIMIT as int) by (nonlinear_arith)
            requires az <= DIFF_LIMIT, 0 <= m <= VEC_LIMIT;
        lemma_scaled_component(ax as nat, m as nat, l as nat);
        lemma_scaled_component(az as nat, m as nat, l as nat);
    }
    let p: u128 = (ax as u128) * (m as u128) / (l as u128);
    let q: u128 = (az as u128) * (m as u128) / (l as u128);
    proof {
        if x < 0 {
            assert(-(x * m) == ax * m) by (nonlinear_arith)
                requires ax == -x;
        } else {
            assert(x * m == ax * m);
        }
        if z < 0 {
            assert(-(z * m) == az * m) by (nonlinear_arith)
                requires az == -z;
        } else {
            assert(z * m == az * m);
        }
    }
    let rx: i64 = if x < 0 { -(p as i64) } else { p as i64 };
    let rz: i64 = if z < 0 { -(q as i64) } else { q as i64 };
    (rx, rz)
}

/// Shortens `(x, z)` to length at most `max_len`, keeping its direction.
pub fn clamp_length_max(x: i64, z: i64, max_len: i64) -> (r: (i64, i64))
    requires
        -DIFF_LIMIT <= x <= DIFF_LIMIT,
        -DIFF_LIMIT <= z <= DIFF_LIMIT,
        0 <= max_len <= VEC_LIMIT,
    ensures
        (r.0 as int, r.1 as int) == clamped(x as int, z as int, max_len as int),
{
    let ax: u64 = if x < 0 { (-x) as u64 } else { x as u64 };
    let az: u64 = if z < 0 { (-z) as u64 } else { z as u64 };
    proof {
        lemma_square_monotone(ax as nat, DIFF_LIMIT as nat);
        lemma_square_monotone(az as nat, DIFF_LIMIT as nat);
        lemma_square_monotone(max_len as nat, VEC_LIMIT as nat);
        assert(ax * ax == x * x && az * az == z * z) by (nonlinear_arith)
            requires ax == abs(x as int), az == abs(z as int);
    }
    let n: u64 = ax * ax + az * az;
    let m: u64 = max_len as u64;
    if n <= m * m {
        (x, z)
    } else {
        scale_to_length(x, z, max_len)
    }
}

} // verus!
