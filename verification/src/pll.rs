//! PLL frequency solver and reconfiguration protocol.
//!
//! The solver searches the integer divider space `(M, N, P?, Q?, R?)` for the
//! configuration whose requested outputs come closest to their targets, all
//! arithmetic carried out exactly on integers.  Frequencies are compared
//! through their exact rational value `source * N / (M * divider)` in MHz, so
//! a parts-per-million error of zero means the target is hit exactly.

use vstd::prelude::*;

verus! {

use crate::clock_constants::PllConstants;
use crate::rcc::PllSource;
use crate::rcc::Rcc;
use crate::rcc::RccRegisters;
use crate::rcc::SysClockSource;
use crate::rcc::spec_msi_range_of;

/// Nominal frequency of the high-speed internal oscillator in MHz.
pub const HSI_FREQUENCY_MHZ: usize = 16;

/// Nominal frequency of the high-speed external oscillator in MHz.
pub const HSE_FREQUENCY_MHZ: usize = 32;

/// Errors of the PLL reconfiguration path.
#[derive(Clone, Copy, Debug, PartialEq, Eq, Structural)]
pub enum PllError {
    /// No divider combination satisfies every requested output within the
    /// given tolerance; no hardware state was changed.
    NoSolution,
    /// An unsupported or not-ready source selector was requested; rejected
    /// before any register write.
    InvalidSource,
    /// A polled hardware readiness flag never asserted within the bounded
    /// iteration count.
    Timeout,
    /// A caller-supplied divider or multiplier value lies outside the chip's
    /// allowed range; rejected before any register write.
    OutOfRangeDivider,
}

/// An immutable PLL configuration candidate chosen by the solver, with the
/// achieved whole-MHz frequency for each requested output.  An output that
/// was not requested carries `None` in both its divider and its frequency.
#[derive(Clone, Copy, Debug)]
pub struct PllSolution {
    /// Pre-divider `M`.
    pub m: u8,
    /// Multiplier `N`.
    pub n: u16,
    /// `P` output divider, present exactly when a `P` target was requested.
    pub p: Option<u8>,
    /// `Q` output divider, present exactly when a `Q` target was requested.
    pub q: Option<u8>,
    /// `R` output divider, present exactly when an `R` target was requested.
    pub r: Option<u8>,
    /// Achieved `P` frequency, rounded toward zero to whole MHz.
    pub actual_p_mhz: Option<usize>,
    /// Achieved `Q` frequency, rounded toward zero to whole MHz.
    pub actual_q_mhz: Option<usize>,
    /// Achieved `R` frequency, rounded toward zero to whole MHz.
    pub actual_r_mhz: Option<usize>,
}

/// A point of the solver's search space: dividers are `None` exactly for the
/// outputs that were not requested.
pub struct PllCandidate {
    /// Pre-divider `M`.
    pub m: u8,
    /// Multiplier `N`.
    pub n: u16,
    /// `P` output divider.
    pub p: Option<u8>,
    /// `Q` output divider.
    pub q: Option<u8>,
    /// `R` output divider.
    pub r: Option<u8>,
}

/// Largest source or target frequency, in MHz, the solver accepts; keeps
/// every intermediate product inside 64 bits.
pub const MAX_INPUT_MHZ: usize = 1_000_000;

/// `|a - b|` over mathematical integers.
pub open spec fn abs_diff(a: int, b: int) -> int {
    if a >= b {
        a - b
    } else {
        b - a
    }
}

/// The pre-divided source frequency `src_mhz / m` lies in the chip's VCO
/// input window: at least `vco_in_min_khz`, strictly below `vco_in_max_khz`.
pub open spec fn vco_in_ok(c: PllConstants, src_mhz: usize, m: u8) -> bool {
    c.vco_in_min_khz * m <= src_mhz * 1000 && src_mhz * 1000 < c.vco_in_max_khz * m
}

/// Parts-per-million error, truncated toward zero, of the exact rational
/// output frequency `src_mhz * n / (m * d)` against `target_mhz`.
pub open spec fn output_ppm(src_mhz: usize, n: u16, m: u8, d: u8, target_mhz: usize) -> int {
    abs_diff(src_mhz * n, target_mhz * m * d) * 1_000_000 / (target_mhz * m * d)
}

/// The output through divider `d` respects its frequency ceiling and its
/// parts-per-million tolerance.
pub open spec fn output_ok(
    src_mhz: usize,
    n: u16,
    m: u8,
    d: u8,
    target_mhz: usize,
    ceiling_mhz: u32,
    max_ppm_error: u32,
) -> bool {
    src_mhz * n <= ceiling_mhz * m * d && output_ppm(src_mhz, n, m, d, target_mhz)
        <= max_ppm_error
}

/// Achieved output frequency in whole MHz, rounded toward zero.
pub open spec fn floor_mhz(src_mhz: usize, n: u16, m: u8, d: u8) -> int {
    src_mhz * n / (m * d)
}

/// A divider selection matches its target: absent together with the target,
/// otherwise inside the allowed range.
pub open spec fn div_matches(target: Option<usize>, lo: u8, hi: u8, d: Option<u8>) -> bool {
    match (target, d) {
        (Option::None, Option::None) => true,
        (Option::Some(_), Option::Some(x)) => lo <= x <= hi,
        _ => false,
    }
}

/// The candidate satisfies every hardware range, the VCO input window, and
/// the ceiling and tolerance of every requested output.
pub open spec fn cand_valid(
    c: PllConstants,
    src_mhz: usize,
    target_p_mhz: Option<usize>,
    target_q_mhz: Option<usize>,
    target_r_mhz: Option<usize>,
    max_ppm_error: u32,
    k: PllCandidate,
) -> bool {
    &&& c.m_min <= k.m <= c.m_max
    &&& c.n_min <= k.n <= c.n_max
    &&& vco_in_ok(c, src_mhz, k.m)
    &&& div_matches(target_p_mhz, c.p_min, c.p_max, k.p)
    &&& div_matches(target_q_mhz, c.q_min, c.q_max, k.q)
    &&& div_matches(target_r_mhz, c.r_min, c.r_max, k.r)
    &&& match (target_p_mhz, k.p) {
        (Option::Some(t), Option::Some(d)) => output_ok(
            src_mhz,
            k.n,
            k.m,
            d,
            t,
            c.p_max_mhz,
            max_ppm_error,
        ),
        _ => true,
    }
    &&& match (target_q_mhz, k.q) {
        (Option::Some(t), Option::Some(d)) => output_ok(
            src_mhz,
            k.n,
            k.m,
            d,
            t,
            c.qr_max_mhz,
            max_ppm_error,
        ),
        _ => true,
    }
    &&& match (target_r_mhz, k.r) {
        (Option::Some(t), Option::Some(d)) => output_ok(
            src_mhz,
            k.n,
            k.m,
            d,
            t,
            c.qr_max_mhz,
            max_ppm_error,
        ),
        _ => true,
    }
}

/// Sum of the parts-per-million errors over the requested outputs.
pub open spec fn cand_score(
    src_mhz: usize,
    target_p_mhz: Option<usize>,
    target_q_mhz: Option<usize>,
    target_r_mhz: Option<usize>,
    k: PllCandidate,
) -> int {
    (match (target_p_mhz, k.p) {
        (Option::Some(t), Option::Some(d)) => output_ppm(src_mhz, k.n, k.m, d, t),
        _ => 0,
    }) + (match (target_q_mhz, k.q) {
        (Option::Some(t), Option::Some(d)) => output_ppm(src_mhz, k.n, k.m, d, t),
        _ => 0,
    }) + (match (target_r_mhz, k.r) {
        (Option::Some(t), Option::Some(d)) => output_ppm(src_mhz, k.n, k.m, d, t),
        _ => 0,
    })
}

/// The solution the solver reports for candidate `k`.
pub open spec fn sol_of(
    src_mhz: usize,
    target_p_mhz: Option<usize>,
    target_q_mhz: Option<usize>,
    target_r_mhz: Option<usize>,
    k: PllCandidate,
) -> PllSolution {
    PllSolution {
        m: k.m,
        n: k.n,
        p: k.p,
        q: k.q,
        r: k.r,
        actual_p_mhz: match (target_p_mhz, k.p) {
            (Option::Some(_), Option::Some(d)) => Option::Some(
                floor_mhz(src_mhz, k.n, k.m, d) as usize,
            ),
            _ => Option::None,
        },
        actual_q_mhz: match (target_q_mhz, k.q) {
            (Option::Some(_), Option::Some(d)) => Option::Some(
                floor_mhz(src_mhz, k.n, k.m, d) as usize,
            ),
            _ => Option::None,
        },
        actual_r_mhz: match (target_r_mhz, k.r) {
            (Option::Some(_), Option::Some(d)) => Option::Some(
                floor_mhz(src_mhz, k.n, k.m, d) as usize,
            ),
            _ => Option::None,
        },
    }
}

/// Strict order on optional dividers: comparable only when both are present.
pub open spec fn opt_lt(a: Option<u8>, b: Option<u8>) -> bool {
    match (a, b) {
        (Option::Some(x), Option::Some(y)) => x < y,
        _ => false,
    }
}

/// Strict lexicographic order on candidates, matching the solver's iteration
/// order: `M` ascending, then `N`, then `P`, `Q`, `R`.
pub open spec fn cand_before(a: PllCandidate, b: PllCandidate) -> bool {
    ||| a.m < b.m
    ||| (a.m == b.m && a.n < b.n)
    ||| (a.m == b.m && a.n == b.n && opt_lt(a.p, b.p))
    ||| (a.m == b.m && a.n == b.n && a.p == b.p && opt_lt(a.q, b.q))
    ||| (a.m == b.m && a.n == b.n && a.p == b.p && a.q == b.q && opt_lt(a.r, b.r))
}

/// `k` is a valid candidate of least score, and no other valid candidate of
/// the same score comes before it in iteration order.
pub open spec fn is_best_cand(
    c: PllConstants,
    src_mhz: usize,
    target_p_mhz: Option<usize>,
    target_q_mhz: Option<usize>,
    target_r_mhz: Option<usize>,
    max_ppm_error: u32,
    k: PllCandidate,
) -> bool {
    &&& cand_valid(c, src_mhz, target_p_mhz, target_q_mhz, target_r_mhz, max_ppm_error, k)
    &&& forall|k2: PllCandidate|
        #[trigger] cand_valid(c, src_mhz, target_p_mhz, target_q_mhz, target_r_mhz, max_ppm_error, k2)
            ==> cand_score(src_mhz, target_p_mhz, target_q_mhz, target_r_mhz, k) <= cand_score(
                src_mhz,
                target_p_mhz,
                target_q_mhz,
                target_r_mhz,
                k2,
            )
    &&& forall|k2: PllCandidate|
        #[trigger] cand_valid(c, src_mhz, target_p_mhz, target_q_mhz, target_r_mhz, max_ppm_error, k2)
            && cand_score(src_mhz, target_p_mhz, target_q_mhz, target_r_mhz, k2) == cand_score(
            src_mhz,
            target_p_mhz,
            target_q_mhz,
            target_r_mhz,
            k,
        ) ==> !cand_before(k2, k)
}

/// Everything the solver promises about its result: `None` exactly when no
/// valid candidate exists, otherwise the solution built from the first valid
/// candidate of least score in iteration order.
pub open spec fn solver_post(
    c: PllConstants,
    src_mhz: usize,
    target_p_mhz: Option<usize>,
    target_q_mhz: Option<usize>,
    target_r_mhz: Option<usize>,
    max_ppm_error: u32,
    res: Option<PllSolution>,
) -> bool {
    match res {
        Option::None => forall|k: PllCandidate|
            !#[trigger] cand_valid(c, src_mhz, target_p_mhz, target_q_mhz, target_r_mhz, max_ppm_error, k),
        Option::Some(sol) => exists|k: PllCandidate|
            #[trigger] is_best_cand(c, src_mhz, target_p_mhz, target_q_mhz, target_r_mhz, max_ppm_error, k)
                && sol == sol_of(src_mhz, target_p_mhz, target_q_mhz, target_r_mhz, k),
    }
}

/// Divider value at which the scan of one output dimension starts.
pub open spec fn first_div(target: Option<usize>, lo: u8) -> Option<u8> {
    if target is Some {
        Option::Some(lo)
    } else {
        Option::None
    }
}

/// Divider value at which the scan of one output dimension ends.
pub open spec fn last_div(target: Option<usize>, hi: u8) -> Option<u8> {
    if target is Some {
        Option::Some(hi)
    } else {
        Option::None
    }
}

/// `k` lies strictly before position `t` in iteration order; with
/// `inclusive`, at or before it.
pub open spec fn covered(k: PllCandidate, t: PllCandidate, inclusive: bool) -> bool {
    cand_before(k, t) || (inclusive && k == t)
}

/// The running best of the scan summarizes every candidate up to position
/// `pos`: while no candidate was accepted the score sentinel is still at its
/// maximum and no covered candidate is valid; once one was accepted, the
/// witness `bw` is a covered valid candidate of least score among the covered
/// ones, the first of that score in iteration order, and `best` is the
/// solution built from it.
pub open spec fn scanned(
    c: PllConstants,
    src_mhz: usize,
    target_p_mhz: Option<usize>,
    target_q_mhz: Option<usize>,
    target_r_mhz: Option<usize>,
    max_ppm_error: u32,
    best: Option<PllSolution>,
    best_score: u64,
    bw: PllCandidate,
    pos: PllCandidate,
    inclusive: bool,
) -> bool {
    match best {
        Option::None => best_score == u64::MAX && forall|k: PllCandidate|
            #[trigger] cand_valid(c, src_mhz, target_p_mhz, target_q_mhz, target_r_mhz, max_ppm_error, k)
                ==> !covered(k, pos, inclusive),
        Option::Some(b) => {
            &&& cand_valid(c, src_mhz, target_p_mhz, target_q_mhz, target_r_mhz, max_ppm_error, bw)
            &&& covered(bw, pos, inclusive)
            &&& cand_score(src_mhz, target_p_mhz, target_q_mhz, target_r_mhz, bw) == best_score
            &&& b == sol_of(src_mhz, target_p_mhz, target_q_mhz, target_r_mhz, bw)
            &&& forall|k: PllCandidate|
                #[trigger] cand_valid(c, src_mhz, target_p_mhz, target_q_mhz, target_r_mhz, max_ppm_error, k)
                    && covered(k, pos, inclusive) ==> best_score <= cand_score(
                    src_mhz,
                    target_p_mhz,
                    target_q_mhz,
                    target_r_mhz,
                    k,
                )
            &&& forall|k: PllCandidate|
                #[trigger] cand_valid(c, src_mhz, target_p_mhz, target_q_mhz, target_r_mhz, max_ppm_error, k)
                    && covered(k, pos, inclusive) && cand_score(
                    src_mhz,
                    target_p_mhz,
                    target_q_mhz,
                    target_r_mhz,
                    k,
                ) == best_score ==> !cand_before(k, bw)
        },
    }
}

/// Iteration order is asymmetric: no two candidates precede each other.
proof fn lemma_cand_before_asymmetric(a: PllCandidate, b: PllCandidate)
    ensures
        cand_before(a, b) ==> !cand_before(b, a),
{
}

/// A valid candidate's score is the sum of up to three errors, each between
/// zero and the tolerance.
proof fn lemma_valid_score_bounds(
    c: PllConstants,
    src_mhz: usize,
    target_p_mhz: Option<usize>,
    target_q_mhz: Option<usize>,
    target_r_mhz: Option<usize>,
    max_ppm_error: u32,
    k: PllCandidate,
)
    requires
        c.wf(),
        target_p_mhz matches Some(t) ==> 1 <= t,
        target_q_mhz matches Some(t) ==> 1 <= t,
        target_r_mhz matches Some(t) ==> 1 <= t,
        cand_valid(c, src_mhz, target_p_mhz, target_q_mhz, target_r_mhz, max_ppm_error, k),
    ensures
        0 <= cand_score(src_mhz, target_p_mhz, target_q_mhz, target_r_mhz, k) <= 3 * (
        max_ppm_error as int),
{
    lemma_output_ppm_nonneg(src_mhz, k.n, k.m, target_p_mhz, k.p);
    lemma_output_ppm_nonneg(src_mhz, k.n, k.m, target_q_mhz, k.q);
    lemma_output_ppm_nonneg(src_mhz, k.n, k.m, target_r_mhz, k.r);
}

/// The error of a requested output is never negative.
proof fn lemma_output_ppm_nonneg(
    src_mhz: usize,
    n: u16,
    m: u8,
    target: Option<usize>,
    d: Option<u8>,
)
    requires
        target matches Some(t) ==> 1 <= t,
        1 <= m,
        d matches Some(x) ==> 1 <= x,
    ensures
        match (target, d) {
            (Option::Some(t), Option::Some(x)) => output_ppm(src_mhz, n, m, x, t) >= 0,
            _ => true,
        },
{
    match (target, d) {
        (Option::Some(t), Option::Some(x)) => {
            assert((t as int) * (m as int) * (x as int) >= 1) by (nonlinear_arith)
                requires
                    t >= 1,
                    m >= 1,
                    x >= 1,
            ;
            vstd::arithmetic::div_mod::lemma_div_pos_is_pos(
                abs_diff(src_mhz as int * n as int, t as int * m as int * x as int) * 1_000_000,
                t as int * m as int * x as int,
            );
        },
        _ => {},
    }
}

/// Moving the scan position without passing any valid candidate keeps the
/// running best a faithful summary.
proof fn lemma_scanned_shift(
    c: PllConstants,
    src_mhz: usize,
    target_p_mhz: Option<usize>,
    target_q_mhz: Option<usize>,
    target_r_mhz: Option<usize>,
    max_ppm_error: u32,
    best: Option<PllSolution>,
    best_score: u64,
    bw: PllCandidate,
    pos1: PllCandidate,
    inc1: bool,
    pos2: PllCandidate,
    inc2: bool,
)
    requires
        scanned(
            c,
            src_mhz,
            target_p_mhz,
            target_q_mhz,
            target_r_mhz,
            max_ppm_error,
            best,
            best_score,
            bw,
            pos1,
            inc1,
        ),
        forall|k: PllCandidate|
            #[trigger] cand_valid(c, src_mhz, target_p_mhz, target_q_mhz, target_r_mhz, max_ppm_error, k)
                ==> (covered(k, pos1, inc1) <==> covered(k, pos2, inc2)),
    ensures
        scanned(
            c,
            src_mhz,
            target_p_mhz,
            target_q_mhz,
            target_r_mhz,
            max_ppm_error,
            best,
            best_score,
            bw,
            pos2,
            inc2,
        ),
{
}

/// Checks one requested output: ceiling first, then tolerance.  Returns the
/// exact parts-per-million error and the achieved whole-MHz frequency when
/// the output passes, `None` when the candidate must be discarded.
fn check_output(
    src_mhz: usize,
    n: u16,
    m: u8,
    d: u8,
    target_mhz: usize,
    ceiling_mhz: u32,
    max_ppm_error: u32,
) -> (res: Option<(u64, usize)>)
    requires
        src_mhz <= MAX_INPUT_MHZ,
        1 <= target_mhz <= MAX_INPUT_MHZ,
        1 <= m,
        1 <= d,
        ceiling_mhz <= 4_000,
    ensures
        res is Some <==> output_ok(src_mhz, n, m, d, target_mhz, ceiling_mhz, max_ppm_error),
        res matches Some(pair) ==> pair.0 == output_ppm(src_mhz, n, m, d, target_mhz)
            && pair.1 == floor_mhz(src_mhz, n, m, d),
{
    let s: u64 = src_mhz as u64;
    proof {
        assert((m as u64) * (d as u64) <= 65_025) by (nonlinear_arith)
            requires
                m <= 255,
                d <= 255,
        ;
        assert(1 <= (m as u64) * (d as u64)) by (nonlinear_arith)
            requires
                1 <= m,
                1 <= d,
        ;
    }
    let den: u64 = (m as u64) * (d as u64);
    proof {
        assert(s * (n as u64) <= 1_000_000 * 65_535) by (nonlinear_arith)
            requires
                s <= 1_000_000,
                n <= 65_535,
        ;
        assert((target_mhz as u64) * den <= 1_000_000 * 65_025) by (nonlinear_arith)
            requires
                target_mhz <= 1_000_000,
                den <= 65_025,
        ;
        assert((ceiling_mhz as u64) * den <= 4_000 * 65_025) by (nonlinear_arith)
            requires
                ceiling_mhz <= 4_000,
                den <= 65_025,
        ;
        assert(1 <= (target_mhz as u64) * den) by (nonlinear_arith)
            requires
                1 <= target_mhz,
                1 <= den,
        ;
    }
    proof {
        assert((ceiling_mhz as int) * ((m as int) * (d as int)) == (ceiling_mhz as int) * (
        m as int) * (d as int)) by (nonlinear_arith);
        assert((target_mhz as int) * ((m as int) * (d as int)) == (target_mhz as int) * (m as int)
            * (d as int)) by (nonlinear_arith);
    }
    let num: u64 = s * (n as u64);
    let tden: u64 = (target_mhz as u64) * den;
    let ceil_den: u64 = (ceiling_mhz as u64) * den;
    if num > ceil_den {
        return Option::None;
    }
    let diff: u64 = if num >= tden {
        num - tden
    } else {
        tden - num
    };
    let ppm: u64 = diff * 1_000_000 / tden;
    if ppm > max_ppm_error as u64 {
        return Option::None;
    }
    let f64v: u64 = num / den;
    proof {
        assert(num / den <= ceil_den / den) by {
            vstd::arithmetic::div_mod::lemma_div_is_ordered(num as int, ceil_den as int, den as int);
        }
        assert(((ceiling_mhz as u64) * den) as int / (den as int) == ceiling_mhz as int) by {
            vstd::arithmetic::div_mod::lemma_div_by_multiple(ceiling_mhz as int, den as int);
        }
    }
    Option::Some((ppm, f64v as usize))
}

/// Scores the candidate `(m, n, dp, dq, dr)` and, when it is valid and beats
/// the running best strictly, replaces the best.  A later candidate of equal
/// score never replaces the current one.
fn eval_and_update(
    c: &PllConstants,
    src_mhz: usize,
    target_p_mhz: Option<usize>,
    target_q_mhz: Option<usize>,
    target_r_mhz: Option<usize>,
    max_ppm_error: u32,
    m: u8,
    n: u16,
    dp: Option<u8>,
    dq: Option<u8>,
    dr: Option<u8>,
    best: &mut Option<PllSolution>,
    best_score: &mut u64,
)
    requires
        c.wf(),
        src_mhz <= MAX_INPUT_MHZ,
        target_p_mhz matches Some(t) ==> 1 <= t <= MAX_INPUT_MHZ,
        target_q_mhz matches Some(t) ==> 1 <= t <= MAX_INPUT_MHZ,
        target_r_mhz matches Some(t) ==> 1 <= t <= MAX_INPUT_MHZ,
        c.m_min <= m <= c.m_max,
        c.n_min <= n <= c.n_max,
        vco_in_ok(*c, src_mhz, m),
        div_matches(target_p_mhz, c.p_min, c.p_max, dp),
        div_matches(target_q_mhz, c.q_min, c.q_max, dq),
        div_matches(target_r_mhz, c.r_min, c.r_max, dr),
    ensures
        ({
            let k = (PllCandidate { m, n, p: dp, q: dq, r: dr });
            let valid = cand_valid(
                *c,
                src_mhz,
                target_p_mhz,
                target_q_mhz,
                target_r_mhz,
                max_ppm_error,
                k,
            );
            let sc = cand_score(src_mhz, target_p_mhz, target_q_mhz, target_r_mhz, k);
            &&& (valid && sc < *old(best_score) ==> *final(best) == Option::Some(
                sol_of(src_mhz, target_p_mhz, target_q_mhz, target_r_mhz, k),
            ) && *final(best_score) == sc)
            &&& (!(valid && sc < *old(best_score)) ==> *final(best) == *old(best)
                && *final(best_score) == *old(best_score))
        }),
{
    let mut score: u64 = 0;
    let mut actual_p: Option<usize> = Option::None;
    let mut actual_q: Option<usize> = Option::None;
    let mut actual_r: Option<usize> = Option::None;
    if let Option::Some(t) = target_p_mhz {
        let d: u8 = dp.unwrap();
        match check_output(src_mhz, n, m, d, t, c.p_max_mhz, max_ppm_error) {
            Option::Some(pair) => {
                score = score + pair.0;
                actual_p = Option::Some(pair.1);
            },
            Option::None => {
                return ;
            },
        }
    }
    if let Option::Some(t) = target_q_mhz {
        let d: u8 = dq.unwrap();
        match check_output(src_mhz, n, m, d, t, c.qr_max_mhz, max_ppm_error) {
            Option::Some(pair) => {
                score = score + pair.0;
                actual_q = Option::Some(pair.1);
            },
            Option::None => {
                return ;
            },
        }
    }
    if let Option::Some(t) = target_r_mhz {
        let d: u8 = dr.unwrap();
        match check_output(src_mhz, n, m, d, t, c.qr_max_mhz, max_ppm_error) {
            Option::Some(pair) => {
                score = score + pair.0;
                actual_r = Option::Some(pair.1);
            },
            Option::None => {
                return ;
            },
        }
    }
    if score < *best_score {
        *best_score = score;
        *best = Option::Some(
            PllSolution {
                m,
                n,
                p: dp,
                q: dq,
                r: dr,
                actual_p_mhz: actual_p,
                actual_q_mhz: actual_q,
                actual_r_mhz: actual_r,
            },
        );
    }
}

/// After the candidate at the scan position itself has been evaluated and
/// the running best updated by the solver's replacement rule, the summary
/// extends to cover that position inclusively.  Returns the new witness.
proof fn lemma_scanned_step(
    c: PllConstants,
    src_mhz: usize,
    target_p_mhz: Option<usize>,
    target_q_mhz: Option<usize>,
    target_r_mhz: Option<usize>,
    max_ppm_error: u32,
    ob: Option<PllSolution>,
    obs: u64,
    obw: PllCandidate,
    nb: Option<PllSolution>,
    nbs: u64,
    t: PllCandidate,
) -> (nw: PllCandidate)
    requires
        c.wf(),
        target_p_mhz matches Some(tv) ==> 1 <= tv,
        target_q_mhz matches Some(tv) ==> 1 <= tv,
        target_r_mhz matches Some(tv) ==> 1 <= tv,
        scanned(
            c,
            src_mhz,
            target_p_mhz,
            target_q_mhz,
            target_r_mhz,
            max_ppm_error,
            ob,
            obs,
            obw,
            t,
            false,
        ),
        ({
            let valid = cand_valid(
                c,
                src_mhz,
                target_p_mhz,
                target_q_mhz,
                target_r_mhz,
                max_ppm_error,
                t,
            );
            let sc = cand_score(src_mhz, target_p_mhz, target_q_mhz, target_r_mhz, t);
            &&& (valid && sc < obs ==> nb == Option::Some(
                sol_of(src_mhz, target_p_mhz, target_q_mhz, target_r_mhz, t),
            ) && nbs == sc)
            &&& (!(valid && sc < obs) ==> nb == ob && nbs == obs)
        }),
    ensures
        scanned(
            c,
            src_mhz,
            target_p_mhz,
            target_q_mhz,
            target_r_mhz,
            max_ppm_error,
            nb,
            nbs,
            nw,
            t,
            true,
        ),
        nw == if nbs < obs {
            t
        } else {
            obw
        },
{
    let valid = cand_valid(c, src_mhz, target_p_mhz, target_q_mhz, target_r_mhz, max_ppm_error, t);
    let sc = cand_score(src_mhz, target_p_mhz, target_q_mhz, target_r_mhz, t);
    if valid && sc < obs {
        lemma_valid_score_bounds(
            c,
            src_mhz,
            target_p_mhz,
            target_q_mhz,
            target_r_mhz,
            max_ppm_error,
            t,
        );
        assert forall|k: PllCandidate|
            #[trigger] cand_valid(c, src_mhz, target_p_mhz, target_q_mhz, target_r_mhz, max_ppm_error, k)
                && covered(k, t, true) implies nbs <= cand_score(
            src_mhz,
            target_p_mhz,
            target_q_mhz,
            target_r_mhz,
            k,
        ) && (cand_score(src_mhz, target_p_mhz, target_q_mhz, target_r_mhz, k) == nbs
            ==> !cand_before(k, t)) by {
            if k != t {
                assert(cand_before(k, t));
                lemma_cand_before_asymmetric(k, t);
            }
        }
        t
    } else {
        if valid {
            lemma_valid_score_bounds(
                c,
                src_mhz,
                target_p_mhz,
                target_q_mhz,
                target_r_mhz,
                max_ppm_error,
                t,
            );
            assert(sc < u64::MAX);
            assert(ob is Some);
            assert(cand_before(obw, t));
            lemma_cand_before_asymmetric(obw, t);
        }
        obw
    }
}

/// Scans the `R` dimension for fixed `m`, `n`, `dp`, `dq`: every allowed `R`
/// divider when an `R` target was requested, the single divider-free case
/// otherwise.  Returns the updated best-candidate witness.
fn scan_r(
    c: &PllConstants,
    src_mhz: usize,
    target_p_mhz: Option<usize>,
    target_q_mhz: Option<usize>,
    target_r_mhz: Option<usize>,
    max_ppm_error: u32,
    m: u8,
    n: u16,
    dp: Option<u8>,
    dq: Option<u8>,
    best: &mut Option<PllSolution>,
    best_score: &mut u64,
    bw: Ghost<PllCandidate>,
) -> (nbw: Ghost<PllCandidate>)
    requires
        c.wf(),
        src_mhz <= MAX_INPUT_MHZ,
        target_p_mhz matches Some(t) ==> 1 <= t <= MAX_INPUT_MHZ,
        target_q_mhz matches Some(t) ==> 1 <= t <= MAX_INPUT_MHZ,
        target_r_mhz matches Some(t) ==> 1 <= t <= MAX_INPUT_MHZ,
        c.m_min <= m <= c.m_max,
        c.n_min <= n <= c.n_max,
        vco_in_ok(*c, src_mhz, m),
        div_matches(target_p_mhz, c.p_min, c.p_max, dp),
        div_matches(target_q_mhz, c.q_min, c.q_max, dq),
        scanned(
            *c,
            src_mhz,
            target_p_mhz,
            target_q_mhz,
            target_r_mhz,
            max_ppm_error,
            *old(best),
            *old(best_score),
            bw@,
            (PllCandidate { m, n, p: dp, q: dq, r: first_div(target_r_mhz, c.r_min) }),
            false,
        ),
    ensures
        scanned(
            *c,
            src_mhz,
            target_p_mhz,
            target_q_mhz,
            target_r_mhz,
            max_ppm_error,
            *final(best),
            *final(best_score),
            nbw@,
            (PllCandidate { m, n, p: dp, q: dq, r: last_div(target_r_mhz, c.r_max) }),
            true,
        ),
{
    let ghost mut w: PllCandidate = bw@;
    if target_r_mhz.is_some() {
        let mut d: u8 = c.r_min;
        while d <= c.r_max
            invariant
                c.wf(),
                src_mhz <= MAX_INPUT_MHZ,
                target_p_mhz matches Some(t) ==> 1 <= t <= MAX_INPUT_MHZ,
                target_q_mhz matches Some(t) ==> 1 <= t <= MAX_INPUT_MHZ,
                target_r_mhz matches Some(t) ==> 1 <= t <= MAX_INPUT_MHZ,
                target_r_mhz is Some,
                c.m_min <= m <= c.m_max,
                c.n_min <= n <= c.n_max,
                vco_in_ok(*c, src_mhz, m),
                div_matches(target_p_mhz, c.p_min, c.p_max, dp),
                div_matches(target_q_mhz, c.q_min, c.q_max, dq),
                c.r_min <= d <= c.r_max + 1,
                scanned(
                    *c,
                    src_mhz,
                    target_p_mhz,
                    target_q_mhz,
                    target_r_mhz,
                    max_ppm_error,
                    *best,
                    *best_score,
                    w,
                    (PllCandidate { m, n, p: dp, q: dq, r: Option::Some(d) }),
                    false,
                ),
            decreases c.r_max + 1 - d,
        {
            let prev_score: u64 = *best_score;
            let ghost ob = *best;
            eval_and_update(
                c,
                src_mhz,
                target_p_mhz,
                target_q_mhz,
                target_r_mhz,
                max_ppm_error,
                m,
                n,
                dp,
                dq,
                Option::Some(d),
                best,
                best_score,
            );
            proof {
                let t = PllCandidate { m, n, p: dp, q: dq, r: Option::Some(d) };
                w = lemma_scanned_step(
                    *c,
                    src_mhz,
                    target_p_mhz,
                    target_q_mhz,
                    target_r_mhz,
                    max_ppm_error,
                    ob,
                    prev_score,
                    w,
                    *best,
                    *best_score,
                    t,
                );
                let pos2 = PllCandidate { m, n, p: dp, q: dq, r: Option::Some((d + 1) as u8) };
                assert forall|k: PllCandidate|
                    #[trigger] cand_valid(*c, src_mhz, target_p_mhz, target_q_mhz, target_r_mhz, max_ppm_error, k)
                        implies (covered(k, t, true) <==> covered(k, pos2, false)) by {}
                lemma_scanned_shift(
                    *c,
                    src_mhz,
                    target_p_mhz,
                    target_q_mhz,
                    target_r_mhz,
                    max_ppm_error,
                    *best,
                    *best_score,
                    w,
                    t,
                    true,
                    pos2,
                    false,
                );
            }
            d = d + 1;
        }
        proof {
            let pos_end = PllCandidate { m, n, p: dp, q: dq, r: Option::Some(d) };
            let pos_last = PllCandidate { m, n, p: dp, q: dq, r: Option::Some(c.r_max) };
            assert forall|k: PllCandidate|
                #[trigger] cand_valid(*c, src_mhz, target_p_mhz, target_q_mhz, target_r_mhz, max_ppm_error, k)
                    implies (covered(k, pos_end, false) <==> covered(k, pos_last, true)) by {}
            lemma_scanned_shift(
                *c,
                src_mhz,
                target_p_mhz,
                target_q_mhz,
                target_r_mhz,
                max_ppm_error,
                *best,
                *best_score,
                w,
                pos_end,
                false,
                pos_last,
                true,
            );
        }
    } else {
        let prev_score: u64 = *best_score;
        let ghost ob = *best;
        eval_and_update(
            c,
            src_mhz,
            target_p_mhz,
            target_q_mhz,
            target_r_mhz,
            max_ppm_error,
            m,
            n,
            dp,
            dq,
            Option::None,
            best,
            best_score,
        );
        proof {
            let t = PllCandidate { m, n, p: dp, q: dq, r: Option::None };
            w = lemma_scanned_step(
                *c,
                src_mhz,
                target_p_mhz,
                target_q_mhz,
                target_r_mhz,
                max_ppm_error,
                ob,
                prev_score,
                w,
                *best,
                *best_score,
                t,
            );
        }
    }
    Ghost(w)
}

/// Scans the `Q` dimension for fixed `m`, `n`, `dp`, delegating to the `R`
/// scan for each `Q` choice.
fn scan_q(
    c: &PllConstants,
    src_mhz: usize,
    target_p_mhz: Option<usize>,
    target_q_mhz: Option<usize>,
    target_r_mhz: Option<usize>,
    max_ppm_error: u32,
    m: u8,
    n: u16,
    dp: Option<u8>,
    best: &mut Option<PllSolution>,
    best_score: &mut u64,
    bw: Ghost<PllCandidate>,
) -> (nbw: Ghost<PllCandidate>)
    requires
        c.wf(),
        src_mhz <= MAX_INPUT_MHZ,
        target_p_mhz matches Some(t) ==> 1 <= t <= MAX_INPUT_MHZ,
        target_q_mhz matches Some(t) ==> 1 <= t <= MAX_INPUT_MHZ,
        target_r_mhz matches Some(t) ==> 1 <= t <= MAX_INPUT_MHZ,
        c.m_min <= m <= c.m_max,
        c.n_min <= n <= c.n_max,
        vco_in_ok(*c, src_mhz, m),
        div_matches(target_p_mhz, c.p_min, c.p_max, dp),
        scanned(
            *c,
            src_mhz,
            target_p_mhz,
            target_q_mhz,
            target_r_mhz,
            max_ppm_error,
            *old(best),
            *old(best_score),
            bw@,
            (PllCandidate {
                m,
                n,
                p: dp,
                q: first_div(target_q_mhz, c.q_min),
                r: first_div(target_r_mhz, c.r_min),
            }),
            false,
        ),
    ensures
        scanned(
            *c,
            src_mhz,
            target_p_mhz,
            target_q_mhz,
            target_r_mhz,
            max_ppm_error,
            *final(best),
            *final(best_score),
            nbw@,
            (PllCandidate {
                m,
                n,
                p: dp,
                q: last_div(target_q_mhz, c.q_max),
                r: last_div(target_r_mhz, c.r_max),
            }),
            true,
        ),
{
    let ghost mut w: PllCandidate = bw@;
    if target_q_mhz.is_some() {
        let mut d: u8 = c.q_min;
        while d <= c.q_max
            invariant
                c.wf(),
                src_mhz <= MAX_INPUT_MHZ,
                target_p_mhz matches Some(t) ==> 1 <= t <= MAX_INPUT_MHZ,
                target_q_mhz matches Some(t) ==> 1 <= t <= MAX_INPUT_MHZ,
                target_r_mhz matches Some(t) ==> 1 <= t <= MAX_INPUT_MHZ,
                target_q_mhz is Some,
                c.m_min <= m <= c.m_max,
                c.n_min <= n <= c.n_max,
                vco_in_ok(*c, src_mhz, m),
                div_matches(target_p_mhz, c.p_min, c.p_max, dp),
                c.q_min <= d <= c.q_max + 1,
                scanned(
                    *c,
                    src_mhz,
                    target_p_mhz,
                    target_q_mhz,
                    target_r_mhz,
                    max_ppm_error,
                    *best,
                    *best_score,
                    w,
                    (PllCandidate {
                        m,
                        n,
                        p: dp,
                        q: Option::Some(d),
                        r: first_div(target_r_mhz, c.r_min),
                    }),
                    false,
                ),
            decreases c.q_max + 1 - d,
        {
            let tmp = scan_r(
                c,
                src_mhz,
                target_p_mhz,
                target_q_mhz,
                target_r_mhz,
                max_ppm_error,
                m,
                n,
                dp,
                Option::Some(d),
                best,
                best_score,
                Ghost(w),
            );
            proof {
                w = tmp@;
                let pos1 = PllCandidate {
                    m,
                    n,
                    p: dp,
                    q: Option::Some(d),
                    r: last_div(target_r_mhz, c.r_max),
                };
                let pos2 = PllCandidate {
                    m,
                    n,
                    p: dp,
                    q: Option::Some((d + 1) as u8),
                    r: first_div(target_r_mhz, c.r_min),
                };
                assert forall|k: PllCandidate|
                    #[trigger] cand_valid(*c, src_mhz, target_p_mhz, target_q_mhz, target_r_mhz, max_ppm_error, k)
                        implies (covered(k, pos1, true) <==> covered(k, pos2, false)) by {}
                lemma_scanned_shift(
                    *c,
                    src_mhz,
                    target_p_mhz,
                    target_q_mhz,
                    target_r_mhz,
                    max_ppm_error,
                    *best,
                    *best_score,
                    w,
                    pos1,
                    true,
                    pos2,
                    false,
                );
            }
            d = d + 1;
        }
        proof {
            let pos_end = PllCandidate {
                m,
                n,
                p: dp,
                q: Option::Some(d),
                r: first_div(target_r_mhz, c.r_min),
            };
            let pos_last = PllCandidate {
                m,
                n,
                p: dp,
                q: Option::Some(c.q_max),
                r: last_div(target_r_mhz, c.r_max),
            };
            assert forall|k: PllCandidate|
                #[trigger] cand_valid(*c, src_mhz, target_p_mhz, target_q_mhz, target_r_mhz, max_ppm_error, k)
                    implies (covered(k, pos_end, false) <==> covered(k, pos_last, true)) by {}
            lemma_scanned_shift(
                *c,
                src_mhz,
                target_p_mhz,
                target_q_mhz,
                target_r_mhz,
                max_ppm_error,
                *best,
                *best_score,
                w,
                pos_end,
                false,
                pos_last,
                true,
            );
        }
    } else {
        let tmp = scan_r(
            c,
            src_mhz,
            target_p_mhz,
            target_q_mhz,
            target_r_mhz,
            max_ppm_error,
            m,
            n,
            dp,
            Option::None,
            best,
            best_score,
            Ghost(w),
        );
        proof {
            w = tmp@;
        }
    }
    Ghost(w)
}

/// Scans the `P` dimension for fixed `m`, `n`, delegating to the `Q` scan
/// for each `P` choice.
fn scan_p(
    c: &PllConstants,
    src_mhz: usize,
    target_p_mhz: Option<usize>,
    target_q_mhz: Option<usize>,
    target_r_mhz: Option<usize>,
    max_ppm_error: u32,
    m: u8,
    n: u16,
    best: &mut Option<PllSolution>,
    best_score: &mut u64,
    bw: Ghost<PllCandidate>,
) -> (nbw: Ghost<PllCandidate>)
    requires
        c.wf(),
        src_mhz <= MAX_INPUT_MHZ,
        target_p_mhz matches Some(t) ==> 1 <= t <= MAX_INPUT_MHZ,
        target_q_mhz matches Some(t) ==> 1 <= t <= MAX_INPUT_MHZ,
        target_r_mhz matches Some(t) ==> 1 <= t <= MAX_INPUT_MHZ,
        c.m_min <= m <= c.m_max,
        c.n_min <= n <= c.n_max,
        vco_in_ok(*c, src_mhz, m),
        scanned(
            *c,
            src_mhz,
            target_p_mhz,
            target_q_mhz,
            target_r_mhz,
            max_ppm_error,
            *old(best),
            *old(best_score),
            bw@,
            (PllCandidate {
                m,
                n,
                p: first_div(target_p_mhz, c.p_min),
                q: first_div(target_q_mhz, c.q_min),
                r: first_div(target_r_mhz, c.r_min),
            }),
            false,
        ),
    ensures
        scanned(
            *c,
            src_mhz,
            target_p_mhz,
            target_q_mhz,
            target_r_mhz,
            max_ppm_error,
            *final(best),
            *final(best_score),
            nbw@,
            (PllCandidate {
                m,
                n,
                p: last_div(target_p_mhz, c.p_max),
                q: last_div(target_q_mhz, c.q_max),
                r: last_div(target_r_mhz, c.r_max),
            }),
            true,
        ),
{
    let ghost mut w: PllCandidate = bw@;
    if target_p_mhz.is_some() {
        let mut d: u8 = c.p_min;
        while d <= c.p_max
            invariant
                c.wf(),
                src_mhz <= MAX_INPUT_MHZ,
                target_p_mhz matches Some(t) ==> 1 <= t <= MAX_INPUT_MHZ,
                target_q_mhz matches Some(t) ==> 1 <= t <= MAX_INPUT_MHZ,
                target_r_mhz matches Some(t) ==> 1 <= t <= MAX_INPUT_MHZ,
                target_p_mhz is Some,
                c.m_min <= m <= c.m_max,
                c.n_min <= n <= c.n_max,
                vco_in_ok(*c, src_mhz, m),
                c.p_min <= d <= c.p_max + 1,
                scanned(
                    *c,
                    src_mhz,
                    target_p_mhz,
                    target_q_mhz,
                    target_r_mhz,
                    max_ppm_error,
                    *best,
                    *best_score,
                    w,
                    (PllCandidate {
                        m,
                        n,
                        p: Option::Some(d),
                        q: first_div(target_q_mhz, c.q_min),
                        r: first_div(target_r_mhz, c.r_min),
                    }),
                    false,
                ),
            decreases c.p_max + 1 - d,
        {
            let tmp = scan_q(
                c,
                src_mhz,
                target_p_mhz,
                target_q_mhz,
                target_r_mhz,
                max_ppm_error,
                m,
                n,
                Option::Some(d),
                best,
                best_score,
                Ghost(w),
            );
            proof {
                w = tmp@;
                let pos1 = PllCandidate {
                    m,
                    n,
                    p: Option::Some(d),
                    q: last_div(target_q_mhz, c.q_max),
                    r: last_div(target_r_mhz, c.r_max),
                };
                let pos2 = PllCandidate {
                    m,
                    n,
                    p: Option::Some((d + 1) as u8),
                    q: first_div(target_q_mhz, c.q_min),
                    r: first_div(target_r_mhz, c.r_min),
                };
                assert forall|k: PllCandidate|
                    #[trigger] cand_valid(*c, src_mhz, target_p_mhz, target_q_mhz, target_r_mhz, max_ppm_error, k)
                        implies (covered(k, pos1, true) <==> covered(k, pos2, false)) by {}
                lemma_scanned_shift(
                    *c,
                    src_mhz,
                    target_p_mhz,
                    target_q_mhz,
                    target_r_mhz,
                    max_ppm_error,
                    *best,
                    *best_score,
                    w,
                    pos1,
                    true,
                    pos2,
                    false,
                );
            }
            d = d + 1;
        }
        proof {
            let pos_end = PllCandidate {
                m,
                n,
                p: Option::Some(d),
                q: first_div(target_q_mhz, c.q_min),
                r: first_div(target_r_mhz, c.r_min),
            };
            let pos_last = PllCandidate {
                m,
                n,
                p: Option::Some(c.p_max),
                q: last_div(target_q_mhz, c.q_max),
                r: last_div(target_r_mhz, c.r_max),
            };
            assert forall|k: PllCandidate|
                #[trigger] cand_valid(*c, src_mhz, target_p_mhz, target_q_mhz, target_r_mhz, max_ppm_error, k)
                    implies (covered(k, pos_end, false) <==> covered(k, pos_last, true)) by {}
            lemma_scanned_shift(
                *c,
                src_mhz,
                target_p_mhz,
                target_q_mhz,
                target_r_mhz,
                max_ppm_error,
                *best,
                *best_score,
                w,
                pos_end,
                false,
                pos_last,
                true,
            );
        }
    } else {
        let tmp = scan_q(
            c,
            src_mhz,
            target_p_mhz,
            target_q_mhz,
            target_r_mhz,
            max_ppm_error,
            m,
            n,
            Option::None,
            best,
            best_score,
            Ghost(w),
        );
        proof {
            w = tmp@;
        }
    }
    Ghost(w)
}

/// Brute-force PLL solver.  Iterates `M` ascending, rejecting values whose
/// pre-divided source frequency leaves the VCO input window, then `N`
/// ascending, then each requested output divider ascending, and keeps the
/// first candidate of strictly lowest summed parts-per-million error.
///
/// Returns `None` exactly when no divider combination satisfies every
/// requested output within `max_ppm_error`; otherwise the returned solution
/// is the one determined by that iteration order, with achieved frequencies
/// rounded toward zero to whole MHz.  The search is pure: it touches no
/// hardware state and depends on its arguments alone.
pub fn solve_pll_for_targets(
    c: &PllConstants,
    src_mhz: usize,
    target_p_mhz: Option<usize>,
    target_q_mhz: Option<usize>,
    target_r_mhz: Option<usize>,
    max_ppm_error: u32,
) -> (res: Option<PllSolution>)
    requires
        c.wf(),
        src_mhz <= MAX_INPUT_MHZ,
        target_p_mhz matches Some(t) ==> 1 <= t <= MAX_INPUT_MHZ,
        target_q_mhz matches Some(t) ==> 1 <= t <= MAX_INPUT_MHZ,
        target_r_mhz matches Some(t) ==> 1 <= t <= MAX_INPUT_MHZ,
    ensures
        solver_post(*c, src_mhz, target_p_mhz, target_q_mhz, target_r_mhz, max_ppm_error, res),
{
    let mut best: Option<PllSolution> = Option::None;
    let mut best_score: u64 = u64::MAX;
    let ghost mut w: PllCandidate = PllCandidate {
        m: 0,
        n: 0,
        p: Option::None,
        q: Option::None,
        r: Option::None,
    };
    let mut m: u8 = c.m_min;
    proof {
        let pos0 = PllCandidate {
            m: c.m_min,
            n: c.n_min,
            p: first_div(target_p_mhz, c.p_min),
            q: first_div(target_q_mhz, c.q_min),
            r: first_div(target_r_mhz, c.r_min),
        };
        assert forall|k: PllCandidate|
            #[trigger] cand_valid(*c, src_mhz, target_p_mhz, target_q_mhz, target_r_mhz, max_ppm_error, k)
                implies !covered(k, pos0, false) by {}
    }
    while m <= c.m_max
        invariant
            c.wf(),
            src_mhz <= MAX_INPUT_MHZ,
            target_p_mhz matches Some(t) ==> 1 <= t <= MAX_INPUT_MHZ,
            target_q_mhz matches Some(t) ==> 1 <= t <= MAX_INPUT_MHZ,
            target_r_mhz matches Some(t) ==> 1 <= t <= MAX_INPUT_MHZ,
            c.m_min <= m <= c.m_max + 1,
            scanned(
                *c,
                src_mhz,
                target_p_mhz,
                target_q_mhz,
                target_r_mhz,
                max_ppm_error,
                best,
                best_score,
                w,
                (PllCandidate {
                    m,
                    n: c.n_min,
                    p: first_div(target_p_mhz, c.p_min),
                    q: first_div(target_q_mhz, c.q_min),
                    r: first_div(target_r_mhz, c.r_min),
                }),
                false,
            ),
        decreases c.m_max + 1 - m,
    {
        proof {
            assert((c.vco_in_min_khz as u64) * (m as u64) <= 255_000_000) by (nonlinear_arith)
                requires
                    c.vco_in_min_khz <= 1_000_000,
                    m <= 255,
            ;
            assert((c.vco_in_max_khz as u64) * (m as u64) <= 255_000_000) by (nonlinear_arith)
                requires
                    c.vco_in_max_khz <= 1_000_000,
                    m <= 255,
            ;
        }
        let src_khz: u64 = (src_mhz as u64) * 1000;
        let vco_lo: u64 = (c.vco_in_min_khz as u64) * (m as u64);
        let vco_hi: u64 = (c.vco_in_max_khz as u64) * (m as u64);
        if vco_lo <= src_khz && src_khz < vco_hi {
            let mut n: u16 = c.n_min;
            while n <= c.n_max
                invariant
                    c.wf(),
                    src_mhz <= MAX_INPUT_MHZ,
                    target_p_mhz matches Some(t) ==> 1 <= t <= MAX_INPUT_MHZ,
                    target_q_mhz matches Some(t) ==> 1 <= t <= MAX_INPUT_MHZ,
                    target_r_mhz matches Some(t) ==> 1 <= t <= MAX_INPUT_MHZ,
                    c.m_min <= m <= c.m_max,
                    c.n_min <= n <= c.n_max + 1,
                    vco_in_ok(*c, src_mhz, m),
                    scanned(
                        *c,
                        src_mhz,
                        target_p_mhz,
                        target_q_mhz,
                        target_r_mhz,
                        max_ppm_error,
                        best,
                        best_score,
                        w,
                        (PllCandidate {
                            m,
                            n,
                            p: first_div(target_p_mhz, c.p_min),
                            q: first_div(target_q_mhz, c.q_min),
                            r: first_div(target_r_mhz, c.r_min),
                        }),
                        false,
                    ),
                decreases c.n_max + 1 - n,
            {
                let tmp = scan_p(
                    c,
                    src_mhz,
                    target_p_mhz,
                    target_q_mhz,
                    target_r_mhz,
                    max_ppm_error,
                    m,
                    n,
                    &mut best,
                    &mut best_score,
                    Ghost(w),
                );
                proof {
                    w = tmp@;
                    let pos1 = PllCandidate {
                        m,
                        n,
                        p: last_div(target_p_mhz, c.p_max),
                        q: last_div(target_q_mhz, c.q_max),
                        r: last_div(target_r_mhz, c.r_max),
                    };
                    let pos2 = PllCandidate {
                        m,
                        n: (n + 1) as u16,
                        p: first_div(target_p_mhz, c.p_min),
                        q: first_div(target_q_mhz, c.q_min),
                        r: first_div(target_r_mhz, c.r_min),
                    };
                    assert forall|k: PllCandidate|
                        #[trigger] cand_valid(*c, src_mhz, target_p_mhz, target_q_mhz, target_r_mhz, max_ppm_error, k)
                            implies (covered(k, pos1, true) <==> covered(k, pos2, false)) by {}
                    lemma_scanned_shift(
                        *c,
                        src_mhz,
                        target_p_mhz,
                        target_q_mhz,
                        target_r_mhz,
                        max_ppm_error,
                        best,
                        best_score,
                        w,
                        pos1,
                        true,
                        pos2,
                        false,
                    );
                }
                n = n + 1;
            }
            proof {
                let pos_end = PllCandidate {
                    m,
                    n,
                    p: first_div(target_p_mhz, c.p_min),
                    q: first_div(target_q_mhz, c.q_min),
                    r: first_div(target_r_mhz, c.r_min),
                };
                let pos_next = PllCandidate {
                    m: (m + 1) as u8,
                    n: c.n_min,
                    p: first_div(target_p_mhz, c.p_min),
                    q: first_div(target_q_mhz, c.q_min),
                    r: first_div(target_r_mhz, c.r_min),
                };
                assert forall|k: PllCandidate|
                    #[trigger] cand_valid(*c, src_mhz, target_p_mhz, target_q_mhz, target_r_mhz, max_ppm_error, k)
                        implies (covered(k, pos_end, false) <==> covered(k, pos_next, false)) by {}
                lemma_scanned_shift(
                    *c,
                    src_mhz,
                    target_p_mhz,
                    target_q_mhz,
                    target_r_mhz,
                    max_ppm_error,
                    best,
                    best_score,
                    w,
                    pos_end,
                    false,
                    pos_next,
                    false,
                );
            }
        } else {
            proof {
                let pos1 = PllCandidate {
                    m,
                    n: c.n_min,
                    p: first_div(target_p_mhz, c.p_min),
                    q: first_div(target_q_mhz, c.q_min),
                    r: first_div(target_r_mhz, c.r_min),
                };
                let pos2 = PllCandidate {
                    m: (m + 1) as u8,
                    n: c.n_min,
                    p: first_div(target_p_mhz, c.p_min),
                    q: first_div(target_q_mhz, c.q_min),
                    r: first_div(target_r_mhz, c.r_min),
                };
                assert forall|k: PllCandidate|
                    #[trigger] cand_valid(*c, src_mhz, target_p_mhz, target_q_mhz, target_r_mhz, max_ppm_error, k)
                        implies (covered(k, pos1, false) <==> covered(k, pos2, false)) by {
                    assert(!vco_in_ok(*c, src_mhz, m));
                }
                lemma_scanned_shift(
                    *c,
                    src_mhz,
                    target_p_mhz,
                    target_q_mhz,
                    target_r_mhz,
                    max_ppm_error,
                    best,
                    best_score,
                    w,
                    pos1,
                    false,
                    pos2,
                    false,
                );
            }
        }
        m = m + 1;
    }
    proof {
        let pos_end = PllCandidate {
            m,
            n: c.n_min,
            p: first_div(target_p_mhz, c.p_min),
            q: first_div(target_q_mhz, c.q_min),
            r: first_div(target_r_mhz, c.r_min),
        };
        assert forall|k: PllCandidate|
            #[trigger] cand_valid(*c, src_mhz, target_p_mhz, target_q_mhz, target_r_mhz, max_ppm_error, k)
                implies covered(k, pos_end, false) by {}
        if best is Some {
            assert(is_best_cand(
                *c,
                src_mhz,
                target_p_mhz,
                target_q_mhz,
                target_r_mhz,
                max_ppm_error,
                w,
            ));
        }
    }
    best
}

/// Any two valid candidates are ordered: within the search domain the
/// iteration order is total.
proof fn lemma_cand_order_total(
    c: PllConstants,
    src_mhz: usize,
    target_p_mhz: Option<usize>,
    target_q_mhz: Option<usize>,
    target_r_mhz: Option<usize>,
    max_ppm_error: u32,
    k1: PllCandidate,
    k2: PllCandidate,
)
    requires
        cand_valid(c, src_mhz, target_p_mhz, target_q_mhz, target_r_mhz, max_ppm_error, k1),
        cand_valid(c, src_mhz, target_p_mhz, target_q_mhz, target_r_mhz, max_ppm_error, k2),
        k1 != k2,
    ensures
        cand_before(k1, k2) || cand_before(k2, k1),
{
}

/// Every valid `(M, N)` pair the solver reports keeps the pre-divided source
/// frequency inside the VCO input window `[vco_in_min_khz, vco_in_max_khz]`.
pub proof fn lemma_solution_vco_input_in_window(
    c: PllConstants,
    src_mhz: usize,
    target_p_mhz: Option<usize>,
    target_q_mhz: Option<usize>,
    target_r_mhz: Option<usize>,
    max_ppm_error: u32,
    sol: PllSolution,
)
    requires
        solver_post(
            c,
            src_mhz,
            target_p_mhz,
            target_q_mhz,
            target_r_mhz,
            max_ppm_error,
            Option::Some(sol),
        ),
    ensures
        c.vco_in_min_khz * sol.m <= src_mhz * 1000,
        src_mhz * 1000 <= c.vco_in_max_khz * sol.m,
{
    let k = choose|k: PllCandidate|
        #[trigger] is_best_cand(c, src_mhz, target_p_mhz, target_q_mhz, target_r_mhz, max_ppm_error, k)
            && sol == sol_of(src_mhz, target_p_mhz, target_q_mhz, target_r_mhz, k);
    assert(vco_in_ok(c, src_mhz, k.m));
}

/// Every requested output of a reported solution respects its chip-specific
/// frequency ceiling and stays within the supplied parts-per-million
/// tolerance of its target.
pub proof fn lemma_solution_outputs_within_tolerance(
    c: PllConstants,
    src_mhz: usize,
    target_p_mhz: Option<usize>,
    target_q_mhz: Option<usize>,
    target_r_mhz: Option<usize>,
    max_ppm_error: u32,
    sol: PllSolution,
)
    requires
        solver_post(
            c,
            src_mhz,
            target_p_mhz,
            target_q_mhz,
            target_r_mhz,
            max_ppm_error,
            Option::Some(sol),
        ),
    ensures
        match (target_p_mhz, sol.p) {
            (Option::Some(t), Option::Some(d)) => output_ok(
                src_mhz,
                sol.n,
                sol.m,
                d,
                t,
                c.p_max_mhz,
                max_ppm_error,
            ),
            _ => true,
        },
        match (target_q_mhz, sol.q) {
            (Option::Some(t), Option::Some(d)) => output_ok(
                src_mhz,
                sol.n,
                sol.m,
                d,
                t,
                c.qr_max_mhz,
                max_ppm_error,
            ),
            _ => true,
        },
        match (target_r_mhz, sol.r) {
            (Option::Some(t), Option::Some(d)) => output_ok(
                src_mhz,
                sol.n,
                sol.m,
                d,
                t,
                c.qr_max_mhz,
                max_ppm_error,
            ),
            _ => true,
        },
        sol.p is Some <==> target_p_mhz is Some,
        sol.q is Some <==> target_q_mhz is Some,
        sol.r is Some <==> target_r_mhz is Some,
{
    let k = choose|k: PllCandidate|
        #[trigger] is_best_cand(c, src_mhz, target_p_mhz, target_q_mhz, target_r_mhz, max_ppm_error, k)
            && sol == sol_of(src_mhz, target_p_mhz, target_q_mhz, target_r_mhz, k);
    assert(cand_valid(c, src_mhz, target_p_mhz, target_q_mhz, target_r_mhz, max_ppm_error, k));
}

/// The range bounds are searched inclusively on both ends: a valid
/// candidate sitting at an extreme end of the allowed `M` or `N` range is
/// considered like any other, so its existence rules a failure report out.
pub proof fn lemma_boundary_candidates_considered(
    c: PllConstants,
    src_mhz: usize,
    target_p_mhz: Option<usize>,
    target_q_mhz: Option<usize>,
    target_r_mhz: Option<usize>,
    max_ppm_error: u32,
    res: Option<PllSolution>,
    k: PllCandidate,
)
    requires
        solver_post(c, src_mhz, target_p_mhz, target_q_mhz, target_r_mhz, max_ppm_error, res),
        cand_valid(c, src_mhz, target_p_mhz, target_q_mhz, target_r_mhz, max_ppm_error, k),
        k.m == c.m_min || k.m == c.m_max || k.n == c.n_min || k.n == c.n_max,
    ensures
        res is Some,
{
}

/// The solver is deterministic: its contract pins the result down, so any
/// two results that satisfy it for identical inputs are bit-identical, the
/// same `(M, N, P, Q, R)` and the same achieved frequencies.
pub proof fn lemma_solver_deterministic(
    c: PllConstants,
    src_mhz: usize,
    target_p_mhz: Option<usize>,
    target_q_mhz: Option<usize>,
    target_r_mhz: Option<usize>,
    max_ppm_error: u32,
    r1: Option<PllSolution>,
    r2: Option<PllSolution>,
)
    requires
        solver_post(c, src_mhz, target_p_mhz, target_q_mhz, target_r_mhz, max_ppm_error, r1),
        solver_post(c, src_mhz, target_p_mhz, target_q_mhz, target_r_mhz, max_ppm_error, r2),
    ensures
        r1 == r2,
{
    match (r1, r2) {
        (Option::Some(s1), Option::Some(s2)) => {
            let k1 = choose|k: PllCandidate|
                #[trigger] is_best_cand(c, src_mhz, target_p_mhz, target_q_mhz, target_r_mhz, max_ppm_error, k)
                    && s1 == sol_of(src_mhz, target_p_mhz, target_q_mhz, target_r_mhz, k);
            let k2 = choose|k: PllCandidate|
                #[trigger] is_best_cand(c, src_mhz, target_p_mhz, target_q_mhz, target_r_mhz, max_ppm_error, k)
                    && s2 == sol_of(src_mhz, target_p_mhz, target_q_mhz, target_r_mhz, k);
            assert(cand_score(src_mhz, target_p_mhz, target_q_mhz, target_r_mhz, k1) == cand_score(
                src_mhz,
                target_p_mhz,
                target_q_mhz,
                target_r_mhz,
                k2,
            ));
            if k1 != k2 {
                lemma_cand_order_total(
                    c,
                    src_mhz,
                    target_p_mhz,
                    target_q_mhz,
                    target_r_mhz,
                    max_ppm_error,
                    k1,
                    k2,
                );
            }
            assert(k1 == k2);
        },
        (Option::Some(s1), Option::None) => {
            let k1 = choose|k: PllCandidate|
                #[trigger] is_best_cand(c, src_mhz, target_p_mhz, target_q_mhz, target_r_mhz, max_ppm_error, k)
                    && s1 == sol_of(src_mhz, target_p_mhz, target_q_mhz, target_r_mhz, k);
            assert(cand_valid(c, src_mhz, target_p_mhz, target_q_mhz, target_r_mhz, max_ppm_error, k1));
        },
        (Option::None, Option::Some(s2)) => {
            let k2 = choose|k: PllCandidate|
                #[trigger] is_best_cand(c, src_mhz, target_p_mhz, target_q_mhz, target_r_mhz, max_ppm_error, k)
                    && s2 == sol_of(src_mhz, target_p_mhz, target_q_mhz, target_r_mhz, k);
            assert(cand_valid(c, src_mhz, target_p_mhz, target_q_mhz, target_r_mhz, max_ppm_error, k2));
        },
        (Option::None, Option::None) => {},
    }
}

/// The divider written to the hardware for an output: the chosen divider
/// when the output was requested, a valid placeholder of two otherwise.
pub open spec fn placeholder_div(d: Option<u8>) -> u32 {
    match d {
        Option::Some(x) => x as u32,
        Option::None => 2,
    }
}

/// The frequency, in MHz, the given PLL input source supplies: the nominal
/// frequency for the two fixed oscillators, the selected range for the
/// multi-speed one.
pub open spec fn spec_source_freq_mhz(rcc: Rcc, src: PllSource) -> usize {
    match src {
        PllSource::HSI16 => HSI_FREQUENCY_MHZ,
        PllSource::HSE32 => HSE_FREQUENCY_MHZ,
        PllSource::MSI => (spec_msi_range_of(rcc.registers.msirange).spec_frequency_hz()
            / 1_000_000) as usize,
    }
}

/// Register and cache state after a solution has been committed: the PLL is
/// programmed from the solution, running and locked, exactly the requested
/// outputs were newly enabled, and the achieved frequency of each requested
/// output is cached.  Nothing else changed.
pub open spec fn committed(
    pre_self: Pll,
    pre_rcc: Rcc,
    post_self: Pll,
    post_rcc: Rcc,
    source: PllSource,
    sol: PllSolution,
) -> bool {
    &&& post_rcc.registers == (RccRegisters {
        pllsrc: source.spec_register_value(),
        pllm: sol.m as u32,
        plln: sol.n as u32,
        pllp: placeholder_div(sol.p),
        pllq: placeholder_div(sol.q),
        pllr: placeholder_div(sol.r),
        pllpen: pre_rcc.registers.pllpen || sol.p is Some,
        pllqen: pre_rcc.registers.pllqen || sol.q is Some,
        pllren: pre_rcc.registers.pllren || sol.r is Some,
        pllon: true,
        pllrdy: true,
        ..pre_rcc.registers
    })
    &&& post_self == (Pll {
        pll_source: source,
        pllp_frequency_mhz: match (sol.p, sol.actual_p_mhz) {
            (Option::Some(_), Option::Some(f)) => f,
            _ => pre_self.pllp_frequency_mhz,
        },
        pllq_frequency_mhz: match (sol.q, sol.actual_q_mhz) {
            (Option::Some(_), Option::Some(f)) => f,
            _ => pre_self.pllq_frequency_mhz,
        },
        pllr_frequency_mhz: match (sol.r, sol.actual_r_mhz) {
            (Option::Some(_), Option::Some(f)) => f,
            _ => pre_self.pllr_frequency_mhz,
        },
        ..pre_self
    })
}

/// An achieved frequency never exceeds the ceiling its output was checked
/// against.
proof fn lemma_floor_le_ceiling(src_mhz: usize, n: u16, m: u8, d: u8, ceiling_mhz: u32)
    requires
        1 <= m,
        1 <= d,
        src_mhz * n <= ceiling_mhz * m * d,
    ensures
        0 <= floor_mhz(src_mhz, n, m, d) <= ceiling_mhz,
{
    assert((ceiling_mhz as int) * ((m as int) * (d as int)) == (ceiling_mhz as int) * (m as int) * (
    d as int)) by (nonlinear_arith);
    assert(1 <= (m as int) * (d as int)) by (nonlinear_arith)
        requires
            1 <= m,
            1 <= d,
    ;
    let den = (m as int) * (d as int);
    vstd::arithmetic::div_mod::lemma_div_is_ordered(
        (src_mhz as int) * (n as int),
        (ceiling_mhz as int) * den,
        den,
    );
    vstd::arithmetic::div_mod::lemma_div_by_multiple(ceiling_mhz as int, den);
    vstd::arithmetic::div_mod::lemma_div_pos_is_pos((src_mhz as int) * (n as int), den);
}

/// Runs the hardware sequence that commits a solution: disable the PLL and
/// wait for the lock flag to clear, program source and dividers with a valid
/// placeholder for each unused output, enable the PLL, wait for lock, then
/// enable exactly the outputs the solution carries.
#[verifier::rlimit(100)]
fn apply_solution(rcc: &mut Rcc, source: PllSource, solution: PllSolution)
    requires
        old(rcc).wf(),
        old(rcc).sys_clock_source_spec() != SysClockSource::PLLRCLK,
        1 <= solution.m <= 8,
        6 <= solution.n <= 127,
        solution.p matches Some(d) ==> 2 <= d <= 32,
        solution.q matches Some(d) ==> 2 <= d <= 8,
        solution.r matches Some(d) ==> 2 <= d <= 8,
    ensures
        final(rcc).wf(),
        final(rcc).registers == (RccRegisters {
            pllsrc: source.spec_register_value(),
            pllm: solution.m as u32,
            plln: solution.n as u32,
            pllp: placeholder_div(solution.p),
            pllq: placeholder_div(solution.q),
            pllr: placeholder_div(solution.r),
            pllpen: old(rcc).registers.pllpen || solution.p is Some,
            pllqen: old(rcc).registers.pllqen || solution.q is Some,
            pllren: old(rcc).registers.pllren || solution.r is Some,
            pllon: true,
            pllrdy: true,
            ..old(rcc).registers
        }),
{
    let p_div: u8 = match solution.p {
        Option::Some(d) => d,
        Option::None => 2,
    };
    let q_div: u8 = match solution.q {
        Option::Some(d) => d,
        Option::None => 2,
    };
    let r_div: u8 = match solution.r {
        Option::Some(d) => d,
        Option::None => 2,
    };
    let disable_result = rcc.disable_pll_and_wait();
    rcc.configure_pll(source, solution.m, solution.n, p_div, q_div, r_div);
    rcc.set_pll_enable(true);
    let lock_result = rcc.wait_pll_ready();
    match lock_result {
        Result::Ok(()) => {},
        Result::Err(_) => {
            proof {
                assert(false);
            }
        },
    }
    rcc.enable_pll_outputs(solution.p.is_some(), solution.q.is_some(), solution.r.is_some());
}

/// The optional 48 MHz `Q` target of the shorthand configuration call.
pub open spec fn spec_optional_q48(need_48mhz_q: bool) -> Option<usize> {
    if need_48mhz_q {
        Option::Some(48usize)
    } else {
        Option::None
    }
}

/// Main PLL clock controller: holds the chip's capability bounds, the
/// selected input source and the cached frequency of each committed output.
#[derive(Clone, Copy, Debug, PartialEq, Eq, Structural)]
pub struct Pll {
    /// Capability bounds the solver searches under.
    pub constants: PllConstants,
    /// The input source last committed.
    pub pll_source: PllSource,
    /// Cached achieved `P` output frequency in MHz; zero until committed.
    pub pllp_frequency_mhz: usize,
    /// Cached achieved `Q` output frequency in MHz; zero until committed.
    pub pllq_frequency_mhz: usize,
    /// Cached achieved `R` output frequency in MHz; zero until committed.
    pub pllr_frequency_mhz: usize,
}

impl Pll {
    /// The capability bounds are coherent and every cached frequency sits
    /// below its output's ceiling.
    pub open spec fn wf(self) -> bool {
        &&& self.constants.wf()
        &&& self.pllp_frequency_mhz <= self.constants.p_max_mhz
        &&& self.pllq_frequency_mhz <= self.constants.qr_max_mhz
        &&& self.pllr_frequency_mhz <= self.constants.qr_max_mhz
    }

    /// A fresh controller with nothing committed, as a specification-level
    /// value: source defaulted to the high-speed internal oscillator, all
    /// cached frequencies zero.
    pub open spec fn new_spec(constants: PllConstants) -> Pll {
        Pll {
            constants,
            pll_source: PllSource::HSI16,
            pllp_frequency_mhz: 0,
            pllq_frequency_mhz: 0,
            pllr_frequency_mhz: 0,
        }
    }

    /// A fresh controller with nothing committed: source defaulted to the
    /// high-speed internal oscillator, all cached frequencies zero.
    pub fn new(constants: PllConstants) -> (r: Self)
        requires
            constants.wf(),
        ensures
            r.wf(),
            r == Self::new_spec(constants),
    {
        Pll {
            constants,
            pll_source: PllSource::HSI16,
            pllp_frequency_mhz: 0,
            pllq_frequency_mhz: 0,
            pllr_frequency_mhz: 0,
        }
    }

    /// The frequency the given PLL input source supplies, read from the
    /// oscillator configuration; at most 48 MHz on this chip family.
    pub fn source_freq_mhz(&self, rcc: &Rcc, src: PllSource) -> (r: Result<usize, PllError>)
        requires
            rcc.wf(),
        ensures
            r == Result::<usize, PllError>::Ok(spec_source_freq_mhz(*rcc, src)),
            spec_source_freq_mhz(*rcc, src) <= 48,
    {
        let mhz: usize = match src {
            PllSource::HSI16 => HSI_FREQUENCY_MHZ,
            PllSource::HSE32 => HSE_FREQUENCY_MHZ,
            PllSource::MSI => rcc.get_msi_frequency().frequency_mhz() as usize,
        };
        Result::Ok(mhz)
    }

    /// Parts-per-million error of `actual_khz` against `target_khz`,
    /// truncated toward zero and saturating at the largest 32-bit value.
    pub fn ppm_error(actual_khz: u32, target_khz: u32) -> (r: u32)
        requires
            1 <= target_khz,
        ensures
            ({
                let exact = abs_diff(actual_khz as int, target_khz as int) * 1_000_000 / (
                target_khz as int);
                r == if exact <= u32::MAX {
                    exact
                } else {
                    u32::MAX as int
                }
            }),
    {
        let a: u64 = actual_khz as u64;
        let t: u64 = target_khz as u64;
        let diff: u64 = if a >= t {
            a - t
        } else {
            t - a
        };
        let ppm: u64 = diff * 1_000_000 / t;
        if ppm > u32::MAX as u64 {
            u32::MAX
        } else {
            ppm as u32
        }
    }

    /// Solves for the requested targets and, when a solution exists, runs
    /// the reconfiguration sequence: disable the PLL and wait for the lock
    /// flag to clear, program source and dividers, enable the PLL, wait for
    /// lock, enable exactly the requested outputs, and cache the achieved
    /// frequencies.  When no solution exists nothing is written at all and
    /// the previous configuration stays in force.  Succeeds exactly when
    /// some candidate satisfies every requested output within the
    /// tolerance.
    #[verifier::rlimit(100)]
    pub fn configure_from_targets_mhz(
        &mut self,
        rcc: &mut Rcc,
        source: PllSource,
        target_p_mhz: Option<usize>,
        target_q_mhz: Option<usize>,
        target_r_mhz: Option<usize>,
        max_ppm_error: u32,
    ) -> (r: Result<(), PllError>)
        requires
            old(self).wf(),
            old(rcc).wf(),
            old(rcc).sys_clock_source_spec() != SysClockSource::PLLRCLK,
            target_p_mhz matches Some(t) ==> 1 <= t <= MAX_INPUT_MHZ,
            target_q_mhz matches Some(t) ==> 1 <= t <= MAX_INPUT_MHZ,
            target_r_mhz matches Some(t) ==> 1 <= t <= MAX_INPUT_MHZ,
        ensures
            final(self).wf(),
            final(rcc).wf(),
            final(self).constants == old(self).constants,
            r is Ok <==> exists|k: PllCandidate|
                cand_valid(
                    old(self).constants,
                    spec_source_freq_mhz(*old(rcc), source),
                    target_p_mhz,
                    target_q_mhz,
                    target_r_mhz,
                    max_ppm_error,
                    k,
                ),
            r is Err ==> r == Result::<(), PllError>::Err(PllError::NoSolution) && *final(rcc)
                == *old(rcc) && *final(self) == *old(self),
            r is Ok ==> exists|sol: PllSolution|
                #[trigger] solver_post(
                    old(self).constants,
                    spec_source_freq_mhz(*old(rcc), source),
                    target_p_mhz,
                    target_q_mhz,
                    target_r_mhz,
                    max_ppm_error,
                    Option::Some(sol),
                ) && committed(*old(self), *old(rcc), *final(self), *final(rcc), source, sol),
    {
        let ghost c = self.constants;
        let src_result = self.source_freq_mhz(rcc, source);
        let src_mhz: usize = match src_result {
            Result::Ok(v) => v,
            Result::Err(_) => {
                proof {
                    assert(false);
                }
                return Result::Err(PllError::NoSolution);
            },
        };
        match solve_pll_for_targets(
            &self.constants,
            src_mhz,
            target_p_mhz,
            target_q_mhz,
            target_r_mhz,
            max_ppm_error,
        ) {
            Option::None => Result::Err(PllError::NoSolution),
            Option::Some(solution) => {
                let ghost k = (choose|k: PllCandidate|
                    #[trigger] is_best_cand(c, src_mhz, target_p_mhz, target_q_mhz, target_r_mhz, max_ppm_error, k)
                        && solution == sol_of(src_mhz, target_p_mhz, target_q_mhz, target_r_mhz, k));
                proof {
                    assert(cand_valid(c, src_mhz, target_p_mhz, target_q_mhz, target_r_mhz, max_ppm_error, k));
                }
                apply_solution(rcc, source, solution);
                self.pll_source = source;
                if solution.p.is_some() {
                    proof {
                        lemma_floor_le_ceiling(src_mhz, k.n, k.m, k.p.unwrap(), c.p_max_mhz);
                    }
                    self.pllp_frequency_mhz = solution.actual_p_mhz.unwrap();
                }
                if solution.q.is_some() {
                    proof {
                        lemma_floor_le_ceiling(src_mhz, k.n, k.m, k.q.unwrap(), c.qr_max_mhz);
                    }
                    self.pllq_frequency_mhz = solution.actual_q_mhz.unwrap();
                }
                if solution.r.is_some() {
                    proof {
                        lemma_floor_le_ceiling(src_mhz, k.n, k.m, k.r.unwrap(), c.qr_max_mhz);
                    }
                    self.pllr_frequency_mhz = solution.actual_r_mhz.unwrap();
                }
                Result::Ok(())
            },
        }
    }

    /// Shorthand for targeting only the system clock on the `R` output and,
    /// optionally, 48 MHz on the `Q` output, with a one percent tolerance.
    pub fn configure_sysclk_and_optional_48mhz(
        &mut self,
        rcc: &mut Rcc,
        source: PllSource,
        sysclk_mhz: usize,
        need_48mhz_q: bool,
    ) -> (r: Result<(), PllError>)
        requires
            old(self).wf(),
            old(rcc).wf(),
            old(rcc).sys_clock_source_spec() != SysClockSource::PLLRCLK,
            1 <= sysclk_mhz <= MAX_INPUT_MHZ,
        ensures
            final(self).wf(),
            final(rcc).wf(),
            r is Ok <==> exists|k: PllCandidate|
                cand_valid(
                    old(self).constants,
                    spec_source_freq_mhz(*old(rcc), source),
                    Option::None,
                    spec_optional_q48(need_48mhz_q),
                    Option::Some(sysclk_mhz),
                    10_000,
                    k,
                ),
            r is Err ==> r == Result::<(), PllError>::Err(PllError::NoSolution) && *final(rcc)
                == *old(rcc) && *final(self) == *old(self),
            r is Ok ==> exists|sol: PllSolution|
                #[trigger] solver_post(
                    old(self).constants,
                    spec_source_freq_mhz(*old(rcc), source),
                    Option::None,
                    spec_optional_q48(need_48mhz_q),
                    Option::Some(sysclk_mhz),
                    10_000,
                    Option::Some(sol),
                ) && committed(*old(self), *old(rcc), *final(self), *final(rcc), source, sol),
    {
        let q = if need_48mhz_q {
            Option::Some(48usize)
        } else {
            Option::None
        };
        self.configure_from_targets_mhz(
            rcc,
            source,
            Option::None,
            q,
            Option::Some(sysclk_mhz),
            10_000,
        )
    }

    /// Selects the PLL's `R` output as the system clock; the PLL must be
    /// running and locked, and the flash wait states already widened when
    /// this raises the frequency.
    pub fn switch_sysclk_to_pllr(&self, rcc: &mut Rcc)
        requires
            old(rcc).registers.pllon,
            old(rcc).registers.pllrdy,
        ensures
            final(rcc).registers == (RccRegisters {
                sw: SysClockSource::PLLRCLK.spec_register_value(),
                sws: SysClockSource::PLLRCLK.spec_register_value(),
                ..old(rcc).registers
            }),
            final(rcc).sys_clock_source_spec() == SysClockSource::PLLRCLK,
            old(rcc).wf() ==> final(rcc).wf(),
    {
        rcc.set_sys_clock_source(SysClockSource::PLLRCLK);
    }
}

/// Committing the same request twice is idempotent: with the targets and
/// source unchanged, the second reconfiguration commits the same solution,
/// leaves every register exactly as the first commit left it, and caches the
/// same frequencies.
#[verifier::rlimit(100)]
pub proof fn lemma_reconfigure_idempotent(
    s0: Pll,
    r0: Rcc,
    s1: Pll,
    r1: Rcc,
    s2: Pll,
    r2: Rcc,
    source: PllSource,
    target_p_mhz: Option<usize>,
    target_q_mhz: Option<usize>,
    target_r_mhz: Option<usize>,
    max_ppm_error: u32,
    sol1: PllSolution,
    sol2: PllSolution,
)
    requires
        solver_post(
            s0.constants,
            spec_source_freq_mhz(r0, source),
            target_p_mhz,
            target_q_mhz,
            target_r_mhz,
            max_ppm_error,
            Option::Some(sol1),
        ),
        committed(s0, r0, s1, r1, source, sol1),
        solver_post(
            s1.constants,
            spec_source_freq_mhz(r1, source),
            target_p_mhz,
            target_q_mhz,
            target_r_mhz,
            max_ppm_error,
            Option::Some(sol2),
        ),
        committed(s1, r1, s2, r2, source, sol2),
    ensures
        sol2 == sol1,
        s2.pllp_frequency_mhz == s1.pllp_frequency_mhz,
        s2.pllq_frequency_mhz == s1.pllq_frequency_mhz,
        s2.pllr_frequency_mhz == s1.pllr_frequency_mhz,
        s2.pll_source == s1.pll_source,
{
    assert(s1.constants == s0.constants);
    assert(r1.registers.msirange == r0.registers.msirange);
    assert(spec_source_freq_mhz(r1, source) == spec_source_freq_mhz(r0, source));
    assert(sol2 == sol1) by {
        lemma_solver_deterministic(
            s0.constants,
            spec_source_freq_mhz(r0, source),
            target_p_mhz,
            target_q_mhz,
            target_r_mhz,
            max_ppm_error,
            Option::Some(sol1),
            Option::Some(sol2),
        );
    }
}

} // verus!
