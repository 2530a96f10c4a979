//! Elo-family rating arithmetic, in integers.
//!
//! The expected score `1 / (1 + 10^(d / 400))` is evaluated in fixed point
//! with a resolution of 10^-12: `10^(d / 400)` is `10^(d div 400)` times the
//! fractional power `10^((d mod 400) / 400)`, which is built by repeated
//! multiplication with `10^(1/400)`. Rating differences beyond 4799 points
//! are treated as 4799 points; past that the expected score is below 10^-12.
use vstd::prelude::*;

verus! {

/// One unit of an expected score, in fixed point.
pub const SCALE: u128 = 1_000_000_000_000;

/// `10^(1/400)` in fixed point, rounded down.
pub const STEP: u128 = 1_005_773_063_001;

/// Ceiling on a fractional power; the true values stay below it.
pub const GROWTH_CAP: u128 = 10_000_000_000_000;

/// Rating differences are clamped to this many points either way.
pub const DIFF_CAP: i64 = 4799;

/// Result of a match from player one's perspective.
#[derive(Clone, Copy, Debug, PartialEq, Eq, Structural)]
pub enum MatchOutcome {
    Win,
    Draw,
    Loss,
}

impl MatchOutcome {
    /// The outcome as a score in fixed point: 1, 1/2 or 0.
    pub open spec fn scaled(self) -> int {
        match self {
            MatchOutcome::Win => SCALE as int,
            MatchOutcome::Draw => SCALE as int / 2,
            MatchOutcome::Loss => 0,
        }
    }

    /// The same result seen from player two.
    pub open spec fn flipped(self) -> MatchOutcome {
        match self {
            MatchOutcome::Win => MatchOutcome::Loss,
            MatchOutcome::Draw => MatchOutcome::Draw,
            MatchOutcome::Loss => MatchOutcome::Win,
        }
    }

    pub fn flip(&self) -> (r: MatchOutcome)
        ensures
            r == self.flipped(),
    {
        match self {
            MatchOutcome::Win => MatchOutcome::Loss,
            MatchOutcome::Draw => MatchOutcome::Draw,
            MatchOutcome::Loss => MatchOutcome::Win,
        }
    }

    fn score(&self) -> (r: i128)
        ensures
            r as int == self.scaled(),
    {
        match self {
            MatchOutcome::Win => SCALE as i128,
            MatchOutcome::Draw => (SCALE / 2) as i128,
            MatchOutcome::Loss => 0,
        }
    }
}

/// K-factor: 40 below 30 games, else 10 from a rating of 2400, else 20.
pub open spec fn k_factor_spec(elo: int, total_games: int) -> int {
    if total_games < 30 {
        40
    } else if elo >= 2400 {
        10
    } else {
        20
    }
}

pub open spec fn pow10(q: nat) -> nat
    decreases q,
{
    if q == 0 {
        1
    } else {
        10 * pow10((q - 1) as nat)
    }
}

/// `10^(n/400)` in fixed point, for `n < 400`.
pub open spec fn growth(n: nat) -> nat
    decreases n,
{
    if n == 0 {
        SCALE as nat
    } else {
        let g = growth((n - 1) as nat) * (STEP as nat) / (SCALE as nat);
        if g > GROWTH_CAP as nat {
            GROWTH_CAP as nat
        } else {
            g
        }
    }
}

/// `10^(d/400)` in fixed point.
pub open spec fn power_scaled(d: nat) -> nat {
    pow10(d / 400) * growth(d % 400)
}

/// Expected score against an opponent rated `d >= 0` points higher.
pub open spec fn expected_nonneg(d: nat) -> nat {
    (SCALE as nat * SCALE as nat) / (SCALE as nat + power_scaled(d))
}

pub open spec fn clamp_diff(d: int) -> int {
    if d > DIFF_CAP {
        DIFF_CAP as int
    } else if d < -DIFF_CAP {
        -DIFF_CAP
    } else {
        d
    }
}

/// Expected score, in fixed point, of a player whose opponent is rated `d`
/// points higher (`d` may be negative).
pub open spec fn expected_scaled(d: int) -> int {
    let c = clamp_diff(d);
    if c >= 0 {
        expected_nonneg(c as nat) as int
    } else {
        SCALE as int - expected_nonneg((-c) as nat) as int
    }
}

/// `n / s` rounded to the nearest integer, halves away from zero.
pub open spec fn round_div(n: int, s: int) -> int {
    if n >= 0 {
        (2 * n + s) / (2 * s)
    } else {
        -((-2 * n + s) / (2 * s))
    }
}

/// A rating is never below zero and never beyond the `i32` range.
pub open spec fn clamp_rating(r: int) -> int {
    if r < 0 {
        0
    } else if r > i32::MAX {
        i32::MAX as int
    } else {
        r
    }
}

/// `round(k * (outcome - expected))` with both scores in fixed point.
pub open spec fn rating_delta(k: int, outcome: int, expected: int) -> int {
    round_div(k * (outcome - expected), SCALE as int)
}

/// New ratings of both players after a match with the given outcome.
pub open spec fn elo_spec(p1: int, g1: int, p2: int, g2: int, o: MatchOutcome) -> (int, int) {
    let e1 = expected_scaled(p2 - p1);
    (
        clamp_rating(p1 + rating_delta(k_factor_spec(p1, g1), o.scaled(), e1)),
        clamp_rating(
            p2 + rating_delta(k_factor_spec(p2, g2), SCALE as int - o.scaled(), SCALE as int - e1),
        ),
    )
}

fn k_factor(elo: i32, total_games: i32) -> (r: i128)
    ensures
        r as int == k_factor_spec(elo as int, total_games as int),
{
    if total_games < 30 {
        40
    } else if elo >= 2400 {
        10
    } else {
        20
    }
}

fn fractional_power(n: u64) -> (r: u128)
    requires
        n < 400,
    ensures
        r as nat == growth(n as nat),
        r <= GROWTH_CAP,
{
    let mut g: u128 = SCALE;
    let mut i: u64 = 0;
    while i < n
        invariant
            i <= n,
            g as nat == growth(i as nat),
            g <= GROWTH_CAP,
        decreases n - i,
    {
        assert(g * STEP <= GROWTH_CAP * STEP) by (nonlinear_arith)
            requires
                g <= GROWTH_CAP,
        ;
        let next = g * STEP / SCALE;
        g = if next > GROWTH_CAP {
            GROWTH_CAP
        } else {
            next
        };
        i = i + 1;
    }
    g
}

fn power_of_ten(q: u64) -> (r: u128)
    requires
        q <= 11,
    ensures
        r as nat == pow10(q as nat),
        r <= 100_000_000_000,
{
    proof {
        lemma_pow10_eleven();
        lemma_pow10_monotone(q as nat, 11);
    }
    let mut p: u128 = 1;
    let mut i: u64 = 0;
    while i < q
        invariant
            i <= q <= 11,
            p as nat == pow10(i as nat),
            pow10(11) == 100_000_000_000,
        decreases q - i,
    {
        proof {
            lemma_pow10_monotone((i + 1) as nat, 11);
        }
        p = p * 10;
        i = i + 1;
    }
    p
}

proof fn lemma_pow10_eleven()
    ensures
        pow10(11) == 100_000_000_000,
{
    reveal_with_fuel(pow10, 12);
}

proof fn lemma_pow10_monotone(a: nat, b: nat)
    requires
        a <= b,
    ensures
        pow10(a) <= pow10(b),
    decreases b,
{
    if a < b {
        lemma_pow10_monotone(a, (b - 1) as nat);
    }
}

fn expected_for_gap(d: u64) -> (r: u128)
    requires
        d <= DIFF_CAP,
    ensures
        r as nat == expected_nonneg(d as nat),
        r <= SCALE,
{
    let p = power_of_ten(d / 400);
    let g = fractional_power(d % 400);
    assert(p * g <= 100_000_000_000u128 * GROWTH_CAP) by (nonlinear_arith)
        requires
            p <= 100_000_000_000u128,
            g <= GROWTH_CAP,
    ;
    let power = p * g;
    let r = (SCALE * SCALE) / (SCALE + power);
    assert(r <= SCALE) by (nonlinear_arith)
        requires
            r == (SCALE * SCALE) / (SCALE + power),
            SCALE > 0,
    ;
    r
}

/// Expected score, in fixed point, of a player whose opponent is rated
/// `diff` points higher.
pub fn expected_score(diff: i64) -> (r: u128)
    ensures
        r as int == expected_scaled(diff as int),
        r <= SCALE,
{
    let c: i64 = if diff > DIFF_CAP {
        DIFF_CAP
    } else if diff < -DIFF_CAP {
        -DIFF_CAP
    } else {
        diff
    };
    if c >= 0 {
        expected_for_gap(c as u64)
    } else {
        SCALE - expected_for_gap((-c) as u64)
    }
}

fn rounded_div(n: i128, s: i128) -> (r: i128)
    requires
        s > 0,
        -1_000_000_000_000_000_000 <= n <= 1_000_000_000_000_000_000,
        s <= 1_000_000_000_000_000_000,
    ensures
        r as int == round_div(n as int, s as int),
{
    if n >= 0 {
        (2 * n + s) / (2 * s)
    } else {
        let m: i128 = 0 - n;
        let q: i128 = (2 * m + s) / (2 * s);
        0 - q
    }
}

fn clamped_rating(r: i128) -> (c: i32)
    ensures
        c as int == clamp_rating(r as int),
{
    if r < 0 {
        0
    } else if r > i32::MAX as i128 {
        i32::MAX
    } else {
        r as i32
    }
}

/// New ratings `(p1', p2')` after a match between players rated `p1_elo`
/// and `p2_elo` with `p1_games` and `p2_games` games played, where
/// `outcome` is player one's result. Each delta is `K * (score - expected)`
/// rounded half away from zero; results are clamped to at least 0.
pub fn calculate_elo(
    p1_elo: i32,
    p1_games: i32,
    p2_elo: i32,
    p2_games: i32,
    outcome: MatchOutcome,
) -> (r: (i32, i32))
    ensures
        (r.0 as int, r.1 as int) == elo_spec(
            p1_elo as int,
            p1_games as int,
            p2_elo as int,
            p2_games as int,
            outcome,
        ),
{
    let e1 = expected_score(p2_elo as i64 - p1_elo as i64) as i128;
    let e2 = SCALE as i128 - e1;
    let k1 = k_factor(p1_elo, p1_games);
    let k2 = k_factor(p2_elo, p2_games);
    let o = outcome.score();
    let one = SCALE as i128;
    assert(-40 * one <= k1 * (o - e1) <= 40 * one) by (nonlinear_arith)
        requires
            0 <= o <= one,
            0 <= e1 <= one,
            10 <= k1 <= 40,
    ;
    assert(-40 * one <= k2 * ((one - o) - e2) <= 40 * one) by (nonlinear_arith)
        requires
            0 <= o <= one,
            e2 == one - e1,
            0 <= e1 <= one,
            10 <= k2 <= 40,
    ;
    let d1 = rounded_div(k1 * (o - e1), one);
    let d2 = rounded_div(k2 * ((one - o) - e2), one);
    proof {
        lemma_round_div_bounded(k1 * (o - e1), one as int, 40);
        lemma_round_div_bounded(k2 * ((one - o) - e2), one as int, 40);
    }
    (clamped_rating(p1_elo as i128 + d1), clamped_rating(p2_elo as i128 + d2))
}

proof fn lemma_round_div_bounded(n: int, s: int, m: int)
    requires
        s > 0,
        m >= 0,
        -m * s <= n <= m * s,
    ensures
        -m <= round_div(n, s) <= m,
{
    if n >= 0 {
        assert((2 * n + s) / (2 * s) <= m) by (nonlinear_arith)
            requires
                s > 0,
                0 <= n <= m * s,
                m >= 0,
        {
            assert(2 * n + s < (m + 1) * (2 * s));
        }
        assert((2 * n + s) / (2 * s) >= 0) by (nonlinear_arith)
            requires
                s > 0,
                n >= 0,
        ;
    } else {
        assert((-2 * n + s) / (2 * s) <= m) by (nonlinear_arith)
            requires
                s > 0,
                n < 0,
                -m * s <= n,
                m >= 0,
        {
            assert(-2 * n + s < (m + 1) * (2 * s));
        }
        assert((-2 * n + s) / (2 * s) >= 0) by (nonlinear_arith)
            requires
                s > 0,
                n < 0,
        ;
    }
}

proof fn lemma_round_div_odd(n: int, s: int)
    requires
        s > 0,
    ensures
        round_div(-n, s) == -round_div(n, s),
{
    if n == 0 {
        assert(s / (2 * s) == 0) by (nonlinear_arith)
            requires
                s > 0,
        ;
    }
}

proof fn lemma_expected_complement(d: int)
    ensures
        expected_scaled(-d) == SCALE as int - expected_scaled(d),
{
    lemma_expected_zero();
}

proof fn lemma_expected_zero()
    ensures
        expected_scaled(0) == SCALE as int / 2,
        expected_nonneg(0) == SCALE as nat / 2,
{
    assert(0nat / 400 == 0 && 0nat % 400 == 0) by (nonlinear_arith);
    assert(pow10(0) == 1);
    assert(growth(0) == SCALE as nat);
    assert(power_scaled(0) == SCALE as nat);
    assert((SCALE as nat * SCALE as nat) / (SCALE as nat + SCALE as nat) == SCALE as nat / 2)
        by (nonlinear_arith);
    assert(expected_nonneg(0) == SCALE as nat / 2);
}

proof fn lemma_expected_in_range(d: int)
    ensures
        0 <= expected_scaled(d) <= SCALE,
{
    let c = clamp_diff(d);
    let n: nat = if c >= 0 { c as nat } else { (-c) as nat };
    let p = power_scaled(n);
    assert((SCALE as nat * SCALE as nat) / (SCALE as nat + p) <= SCALE as nat) by (nonlinear_arith)
        requires
            p >= 0,
    ;
}

proof fn lemma_growth_twenty()
    ensures
        growth(20) == 1122018454275,
{
    assert(growth(0) == SCALE as nat);
    assert(growth(1) == 1005773063001);
    assert(growth(2) == 1011579454258);
    assert(growth(3) == 1017419366177);
    assert(growth(4) == 1023292992276);
    assert(growth(5) == 1029200527188);
    assert(growth(6) == 1035142166672);
    assert(growth(7) == 1041118107615);
    assert(growth(8) == 1047128548041);
    assert(growth(9) == 1053173687118);
    assert(growth(10) == 1059253725164);
    assert(growth(11) == 1065368863653);
    assert(growth(12) == 1071519305222);
    assert(growth(13) == 1077705253677);
    assert(growth(14) == 1083926914002);
    assert(growth(15) == 1090184492365);
    assert(growth(16) == 1096478196122);
    assert(growth(17) == 1102808233827);
    assert(growth(18) == 1109174815238);
    assert(growth(19) == 1115578151325);
    assert(growth(20) == 1122018454275);
}

/// A new player (under 30 games) who beats an equally rated opponent and
/// then loses to that same, unchanged opponent ends one point below the
/// start: a win and a loss against a static opponent do not inflate a
/// rating.
pub proof fn win_then_loss_round_trip(r: int, g: int, h: int)
    requires
        2 <= r <= 100000,
        0 <= g,
        g + 1 < 30,
        0 <= h,
    ensures
        elo_spec(r, g, r, h, MatchOutcome::Win).0 == r + 20,
        elo_spec(r + 20, g + 1, r, h, MatchOutcome::Loss).0 == r - 1,
{
    lemma_expected_zero();
    assert(40 * (1000000000000int - 1000000000000int / 2) == 20000000000000);
    assert((2 * 20000000000000int + 1000000000000) / (2 * 1000000000000int) == 20);
    lemma_growth_twenty();
    assert(20nat / 400 == 0 && 20nat % 400 == 20) by (nonlinear_arith);
    assert(pow10(0) == 1);
    assert(power_scaled(20) == 1122018454275);
    assert(1000000000000nat * 1000000000000nat == 1000000000000000000000000nat);
    assert(1000000000000000000000000nat / 2122018454275nat == 471249436113) by (nonlinear_arith);
    assert(expected_nonneg(20) == 471249436113);
    assert(clamp_diff(r - (r + 20)) == -20);
    assert(expected_scaled(r - (r + 20)) == 1000000000000 - 471249436113);
    assert(40 * (0 - (1000000000000int - 471249436113)) == -21150022555480);
    assert((2 * 21150022555480int + 1000000000000) / (2 * 1000000000000int) == 21);
}

/// A rated match moves neither player's rating by more than 40 points.
pub proof fn rating_change_bounded(p1: int, g1: int, p2: int, g2: int, o: MatchOutcome)
    requires
        0 <= p1 <= i32::MAX,
        0 <= p2 <= i32::MAX,
    ensures
        -40 <= elo_spec(p1, g1, p2, g2, o).0 - p1 <= 40,
        -40 <= elo_spec(p1, g1, p2, g2, o).1 - p2 <= 40,
{
    let e1 = expected_scaled(p2 - p1);
    lemma_expected_in_range(p2 - p1);
    let one = SCALE as int;
    let k1 = k_factor_spec(p1, g1);
    let k2 = k_factor_spec(p2, g2);
    let o1 = o.scaled();
    assert(-40 * one <= k1 * (o1 - e1) <= 40 * one) by (nonlinear_arith)
        requires
            0 <= o1 <= one,
            0 <= e1 <= one,
            10 <= k1 <= 40,
    ;
    assert(-40 * one <= k2 * ((one - o1) - (one - e1)) <= 40 * one) by (nonlinear_arith)
        requires
            0 <= o1 <= one,
            0 <= e1 <= one,
            10 <= k2 <= 40,
    ;
    lemma_round_div_bounded(k1 * (o1 - e1), one, 40);
    lemma_round_div_bounded(k2 * ((one - o1) - (one - e1)), one, 40);
}

/// Swapping the players and flipping the outcome swaps the new ratings.
pub proof fn rating_symmetry(a: int, na: int, b: int, nb: int, o: MatchOutcome)
    ensures
        elo_spec(b, nb, a, na, o.flipped()) == (elo_spec(a, na, b, nb, o).1, elo_spec(
            a,
            na,
            b,
            nb,
            o,
        ).0),
{
    lemma_expected_complement(b - a);
    assert(-(b - a) == a - b);
    let one = SCALE as int;
    assert(o.flipped().scaled() == one - o.scaled());
    assert(one - o.flipped().scaled() == o.scaled());
    assert(one - expected_scaled(a - b) == expected_scaled(b - a));
}

/// When both players have the same K-factor and neither result is clamped,
/// the two rating changes of a match cancel out.
pub proof fn rating_changes_cancel(p1: int, g1: int, p2: int, g2: int, o: MatchOutcome)
    requires
        k_factor_spec(p1, g1) == k_factor_spec(p2, g2),
        0 <= p1 + rating_delta(k_factor_spec(p1, g1), o.scaled(), expected_scaled(p2 - p1))
            <= i32::MAX,
        0 <= p2 + rating_delta(
            k_factor_spec(p2, g2),
            SCALE as int - o.scaled(),
            SCALE as int - expected_scaled(p2 - p1),
        ) <= i32::MAX,
    ensures
        (elo_spec(p1, g1, p2, g2, o).0 - p1) + (elo_spec(p1, g1, p2, g2, o).1 - p2) == 0,
{
    let k = k_factor_spec(p1, g1);
    let e1 = expected_scaled(p2 - p1);
    let one = SCALE as int;
    let x = o.scaled() - e1;
    assert(k * ((one - o.scaled()) - (one - e1)) == -(k * x)) by (nonlinear_arith)
        requires
            x == o.scaled() - e1,
    ;
    lemma_round_div_odd(k * x, one);
}

} // verus!
