//! Tempo-chain builder: decompose an arbitrary playback speed into a
//! chain of audio-tempo stages, each within the codec engine's supported
//! per-stage range of 0.5 to 2.0.

use vstd::prelude::*;
use vstd::string::StringExecFns;
use crate::numfmt::{fixed4_to_str, spec_fixed4};
use crate::strjoin::{join_strings, spec_join, spec_views};

verus! {

/// Two to the power `k`.
pub open spec fn pow2(k: nat) -> int
    decreases k,
{
    if k == 0 {
        1
    } else {
        2 * pow2((k - 1) as nat)
    }
}

/// Whether a speed in thousandths counts as normal speed (within the
/// 0.01 tolerance), so that the chain is the identity filter.
pub open spec fn spec_is_identity_scale(scale_milli: int) -> bool {
    990 <= scale_milli <= 1010
}

/// How many 2.0 stages the builder emits: one for each halving it takes
/// to bring `num / den` down to 2.0 or below.
pub open spec fn spec_speedup_count(num: int, den: int) -> nat
    decreases num - den,
        when 0 < den
{
    if num - den > den {
        1 + spec_speedup_count(num, 2 * den)
    } else {
        0
    }
}

/// How many 0.5 stages the builder emits: one for each doubling it takes
/// to bring `num / den` up to 0.5 or above.
pub open spec fn spec_slowdown_count(num: int, den: int) -> nat
    decreases den - num,
        when 0 < num
{
    if den - num > num {
        1 + spec_slowdown_count(2 * num, den)
    } else {
        0
    }
}

/// The exact factor that remains after the whole-stage doublings and
/// halvings, as a fraction.
#[derive(Clone, Copy, Debug)]
pub struct TempoResidual {
    /// Numerator of the remaining factor.
    pub num: u64,
    /// Denominator of the remaining factor.
    pub den: u64,
}

/// A chain of audio-tempo stages: `speedup_stages` stages of exactly 2.0,
/// then `slowdown_stages` stages of exactly 0.5, then an optional final
/// stage for the remaining factor. At most one of the two stage counts is
/// non-zero, and the remaining factor always lies in [0.5, 2.0].
#[derive(Clone, Debug)]
pub struct TempoChain {
    /// Number of 2.0 stages.
    pub speedup_stages: u64,
    /// Number of 0.5 stages.
    pub slowdown_stages: u64,
    /// The final stage's exact factor, if one is emitted.
    pub residual: Option<TempoResidual>,
}

impl TempoChain {
    /// Numerator of the product of all stage factors.
    pub open spec fn spec_product_num(self) -> int {
        pow2(self.speedup_stages as nat) * (match self.residual {
            Some(r) => r.num as int,
            None => 1,
        })
    }

    /// Denominator of the product of all stage factors.
    pub open spec fn spec_product_den(self) -> int {
        pow2(self.slowdown_stages as nat) * (match self.residual {
            Some(r) => r.den as int,
            None => 1,
        })
    }

    /// Whether the chain is the identity (no stage at all).
    pub open spec fn spec_is_identity(self) -> bool {
        self.speedup_stages == 0 && self.slowdown_stages == 0 && self.residual is None
    }

    /// Every stage factor lies within the supported per-stage range.
    pub open spec fn spec_stages_in_range(self) -> bool {
        match self.residual {
            Some(r) => r.den > 0 && r.den <= 2 * r.num && r.num <= 2 * r.den,
            None => true,
        }
    }
}

/// The chain the builder produces for a playback speed in thousandths:
/// the whole-stage counts, and the exact remaining factor as the final
/// stage unless it is within 0.01 of 1.0.
pub open spec fn spec_tempo_chain(scale_milli: int) -> TempoChain {
    if 990 < scale_milli < 1010 {
        TempoChain { speedup_stages: 0, slowdown_stages: 0, residual: None }
    } else {
        let s = spec_speedup_count(scale_milli, 1000);
        let d = spec_slowdown_count(scale_milli, 1000);
        let fnum = scale_milli * pow2(d);
        let fden = 1000 * pow2(s);
        TempoChain {
            speedup_stages: s as u64,
            slowdown_stages: d as u64,
            residual: if 100 * abs_diff(fnum, fden) > fden {
                Some(TempoResidual { num: fnum as u64, den: fden as u64 })
            } else {
                None
            },
        }
    }
}

/// Build the tempo chain for a playback speed given in thousandths.
///
/// A speed within 0.01 of normal yields the identity chain. Otherwise the
/// speed is repeatedly halved (emitting a 2.0 stage) while it is above
/// 2.0, or doubled (emitting a 0.5 stage) while it is below 0.5, and the
/// remaining factor becomes one final stage unless it is within 0.01 of
/// 1.0. The product of the stage factors equals the requested speed
/// exactly whenever the final stage is emitted, and lies within about one
/// percent of it when the final stage is dropped.
pub fn build_tempo_chain(scale_milli: u64) -> (c: TempoChain)
    requires
        scale_milli > 0,
    ensures
        c == spec_tempo_chain(scale_milli as int),
        c.spec_is_identity() <==> spec_is_identity_scale(scale_milli as int),
        c.speedup_stages == 0 || c.slowdown_stages == 0,
        c.spec_stages_in_range(),
        c.residual is Some ==> c.spec_product_num() * 1000 == c.spec_product_den() * (
        scale_milli as int),
        !c.spec_is_identity() && c.residual is None ==> 99 * abs_diff(
            c.spec_product_num() * 1000,
            c.spec_product_den() * (scale_milli as int),
        ) <= c.spec_product_den() * (scale_milli as int),
{
    if scale_milli > 990 && scale_milli < 1010 {
        return TempoChain { speedup_stages: 0, slowdown_stages: 0, residual: None };
    }
    let mut num: u64 = scale_milli;
    let mut den: u64 = 1000;
    let mut speedup: u64 = 0;
    let mut slowdown: u64 = 0;
    while num > den && num - den > den
        invariant
            num == scale_milli,
            1 <= den,
            den as int == 1000 * pow2(speedup as nat),
            slowdown == 0,
            speedup > 0 ==> num > den,
            speedup as nat + spec_speedup_count(num as int, den as int) == spec_speedup_count(
                scale_milli as int,
                1000,
            ),
        decreases num - den,
    {
        proof {
            lemma_pow2_gt(speedup as nat);
            assert(pow2((speedup + 1) as nat) == 2 * pow2(speedup as nat));
        }
        den = den * 2;
        speedup = speedup + 1;
    }
    while den > num && den - num > num
        invariant
            1 <= num,
            num as int == scale_milli as int * pow2(slowdown as nat),
            speedup > 0 ==> den as int == 1000 * pow2(speedup as nat) && slowdown == 0 && num
                > den,
            speedup == 0 ==> den == 1000,
            speedup == 0 && slowdown > 0 ==> num <= den,
            speedup as nat == spec_speedup_count(scale_milli as int, 1000),
            slowdown as nat + spec_slowdown_count(num as int, den as int) == spec_slowdown_count(
                scale_milli as int,
                1000,
            ),
        decreases den - num,
    {
        proof {
            lemma_pow2_gt(slowdown as nat);
            assert(scale_milli as int * pow2(slowdown as nat) >= pow2(slowdown as nat))
                by (nonlinear_arith)
                requires
                    scale_milli >= 1,
                    pow2(slowdown as nat) >= 0,
            ;
            assert(pow2((slowdown + 1) as nat) == 2 * pow2(slowdown as nat));
            assert(scale_milli as int * pow2((slowdown + 1) as nat) == 2 * (scale_milli as int
                * pow2(slowdown as nat))) by (nonlinear_arith);
        }
        num = num * 2;
        slowdown = slowdown + 1;
    }
    let diff: u64 = if num >= den {
        num - den
    } else {
        den - num
    };
    let residual: Option<TempoResidual> = if (diff as u128) * 100 > den as u128 {
        Some(TempoResidual { num, den })
    } else {
        None
    };
    let c = TempoChain { speedup_stages: speedup, slowdown_stages: slowdown, residual };
    proof {
        lemma_pow2_pos(speedup as nat);
        lemma_pow2_pos(slowdown as nat);
        if speedup > 0 {
            assert(pow2(speedup as nat) >= 2) by {
                lemma_pow2_pos((speedup - 1) as nat);
                assert(pow2(speedup as nat) == 2 * pow2((speedup - 1) as nat));
            }
            assert(scale_milli > 1010);
        } else if slowdown > 0 {
            assert(pow2(slowdown as nat) >= 2) by {
                lemma_pow2_pos((slowdown - 1) as nat);
                assert(pow2(slowdown as nat) == 2 * pow2((slowdown - 1) as nat));
            }
            assert(num as int >= 2 * scale_milli as int) by (nonlinear_arith)
                requires
                    num as int == scale_milli as int * pow2(slowdown as nat),
                    pow2(slowdown as nat) >= 2,
                    scale_milli >= 1,
            ;
            assert(scale_milli < 990);
        }
        if speedup > 0 {
            assert(c.spec_product_num() * 1000 == c.spec_product_den() * (scale_milli as int)
                || residual is None) by (nonlinear_arith)
                requires
                    c.speedup_stages == speedup,
                    c.slowdown_stages == slowdown,
                    slowdown == 0,
                    c.residual == residual,
                    residual is Some ==> residual->0 == (TempoResidual { num, den }),
                    num == scale_milli,
                    den as int == 1000 * pow2(speedup as nat),
                    pow2(0) == 1,
            ;
            if residual is None {
                assert(c.spec_product_num() * 1000 == pow2(speedup as nat) * 1000);
                assert(c.spec_product_den() * (scale_milli as int) == scale_milli as int)
                    by (nonlinear_arith)
                    requires
                        c.spec_product_den() == pow2(slowdown as nat),
                        slowdown == 0,
                ;
                assert(pow2(speedup as nat) * 1000 == den);
                assert(100 * (diff as int) <= den);
            }
        } else {
            assert(c.spec_product_num() * 1000 == c.spec_product_den() * (scale_milli as int)
                || residual is None) by (nonlinear_arith)
                requires
                    c.speedup_stages == speedup,
                    c.slowdown_stages == slowdown,
                    speedup == 0,
                    c.residual == residual,
                    residual is Some ==> residual->0 == (TempoResidual { num, den }),
                    num as int == scale_milli as int * pow2(slowdown as nat),
                    den == 1000,
                    pow2(0) == 1,
            ;
            if residual is None {
                assert(c.spec_product_num() * 1000 == 1000);
                assert(c.spec_product_den() * (scale_milli as int) == num) by (nonlinear_arith)
                    requires
                        c.spec_product_den() == pow2(slowdown as nat),
                        num as int == scale_milli as int * pow2(slowdown as nat),
                ;
                assert(100 * (diff as int) <= den);
            }
        }
    }
    c
}

/// The residual factor rounded to the nearest ten-thousandth, which is
/// how the final stage is printed (four decimal places).
pub open spec fn spec_residual_fixed4(r: TempoResidual) -> int {
    (r.num * 10000 + r.den / 2) / (r.den as int)
}

/// The text of each stage of the chain, in order: the 2.0 stages, then
/// the 0.5 stages, then the rounded residual stage if one is emitted.
pub open spec fn spec_stage_texts(c: TempoChain) -> Seq<Seq<char>> {
    Seq::new(c.speedup_stages as nat, |i: int| "atempo=2.0"@) + Seq::new(
        c.slowdown_stages as nat,
        |i: int| "atempo=0.5"@,
    ) + (match c.residual {
        Some(r) => seq!["atempo="@ + spec_fixed4(spec_residual_fixed4(r))],
        None => Seq::<Seq<char>>::empty(),
    })
}

/// The complete audio-tempo filter text: the stages joined with commas,
/// or the identity filter when there is no stage.
pub open spec fn spec_atempo_chain_text(c: TempoChain) -> Seq<char> {
    if spec_stage_texts(c).len() == 0 {
        "anull"@
    } else {
        spec_join(spec_stage_texts(c), ","@)
    }
}

/// Render the chain as the codec engine's audio-tempo filter text.
pub fn atempo_chain_text(c: &TempoChain) -> (r: String)
    requires
        c.spec_stages_in_range(),
    ensures
        r@ == spec_atempo_chain_text(*c),
{
    let mut parts: Vec<String> = Vec::new();
    let mut i: u64 = 0;
    while i < c.speedup_stages
        invariant
            i <= c.speedup_stages,
            spec_views(parts@) =~= Seq::new(i as nat, |j: int| "atempo=2.0"@),
        decreases c.speedup_stages - i,
    {
        let ghost before = spec_views(parts@);
        parts.push("atempo=2.0".to_owned());
        proof {
            assert(spec_views(parts@) =~= before + seq!["atempo=2.0"@]);
            assert(spec_views(parts@) =~= Seq::new((i + 1) as nat, |j: int| "atempo=2.0"@));
        }
        i = i + 1;
    }
    let mut k: u64 = 0;
    while k < c.slowdown_stages
        invariant
            k <= c.slowdown_stages,
            spec_views(parts@) =~= Seq::new(c.speedup_stages as nat, |j: int| "atempo=2.0"@)
                + Seq::new(k as nat, |j: int| "atempo=0.5"@),
        decreases c.slowdown_stages - k,
    {
        let ghost before = spec_views(parts@);
        parts.push("atempo=0.5".to_owned());
        proof {
            assert(spec_views(parts@) =~= before + seq!["atempo=0.5"@]);
            assert(spec_views(parts@) =~= Seq::new(
                c.speedup_stages as nat,
                |j: int| "atempo=2.0"@,
            ) + Seq::new((k + 1) as nat, |j: int| "atempo=0.5"@));
        }
        k = k + 1;
    }
    if let Some(res) = c.residual {
        let ghost before = spec_views(parts@);
        let q_wide: u128 = ((res.num as u128) * 10000 + (res.den as u128) / 2) / (res.den as u128);
        assert(q_wide <= 20500) by (nonlinear_arith)
            requires
                q_wide == ((res.num as int) * 10000 + (res.den as int) / 2) / (res.den as int),
                res.den >= 1,
                res.num <= 2 * res.den,
        ;
        let mut stage = String::from_str("atempo=");
        stage.append(fixed4_to_str(q_wide as u64).as_str());
        parts.push(stage);
        proof {
            assert(spec_views(parts@) =~= before + seq![
                "atempo="@ + spec_fixed4(spec_residual_fixed4(res)),
            ]);
        }
    }
    proof {
        assert(spec_views(parts@) =~= spec_stage_texts(*c));
    }
    if parts.len() == 0 {
        "anull".to_owned()
    } else {
        join_strings(&parts, ",")
    }
}

/// Absolute difference of two integers.
pub open spec fn abs_diff(a: int, b: int) -> int {
    if a >= b {
        a - b
    } else {
        b - a
    }
}

/// Two raised to any power is positive.
proof fn lemma_pow2_pos(k: nat)
    ensures
        pow2(k) >= 1,
    decreases k,
{
    if k > 0 {
        lemma_pow2_pos((k - 1) as nat);
    }
}

/// Two to the power `k` exceeds `k`.
proof fn lemma_pow2_gt(k: nat)
    ensures
        pow2(k) > k,
    decreases k,
{
    if k > 0 {
        lemma_pow2_gt((k - 1) as nat);
    }
}

} // verus!
