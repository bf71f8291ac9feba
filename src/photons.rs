//! Photon-arrival assembly for a pulsed X-ray source.
//!
//! Time is counted in integer ticks and a pulse phase in units of
//! `PHASE_SCALE` per rotation. Each detected photon is given a phase within
//! the pulse and a random instant of the exposure; the photon is placed at
//! that phase of the rotation in which the instant falls, and kept only if it
//! arrives before the exposure ends.
use rand::rngs::StdRng;
use rand::Rng;
use vstd::prelude::*;

verus! {

/// Phase units in one rotation of the pulsar.
pub const PHASE_SCALE: u64 = 1_000_000;

/// A photon is pulsed with probability `SIGNAL_NUMERATOR / SIGNAL_DENOMINATOR`,
/// and background otherwise.
pub const SIGNAL_NUMERATOR: u32 = 3;

pub const SIGNAL_DENOMINATOR: u32 = 10;

/// The random choices made for one photon.
#[derive(Debug, Clone, Copy, PartialEq, Eq, Structural)]
pub struct PhotonDraw {
    /// Phase within the rotation, in units of `PHASE_SCALE`.
    pub phase: u64,
    /// Instant of the exposure that picks the rotation, in ticks.
    pub window: u64,
}

/// Arrival tick of a photon: the start of the rotation that holds `window`,
/// plus `phase` of one period.
pub open spec fn arrival(phase: int, window: int, period: int) -> int {
    (window / period) * period + (phase * period) / (PHASE_SCALE as int)
}

/// The arrival ticks of the photons that land before `duration`, in the
/// order in which they were drawn.
pub open spec fn accepted_arrivals(draws: Seq<PhotonDraw>, period: int, duration: int) -> Seq<u64>
    decreases draws.len(),
{
    if draws.len() == 0 {
        Seq::empty()
    } else {
        let rest = accepted_arrivals(draws.drop_last(), period, duration);
        let d = draws.last();
        let t = arrival(d.phase as int, d.window as int, period);
        if t < duration {
            rest.push(t as u64)
        } else {
            rest
        }
    }
}

/// No element exceeds one that comes after it.
pub open spec fn ascending(s: Seq<u64>) -> bool {
    forall|i: int, j: int| 0 <= i < j < s.len() ==> s[i] <= s[j]
}

/// Arrival tick of one photon, computed without overflow.
pub fn arrival_tick(phase: u64, window: u64, period: u64) -> (r: u128)
    requires
        period > 0,
    ensures
        r as int == arrival(phase as int, window as int, period as int),
{
    let cycles: u64 = window / period;
    proof {
        assert(cycles * period <= window) by (nonlinear_arith)
            requires
                cycles == window / period,
                period > 0,
        ;
        assert((phase as int) * (period as int) < 0x1_0000_0000_0000_0000_0000_0000_0000_0000)
            by (nonlinear_arith)
            requires
                phase < 0x1_0000_0000_0000_0000,
                period < 0x1_0000_0000_0000_0000,
        ;
    }
    let start: u128 = (cycles as u128) * (period as u128);
    let product: u128 = (phase as u128) * (period as u128);
    let offset: u128 = product / (PHASE_SCALE as u128);
    proof {
        assert(offset <= 0x1_0000_0000_0000_0000_0000_0000_0000) by (nonlinear_arith)
            requires
                offset == product / 1_000_000,
                product < 0x1_0000_0000_0000_0000_0000_0000_0000_0000,
        ;
    }
    start + offset
}

/// Relies on `slice::sort_unstable`: afterwards the elements are in ascending
/// order and are the same elements as before.
#[verifier::external_body]
fn sort_ascending(v: &mut Vec<u64>)
    ensures
        ascending(final(v)@),
        final(v)@.to_multiset() == old(v)@.to_multiset(),
{
    v.sort_unstable()
}

/// Places each drawn photon in time, keeps those that arrive before the end
/// of the exposure, and returns their arrival ticks in ascending order.
pub fn assemble_arrivals(draws: &Vec<PhotonDraw>, period: u64, duration: u64) -> (r: Vec<u64>)
    requires
        period > 0,
    ensures
        ascending(r@),
        r@.to_multiset() == accepted_arrivals(draws@, period as int, duration as int).to_multiset(),
        forall|i: int| 0 <= i < r@.len() ==> r@[i] < duration,
        r@.len() <= draws@.len(),
{
    let mut out: Vec<u64> = Vec::new();
    let mut i: usize = 0;
    while i < draws.len()
        invariant
            period > 0,
            i <= draws@.len(),
            out@ == accepted_arrivals(draws@.subrange(0, i as int), period as int, duration as int),
            forall|j: int| 0 <= j < out@.len() ==> out@[j] < duration,
            out@.len() <= i,
        decreases draws@.len() - i,
    {
        let d = draws[i];
        let t = arrival_tick(d.phase, d.window, period);
        proof {
            let pre = draws@.subrange(0, i as int + 1);
            assert(pre.drop_last() =~= draws@.subrange(0, i as int));
            assert(pre.last() == d);
        }
        if t < duration as u128 {
            out.push(t as u64);
        }
        i = i + 1;
    }
    assert(draws@.subrange(0, draws@.len() as int) =~= draws@);
    let ghost unsorted = out@;
    sort_ascending(&mut out);
    proof {
        broadcast use vstd::seq_lib::group_to_multiset_ensures;
        assert forall|j: int| 0 <= j < out@.len() implies out@[j] < duration by {
            assert(out@.to_multiset().count(out@[j]) > 0);
            assert(unsorted.contains(out@[j]));
        }
        assert(out@.len() == out@.to_multiset().len());
        assert(unsorted.len() == unsorted.to_multiset().len());
    }
    out
}

#[verifier::external_type_specification]
#[verifier::external_body]
pub struct ExStdRng(StdRng);

/// Relies on rand's `Rng::gen_range`: the value is drawn from `0..bound`; an
/// empty range panics, so `bound` is positive.
#[verifier::external_body]
fn uniform_below(rng: &mut StdRng, bound: u64) -> (r: u64)
    requires
        bound > 0,
    ensures
        r < bound,
{
    rng.gen_range(0..bound)
}

/// Relies on rand's `Rng::gen_ratio`: true with chance `numerator / denominator`,
/// never true for a zero numerator and always true when the two are equal; it
/// panics for a zero denominator or a numerator above the denominator.
#[verifier::external_body]
fn chance_ratio(rng: &mut StdRng, numerator: u32, denominator: u32) -> (r: bool)
    requires
        0 < denominator,
        numerator <= denominator,
    ensures
        numerator == 0 ==> !r,
        numerator == denominator ==> r,
{
    rng.gen_ratio(numerator, denominator)
}

/// Simulates the photons detected over an exposure of `duration` ticks from a
/// pulsar of rotation `period`. One photon is drawn per entry of
/// `pulsed_phases`, which holds the phase that photon would have if it came
/// from the pulse. Each photon is pulsed with probability
/// `SIGNAL_NUMERATOR / SIGNAL_DENOMINATOR`, else a background photon of uniform
/// phase; its rotation is chosen by a uniform instant of the exposure. The
/// result is what `assemble_arrivals` makes of those draws.
pub fn simulate_photons(rng: &mut StdRng, pulsed_phases: &Vec<u64>, period: u64, duration: u64) -> (r: Vec<u64>)
    requires
        period > 0,
        forall|k: int| 0 <= k < pulsed_phases@.len() ==> pulsed_phases@[k] < PHASE_SCALE,
    ensures
        ascending(r@),
        forall|i: int| 0 <= i < r@.len() ==> r@[i] < duration,
        r@.len() <= pulsed_phases@.len(),
        duration == 0 ==> r@.len() == 0,
        duration > 0 ==> exists|draws: Seq<PhotonDraw>|
            {
                &&& draws.len() == pulsed_phases@.len()
                &&& forall|k: int|
                    0 <= k < draws.len() ==> (#[trigger] draws[k]).phase < PHASE_SCALE
                        && draws[k].window < duration
                &&& r@.to_multiset() == accepted_arrivals(
                    draws,
                    period as int,
                    duration as int,
                ).to_multiset()
            },
{
    if duration == 0 {
        let empty: Vec<u64> = Vec::new();
        return empty;
    }
    let mut draws: Vec<PhotonDraw> = Vec::new();
    let mut i: usize = 0;
    while i < pulsed_phases.len()
        invariant
            duration > 0,
            i <= pulsed_phases@.len(),
            draws@.len() == i,
            forall|k: int| 0 <= k < pulsed_phases@.len() ==> pulsed_phases@[k] < PHASE_SCALE,
            forall|k: int|
                0 <= k < draws@.len() ==> (#[trigger] draws@[k]).phase < PHASE_SCALE
                    && draws@[k].window < duration,
        decreases pulsed_phases@.len() - i,
    {
        let pulsed = chance_ratio(rng, SIGNAL_NUMERATOR, SIGNAL_DENOMINATOR);
        let phase: u64 = if pulsed {
            pulsed_phases[i]
        } else {
            uniform_below(rng, PHASE_SCALE)
        };
        let window = uniform_below(rng, duration);
        draws.push(PhotonDraw { phase, window });
        i = i + 1;
    }
    let r = assemble_arrivals(&draws, period, duration);
    r
}

} // verus!
