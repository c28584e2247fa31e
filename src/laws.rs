use vstd::prelude::*;
use crate::moisture_reader::MoistureReader;
use crate::plant::{level_after, stop_water_post, water_post, Plant};
use crate::policy::{
    next_state, run_commands, run_state, step_commands, PumpCommand, PumpState, Threshold,
};
use crate::waterer::Waterer;

verus! {

/// Deciding on one more sample extends the run by exactly that sample's
/// step: this is what each successful tick does to the issued commands.
pub proof fn lemma_run_push(s: PumpState, samples: Seq<u16>, x: u16, t: Threshold)
    ensures
        run_state(s, samples.push(x), t) == next_state(run_state(s, samples, t), x, t),
        run_commands(s, samples.push(x), t) == run_commands(s, samples, t) + step_commands(
            run_state(s, samples, t),
            x,
            t,
        ),
{
    assert(samples.push(x).drop_last() =~= samples);
}

/// A run splits at any point: the commands of the whole are those of the
/// first part followed by those of the rest, started from where the first
/// part left the pump.
pub proof fn lemma_run_split(s: PumpState, samples: Seq<u16>, k: int, t: Threshold)
    requires
        0 <= k <= samples.len(),
    ensures
        run_state(s, samples, t) == run_state(run_state(s, samples.take(k), t), samples.skip(k), t),
        run_commands(s, samples, t) == run_commands(s, samples.take(k), t) + run_commands(
            run_state(s, samples.take(k), t),
            samples.skip(k),
            t,
        ),
    decreases samples.len(),
{
    if k == samples.len() {
        assert(samples.take(k) =~= samples);
        assert(samples.skip(k) =~= Seq::<u16>::empty());
        assert(run_commands(s, samples, t) + Seq::<PumpCommand>::empty() =~= run_commands(
            s,
            samples,
            t,
        ));
    } else {
        let p = samples.drop_last();
        lemma_run_split(s, p, k, t);
        assert(p.take(k) =~= samples.take(k));
        assert(samples.skip(k).drop_last() =~= p.skip(k));
        assert(samples.skip(k).last() == samples.last());
        let mid = run_state(s, samples.take(k), t);
        assert(run_commands(s, samples, t) =~= run_commands(s, samples.take(k), t) + (
        run_commands(mid, p.skip(k), t) + step_commands(run_state(mid, p.skip(k), t), samples.last(), t)));
    }
}

/// No flapping: samples strictly between the wet and dry bounds never
/// command the pump and never change its state, whatever state it is in.
pub proof fn lemma_no_flap(s: PumpState, samples: Seq<u16>, t: Threshold)
    requires
        t.wf(),
        forall|i: int|
            0 <= i < samples.len() ==> t.wet_threshold < #[trigger] samples[i] < t.dry_threshold,
    ensures
        run_commands(s, samples, t) == Seq::<PumpCommand>::empty(),
        run_state(s, samples, t) == s,
    decreases samples.len(),
{
    if samples.len() > 0 {
        let p = samples.drop_last();
        assert forall|i: int| 0 <= i < p.len() implies t.wet_threshold < #[trigger] p[i]
            < t.dry_threshold by {
            assert(p[i] == samples[i]);
        }
        lemma_no_flap(s, p, t);
        assert(samples.last() == samples[samples.len() - 1]);
        assert(run_commands(s, samples, t) =~= Seq::<PumpCommand>::empty());
    }
}

/// Dry triggers on: from off, a first sample at or above the dry bound makes
/// the first command a start, whatever follows.
pub proof fn lemma_dry_triggers_on(samples: Seq<u16>, t: Threshold)
    requires
        t.wf(),
        samples.len() > 0,
        samples[0] >= t.dry_threshold,
    ensures
        run_commands(PumpState::Off, samples, t).len() > 0,
        run_commands(PumpState::Off, samples, t)[0] == PumpCommand::Start,
{
    lemma_run_split(PumpState::Off, samples, 1, t);
    let first = samples.take(1);
    assert(first.drop_last() =~= Seq::<u16>::empty());
    assert(first.last() == samples[0]);
    assert(run_state(PumpState::Off, Seq::<u16>::empty(), t) == PumpState::Off);
    assert(run_commands(PumpState::Off, Seq::<u16>::empty(), t) =~= Seq::<PumpCommand>::empty());
    assert(run_commands(PumpState::Off, first, t) =~= seq![PumpCommand::Start]);
}

/// Wet triggers off: from on, a first sample at or below the wet bound
/// issues exactly one stop, and samples between the bounds after it issue none.
pub proof fn lemma_wet_triggers_off(samples: Seq<u16>, t: Threshold)
    requires
        t.wf(),
        samples.len() > 0,
        samples[0] <= t.wet_threshold,
        forall|i: int|
            1 <= i < samples.len() ==> t.wet_threshold < #[trigger] samples[i] < t.dry_threshold,
    ensures
        run_commands(PumpState::On, samples, t) == seq![PumpCommand::Stop],
        run_state(PumpState::On, samples, t) == PumpState::Off,
{
    lemma_run_split(PumpState::On, samples, 1, t);
    let first = samples.take(1);
    let rest = samples.skip(1);
    assert(first.drop_last() =~= Seq::<u16>::empty());
    assert(first.last() == samples[0]);
    assert(run_state(PumpState::On, Seq::<u16>::empty(), t) == PumpState::On);
    assert(run_commands(PumpState::On, Seq::<u16>::empty(), t) =~= Seq::<PumpCommand>::empty());
    assert(run_commands(PumpState::On, first, t) =~= seq![PumpCommand::Stop]);
    assert forall|i: int| 0 <= i < rest.len() implies t.wet_threshold < #[trigger] rest[i]
        < t.dry_threshold by {
        assert(rest[i] == samples[i + 1]);
    }
    lemma_no_flap(PumpState::Off, rest, t);
    assert(seq![PumpCommand::Stop] + Seq::<PumpCommand>::empty() =~= seq![PumpCommand::Stop]);
}

/// Watering twice leaves the controller in the same observable state as
/// watering once: the same recorded state, pump level, bounds and sample.
pub proof fn lemma_water_idempotent<R: MoistureReader, W: Waterer>(
    p0: Plant<R, W>,
    p1: Plant<R, W>,
    p2: Plant<R, W>,
)
    requires
        water_post(p0, p1),
        water_post(p1, p2),
    ensures
        p2.state_spec() == p1.state_spec(),
        level_after(p2.issued()) == level_after(p1.issued()),
        p2.threshold_spec() == p1.threshold_spec(),
        p2.last_sample_spec() == p1.last_sample_spec(),
{
}

/// Stopping twice leaves the controller in the same observable state as
/// stopping once: the same recorded state, pump level, bounds and sample.
pub proof fn lemma_stop_water_idempotent<R: MoistureReader, W: Waterer>(
    p0: Plant<R, W>,
    p1: Plant<R, W>,
    p2: Plant<R, W>,
)
    requires
        stop_water_post(p0, p1),
        stop_water_post(p1, p2),
    ensures
        p2.state_spec() == p1.state_spec(),
        level_after(p2.issued()) == level_after(p1.issued()),
        p2.threshold_spec() == p1.threshold_spec(),
        p2.last_sample_spec() == p1.last_sample_spec(),
{
}

} // verus!
