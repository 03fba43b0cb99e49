//! What holds of every run of the entity state machine.
//!
//! A run is the state machine of [`step`] applied to a sequence of tick
//! inputs, one after the other. The laws below are proved for every entity
//! and every such sequence.

use vstd::prelude::*;

use crate::audio_engine::engine::model::{
    backend_ops, envelope, fresh_entity, step, AudioEntityState, BackendOp, EntityView, TickInput,
};
use crate::level::Level;
use crate::theme::SoundView;

verus! {

/// The entity after the ticks of `inputs`, in order.
pub open spec fn run(e: EntityView, inputs: Seq<TickInput>) -> EntityView
    decreases inputs.len(),
{
    if inputs.len() == 0 {
        e
    } else {
        step(run(e, inputs.drop_last()), inputs.last())
    }
}

/// Everything the backend is told during the ticks of `inputs`, in order.
pub open spec fn run_ops(e: EntityView, inputs: Seq<TickInput>) -> Seq<BackendOp>
    decreases inputs.len(),
{
    if inputs.len() == 0 {
        Seq::empty()
    } else {
        run_ops(e, inputs.drop_last()) + backend_ops(run(e, inputs.drop_last()), inputs.last())
    }
}

/// The number of ticks of `inputs` that find the entity in `state`.
pub open spec fn ticks_in(e: EntityView, inputs: Seq<TickInput>, state: AudioEntityState) -> nat
    decreases inputs.len(),
{
    if inputs.len() == 0 {
        0
    } else {
        let before = ticks_in(e, inputs.drop_last(), state);
        if run(e, inputs.drop_last()).parameters.state == state {
            before + 1
        } else {
            before
        }
    }
}

/// A run leaves the sound of the entity as it is.
pub proof fn lemma_run_keeps_sound(e: EntityView, inputs: Seq<TickInput>)
    ensures
        run(e, inputs).sound == e.sound,
    decreases inputs.len(),
{
    if inputs.len() > 0 {
        lemma_run_keeps_sound(e, inputs.drop_last());
    }
}

/// The states of one loop iteration after its preparation: the entity waits,
/// starts, plays and decides whether to repeat.
pub open spec fn in_run(state: AudioEntityState) -> bool {
    state == AudioEntityState::WaitingForStart || state == AudioEntityState::Starting || state
        == AudioEntityState::Playing || state == AudioEntityState::Repeat
}

/// The states of a schedule that is under way: those of [`in_run`], and
/// the states between two runs.
pub open spec fn in_schedule(state: AudioEntityState) -> bool {
    in_run(state) || state == AudioEntityState::WaitingForTrigger || state
        == AudioEntityState::PrepareRun || state == AudioEntityState::Loop
}

/// After each of the ticks of `inputs` the entity is in a state of
/// [`in_run`].
pub open spec fn stays_in_run(e: EntityView, inputs: Seq<TickInput>) -> bool
    decreases inputs.len(),
{
    inputs.len() == 0 || (stays_in_run(e, inputs.drop_last()) && in_run(
        run(e, inputs).parameters.state,
    ))
}

/// After each of the ticks of `inputs` the entity is in a state of
/// [`in_schedule`].
pub open spec fn stays_in_schedule(e: EntityView, inputs: Seq<TickInput>) -> bool
    decreases inputs.len(),
{
    inputs.len() == 0 || (stays_in_schedule(e, inputs.drop_last()) && in_schedule(
        run(e, inputs).parameters.state,
    ))
}

/// The plays that a run still owes when the entity is in `state` with
/// `repeats` repeats left.
pub open spec fn plays_owed(state: AudioEntityState, repeats: u32) -> int {
    if state == AudioEntityState::WaitingForStart || state == AudioEntityState::Starting {
        1 + repeats
    } else if state == AudioEntityState::Playing || state == AudioEntityState::Repeat {
        repeats as int
    } else {
        0
    }
}

proof fn lemma_plays(e: EntityView, inputs: Seq<TickInput>)
    requires
        in_run(e.parameters.state),
        stays_in_run(e, inputs),
    ensures
        ticks_in(e, inputs, AudioEntityState::Starting) + plays_owed(
            run(e, inputs).parameters.state,
            run(e, inputs).parameters.repeats,
        ) == plays_owed(e.parameters.state, e.parameters.repeats),
        in_run(run(e, inputs).parameters.state),
    decreases inputs.len(),
{
    if inputs.len() > 0 {
        lemma_plays(e, inputs.drop_last());
    }
}

/// From any state of a run with `r` repeats left, a run that is left
/// through `Repeat` has started exactly as many plays as were owed: `1 + r`
/// if the play at hand had not started, `r` if it had.
///
/// `inputs` holds the ticks of the run; after all but the last the entity is
/// still within the run, the last takes it to `Loop` or, for a preview,
/// back to `Virgin`.
pub proof fn law_plays_per_run(e: EntityView, inputs: Seq<TickInput>)
    requires
        in_run(e.parameters.state),
        inputs.len() > 0,
        stays_in_run(e, inputs.drop_last()),
        run(e, inputs).parameters.state == AudioEntityState::Loop || run(
            e,
            inputs,
        ).parameters.state == AudioEntityState::Virgin,
    ensures
        ticks_in(e, inputs, AudioEntityState::Starting) == plays_owed(
            e.parameters.state,
            e.parameters.repeats,
        ),
{
    lemma_plays(e, inputs.drop_last());
}

/// A loop iteration that draws `r` repeats when it is prepared starts
/// exactly `1 + r` plays.
///
/// `inputs` holds the ticks of the iteration. The first finds the entity in
/// `PrepareRun` and carries the number of repeats that was drawn; after
/// each but the last the entity is within the run; the last takes it to
/// `Loop` or, for a preview, back to `Virgin`.
pub proof fn law_repeat_accounting(e: EntityView, inputs: Seq<TickInput>)
    requires
        e.parameters.state == AudioEntityState::PrepareRun,
        inputs.len() > 1,
        stays_in_run(step(e, inputs[0]), inputs.subrange(1, inputs.len() - 1)),
        run(e, inputs).parameters.state == AudioEntityState::Loop || run(
            e,
            inputs,
        ).parameters.state == AudioEntityState::Virgin,
    ensures
        ticks_in(e, inputs, AudioEntityState::Starting) == 1 + inputs[0].count,
{
    let first = step(e, inputs[0]);
    let rest = inputs.subrange(1, inputs.len() as int);
    assert(rest.drop_last() =~= inputs.subrange(1, inputs.len() - 1));
    lemma_run_split(e, inputs);
    lemma_ticks_split(e, inputs, AudioEntityState::Starting);
    law_plays_per_run(first, rest);
}

/// A run is its first tick followed by the run of the others.
pub proof fn lemma_run_split(e: EntityView, inputs: Seq<TickInput>)
    requires
        inputs.len() > 0,
    ensures
        run(e, inputs) == run(step(e, inputs[0]), inputs.subrange(1, inputs.len() as int)),
    decreases inputs.len(),
{
    let rest = inputs.subrange(1, inputs.len() as int);
    if inputs.len() == 1 {
        assert(run(e, inputs.drop_last()) == e);
        assert(run(step(e, inputs[0]), rest) == step(e, inputs[0]));
    } else {
        lemma_run_split(e, inputs.drop_last());
        assert(inputs.drop_last().subrange(1, inputs.len() - 1) =~= rest.drop_last());
        assert(inputs.drop_last()[0] == inputs[0]);
        assert(rest.last() == inputs.last());
    }
}

/// The ticks that a run spends in a state are those of its first tick and
/// those of the run of the others.
pub proof fn lemma_ticks_split(e: EntityView, inputs: Seq<TickInput>, state: AudioEntityState)
    requires
        inputs.len() > 0,
    ensures
        ticks_in(e, inputs, state) == ticks_in(
            step(e, inputs[0]),
            inputs.subrange(1, inputs.len() as int),
            state,
        ) + if e.parameters.state == state {
            1nat
        } else {
            0nat
        },
    decreases inputs.len(),
{
    let rest = inputs.subrange(1, inputs.len() as int);
    if inputs.len() == 1 {
        assert(run(e, inputs.drop_last()) == e);
        assert(ticks_in(e, inputs.drop_last(), state) == 0);
        assert(ticks_in(step(e, inputs[0]), rest, state) == 0);
    } else {
        lemma_ticks_split(e, inputs.drop_last(), state);
        lemma_run_split(e, inputs.drop_last());
        assert(inputs.drop_last().subrange(1, inputs.len() - 1) =~= rest.drop_last());
        assert(inputs.drop_last()[0] == inputs[0]);
    }
}

/// The passes through `Loop` that a schedule still owes.
pub open spec fn loops_owed(state: AudioEntityState, loops: u32) -> int {
    if in_schedule(state) {
        1 + loops
    } else {
        0
    }
}

proof fn lemma_loops(e: EntityView, inputs: Seq<TickInput>)
    requires
        !e.sound.loop_forever,
        in_schedule(e.parameters.state),
        stays_in_schedule(e, inputs),
    ensures
        ticks_in(e, inputs, AudioEntityState::Loop) + loops_owed(
            run(e, inputs).parameters.state,
            run(e, inputs).parameters.loops,
        ) == 1 + e.parameters.loops,
        in_schedule(run(e, inputs).parameters.state),
    decreases inputs.len(),
{
    if inputs.len() > 0 {
        lemma_loops(e, inputs.drop_last());
        lemma_run_keeps_sound(e, inputs.drop_last());
    }
}

/// A sound that does not loop forever and draws `l` loops passes through
/// `Loop` exactly `1 + l` times before it is finished.
///
/// `inputs` holds the ticks of the whole schedule. The first finds the
/// entity in `Virgin` and carries the number of loops that was drawn; after
/// each but the last the schedule is under way; the last takes the entity to
/// `Finished`.
pub proof fn law_loop_accounting(e: EntityView, inputs: Seq<TickInput>)
    requires
        !e.sound.loop_forever,
        e.parameters.state == AudioEntityState::Virgin,
        inputs.len() > 1,
        stays_in_schedule(step(e, inputs[0]), inputs.subrange(1, inputs.len() - 1)),
        run(e, inputs).parameters.state == AudioEntityState::Finished,
    ensures
        ticks_in(e, inputs, AudioEntityState::Loop) == 1 + inputs[0].count,
{
    let first = step(e, inputs[0]);
    let rest = inputs.subrange(1, inputs.len() as int);
    assert(rest.drop_last() =~= inputs.subrange(1, inputs.len() - 1));
    lemma_run_split(e, inputs);
    lemma_ticks_split(e, inputs, AudioEntityState::Loop);
    lemma_loops(first, rest.drop_last());
    lemma_run_keeps_sound(first, rest.drop_last());
}

/// A sound that loops forever is never finished, and so never dead.
pub proof fn law_loop_forever(e: EntityView, inputs: Seq<TickInput>)
    requires
        e.sound.loop_forever,
        e.parameters.state != AudioEntityState::Finished,
        e.parameters.state != AudioEntityState::Dead,
    ensures
        run(e, inputs).parameters.state != AudioEntityState::Finished,
        run(e, inputs).parameters.state != AudioEntityState::Dead,
    decreases inputs.len(),
{
    if inputs.len() > 0 {
        law_loop_forever(e, inputs.drop_last());
        lemma_run_keeps_sound(e, inputs.drop_last());
    }
}

/// What two entities of sounds without a trigger share when their schedules
/// are at the same point. Such an entity never waits for a trigger.
pub open spec fn same_schedule(a: EntityView, b: EntityView) -> bool {
    &&& a.sound.trigger is None
    &&& b.sound.trigger is None
    &&& a.sound.loop_forever == b.sound.loop_forever
    &&& a.is_preview == b.is_preview
    &&& a.parameters.state == b.parameters.state
    &&& a.parameters.state != AudioEntityState::WaitingForTrigger
    &&& a.parameters.next_play == b.parameters.next_play
    &&& a.parameters.repeats == b.parameters.repeats
    &&& a.parameters.loops == b.parameters.loops
}

/// What two sequences of ticks share when the same time passes, the same
/// delays and counts are drawn and the backend gives the same account of
/// what is playing.
pub open spec fn same_timeline(xs: Seq<TickInput>, ys: Seq<TickInput>) -> bool {
    &&& xs.len() == ys.len()
    &&& forall|i: int|
        0 <= i < xs.len() ==> {
            &&& (#[trigger] xs[i]).delta == ys[i].delta
            &&& xs[i].delay == ys[i].delay
            &&& xs[i].count == ys[i].count
            &&& xs[i].is_playing == ys[i].is_playing
        }
}

/// For a sound without a trigger, the states that the entity visits depend
/// on nothing but the delays and counts that are drawn, on whether the sound
/// loops forever, on the time that passes and on what the backend reports
/// as playing. Volumes, pitches, filters, positions and pending triggers
/// have no part in it.
pub proof fn law_state_determinism(
    a: EntityView,
    b: EntityView,
    xs: Seq<TickInput>,
    ys: Seq<TickInput>,
)
    requires
        same_schedule(a, b),
        same_timeline(xs, ys),
    ensures
        same_schedule(run(a, xs), run(b, ys)),
    decreases xs.len(),
{
    if xs.len() > 0 {
        assert(same_timeline(xs.drop_last(), ys.drop_last()));
        law_state_determinism(a, b, xs.drop_last(), ys.drop_last());
        lemma_run_keeps_sound(a, xs.drop_last());
        lemma_run_keeps_sound(b, ys.drop_last());
        assert(xs[xs.len() - 1].delta == ys[xs.len() - 1].delta);
    }
}

/// When a triggered sound is triggered again while the entity is in
/// `Playing`, the tick that finds the sample no longer sounding stops the
/// sample on the backend, clears the trigger and resets the entity; the
/// tick after that stops the sample once more, which releases whatever the
/// entity may still hold; the third leaves the entity waiting for its
/// trigger.
pub proof fn law_trigger_cancel(e: EntityView, first: TickInput, second: TickInput, third: TickInput)
    requires
        e.parameters.state == AudioEntityState::Playing,
        e.sound.triggered(),
        e.is_triggered,
        !e.is_preview,
        !first.is_playing,
    ensures
        backend_ops(e, first) == seq![
            BackendOp::SetVolume(
                envelope(
                    e.sound.fade_in_enabled,
                    e.parameters.fade_in,
                    e.parameters.max_volume,
                    first.position,
                ),
            ),
            BackendOp::Stop,
        ],
        step(e, first).parameters.state == AudioEntityState::Reset,
        !step(e, first).is_triggered,
        backend_ops(step(e, first), second) == seq![BackendOp::Stop],
        step(step(e, first), second).parameters.state == AudioEntityState::Virgin,
        step(step(step(e, first), second), third).parameters.state
            == AudioEntityState::WaitingForTrigger,
        !step(step(step(e, first), second), third).is_triggered,
{
}

/// The entity runs as a preview that no trigger interferes with.
pub open spec fn previewing(e: EntityView) -> bool {
    let state = e.parameters.state;
    &&& e.is_preview
    &&& !e.is_triggered
    &&& (in_run(state) || state == AudioEntityState::Preview || state == AudioEntityState::Reset
        || state == AudioEntityState::Virgin || state == AudioEntityState::PrepareRun)
}

/// The entity of a triggered sound is idle until its trigger comes.
pub open spec fn awaiting_trigger(e: EntityView) -> bool {
    let state = e.parameters.state;
    &&& e.sound.triggered()
    &&& !e.is_preview
    &&& !e.is_triggered
    &&& (state == AudioEntityState::Virgin || state == AudioEntityState::WaitingForTrigger)
}

/// The runs that a preview which is under way has prepared.
pub open spec fn preview_runs(state: AudioEntityState) -> nat {
    if in_run(state) {
        1
    } else {
        0
    }
}

/// A preview of a triggered sound prepares one run and no more. As long as
/// no trigger arrives, the entity is either still within that preview or,
/// the run being over, back to waiting for its trigger with the preview
/// flag cleared.
pub proof fn law_preview_is_ephemeral(e: EntityView, inputs: Seq<TickInput>)
    requires
        e.sound.triggered(),
        e.parameters.state == AudioEntityState::Preview,
        e.is_preview,
        !e.is_triggered,
    ensures
        previewing(run(e, inputs)) || awaiting_trigger(run(e, inputs)),
        previewing(run(e, inputs)) ==> ticks_in(e, inputs, AudioEntityState::PrepareRun)
            == preview_runs(run(e, inputs).parameters.state),
        awaiting_trigger(run(e, inputs)) ==> ticks_in(e, inputs, AudioEntityState::PrepareRun) == 1,
    decreases inputs.len(),
{
    if inputs.len() > 0 {
        law_preview_is_ephemeral(e, inputs.drop_last());
        lemma_run_keeps_sound(e, inputs.drop_last());
    }
}

/// Once a preview is over, the entity of a triggered sound tells the
/// backend nothing until it is triggered or previewed again.
pub proof fn law_silent_until_triggered(e: EntityView, inputs: Seq<TickInput>)
    requires
        awaiting_trigger(e),
    ensures
        awaiting_trigger(run(e, inputs)),
        run_ops(e, inputs) == Seq::<BackendOp>::empty(),
    decreases inputs.len(),
{
    if inputs.len() > 0 {
        law_silent_until_triggered(e, inputs.drop_last());
        assert(run_ops(e, inputs) =~= Seq::<BackendOp>::empty());
    }
}

/// During a fade-in the volume never falls and never exceeds the volume of
/// the play: it starts at nothing and is at the full volume from the end of
/// the fade on.
pub proof fn law_envelope_rises(fade_in: Level, max_volume: Level, earlier: Level, later: Level)
    requires
        earlier <= later,
    ensures
        envelope(true, fade_in, max_volume, earlier) <= envelope(
            true,
            fade_in,
            max_volume,
            later,
        ) <= max_volume,
        fade_in > 0 ==> envelope(true, fade_in, max_volume, 0) == 0,
        later >= fade_in ==> envelope(true, fade_in, max_volume, later) == max_volume,
{
    let m = max_volume as int;
    let f = fade_in as int;
    let a = earlier as int;
    let b = later as int;
    if b < f {
        assert(0 <= m * a <= m * b <= m * f) by (nonlinear_arith)
            requires
                0 <= m,
                0 <= a <= b < f,
        ;
        assert((m * a) / f <= (m * b) / f <= m) by (nonlinear_arith)
            requires
                0 <= m * a <= m * b <= m * f,
                0 < f,
        ;
    } else if a < f {
        assert(0 <= m * a <= m * f) by (nonlinear_arith)
            requires
                0 <= m,
                0 <= a < f,
        ;
        assert((m * a) / f <= m) by (nonlinear_arith)
            requires
                0 <= m * a <= m * f,
                0 < f,
        ;
    }
    if f > 0 {
        assert(m * 0 == 0);
        assert(0int / f == 0);
    }
}

/// The states in which an entity that was never started can be.
pub open spec fn not_started(state: AudioEntityState) -> bool {
    state == AudioEntityState::Virgin || state == AudioEntityState::WaitingForTrigger || state
        == AudioEntityState::PrepareRun || state == AudioEntityState::WaitingForStart || state
        == AudioEntityState::Starting
}

proof fn lemma_first_op(e: EntityView, inputs: Seq<TickInput>)
    requires
        not_started(e.parameters.state),
    ensures
        run_ops(e, inputs).len() == 0 ==> not_started(run(e, inputs).parameters.state),
        run_ops(e, inputs).len() > 0 ==> run_ops(e, inputs)[0] == BackendOp::Play,
    decreases inputs.len(),
{
    if inputs.len() > 0 {
        lemma_first_op(e, inputs.drop_last());
    }
}

/// The first thing that the backend is told on behalf of a new entity is
/// to play it: between the moment a theme is installed and the first play
/// of one of its sounds, the sound issues no instruction.
pub proof fn law_first_op_is_play(sound: SoundView, inputs: Seq<TickInput>)
    ensures
        run_ops(fresh_entity(sound), inputs).len() > 0 ==> run_ops(fresh_entity(sound), inputs)[0]
            == BackendOp::Play,
{
    lemma_first_op(fresh_entity(sound), inputs);
}

} // verus!
