use vstd::prelude::*;

verus! {

/// Browsers only let a page start audio after a user gesture, so the web
/// audio backend creates its audio context on the first gesture. This
/// tells whether that has happened: `Unlocked` once the context exists.
#[derive(Clone, Copy, Debug, PartialEq, Eq, Structural)]
pub enum AudioGate {
    Locked,
    Unlocked,
}

/// What the backend does on a frame.
#[derive(Clone, Copy, Debug, PartialEq, Eq, Structural)]
pub enum GateAction {
    Nothing,
    /// Create the audio context (and resume it if that succeeds).
    Create,
    /// Resume the existing audio context.
    Resume,
}

pub open spec fn gate_action_spec(gate: AudioGate, any_input: bool) -> GateAction {
    if !any_input {
        GateAction::Nothing
    } else if gate == AudioGate::Locked {
        GateAction::Create
    } else {
        GateAction::Resume
    }
}

/// Without a gesture nothing happens; the first gesture creates the
/// context; later gestures only resume it.
pub fn gate_action(gate: AudioGate, any_input: bool) -> (a: GateAction)
    ensures
        a == gate_action_spec(gate, any_input),
{
    if !any_input {
        GateAction::Nothing
    } else if gate == AudioGate::Locked {
        GateAction::Create
    } else {
        GateAction::Resume
    }
}

/// After an attempt to create the context: audio unlocks and the context
/// is resumed only if creation succeeded; after a failure audio stays off.
pub fn gate_after_create(created: bool) -> (r: (AudioGate, bool))
    ensures
        r.0 == (if created {
            AudioGate::Unlocked
        } else {
            AudioGate::Locked
        }),
        r.1 == created,
{
    if created {
        (AudioGate::Unlocked, true)
    } else {
        (AudioGate::Locked, false)
    }
}

/// Sounds play only once the context exists.
pub fn may_play(gate: AudioGate) -> (p: bool)
    ensures
        p == (gate == AudioGate::Unlocked),
{
    gate == AudioGate::Unlocked
}

/// One frame: the lock state before, whether there was a gesture, and
/// whether creating the context would succeed, give the lock state after
/// and whether the context was created and whether it was resumed.
pub open spec fn frame_spec(gate: AudioGate, any_input: bool, created: bool) -> (
    AudioGate,
    bool,
    bool,
) {
    match gate_action_spec(gate, any_input) {
        GateAction::Nothing => (gate, false, false),
        GateAction::Create => (
            if created {
                AudioGate::Unlocked
            } else {
                AudioGate::Locked
            },
            true,
            created,
        ),
        GateAction::Resume => (gate, false, true),
    }
}

/// The lock state after a run of frames, each a gesture flag and a creation
/// outcome, starting locked.
pub open spec fn gate_after(frames: Seq<(bool, bool)>) -> AudioGate
    decreases frames.len(),
{
    if frames.len() == 0 {
        AudioGate::Locked
    } else {
        frame_spec(gate_after(frames.drop_last()), frames.last().0, frames.last().1).0
    }
}

proof fn lemma_gate_stays_open(frames: Seq<(bool, bool)>, i: int, j: int)
    requires
        0 <= i <= j <= frames.len(),
        gate_after(frames.take(i)) == AudioGate::Unlocked,
    ensures
        gate_after(frames.take(j)) == AudioGate::Unlocked,
    decreases j - i,
{
    if i < j {
        lemma_gate_stays_open(frames, i, j - 1);
        assert(frames.take(j).drop_last() =~= frames.take(j - 1));
    }
}

proof fn lemma_locked_without_input(frames: Seq<(bool, bool)>, i: int)
    requires
        0 <= i <= frames.len(),
        forall|k: int| 0 <= k < i ==> !(#[trigger] frames[k]).0,
    ensures
        gate_after(frames.take(i)) == AudioGate::Locked,
    decreases i,
{
    if i > 0 {
        lemma_locked_without_input(frames, i - 1);
        assert(frames.take(i).drop_last() =~= frames.take(i - 1));
        assert(!frames[i - 1].0);
    }
}

/// Over any run of frames: nothing is created or resumed before the first
/// frame with a gesture; the context is created only while audio is locked,
/// so never again once it exists; once unlocked, audio stays unlocked;
/// and a context is resumed on the frame of its creation only if creation
/// succeeded.
pub proof fn lemma_unlock_run(frames: Seq<(bool, bool)>, i: int)
    requires
        0 <= i < frames.len(),
    ensures
        ({
            let g = gate_after(frames.take(i));
            let f = frame_spec(g, frames[i].0, frames[i].1);
            &&& (forall|k: int| 0 <= k <= i ==> !(#[trigger] frames[k]).0) ==> !f.1 && !f.2
            &&& f.1 ==> g == AudioGate::Locked
            &&& (g == AudioGate::Locked && f.2) ==> f.1 && frames[i].1
            &&& f.0 == gate_after(frames.take(i + 1))
            &&& forall|j: int|
                i < j <= frames.len() && g == AudioGate::Unlocked ==> gate_after(
                    #[trigger] frames.take(j),
                ) == AudioGate::Unlocked
        }),
{
    assert(frames.take(i + 1).drop_last() =~= frames.take(i));
    if forall|k: int| 0 <= k <= i ==> !(#[trigger] frames[k]).0 {
        lemma_locked_without_input(frames, i);
    }
    assert forall|j: int|
        i < j <= frames.len() && gate_after(frames.take(i)) == AudioGate::Unlocked implies gate_after(
        #[trigger] frames.take(j),
    ) == AudioGate::Unlocked by {
        lemma_gate_stays_open(frames, i, j);
    }
}

} // verus!
