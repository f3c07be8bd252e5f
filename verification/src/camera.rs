use vstd::prelude::*;

verus! {

/// Which movement keys are held during a frame.
#[derive(Debug, Clone, Copy, PartialEq, Eq, Structural)]
pub struct InputState {
    pub forward: bool,
    pub backward: bool,
    pub left: bool,
    pub right: bool,
    pub up: bool,
    pub down: bool,
}

/// One displacement of the camera by `speed` along one of its directions.
#[derive(Debug, Clone, Copy, PartialEq, Eq, Structural)]
pub enum MoveStep {
    /// Along the view direction.
    Forward,
    /// Against the view direction.
    Backward,
    /// Against the right-hand direction.
    Left,
    /// Along the right-hand direction.
    Right,
    /// Along the world's up axis.
    Up,
    /// Against the world's up axis.
    Down,
}

/// `step` if `held`, nothing otherwise.
pub open spec fn step_if(held: bool, step: MoveStep) -> Seq<MoveStep> {
    if held {
        seq![step]
    } else {
        seq![]
    }
}

/// The steps of a frame: one per held key, in the fixed order forward,
/// backward, left, right, up, down. Opposite keys held together both move
/// the camera.
pub open spec fn held_steps(input: InputState) -> Seq<MoveStep> {
    step_if(input.forward, MoveStep::Forward) + step_if(input.backward, MoveStep::Backward)
        + step_if(input.left, MoveStep::Left) + step_if(input.right, MoveStep::Right)
        + step_if(input.up, MoveStep::Up) + step_if(input.down, MoveStep::Down)
}

/// Appending the step of one key: the result holds what the prefix holds,
/// and the key's step exactly when the key is held; a prefix without repeats
/// that lacks the step stays without repeats.
proof fn lemma_append_step(a: Seq<MoveStep>, held: bool, k: MoveStep)
    ensures
        forall|x: MoveStep|
            #![trigger (a + step_if(held, k)).contains(x)]
            (a + step_if(held, k)).contains(x) <==> (a.contains(x) || (held && x == k)),
        a.no_duplicates() && !a.contains(k) ==> (a + step_if(held, k)).no_duplicates(),
{
    let b = a + step_if(held, k);
    assert forall|x: MoveStep| b.contains(x) <==> (a.contains(x) || (held && x == k)) by {
        if b.contains(x) {
            let i = choose|i: int| 0 <= i < b.len() && b[i] == x;
            if i < a.len() {
                assert(a[i] == x);
            }
        }
        if a.contains(x) {
            let i = choose|i: int| 0 <= i < a.len() && a[i] == x;
            assert(b[i] == x);
        }
        if held && x == k {
            assert(b[a.len() as int] == x);
        }
    }
    if a.no_duplicates() && !a.contains(k) {
        assert forall|i: int, j: int| 0 <= i < b.len() && 0 <= j < b.len() && i != j implies b[i]
            != b[j] by {
            if i < a.len() && j >= a.len() {
                assert(a[i] == b[i]);
            }
            if j < a.len() && i >= a.len() {
                assert(a[j] == b[j]);
            }
        }
    }
}

/// Every held key moves the camera in its own direction, and only held keys
/// move it: the steps of a frame hold `Forward` exactly when forward is held,
/// `Backward` exactly when backward is held, and so on, each at most once.
pub proof fn lemma_held_steps_follow_keys(input: InputState)
    ensures
        held_steps(input).contains(MoveStep::Forward) <==> input.forward,
        held_steps(input).contains(MoveStep::Backward) <==> input.backward,
        held_steps(input).contains(MoveStep::Left) <==> input.left,
        held_steps(input).contains(MoveStep::Right) <==> input.right,
        held_steps(input).contains(MoveStep::Up) <==> input.up,
        held_steps(input).contains(MoveStep::Down) <==> input.down,
        held_steps(input).no_duplicates(),
{
    let e: Seq<MoveStep> = seq![];
    let h1 = e + step_if(input.forward, MoveStep::Forward);
    let h2 = h1 + step_if(input.backward, MoveStep::Backward);
    let h3 = h2 + step_if(input.left, MoveStep::Left);
    let h4 = h3 + step_if(input.right, MoveStep::Right);
    let h5 = h4 + step_if(input.up, MoveStep::Up);
    let h6 = h5 + step_if(input.down, MoveStep::Down);
    assert(e.no_duplicates());
    assert(!e.contains(MoveStep::Forward));
    lemma_append_step(e, input.forward, MoveStep::Forward);
    lemma_append_step(h1, input.backward, MoveStep::Backward);
    lemma_append_step(h2, input.left, MoveStep::Left);
    lemma_append_step(h3, input.right, MoveStep::Right);
    lemma_append_step(h4, input.up, MoveStep::Up);
    lemma_append_step(h5, input.down, MoveStep::Down);
    assert(h1 =~= step_if(input.forward, MoveStep::Forward));
    assert(h6 == held_steps(input));
    assert(h6.contains(MoveStep::Forward) <==> input.forward);
    assert(h6.contains(MoveStep::Backward) <==> input.backward);
    assert(h6.contains(MoveStep::Left) <==> input.left);
    assert(h6.contains(MoveStep::Right) <==> input.right);
    assert(h6.contains(MoveStep::Up) <==> input.up);
    assert(h6.contains(MoveStep::Down) <==> input.down);
}

impl InputState {
    /// The displacements to apply to the camera this frame, in order.
    pub fn movement_steps(&self) -> (steps: Vec<MoveStep>)
        ensures
            steps@ == held_steps(*self),
            steps@.contains(MoveStep::Forward) <==> self.forward,
            steps@.contains(MoveStep::Backward) <==> self.backward,
            steps@.contains(MoveStep::Left) <==> self.left,
            steps@.contains(MoveStep::Right) <==> self.right,
            steps@.contains(MoveStep::Up) <==> self.up,
            steps@.contains(MoveStep::Down) <==> self.down,
            steps@.no_duplicates(),
    {
        let mut steps: Vec<MoveStep> = Vec::new();
        if self.forward {
            steps.push(MoveStep::Forward);
        }
        if self.backward {
            steps.push(MoveStep::Backward);
        }
        if self.left {
            steps.push(MoveStep::Left);
        }
        if self.right {
            steps.push(MoveStep::Right);
        }
        if self.up {
            steps.push(MoveStep::Up);
        }
        if self.down {
            steps.push(MoveStep::Down);
        }
        proof {
            assert(steps@ =~= held_steps(*self));
            lemma_held_steps_follow_keys(*self);
        }
        steps
    }
}

/// The accumulation frame counter after a camera update: restarted when the
/// camera moved, unchanged otherwise.
pub open spec fn count_after_camera_update(moved: bool, count: int) -> int {
    if moved {
        0
    } else {
        count
    }
}

/// Restarts the accumulation of samples when the camera has moved, since the
/// pixels gathered so far show another view.
pub fn restart_if_moved(moved: bool, frame_count: &mut u32)
    ensures
        *final(frame_count) == count_after_camera_update(moved, *old(frame_count) as int),
{
    if moved {
        *frame_count = 0;
    }
}

/// The frame counter after the frames of `moves`, starting from zero: each
/// frame updates the camera, `moves[i]` telling whether it moved, then takes
/// its frame index, which counts the frame.
pub open spec fn frame_count_after(moves: Seq<bool>) -> int
    decreases moves.len(),
{
    if moves.len() == 0 {
        0
    } else {
        count_after_camera_update(moves.last(), frame_count_after(moves.drop_last())) + 1
    }
}

/// Frames since the camera last moved, the frame of the move included, or
/// since the start if it never moved.
pub open spec fn frames_since_move(moves: Seq<bool>) -> int
    decreases moves.len(),
{
    if moves.len() == 0 {
        0
    } else if moves.last() {
        1
    } else {
        frames_since_move(moves.drop_last()) + 1
    }
}

/// The frame index handed to the shader (the counter before the frame is
/// counted, one less than the counter after it) counts the frames since the
/// camera last moved: it is 0 on the frame of a move, and goes up by one on
/// every frame after it until the next move.
pub proof fn lemma_frame_index_counts_frames_since_move(moves: Seq<bool>)
    ensures
        frame_count_after(moves) == frames_since_move(moves),
        moves.len() > 0 && moves.last() ==> frame_count_after(moves) - 1 == 0,
    decreases moves.len(),
{
    if moves.len() > 0 {
        lemma_frame_index_counts_frames_since_move(moves.drop_last());
    }
}

} // verus!
