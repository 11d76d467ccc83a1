use vstd::prelude::*;

verus! {

/// The keys the viewer reacts to.
#[derive(Clone, Copy, Debug, PartialEq, Eq, Structural)]
pub enum Key {
    Escape,
    W,
    A,
    S,
    D,
    Other,
}

/// What happened to a key.
#[derive(Clone, Copy, Debug, PartialEq, Eq, Structural)]
pub enum Action {
    Press,
    Release,
    Repeat,
}

/// A window event as far as the viewer reads it.
#[derive(Clone, Copy, Debug, PartialEq, Eq, Structural)]
pub enum WindowEvent {
    Key(Key, Action),
    Focus(bool),
    Other,
}

/// What the render loop keeps from window events: whether the window has
/// input focus, and whether the user asked to close it.
#[derive(Clone, Copy, Debug, PartialEq, Eq, Structural)]
pub struct LoopState {
    pub focused: bool,
    pub should_close: bool,
}

/// The loop state after one event: a focus event sets the focus, a press of
/// Escape asks to close, and every other event changes nothing.
pub open spec fn state_after(s: LoopState, event: WindowEvent) -> LoopState {
    match event {
        WindowEvent::Focus(f) => LoopState { focused: f, ..s },
        WindowEvent::Key(Key::Escape, Action::Press) => LoopState { should_close: true, ..s },
        _ => s,
    }
}

impl LoopState {
    /// The state of a freshly opened window: focused, not closing.
    pub fn new() -> (r: LoopState)
        ensures
            r.focused,
            !r.should_close,
    {
        LoopState { focused: true, should_close: false }
    }
}

/// Applies one window event to the loop state.
pub fn handle_window_event(state: &mut LoopState, event: WindowEvent)
    ensures
        *final(state) == state_after(*old(state), event),
{
    match event {
        WindowEvent::Focus(f) => state.focused = f,
        WindowEvent::Key(Key::Escape, Action::Press) => state.should_close = true,
        _ => {},
    }
}

/// The movement keys held down in a frame.
#[derive(Clone, Copy, Debug, PartialEq, Eq, Structural)]
pub struct MoveKeys {
    pub forward: bool,
    pub backward: bool,
    pub strafe_left: bool,
    pub strafe_right: bool,
}

/// One step of camera movement: along the view direction or the right vector,
/// by the frame's time times the movement speed.
#[derive(Clone, Copy, Debug, PartialEq, Eq, Structural)]
pub enum Move {
    Forward,
    Backward,
    StrafeRight,
    StrafeLeft,
}

/// `m` as a one-step plan when `held`, else the empty plan.
pub open spec fn step_if(held: bool, m: Move) -> Seq<Move> {
    if held {
        seq![m]
    } else {
        seq![]
    }
}

/// The steps for the held keys, each once, in the fixed order forward,
/// backward, right, left.
pub open spec fn move_plan(keys: MoveKeys) -> Seq<Move> {
    step_if(keys.forward, Move::Forward) + step_if(keys.backward, Move::Backward) + step_if(
        keys.strafe_right,
        Move::StrafeRight,
    ) + step_if(keys.strafe_left, Move::StrafeLeft)
}

/// How many times `m` occurs in a plan.
pub open spec fn count_of(plan: Seq<Move>, m: Move) -> nat
    decreases plan.len(),
{
    if plan.len() == 0 {
        0
    } else {
        count_of(plan.drop_last(), m) + (if plan.last() == m {
            1nat
        } else {
            0nat
        })
    }
}

/// Net steps of a plan along the view direction.
pub open spec fn along(plan: Seq<Move>) -> int {
    count_of(plan, Move::Forward) - count_of(plan, Move::Backward)
}

/// Net steps of a plan along the right vector.
pub open spec fn across(plan: Seq<Move>) -> int {
    count_of(plan, Move::StrafeRight) - count_of(plan, Move::StrafeLeft)
}

/// The movement steps of a frame. Only a focused window moves the camera.
pub fn frame_moves(state: &LoopState, keys: MoveKeys) -> (r: Vec<Move>)
    ensures
        r@ == (if state.focused {
            move_plan(keys)
        } else {
            Seq::<Move>::empty()
        }),
{
    let mut r: Vec<Move> = Vec::new();
    if !state.focused {
        return r;
    }
    if keys.forward {
        r.push(Move::Forward);
    }
    if keys.backward {
        r.push(Move::Backward);
    }
    if keys.strafe_right {
        r.push(Move::StrafeRight);
    }
    if keys.strafe_left {
        r.push(Move::StrafeLeft);
    }
    assert(r@ =~= move_plan(keys));
    r
}

/// The held keys with each direction swapped for its opposite.
pub open spec fn opposite(keys: MoveKeys) -> MoveKeys {
    MoveKeys {
        forward: keys.backward,
        backward: keys.forward,
        strafe_left: keys.strafe_right,
        strafe_right: keys.strafe_left,
    }
}

/// Counting over two plans one after the other adds their counts.
pub proof fn lemma_count_concat(a: Seq<Move>, b: Seq<Move>, m: Move)
    ensures
        count_of(a + b, m) == count_of(a, m) + count_of(b, m),
    decreases b.len(),
{
    if b.len() == 0 {
        assert(a + b =~= a);
    } else {
        assert((a + b).drop_last() =~= a + b.drop_last());
        lemma_count_concat(a, b.drop_last(), m);
    }
}

/// Held keys compose additively: the net steps of a frame are the forward key
/// less the backward key along the view direction, and the right key less the
/// left key across it, whatever else is held.
pub proof fn lemma_moves_additive(keys: MoveKeys)
    ensures
        along(move_plan(keys)) == (if keys.forward { 1int } else { 0int }) - (if keys.backward {
            1int
        } else {
            0int
        }),
        across(move_plan(keys)) == (if keys.strafe_right { 1int } else { 0int }) - (
        if keys.strafe_left {
            1int
        } else {
            0int
        }),
{
    let f = step_if(keys.forward, Move::Forward);
    let b = step_if(keys.backward, Move::Backward);
    let r = step_if(keys.strafe_right, Move::StrafeRight);
    let l = step_if(keys.strafe_left, Move::StrafeLeft);
    assert forall|m: Move, held: bool, x: Move| #[trigger] count_of(step_if(held, x), m) == (if held
        && x == m {
        1nat
    } else {
        0nat
    }) by {
        if held {
            assert(step_if(held, x).drop_last() =~= Seq::<Move>::empty());
            assert(count_of(Seq::<Move>::empty(), m) == 0);
        } else {
            assert(count_of(Seq::<Move>::empty(), m) == 0);
        }
    }
    assert forall|m: Move| #[trigger] count_of(move_plan(keys), m) == count_of(f, m) + count_of(b, m)
        + count_of(r, m) + count_of(l, m) by {
        lemma_count_concat(f, b, m);
        lemma_count_concat(f + b, r, m);
        lemma_count_concat(f + b + r, l, m);
    }
    assert(count_of(move_plan(keys), Move::Forward) == count_of(f, Move::Forward) + count_of(
        b,
        Move::Forward,
    ) + count_of(r, Move::Forward) + count_of(l, Move::Forward));
    assert(count_of(move_plan(keys), Move::Backward) == count_of(f, Move::Backward) + count_of(
        b,
        Move::Backward,
    ) + count_of(r, Move::Backward) + count_of(l, Move::Backward));
    assert(count_of(move_plan(keys), Move::StrafeRight) == count_of(f, Move::StrafeRight)
        + count_of(b, Move::StrafeRight) + count_of(r, Move::StrafeRight) + count_of(
        l,
        Move::StrafeRight,
    ));
    assert(count_of(move_plan(keys), Move::StrafeLeft) == count_of(f, Move::StrafeLeft) + count_of(
        b,
        Move::StrafeLeft,
    ) + count_of(r, Move::StrafeLeft) + count_of(l, Move::StrafeLeft));
}

/// A frame with the opposite keys held undoes a frame's movement: the net
/// steps of the two frames cancel along the view direction and across it, so
/// with equal frame times and an unchanged view the position returns to where
/// it was (forward, then backward, is one case).
pub proof fn lemma_opposite_keys_cancel(keys: MoveKeys)
    ensures
        along(move_plan(keys)) + along(move_plan(opposite(keys))) == 0,
        across(move_plan(keys)) + across(move_plan(opposite(keys))) == 0,
{
    lemma_moves_additive(keys);
    lemma_moves_additive(opposite(keys));
}

} // verus!
