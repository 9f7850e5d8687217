//! Keyboard control of the camera.

use vstd::prelude::*;

verus! {

/// Which of the camera keys are held: W, S, A, D, Q and E.
#[derive(Clone, Copy, Debug, PartialEq, Eq, Structural)]
pub struct CameraKeys {
    /// W: move forward.
    pub forward: bool,
    /// S: move back.
    pub back: bool,
    /// A: move left.
    pub left: bool,
    /// D: move right.
    pub right: bool,
    /// Q: turn left (positive rotation about the vertical axis).
    pub turn_left: bool,
    /// E: turn right (negative rotation about the vertical axis).
    pub turn_right: bool,
}

/// One step of camera motion for this frame, scaled by the frame time.
#[derive(Clone, Copy, Debug, PartialEq, Eq, Structural)]
pub enum CameraMove {
    Forward,
    Back,
    Left,
    Right,
    TurnLeft,
    TurnRight,
}

/// The move for one key: a one-element sequence when the key is held.
pub open spec fn move_if(held: bool, m: CameraMove) -> Seq<CameraMove> {
    if held {
        seq![m]
    } else {
        seq![]
    }
}

/// The moves of a frame: one per held key, in the order W, S, A, D, Q, E.
pub open spec fn camera_moves(keys: CameraKeys) -> Seq<CameraMove> {
    move_if(keys.forward, CameraMove::Forward) + move_if(keys.back, CameraMove::Back) + move_if(
        keys.left,
        CameraMove::Left,
    ) + move_if(keys.right, CameraMove::Right) + move_if(keys.turn_left, CameraMove::TurnLeft)
        + move_if(keys.turn_right, CameraMove::TurnRight)
}

/// Where a move stands in the order of the keys W, S, A, D, Q, E.
pub open spec fn move_rank(m: CameraMove) -> int {
    match m {
        CameraMove::Forward => 0,
        CameraMove::Back => 1,
        CameraMove::Left => 2,
        CameraMove::Right => 3,
        CameraMove::TurnLeft => 4,
        CameraMove::TurnRight => 5,
    }
}

/// The moves of a frame hold each move exactly when its key is held: W
/// forward, S back, A left, D right, Q turn left, E turn right; and they
/// come in the key order W, S, A, D, Q, E, each at most once.
pub proof fn lemma_camera_moves_follow_keys(keys: CameraKeys)
    ensures
        camera_moves(keys).contains(CameraMove::Forward) <==> keys.forward,
        camera_moves(keys).contains(CameraMove::Back) <==> keys.back,
        camera_moves(keys).contains(CameraMove::Left) <==> keys.left,
        camera_moves(keys).contains(CameraMove::Right) <==> keys.right,
        camera_moves(keys).contains(CameraMove::TurnLeft) <==> keys.turn_left,
        camera_moves(keys).contains(CameraMove::TurnRight) <==> keys.turn_right,
        forall|i: int, j: int|
            0 <= i < j < camera_moves(keys).len() ==> move_rank(#[trigger] camera_moves(keys)[i]) < move_rank(#[trigger] camera_moves(keys)[j]),
{
    let s0: Seq<CameraMove> = Seq::empty();
    lemma_append_move(s0, keys.forward, CameraMove::Forward);
    let s1: Seq<CameraMove> = s0 + move_if(keys.forward, CameraMove::Forward);
    assert(s1 =~= move_if(keys.forward, CameraMove::Forward));
    lemma_append_move(s1, keys.back, CameraMove::Back);
    let s2: Seq<CameraMove> = s1 + move_if(keys.back, CameraMove::Back);
    lemma_append_move(s2, keys.left, CameraMove::Left);
    let s3: Seq<CameraMove> = s2 + move_if(keys.left, CameraMove::Left);
    lemma_append_move(s3, keys.right, CameraMove::Right);
    let s4: Seq<CameraMove> = s3 + move_if(keys.right, CameraMove::Right);
    lemma_append_move(s4, keys.turn_left, CameraMove::TurnLeft);
    let s5: Seq<CameraMove> = s4 + move_if(keys.turn_left, CameraMove::TurnLeft);
    lemma_append_move(s5, keys.turn_right, CameraMove::TurnRight);
}

/// Appending the move of one key to moves of earlier keys keeps them in
/// key order, and adds that move exactly when the key is held.
proof fn lemma_append_move(a: Seq<CameraMove>, held: bool, m: CameraMove)
    requires
        forall|i: int, j: int| 0 <= i < j < a.len() ==> move_rank(#[trigger] a[i]) < move_rank(#[trigger] a[j]),
        forall|i: int| 0 <= i < a.len() ==> move_rank(#[trigger] a[i]) < move_rank(m),
    ensures
        ({
            let b: Seq<CameraMove> = a + move_if(held, m);
            &&& forall|i: int, j: int| 0 <= i < j < b.len() ==> move_rank(#[trigger] b[i]) < move_rank(#[trigger] b[j])
            &&& forall|i: int| 0 <= i < b.len() ==> move_rank(#[trigger] b[i]) <= move_rank(m)
            &&& forall|x: CameraMove| b.contains(x) <==> (a.contains(x) || (held && x == m))
        }),
{
    let b: Seq<CameraMove> = a + move_if(held, m);
    assert forall|x: CameraMove| b.contains(x) <==> (a.contains(x) || (held && x == m)) by {
        if a.contains(x) {
            let k: int = choose|k: int| 0 <= k < a.len() && a[k] == x;
            assert(b[k] == x);
        }
        if held && x == m {
            assert(b[a.len() as int] == x);
        }
        if b.contains(x) {
            let k: int = choose|k: int| 0 <= k < b.len() && b[k] == x;
            if k < a.len() {
                assert(a[k] == x);
            }
        }
    }
}

/// The moves to apply to the camera this frame, in the order they are
/// applied: each move exactly when its key is held, in the key order.
pub fn camera_controls(keys: &CameraKeys) -> (moves: Vec<CameraMove>)
    ensures
        moves@ == camera_moves(*keys),
        moves@.contains(CameraMove::Forward) <==> keys.forward,
        moves@.contains(CameraMove::Back) <==> keys.back,
        moves@.contains(CameraMove::Left) <==> keys.left,
        moves@.contains(CameraMove::Right) <==> keys.right,
        moves@.contains(CameraMove::TurnLeft) <==> keys.turn_left,
        moves@.contains(CameraMove::TurnRight) <==> keys.turn_right,
        forall|i: int, j: int|
            0 <= i < j < moves@.len() ==> move_rank(#[trigger] moves@[i]) < move_rank(#[trigger] moves@[j]),
{
    proof {
        lemma_camera_moves_follow_keys(*keys);
    }
    let mut moves: Vec<CameraMove> = Vec::new();
    if keys.forward {
        moves.push(CameraMove::Forward);
    }
    if keys.back {
        moves.push(CameraMove::Back);
    }
    if keys.left {
        moves.push(CameraMove::Left);
    }
    if keys.right {
        moves.push(CameraMove::Right);
    }
    if keys.turn_left {
        moves.push(CameraMove::TurnLeft);
    }
    if keys.turn_right {
        moves.push(CameraMove::TurnRight);
    }
    assert(moves@ =~= camera_moves(*keys));
    moves
}

} // verus!
