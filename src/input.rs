use vstd::prelude::*;

verus! {

/// A key that steers an object in the XZ plane.
#[derive(Clone, Copy, Debug, PartialEq, Eq, Structural)]
pub enum MoveKey {
    LookLeft,
    LookRight,
    LookUp,
    LookDown,
    Forward,
    Backward,
    StrafeRight,
    StrafeLeft,
    Rise,
    Sink,
}

/// The direction of one tick's steering, before scaling by speed and time.
///
/// Each component is -1, 0 or 1. `yaw` and `pitch` turn about the Y and X
/// axes; `forward`, `right` and `up` count along the object's forward, right
/// and up directions, which are of unit length and orthogonal to each other,
/// so a movement's squared length is the sum of the components' squares.
#[derive(Clone, Copy, Debug, PartialEq, Eq, Structural)]
pub struct MoveIntent {
    pub yaw: i8,
    pub pitch: i8,
    pub forward: i8,
    pub right: i8,
    pub up: i8,
}

/// 1 when only `pos` is held, -1 when only `neg` is, 0 otherwise.
pub open spec fn axis(keys: Seq<MoveKey>, pos: MoveKey, neg: MoveKey) -> i8 {
    (if keys.contains(pos) { 1int } else { 0int } - if keys.contains(neg) { 1int } else { 0int }) as i8
}

/// The steering of a tick in which `keys` are held.
pub open spec fn intent_of(keys: Seq<MoveKey>) -> MoveIntent {
    MoveIntent {
        yaw: axis(keys, MoveKey::LookRight, MoveKey::LookLeft),
        pitch: axis(keys, MoveKey::LookUp, MoveKey::LookDown),
        forward: axis(keys, MoveKey::Forward, MoveKey::Backward),
        right: axis(keys, MoveKey::StrafeRight, MoveKey::StrafeLeft),
        up: axis(keys, MoveKey::Rise, MoveKey::Sink),
    }
}

/// A component of -1, 0 or 1 squares to 0 or 1.
proof fn lemma_unit_square(v: i8)
    requires
        -1 <= v <= 1,
    ensures
        v * v == if v == 0 { 0int } else { 1int },
{
    if v == -1 {
        assert(v * v == 1) by (nonlinear_arith)
            requires
                v == -1,
        ;
    } else if v == 0 {
        assert(v * v == 0) by (nonlinear_arith)
            requires
                v == 0,
        ;
    } else {
        assert(v * v == 1) by (nonlinear_arith)
            requires
                v == 1,
        ;
    }
}

fn unit(v: i8) -> (r: u32)
    requires
        -1 <= v <= 1,
    ensures
        r == v * v,
        r <= 1,
{
    proof {
        lemma_unit_square(v);
    }
    if v == 0 {
        0
    } else {
        1
    }
}

impl MoveIntent {
    pub open spec fn spec_turn_len_sq(&self) -> int {
        self.yaw * self.yaw + self.pitch * self.pitch
    }

    pub open spec fn spec_move_len_sq(&self) -> int {
        self.forward * self.forward + self.right * self.right + self.up * self.up
    }

    pub open spec fn wf(&self) -> bool {
        &&& -1 <= self.yaw <= 1
        &&& -1 <= self.pitch <= 1
        &&& -1 <= self.forward <= 1
        &&& -1 <= self.right <= 1
        &&& -1 <= self.up <= 1
    }

    /// Squared length of the turn; the turn is normalised by its square root.
    pub fn turn_len_sq(&self) -> (r: u32)
        requires
            self.wf(),
        ensures
            r == self.spec_turn_len_sq(),
    {
        unit(self.yaw) + unit(self.pitch)
    }

    /// Squared length of the movement; the movement is normalised by its square
    /// root, so a diagonal is no faster than a single direction.
    pub fn move_len_sq(&self) -> (r: u32)
        requires
            self.wf(),
        ensures
            r == self.spec_move_len_sq(),
    {
        unit(self.forward) + unit(self.right) + unit(self.up)
    }

    /// Whether the tick turns the object at all.
    pub fn turns(&self) -> (r: bool)
        requires
            self.wf(),
        ensures
            r == (self.spec_turn_len_sq() > 0),
    {
        proof {
            lemma_unit_square(self.yaw);
            lemma_unit_square(self.pitch);
        }
        self.yaw != 0 || self.pitch != 0
    }

    /// Whether the tick moves the object at all.
    pub fn moves(&self) -> (r: bool)
        requires
            self.wf(),
        ensures
            r == (self.spec_move_len_sq() > 0),
    {
        proof {
            lemma_unit_square(self.forward);
            lemma_unit_square(self.right);
            lemma_unit_square(self.up);
        }
        self.forward != 0 || self.right != 0 || self.up != 0
    }
}

fn is_held(keys: &Vec<MoveKey>, key: MoveKey) -> (r: bool)
    ensures
        r == keys@.contains(key),
{
    let mut i: usize = 0;
    while i < keys.len()
        invariant
            i <= keys.len(),
            forall|j: int| 0 <= j < i ==> keys@[j] != key,
        decreases keys.len() - i,
    {
        if keys[i] == key {
            return true;
        }
        i = i + 1;
    }
    false
}

fn held_axis(keys: &Vec<MoveKey>, pos: MoveKey, neg: MoveKey) -> (r: i8)
    ensures
        r == axis(keys@, pos, neg),
        -1 <= r <= 1,
{
    let p: i8 = if is_held(keys, pos) { 1 } else { 0 };
    let n: i8 = if is_held(keys, neg) { 1 } else { 0 };
    p - n
}

/// The steering of a tick in which `keys` are held; a key held twice counts once.
pub fn intent_of_keys(keys: &Vec<MoveKey>) -> (r: MoveIntent)
    ensures
        r == intent_of(keys@),
        r.wf(),
{
    MoveIntent {
        yaw: held_axis(keys, MoveKey::LookRight, MoveKey::LookLeft),
        pitch: held_axis(keys, MoveKey::LookUp, MoveKey::LookDown),
        forward: held_axis(keys, MoveKey::Forward, MoveKey::Backward),
        right: held_axis(keys, MoveKey::StrafeRight, MoveKey::StrafeLeft),
        up: held_axis(keys, MoveKey::Rise, MoveKey::Sink),
    }
}

/// Opposing movement keys cancel: when each movement key that is held is held
/// together with its opposite, the tick does not move the object.
pub proof fn lemma_opposing_keys_cancel(keys: Seq<MoveKey>)
    requires
        keys.contains(MoveKey::Forward) == keys.contains(MoveKey::Backward),
        keys.contains(MoveKey::StrafeRight) == keys.contains(MoveKey::StrafeLeft),
        keys.contains(MoveKey::Rise) == keys.contains(MoveKey::Sink),
    ensures
        intent_of(keys).spec_move_len_sq() == 0,
{
    let i = intent_of(keys);
    lemma_unit_square(i.forward);
    lemma_unit_square(i.right);
    lemma_unit_square(i.up);
}

/// Holding forward and a strafe key together gives a movement of squared
/// length two, which normalising scales down to unit length.
pub proof fn lemma_diagonal_len_sq(keys: Seq<MoveKey>)
    requires
        keys.contains(MoveKey::Forward),
        !keys.contains(MoveKey::Backward),
        keys.contains(MoveKey::StrafeRight) != keys.contains(MoveKey::StrafeLeft),
        keys.contains(MoveKey::Rise) == keys.contains(MoveKey::Sink),
    ensures
        intent_of(keys).spec_move_len_sq() == 2,
{
    let i = intent_of(keys);
    lemma_unit_square(i.forward);
    lemma_unit_square(i.right);
    lemma_unit_square(i.up);
}

} // verus!
