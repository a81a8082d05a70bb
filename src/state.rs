use vstd::prelude::*;

verus! {

/// A point or a vector of the plane.
#[derive(Clone, Copy, Debug)]
pub struct Vec2<T> {
    pub x: T,
    pub y: T,
}

/// Position and velocity of the body: exactly four degrees of freedom.
#[derive(Clone, Copy, Debug)]
pub struct State<T> {
    pub pos: Vec2<T>,
    pub vel: Vec2<T>,
}

impl<T: Copy> State<T> {
    /// The four fit parameters in their fixed order: pos.x, pos.y, vel.x, vel.y.
    pub open spec fn params_spec(self) -> Seq<T> {
        seq![self.pos.x, self.pos.y, self.vel.x, self.vel.y]
    }

    /// The state whose parameters, in the fixed order, are `p`.
    pub open spec fn from_params_spec(p: Seq<T>) -> State<T>
        recommends
            p.len() == 4,
    {
        State { pos: Vec2 { x: p[0], y: p[1] }, vel: Vec2 { x: p[2], y: p[3] } }
    }

    pub fn params(&self) -> (r: [T; 4])
        ensures
            r@ == self.params_spec(),
    {
        let r = [self.pos.x, self.pos.y, self.vel.x, self.vel.y];
        assert(r@ =~= self.params_spec());
        r
    }

    pub fn set_params(&mut self, p: &[T; 4])
        ensures
            *final(self) == State::<T>::from_params_spec(p@),
    {
        self.pos.x = p[0];
        self.pos.y = p[1];
        self.vel.x = p[2];
        self.vel.y = p[3];
    }
}

/// Writing parameters into a state and reading them back gives the same
/// parameters; reading a state's parameters and writing them back gives the
/// same state.
pub proof fn lemma_params_round_trip<T: Copy>(s: State<T>, p: Seq<T>)
    requires
        p.len() == 4,
    ensures
        State::<T>::from_params_spec(p).params_spec() == p,
        State::<T>::from_params_spec(s.params_spec()) == s,
{
    assert(State::<T>::from_params_spec(p).params_spec() =~= p);
}

} // verus!
