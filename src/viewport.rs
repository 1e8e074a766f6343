use vstd::prelude::*;

use crate::context::{run, step, ContextModel, GlCall};

verus! {

/// The pixel rectangle of the window that rendering maps to.
#[derive(Copy, Clone, Debug, PartialEq, Eq, Structural)]
pub struct Viewport {
    pub x: i32,
    pub y: i32,
    pub w: i32,
    pub h: i32,
}

impl Viewport {
    /// The call that applies this viewport to the context.
    pub open spec fn call(self) -> GlCall {
        GlCall::Viewport { x: self.x, y: self.y, w: self.w, h: self.h }
    }

    /// Whether the context's viewport matches this one.
    pub open spec fn is_applied(self, m: ContextModel) -> bool {
        m.viewport == (self.x, self.y, self.w, self.h)
    }

    pub fn for_window(w: i32, h: i32) -> (r: Viewport)
        ensures
            r == (Viewport { x: 0, y: 0, w, h }),
    {
        Viewport { x: 0, y: 0, w, h }
    }

    /// Takes the new window size; the context is stale until `set_used` is applied.
    pub fn update_size(&mut self, w: i32, h: i32)
        ensures
            *final(self) == (Viewport { x: old(self).x, y: old(self).y, w, h }),
    {
        self.w = w;
        self.h = h;
    }

    pub fn set_used(&self) -> (r: GlCall)
        ensures
            r == self.call(),
    {
        GlCall::Viewport { x: self.x, y: self.y, w: self.w, h: self.h }
    }
}

/// Applying a viewport leaves the context applied to it, and applying it a second time
/// leaves the context as the first time did.
pub proof fn lemma_set_used_idempotent(m: ContextModel, v: Viewport)
    ensures
        v.is_applied(step(m, v.call())),
        step(step(m, v.call()), v.call()) == step(m, v.call()),
        run(m, seq![v.call(), v.call()]) == run(m, seq![v.call()]),
{
    reveal_with_fuel(run, 3);
    assert(seq![v.call(), v.call()].drop_first() =~= seq![v.call()]);
    assert(seq![v.call()].drop_first() =~= Seq::<GlCall>::empty());
}

/// A viewport that the context matches stops matching once it takes a different size.
pub proof fn lemma_resize_makes_stale(m: ContextModel, v: Viewport, w: i32, h: i32)
    requires
        v.is_applied(m),
        w != v.w || h != v.h,
    ensures
        !(Viewport { x: v.x, y: v.y, w, h }).is_applied(m),
{
}

} // verus!
