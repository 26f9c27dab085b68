use vstd::prelude::*;

use crate::frame::FrameBuffer;

verus! {

/// The capability every animated entity offers the loop: advance internal
/// state by exactly one fixed step, and render that state into a frame
/// buffer.  Both effects are pinned down by the implementor's spec
/// functions, so the scheduler's own contract can speak about them:
/// `update` must not touch any frame, and `render` must not touch the
/// entity (enforced by `&self`).
pub trait GameObject: Sized {
    /// The entity's internal invariant.
    spec fn wf(&self) -> bool;

    /// The entity's state after exactly one fixed update step.
    spec fn update_spec(&self) -> Self;

    /// The frame bytes after this entity draws over `frame`, for a canvas
    /// `width` pixels wide.
    spec fn render_spec(&self, frame: Seq<u8>, width: int) -> Seq<u8>;

    /// Advances the entity by one fixed step.
    fn update(&mut self)
        requires
            old(self).wf(),
        ensures
            final(self).wf(),
            *final(self) == old(self).update_spec(),
    ;

    /// Draws the entity into `frame`, reading the entity's state alone.
    fn render(&self, frame: &mut FrameBuffer)
        requires
            self.wf(),
            old(frame).wf(),
        ensures
            final(frame).wf(),
            final(frame).spec_width() == old(frame).spec_width(),
            final(frame).spec_height() == old(frame).spec_height(),
            final(frame)@ == self.render_spec(old(frame)@, old(frame).spec_width()),
    ;
}

/// The state of `o` after `n` fixed update steps.
pub open spec fn iter_update<T: GameObject>(o: T, n: nat) -> T
    decreases n,
{
    if n == 0 {
        o
    } else {
        iter_update(o, (n - 1) as nat).update_spec()
    }
}

/// The frame bytes after every object of `objs`, in order, draws over
/// `frame`: on overlap the last writer wins.
pub open spec fn render_all<T: GameObject>(objs: Seq<T>, frame: Seq<u8>, width: int) -> Seq<u8>
    decreases objs.len(),
{
    if objs.len() == 0 {
        frame
    } else {
        render_all(objs.subrange(1, objs.len() as int), objs[0].render_spec(frame, width), width)
    }
}

/// Appending an object to the registry appends its draw pass.
pub proof fn lemma_render_all_push<T: GameObject>(objs: Seq<T>, o: T, frame: Seq<u8>, width: int)
    ensures
        render_all(objs.push(o), frame, width)
            == o.render_spec(render_all(objs, frame, width), width),
    decreases objs.len(),
{
    let s = objs.push(o);
    if objs.len() == 0 {
        assert(s.subrange(1, s.len() as int) =~= Seq::<T>::empty());
        assert(s[0] == o);
        assert(render_all(Seq::<T>::empty(), o.render_spec(frame, width), width)
            == o.render_spec(frame, width));
        assert(render_all(s, frame, width) == o.render_spec(frame, width));
        assert(render_all(objs, frame, width) == frame);
    } else {
        let tail = objs.subrange(1, objs.len() as int);
        assert(s.subrange(1, s.len() as int) =~= tail.push(o));
        assert(s[0] == objs[0]);
        assert(render_all(s, frame, width)
            == render_all(tail.push(o), objs[0].render_spec(frame, width), width));
        lemma_render_all_push(tail, o, objs[0].render_spec(frame, width), width);
        assert(render_all(objs, frame, width)
            == render_all(tail, objs[0].render_spec(frame, width), width));
    }
}

} // verus!
