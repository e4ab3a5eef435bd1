//! Undo and redo of scene edits: snapshots of the scene before each edit.
use vstd::prelude::*;
use crate::scene::{SdfScene, SceneView};

verus! {

/// Most snapshots kept for undo; older ones are dropped.
pub const MAX_UNDO: usize = 50;

/// Abstract value of the history: the undo and redo stacks, top last.
pub struct UndoView {
    pub undo: Seq<SceneView>,
    pub redo: Seq<SceneView>,
}

/// Snapshots to undo to and to redo to.
pub struct UndoHistory {
    undo_stack: Vec<SdfScene>,
    redo_stack: Vec<SdfScene>,
}

/// Abstract values of a sequence of scenes.
pub open spec fn scenes_view(s: Seq<SdfScene>) -> Seq<SceneView> {
    s.map_values(|x: SdfScene| x@)
}

impl View for UndoHistory {
    type V = UndoView;

    closed spec fn view(&self) -> UndoView {
        UndoView { undo: scenes_view(self.undo_stack@), redo: scenes_view(self.redo_stack@) }
    }
}

impl UndoView {
    /// Record a snapshot: it goes on top of the undo stack, the oldest snapshot is dropped
    /// beyond `MAX_UNDO`, and the redo stack is cleared.
    pub open spec fn push_spec(self, s: SceneView) -> UndoView {
        let u = self.undo.push(s);
        UndoView { undo: if u.len() > MAX_UNDO { u.drop_first() } else { u }, redo: Seq::empty() }
    }

    /// Undo from the scene `current`: the top snapshot comes back and `current` goes on the
    /// redo stack; nothing happens when there is nothing to undo.
    pub open spec fn undo_spec(self, current: SceneView) -> (UndoView, Option<SceneView>) {
        if self.undo.len() == 0 {
            (self, None)
        } else {
            (UndoView { undo: self.undo.drop_last(), redo: self.redo.push(current) }, Some(self.undo.last()))
        }
    }

    /// Redo from the scene `current`: the top redo snapshot comes back and `current` goes on
    /// the undo stack; nothing happens when there is nothing to redo.
    pub open spec fn redo_spec(self, current: SceneView) -> (UndoView, Option<SceneView>) {
        if self.redo.len() == 0 {
            (self, None)
        } else {
            (UndoView { undo: self.undo.push(current), redo: self.redo.drop_last() }, Some(self.redo.last()))
        }
    }

    /// The two stacks together hold at most `MAX_UNDO` snapshots.
    pub open spec fn bounded(self) -> bool {
        self.undo.len() + self.redo.len() <= MAX_UNDO
    }
}

impl UndoHistory {
    /// The two stacks together hold at most `MAX_UNDO` snapshots.
    #[verifier::type_invariant]
    spec fn stacks_bounded(self) -> bool {
        self.undo_stack@.len() + self.redo_stack@.len() <= MAX_UNDO
    }
}

impl Default for UndoHistory {
    fn default() -> (r: Self)
        ensures
            r@.undo.len() == 0,
            r@.redo.len() == 0,
    {
        UndoHistory { undo_stack: Vec::new(), redo_stack: Vec::new() }
    }
}

impl UndoHistory {
    /// Take both stacks out, leaving this history empty.
    fn take_stacks(&mut self) -> (r: (Vec<SdfScene>, Vec<SdfScene>))
        ensures
            scenes_view(r.0@) == old(self)@.undo,
            scenes_view(r.1@) == old(self)@.redo,
            old(self)@.bounded(),
    {
        proof { use_type_invariant(&*self); }
        let mut u: Vec<SdfScene> = Vec::new();
        let mut d: Vec<SdfScene> = Vec::new();
        std::mem::swap(&mut u, &mut self.undo_stack);
        std::mem::swap(&mut d, &mut self.redo_stack);
        (u, d)
    }

    /// Record the scene as it was before an edit.
    pub fn push(&mut self, scene: SdfScene)
        ensures
            final(self)@ == old(self)@.push_spec(scene@),
            final(self)@.bounded(),
    {
        let (mut u, _) = self.take_stacks();
        u.push(scene);
        if u.len() > MAX_UNDO {
            u.remove(0);
        }
        assert(scenes_view(u@) =~= old(self)@.push_spec(scene@).undo);
        *self = UndoHistory { undo_stack: u, redo_stack: Vec::new() };
        assert(scenes_view(self.redo_stack@) =~= Seq::<SceneView>::empty());
    }

    /// Step back: the last snapshot, with `current` kept for redo.
    pub fn undo(&mut self, current: &SdfScene) -> (r: Option<SdfScene>)
        ensures
            final(self)@ == old(self)@.undo_spec(current@).0,
            final(self)@.bounded(),
            match old(self)@.undo_spec(current@).1 {
                Some(s) => r is Some && r->0@ == s,
                None => r is None,
            },
    {
        let (mut u, mut d) = self.take_stacks();
        let r = match u.pop() {
            None => {
                assert(scenes_view(u@) =~= old(self)@.undo);
                None
            },
            Some(prev) => {
                d.push(current.copy());
                assert(scenes_view(u@) =~= old(self)@.undo.drop_last());
                assert(scenes_view(d@) =~= old(self)@.redo.push(current@));
                Some(prev)
            },
        };
        *self = UndoHistory { undo_stack: u, redo_stack: d };
        r
    }

    /// Step forward again: the last undone state, with `current` kept for undo.
    pub fn redo(&mut self, current: &SdfScene) -> (r: Option<SdfScene>)
        ensures
            final(self)@ == old(self)@.redo_spec(current@).0,
            final(self)@.bounded(),
            match old(self)@.redo_spec(current@).1 {
                Some(s) => r is Some && r->0@ == s,
                None => r is None,
            },
    {
        let (mut u, mut d) = self.take_stacks();
        let r = match d.pop() {
            None => {
                assert(scenes_view(d@) =~= old(self)@.redo);
                None
            },
            Some(next) => {
                u.push(current.copy());
                assert(scenes_view(d@) =~= old(self)@.redo.drop_last());
                assert(scenes_view(u@) =~= old(self)@.undo.push(current@));
                Some(next)
            },
        };
        *self = UndoHistory { undo_stack: u, redo_stack: d };
        r
    }

    /// Number of snapshots available to undo.
    pub fn undo_len(&self) -> (r: usize)
        ensures
            r == self@.undo.len(),
            self@.bounded(),
    {
        proof { use_type_invariant(self); }
        self.undo_stack.len()
    }

    /// Number of states available to redo.
    pub fn redo_len(&self) -> (r: usize)
        ensures
            r == self@.redo.len(),
    {
        self.redo_stack.len()
    }
}

/// The snapshot just recorded is the one an undo brings back.
pub proof fn law_undo_returns_pushed(h: UndoView, s: SceneView, current: SceneView)
    ensures
        h.push_spec(s).undo_spec(current).1 == Some(s),
{
}

/// Redo after undo restores both the scene and the history.
pub proof fn law_redo_after_undo(h: UndoView, current: SceneView)
    requires
        h.undo.len() > 0,
    ensures
        ({
            let (h1, prev) = h.undo_spec(current);
            let (h2, next) = h1.redo_spec(prev->0);
            next == Some(current) && h2 == h
        }),
{
    assert(h.undo.drop_last().push(h.undo.last()) =~= h.undo);
    assert(h.redo.push(current).drop_last() =~= h.redo);
}

/// Undo after redo restores both the scene and the history.
pub proof fn law_undo_after_redo(h: UndoView, current: SceneView)
    requires
        h.redo.len() > 0,
    ensures
        ({
            let (h1, next) = h.redo_spec(current);
            let (h2, prev) = h1.undo_spec(next->0);
            prev == Some(current) && h2 == h
        }),
{
    assert(h.redo.drop_last().push(h.redo.last()) =~= h.redo);
    assert(h.undo.push(current).drop_last() =~= h.undo);
}

/// Every operation keeps the two stacks within `MAX_UNDO` snapshots; recording always
/// leaves at most `MAX_UNDO` snapshots and nothing to redo.
pub proof fn law_history_bounded(h: UndoView, s: SceneView)
    requires
        h.bounded(),
    ensures
        h.push_spec(s).bounded(),
        h.push_spec(s).redo.len() == 0,
        h.undo_spec(s).0.bounded(),
        h.redo_spec(s).0.bounded(),
{
}

/// Recording never leaves more than `MAX_UNDO` snapshots, whatever came before.
pub proof fn law_push_capped(h: UndoView, s: SceneView)
    requires
        h.undo.len() <= MAX_UNDO,
    ensures
        h.push_spec(s).undo.len() == if h.undo.len() == MAX_UNDO { MAX_UNDO as int } else { h.undo.len() + 1 as int },
{
}

} // verus!
