//! Per-window render contexts and the thread-local registry that keys them
//! by window identity.
//!
//! A context holds what must stay on the window's owning thread: the drawing
//! backend and the pending-completion handle of the last submission. The
//! registry models that thread-local map explicitly, passed through the
//! thread's execution context, so the ownership boundary is visible in the
//! signatures.

use vstd::prelude::*;

verus! {

/// Render state pinned to one window's owning thread: the serial bookkeeping
/// of the frames submitted and presented on behalf of that window, and the
/// pending-completion handle of the last successful submission.
pub struct RenderContext {
    /// Window this context belongs to.
    pub window_id: u64,
    /// Number of successful present submissions so far; the k-th successful
    /// frame carries serial k, counted from 1.
    pub frames_submitted: u64,
    /// Serials of the submitted frames in the order the display receives
    /// them.
    pub presented: Vec<u64>,
    /// Serial of the submission the next frame must schedule after, or
    /// nothing when the last submission failed and its tracking was dropped.
    pub pending: Option<u64>,
}

/// A context fresh for `id`: no prior work, so the next frame waits on an
/// already-satisfied signal.
pub open spec fn is_fresh_context(c: RenderContext, id: u64) -> bool {
    &&& c.window_id == id
    &&& c.frames_submitted == 0
    &&& c.presented@ =~= Seq::<u64>::empty()
    &&& c.pending is None
}

/// How recording one present submission changes a context: a successful
/// submission appends the next serial to the presentation order and becomes
/// the pending completion; a failed one leaves the order alone and drops the
/// pending handle (best-effort cleanup, not an error).
pub open spec fn record_present_spec(pre: RenderContext, ok: bool, post: RenderContext) -> bool {
    &&& post.window_id == pre.window_id
    &&& if ok {
        &&& post.frames_submitted == pre.frames_submitted + 1
        &&& post.presented@ =~= pre.presented@.push((pre.frames_submitted + 1) as u64)
        &&& post.pending == Some((pre.frames_submitted + 1) as u64)
    } else {
        &&& post.frames_submitted == pre.frames_submitted
        &&& post.presented@ =~= pre.presented@
        &&& post.pending is None
    }
}

/// The display has received exactly the serials 1..=frames_submitted, in
/// call order.
pub open spec fn in_call_order(c: RenderContext) -> bool {
    c.presented@ =~= Seq::new(c.frames_submitted as nat, |i: int| (i + 1) as u64)
}

/// Law: presentation order matches call order. A fresh context satisfies
/// `in_call_order`, and recording any present submission, successful or
/// failed, preserves it; so after any run of draw calls the display has seen
/// the successful frames exactly as 1, 2, ... in the order they were issued,
/// with no reordering.
pub proof fn lemma_presentation_in_call_order(pre: RenderContext, ok: bool, post: RenderContext)
    requires
        in_call_order(pre),
        record_present_spec(pre, ok, post),
    ensures
        in_call_order(post),
{
    if ok {
        assert(post.presented@ =~= Seq::new(post.frames_submitted as nat, |i: int| (i + 1) as u64));
    }
}

/// Law: a fresh context is in call order (nothing presented yet).
pub proof fn lemma_fresh_in_call_order(c: RenderContext, id: u64)
    requires
        is_fresh_context(c, id),
    ensures
        in_call_order(c),
{
}

impl RenderContext {
    /// A context for a window that has submitted nothing yet.
    pub fn fresh(id: u64) -> (c: RenderContext)
        ensures
            is_fresh_context(c, id),
    {
        RenderContext { window_id: id, frames_submitted: 0, presented: Vec::new(), pending: None }
    }

    /// Record this frame's present submission: on success the frame joins
    /// the presentation order and replaces the pending completion; on
    /// failure the tracking is dropped silently.
    pub fn record_present(&mut self, ok: bool)
        requires
            old(self).frames_submitted < u64::MAX,
        ensures
            record_present_spec(*old(self), ok, *final(self)),
    {
        if ok {
            let serial = self.frames_submitted + 1;
            self.frames_submitted = serial;
            self.presented.push(serial);
            self.pending = Some(serial);
        } else {
            self.pending = None;
        }
    }
}

/// The registry of render contexts for the windows of one thread, keyed by
/// window identity.
pub struct Registry {
    contexts: Vec<RenderContext>,
}

fn vec_ctx_mut(v: &mut Vec<RenderContext>, i: usize) -> (element: &mut RenderContext)
    requires
        i < old(v)@.len(),
    ensures
        *element == old(v)@[i as int],
        final(v)@ == old(v)@.update(i as int, *final(element)),
{
    &mut v[i]
}

impl Registry {
    /// Each window identity appears at most once.
    pub closed spec fn wf(self) -> bool {
        forall|i: int, j: int|
            0 <= i < j < self.contexts@.len() ==> self.contexts@[i].window_id
                != self.contexts@[j].window_id
    }

    /// Whether a context for `id` is registered.
    pub closed spec fn contains_spec(self, id: u64) -> bool {
        exists|i: int|
            0 <= i < self.contexts@.len() && (#[trigger] self.contexts@[i]).window_id == id
    }

    /// The registered context for `id`, if any.
    pub closed spec fn get_spec(self, id: u64) -> Option<RenderContext> {
        if self.contains_spec(id) {
            Some(
                self.contexts@[
                    choose|i: int|
                        0 <= i < self.contexts@.len() && (#[trigger] self.contexts@[i]).window_id
                            == id
                ],
            )
        } else {
            None
        }
    }

    /// A context is registered exactly when a lookup finds one.
    pub broadcast proof fn lemma_get_spec_contains(self, id: u64)
        ensures
            (#[trigger] self.get_spec(id)) is Some <==> self.contains_spec(id),
    {
    }

    proof fn lemma_get_by_index(self, i: int)
        requires
            self.wf(),
            0 <= i < self.contexts@.len(),
        ensures
            self.get_spec(self.contexts@[i].window_id) == Some(self.contexts@[i]),
    {
        let id = self.contexts@[i].window_id;
        assert(self.contains_spec(id));
        let j = choose|j: int|
            0 <= j < self.contexts@.len() && (#[trigger] self.contexts@[j]).window_id == id;
        assert(j == i);
    }

    /// An empty registry.
    pub fn new() -> (r: Registry)
        ensures
            r.wf(),
            forall|id: u64| !r.contains_spec(id),
    {
        Registry { contexts: Vec::new() }
    }

    fn find(&self, id: u64) -> (r: Option<usize>)
        requires
            self.wf(),
        ensures
            match r {
                Some(i) => i < self.contexts@.len() && self.contexts@[i as int].window_id == id
                    && self.get_spec(id) == Some(self.contexts@[i as int]),
                None => !self.contains_spec(id),
            },
    {
        let mut i: usize = 0;
        while i < self.contexts.len()
            invariant
                self.wf(),
                i <= self.contexts@.len(),
                forall|j: int| 0 <= j < i ==> (#[trigger] self.contexts@[j]).window_id != id,
            decreases self.contexts@.len() - i,
        {
            if self.contexts[i].window_id == id {
                proof {
                    self.lemma_get_by_index(i as int);
                }
                return Some(i);
            }
            i += 1;
        }
        None
    }

    /// Whether a context for `id` is registered.
    pub fn contains(&self, id: u64) -> (b: bool)
        requires
            self.wf(),
        ensures
            b == self.contains_spec(id),
    {
        self.find(id).is_some()
    }

    /// The number of successful present submissions recorded for `id`, or
    /// nothing when no context is registered for it.
    pub fn frames_submitted_of(&self, id: u64) -> (r: Option<u64>)
        requires
            self.wf(),
        ensures
            match r {
                Some(n) => self.get_spec(id) matches Some(c) && c.frames_submitted == n,
                None => !self.contains_spec(id),
            },
    {
        match self.find(id) {
            Some(i) => Some(self.contexts[i].frames_submitted),
            None => None,
        }
    }

    /// The serials presented so far for `id`, in display order, or nothing
    /// when no context is registered for it.
    pub fn presented_of(&self, id: u64) -> (r: Option<&Vec<u64>>)
        requires
            self.wf(),
        ensures
            match r {
                Some(v) => self.get_spec(id) matches Some(c) && v@ =~= c.presented@,
                None => !self.contains_spec(id),
            },
    {
        match self.find(id) {
            Some(i) => Some(&self.contexts[i].presented),
            None => None,
        }
    }

    /// Look up or lazily create the context for `id`: on first access the
    /// window gets a fresh context with an already-satisfied pending signal;
    /// afterwards the registered one is returned untouched. Contexts of
    /// other windows are never affected.
    pub fn ensure_context(&mut self, id: u64)
        requires
            old(self).wf(),
        ensures
            final(self).wf(),
            old(self).contains_spec(id) ==> final(self).get_spec(id) == old(self).get_spec(id),
            !old(self).contains_spec(id) ==> (final(self).get_spec(id) matches Some(c)
                && is_fresh_context(c, id)),
            final(self).contains_spec(id),
            forall|k: u64| k != id ==> final(self).contains_spec(k) == old(self).contains_spec(k),
            forall|k: u64| k != id ==> final(self).get_spec(k) == old(self).get_spec(k),
    {
        match self.find(id) {
            Some(_) => {},
            None => {
                let ghost pre = self.contexts@;
                self.contexts.push(RenderContext::fresh(id));
                proof {
                    assert forall|i: int, j: int|
                        0 <= i < j < self.contexts@.len() implies self.contexts@[i].window_id
                        != self.contexts@[j].window_id by {
                        if j < pre.len() as int {
                            assert(pre[i].window_id != pre[j].window_id);
                        } else {
                            assert(pre[i].window_id != id);
                        }
                    }
                    assert forall|k: u64| k != id implies self.contains_spec(k) == old(
                        self,
                    ).contains_spec(k) && self.get_spec(k) == old(self).get_spec(k) by {
                        self.lemma_push_preserves(pre, k, id);
                    }
                    self.lemma_get_by_index(pre.len() as int);
                }
            },
        }
    }

    proof fn lemma_push_preserves(self, pre: Seq<RenderContext>, k: u64, id: u64)
        requires
            k != id,
            self.wf(),
            self.contexts@.len() == pre.len() + 1,
            self.contexts@ =~= pre.push(self.contexts@[pre.len() as int]),
            self.contexts@[pre.len() as int].window_id == id,
        ensures
            self.contains_spec(k) == (exists|i: int|
                0 <= i < pre.len() && (#[trigger] pre[i]).window_id == k),
            (exists|i: int| 0 <= i < pre.len() && (#[trigger] pre[i]).window_id == k)
                ==> self.get_spec(k) == Some(
                pre[
                    choose|i: int|
                        0 <= i < pre.len() && (#[trigger] pre[i]).window_id == k
                ],
            ),
    {
        if self.contains_spec(k) {
            let i = choose|i: int|
                0 <= i < self.contexts@.len() && (#[trigger] self.contexts@[i]).window_id == k;
            assert(i < pre.len());
            assert(pre[i].window_id == k);
        }
        if exists|i: int| 0 <= i < pre.len() && (#[trigger] pre[i]).window_id == k {
            let i = choose|i: int| 0 <= i < pre.len() && (#[trigger] pre[i]).window_id == k;
            assert(self.contexts@[i].window_id == k);
            assert(self.contains_spec(k));
            let j = choose|j: int|
                0 <= j < self.contexts@.len() && (#[trigger] self.contexts@[j]).window_id == k;
            assert(j != pre.len() as int);
            assert(pre[j].window_id == k);
            assert(j == i);
            assert(self.get_spec(k) == Some(pre[i]));
        }
    }

    /// Record one present submission for `id`'s context.
    pub fn record_present(&mut self, id: u64, ok: bool)
        requires
            old(self).wf(),
            old(self).contains_spec(id),
            (old(self).get_spec(id) matches Some(c) && c.frames_submitted < u64::MAX),
        ensures
            final(self).wf(),
            old(self).get_spec(id) matches Some(c0) && final(self).get_spec(id) matches Some(c1)
                && record_present_spec(c0, ok, c1),
            forall|k: u64| final(self).contains_spec(k) == old(self).contains_spec(k),
            forall|k: u64| k != id ==> final(self).get_spec(k) == old(self).get_spec(k),
    {
        let i = match self.find(id) {
            Some(i) => i,
            None => {
                proof {
                    assert(false);
                }
                0
            },
        };
        let ghost pre = self.contexts@;
        let ctx = vec_ctx_mut(&mut self.contexts, i);
        ctx.record_present(ok);
        proof {
            self.lemma_update_preserves(pre, i as int, id);
            assert forall|k: u64| self.contains_spec(k) == old(self).contains_spec(k) by {
                if k == id {
                    assert(self.contexts@[i as int].window_id == id);
                    assert(old(self).contexts@[i as int].window_id == id);
                }
            }
        }
    }

    proof fn lemma_update_preserves(self, pre: Seq<RenderContext>, at: int, id: u64)
        requires
            0 <= at < pre.len(),
            self.contexts@.len() == pre.len(),
            self.contexts@ =~= pre.update(at, self.contexts@[at]),
            pre[at].window_id == id,
            self.contexts@[at].window_id == id,
            forall|i: int, j: int|
                0 <= i < j < pre.len() ==> pre[i].window_id != pre[j].window_id,
        ensures
            self.wf(),
            self.get_spec(id) == Some(self.contexts@[at]),
            forall|k: u64|
                k != id ==> self.contains_spec(k) == (exists|i: int|
                    0 <= i < pre.len() && (#[trigger] pre[i]).window_id == k),
            forall|k: u64|
                k != id && self.contains_spec(k) ==> self.get_spec(k) == Some(
                    pre[
                        choose|i: int|
                            0 <= i < pre.len() && (#[trigger] pre[i]).window_id == k
                    ],
                ),
    {
        assert forall|i: int, j: int|
            0 <= i < j < self.contexts@.len() implies self.contexts@[i].window_id
            != self.contexts@[j].window_id by {
            assert(pre[i].window_id != pre[j].window_id);
        }
        self.lemma_get_by_index(at);
        assert forall|k: u64| k != id implies self.contains_spec(k) == (exists|i: int|
            0 <= i < pre.len() && (#[trigger] pre[i]).window_id == k) by {
            if self.contains_spec(k) {
                let i = choose|i: int|
                    0 <= i < self.contexts@.len() && (#[trigger] self.contexts@[i]).window_id == k;
                assert(i != at);
                assert(pre[i].window_id == k);
            }
            if exists|i: int| 0 <= i < pre.len() && (#[trigger] pre[i]).window_id == k {
                let i = choose|i: int| 0 <= i < pre.len() && (#[trigger] pre[i]).window_id == k;
                assert(i != at);
                assert(self.contexts@[i].window_id == k);
            }
        }
        assert forall|k: u64| k != id && self.contains_spec(k) implies self.get_spec(k) == Some(
            pre[
                choose|i: int|
                    0 <= i < pre.len() && (#[trigger] pre[i]).window_id == k
            ],
        ) by {
            let i = choose|i: int|
                0 <= i < self.contexts@.len() && (#[trigger] self.contexts@[i]).window_id == k;
            assert(i != at);
            assert(pre[i].window_id == k);
            self.lemma_get_by_index(i);
            let j = choose|i: int| 0 <= i < pre.len() && (#[trigger] pre[i]).window_id == k;
            assert(self.contexts@[j].window_id == k);
            assert(j == i);
        }
    }

    /// Remove the context for `id`, if registered: a window being closed
    /// leaves the registry, and a later lookup for its identity finds
    /// nothing. Contexts of other windows are untouched.
    pub fn remove(&mut self, id: u64)
        requires
            old(self).wf(),
        ensures
            final(self).wf(),
            !final(self).contains_spec(id),
            forall|k: u64| k != id ==> final(self).contains_spec(k) == old(self).contains_spec(k),
            forall|k: u64| k != id ==> final(self).get_spec(k) == old(self).get_spec(k),
    {
        match self.find(id) {
            Some(i) => {
                let ghost pre = self.contexts@;
                self.contexts.remove(i);
                proof {
                    self.lemma_remove_preserves(pre, i as int, id);
                }
            },
            None => {},
        }
    }

    proof fn lemma_remove_preserves(self, pre: Seq<RenderContext>, at: int, id: u64)
        requires
            0 <= at < pre.len(),
            self.contexts@ =~= pre.remove(at),
            pre[at].window_id == id,
            forall|i: int, j: int|
                0 <= i < j < pre.len() ==> pre[i].window_id != pre[j].window_id,
        ensures
            self.wf(),
            !self.contains_spec(id),
            forall|k: u64|
                k != id ==> self.contains_spec(k) == (exists|i: int|
                    0 <= i < pre.len() && (#[trigger] pre[i]).window_id == k),
            forall|k: u64|
                k != id && self.contains_spec(k) ==> self.get_spec(k) == Some(
                    pre[
                        choose|i: int|
                            0 <= i < pre.len() && (#[trigger] pre[i]).window_id == k
                    ],
                ),
    {
        let post = self.contexts@;
        assert(post.len() == pre.len() - 1);
        assert forall|i: int| 0 <= i < post.len() implies post[i] == pre[
            if i < at {
                i
            } else {
                i + 1
            }
        ] by {}
        assert forall|i: int, j: int| 0 <= i < j < post.len() implies post[i].window_id
            != post[j].window_id by {
            let pi: int = if i < at { i } else { i + 1 };
            let pj: int = if j < at { j } else { j + 1 };
            assert(pre[pi].window_id != pre[pj].window_id);
        }
        if self.contains_spec(id) {
            let i = choose|i: int|
                0 <= i < post.len() && (#[trigger] post[i]).window_id == id;
            let pi: int = if i < at { i } else { i + 1 };
            assert(pre[pi].window_id == id);
            assert(pre[at].window_id == id);
            assert(false);
        }
        assert forall|k: u64| k != id implies self.contains_spec(k) == (exists|i: int|
            0 <= i < pre.len() && (#[trigger] pre[i]).window_id == k) by {
            if self.contains_spec(k) {
                let i = choose|i: int|
                    0 <= i < post.len() && (#[trigger] post[i]).window_id == k;
                let pi: int = if i < at { i } else { i + 1 };
                assert(pre[pi].window_id == k);
            }
            if exists|i: int| 0 <= i < pre.len() && (#[trigger] pre[i]).window_id == k {
                let i = choose|i: int| 0 <= i < pre.len() && (#[trigger] pre[i]).window_id == k;
                assert(i != at);
                let qi: int = if i < at { i } else { i - 1 };
                assert(post[qi].window_id == k);
                assert(self.contains_spec(k));
            }
        }
        assert forall|k: u64| k != id && self.contains_spec(k) implies self.get_spec(k) == Some(
            pre[
                choose|i: int|
                    0 <= i < pre.len() && (#[trigger] pre[i]).window_id == k
            ],
        ) by {
            let i = choose|i: int|
                0 <= i < post.len() && (#[trigger] post[i]).window_id == k;
            self.lemma_get_by_index(i);
            let pi: int = if i < at { i } else { i + 1 };
            assert(pre[pi].window_id == k);
            let j = choose|i: int| 0 <= i < pre.len() && (#[trigger] pre[i]).window_id == k;
            assert(j == pi);
            assert(post[i] == pre[pi]);
        }
    }
}

} // verus!
