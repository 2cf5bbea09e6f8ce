//! The process-wide cache of reusable render contexts.
//!
//! A render context is the engine's stateful, non-thread-safe object, bound
//! to one template and reused by every render of that template. The cache
//! keeps one context per template identifier behind an explicit per-template
//! exclusive-access mark: a render must acquire the mark, holds it for the
//! whole render call, and releases it afterwards — so renders of the same
//! template never overlap, while renders of distinct templates never block
//! one another. A failed render releases the mark and leaves the context
//! installed and reusable; nothing is poisoned.

use vstd::prelude::*;

use crate::engine::{new_render_context, render_in_context};
use crate::errors::RenderError;

verus! {

struct ContextSlot {
    key: String,
    busy: bool,
    context: papermake::PapermakeWorld,
}

/// Maps each installed template identifier to whether its context is
/// currently held by a render call.
pub struct RenderContextCache {
    slots: Vec<ContextSlot>,
}

spec fn ctx_map(s: Seq<ContextSlot>) -> Map<Seq<char>, bool>
    decreases s.len(),
{
    if s.len() == 0 {
        Map::empty()
    } else {
        ctx_map(s.drop_last()).insert(s.last().key@, s.last().busy)
    }
}

spec fn ctx_keys_unique(s: Seq<ContextSlot>) -> bool {
    forall|i: int, j: int| 0 <= i < j < s.len() ==> s[i].key@ != s[j].key@
}

proof fn lemma_ctx_map_contains(s: Seq<ContextSlot>, k: Seq<char>)
    ensures
        ctx_map(s).dom().contains(k) <==> exists|i: int| 0 <= i < s.len() && s[i].key@ == k,
    decreases s.len(),
{
    if s.len() > 0 {
        lemma_ctx_map_contains(s.drop_last(), k);
        if ctx_map(s).dom().contains(k) {
            if s.last().key@ != k {
                let i = choose|i: int| 0 <= i < s.drop_last().len() && s.drop_last()[i].key@ == k;
                assert(s[i].key@ == k);
            }
        }
        if exists|i: int| 0 <= i < s.len() && s[i].key@ == k {
            let i = choose|i: int| 0 <= i < s.len() && s[i].key@ == k;
            if i < s.len() - 1 {
                assert(s.drop_last()[i].key@ == k);
            }
        }
    }
}

proof fn lemma_ctx_map_at(s: Seq<ContextSlot>, i: int)
    requires
        ctx_keys_unique(s),
        0 <= i < s.len(),
    ensures
        ctx_map(s).dom().contains(s[i].key@),
        ctx_map(s)[s[i].key@] == s[i].busy,
    decreases s.len(),
{
    if i < s.len() - 1 {
        assert(ctx_keys_unique(s.drop_last())) by {
            assert(forall|p: int, q: int|
                0 <= p < q < s.drop_last().len() ==> s.drop_last()[p].key@
                    != s.drop_last()[q].key@);
        }
        lemma_ctx_map_at(s.drop_last(), i);
        assert(s.drop_last()[i] == s[i]);
        assert(s[i].key@ != s.last().key@);
    }
}

proof fn lemma_ctx_map_update(s: Seq<ContextSlot>, i: int, slot: ContextSlot)
    requires
        ctx_keys_unique(s),
        0 <= i < s.len(),
        s[i].key@ == slot.key@,
    ensures
        ctx_map(s.update(i, slot)) == ctx_map(s).insert(slot.key@, slot.busy),
    decreases s.len(),
{
    let t = s.update(i, slot);
    if i == s.len() - 1 {
        assert(t.drop_last() =~= s.drop_last());
        assert(t.last() == slot);
        assert(ctx_map(t) =~= ctx_map(s).insert(slot.key@, slot.busy));
    } else {
        assert(ctx_keys_unique(s.drop_last())) by {
            assert(forall|p: int, q: int|
                0 <= p < q < s.drop_last().len() ==> s.drop_last()[p].key@
                    != s.drop_last()[q].key@);
        }
        lemma_ctx_map_update(s.drop_last(), i, slot);
        assert(t.drop_last() =~= s.drop_last().update(i, slot));
        assert(t.last() == s.last());
        assert(s[i].key@ != s.last().key@);
        assert(ctx_map(t) =~= ctx_map(s).insert(slot.key@, slot.busy));
    }
}

/// What acquiring a template's context led to.
pub enum AcquireOutcome {
    /// The context was free and is now held by the caller.
    Acquired,
    /// The context is held by another render call; nothing changed.
    Busy,
    /// No context is installed for the template; nothing changed.
    Unknown,
}

/// What rendering through the context cache led to.
pub enum RenderWithStep {
    /// The context was free; the render ran while holding it and produced
    /// this output. The context is free again.
    Rendered(Vec<u8>),
    /// The context was free; the render ran while holding it and failed. The
    /// context is free again and stays installed and reusable.
    RenderFailed(RenderError),
    /// No context is installed for the template: create one with `install`
    /// from fetched template source first.
    NeedContext,
    /// The context is held by another render call.
    Busy,
}

impl View for RenderContextCache {
    type V = Map<Seq<char>, bool>;

    closed spec fn view(&self) -> Map<Seq<char>, bool> {
        ctx_map(self.slots@)
    }
}

impl RenderContextCache {
    /// Each installed template has exactly one context.
    pub closed spec fn wf(&self) -> bool {
        ctx_keys_unique(self.slots@)
    }

    /// An empty cache, built once per process before any request is served.
    pub fn new() -> (c: RenderContextCache)
        ensures
            c.wf(),
            c@ == Map::<Seq<char>, bool>::empty(),
    {
        RenderContextCache { slots: Vec::new() }
    }

    /// Whether a context is installed for the template.
    pub fn is_installed(&self, template_id: &String) -> (r: bool)
        requires
            self.wf(),
        ensures
            r == self@.dom().contains(template_id@),
    {
        let n = self.slots.len();
        let mut i: usize = 0;
        while i < n
            invariant
                self.wf(),
                i <= n == self.slots@.len(),
                forall|j: int| 0 <= j < i ==> self.slots@[j].key@ != template_id@,
            decreases n - i,
        {
            if string_eq(&self.slots[i].key, template_id) {
                proof {
                    lemma_ctx_map_at(self.slots@, i as int);
                }
                return true;
            }
            i = i + 1;
        }
        proof {
            lemma_ctx_map_contains(self.slots@, template_id@);
        }
        false
    }

    /// Builds and installs the context for a template, lazily, on the first
    /// render of that template. The new context starts free.
    pub fn install(&mut self, template_id: String, source: &String)
        requires
            old(self).wf(),
            !old(self)@.dom().contains(template_id@),
        ensures
            final(self).wf(),
            final(self)@ == old(self)@.insert(template_id@, false),
    {
        let context = new_render_context(source);
        proof {
            lemma_ctx_map_contains(self.slots@, template_id@);
        }
        let slot = ContextSlot { key: template_id, busy: false, context };
        proof {
            assert(self.slots@.push(slot).drop_last() =~= self.slots@);
        }
        self.slots.push(slot);
    }

    /// Tries to take exclusive hold of a template's context. Succeeds exactly
    /// when the context is installed and free; whether it succeeds depends on
    /// that template's own mark alone, never on any other template's.
    pub fn try_acquire(&mut self, template_id: &String) -> (r: AcquireOutcome)
        requires
            old(self).wf(),
        ensures
            final(self).wf(),
            match r {
                AcquireOutcome::Acquired => {
                    &&& old(self)@.dom().contains(template_id@)
                    &&& old(self)@[template_id@] == false
                    &&& final(self)@ == old(self)@.insert(template_id@, true)
                },
                AcquireOutcome::Busy => {
                    &&& old(self)@.dom().contains(template_id@)
                    &&& old(self)@[template_id@] == true
                    &&& final(self)@ == old(self)@
                },
                AcquireOutcome::Unknown => {
                    &&& !old(self)@.dom().contains(template_id@)
                    &&& final(self)@ == old(self)@
                },
            },
    {
        let n = self.slots.len();
        let mut i: usize = 0;
        while i < n
            invariant
                *self == *old(self),
                self.wf(),
                i <= n == self.slots@.len(),
                forall|j: int| 0 <= j < i ==> self.slots@[j].key@ != template_id@,
            decreases n - i,
        {
            if string_eq(&self.slots[i].key, template_id) {
                proof {
                    lemma_ctx_map_at(self.slots@, i as int);
                }
                let mut slot = self.slots.remove(i);
                if slot.busy {
                    proof {
                        assert(old(self).slots@.remove(i as int).insert(i as int, slot)
                            =~= old(self).slots@.update(i as int, slot));
                        lemma_ctx_map_update(old(self).slots@, i as int, slot);
                        assert(ctx_map(old(self).slots@).insert(slot.key@, slot.busy)
                            =~= ctx_map(old(self).slots@));
                    }
                    self.slots.insert(i, slot);
                    return AcquireOutcome::Busy;
                } else {
                    slot.busy = true;
                    proof {
                        assert(old(self).slots@.remove(i as int).insert(i as int, slot)
                            =~= old(self).slots@.update(i as int, slot));
                        lemma_ctx_map_update(old(self).slots@, i as int, slot);
                    }
                    self.slots.insert(i, slot);
                    return AcquireOutcome::Acquired;
                }
            }
            i = i + 1;
        }
        proof {
            lemma_ctx_map_contains(self.slots@, template_id@);
        }
        AcquireOutcome::Unknown
    }

    /// Releases the hold on a template's context, leaving the context
    /// installed for the next render of that template.
    pub fn release(&mut self, template_id: &String)
        requires
            old(self).wf(),
            old(self)@.dom().contains(template_id@),
            old(self)@[template_id@] == true,
        ensures
            final(self).wf(),
            final(self)@ == old(self)@.insert(template_id@, false),
    {
        let n = self.slots.len();
        let mut i: usize = 0;
        while i < n
            invariant
                *self == *old(self),
                self.wf(),
                self@.dom().contains(template_id@),
                i <= n == self.slots@.len(),
                forall|j: int| 0 <= j < i ==> self.slots@[j].key@ != template_id@,
            decreases n - i,
        {
            if string_eq(&self.slots[i].key, template_id) {
                proof {
                    lemma_ctx_map_at(self.slots@, i as int);
                }
                let mut slot = self.slots.remove(i);
                slot.busy = false;
                proof {
                    assert(old(self).slots@.remove(i as int).insert(i as int, slot)
                        =~= old(self).slots@.update(i as int, slot));
                    lemma_ctx_map_update(old(self).slots@, i as int, slot);
                }
                self.slots.insert(i, slot);
                return ;
            }
            i = i + 1;
        }
        proof {
            lemma_ctx_map_contains(self.slots@, template_id@);
        }
    }

    /// Renders with a context the caller holds exclusively. The hold is kept
    /// throughout and still held on return; a failure leaves the context
    /// installed and reusable — it is not invalidated.
    pub fn render_acquired(&mut self, template_id: &String, data: &serde_json::Value) -> (r:
        Result<Vec<u8>, RenderError>)
        requires
            old(self).wf(),
            old(self)@.dom().contains(template_id@),
            old(self)@[template_id@] == true,
        ensures
            final(self).wf(),
            final(self)@ == old(self)@,
            r matches Err(e) ==> e is RenderingError,
    {
        let n = self.slots.len();
        let mut i: usize = 0;
        while i < n
            invariant
                *self == *old(self),
                self.wf(),
                self@.dom().contains(template_id@),
                i <= n == self.slots@.len(),
                forall|j: int| 0 <= j < i ==> self.slots@[j].key@ != template_id@,
            decreases n - i,
        {
            if string_eq(&self.slots[i].key, template_id) {
                proof {
                    lemma_ctx_map_at(self.slots@, i as int);
                }
                let mut slot = self.slots.remove(i);
                let outcome = render_in_context(&mut slot.context, data);
                proof {
                    assert(old(self).slots@.remove(i as int).insert(i as int, slot)
                        =~= old(self).slots@.update(i as int, slot));
                    lemma_ctx_map_update(old(self).slots@, i as int, slot);
                    assert(ctx_map(old(self).slots@).insert(slot.key@, slot.busy)
                        =~= ctx_map(old(self).slots@));
                }
                self.slots.insert(i, slot);
                return match outcome {
                    Ok(Some(bytes)) => Ok(bytes),
                    Ok(None) => Err(
                        RenderError::RenderingError("render produced no output".to_owned()),
                    ),
                    Err(message) => Err(RenderError::RenderingError(message)),
                };
            }
            i = i + 1;
        }
        proof {
            lemma_ctx_map_contains(self.slots@, template_id@);
        }
        Err(RenderError::RenderingError("context not installed".to_owned()))
    }

    /// Renders one job's data with the template's context: acquires the
    /// context's exclusive mark, renders while holding it, and releases it —
    /// success or failure. The cache's marks end exactly as they began, and
    /// the render runs only if the template's own context was free.
    pub fn render_with(&mut self, template_id: &String, data: &serde_json::Value) -> (r:
        RenderWithStep)
        requires
            old(self).wf(),
        ensures
            final(self).wf(),
            final(self)@ == old(self)@,
            match r {
                RenderWithStep::Rendered(_) => old(self)@.dom().contains(template_id@) && old(
                    self,
                )@[template_id@] == false,
                RenderWithStep::RenderFailed(e) => old(self)@.dom().contains(template_id@) && old(
                    self,
                )@[template_id@] == false && e is RenderingError,
                RenderWithStep::NeedContext => !old(self)@.dom().contains(template_id@),
                RenderWithStep::Busy => old(self)@.dom().contains(template_id@) && old(
                    self,
                )@[template_id@] == true,
            },
    {
        match self.try_acquire(template_id) {
            AcquireOutcome::Unknown => RenderWithStep::NeedContext,
            AcquireOutcome::Busy => RenderWithStep::Busy,
            AcquireOutcome::Acquired => {
                let outcome = self.render_acquired(template_id, data);
                self.release(template_id);
                proof {
                    assert(old(self)@.insert(template_id@, true).insert(template_id@, false)
                        =~= old(self)@);
                }
                match outcome {
                    Ok(bytes) => RenderWithStep::Rendered(bytes),
                    Err(e) => RenderWithStep::RenderFailed(e),
                }
            },
        }
    }
}

/// Whether two strings hold the same characters.
fn string_eq(a: &String, b: &String) -> (r: bool)
    ensures
        r == (a@ == b@),
{
    a.eq(b)
}

/// Law: holding one template's context excludes exactly that template and no
/// other. After a context for `t1` is acquired, `t1`'s mark is held — a
/// second render of `t1` is refused until release — while every other
/// template's installation and mark are exactly as they were, so renders of
/// distinct templates proceed independently.
pub proof fn lemma_context_exclusion(m: Map<Seq<char>, bool>, t1: Seq<char>, t2: Seq<char>)
    ensures
        m.insert(t1, true)[t1] == true,
        t1 != t2 ==> m.insert(t1, true).dom().contains(t2) == m.dom().contains(t2),
        t1 != t2 && m.dom().contains(t2) ==> m.insert(t1, true)[t2] == m[t2],
{
}

} // verus!
