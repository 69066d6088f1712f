//! The session pool: a capacity-bounded registry of browser instances keyed by
//! session id, with an admission counter that is taken before a launch starts.

use vstd::prelude::*;
use vstd::std_specs::hash::spec_hash_map_iter;
use vstd::std_specs::iter::IteratorSpec;
use std::collections::HashMap;
use crate::launch::LaunchError;
use crate::session_id::random_session_id;

verus! {

broadcast use vstd::std_specs::hash::group_hash_axioms;

/// One live browser: the DevTools endpoint it exposes and the handle that owns it.
pub struct Instance<H> {
    pub debugger_url: String,
    pub handle: H,
}

/// Why an allocation did not produce a session.
#[derive(Debug)]
pub enum PoolError {
    /// No slot is free.
    AtCapacity,
    /// The launched browser reports an endpoint that a live session already uses.
    EndpointInUse,
    /// The drawn session id is already live.
    SessionIdTaken,
    /// The browser could not be created.
    Launch(LaunchError),
}

/// The pool as a value: its bound, free slots, launches in flight, and the
/// debugger URL of each live session.
pub ghost struct PoolView {
    pub capacity: nat,
    pub available: nat,
    pub pending: nat,
    pub urls: Map<u128, Seq<char>>,
}

impl PoolView {
    pub open spec fn live(self) -> nat {
        self.urls.len()
    }

    /// Slots are conserved, and no two live sessions share an endpoint.
    pub open spec fn wf(self) -> bool {
        &&& self.capacity > 0
        &&& self.urls.dom().finite()
        &&& self.live() + self.available + self.pending == self.capacity
        &&& self.urls.is_injective()
    }

    /// A slot taken for a launch about to start.
    pub open spec fn reserved(self) -> PoolView {
        PoolView { available: (self.available - 1) as nat, pending: self.pending + 1, ..self }
    }

    /// A launch that failed gives its slot back.
    pub open spec fn aborted(self) -> PoolView {
        PoolView { available: self.available + 1, pending: (self.pending - 1) as nat, ..self }
    }

    /// A launch that succeeded becomes the live session `id`.
    pub open spec fn committed(self, id: u128, url: Seq<char>) -> PoolView {
        PoolView { pending: (self.pending - 1) as nat, urls: self.urls.insert(id, url), ..self }
    }

    /// Ending session `id`, if it is live, frees its slot.
    pub open spec fn released(self, id: u128) -> PoolView {
        if self.urls.contains_key(id) {
            PoolView { available: self.available + 1, urls: self.urls.remove(id), ..self }
        } else {
            self
        }
    }

    /// Every live session ended at once.
    pub open spec fn drained(self) -> PoolView {
        PoolView { available: self.available + self.live(), urls: Map::empty(), ..self }
    }
}

/// The capacity-bounded pool. `H` is the handle that owns one browser process;
/// the pool stores it and hands it back when the session ends.
pub struct SessionPool<H> {
    capacity: usize,
    available: usize,
    pending: usize,
    instances: HashMap<u128, Instance<H>>,
}

impl<H> View for SessionPool<H> {
    type V = PoolView;

    closed spec fn view(&self) -> PoolView {
        PoolView {
            capacity: self.capacity as nat,
            available: self.available as nat,
            pending: self.pending as nat,
            urls: self.instances@.map_values(|i: Instance<H>| i.debugger_url@),
        }
    }
}

impl<H> SessionPool<H> {
    pub open spec fn wf(&self) -> bool {
        self@.wf()
    }

    /// The handle stored for live session `id`.
    pub closed spec fn handle_of(&self, id: u128) -> H {
        self.instances@[id].handle
    }

    /// `other` holds the same handle as `self` for every live session of `self`
    /// but `except`.
    pub open spec fn same_handles_except(&self, other: &Self, except: Option<u128>) -> bool {
        forall|k: u128|
            #[trigger] self@.urls.contains_key(k) && Some(k) != except ==> other.handle_of(k)
                == self.handle_of(k)
    }

    proof fn lemma_view_len(&self)
        ensures
            self@.urls.dom() == self.instances@.dom(),
            self@.urls.len() == self.instances@.len(),
    {
        assert(self@.urls.dom() =~= self.instances@.dom());
    }

    /// An empty pool of `capacity` slots, all free.
    pub fn new(capacity: usize) -> (r: Self)
        requires
            capacity > 0,
        ensures
            r.wf(),
            r@ == (PoolView {
                capacity: capacity as nat,
                available: capacity as nat,
                pending: 0,
                urls: Map::empty(),
            }),
    {
        let r = SessionPool { capacity, available: capacity, pending: 0, instances: HashMap::new() };
        assert(r@.urls =~= Map::empty());
        r
    }

    pub fn capacity(&self) -> (r: usize)
        ensures
            r == self@.capacity,
    {
        self.capacity
    }

    /// Free slots: the figure that capacity observers are sent.
    pub fn available(&self) -> (r: usize)
        ensures
            r == self@.available,
    {
        self.available
    }

    /// Launches that hold a slot and have not yet been committed or aborted.
    pub fn pending(&self) -> (r: usize)
        ensures
            r == self@.pending,
    {
        self.pending
    }

    /// Number of live sessions.
    pub fn live_count(&self) -> (r: usize)
        requires
            self.wf(),
        ensures
            r == self@.live(),
    {
        proof { self.lemma_view_len(); }
        self.instances.len()
    }

    /// Takes the admission token for one launch: fails with `AtCapacity` when no
    /// slot is free, and otherwise moves one free slot to the in-flight count.
    pub fn reserve(&mut self) -> (r: Result<(), PoolError>)
        requires
            old(self).wf(),
        ensures
            final(self).wf(),
            old(self)@.available == 0 ==> r == Err::<(), PoolError>(PoolError::AtCapacity)
                && final(self)@ == old(self)@,
            old(self)@.available > 0 ==> r is Ok && final(self)@ == old(self)@.reserved(),
            old(self).same_handles_except(final(self), None),
    {
        if self.available == 0 {
            Err(PoolError::AtCapacity)
        } else {
            self.available = self.available - 1;
            self.pending = self.pending + 1;
            Ok(())
        }
    }

    /// Gives back the slot of a launch that failed.
    pub fn abort(&mut self)
        requires
            old(self).wf(),
            old(self)@.pending > 0,
        ensures
            final(self).wf(),
            final(self)@ == old(self)@.aborted(),
            old(self).same_handles_except(final(self), None),
    {
        self.pending = self.pending - 1;
        self.available = self.available + 1;
    }

    /// Whether a live session already uses the endpoint `url`.
    fn url_in_use(&self, url: &String) -> (r: bool)
        ensures
            r == self@.urls.contains_value(url@),
    {
        let mut found = false;
        let ghost v = spec_hash_map_iter(&self.instances).remaining();
        let ghost mut seen: int = 0;
        for entry in it: self.instances.iter()
            invariant
                it.seq() == v,
                seen == it.index(),
                found == exists|j: int| 0 <= j < seen && (*v[j].1).debugger_url@ == url@,
        {
            if entry.1.debugger_url == *url {
                found = true;
            }
            proof { seen = seen + 1; }
        }
        proof {
            assert(seen == v.len());
            if found {
                let j = choose|j: int| 0 <= j < seen && (*v[j].1).debugger_url@ == url@;
                let k = *v[j].0;
                assert(self.instances@.contains_key(k) && self.instances@[k] == *v[j].1);
                assert(self@.urls.dom().contains(k) && self@.urls[k] == url@);
            } else {
                assert forall|k: u128| #[trigger] self@.urls.dom().contains(k) implies self@.urls[k]
                    != url@ by {
                    assert(self.instances@.contains_key(k));
                    assert(v.contains((&k, &self.instances@[k])));
                    let j = choose|j: int| 0 <= j < v.len() && v[j] == (&k, &self.instances@[k]);
                    assert((*v[j].1).debugger_url@ != url@);
                }
            }
        }
        found
    }

    /// Enrolls a launched browser under session `id`, in a reserved slot. An
    /// endpoint that a live session already uses is refused first, then an id
    /// that is already live; a refused browser's slot is given back and its
    /// handle returned with the error.
    pub fn enroll(&mut self, id: u128, debugger_url: String, handle: H) -> (r: Result<
        u128,
        (PoolError, H),
    >)
        requires
            old(self).wf(),
            old(self)@.pending > 0,
        ensures
            final(self).wf(),
            old(self).same_handles_except(final(self), None),
            old(self)@.urls.contains_value(debugger_url@) ==> r == Err::<u128, (PoolError, H)>(
                (PoolError::EndpointInUse, handle),
            ) && final(self)@ == old(self)@.aborted(),
            !old(self)@.urls.contains_value(debugger_url@) && old(self)@.urls.contains_key(id)
                ==> r == Err::<u128, (PoolError, H)>((PoolError::SessionIdTaken, handle))
                && final(self)@ == old(self)@.aborted(),
            !old(self)@.urls.contains_value(debugger_url@) && !old(self)@.urls.contains_key(id)
                ==> r == Ok::<u128, (PoolError, H)>(id)
                && final(self)@ == old(self)@.committed(id, debugger_url@)
                && final(self).handle_of(id) == handle,
    {
        if self.url_in_use(&debugger_url) {
            self.abort();
            return Err((PoolError::EndpointInUse, handle));
        }
        if self.instances.contains_key(&id) {
            proof { self.lemma_view_len(); }
            self.abort();
            return Err((PoolError::SessionIdTaken, handle));
        }
        let ghost pre = self@;
        let ghost old_instances = self.instances@;
        proof { self.lemma_view_len(); }
        let ghost url = debugger_url@;
        self.instances.insert(id, Instance { debugger_url, handle });
        self.pending = self.pending - 1;
        proof {
            self.lemma_view_len();
            assert(self@.urls =~= pre.urls.insert(id, url));
            assert(self@ == pre.committed(id, url));
            assert forall|x: u128, y: u128|
                x != y && self@.urls.dom().contains(x) && self@.urls.dom().contains(y) implies
                #[trigger] self@.urls[x] != #[trigger] self@.urls[y] by {
                if x != id && y != id {
                    assert(pre.urls[x] != pre.urls[y]);
                } else if x == id {
                    assert(pre.urls.dom().contains(y));
                } else {
                    assert(pre.urls.dom().contains(x));
                }
            }
            assert forall|k: u128| #[trigger] pre.urls.contains_key(k) implies self.instances@[k].handle
                == old_instances[k].handle by {
                assert(k != id);
            }
        }
        Ok(id)
    }

    /// Turns a reserved slot into the live session of a launched browser, under
    /// a session id drawn at random, as `enroll` says. With no live session the
    /// drawn id cannot be taken, so a fresh endpoint is then always admitted.
    pub fn commit(&mut self, debugger_url: String, handle: H) -> (r: Result<u128, (PoolError, H)>)
        requires
            old(self).wf(),
            old(self)@.pending > 0,
        ensures
            final(self).wf(),
            old(self).same_handles_except(final(self), None),
            old(self)@.urls.len() == 0 ==> r is Ok,
            match r {
                Ok(id) => {
                    &&& !old(self)@.urls.contains_key(id)
                    &&& !old(self)@.urls.contains_value(debugger_url@)
                    &&& final(self)@ == old(self)@.committed(id, debugger_url@)
                    &&& final(self).handle_of(id) == handle
                },
                Err((e, h)) => {
                    &&& h == handle
                    &&& final(self)@ == old(self)@.aborted()
                    &&& (e == PoolError::EndpointInUse <==> old(self)@.urls.contains_value(
                        debugger_url@,
                    ))
                    &&& (e == PoolError::EndpointInUse || e == PoolError::SessionIdTaken)
                },
            },
    {
        proof {
            if self@.urls.len() == 0 {
                self@.urls.dom().lemma_len0_is_empty();
                assert(!self@.urls.contains_value(debugger_url@));
            }
        }
        let id = random_session_id();
        self.enroll(id, debugger_url, handle)
    }

    /// Settles a reserved slot with the outcome of its launch: a launched browser
    /// (its debugger URL and handle) is committed as `commit` says; a failed
    /// launch gives the slot back. On error, the handle of a browser that was
    /// launched but not admitted is handed back for shutdown.
    pub fn finish_launch(&mut self, outcome: Result<(String, H), LaunchError>) -> (r: Result<
        u128,
        (PoolError, Option<H>),
    >)
        requires
            old(self).wf(),
            old(self)@.pending > 0,
        ensures
            final(self).wf(),
            old(self).same_handles_except(final(self), None),
            outcome is Ok && old(self)@.urls.len() == 0 ==> r is Ok,
            match outcome {
                Err(le) => r == Err::<u128, (PoolError, Option<H>)>((PoolError::Launch(le), None))
                    && final(self)@ == old(self)@.aborted(),
                Ok((url, h)) => match r {
                    Ok(id) => {
                        &&& !old(self)@.urls.contains_key(id)
                        &&& !old(self)@.urls.contains_value(url@)
                        &&& final(self)@ == old(self)@.committed(id, url@)
                        &&& final(self).handle_of(id) == h
                    },
                    Err((e, back)) => {
                        &&& back == Some(h)
                        &&& final(self)@ == old(self)@.aborted()
                        &&& (e == PoolError::EndpointInUse <==> old(self)@.urls.contains_value(
                            url@,
                        ))
                        &&& (e == PoolError::EndpointInUse || e == PoolError::SessionIdTaken)
                    },
                },
            },
    {
        match outcome {
            Err(le) => {
                self.abort();
                Err((PoolError::Launch(le), None))
            },
            Ok((url, h)) => match self.commit(url, h) {
                Ok(id) => Ok(id),
                Err((e, back)) => Err((e, Some(back))),
            },
        }
    }

    /// Ends session `id`: removes it, frees its slot, and hands back the handle
    /// stored for it, for shutdown. Ending an id that is not live changes nothing.
    pub fn release(&mut self, id: u128) -> (r: Option<H>)
        requires
            old(self).wf(),
        ensures
            final(self).wf(),
            final(self)@ == old(self)@.released(id),
            old(self).same_handles_except(final(self), Some(id)),
            match r {
                Some(h) => old(self)@.urls.contains_key(id) && h == old(self).handle_of(id),
                None => !old(self)@.urls.contains_key(id),
            },
    {
        let ghost pre = self@;
        let ghost old_instances = self.instances@;
        proof { self.lemma_view_len(); }
        match self.instances.remove(&id) {
            Some(inst) => {
                proof {
                    self.lemma_view_len();
                    assert(self@.urls =~= pre.urls.remove(id));
                    pre.urls.lemma_remove_key_len(id);
                }
                self.available = self.available + 1;
                proof {
                    assert(self@ == pre.released(id));
                    assert forall|k: u128| #[trigger] pre.urls.contains_key(k) && Some(k) != Some(
                        id,
                    ) implies self.instances@[k].handle == old_instances[k].handle by {
                        assert(k != id);
                    }
                }
                Some(inst.handle)
            },
            None => {
                proof {
                    assert(self@.urls =~= pre.urls);
                }
                None
            },
        }
    }

    /// The debugger URL of session `id`, if it is live.
    pub fn lookup_debugger_url(&self, id: u128) -> (r: Option<String>)
        ensures
            match r {
                Some(u) => self@.urls.contains_key(id) && u@ == self@.urls[id],
                None => !self@.urls.contains_key(id),
            },
    {
        match self.instances.get(&id) {
            Some(inst) => Some(inst.debugger_url.clone()),
            None => None,
        }
    }

    /// Ends every live session at once, freeing their slots, and hands back the
    /// stored instances for shutdown.
    pub fn take_all(&mut self) -> (r: HashMap<u128, Instance<H>>)
        requires
            old(self).wf(),
        ensures
            final(self).wf(),
            final(self)@ == old(self)@.drained(),
            r@.dom() == old(self)@.urls.dom(),
            forall|k: u128| #[trigger]
                r@.contains_key(k) ==> r@[k].debugger_url@ == old(self)@.urls[k] && r@[k].handle
                    == old(self).handle_of(k),
    {
        let ghost pre = self@;
        proof { self.lemma_view_len(); }
        let mut taken: HashMap<u128, Instance<H>> = HashMap::new();
        std::mem::swap(&mut taken, &mut self.instances);
        let n = taken.len();
        self.available = self.available + n;
        proof {
            assert(self@.urls =~= Map::empty());
            assert(self@ == pre.drained());
        }
        taken
    }
}

/// Every step that the pool takes keeps it well formed: reserving when a slot is
/// free, aborting or committing a launch in flight (with a fresh id and endpoint),
/// releasing any id, and draining.
pub proof fn lemma_steps_keep_wf(v: PoolView, id: u128, url: Seq<char>)
    requires
        v.wf(),
    ensures
        v.available > 0 ==> v.reserved().wf(),
        v.pending > 0 ==> v.aborted().wf(),
        v.pending > 0 && !v.urls.contains_key(id) && !v.urls.contains_value(url) ==> v.committed(
            id,
            url,
        ).wf(),
        v.released(id).wf(),
        v.drained().wf(),
{
    if v.pending > 0 && !v.urls.contains_key(id) && !v.urls.contains_value(url) {
        let c = v.committed(id, url);
        assert forall|x: u128, y: u128|
            x != y && c.urls.dom().contains(x) && c.urls.dom().contains(y) implies #[trigger] c.urls[x]
            != #[trigger] c.urls[y] by {
            if x != id && y != id {
                assert(v.urls[x] != v.urls[y]);
            } else if x == id {
                assert(v.urls.dom().contains(y));
            } else {
                assert(v.urls.dom().contains(x));
            }
        }
    }
    if v.urls.contains_key(id) {
        v.urls.lemma_remove_key_len(id);
    }
    assert(v.drained().urls.dom() =~= Set::empty());
}

/// Capacity bound: live sessions never exceed the bound, and with no launch in
/// flight the free slots and the live sessions add up to it exactly.
pub proof fn lemma_capacity_bound(v: PoolView)
    requires
        v.wf(),
    ensures
        v.live() <= v.capacity,
        v.available + v.live() + v.pending == v.capacity,
        v.pending == 0 ==> v.available + v.live() == v.capacity,
{
}

/// One step of the pool, as the methods of `SessionPool` take them.
pub ghost enum PoolStep {
    Reserve,
    Abort,
    Commit(u128, Seq<char>),
    Release(u128),
    Drain,
}

/// Whether `s` can be taken from `v`: a reservation needs a free slot; an abort
/// or a commit needs a launch in flight, and a commit a fresh id and endpoint.
pub open spec fn step_enabled(v: PoolView, s: PoolStep) -> bool {
    match s {
        PoolStep::Reserve => v.available > 0,
        PoolStep::Abort => v.pending > 0,
        PoolStep::Commit(id, url) => v.pending > 0 && !v.urls.contains_key(id)
            && !v.urls.contains_value(url),
        PoolStep::Release(_) => true,
        PoolStep::Drain => true,
    }
}

pub open spec fn apply_step(v: PoolView, s: PoolStep) -> PoolView {
    match s {
        PoolStep::Reserve => v.reserved(),
        PoolStep::Abort => v.aborted(),
        PoolStep::Commit(id, url) => v.committed(id, url),
        PoolStep::Release(id) => v.released(id),
        PoolStep::Drain => v.drained(),
    }
}

/// The pool after the steps `steps` taken in order from `v`, if each was enabled.
pub open spec fn run_steps(v: PoolView, steps: Seq<PoolStep>) -> Option<PoolView>
    decreases steps.len(),
{
    if steps.len() == 0 {
        Some(v)
    } else {
        match run_steps(v, steps.drop_last()) {
            Some(w) => if step_enabled(w, steps.last()) {
                Some(apply_step(w, steps.last()))
            } else {
                None
            },
            None => None,
        }
    }
}

/// Capacity bound over any interleaving: whatever sequence of allocations,
/// failed launches, releases and drains the pool goes through from a well-formed
/// state, it stays well formed, never holds more live sessions than its bound,
/// and free, in-flight and live slots always add up to the bound.
pub proof fn lemma_capacity_bound_on_every_run(v: PoolView, steps: Seq<PoolStep>)
    requires
        v.wf(),
        run_steps(v, steps) is Some,
    ensures
        run_steps(v, steps)->Some_0.wf(),
        run_steps(v, steps)->Some_0.live() <= v.capacity,
        run_steps(v, steps)->Some_0.available + run_steps(v, steps)->Some_0.live()
            + run_steps(v, steps)->Some_0.pending == v.capacity,
    decreases steps.len(),
{
    if steps.len() > 0 {
        lemma_capacity_bound_on_every_run(v, steps.drop_last());
        let w = run_steps(v, steps.drop_last())->Some_0;
        match steps.last() {
            PoolStep::Commit(id, url) => lemma_steps_keep_wf(w, id, url),
            PoolStep::Release(id) => lemma_steps_keep_wf(w, id, Seq::empty()),
            _ => lemma_steps_keep_wf(w, 0, Seq::empty()),
        }
    }
}

/// No leaks on failure: an allocation that takes a slot and then fails leaves
/// the pool as it was; one refused at capacity never took a slot.
pub proof fn lemma_failed_allocation_restores(v: PoolView)
    requires
        v.wf(),
        v.available > 0,
    ensures
        v.reserved().aborted() == v,
{
}

/// Releasing the same id twice leaves the pool as releasing it once.
pub proof fn lemma_release_idempotent(v: PoolView, id: u128)
    ensures
        v.released(id).released(id) == v.released(id),
{
}

/// Two distinct live sessions never share a debugger URL.
pub proof fn lemma_unique_debugger_urls(v: PoolView, a: u128, b: u128)
    requires
        v.wf(),
        a != b,
        v.urls.contains_key(a),
        v.urls.contains_key(b),
    ensures
        v.urls[a] != v.urls[b],
{
}

/// An allocation that succeeds lowers the free-slot count by exactly one; a
/// release of a live session raises it by exactly one.
pub proof fn lemma_capacity_moves_by_one(v: PoolView, id: u128, url: Seq<char>)
    requires
        v.wf(),
    ensures
        v.available > 0 ==> v.reserved().committed(id, url).available == v.available - 1,
        v.urls.contains_key(id) ==> v.released(id).available == v.available + 1,
{
}

} // verus!
