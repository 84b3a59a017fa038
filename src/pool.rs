use vstd::prelude::*;

verus! {

/// Seconds between two rebuilds of the pool by the background refresh task.
pub const REFRESH_INTERVAL_SECS: u64 = 300;

/// Seconds to wait between two liveness probes while the store is not up at start.
pub const HEALTH_RETRY_SECS: u64 = 2;

/// The single slot that holds the process's pool handle, or nothing before the
/// first successful build. A handle is only ever replaced, never taken out.
pub struct PoolSlot<H> {
    handle: Option<H>,
}

/// Something that happens to the slot.
pub enum SlotEvent<H> {
    /// `ensure_ready` built a handle: it is installed only if the slot is empty.
    EnsureReady(H),
    /// The refresh task built a handle: it replaces whatever the slot holds.
    Refresh(H),
}

pub open spec fn slot_step<H>(slot: Option<H>, e: SlotEvent<H>) -> Option<H> {
    match e {
        SlotEvent::EnsureReady(h) => if slot is None {
            Some(h)
        } else {
            slot
        },
        SlotEvent::Refresh(h) => Some(h),
    }
}

/// The slot after a sequence of events, in order.
pub open spec fn slot_run<H>(slot: Option<H>, events: Seq<SlotEvent<H>>) -> Option<H>
    decreases events.len(),
{
    if events.len() == 0 {
        slot
    } else {
        slot_step(slot_run(slot, events.drop_last()), events.last())
    }
}

impl<H> View for PoolSlot<H> {
    type V = Option<H>;

    closed spec fn view(&self) -> Option<H> {
        self.handle
    }
}

impl<H> PoolSlot<H> {
    /// An empty slot.
    pub fn new() -> (r: PoolSlot<H>)
        ensures
            r@ is None,
    {
        PoolSlot { handle: None }
    }

    /// Whether a handle is installed.
    pub fn is_ready(&self) -> (r: bool)
        ensures
            r == (self@ is Some),
    {
        self.handle.is_some()
    }

    /// Whether `ensure_ready` has to build a handle: only when the slot is empty.
    pub fn needs_build(&self) -> (r: bool)
        ensures
            r == (self@ is None),
    {
        self.handle.is_none()
    }

    /// The installed handle, if any.
    pub fn current(&self) -> (r: Option<&H>)
        ensures
            r == match self@ {
                Some(h) => Some(&h),
                None => None::<&H>,
            },
    {
        match &self.handle {
            Some(h) => Some(h),
            None => None,
        }
    }

    /// Installs a freshly built handle if the slot is still empty (another caller
    /// may have installed one meanwhile); returns whether it was installed.
    pub fn install_if_absent(&mut self, built: H) -> (installed: bool)
        ensures
            final(self)@ == slot_step(old(self)@, SlotEvent::EnsureReady(built)),
            installed == (old(self)@ is None),
    {
        if self.handle.is_none() {
            self.handle = Some(built);
            true
        } else {
            false
        }
    }

    /// Swaps a freshly built handle into the slot and hands back the one it
    /// replaces, which the caller discards.
    pub fn replace(&mut self, built: H) -> (previous: Option<H>)
        ensures
            final(self)@ == slot_step(old(self)@, SlotEvent::Refresh(built)),
            previous == old(self)@,
    {
        let previous = self.handle.take();
        self.handle = Some(built);
        previous
    }
}

proof fn lemma_stays_filled<H>(start: Option<H>, events: Seq<SlotEvent<H>>)
    requires
        start is Some,
    ensures
        slot_run(start, events) is Some,
    decreases events.len(),
{
    if events.len() > 0 {
        lemma_stays_filled(start, events.drop_last());
    }
}

proof fn lemma_run_concat<H>(start: Option<H>, a: Seq<SlotEvent<H>>, b: Seq<SlotEvent<H>>)
    ensures
        slot_run(start, a + b) == slot_run(slot_run(start, a), b),
    decreases b.len(),
{
    if b.len() == 0 {
        assert(a + b =~= a);
    } else {
        assert((a + b).drop_last() =~= a + b.drop_last());
        lemma_run_concat(start, a, b.drop_last());
    }
}

/// Once an ensure-ready has completed, the slot holds a handle whatever
/// ensure-ready and refresh events follow: nobody sees it empty again.
pub proof fn lemma_slot_never_empties<H>(
    start: Option<H>,
    before: Seq<SlotEvent<H>>,
    built: H,
    after: Seq<SlotEvent<H>>,
)
    ensures
        slot_run(start, before.push(SlotEvent::EnsureReady(built)) + after) is Some,
{
    let first = before.push(SlotEvent::EnsureReady(built));
    assert(first.drop_last() =~= before);
    lemma_run_concat(start, first, after);
    lemma_stays_filled(slot_run(start, first), after);
}

/// After a refresh, the slot holds exactly the handle that refresh built (the
/// earlier ones being discarded) for as long as only ensure-ready events follow.
pub proof fn lemma_refresh_installs_latest<H>(
    start: Option<H>,
    before: Seq<SlotEvent<H>>,
    h: H,
    after: Seq<SlotEvent<H>>,
)
    requires
        forall|i: int| 0 <= i < after.len() ==> #[trigger] after[i] is EnsureReady,
    ensures
        slot_run(start, before.push(SlotEvent::Refresh(h)) + after) == Some(h),
    decreases after.len(),
{
    let base = before.push(SlotEvent::Refresh(h));
    if after.len() == 0 {
        assert(base + after =~= base);
        assert(base.drop_last() =~= before);
    } else {
        let all = base + after;
        assert(all.drop_last() =~= base + after.drop_last());
        assert forall|i: int| 0 <= i < after.drop_last().len() implies #[trigger] after.drop_last()[i] is EnsureReady by {
            assert(after[i] is EnsureReady);
        }
        lemma_refresh_installs_latest(start, before, h, after.drop_last());
        assert(after[after.len() - 1] is EnsureReady);
    }
}

} // verus!
