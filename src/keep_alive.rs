use vstd::prelude::*;

verus! {

/// The count of live hosts that brackets the engine's global
/// initialisation: the engine is initialised when the count leaves zero and
/// torn down when it returns to zero.
///
/// One value of this type is shared by the whole process, behind a lock.
#[derive(Debug)]
pub struct EnetKeepAlive {
    live: u64,
}

impl View for EnetKeepAlive {
    type V = nat;

    closed spec fn view(&self) -> nat {
        self.live as nat
    }
}

/// The number of live hosts after one host creation (`true`) or
/// destruction (`false`).
pub open spec fn after_event(live: int, creation: bool) -> int {
    if creation {
        live + 1
    } else {
        live - 1
    }
}

/// The number of live hosts after a history of host creations (`true`) and
/// destructions (`false`), starting from `start`.
pub open spec fn live_after(start: int, history: Seq<bool>) -> int
    decreases history.len(),
{
    if history.len() == 0 {
        start
    } else {
        after_event(live_after(start, history.drop_last()), history.last())
    }
}

/// How many hosts a history creates.
pub open spec fn created(history: Seq<bool>) -> int
    decreases history.len(),
{
    if history.len() == 0 {
        0
    } else {
        created(history.drop_last()) + if history.last() {
            1int
        } else {
            0int
        }
    }
}

/// How many hosts a history destroys.
pub open spec fn destroyed(history: Seq<bool>) -> int
    decreases history.len(),
{
    if history.len() == 0 {
        0
    } else {
        destroyed(history.drop_last()) + if history.last() {
            0int
        } else {
            1int
        }
    }
}

/// Each host destruction lowers the count by exactly one, and once every
/// host that was created has been destroyed the count is back at zero.
pub proof fn lemma_live_hosts_balance(history: Seq<bool>)
    ensures
        live_after(0, history.push(false)) == after_event(live_after(0, history), false),
        live_after(0, history.push(false)) == live_after(0, history) - 1,
        live_after(0, history) == created(history) - destroyed(history),
        created(history) == destroyed(history) ==> live_after(0, history) == 0,
    decreases history.len(),
{
    assert(history.push(false).drop_last() =~= history);
    if history.len() > 0 {
        lemma_live_hosts_balance(history.drop_last());
    }
}

impl EnetKeepAlive {
    /// A count with no live host; the engine is not initialised.
    pub fn new() -> (r: EnetKeepAlive)
        ensures
            r@ == 0,
    {
        EnetKeepAlive { live: 0 }
    }

    /// The number of live hosts.
    pub fn live_hosts(&self) -> (r: u64)
        ensures
            r == self@,
    {
        self.live
    }

    /// Records the creation of a host. Returns whether it is the first live
    /// host, so that the engine must be initialised now.
    pub fn acquire(&mut self) -> (initialize: bool)
        requires
            old(self)@ < u64::MAX,
        ensures
            final(self)@ == after_event(old(self)@ as int, true),
            initialize == (old(self)@ == 0),
    {
        let first = self.live == 0;
        self.live = self.live + 1;
        first
    }

    /// Records the destruction of a host. Returns whether it was the last
    /// live host, so that the engine must be torn down now.
    pub fn release(&mut self) -> (deinitialize: bool)
        requires
            old(self)@ > 0,
        ensures
            final(self)@ == after_event(old(self)@ as int, false),
            deinitialize == (final(self)@ == 0),
    {
        self.live = self.live - 1;
        self.live == 0
    }
}

} // verus!
