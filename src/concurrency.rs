use vstd::prelude::*;

verus! {

/// A flow-control message for the pipeline upstream of the sink.
#[derive(Clone, Copy, Debug, PartialEq, Eq, Structural)]
pub enum Signal {
    /// Capacity is exhausted: upstream should pause.
    Trigger,
    /// Capacity is available again: upstream may resume.
    Restore,
}

/// The signal that stands at position `i` of a well-paired history.
pub open spec fn expected_signal(i: int) -> Signal {
    if i % 2 == 0 {
        Signal::Trigger
    } else {
        Signal::Restore
    }
}

/// A history of signals in which every `Trigger` is answered by one `Restore`
/// before the next `Trigger`.
pub open spec fn well_paired(s: Seq<Signal>) -> bool {
    forall|i: int| 0 <= i < s.len() ==> #[trigger] s[i] == expected_signal(i)
}

/// The right of one in-flight request to occupy the cap. It is neither
/// `Clone` nor `Copy`: giving it back to the cap consumes it.
pub struct Permit {
    id: Ghost<nat>,
    event_id: u64,
}

impl Permit {
    /// The cap's name for this permit.
    pub closed spec fn id(&self) -> nat {
        self.id@
    }

    /// The event this permit was issued for.
    pub closed spec fn event(&self) -> u64 {
        self.event_id
    }

    pub fn event_id(&self) -> (r: u64)
        ensures
            r == self.event(),
    {
        self.event_id
    }
}

/// A permit newly issued by the cap, with the signal that its admission
/// caused, if any.
pub struct Admission {
    pub permit: Permit,
    pub signal: Option<Signal>,
}

/// Bounded admission of in-flight requests. A limit of 0 disables the bound.
pub struct ConcurrencyCap {
    limit: u64,
    in_flight: u64,
    outstanding: Ghost<Set<nat>>,
    next_id: Ghost<nat>,
    signals: Ghost<Seq<Signal>>,
}

impl ConcurrencyCap {
    /// The configured bound; 0 means unbounded.
    pub closed spec fn limit(&self) -> nat {
        self.limit as nat
    }

    /// The permits that were issued and not yet given back.
    pub closed spec fn outstanding(&self) -> Set<nat> {
        self.outstanding@
    }

    /// Every signal this cap has emitted, oldest first.
    pub closed spec fn signals(&self) -> Seq<Signal> {
        self.signals@
    }

    /// Whether upstream currently stands paused by this cap.
    pub open spec fn paused(&self) -> bool {
        self.signals().len() % 2 == 1
    }

    /// Whether a permit can be issued now.
    pub open spec fn has_room(&self) -> bool {
        if self.limit() == 0 {
            self.outstanding().len() < u64::MAX
        } else {
            self.outstanding().len() < self.limit()
        }
    }

    pub closed spec fn wf(&self) -> bool {
        &&& self.outstanding@.finite()
        &&& self.in_flight as nat == self.outstanding@.len()
        &&& forall|i: nat| #[trigger] self.outstanding@.contains(i) ==> i < self.next_id@
        &&& self.limit > 0 ==> self.in_flight <= self.limit
        &&& well_paired(self.signals@)
        &&& (self.signals@.len() % 2 == 1) == (self.limit > 0 && self.in_flight == self.limit)
    }

    pub fn new(limit: u64) -> (r: Self)
        ensures
            r.wf(),
            r.limit() == limit,
            r.outstanding() == Set::<nat>::empty(),
            r.signals() == Seq::<Signal>::empty(),
    {
        ConcurrencyCap {
            limit,
            in_flight: 0,
            outstanding: Ghost(Set::empty()),
            next_id: Ghost(0),
            signals: Ghost(Seq::empty()),
        }
    }

    /// The number of permits outstanding.
    pub fn in_flight(&self) -> (r: u64)
        requires
            self.wf(),
        ensures
            r == self.outstanding().len(),
    {
        self.in_flight
    }

    pub fn has_capacity(&self) -> (r: bool)
        requires
            self.wf(),
        ensures
            r == self.has_room(),
    {
        if self.limit == 0 {
            self.in_flight < u64::MAX
        } else {
            self.in_flight < self.limit
        }
    }

    /// Issues a permit for `event_id` when there is room, emitting `Trigger`
    /// when this admission exhausts the capacity. Without room nothing changes.
    pub fn try_acquire(&mut self, event_id: u64) -> (r: Option<Admission>)
        requires
            old(self).wf(),
        ensures
            final(self).wf(),
            final(self).limit() == old(self).limit(),
            !old(self).has_room() ==> r is None && *final(self) == *old(self),
            old(self).has_room() ==> r is Some && {
                let a = r->Some_0;
                &&& a.permit.event() == event_id
                &&& !old(self).outstanding().contains(a.permit.id())
                &&& final(self).outstanding() == old(self).outstanding().insert(a.permit.id())
                &&& a.signal == (if old(self).limit() > 0 && old(self).outstanding().len() + 1
                    == old(self).limit() {
                    Some(Signal::Trigger)
                } else {
                    None::<Signal>
                })
                &&& final(self).signals() == (match a.signal {
                    Some(s) => old(self).signals().push(s),
                    None => old(self).signals(),
                })
            },
    {
        if !self.has_capacity() {
            return None;
        }
        let ghost id = self.next_id@;
        assert(!self.outstanding@.contains(id));
        self.outstanding = Ghost(self.outstanding@.insert(id));
        self.next_id = Ghost(id + 1);
        self.in_flight = self.in_flight + 1;
        let signal = if self.limit > 0 && self.in_flight == self.limit {
            let ghost prev = self.signals@;
            self.signals = Ghost(prev.push(Signal::Trigger));
            assert forall|i: int| 0 <= i < self.signals@.len() implies #[trigger] self.signals@[i]
                == expected_signal(i) by {
                if i < prev.len() {
                    assert(prev[i] == expected_signal(i));
                }
            }
            Some(Signal::Trigger)
        } else {
            None
        };
        Some(Admission { permit: Permit { id: Ghost(id), event_id }, signal })
    }

    /// Gives a permit back, emitting `Restore` when this frees capacity that
    /// had been exhausted.
    pub fn release(&mut self, permit: Permit) -> (r: Option<Signal>)
        requires
            old(self).wf(),
            old(self).outstanding().contains(permit.id()),
        ensures
            final(self).wf(),
            final(self).limit() == old(self).limit(),
            final(self).outstanding() == old(self).outstanding().remove(permit.id()),
            r == (if old(self).paused() {
                Some(Signal::Restore)
            } else {
                None::<Signal>
            }),
            final(self).signals() == (match r {
                Some(s) => old(self).signals().push(s),
                None => old(self).signals(),
            }),
    {
        let ghost id = permit.id@;
        self.outstanding = Ghost(self.outstanding@.remove(id));
        self.in_flight = self.in_flight - 1;
        if self.limit > 0 && self.in_flight + 1 == self.limit {
            let ghost prev = self.signals@;
            self.signals = Ghost(prev.push(Signal::Restore));
            assert forall|i: int| 0 <= i < self.signals@.len() implies #[trigger] self.signals@[i]
                == expected_signal(i) by {
                if i < prev.len() {
                    assert(prev[i] == expected_signal(i));
                }
            }
            Some(Signal::Restore)
        } else {
            None
        }
    }
}

/// With a positive limit, never more permits are outstanding than the limit.
pub proof fn lemma_cap_bounded(g: &ConcurrencyCap)
    requires
        g.wf(),
    ensures
        g.limit() > 0 ==> g.outstanding().len() <= g.limit(),
{
}

/// The signals a cap emits alternate, starting with `Trigger`: each `Trigger`
/// is followed by exactly one `Restore` before any further `Trigger`, and a
/// cap that is not paused has answered every `Trigger`.
pub proof fn lemma_signals_paired(g: &ConcurrencyCap)
    requires
        g.wf(),
    ensures
        well_paired(g.signals()),
        g.paused() == (g.limit() > 0 && g.outstanding().len() == g.limit()),
        g.limit() == 0 ==> !g.paused(),
{
}

/// The set of outstanding permits of a well-formed cap is finite.
pub proof fn lemma_cap_finite(g: &ConcurrencyCap)
    requires
        g.wf(),
    ensures
        g.outstanding().finite(),
{
}

/// A permit that was given back is no longer outstanding, so it cannot be
/// given back a second time.
pub proof fn lemma_release_once(before: &ConcurrencyCap, after: &ConcurrencyCap, id: nat)
    requires
        after.outstanding() == before.outstanding().remove(id),
    ensures
        !after.outstanding().contains(id),
{
}

} // verus!
