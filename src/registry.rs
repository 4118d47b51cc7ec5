//! The device registry: routes each discovered device to the candidate queue
//! of its identity, and says when a new worker is owed for that identity.

use vstd::prelude::*;
use crate::session::DriverError;

verus! {

/// Vendor identifier of the supported tablet.
pub const TABLET_VENDOR_ID: u16 = 0x256c;

/// Product identifier of the supported tablet.
pub const TABLET_PRODUCT_ID: u16 = 0x006e;

/// Identity of one attachment of a USB device.
#[derive(Clone, Copy, Debug, PartialEq, Eq, Structural)]
pub struct DeviceId {
    pub bus_number: u8,
    pub address: u8,
    pub vendor_id: u16,
    pub product_id: u16,
}

/// Where `add_device` put a candidate.
#[derive(Clone, Copy, Debug, PartialEq, Eq, Structural)]
pub enum Placement {
    /// The identity is new: its queue is at this slot and a worker must be
    /// started for it.
    NewWorker(usize),
    /// The identity already has a queue and a worker, at this slot.
    Queued(usize),
}

/// Identities seen so far, one per worker, and each worker's queue of
/// candidates, in the order they were added.
pub struct DeviceReceiver<C> {
    identities: Vec<DeviceId>,
    queues: Vec<Vec<C>>,
}

/// No identity stands twice.
pub open spec fn no_duplicates(ids: Seq<DeviceId>) -> bool {
    forall|i: int, j: int| 0 <= i < j < ids.len() ==> ids[i] != ids[j]
}

/// Where a candidate with identity `id` goes, given the identities seen so far.
pub open spec fn placement_of(ids: Seq<DeviceId>, id: DeviceId) -> Placement {
    if ids.contains(id) {
        Placement::Queued((choose|i: int| 0 <= i < ids.len() && ids[i] == id) as usize)
    } else {
        Placement::NewWorker(ids.len() as usize)
    }
}

/// The identities seen after a candidate with identity `id` was added.
pub open spec fn ids_after(ids: Seq<DeviceId>, id: DeviceId) -> Seq<DeviceId> {
    if ids.contains(id) {
        ids
    } else {
        ids.push(id)
    }
}

/// How many of the placements for the additions `adds`, made in order from
/// the identities `ids`, start a worker for `id`.
pub open spec fn workers_started(ids: Seq<DeviceId>, adds: Seq<DeviceId>, id: DeviceId) -> nat
    decreases adds.len(),
{
    if adds.len() == 0 {
        0
    } else {
        (if adds[0] == id && placement_of(ids, adds[0]) is NewWorker { 1nat } else { 0nat })
            + workers_started(ids_after(ids, adds[0]), adds.drop_first(), id)
    }
}

/// Whether a vendor and product identifier name the supported tablet.
pub fn is_device_huion_tablet(vendor_id: u16, product_id: u16) -> (r: bool)
    ensures
        r == (vendor_id == TABLET_VENDOR_ID && product_id == TABLET_PRODUCT_ID),
{
    vendor_id == TABLET_VENDOR_ID && product_id == TABLET_PRODUCT_ID
}

/// The identity of a device from its bus number, its address and, when its
/// device descriptor could be read, its vendor and product identifiers.
pub fn create_device_id(bus_number: u8, address: u8, descriptor_ids: Option<(u16, u16)>) -> (r: Result<DeviceId, DriverError>)
    ensures
        descriptor_ids matches Some(p) ==> r == Ok::<DeviceId, DriverError>(
            (DeviceId { bus_number, address, vendor_id: p.0, product_id: p.1 }),
        ),
        descriptor_ids is None ==> r == Err::<DeviceId, DriverError>(DriverError::Identity),
{
    match descriptor_ids {
        Some((vendor_id, product_id)) => Ok(DeviceId { bus_number, address, vendor_id, product_id }),
        None => Err(DriverError::Identity),
    }
}

impl<C> DeviceReceiver<C> {
    pub closed spec fn wf(&self) -> bool {
        &&& self.identities@.len() == self.queues@.len()
        &&& no_duplicates(self.identities@)
    }

    /// The identities seen so far; the one at slot `i` owns queue `i`.
    pub closed spec fn identities(&self) -> Seq<DeviceId> {
        self.identities@
    }

    /// The queued candidates of each slot, oldest first.
    pub closed spec fn queues(&self) -> Seq<Seq<C>> {
        self.queues@.map_values(|q: Vec<C>| q@)
    }

    /// An empty registry.
    pub fn new() -> (r: DeviceReceiver<C>)
        ensures
            r.wf(),
            r.identities() == Seq::<DeviceId>::empty(),
            r.queues() == Seq::<Seq<C>>::empty(),
    {
        let r = DeviceReceiver { identities: Vec::new(), queues: Vec::new() };
        assert(r.queues() =~= Seq::<Seq<C>>::empty());
        r
    }

    /// Adds a candidate under its identity. A new identity gets a new slot
    /// holding only this candidate, and the result asks for a worker; a known
    /// identity gets the candidate appended to its queue, and no worker.
    pub fn add_device(&mut self, id: DeviceId, device: C) -> (r: Placement)
        requires
            old(self).wf(),
        ensures
            final(self).wf(),
            r == placement_of(old(self).identities(), id),
            final(self).identities() == ids_after(old(self).identities(), id),
            r matches Placement::Queued(i) ==> final(self).queues() == old(self).queues().update(
                i as int,
                old(self).queues()[i as int].push(device),
            ),
            r matches Placement::NewWorker(i) ==> i == old(self).identities().len()
                && final(self).queues() == old(self).queues().push(seq![device]),
    {
        let ghost ids0 = self.identities@;
        let ghost qs0 = self.queues();
        let mut i: usize = 0;
        while i < self.identities.len()
            invariant
                ids0 == old(self).identities(),
                qs0 == old(self).queues(),
                self.identities@ == ids0,
                self.queues() == qs0,
                self.wf(),
                0 <= i <= ids0.len(),
                forall|j: int| 0 <= j < i ==> ids0[j] != id,
            decreases ids0.len() - i,
        {
            if self.identities[i] == id {
                assert(ids0.contains(id));
                let ghost k = choose|k: int| 0 <= k < ids0.len() && ids0[k] == id;
                assert(k == i as int);
                self.queues[i].push(device);
                assert(self.queues() =~= qs0.update(i as int, qs0[i as int].push(device)));
                return Placement::Queued(i);
            }
            i = i + 1;
        }
        assert(!ids0.contains(id));
        let slot = self.identities.len();
        self.identities.push(id);
        let mut queue: Vec<C> = Vec::new();
        queue.push(device);
        self.queues.push(queue);
        assert(self.queues() =~= qs0.push(seq![device]));
        assert(no_duplicates(self.identities@)) by {
            assert(forall|j: int| 0 <= j < ids0.len() ==> self.identities@[j] == ids0[j]);
        }
        Placement::NewWorker(slot)
    }

    /// Takes the most recently added candidate of a slot, if there is one.
    pub fn take_candidate(&mut self, slot: usize) -> (r: Option<C>)
        requires
            old(self).wf(),
        ensures
            final(self).wf(),
            final(self).identities() == old(self).identities(),
            slot < old(self).queues().len() && old(self).queues()[slot as int].len() > 0 ==> {
                let q = old(self).queues()[slot as int];
                &&& r == Some(q.last())
                &&& final(self).queues() == old(self).queues().update(slot as int, q.drop_last())
            },
            !(slot < old(self).queues().len() && old(self).queues()[slot as int].len() > 0) ==> {
                &&& r is None
                &&& final(self).queues() == old(self).queues()
            },
    {
        if slot < self.queues.len() {
            let ghost qs0 = self.queues();
            let r = self.queues[slot].pop();
            assert(self.queues() =~= (if qs0[slot as int].len() > 0 {
                qs0.update(slot as int, qs0[slot as int].drop_last())
            } else {
                qs0
            }));
            r
        } else {
            None
        }
    }

    /// How many identities have a slot.
    pub fn len(&self) -> (r: usize)
        ensures
            r == self.identities().len(),
    {
        self.identities.len()
    }
}

/// However many candidates are added, and in whatever order, at most one
/// worker is ever started for an identity: exactly one when the identity was
/// not yet known and some addition carries it, none otherwise. A second
/// candidate with an identity already seen is queued for the existing worker.
pub proof fn lemma_one_worker_per_identity(ids: Seq<DeviceId>, adds: Seq<DeviceId>, id: DeviceId)
    ensures
        workers_started(ids, adds, id) == (if !ids.contains(id) && adds.contains(id) { 1nat } else { 0nat }),
        workers_started(ids, adds, id) <= 1,
    decreases adds.len(),
{
    if adds.len() > 0 {
        let a = adds[0];
        let next = ids_after(ids, a);
        lemma_one_worker_per_identity(next, adds.drop_first(), id);
        if !ids.contains(a) {
            assert(next[ids.len() as int] == a);
        }
        assert(next.contains(id) <==> (ids.contains(id) || a == id)) by {
            if ids.contains(id) {
                let k = choose|k: int| 0 <= k < ids.len() && ids[k] == id;
                if !ids.contains(a) {
                    assert(next[k] == id);
                }
            }
            if next.contains(id) && !ids.contains(id) && !ids.contains(a) {
                let k = choose|k: int| 0 <= k < next.len() && next[k] == id;
                assert(k == ids.len() as int);
            }
            if a == id && ids.contains(a) {
                assert(next == ids);
            }
        }
        assert(adds.contains(id) <==> (a == id || adds.drop_first().contains(id))) by {
            if adds.contains(id) && a != id {
                let k = choose|k: int| 0 <= k < adds.len() && adds[k] == id;
                assert(adds.drop_first()[k - 1] == id);
            }
            if adds.drop_first().contains(id) {
                let k = choose|k: int| 0 <= k < adds.drop_first().len() && adds.drop_first()[k] == id;
                assert(adds[k + 1] == id);
            }
            if a == id {
                assert(adds[0] == id);
            }
        }
    }
}

/// Two candidates added in turn with the same identity start at most one
/// worker: the second always joins the queue of the first.
pub proof fn lemma_second_add_is_queued(ids: Seq<DeviceId>, id: DeviceId)
    ensures
        placement_of(ids_after(ids, id), id) is Queued,
        workers_started(ids, seq![id, id], id) <= 1,
{
    if !ids.contains(id) {
        assert(ids.push(id)[ids.len() as int] == id);
    }
    lemma_one_worker_per_identity(ids, seq![id, id], id);
}

} // verus!
