//! The instance/transport registry and dispatcher: instance and transport
//! tables, monotonic ID allocation, per-request completion, and callback
//! lifecycle — including the guarantee that a closed instance's callback
//! never fires again.

use vstd::prelude::*;

use crate::config::NetProtocol;
use crate::response::{NetResponse, NetResponseKind};
use crate::status::NetResultStatus;

verus! {

/// One registered transport, as the dispatcher sees it: its ID and the
/// protocol it serves.
pub struct TransportEntry {
    pub transport_id: u32,
    pub protocol: NetProtocol,
}

/// One SDK instance: a callback slot, a transport table, and a monotonic
/// transport-ID allocator.
pub struct Instance {
    pub instance_id: u32,
    pub callback_open: bool,
    pub next_transport_id: u32,
    pub transports: Vec<TransportEntry>,
}

impl Instance {
    /// Well-formed: transport IDs start at 258, every registered ID was
    /// allocated, and no ID repeats.
    pub open spec fn wf(&self) -> bool {
        &&& 258 <= self.next_transport_id
        &&& forall|k: int|
            0 <= k < self.transports@.len() ==> 258 <= (#[trigger] self.transports@[k]).transport_id
                < self.next_transport_id
        &&& forall|i: int, j: int|
            0 <= i < j < self.transports@.len() ==> (#[trigger] self.transports@[i]).transport_id
                != (#[trigger] self.transports@[j]).transport_id
    }

    /// Whether a transport is registered.
    pub open spec fn has_transport(&self, transport_id: u32) -> bool {
        exists|k: int|
            0 <= k < self.transports@.len() && (#[trigger] self.transports@[k]).transport_id
                == transport_id
    }

    /// A fresh instance: open callback, empty table, allocator at 258.
    pub fn new(instance_id: u32) -> (r: Instance)
        ensures
            r.wf(),
            r.instance_id == instance_id,
            r.callback_open,
            r.next_transport_id == 258,
            r.transports@ == Seq::<TransportEntry>::empty(),
    {
        Instance { instance_id, callback_open: true, next_transport_id: 258, transports: Vec::new() }
    }

    /// Register a transport under a fresh ID. The ID was never registered
    /// before and IDs are handed out in increasing order; exhaustion of the
    /// ID space is an internal error.
    pub fn create_transport(&mut self, protocol: NetProtocol) -> (r: Result<u32, NetResultStatus>)
        requires
            old(self).wf(),
        ensures
            final(self).wf(),
            final(self).instance_id == old(self).instance_id,
            final(self).callback_open == old(self).callback_open,
            old(self).next_transport_id == u32::MAX ==> (r matches Err(e) && e
                == NetResultStatus::InternalError && *final(self) == *old(self)),
            old(self).next_transport_id < u32::MAX ==> (r matches Ok(id) && {
                &&& id == old(self).next_transport_id
                &&& !old(self).has_transport(id)
                &&& final(self).next_transport_id == old(self).next_transport_id + 1
                &&& final(self).transports@ == old(self).transports@.push(
                    TransportEntry { transport_id: id, protocol },
                )
            }),
    {
        if self.next_transport_id == u32::MAX {
            return Err(NetResultStatus::InternalError);
        }
        let id = self.next_transport_id;
        proof {
            assert(!self.has_transport(id));
        }
        let ghost pre = self.transports@;
        self.next_transport_id = self.next_transport_id + 1;
        self.transports.push(TransportEntry { transport_id: id, protocol });
        proof {
            let post = self.transports@;
            assert(forall|k: int| 0 <= k < pre.len() ==> post[k] == #[trigger] pre[k]);
            assert forall|i: int, j: int| 0 <= i < j < post.len() implies (
            #[trigger] post[i]).transport_id != (#[trigger] post[j]).transport_id by {
                if j == post.len() - 1 {
                    assert(post[i] == pre[i]);
                    assert(post[j].transport_id == id);
                }
            }
        }
        Ok(id)
    }

    /// The index of a transport in the table, scanning from the front.
    pub open spec fn find_transport(s: Seq<TransportEntry>, transport_id: u32) -> Option<int>
        decreases s.len(),
    {
        if s.len() == 0 {
            None
        } else if s[0].transport_id == transport_id {
            Some(0)
        } else {
            match Self::find_transport(s.drop_first(), transport_id) {
                Some(j) => Some(j + 1),
                None => None,
            }
        }
    }

    /// What [`Instance::find_transport`] finds: a valid index with the wanted
    /// ID, or nothing exactly when no entry has it.
    pub proof fn lemma_find_transport(s: Seq<TransportEntry>, transport_id: u32)
        ensures
            match Self::find_transport(s, transport_id) {
                Some(i) => 0 <= i < s.len() && s[i].transport_id == transport_id,
                None => forall|k: int|
                    0 <= k < s.len() ==> (#[trigger] s[k]).transport_id != transport_id,
            },
        decreases s.len(),
    {
        if s.len() > 0 {
            let rest = s.drop_first();
            Self::lemma_find_transport(rest, transport_id);
            if s[0].transport_id != transport_id {
                match Self::find_transport(rest, transport_id) {
                    Some(j) => {
                        assert(rest[j] == s[j + 1]);
                    },
                    None => {
                        assert forall|k: int| 0 <= k < s.len() implies (
                        #[trigger] s[k]).transport_id != transport_id by {
                            if k > 0 {
                                assert(s[k] == rest[k - 1]);
                            }
                        }
                    },
                }
            }
        }
    }

    /// Find a transport's table index.
    fn find_index(&self, transport_id: u32) -> (r: Option<usize>)
        ensures
            match r {
                Some(i) => Self::find_transport(self.transports@, transport_id) == Some(i as int),
                None => Self::find_transport(self.transports@, transport_id) is None,
            },
    {
        let mut i: usize = 0;
        proof {
            assert(self.transports@.skip(0) =~= self.transports@);
        }
        while i < self.transports.len()
            invariant
                i <= self.transports@.len(),
                forall|k: int|
                    0 <= k < i ==> (#[trigger] self.transports@[k]).transport_id != transport_id,
                Self::find_transport(self.transports@, transport_id) == (match Self::find_transport(
                    self.transports@.skip(i as int),
                    transport_id,
                ) {
                    Some(j) => Some(j + i),
                    None => None::<int>,
                }),
            decreases self.transports@.len() - i,
        {
            let ghost remaining = self.transports@.skip(i as int);
            proof {
                assert(remaining[0] == self.transports@[i as int]);
                assert(remaining.drop_first() =~= self.transports@.skip(i + 1));
            }
            if self.transports[i].transport_id == transport_id {
                return Some(i);
            }
            i = i + 1;
        }
        proof {
            assert(self.transports@.skip(self.transports@.len() as int) =~= Seq::<
                TransportEntry,
            >::empty());
        }
        None
    }

    /// The protocol of a registered transport; an unknown ID is
    /// `TransportNotFound`.
    pub fn lookup_protocol(&self, transport_id: u32) -> (r: Result<NetProtocol, NetResultStatus>)
        ensures
            r is Ok <==> self.has_transport(transport_id),
            r matches Ok(p) ==> exists|k: int|
                0 <= k < self.transports@.len() && (#[trigger] self.transports@[k]).transport_id
                    == transport_id && self.transports@[k].protocol == p,
            r matches Err(e) ==> e == NetResultStatus::TransportNotFound,
    {
        proof {
            Self::lemma_find_transport(self.transports@, transport_id);
        }
        match self.find_index(transport_id) {
            Some(i) => Ok(self.transports[i].protocol),
            None => Err(NetResultStatus::TransportNotFound),
        }
    }

    /// Remove a transport from the table; an unknown ID is
    /// `TransportNotFound`. The removed entry is handed back so the caller
    /// can close it.
    pub fn close_transport(&mut self, transport_id: u32) -> (r: Result<
        TransportEntry,
        NetResultStatus,
    >)
        requires
            old(self).wf(),
        ensures
            final(self).wf(),
            final(self).instance_id == old(self).instance_id,
            final(self).callback_open == old(self).callback_open,
            final(self).next_transport_id == old(self).next_transport_id,
            r is Ok <==> old(self).has_transport(transport_id),
            r matches Ok(entry) ==> {
                &&& entry.transport_id == transport_id
                &&& Self::find_transport(old(self).transports@, transport_id) matches Some(i)
                    && final(self).transports@ == old(self).transports@.remove(i)
            },
            r matches Err(e) ==> e == NetResultStatus::TransportNotFound && *final(self) == *old(
                self,
            ),
            !final(self).has_transport(transport_id),
    {
        proof {
            Self::lemma_find_transport(self.transports@, transport_id);
        }
        match self.find_index(transport_id) {
            Some(i) => {
                let ghost pre = self.transports@;
                let ghost idx = i as int;
                let entry = self.transports.remove(i);
                proof {
                    assert(entry == pre[idx]);
                    assert(self.transports@ == pre.remove(idx));
                    assert forall|k: int|
                        0 <= k < self.transports@.len() implies 258 <= (
                    #[trigger] self.transports@[k]).transport_id < self.next_transport_id by {
                        if k < idx {
                            assert(self.transports@[k] == pre[k]);
                        } else {
                            assert(self.transports@[k] == pre[k + 1]);
                        }
                    }
                    assert forall|a: int, b: int|
                        0 <= a < b < self.transports@.len() implies (
                    #[trigger] self.transports@[a]).transport_id != (
                    #[trigger] self.transports@[b]).transport_id by {
                        let pa = if a < idx {
                            a
                        } else {
                            a + 1
                        };
                        let pb = if b < idx {
                            b
                        } else {
                            b + 1
                        };
                        assert(self.transports@[a] == pre[pa]);
                        assert(self.transports@[b] == pre[pb]);
                    }
                    assert forall|k: int|
                        0 <= k < self.transports@.len() implies (
                    #[trigger] self.transports@[k]).transport_id != transport_id by {
                        let pk = if k < idx {
                            k
                        } else {
                            k + 1
                        };
                        assert(self.transports@[k] == pre[pk]);
                        if pre[pk].transport_id == transport_id {
                            assert(pre[pk].transport_id == pre[idx].transport_id);
                        }
                    }
                }
                Ok(entry)
            },
            None => Err(NetResultStatus::TransportNotFound),
        }
    }

    /// Instance teardown: atomically clear the callback slot, then drain the
    /// transport table. The drained entries are handed back to be closed;
    /// with the callback already cleared, their teardown emits no events.
    pub fn close_all(&mut self) -> (drained: Vec<TransportEntry>)
        requires
            old(self).wf(),
        ensures
            final(self).wf(),
            final(self).instance_id == old(self).instance_id,
            !final(self).callback_open,
            final(self).next_transport_id == old(self).next_transport_id,
            final(self).transports@ == Seq::<TransportEntry>::empty(),
            drained@ == old(self).transports@,
    {
        self.callback_open = false;
        let mut drained: Vec<TransportEntry> = Vec::new();
        core::mem::swap(&mut drained, &mut self.transports);
        drained
    }
}

/// The process-wide registry: the instance table and the instance-ID
/// allocator.
pub struct Registry {
    pub next_instance_id: u32,
    pub instances: Vec<Instance>,
}

/// The index of an instance in the table, scanning from the front.
pub open spec fn find_instance(s: Seq<Instance>, instance_id: u32) -> Option<int>
    decreases s.len(),
{
    if s.len() == 0 {
        None
    } else if s[0].instance_id == instance_id {
        Some(0)
    } else {
        match find_instance(s.drop_first(), instance_id) {
            Some(j) => Some(j + 1),
            None => None,
        }
    }
}

/// What [`find_instance`] finds: a valid index with the wanted ID, or
/// nothing exactly when no instance has it.
pub proof fn lemma_find_instance(s: Seq<Instance>, instance_id: u32)
    ensures
        match find_instance(s, instance_id) {
            Some(i) => 0 <= i < s.len() && s[i].instance_id == instance_id,
            None => forall|k: int| 0 <= k < s.len() ==> (#[trigger] s[k]).instance_id != instance_id,
        },
    decreases s.len(),
{
    if s.len() > 0 {
        let rest = s.drop_first();
        lemma_find_instance(rest, instance_id);
        if s[0].instance_id != instance_id {
            match find_instance(rest, instance_id) {
                Some(j) => {
                    assert(rest[j] == s[j + 1]);
                },
                None => {
                    assert forall|k: int| 0 <= k < s.len() implies (#[trigger] s[k]).instance_id
                        != instance_id by {
                        if k > 0 {
                            assert(s[k] == rest[k - 1]);
                        }
                    }
                },
            }
        }
    }
}

impl Registry {
    /// Well-formed: instance IDs start at 257, every registered ID was
    /// allocated, no ID repeats, and every instance is well-formed.
    pub open spec fn wf(&self) -> bool {
        &&& 257 <= self.next_instance_id
        &&& forall|k: int|
            0 <= k < self.instances@.len() ==> 257 <= (#[trigger] self.instances@[k]).instance_id
                < self.next_instance_id
        &&& forall|i: int, j: int|
            0 <= i < j < self.instances@.len() ==> (#[trigger] self.instances@[i]).instance_id != (
            #[trigger] self.instances@[j]).instance_id
        &&& forall|k: int| 0 <= k < self.instances@.len() ==> (#[trigger] self.instances@[k]).wf()
    }

    /// Whether an instance is registered.
    pub open spec fn has_instance(&self, instance_id: u32) -> bool {
        exists|k: int|
            0 <= k < self.instances@.len() && (#[trigger] self.instances@[k]).instance_id
                == instance_id
    }

    /// Whether a callback bound to this instance can still fire: the instance
    /// is registered and its callback slot is filled.
    pub open spec fn can_deliver(&self, instance_id: u32) -> bool {
        match find_instance(self.instances@, instance_id) {
            Some(i) => self.instances@[i].callback_open,
            None => false,
        }
    }

    /// An ID that was allocated once and whose instance is gone. Such an ID
    /// is never registered again: the allocator only grows.
    pub open spec fn retired(&self, instance_id: u32) -> bool {
        instance_id < self.next_instance_id && !self.has_instance(instance_id)
    }

    /// An empty registry; instance IDs start at 257.
    pub fn new() -> (r: Registry)
        ensures
            r.wf(),
            r.next_instance_id == 257,
            r.instances@ == Seq::<Instance>::empty(),
    {
        Registry { next_instance_id: 257, instances: Vec::new() }
    }

    /// Create an instance: install a fresh instance under a fresh ID and
    /// return the ID. The ID was never registered before and IDs are handed
    /// out in increasing order; the installed instance starts with an open
    /// callback, an empty transport table and its transport-ID allocator at
    /// 258. Exhaustion of the ID space is an internal error.
    pub fn create_instance(&mut self) -> (r: Result<u32, NetResultStatus>)
        requires
            old(self).wf(),
        ensures
            final(self).wf(),
            final(self).next_instance_id >= old(self).next_instance_id,
            forall|other: u32| old(self).retired(other) ==> final(self).retired(other),
            old(self).next_instance_id == u32::MAX ==> (r matches Err(e) && e
                == NetResultStatus::InternalError && *final(self) == *old(self)),
            old(self).next_instance_id < u32::MAX ==> (r matches Ok(id) && {
                let fresh = final(self).instances@.last();
                &&& id == old(self).next_instance_id
                &&& !old(self).has_instance(id)
                &&& final(self).next_instance_id == old(self).next_instance_id + 1
                &&& final(self).instances@ == old(self).instances@.push(fresh)
                &&& fresh.instance_id == id
                &&& fresh.callback_open
                &&& fresh.next_transport_id == 258
                &&& fresh.transports@ == Seq::<TransportEntry>::empty()
                &&& final(self).has_instance(id)
                &&& final(self).can_deliver(id)
            }),
    {
        if self.next_instance_id == u32::MAX {
            return Err(NetResultStatus::InternalError);
        }
        let id = self.next_instance_id;
        proof {
            assert(!self.has_instance(id));
        }
        self.next_instance_id = self.next_instance_id + 1;
        let ghost pre = self.instances@;
        self.instances.push(Instance::new(id));
        proof {
            let post = self.instances@;
            assert(post[post.len() - 1].instance_id == id);
            assert(forall|k: int| 0 <= k < pre.len() ==> post[k] == #[trigger] pre[k]);
            lemma_find_instance(post, id);
            let i = find_instance(post, id)->0;
            assert(post[i].callback_open) by {
                if i < pre.len() {
                    assert(pre[i].instance_id == id);
                    assert(false);
                }
            }
            assert forall|other: u32| old(self).retired(other) implies self.retired(other) by {
                if self.has_instance(other) {
                    let k = choose|k: int|
                        0 <= k < post.len() && (#[trigger] post[k]).instance_id == other;
                    assert(k == post.len() - 1 || pre[k].instance_id == other);
                }
            }
        }
        Ok(id)
    }

    /// Find an instance's table index.
    fn find_index(&self, instance_id: u32) -> (r: Option<usize>)
        ensures
            match r {
                Some(i) => find_instance(self.instances@, instance_id) == Some(i as int),
                None => find_instance(self.instances@, instance_id) is None,
            },
    {
        let mut i: usize = 0;
        proof {
            assert(self.instances@.skip(0) =~= self.instances@);
        }
        while i < self.instances.len()
            invariant
                i <= self.instances@.len(),
                forall|k: int|
                    0 <= k < i ==> (#[trigger] self.instances@[k]).instance_id != instance_id,
                find_instance(self.instances@, instance_id) == (match find_instance(
                    self.instances@.skip(i as int),
                    instance_id,
                ) {
                    Some(j) => Some(j + i),
                    None => None::<int>,
                }),
            decreases self.instances@.len() - i,
        {
            let ghost remaining = self.instances@.skip(i as int);
            proof {
                assert(remaining[0] == self.instances@[i as int]);
                assert(remaining.drop_first() =~= self.instances@.skip(i + 1));
            }
            if self.instances[i].instance_id == instance_id {
                return Some(i);
            }
            i = i + 1;
        }
        proof {
            assert(self.instances@.skip(self.instances@.len() as int) =~= Seq::<Instance>::empty());
        }
        None
    }

    /// Create a transport on an instance: allocate a per-instance transport
    /// ID, register the entry, and return the ID. An unknown instance is
    /// `InstanceDoesNotExist`; ID exhaustion is an internal error.
    pub fn create_transport(&mut self, instance_id: u32, protocol: NetProtocol) -> (r: Result<
        u32,
        NetResultStatus,
    >)
        requires
            old(self).wf(),
        ensures
            final(self).wf(),
            final(self).next_instance_id == old(self).next_instance_id,
            forall|other: u32| old(self).retired(other) ==> final(self).retired(other),
            !old(self).has_instance(instance_id) ==> (r matches Err(e) && e
                == NetResultStatus::InstanceDoesNotExist && *final(self) == *old(self)),
            old(self).has_instance(instance_id) ==> (find_instance(
                old(self).instances@,
                instance_id,
            ) matches Some(i) && {
                let pre = old(self).instances@[i];
                let post = final(self).instances@[i];
                &&& final(self).instances@.len() == old(self).instances@.len()
                &&& (forall|k: int|
                    0 <= k < old(self).instances@.len() && k != i ==> final(self).instances@[k]
                        == old(self).instances@[k])
                &&& post.instance_id == pre.instance_id
                &&& post.callback_open == pre.callback_open
                &&& (pre.next_transport_id == u32::MAX ==> (r matches Err(e) && e
                    == NetResultStatus::InternalError && post == pre))
                &&& (pre.next_transport_id < u32::MAX ==> (r matches Ok(id) && {
                    &&& id == pre.next_transport_id
                    &&& !pre.has_transport(id)
                    &&& post.next_transport_id == pre.next_transport_id + 1
                    &&& post.transports@ == pre.transports@.push(
                        TransportEntry { transport_id: id, protocol },
                    )
                }))
            }),
    {
        proof {
            lemma_find_instance(self.instances@, instance_id);
        }
        match self.find_index(instance_id) {
            Some(i) => {
                let ghost pre_table = self.instances@;
                let ghost idx = i as int;
                let mut inst = self.instances.remove(i);
                let r = inst.create_transport(protocol);
                self.instances.insert(i, inst);
                proof {
                    assert(self.instances@ == pre_table.remove(idx).insert(idx, inst));
                    assert forall|k: int|
                        0 <= k < self.instances@.len() && k != idx implies self.instances@[k]
                        == pre_table[k] by {
                        if k < idx {
                            assert(pre_table.remove(idx)[k] == pre_table[k]);
                        } else {
                            assert(pre_table.remove(idx)[k - 1] == pre_table[k]);
                        }
                    }
                    assert(self.instances@[idx] == inst);
                    assert(self.instances@.len() == pre_table.len());
                    assert forall|a: int, b: int|
                        0 <= a < b < self.instances@.len() implies (
                    #[trigger] self.instances@[a]).instance_id != (
                    #[trigger] self.instances@[b]).instance_id by {
                        assert(self.instances@[a].instance_id == pre_table[a].instance_id);
                        assert(self.instances@[b].instance_id == pre_table[b].instance_id);
                    }
                    assert forall|other: u32| old(self).retired(other) implies self.retired(
                        other,
                    ) by {
                        if self.has_instance(other) {
                            let k = choose|k: int|
                                0 <= k < self.instances@.len() && (
                                #[trigger] self.instances@[k]).instance_id == other;
                            assert(pre_table[k].instance_id == other);
                        }
                    }
                }
                r
            },
            None => Err(NetResultStatus::InstanceDoesNotExist),
        }
    }

    /// Close one transport of an instance: remove it from the instance's
    /// table and hand the entry back for teardown. An unknown instance is
    /// `InstanceDoesNotExist`; an unknown transport is `TransportNotFound`.
    pub fn close_transport(&mut self, instance_id: u32, transport_id: u32) -> (r: Result<
        TransportEntry,
        NetResultStatus,
    >)
        requires
            old(self).wf(),
        ensures
            final(self).wf(),
            final(self).next_instance_id == old(self).next_instance_id,
            forall|other: u32| old(self).retired(other) ==> final(self).retired(other),
            !old(self).has_instance(instance_id) ==> (r matches Err(e) && e
                == NetResultStatus::InstanceDoesNotExist && *final(self) == *old(self)),
            old(self).has_instance(instance_id) ==> (find_instance(
                old(self).instances@,
                instance_id,
            ) matches Some(i) && {
                let pre = old(self).instances@[i];
                let post = final(self).instances@[i];
                &&& final(self).instances@.len() == old(self).instances@.len()
                &&& (forall|k: int|
                    0 <= k < old(self).instances@.len() && k != i ==> final(self).instances@[k]
                        == old(self).instances@[k])
                &&& post.instance_id == pre.instance_id
                &&& post.callback_open == pre.callback_open
                &&& post.next_transport_id == pre.next_transport_id
                &&& (r is Ok <==> pre.has_transport(transport_id))
                &&& (r matches Ok(entry) ==> {
                    &&& entry.transport_id == transport_id
                    &&& Instance::find_transport(pre.transports@, transport_id) matches Some(j)
                        && post.transports@ == pre.transports@.remove(j)
                    &&& !post.has_transport(transport_id)
                })
                &&& (r matches Err(e) ==> e == NetResultStatus::TransportNotFound && post == pre)
            }),
    {
        proof {
            lemma_find_instance(self.instances@, instance_id);
        }
        match self.find_index(instance_id) {
            Some(i) => {
                let ghost pre_table = self.instances@;
                let ghost idx = i as int;
                let mut inst = self.instances.remove(i);
                let r = inst.close_transport(transport_id);
                self.instances.insert(i, inst);
                proof {
                    assert(self.instances@ == pre_table.remove(idx).insert(idx, inst));
                    assert forall|k: int|
                        0 <= k < self.instances@.len() && k != idx implies self.instances@[k]
                        == pre_table[k] by {
                        if k < idx {
                            assert(pre_table.remove(idx)[k] == pre_table[k]);
                        } else {
                            assert(pre_table.remove(idx)[k - 1] == pre_table[k]);
                        }
                    }
                    assert(self.instances@[idx] == inst);
                    assert(self.instances@.len() == pre_table.len());
                    assert forall|a: int, b: int|
                        0 <= a < b < self.instances@.len() implies (
                    #[trigger] self.instances@[a]).instance_id != (
                    #[trigger] self.instances@[b]).instance_id by {
                        assert(self.instances@[a].instance_id == pre_table[a].instance_id);
                        assert(self.instances@[b].instance_id == pre_table[b].instance_id);
                    }
                    assert forall|other: u32| old(self).retired(other) implies self.retired(
                        other,
                    ) by {
                        if self.has_instance(other) {
                            let k = choose|k: int|
                                0 <= k < self.instances@.len() && (
                                #[trigger] self.instances@[k]).instance_id == other;
                            assert(pre_table[k].instance_id == other);
                        }
                    }
                }
                r
            },
            None => Err(NetResultStatus::InstanceDoesNotExist),
        }
    }

    /// Validate one request against the tables, as dispatch does: the
    /// instance must exist, the addressed transport must be registered, and
    /// the request kind must match the transport's protocol. Returns that
    /// protocol; the request is then served asynchronously.
    pub fn route_request(&self, instance_id: u32, request: &crate::request::NetRequest) -> (r:
        Result<NetProtocol, NetResultStatus>)
        requires
            self.wf(),
        ensures
            !self.has_instance(instance_id) ==> (r matches Err(e) && e
                == NetResultStatus::InstanceDoesNotExist),
            self.has_instance(instance_id) ==> (find_instance(self.instances@, instance_id)
                matches Some(i) && {
                let inst = self.instances@[i];
                &&& (!inst.has_transport(request.transport_id) ==> (r matches Err(e) && e
                    == NetResultStatus::TransportNotFound))
                &&& (inst.has_transport(request.transport_id) ==> (Instance::find_transport(
                    inst.transports@,
                    request.transport_id,
                ) matches Some(j) && {
                    let p = inst.transports@[j].protocol;
                    if crate::request::kind_matches_protocol(&request.kind, p) {
                        r == Ok::<NetProtocol, NetResultStatus>(p)
                    } else {
                        r matches Err(e) && e == NetResultStatus::InvalidRequestParameters
                    }
                }))
            }),
    {
        proof {
            lemma_find_instance(self.instances@, instance_id);
        }
        let i = match self.find_index(instance_id) {
            Some(i) => i,
            None => {
                return Err(NetResultStatus::InstanceDoesNotExist);
            },
        };
        let ghost inst = self.instances@[i as int];
        proof {
            Instance::lemma_find_transport(inst.transports@, request.transport_id);
        }
        let protocol = match self.instances[i].lookup_protocol(request.transport_id) {
            Ok(p) => p,
            Err(e) => {
                return Err(e);
            },
        };
        proof {
            let j = Instance::find_transport(inst.transports@, request.transport_id)->0;
            let k = choose|k: int|
                0 <= k < inst.transports@.len() && (#[trigger] inst.transports@[k]).transport_id
                    == request.transport_id && inst.transports@[k].protocol == protocol;
            assert(inst.transports@[j].transport_id == inst.transports@[k].transport_id);
            assert(j == k);
        }
        match request.to_protocol_config(protocol) {
            Ok(_) => Ok(protocol),
            Err(e) => Err(e),
        }
    }

    /// Close an instance: remove it from the table (so its callback can never
    /// fire again) and hand its transports back for teardown. Closing an
    /// unknown instance is `InstanceDoesNotExist`.
    pub fn close_instance(&mut self, instance_id: u32) -> (r: Result<
        Vec<TransportEntry>,
        NetResultStatus,
    >)
        requires
            old(self).wf(),
        ensures
            final(self).wf(),
            final(self).next_instance_id == old(self).next_instance_id,
            forall|other: u32| old(self).retired(other) ==> final(self).retired(other),
            r is Ok <==> old(self).has_instance(instance_id),
            r matches Ok(drained) ==> {
                &&& find_instance(old(self).instances@, instance_id) matches Some(i) && drained@
                    == old(self).instances@[i].transports@ && final(self).instances@ == old(
                    self,
                ).instances@.remove(i)
                &&& !final(self).has_instance(instance_id)
                &&& !final(self).can_deliver(instance_id)
                &&& old(self).has_instance(instance_id) ==> final(self).retired(instance_id)
            },
            r matches Err(e) ==> e == NetResultStatus::InstanceDoesNotExist && *final(self) == *old(
                self,
            ),
    {
        proof {
            lemma_find_instance(self.instances@, instance_id);
        }
        match self.find_index(instance_id) {
            Some(i) => {
                let ghost pre = self.instances@;
                let ghost idx = i as int;
                let mut inst = self.instances.remove(i);
                let drained = inst.close_all();
                proof {
                    assert(self.instances@ == pre.remove(idx));
                    assert forall|k: int|
                        0 <= k < self.instances@.len() implies (#[trigger] self.instances@[k])
                        == (if k < idx {
                        pre[k]
                    } else {
                        pre[k + 1]
                    }) by {}
                    assert forall|k: int|
                        0 <= k < self.instances@.len() implies (
                    #[trigger] self.instances@[k]).instance_id != instance_id by {
                        let pk = if k < idx {
                            k
                        } else {
                            k + 1
                        };
                        assert(self.instances@[k] == pre[pk]);
                        if pre[pk].instance_id == instance_id {
                            assert(pre[pk].instance_id == pre[idx].instance_id);
                        }
                    }
                    assert(!self.has_instance(instance_id));
                    lemma_find_instance(self.instances@, instance_id);
                    assert(!self.can_deliver(instance_id));
                }
                Ok(drained)
            },
            None => Err(NetResultStatus::InstanceDoesNotExist),
        }
    }

    /// Whether a response for an instance is delivered: only when the
    /// instance is registered and its callback slot is filled; otherwise the
    /// response is dropped silently.
    pub fn deliver(&self, instance_id: u32, response: NetResponse) -> (r: Option<NetResponse>)
        ensures
            self.can_deliver(instance_id) ==> r == Some(response),
            !self.can_deliver(instance_id) ==> r is None,
    {
        proof {
            lemma_find_instance(self.instances@, instance_id);
        }
        match self.find_index(instance_id) {
            Some(i) => {
                if self.instances[i].callback_open {
                    Some(response)
                } else {
                    None
                }
            },
            None => None,
        }
    }
}

/// What a successful `create_instance` call guarantees of its registry (its
/// contract says so): the returned ID is the allocator's value, and the
/// allocator moves strictly above it.
pub open spec fn created_instance(pre: Registry, post: Registry, id: u32) -> bool {
    id == pre.next_instance_id && post.next_instance_id > id
}

/// Law (instance-ID uniqueness): over any sequence of operations, two
/// successful `create_instance` calls return distinct IDs. Each call moves
/// the allocator strictly above its ID, and no operation between the calls
/// moves the allocator down (every operation's contract keeps or raises
/// `next_instance_id`), so the second ID is strictly greater than the first.
pub proof fn lemma_instance_ids_distinct(
    pre1: Registry,
    post1: Registry,
    id1: u32,
    pre2: Registry,
    post2: Registry,
    id2: u32,
)
    requires
        created_instance(pre1, post1, id1),
        created_instance(pre2, post2, id2),
        post1.next_instance_id <= pre2.next_instance_id,
    ensures
        id1 != id2,
{
}

/// What a successful `create_transport` call guarantees of its instance.
pub open spec fn created_transport(pre: Instance, post: Instance, id: u32) -> bool {
    id == pre.next_transport_id && post.next_transport_id > id
}

/// Law (transport-ID uniqueness): within one instance, two successful
/// `create_transport` calls return distinct IDs, for the same reason: the
/// per-instance allocator only moves up.
pub proof fn lemma_transport_ids_distinct(
    pre1: Instance,
    post1: Instance,
    id1: u32,
    pre2: Instance,
    post2: Instance,
    id2: u32,
)
    requires
        created_transport(pre1, post1, id1),
        created_transport(pre2, post2, id2),
        post1.next_transport_id <= pre2.next_transport_id,
    ensures
        id1 != id2,
{
}

/// Law (callback silencing): once an instance is closed, no callback bound to
/// it ever fires again. Closing retires the ID; every operation preserves
/// retirement (their contracts say so); and a retired ID cannot deliver.
pub proof fn lemma_callback_silenced(r: Registry, instance_id: u32)
    requires
        r.retired(instance_id),
    ensures
        !r.can_deliver(instance_id),
{
    lemma_find_instance(r.instances@, instance_id);
    match find_instance(r.instances@, instance_id) {
        Some(i) => {
            assert(r.has_instance(instance_id));
        },
        None => {},
    }
}

/// Complete one dispatched request: the result of awaiting `do_request`
/// under the per-request timeout, turned into the one response the host
/// sees. A fired timeout is exactly one `RequestTimeout` error; a failure is
/// its error; a success is the payload.
pub fn complete_request(
    transport_id: u32,
    request_id: u32,
    result: Option<Result<NetResponseKind, NetResultStatus>>,
) -> (r: NetResponse)
    ensures
        r.transport_id == transport_id,
        r.request_id == request_id,
        match result {
            None => r.response matches NetResponseKind::ResponseError(e) && e
                == NetResultStatus::RequestTimeout,
            Some(inner) => match inner {
                Ok(kind) => r.response == kind,
                Err(e) => r.response matches NetResponseKind::ResponseError(e2) && e2 == e,
            },
        },
{
    let response = match result {
        None => NetResponseKind::ResponseError(NetResultStatus::RequestTimeout),
        Some(Ok(kind)) => kind,
        Some(Err(e)) => NetResponseKind::ResponseError(e),
    };
    NetResponse { transport_id, request_id, response }
}

} // verus!
