use std::collections::HashMap;
use vstd::prelude::*;

use crate::devices::DeviceInfoDto;
use crate::tree::EndpointTree;

verus! {

broadcast use vstd::std_specs::hash::group_hash_axioms;

/// What the application currently knows of a device's reachability.
#[derive(Clone, Copy, Debug, PartialEq, Eq, Structural)]
pub enum DeviceStatus {
    Unknown,
    Checking,
    Connected,
    Failed,
    Removed,
}

/// The stored status of one device and the error that put it there.
#[derive(Debug)]
pub struct StatusEntry {
    pub status: DeviceStatus,
    pub error: Option<String>,
}

/// A status change as announced to the user interface; `info` is present
/// only for a device that is connected and whose details are known.
#[derive(Debug)]
pub struct DeviceStatusDto {
    pub node_id: u64,
    pub status: DeviceStatus,
    pub error: Option<String>,
    pub info: Option<DeviceInfoDto>,
}

/// The data cached for one device.
#[derive(Debug)]
pub struct DeviceCache {
    pub info: Option<DeviceInfoDto>,
    pub structure: Option<EndpointTree>,
    pub attributes: Option<EndpointTree>,
    pub device_tree: Option<EndpointTree>,
}

/// An optional text, by its characters.
pub open spec fn text_of(o: Option<String>) -> Option<Seq<char>> {
    match o {
        Some(s) => Some(s@),
        None => None,
    }
}

/// The status and error recorded for a node; a node never seen is `Unknown` with no error.
pub open spec fn status_in(m: Map<u64, StatusEntry>, node_id: u64) -> (DeviceStatus, Option<Seq<char>>) {
    if m.contains_key(node_id) {
        (m[node_id].status, text_of(m[node_id].error))
    } else {
        (DeviceStatus::Unknown, None)
    }
}

/// The status table after `set_status(node_id, status, error)`.
pub open spec fn with_status(
    m: Map<u64, StatusEntry>,
    node_id: u64,
    status: DeviceStatus,
    error: Option<String>,
) -> Map<u64, StatusEntry> {
    m.insert(node_id, StatusEntry { status, error })
}

/// Whether a sweep probes a device in this status: one never probed, of
/// unknown status, or whose last probe failed.
pub open spec fn wants_probe(s: DeviceStatus) -> bool {
    s == DeviceStatus::Unknown || s == DeviceStatus::Failed
}

/// The nodes among `nodes` that a sweep probes, in order.
pub open spec fn probe_targets(m: Map<u64, StatusEntry>, nodes: Seq<u64>) -> Seq<u64>
    decreases nodes.len(),
{
    if nodes.len() == 0 {
        Seq::empty()
    } else {
        let rest = probe_targets(m, nodes.drop_last());
        if wants_probe(status_in(m, nodes.last()).0) {
            rest.push(nodes.last())
        } else {
            rest
        }
    }
}

/// The cache entry of a node with nothing in it.
pub open spec fn empty_cache() -> DeviceCache {
    DeviceCache { info: None, structure: None, attributes: None, device_tree: None }
}

/// The cache entry of a node, empty when the node has none.
pub open spec fn cache_in(c: Map<u64, DeviceCache>, node_id: u64) -> DeviceCache {
    if c.contains_key(node_id) {
        c[node_id]
    } else {
        empty_cache()
    }
}

/// The cache after a node's details are forgotten: its other cached data stays.
pub open spec fn info_forgotten(c: Map<u64, DeviceCache>, node_id: u64) -> Map<u64, DeviceCache> {
    if c.contains_key(node_id) {
        c.insert(node_id, DeviceCache { info: None, ..c[node_id] })
    } else {
        c
    }
}

/// A device marked failed is probed afresh: the next sweep over a list that
/// holds it picks it, and no cached details remain for a probe to return in
/// place of reading the device; its other cached data and every other node
/// are untouched.
pub proof fn failed_device_is_probed_afresh(
    m: Map<u64, StatusEntry>,
    c: Map<u64, DeviceCache>,
    nodes: Seq<u64>,
    node_id: u64,
    error: String,
    other: u64,
)
    requires
        nodes.contains(node_id),
    ensures
        probe_targets(with_status(m, node_id, DeviceStatus::Failed, Some(error)), nodes).contains(node_id),
        cache_in(info_forgotten(c, node_id), node_id).info is None,
        cache_in(info_forgotten(c, node_id), node_id).structure == cache_in(c, node_id).structure,
        cache_in(info_forgotten(c, node_id), node_id).attributes == cache_in(c, node_id).attributes,
        cache_in(info_forgotten(c, node_id), node_id).device_tree == cache_in(c, node_id).device_tree,
        other != node_id ==> cache_in(info_forgotten(c, node_id), other) == cache_in(c, other),
{
    probe_targets_are_exactly_the_stale(
        with_status(m, node_id, DeviceStatus::Failed, Some(error)),
        nodes,
        node_id,
    );
}

/// A status read back: after `set_status` the node reports the status and
/// error just set, a second identical `set_status` reports no change, and
/// every other node keeps what it had.
pub proof fn status_reads_back(
    m: Map<u64, StatusEntry>,
    node_id: u64,
    status: DeviceStatus,
    error: Option<String>,
    other: u64,
)
    ensures
        status_in(with_status(m, node_id, status, error), node_id) == (status, text_of(error)),
        !(status_in(with_status(m, node_id, status, error), node_id) != (status, text_of(error))),
        other != node_id ==> status_in(with_status(m, node_id, status, error), other) == status_in(
            m,
            other,
        ),
{
}

/// A node whose status was removed reads as never seen.
pub proof fn removed_status_reads_unknown(m: Map<u64, StatusEntry>, node_id: u64)
    ensures
        status_in(m.remove(node_id), node_id) == (DeviceStatus::Unknown, None::<Seq<char>>),
{
}

/// A sweep probes exactly the listed nodes that were never probed, are of
/// unknown status, or failed their last probe.
pub proof fn probe_targets_are_exactly_the_stale(m: Map<u64, StatusEntry>, nodes: Seq<u64>, x: u64)
    ensures
        probe_targets(m, nodes).contains(x) <==> (nodes.contains(x) && wants_probe(
            status_in(m, x).0,
        )),
    decreases nodes.len(),
{
    if nodes.len() > 0 {
        let init = nodes.drop_last();
        probe_targets_are_exactly_the_stale(m, init, x);
        assert(nodes == init.push(nodes.last()));
        if nodes.contains(x) && !init.contains(x) {
            assert(x == nodes.last()) by {
                let k = choose|k: int| 0 <= k < nodes.len() && nodes[k] == x;
                if k < nodes.len() - 1 {
                    assert(init[k] == x);
                }
            }
        }
        if init.contains(x) {
            let k = choose|k: int| 0 <= k < init.len() && init[k] == x;
            assert(nodes[k] == x);
        }
        let rest = probe_targets(m, init);
        if wants_probe(status_in(m, nodes.last()).0) {
            assert(rest.push(nodes.last())[rest.len() as int] == nodes.last());
            if rest.contains(x) {
                let k = choose|k: int| 0 <= k < rest.len() && rest[k] == x;
                assert(rest.push(nodes.last())[k] == x);
            }
            if rest.push(nodes.last()).contains(x) && x != nodes.last() {
                let k = choose|k: int| 0 <= k < rest.len() + 1 && rest.push(nodes.last())[k] == x;
                assert(rest[k] == x);
            }
        }
    }
}

/// A cached value read back: after caching a node's details they are what
/// is cached for it, its other cached data is unchanged, other nodes are
/// unaffected, and after `drop_cache` nothing is cached for the node.
pub proof fn cached_info_reads_back(c: Map<u64, DeviceCache>, node_id: u64, val: DeviceInfoDto, other: u64)
    ensures
        ({
            let after = c.insert(node_id, DeviceCache { info: Some(val), ..cache_in(c, node_id) });
            &&& cache_in(after, node_id).info == Some(val)
            &&& cache_in(after, node_id).structure == cache_in(c, node_id).structure
            &&& cache_in(after, node_id).attributes == cache_in(c, node_id).attributes
            &&& cache_in(after, node_id).device_tree == cache_in(c, node_id).device_tree
            &&& other != node_id ==> cache_in(after, other) == cache_in(c, other)
        }),
        cache_in(c.remove(node_id), node_id) == empty_cache(),
{
}

/// The same for a cached endpoint tree of either kind: after caching the
/// device tree it is what is cached, and the details are unchanged.
pub proof fn cached_tree_reads_back(c: Map<u64, DeviceCache>, node_id: u64, val: EndpointTree)
    ensures
        ({
            let after = c.insert(node_id, DeviceCache { device_tree: Some(val), ..cache_in(c, node_id) });
            &&& cache_in(after, node_id).device_tree == Some(val)
            &&& cache_in(after, node_id).info == cache_in(c, node_id).info
        }),
        ({
            let after = c.insert(node_id, DeviceCache { attributes: Some(val), ..cache_in(c, node_id) });
            &&& cache_in(after, node_id).attributes == Some(val)
            &&& cache_in(after, node_id).info == cache_in(c, node_id).info
        }),
        ({
            let after = c.insert(node_id, DeviceCache { structure: Some(val), ..cache_in(c, node_id) });
            &&& cache_in(after, node_id).structure == Some(val)
            &&& cache_in(after, node_id).info == cache_in(c, node_id).info
        }),
{
}

/// The application's record of device statuses and of the data read from devices.
pub struct AppState {
    device_status: HashMap<u64, StatusEntry>,
    device_cache: HashMap<u64, DeviceCache>,
}

fn same_optional_text(a: &Option<String>, b: &Option<String>) -> (r: bool)
    ensures
        r == (text_of(*a) == text_of(*b)),
{
    match (a, b) {
        (Some(x), Some(y)) => *x == *y,
        (None, None) => true,
        _ => false,
    }
}

fn copy_optional_text(a: &Option<String>) -> (r: Option<String>)
    ensures
        r == *a,
{
    match a {
        Some(x) => Some(x.clone()),
        None => None,
    }
}

impl AppState {
    /// The status table.
    pub closed spec fn statuses(&self) -> Map<u64, StatusEntry> {
        self.device_status@
    }

    /// The per-node cache.
    pub closed spec fn cache(&self) -> Map<u64, DeviceCache> {
        self.device_cache@
    }

    /// Nothing known, nothing cached.
    pub fn new() -> (s: AppState)
        ensures
            s.statuses() == Map::<u64, StatusEntry>::empty(),
            s.cache() == Map::<u64, DeviceCache>::empty(),
    {
        AppState { device_status: HashMap::new(), device_cache: HashMap::new() }
    }

    /// The status and error recorded for a node.
    pub fn status_of(&self, node_id: u64) -> (r: (DeviceStatus, Option<String>))
        ensures
            (r.0, text_of(r.1)) == status_in(self.statuses(), node_id),
    {
        match self.device_status.get(&node_id) {
            Some(e) => (e.status, copy_optional_text(&e.error)),
            None => (DeviceStatus::Unknown, None),
        }
    }

    /// Records a node's status and error; returns whether either differs
    /// from what was recorded before.
    pub fn set_status(&mut self, node_id: u64, status: DeviceStatus, error: Option<String>) -> (changed:
        bool)
        ensures
            changed == (status_in(old(self).statuses(), node_id) != (status, text_of(error))),
            final(self).statuses() == with_status(old(self).statuses(), node_id, status, error),
            final(self).cache() == old(self).cache(),
    {
        let unchanged: bool = match self.device_status.get(&node_id) {
            Some(e) => e.status == status && same_optional_text(&e.error, &error),
            None => status == DeviceStatus::Unknown && error.is_none(),
        };
        self.device_status.insert(node_id, StatusEntry { status, error });
        !unchanged
    }

    /// Forgets a node's status.
    pub fn remove_status(&mut self, node_id: u64)
        ensures
            final(self).statuses() == old(self).statuses().remove(node_id),
            final(self).cache() == old(self).cache(),
    {
        self.device_status.remove(&node_id);
    }

    /// Marks a node failed with `error` and forgets its cached details, so
    /// that the next probe reads the device again. Returns the change to
    /// announce, if the status or error changed.
    pub fn mark_failed_and_emit(&mut self, node_id: u64, error: String) -> (dto: Option<DeviceStatusDto>)
        ensures
            final(self).statuses() == with_status(old(self).statuses(), node_id, DeviceStatus::Failed, Some(error)),
            final(self).cache() == info_forgotten(old(self).cache(), node_id),
            dto is Some <==> status_in(old(self).statuses(), node_id) != (DeviceStatus::Failed, Some(error@)),
            dto is Some ==> dto == Some(DeviceStatusDto {
                node_id,
                status: DeviceStatus::Failed,
                error: Some(error),
                info: None,
            }),
    {
        let changed: bool = self.set_status(node_id, DeviceStatus::Failed, Some(error.clone()));
        match self.device_cache.remove(&node_id) {
            Some(entry) => {
                self.device_cache.insert(node_id, DeviceCache { info: None, ..entry });
            },
            None => {},
        }
        if changed {
            Some(DeviceStatusDto { node_id, status: DeviceStatus::Failed, error: Some(error), info: None })
        } else {
            None
        }
    }

    /// Marks a node connected after a recovered session. Returns the change
    /// to announce, if the status or error changed.
    pub fn mark_connected_and_emit(&mut self, node_id: u64) -> (dto: Option<DeviceStatusDto>)
        ensures
            final(self).statuses() == with_status(old(self).statuses(), node_id, DeviceStatus::Connected, None),
            final(self).cache() == old(self).cache(),
            dto is Some <==> status_in(old(self).statuses(), node_id) != (DeviceStatus::Connected, None::<Seq<char>>),
            dto is Some ==> dto == Some(DeviceStatusDto {
                node_id,
                status: DeviceStatus::Connected,
                error: None,
                info: None,
            }),
    {
        let changed: bool = self.set_status(node_id, DeviceStatus::Connected, None);
        if changed {
            Some(DeviceStatusDto { node_id, status: DeviceStatus::Connected, error: None, info: None })
        } else {
            None
        }
    }

    /// Marks a node as being checked at the start of a probe. Returns the
    /// change to announce, if the status or error changed.
    pub fn probe_started(&mut self, node_id: u64) -> (dto: Option<DeviceStatusDto>)
        ensures
            final(self).statuses() == with_status(old(self).statuses(), node_id, DeviceStatus::Checking, None),
            final(self).cache() == old(self).cache(),
            dto is Some <==> status_in(old(self).statuses(), node_id) != (DeviceStatus::Checking, None::<Seq<char>>),
            dto is Some ==> dto == Some(DeviceStatusDto {
                node_id,
                status: DeviceStatus::Checking,
                error: None,
                info: None,
            }),
    {
        let changed: bool = self.set_status(node_id, DeviceStatus::Checking, None);
        if changed {
            Some(DeviceStatusDto { node_id, status: DeviceStatus::Checking, error: None, info: None })
        } else {
            None
        }
    }

    /// Records the outcome of a probe: connected with the details read, or
    /// failed with the error. The change is always announced.
    pub fn probe_finished(&mut self, node_id: u64, outcome: &Result<DeviceInfoDto, String>) -> (dto:
        DeviceStatusDto)
        ensures
            final(self).cache() == old(self).cache(),
            match outcome {
                Ok(info) => {
                    &&& final(self).statuses() == with_status(old(self).statuses(), node_id, DeviceStatus::Connected, None)
                    &&& dto == (DeviceStatusDto { node_id, status: DeviceStatus::Connected, error: None, info: Some(*info) })
                },
                Err(e) => {
                    &&& final(self).statuses() == with_status(old(self).statuses(), node_id, DeviceStatus::Failed, Some(*e))
                    &&& dto == (DeviceStatusDto { node_id, status: DeviceStatus::Failed, error: Some(*e), info: None })
                },
            },
    {
        match outcome {
            Ok(info) => {
                self.set_status(node_id, DeviceStatus::Connected, None);
                DeviceStatusDto { node_id, status: DeviceStatus::Connected, error: None, info: Some(info.duplicate()) }
            },
            Err(e) => {
                self.set_status(node_id, DeviceStatus::Failed, Some(e.clone()));
                DeviceStatusDto { node_id, status: DeviceStatus::Failed, error: Some(e.clone()), info: None }
            },
        }
    }

    /// The nodes among `nodes` that the periodic sweep probes, in order:
    /// those never probed, of unknown status, or whose last probe failed.
    pub fn needs_probe(&self, nodes: &Vec<u64>) -> (r: Vec<u64>)
        ensures
            r@ == probe_targets(self.statuses(), nodes@),
    {
        let mut out: Vec<u64> = Vec::new();
        let mut i: usize = 0;
        while i < nodes.len()
            invariant
                i <= nodes.len(),
                out@ == probe_targets(self.statuses(), nodes@.subrange(0, i as int)),
            decreases nodes.len() - i,
        {
            let node_id: u64 = nodes[i];
            let status: DeviceStatus = match self.device_status.get(&node_id) {
                Some(e) => e.status,
                None => DeviceStatus::Unknown,
            };
            assert(nodes@.subrange(0, i + 1).drop_last() == nodes@.subrange(0, i as int));
            if status == DeviceStatus::Unknown || status == DeviceStatus::Failed {
                out.push(node_id);
            }
            i = i + 1;
        }
        assert(nodes@.subrange(0, nodes.len() as int) == nodes@);
        out
    }

    /// The current status of each of `nodes`, in order, with the cached
    /// details of those that are connected.
    pub fn device_statuses(&self, nodes: &Vec<u64>) -> (r: Vec<DeviceStatusDto>)
        ensures
            r@.len() == nodes@.len(),
            forall|i: int|
                0 <= i < nodes@.len() ==> {
                    let (status, error) = status_in(self.statuses(), nodes@[i]);
                    &&& (#[trigger] r@[i]).node_id == nodes@[i]
                    &&& r@[i].status == status
                    &&& text_of(r@[i].error) == error
                    &&& r@[i].info == if status == DeviceStatus::Connected {
                        cache_in(self.cache(), nodes@[i]).info
                    } else {
                        None
                    }
                },
    {
        let mut out: Vec<DeviceStatusDto> = Vec::new();
        let mut i: usize = 0;
        while i < nodes.len()
            invariant
                i <= nodes.len(),
                out@.len() == i,
                forall|k: int|
                    0 <= k < i ==> {
                        let (status, error) = status_in(self.statuses(), nodes@[k]);
                        &&& (#[trigger] out@[k]).node_id == nodes@[k]
                        &&& out@[k].status == status
                        &&& text_of(out@[k].error) == error
                        &&& out@[k].info == if status == DeviceStatus::Connected {
                            cache_in(self.cache(), nodes@[k]).info
                        } else {
                            None
                        }
                    },
            decreases nodes.len() - i,
        {
            let node_id: u64 = nodes[i];
            let (status, error) = self.status_of(node_id);
            let info: Option<DeviceInfoDto> = if status == DeviceStatus::Connected {
                match self.cache_get_info(node_id) {
                    Some(info) => Some(info.duplicate()),
                    None => None,
                }
            } else {
                None
            };
            out.push(DeviceStatusDto { node_id, status, error, info });
            i = i + 1;
        }
        out
    }

    /// Forgets a removed device's status and cached data; returns the
    /// announcement of its removal.
    pub fn forget_device(&mut self, node_id: u64) -> (dto: DeviceStatusDto)
        ensures
            final(self).statuses() == old(self).statuses().remove(node_id),
            final(self).cache() == old(self).cache().remove(node_id),
            dto == (DeviceStatusDto { node_id, status: DeviceStatus::Removed, error: None, info: None }),
    {
        self.drop_cache(node_id);
        self.remove_status(node_id);
        DeviceStatusDto { node_id, status: DeviceStatus::Removed, error: None, info: None }
    }

    /// Forgets everything cached for a node.
    pub fn drop_cache(&mut self, node_id: u64)
        ensures
            final(self).cache() == old(self).cache().remove(node_id),
            final(self).statuses() == old(self).statuses(),
    {
        self.device_cache.remove(&node_id);
    }

    /// The cached details of a node.
    pub fn cache_get_info(&self, node_id: u64) -> (r: Option<&DeviceInfoDto>)
        ensures
            r == match cache_in(self.cache(), node_id).info {
                Some(v) => Some(&v),
                None => None,
            },
    {
        match self.device_cache.get(&node_id) {
            Some(e) => e.info.as_ref(),
            None => None,
        }
    }

    /// The cached endpoint structure of a node.
    pub fn cache_get_structure(&self, node_id: u64) -> (r: Option<&EndpointTree>)
        ensures
            r == match cache_in(self.cache(), node_id).structure {
                Some(v) => Some(&v),
                None => None,
            },
    {
        match self.device_cache.get(&node_id) {
            Some(e) => e.structure.as_ref(),
            None => None,
        }
    }

    /// The cached full attribute tree of a node.
    pub fn cache_get_attributes(&self, node_id: u64) -> (r: Option<&EndpointTree>)
        ensures
            r == match cache_in(self.cache(), node_id).attributes {
                Some(v) => Some(&v),
                None => None,
            },
    {
        match self.device_cache.get(&node_id) {
            Some(e) => e.attributes.as_ref(),
            None => None,
        }
    }

    /// The cached device tree of a node.
    pub fn cache_get_device_tree(&self, node_id: u64) -> (r: Option<&EndpointTree>)
        ensures
            r == match cache_in(self.cache(), node_id).device_tree {
                Some(v) => Some(&v),
                None => None,
            },
    {
        match self.device_cache.get(&node_id) {
            Some(e) => e.device_tree.as_ref(),
            None => None,
        }
    }

    fn take_cache(&mut self, node_id: u64) -> (e: DeviceCache)
        ensures
            e == cache_in(old(self).cache(), node_id),
            final(self).cache() == old(self).cache().remove(node_id),
            final(self).statuses() == old(self).statuses(),
    {
        match self.device_cache.remove(&node_id) {
            Some(e) => e,
            None => DeviceCache { info: None, structure: None, attributes: None, device_tree: None },
        }
    }

    /// Caches the details of a node; the node's other cached data is kept.
    pub fn cache_set_info(&mut self, node_id: u64, val: DeviceInfoDto)
        ensures
            final(self).cache() == old(self).cache().insert(
                node_id,
                DeviceCache { info: Some(val), ..cache_in(old(self).cache(), node_id) },
            ),
            final(self).statuses() == old(self).statuses(),
    {
        let e: DeviceCache = self.take_cache(node_id);
        self.device_cache.insert(node_id, DeviceCache { info: Some(val), ..e });
    }

    /// Caches the endpoint structure of a node; the node's other cached data is kept.
    pub fn cache_set_structure(&mut self, node_id: u64, val: EndpointTree)
        ensures
            final(self).cache() == old(self).cache().insert(
                node_id,
                DeviceCache { structure: Some(val), ..cache_in(old(self).cache(), node_id) },
            ),
            final(self).statuses() == old(self).statuses(),
    {
        let e: DeviceCache = self.take_cache(node_id);
        self.device_cache.insert(node_id, DeviceCache { structure: Some(val), ..e });
    }

    /// Caches the full attribute tree of a node; the node's other cached data is kept.
    pub fn cache_set_attributes(&mut self, node_id: u64, val: EndpointTree)
        ensures
            final(self).cache() == old(self).cache().insert(
                node_id,
                DeviceCache { attributes: Some(val), ..cache_in(old(self).cache(), node_id) },
            ),
            final(self).statuses() == old(self).statuses(),
    {
        let e: DeviceCache = self.take_cache(node_id);
        self.device_cache.insert(node_id, DeviceCache { attributes: Some(val), ..e });
    }

    /// Caches the device tree of a node; the node's other cached data is kept.
    pub fn cache_set_device_tree(&mut self, node_id: u64, val: EndpointTree)
        ensures
            final(self).cache() == old(self).cache().insert(
                node_id,
                DeviceCache { device_tree: Some(val), ..cache_in(old(self).cache(), node_id) },
            ),
            final(self).statuses() == old(self).statuses(),
    {
        let e: DeviceCache = self.take_cache(node_id);
        self.device_cache.insert(node_id, DeviceCache { device_tree: Some(val), ..e });
    }
}

} // verus!
