use vstd::prelude::*;

verus! {

/// One attribute of a cluster: its value as decoded text, or the error of its read.
#[derive(Clone, Debug)]
pub struct AttrNode {
    pub id: u32,
    pub name: String,
    pub value: Option<String>,
    pub error: Option<String>,
}

/// One cluster of an endpoint with the attributes that were read.
#[derive(Clone, Debug)]
pub struct ClusterNode {
    pub id: u32,
    pub name: String,
    pub attributes: Vec<AttrNode>,
}

/// One endpoint of a device with its clusters.
#[derive(Clone, Debug)]
pub struct EndpointNode {
    pub id: u16,
    pub clusters: Vec<ClusterNode>,
}

/// The endpoints of a device, as read from it.
#[derive(Clone, Debug)]
pub struct EndpointTree {
    pub endpoints: Vec<EndpointNode>,
}

/// Progress of a full attribute read, reported to the user interface.
#[derive(Clone, Debug)]
pub struct AttrProgressEvent {
    pub phase: &'static str,
    pub endpoint_index: usize,
    pub endpoint_count: usize,
    pub endpoint_id: Option<u16>,
    pub endpoint_attr_index: usize,
    pub endpoint_attr_total: usize,
    pub current_cluster: Option<String>,
}

/// The event that opens a full attribute read.
pub fn progress_connecting() -> (e: AttrProgressEvent)
    ensures
        e.phase@ == "connecting"@,
        e.endpoint_index == 0 && e.endpoint_count == 0 && e.endpoint_id is None,
        e.endpoint_attr_index == 0 && e.endpoint_attr_total == 0 && e.current_cluster is None,
{
    AttrProgressEvent {
        phase: "connecting",
        endpoint_index: 0,
        endpoint_count: 0,
        endpoint_id: None,
        endpoint_attr_index: 0,
        endpoint_attr_total: 0,
        current_cluster: None,
    }
}

/// The event that starts the discovery of endpoint `endpoint_id`, the
/// `endpoint_index`-th of `endpoint_count`.
pub fn progress_discover(endpoint_index: usize, endpoint_count: usize, endpoint_id: u16) -> (e:
    AttrProgressEvent)
    ensures
        e.phase@ == "discover"@,
        e.endpoint_index == endpoint_index && e.endpoint_count == endpoint_count,
        e.endpoint_id == Some(endpoint_id),
        e.endpoint_attr_index == 0 && e.endpoint_attr_total == 0 && e.current_cluster is None,
{
    AttrProgressEvent {
        phase: "discover",
        endpoint_index,
        endpoint_count,
        endpoint_id: Some(endpoint_id),
        endpoint_attr_index: 0,
        endpoint_attr_total: 0,
        current_cluster: None,
    }
}

/// The event after the `read_so_far`-th attribute of `grand_total` was read,
/// in cluster `cluster` of endpoint `endpoint_id`.
pub fn progress_read(endpoint_id: u16, read_so_far: usize, grand_total: usize, cluster: String) -> (e:
    AttrProgressEvent)
    ensures
        e.phase@ == "read"@,
        e.endpoint_index == 0 && e.endpoint_count == 0,
        e.endpoint_id == Some(endpoint_id),
        e.endpoint_attr_index == read_so_far && e.endpoint_attr_total == grand_total,
        e.current_cluster == Some(cluster),
{
    AttrProgressEvent {
        phase: "read",
        endpoint_index: 0,
        endpoint_count: 0,
        endpoint_id: Some(endpoint_id),
        endpoint_attr_index: read_so_far,
        endpoint_attr_total: grand_total,
        current_cluster: Some(cluster),
    }
}

/// The event that closes a full attribute read of `endpoint_count` endpoints.
pub fn progress_done(endpoint_count: usize) -> (e: AttrProgressEvent)
    ensures
        e.phase@ == "done"@,
        e.endpoint_index == endpoint_count && e.endpoint_count == endpoint_count,
        e.endpoint_id is None,
        e.endpoint_attr_index == 0 && e.endpoint_attr_total == 0 && e.current_cluster is None,
{
    AttrProgressEvent {
        phase: "done",
        endpoint_index: endpoint_count,
        endpoint_count,
        endpoint_id: None,
        endpoint_attr_index: 0,
        endpoint_attr_total: 0,
        current_cluster: None,
    }
}

} // verus!
