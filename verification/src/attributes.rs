use vstd::prelude::*;

use crate::clusters::{
    attr_display_name, attr_name, cluster_name_of, catalog_cluster_name, ATTR_ID_ACCEPTED_COMMAND_LIST,
    ATTR_ID_ATTRIBUTE_LIST, ATTR_ID_CLUSTER_REVISION, ATTR_ID_EVENT_LIST, ATTR_ID_FEATURE_MAP,
    ATTR_ID_GENERATED_COMMAND_LIST,
};
use crate::text::{decimal, decimal_text};
use crate::tlv::{attribute_json, decode_attribute_json, ints_of, int_elements, list_ints, TlvItem, TlvValue};
use crate::tree::{progress_read, AttrNode, AttrProgressEvent, ClusterNode, EndpointNode, EndpointTree};

verus! {

/// Whether a sequence of endpoint ids is in strictly increasing order, so
/// that it is sorted and holds each id once.
pub open spec fn strictly_increasing(s: Seq<u16>) -> bool {
    forall|i: int, j: int| 0 <= i < j < s.len() ==> s[i] < s[j]
}

/// A reported integer taken as an endpoint id: its low 16 bits.
pub open spec fn as_endpoint(v: u64) -> u16 {
    (v % 0x10000) as u16
}

/// A reported integer taken as a cluster or attribute id: its low 32 bits.
pub open spec fn as_id32(v: u64) -> u32 {
    (v % 0x1_0000_0000) as u32
}

/// Whether `x` is an endpoint of a device whose root endpoint lists `parts`:
/// the root endpoint 0 and every listed endpoint.
pub open spec fn is_endpoint_of(parts: Seq<u64>, x: u16) -> bool {
    x == 0 || exists|i: int| 0 <= i < parts.len() && as_endpoint(#[trigger] parts[i]) == x
}

fn insert_sorted(v: &mut Vec<u16>, x: u16)
    requires
        strictly_increasing(old(v)@),
    ensures
        strictly_increasing(final(v)@),
        forall|y: u16| final(v)@.contains(y) <==> (old(v)@.contains(y) || y == x),
{
    let mut i: usize = 0;
    while i < v.len() && v[i] < x
        invariant
            i <= v.len(),
            v@ == old(v)@,
            forall|k: int| 0 <= k < i ==> v@[k] < x,
        decreases v.len() - i,
    {
        i = i + 1;
    }
    if i < v.len() && v[i] == x {
        assert(v@.contains(x));
        return;
    }
    let ghost before = v@;
    assert(before == old(v)@);
    v.insert(i, x);
    assert(v@ =~= before.subrange(0, i as int).push(x) + before.subrange(i as int, before.len() as int));
    assert forall|a: int, b: int| 0 <= a < b < v@.len() implies v@[a] < v@[b] by {
        if b < i {
        } else if b == i {
        } else if a < i {
            assert(before[b - 1] > x);
        } else if a == i {
            assert(before[b - 1] > x || before[b - 1] == before[i as int]);
        } else {
        }
    }
    assert forall|y: u16| #[trigger] v@.contains(y) implies (before.contains(y) || y == x) by {
        let k = choose|k: int| 0 <= k < v@.len() && v@[k] == y;
        if k < i {
            assert(before[k] == y);
        } else if k > i {
            assert(before[k - 1] == y);
        }
    }
    assert forall|y: u16| #[trigger] before.contains(y) implies v@.contains(y) by {
        let k = choose|k: int| 0 <= k < before.len() && before[k] == y;
        if k < i {
            assert(v@[k] == y);
        } else {
            assert(v@[k + 1] == y);
        }
    }
    assert(v@[i as int] == x);
    assert(v@.contains(x));
}

/// The endpoints of a device, sorted and each once: the root endpoint 0 and
/// the endpoints that its parts list reports (as `None` when the list could
/// not be read or is not a list).
pub fn endpoint_list(parts: Option<&TlvValue>) -> (r: Vec<u16>)
    ensures
        strictly_increasing(r@),
        forall|x: u16|
            r@.contains(x) <==> is_endpoint_of(
                match parts {
                    Some(v) => match list_ints(*v) {
                        Some(s) => s,
                        None => Seq::empty(),
                    },
                    None => Seq::empty(),
                },
                x,
            ),
{
    let ints: Vec<u64> = match parts {
        Some(v) => match int_elements(v) {
            Some(s) => s,
            None => Vec::new(),
        },
        None => Vec::new(),
    };
    let ghost s = ints@;
    let mut out: Vec<u16> = Vec::new();
    insert_sorted(&mut out, 0);
    let mut i: usize = 0;
    while i < ints.len()
        invariant
            i <= ints.len(),
            s == ints@,
            strictly_increasing(out@),
            forall|x: u16| out@.contains(x) <==> is_endpoint_of(s.subrange(0, i as int), x),
        decreases ints.len() - i,
    {
        let e: u16 = (ints[i] % 0x10000) as u16;
        insert_sorted(&mut out, e);
        assert forall|x: u16| out@.contains(x) <==> is_endpoint_of(s.subrange(0, i + 1), x) by {
            let t = s.subrange(0, i + 1);
            if x != 0 && x == e {
                assert(t[i as int] == ints@[i as int]);
            }
            if x != 0 && (exists|k: int| 0 <= k < t.len() && as_endpoint(#[trigger] t[k]) == x) {
                let k = choose|k: int| 0 <= k < t.len() && as_endpoint(#[trigger] t[k]) == x;
                if k < i {
                    assert(s.subrange(0, i as int)[k] == t[k]);
                }
            }
            if x != 0 && (exists|k: int|
                0 <= k < i && as_endpoint(#[trigger] s.subrange(0, i as int)[k]) == x) {
                let k = choose|k: int|
                    0 <= k < i && as_endpoint(#[trigger] s.subrange(0, i as int)[k]) == x;
                assert(t[k] == s.subrange(0, i as int)[k]);
            }
        }
        i = i + 1;
    }
    assert(s.subrange(0, s.len() as int) =~= s);
    out
}

/// The endpoints to search for an aggregator: the root endpoint, then the
/// reported parts in their order, as they are listed.
pub fn aggregator_scan_endpoints(parts: Option<&TlvValue>) -> (r: Vec<u16>)
    ensures
        r@ == seq![0u16] + match parts {
            Some(v) => match list_ints(*v) {
                Some(s) => s.map_values(|x: u64| as_endpoint(x)),
                None => Seq::empty(),
            },
            None => Seq::empty(),
        },
{
    let ints: Vec<u64> = match parts {
        Some(v) => match int_elements(v) {
            Some(s) => s,
            None => Vec::new(),
        },
        None => Vec::new(),
    };
    let mut out: Vec<u16> = Vec::new();
    out.push(0);
    let mut i: usize = 0;
    while i < ints.len()
        invariant
            i <= ints.len(),
            out@ == seq![0u16] + ints@.subrange(0, i as int).map_values(|x: u64| as_endpoint(x)),
        decreases ints.len() - i,
    {
        out.push((ints[i] % 0x10000) as u16);
        i = i + 1;
        assert(out@ =~= seq![0u16] + ints@.subrange(0, i as int).map_values(|x: u64| as_endpoint(x)));
    }
    assert(ints@.subrange(0, ints@.len() as int) =~= ints@);
    out
}

/// The device type id of an aggregator, a device that bridges others.
pub const DEVICE_TYPE_AGGREGATOR: u64 = 0x000E;

/// Whether a device type list names the aggregator type: some element has
/// the aggregator id under tag 0.
pub open spec fn lists_aggregator_spec(v: TlvValue) -> bool {
    match v {
        TlvValue::List(items) => exists|i: int|
            0 <= i < items@.len() && crate::tlv::int_at(#[trigger] items@[i].value, seq![0u8])
                == Some(DEVICE_TYPE_AGGREGATOR),
        _ => false,
    }
}

/// A device type list names a bridge exactly when one of its entries has
/// device type 0x000E under tag 0: a list whose every entry has another
/// type, or none, does not.
pub proof fn aggregator_means_device_type_0x000e(v: TlvValue)
    requires
        v is List,
    ensures
        lists_aggregator_spec(v) <==> exists|i: int|
            0 <= i < v->List_0@.len() && crate::tlv::int_at(#[trigger] v->List_0@[i].value, seq![0u8])
                == Some(0x000Eu64),
        (forall|i: int|
            0 <= i < v->List_0@.len() ==> crate::tlv::int_at(#[trigger] v->List_0@[i].value, seq![0u8])
                != Some(0x000Eu64)) ==> !lists_aggregator_spec(v),
{
}

/// Whether an endpoint's device type list (as `None` when it could not be
/// read) names the aggregator type.
pub fn lists_aggregator(device_types: Option<&TlvValue>) -> (r: bool)
    ensures
        r == match device_types {
            Some(v) => lists_aggregator_spec(*v),
            None => false,
        },
{
    let v: &TlvValue = match device_types {
        Some(v) => v,
        None => {
            return false;
        },
    };
    match v {
        TlvValue::List(items) => {
            let path: Vec<u8> = vec![0u8];
            assert(path@ =~= seq![0u8]);
            let mut i: usize = 0;
            while i < items.len()
                invariant
                    i <= items.len(),
                    *v == TlvValue::List(*items),
                    device_types == Some(v),
                    path@ == seq![0u8],
                    forall|k: int|
                        0 <= k < i ==> crate::tlv::int_at(#[trigger] items@[k].value, seq![0u8])
                            != Some(DEVICE_TYPE_AGGREGATOR),
                decreases items.len() - i,
            {
                let item: &TlvItem = &items[i];
                if item.get_int(&path) == Some(DEVICE_TYPE_AGGREGATOR) {
                    assert(crate::tlv::int_at(items@[i as int].value, seq![0u8]) == Some(
                        DEVICE_TYPE_AGGREGATOR,
                    ));
                    return true;
                }
                i = i + 1;
            }
            false
        },
        _ => false,
    }
}

/// The ids of a list of cluster or attribute ids.
pub open spec fn ids_of(s: Seq<u64>) -> Seq<u32> {
    s.map_values(|x: u64| as_id32(x))
}

fn ids32(ints: &Vec<u64>) -> (r: Vec<u32>)
    ensures
        r@ == ids_of(ints@),
{
    let mut out: Vec<u32> = Vec::new();
    let mut i: usize = 0;
    while i < ints.len()
        invariant
            i <= ints.len(),
            out@ == ids_of(ints@.subrange(0, i as int)),
        decreases ints.len() - i,
    {
        out.push((ints[i] % 0x1_0000_0000) as u32);
        i = i + 1;
        assert(out@ =~= ids_of(ints@.subrange(0, i as int)));
    }
    assert(ints@.subrange(0, ints@.len() as int) =~= ints@);
    out
}

/// The clusters that an endpoint's server list reports; `None` when the list
/// could not be read (given as `None`) or is not a list, in which case the
/// endpoint is skipped.
pub fn cluster_ids(server_list: Option<&TlvValue>) -> (r: Option<Vec<u32>>)
    ensures
        match server_list {
            Some(v) => match list_ints(*v) {
                Some(s) => r is Some && r->0@ == ids_of(s),
                None => r is None,
            },
            None => r is None,
        },
{
    match server_list {
        Some(v) => match int_elements(v) {
            Some(s) => Some(ids32(&s)),
            None => None,
        },
        None => None,
    }
}

/// The attributes that a cluster's attribute list reports; none when the
/// list could not be read (given as `None`) or is not a list.
pub fn attribute_ids(attribute_list: Option<&TlvValue>) -> (r: Vec<u32>)
    ensures
        r@ == match attribute_list {
            Some(v) => match list_ints(*v) {
                Some(s) => ids_of(s),
                None => Seq::empty(),
            },
            None => Seq::empty(),
        },
{
    match attribute_list {
        Some(v) => match int_elements(v) {
            Some(s) => ids32(&s),
            None => Vec::new(),
        },
        None => Vec::new(),
    }
}

/// The decimal texts of `ids` joined by commas.
pub open spec fn comma_joined(ids: Seq<u64>) -> Seq<char>
    decreases ids.len(),
{
    if ids.len() == 0 {
        Seq::empty()
    } else if ids.len() == 1 {
        decimal(ids[0] as nat)
    } else {
        comma_joined(ids.drop_last()) + ","@ + decimal(ids.last() as nat)
    }
}

/// Whether an attribute id names one of the global list attributes.
pub open spec fn is_global_list(attr_id: u32) -> bool {
    attr_id == ATTR_ID_GENERATED_COMMAND_LIST || attr_id == ATTR_ID_ACCEPTED_COMMAND_LIST
        || attr_id == ATTR_ID_EVENT_LIST || attr_id == ATTR_ID_ATTRIBUTE_LIST
}

/// The text of a global attribute's value: a bracketed, comma-separated
/// list of the ids for the list attributes (each cut to 32 bits), the
/// number for the feature map and cluster revision; none for any other
/// attribute or a value of the wrong shape.
pub open spec fn global_attr_text(attr_id: u32, v: TlvValue) -> Option<Seq<char>> {
    if is_global_list(attr_id) {
        match list_ints(v) {
            Some(s) => Some("["@ + comma_joined(s.map_values(|x: u64| as_id32(x) as u64)) + "]"@),
            None => None,
        }
    } else if attr_id == ATTR_ID_FEATURE_MAP || attr_id == ATTR_ID_CLUSTER_REVISION {
        match v {
            TlvValue::Int(i) => Some(decimal(i as nat)),
            _ => None,
        }
    } else {
        None
    }
}

/// Decodes the value of a global attribute.
pub fn decode_global_attr(attr_id: u32, tlv: &TlvValue) -> (r: Option<String>)
    ensures
        match global_attr_text(attr_id, *tlv) {
            Some(t) => r is Some && r->0@ == t,
            None => r is None,
        },
{
    if attr_id == ATTR_ID_GENERATED_COMMAND_LIST || attr_id == ATTR_ID_ACCEPTED_COMMAND_LIST
        || attr_id == ATTR_ID_EVENT_LIST || attr_id == ATTR_ID_ATTRIBUTE_LIST {
        let ints: Vec<u64> = match int_elements(tlv) {
            Some(s) => s,
            None => {
                return None;
            },
        };
        let ghost ids = ints@.map_values(|x: u64| as_id32(x) as u64);
        let mut text: String = String::from_str("[");
        let mut i: usize = 0;
        while i < ints.len()
            invariant
                i <= ints.len(),
                ids == ints@.map_values(|x: u64| as_id32(x) as u64),
                text@ == "["@ + comma_joined(ids.subrange(0, i as int)),
            decreases ints.len() - i,
        {
            let id: u32 = (ints[i] % 0x1_0000_0000) as u32;
            let d: String = decimal_text(id as u64);
            let ghost prev = ids.subrange(0, i as int);
            assert(ids.subrange(0, i + 1).drop_last() =~= prev);
            if i > 0 {
                text.append(",");
                proof {
                    assert("["@ + (comma_joined(prev) + ","@ + d@) =~= "["@ + comma_joined(prev) + ","@ + d@);
                }
            } else {
                assert(prev.len() == 0);
            }
            text.append(d.as_str());
            i = i + 1;
        }
        assert(ids.subrange(0, ints@.len() as int) =~= ids);
        text.append("]");
        Some(text)
    } else if attr_id == ATTR_ID_FEATURE_MAP || attr_id == ATTR_ID_CLUSTER_REVISION {
        match tlv {
            TlvValue::Int(v) => Some(decimal_text(*v)),
            _ => None,
        }
    } else {
        None
    }
}

/// The four global list attributes (0xFFF8 to 0xFFFB) of any list value
/// decode to a bracketed list of the decimal 32-bit ids of its integer
/// elements, joined by commas, whatever the cluster.
pub proof fn global_lists_decode_to_their_ids(v: TlvValue)
    requires
        v is List,
    ensures
        ({
            let text = Some(
                "["@ + comma_joined(
                    crate::tlv::ints_of(v->List_0@).map_values(|x: u64| (x % 0x1_0000_0000) as u64),
                ) + "]"@,
            );
            &&& global_attr_text(0xFFF8u32, v) == text
            &&& global_attr_text(0xFFF9u32, v) == text
            &&& global_attr_text(0xFFFAu32, v) == text
            &&& global_attr_text(0xFFFBu32, v) == text
        }),
{
    let s = crate::tlv::ints_of(v->List_0@);
    assert(s.map_values(|x: u64| as_id32(x) as u64) =~= s.map_values(|x: u64| (x % 0x1_0000_0000) as u64));
}

/// The outcome of reading one attribute: the value, or the error.
#[derive(Debug)]
pub enum AttrRead {
    Value { tlv: TlvValue },
    Failed { error: String },
}

/// The text of a value of attribute `attr_id` of cluster `cluster_id`: the
/// global attribute's own text, else the codec's JSON text.
pub open spec fn attr_value_text(cluster_id: u32, attr_id: u32, v: TlvValue) -> Seq<char> {
    match global_attr_text(attr_id, v) {
        Some(t) => t,
        None => attribute_json(cluster_id, attr_id, v),
    }
}

/// Whether `n` is the node that a full attribute read shows for attribute
/// `attr_id` of cluster `cluster_id` read with outcome `read`: its display
/// name, and the text of the value or the error of the read.
pub open spec fn is_attr_node(n: AttrNode, cluster_id: u32, attr_id: u32, read: AttrRead) -> bool {
    &&& n.id == attr_id
    &&& n.name@ == attr_display_name(cluster_id, attr_id)
    &&& match read {
        AttrRead::Value { tlv } => {
            &&& n.error is None
            &&& n.value is Some
            &&& n.value->0@ == attr_value_text(cluster_id, attr_id, tlv)
        },
        AttrRead::Failed { error } => n.value is None && n.error == Some(error),
    }
}

/// The codec's JSON text of a value of attribute `attr_id` of cluster
/// `cluster_id`, as a single attribute read shows it.
pub fn attribute_text(cluster_id: u32, attr_id: u32, v: &TlvValue) -> (r: String)
    ensures
        r@ == attribute_json(cluster_id, attr_id, *v),
{
    decode_attribute_json(cluster_id, attr_id, v)
}

/// The node for one attribute of a full attribute read.
pub fn attr_node(cluster_id: u32, attr_id: u32, read: &AttrRead) -> (n: AttrNode)
    ensures
        is_attr_node(n, cluster_id, attr_id, *read),
{
    let name: String = attr_name(cluster_id, attr_id);
    match read {
        AttrRead::Value { tlv } => {
            let text: String = match decode_global_attr(attr_id, tlv) {
                Some(t) => t,
                None => decode_attribute_json(cluster_id, attr_id, tlv),
            };
            AttrNode { id: attr_id, name, value: Some(text), error: None }
        },
        AttrRead::Failed { error } => AttrNode { id: attr_id, name, value: None, error: Some(error.clone()) },
    }
}

/// A cluster's catalog name, or `Unknown`.
pub open spec fn cluster_display_name(cluster_id: u32) -> Seq<char> {
    match cluster_name_of(cluster_id) {
        Some(n) => n,
        None => "Unknown"@,
    }
}

/// The catalog name of a cluster, or `Unknown`.
pub fn cluster_name_or_unknown(cluster_id: u32) -> (r: String)
    ensures
        r@ == cluster_display_name(cluster_id),
{
    match catalog_cluster_name(cluster_id) {
        Some(n) => String::from_str(n),
        None => String::from_str("Unknown"),
    }
}

/// What a full attribute read plans to read of one cluster.
#[derive(Debug)]
pub struct ClusterPlan {
    pub id: u32,
    pub name: String,
    pub attr_ids: Vec<u32>,
}

/// What a full attribute read plans to read of one endpoint.
#[derive(Debug)]
pub struct EndpointPlan {
    pub id: u16,
    pub clusters: Vec<ClusterPlan>,
}

/// The number of attributes of an endpoint's plan.
pub open spec fn cluster_attr_total(c: Seq<ClusterPlan>) -> nat
    decreases c.len(),
{
    if c.len() == 0 {
        0
    } else {
        cluster_attr_total(c.drop_last()) + c.last().attr_ids@.len()
    }
}

/// The number of attributes of a whole plan, which a full read reports progress against.
pub open spec fn plan_attr_total(p: Seq<EndpointPlan>) -> nat
    decreases p.len(),
{
    if p.len() == 0 {
        0
    } else {
        plan_attr_total(p.drop_last()) + cluster_attr_total(p.last().clusters@)
    }
}

/// The number of attributes that a full read will read.
pub fn grand_total(plan: &Vec<EndpointPlan>) -> (r: usize)
    requires
        plan_attr_total(plan@) <= usize::MAX,
    ensures
        r == plan_attr_total(plan@),
{
    let mut total: usize = 0;
    let mut i: usize = 0;
    while i < plan.len()
        invariant
            i <= plan.len(),
            plan_attr_total(plan@) <= usize::MAX,
            total == plan_attr_total(plan@.subrange(0, i as int)),
        decreases plan.len() - i,
    {
        assert(plan@.subrange(0, i + 1).drop_last() =~= plan@.subrange(0, i as int));
        let clusters: &Vec<ClusterPlan> = &plan[i].clusters;
        proof {
            lemma_plan_total_prefix(plan@, i as int + 1);
        }
        let mut j: usize = 0;
        let base: usize = total;
        while j < clusters.len()
            invariant
                j <= clusters.len(),
                base + cluster_attr_total(clusters@) <= usize::MAX,
                total == base + cluster_attr_total(clusters@.subrange(0, j as int)),
            decreases clusters.len() - j,
        {
            assert(clusters@.subrange(0, j + 1).drop_last() =~= clusters@.subrange(0, j as int));
            proof {
                lemma_cluster_total_prefix(clusters@, j as int + 1);
            }
            total = total + clusters[j].attr_ids.len();
            j = j + 1;
        }
        assert(clusters@.subrange(0, clusters@.len() as int) =~= clusters@);
        i = i + 1;
    }
    assert(plan@.subrange(0, plan@.len() as int) =~= plan@);
    total
}

proof fn lemma_cluster_total_prefix(c: Seq<ClusterPlan>, k: int)
    requires
        0 <= k <= c.len(),
    ensures
        cluster_attr_total(c.subrange(0, k)) <= cluster_attr_total(c),
    decreases c.len(),
{
    if k < c.len() {
        assert(c.drop_last().subrange(0, k) =~= c.subrange(0, k));
        lemma_cluster_total_prefix(c.drop_last(), k);
    } else {
        assert(c.subrange(0, k) =~= c);
    }
}

proof fn lemma_plan_total_prefix(p: Seq<EndpointPlan>, k: int)
    requires
        0 <= k <= p.len(),
    ensures
        plan_attr_total(p.subrange(0, k)) <= plan_attr_total(p),
    decreases p.len(),
{
    if k < p.len() {
        assert(p.drop_last().subrange(0, k) =~= p.subrange(0, k));
        lemma_plan_total_prefix(p.drop_last(), k);
    } else {
        assert(p.subrange(0, k) =~= p);
    }
}

/// The attribute ids that an attribute list reports, as `attribute_ids` takes them.
pub open spec fn listed_attribute_ids(attribute_list: Option<&TlvValue>) -> Seq<u32> {
    match attribute_list {
        Some(v) => match list_ints(*v) {
            Some(s) => ids_of(s),
            None => Seq::empty(),
        },
        None => Seq::empty(),
    }
}

/// The plan for one cluster of an endpoint: its catalog name and the
/// attributes that its attribute list reports.
pub fn cluster_plan(cluster_id: u32, attribute_list: Option<&TlvValue>) -> (p: ClusterPlan)
    ensures
        p.id == cluster_id,
        p.name@ == cluster_display_name(cluster_id),
        p.attr_ids@ == listed_attribute_ids(attribute_list),
{
    ClusterPlan { id: cluster_id, name: cluster_name_or_unknown(cluster_id), attr_ids: attribute_ids(attribute_list) }
}

/// One read of a full attribute read: the attribute, where it is, and the
/// name of its cluster for the progress report.
#[derive(Clone, Debug)]
pub struct ReadStep {
    pub endpoint: u16,
    pub cluster: u32,
    pub attr: u32,
    pub cluster_name: String,
}

/// The read of attribute `attr` of cluster `c` on endpoint `ep`.
pub open spec fn step_of(ep: u16, c: ClusterPlan, attr: u32) -> ReadStep {
    ReadStep { endpoint: ep, cluster: c.id, attr, cluster_name: c.name }
}

/// The reads of the clusters `cs` of endpoint `ep`, cluster by cluster,
/// each cluster's attributes in their listed order.
pub open spec fn cluster_steps(ep: u16, cs: Seq<ClusterPlan>) -> Seq<ReadStep>
    decreases cs.len(),
{
    if cs.len() == 0 {
        Seq::empty()
    } else {
        cluster_steps(ep, cs.drop_last()) + cs.last().attr_ids@.map_values(|a: u32| step_of(ep, cs.last(), a))
    }
}

/// The reads of a whole plan, endpoint by endpoint.
pub open spec fn plan_steps(p: Seq<EndpointPlan>) -> Seq<ReadStep>
    decreases p.len(),
{
    if p.len() == 0 {
        Seq::empty()
    } else {
        plan_steps(p.drop_last()) + cluster_steps(p.last().id, p.last().clusters@)
    }
}

proof fn lemma_cluster_steps_len(ep: u16, cs: Seq<ClusterPlan>)
    ensures
        cluster_steps(ep, cs).len() == cluster_attr_total(cs),
    decreases cs.len(),
{
    if cs.len() > 0 {
        lemma_cluster_steps_len(ep, cs.drop_last());
    }
}

proof fn lemma_plan_steps_len(p: Seq<EndpointPlan>)
    ensures
        plan_steps(p).len() == plan_attr_total(p),
    decreases p.len(),
{
    if p.len() > 0 {
        lemma_plan_steps_len(p.drop_last());
        lemma_cluster_steps_len(p.last().id, p.last().clusters@);
    }
}

/// The reads that a full attribute read makes, in the order it makes them.
pub fn read_steps(plan: &Vec<EndpointPlan>) -> (r: Vec<ReadStep>)
    ensures
        r@ == plan_steps(plan@),
        r@.len() == plan_attr_total(plan@),
{
    let mut out: Vec<ReadStep> = Vec::new();
    let mut e: usize = 0;
    while e < plan.len()
        invariant
            e <= plan.len(),
            out@ == plan_steps(plan@.subrange(0, e as int)),
        decreases plan.len() - e,
    {
        let ep: &EndpointPlan = &plan[e];
        let ghost before = out@;
        let mut c: usize = 0;
        while c < ep.clusters.len()
            invariant
                c <= ep.clusters.len(),
                out@ == before + cluster_steps(ep.id, ep.clusters@.subrange(0, c as int)),
            decreases ep.clusters.len() - c,
        {
            let cl: &ClusterPlan = &ep.clusters[c];
            let ghost mid = out@;
            let mut a: usize = 0;
            while a < cl.attr_ids.len()
                invariant
                    a <= cl.attr_ids.len(),
                    out@ == mid + cl.attr_ids@.subrange(0, a as int).map_values(|x: u32| step_of(ep.id, *cl, x)),
                decreases cl.attr_ids.len() - a,
            {
                out.push(ReadStep { endpoint: ep.id, cluster: cl.id, attr: cl.attr_ids[a], cluster_name: cl.name.clone() });
                a = a + 1;
                assert(out@ =~= mid + cl.attr_ids@.subrange(0, a as int).map_values(|x: u32| step_of(ep.id, *cl, x)));
            }
            assert(cl.attr_ids@.subrange(0, a as int) =~= cl.attr_ids@);
            assert(ep.clusters@.subrange(0, c + 1).drop_last() =~= ep.clusters@.subrange(0, c as int));
            c = c + 1;
            assert(out@ =~= before + cluster_steps(ep.id, ep.clusters@.subrange(0, c as int)));
        }
        assert(ep.clusters@.subrange(0, c as int) =~= ep.clusters@);
        assert(plan@.subrange(0, e + 1).drop_last() =~= plan@.subrange(0, e as int));
        e = e + 1;
    }
    assert(plan@.subrange(0, plan@.len() as int) =~= plan@);
    proof {
        lemma_plan_steps_len(plan@);
    }
    out
}

/// The progress event after the `i`-th read of `steps`: the count of reads
/// done so far against the count of all reads, so that one bar fills from
/// empty to full across the whole read phase without going back.
pub fn progress_after_read(steps: &Vec<ReadStep>, i: usize) -> (ev: AttrProgressEvent)
    requires
        i < steps@.len(),
    ensures
        ev.phase@ == "read"@,
        ev.endpoint_index == 0 && ev.endpoint_count == 0,
        ev.endpoint_id == Some(steps@[i as int].endpoint),
        ev.endpoint_attr_index == i + 1,
        ev.endpoint_attr_total == steps@.len(),
        ev.current_cluster == Some(steps@[i as int].cluster_name),
{
    let total: usize = steps.len();
    let step: &ReadStep = &steps[i];
    progress_read(step.endpoint, i + 1, total, step.cluster_name.clone())
}

/// The attribute nodes of clusters `cs`, cluster by cluster.
pub open spec fn cluster_nodes_attrs(cs: Seq<ClusterNode>) -> Seq<AttrNode>
    decreases cs.len(),
{
    if cs.len() == 0 {
        Seq::empty()
    } else {
        cluster_nodes_attrs(cs.drop_last()) + cs.last().attributes@
    }
}

/// The attribute nodes of a tree, endpoint by endpoint.
pub open spec fn tree_attrs(es: Seq<EndpointNode>) -> Seq<AttrNode>
    decreases es.len(),
{
    if es.len() == 0 {
        Seq::empty()
    } else {
        tree_attrs(es.drop_last()) + cluster_nodes_attrs(es.last().clusters@)
    }
}

/// Whether the node of a cluster has the id and name of its plan and one
/// attribute node per planned attribute.
pub open spec fn cluster_follows_plan(n: ClusterNode, p: ClusterPlan) -> bool {
    &&& n.id == p.id
    &&& n.name == p.name
    &&& n.attributes@.len() == p.attr_ids@.len()
}

/// Whether the node of an endpoint has the id of its plan and one node per
/// planned cluster, each following its plan.
pub open spec fn endpoint_follows_plan(n: EndpointNode, p: EndpointPlan) -> bool {
    &&& n.id == p.id
    &&& n.clusters@.len() == p.clusters@.len()
    &&& forall|c: int| 0 <= c < p.clusters@.len() ==> cluster_follows_plan(#[trigger] n.clusters@[c], p.clusters@[c])
}

/// The tree of a full attribute read: the endpoints and clusters of the
/// plan, in its order and under its names, where the attribute nodes, taken
/// in order, are those of the reads in `plan_steps(plan)`, the `i`-th read
/// having outcome `reads[i]`.
pub fn assemble_tree(plan: &Vec<EndpointPlan>, reads: &Vec<AttrRead>) -> (t: EndpointTree)
    requires
        reads@.len() == plan_attr_total(plan@),
    ensures
        t.endpoints@.len() == plan@.len(),
        forall|e: int| 0 <= e < plan@.len() ==> endpoint_follows_plan(#[trigger] t.endpoints@[e], plan@[e]),
        tree_attrs(t.endpoints@).len() == reads@.len(),
        forall|i: int|
            0 <= i < reads@.len() ==> is_attr_node(
                #[trigger] tree_attrs(t.endpoints@)[i],
                plan_steps(plan@)[i].cluster,
                plan_steps(plan@)[i].attr,
                reads@[i],
            ),
{
    let n: usize = reads.len();
    let mut eps: Vec<EndpointNode> = Vec::new();
    let mut k: usize = 0;
    let mut e: usize = 0;
    proof {
        lemma_plan_steps_len(plan@);
    }
    while e < plan.len()
        invariant
            e <= plan.len(),
            reads@.len() == plan_attr_total(plan@),
            reads@.len() == n,
            eps@.len() == e,
            forall|x: int| 0 <= x < e ==> endpoint_follows_plan(#[trigger] eps@[x], plan@[x]),
            k == plan_attr_total(plan@.subrange(0, e as int)),
            tree_attrs(eps@).len() == k,
            plan_steps(plan@.subrange(0, e as int)).len() == k,
            forall|i: int|
                0 <= i < k ==> is_attr_node(
                    #[trigger] tree_attrs(eps@)[i],
                    plan_steps(plan@.subrange(0, e as int))[i].cluster,
                    plan_steps(plan@.subrange(0, e as int))[i].attr,
                    reads@[i],
                ),
        decreases plan.len() - e,
    {
        let ep: &EndpointPlan = &plan[e];
        let ghost k0 = k;
        proof {
            assert(plan@.subrange(0, e + 1).drop_last() =~= plan@.subrange(0, e as int));
            lemma_plan_total_prefix(plan@, e + 1);
        }
        let mut cls: Vec<ClusterNode> = Vec::new();
        let mut c: usize = 0;
        while c < ep.clusters.len()
            invariant
                c <= ep.clusters.len(),
                k0 + cluster_attr_total(ep.clusters@) <= reads@.len(),
                reads@.len() == n,
                cls@.len() == c,
                forall|x: int| 0 <= x < c ==> cluster_follows_plan(#[trigger] cls@[x], ep.clusters@[x]),
                k == k0 + cluster_attr_total(ep.clusters@.subrange(0, c as int)),
                cluster_nodes_attrs(cls@).len() == k - k0,
                forall|i: int|
                    0 <= i < k - k0 ==> is_attr_node(
                        #[trigger] cluster_nodes_attrs(cls@)[i],
                        cluster_steps(ep.id, ep.clusters@.subrange(0, c as int))[i].cluster,
                        cluster_steps(ep.id, ep.clusters@.subrange(0, c as int))[i].attr,
                        reads@[k0 + i],
                    ),
            decreases ep.clusters.len() - c,
        {
            let cl: &ClusterPlan = &ep.clusters[c];
            let ghost k1 = k;
            proof {
                assert(ep.clusters@.subrange(0, c + 1).drop_last() =~= ep.clusters@.subrange(0, c as int));
                lemma_cluster_total_prefix(ep.clusters@, c + 1);
                lemma_cluster_steps_len(ep.id, ep.clusters@.subrange(0, c as int));
            }
            let mut attrs: Vec<AttrNode> = Vec::new();
            let mut a: usize = 0;
            while a < cl.attr_ids.len()
                invariant
                    a <= cl.attr_ids.len(),
                    k1 + cl.attr_ids@.len() <= reads@.len(),
                    reads@.len() == n,
                    k == k1 + a,
                    attrs@.len() == a,
                    forall|x: int|
                        0 <= x < a ==> is_attr_node(#[trigger] attrs@[x], cl.id, cl.attr_ids@[x], reads@[k1 + x]),
                decreases cl.attr_ids.len() - a,
            {
                attrs.push(attr_node(cl.id, cl.attr_ids[a], &reads[k]));
                a = a + 1;
                k = k + 1;
            }
            let ghost prev = cls@;
            cls.push(ClusterNode { id: cl.id, name: cl.name.clone(), attributes: attrs });
            proof {
                assert(cls@.drop_last() =~= prev);
                let old_steps = cluster_steps(ep.id, ep.clusters@.subrange(0, c as int));
                let new_steps = cluster_steps(ep.id, ep.clusters@.subrange(0, c + 1));
                assert(new_steps =~= old_steps + cl.attr_ids@.map_values(|x: u32| step_of(ep.id, *cl, x)));
                assert forall|i: int| 0 <= i < k - k0 implies is_attr_node(
                    #[trigger] cluster_nodes_attrs(cls@)[i],
                    new_steps[i].cluster,
                    new_steps[i].attr,
                    reads@[k0 + i],
                ) by {
                    if i < k1 - k0 {
                        assert(cluster_nodes_attrs(cls@)[i] == cluster_nodes_attrs(prev)[i]);
                        assert(new_steps[i] == old_steps[i]);
                    } else {
                        let x = i - (k1 - k0);
                        assert(cluster_nodes_attrs(cls@)[i] == attrs@[x]);
                        assert(new_steps[i] == step_of(ep.id, *cl, cl.attr_ids@[x]));
                    }
                }
            }
            c = c + 1;
        }
        proof {
            assert(ep.clusters@.subrange(0, c as int) =~= ep.clusters@);
        }
        let ghost prev_eps = eps@;
        eps.push(EndpointNode { id: ep.id, clusters: cls });
        proof {
            assert(eps@.drop_last() =~= prev_eps);
            let old_steps = plan_steps(plan@.subrange(0, e as int));
            let new_steps = plan_steps(plan@.subrange(0, e + 1));
            lemma_cluster_steps_len(ep.id, ep.clusters@);
            assert(new_steps =~= old_steps + cluster_steps(ep.id, ep.clusters@));
            assert forall|i: int| 0 <= i < k implies is_attr_node(
                #[trigger] tree_attrs(eps@)[i],
                new_steps[i].cluster,
                new_steps[i].attr,
                reads@[i],
            ) by {
                if i < k0 {
                    assert(tree_attrs(eps@)[i] == tree_attrs(prev_eps)[i]);
                    assert(new_steps[i] == old_steps[i]);
                } else {
                    assert(tree_attrs(eps@)[i] == cluster_nodes_attrs(cls@)[i - k0]);
                    assert(new_steps[i] == cluster_steps(ep.id, ep.clusters@)[i - k0]);
                }
            }
        }
        e = e + 1;
    }
    proof {
        assert(plan@.subrange(0, plan@.len() as int) =~= plan@);
    }
    EndpointTree { endpoints: eps }
}

/// The node of one endpoint in the structure view: each reported cluster
/// under its catalog name, without attributes.
pub fn structure_endpoint(ep: u16, cluster_ids: &Vec<u32>) -> (n: EndpointNode)
    ensures
        n.id == ep,
        n.clusters@.len() == cluster_ids@.len(),
        forall|i: int|
            0 <= i < cluster_ids@.len() ==> {
                &&& (#[trigger] n.clusters@[i]).id == cluster_ids@[i]
                &&& n.clusters@[i].name@ == cluster_display_name(cluster_ids@[i])
                &&& n.clusters@[i].attributes@.len() == 0
            },
{
    let mut clusters: Vec<ClusterNode> = Vec::new();
    let mut i: usize = 0;
    while i < cluster_ids.len()
        invariant
            i <= cluster_ids.len(),
            clusters@.len() == i,
            forall|k: int|
                0 <= k < i ==> {
                    &&& (#[trigger] clusters@[k]).id == cluster_ids@[k]
                    &&& clusters@[k].name@ == cluster_display_name(cluster_ids@[k])
                    &&& clusters@[k].attributes@.len() == 0
                },
        decreases cluster_ids.len() - i,
    {
        let id: u32 = cluster_ids[i];
        clusters.push(ClusterNode { id, name: cluster_name_or_unknown(id), attributes: Vec::new() });
        i = i + 1;
    }
    EndpointNode { id: ep, clusters }
}


pub const CLUSTER_ID_DESCRIPTOR: u32 = 0x001D;
pub const CLUSTER_DESCRIPTOR_ATTR_ID_DEVICETYPELIST: u32 = 0x0000;
pub const CLUSTER_DESCRIPTOR_ATTR_ID_SERVERLIST: u32 = 0x0001;
pub const CLUSTER_DESCRIPTOR_ATTR_ID_PARTSLIST: u32 = 0x0003;
pub const CLUSTER_ID_BASIC_INFORMATION: u32 = 0x0028;
pub const CLUSTER_ID_BRIDGED_DEVICE_BASIC_INFORMATION: u32 = 0x0039;
pub const CLUSTER_BASIC_INFORMATION_ATTR_ID_VENDORNAME: u32 = 0x0001;
pub const CLUSTER_BASIC_INFORMATION_ATTR_ID_PRODUCTNAME: u32 = 0x0003;
pub const CLUSTER_BASIC_INFORMATION_ATTR_ID_NODELABEL: u32 = 0x0005;
pub const CLUSTER_BASIC_INFORMATION_ATTR_ID_HARDWAREVERSIONSTRING: u32 = 0x0008;
pub const CLUSTER_BASIC_INFORMATION_ATTR_ID_SOFTWAREVERSIONSTRING: u32 = 0x000A;
pub const CLUSTER_BASIC_INFORMATION_ATTR_ID_REACHABLE: u32 = 0x0011;

/// The cluster from which the device tree takes an endpoint's identity: the
/// bridged-device information when the endpoint serves it, else the basic
/// information, else none.
pub open spec fn info_cluster_spec(server_list: Seq<u32>) -> Option<(u32, Seq<char>)> {
    if server_list.contains(CLUSTER_ID_BRIDGED_DEVICE_BASIC_INFORMATION) {
        Some((CLUSTER_ID_BRIDGED_DEVICE_BASIC_INFORMATION, "BridgedDeviceBasicInformation"@))
    } else if server_list.contains(CLUSTER_ID_BASIC_INFORMATION) {
        Some((CLUSTER_ID_BASIC_INFORMATION, "BasicInformation"@))
    } else {
        None
    }
}

fn contains_id(list: &Vec<u32>, id: u32) -> (r: bool)
    ensures
        r == list@.contains(id),
{
    let mut i: usize = 0;
    while i < list.len()
        invariant
            i <= list.len(),
            forall|k: int| 0 <= k < i ==> list@[k] != id,
        decreases list.len() - i,
    {
        if list[i] == id {
            assert(list@[i as int] == id);
            return true;
        }
        i = i + 1;
    }
    false
}

/// The identity cluster of an endpoint, with its name.
pub fn info_cluster(server_list: &Vec<u32>) -> (r: Option<(u32, &'static str)>)
    ensures
        match info_cluster_spec(server_list@) {
            Some((id, name)) => r is Some && (r->0).0 == id && (r->0).1@ == name,
            None => r is None,
        },
{
    if contains_id(server_list, CLUSTER_ID_BRIDGED_DEVICE_BASIC_INFORMATION) {
        Some((CLUSTER_ID_BRIDGED_DEVICE_BASIC_INFORMATION, "BridgedDeviceBasicInformation"))
    } else if contains_id(server_list, CLUSTER_ID_BASIC_INFORMATION) {
        Some((CLUSTER_ID_BASIC_INFORMATION, "BasicInformation"))
    } else {
        None
    }
}

/// What the device tree reads of one cluster of an endpoint: the attributes
/// with their display names, and whether a failed read is shown as an error
/// (else the attribute is shown empty).
#[derive(Debug)]
pub struct ClusterReads {
    pub id: u32,
    pub name: &'static str,
    pub attrs: Vec<(u32, &'static str)>,
    pub keep_errors: bool,
}

/// The attributes the device tree reads of the descriptor cluster.
pub open spec fn descriptor_attrs() -> Seq<(u32, Seq<char>)> {
    seq![
        (CLUSTER_DESCRIPTOR_ATTR_ID_DEVICETYPELIST, "DeviceTypeList"@),
        (CLUSTER_DESCRIPTOR_ATTR_ID_PARTSLIST, "PartsList"@),
    ]
}

/// The attributes the device tree reads of the identity cluster.
pub open spec fn info_attrs() -> Seq<(u32, Seq<char>)> {
    seq![
        (CLUSTER_BASIC_INFORMATION_ATTR_ID_VENDORNAME, "VendorName"@),
        (CLUSTER_BASIC_INFORMATION_ATTR_ID_PRODUCTNAME, "ProductName"@),
        (CLUSTER_BASIC_INFORMATION_ATTR_ID_NODELABEL, "NodeLabel"@),
        (CLUSTER_BASIC_INFORMATION_ATTR_ID_REACHABLE, "Reachable"@),
    ]
}

/// A list of attributes with names, by the characters of the names.
pub open spec fn named_view(v: Seq<(u32, &'static str)>) -> Seq<(u32, Seq<char>)> {
    Seq::new(v.len(), |i: int| (v[i].0, v[i].1@))
}

/// What the device tree reads of an endpoint that serves `server_list`: the
/// descriptor's device types and parts, showing failures as errors; then,
/// if the endpoint has an identity cluster, its vendor name, product name,
/// label and reachability, showing failures as empty.
pub fn device_tree_reads(server_list: &Vec<u32>) -> (r: Vec<ClusterReads>)
    ensures
        r@.len() == 1 + if info_cluster_spec(server_list@) is Some { 1int } else { 0int },
        r@[0].id == CLUSTER_ID_DESCRIPTOR,
        r@[0].name@ == "Descriptor"@,
        named_view(r@[0].attrs@) == descriptor_attrs(),
        r@[0].keep_errors,
        info_cluster_spec(server_list@) is Some ==> {
            &&& r@[1].id == (info_cluster_spec(server_list@)->0).0
            &&& r@[1].name@ == (info_cluster_spec(server_list@)->0).1
            &&& named_view(r@[1].attrs@) == info_attrs()
            &&& !r@[1].keep_errors
        },
{
    let mut out: Vec<ClusterReads> = Vec::new();
    let desc: Vec<(u32, &'static str)> = vec![
        (CLUSTER_DESCRIPTOR_ATTR_ID_DEVICETYPELIST, "DeviceTypeList"),
        (CLUSTER_DESCRIPTOR_ATTR_ID_PARTSLIST, "PartsList"),
    ];
    assert(named_view(desc@) =~= descriptor_attrs());
    out.push(ClusterReads { id: CLUSTER_ID_DESCRIPTOR, name: "Descriptor", attrs: desc, keep_errors: true });
    match info_cluster(server_list) {
        Some((id, name)) => {
            let info: Vec<(u32, &'static str)> = vec![
                (CLUSTER_BASIC_INFORMATION_ATTR_ID_VENDORNAME, "VendorName"),
                (CLUSTER_BASIC_INFORMATION_ATTR_ID_PRODUCTNAME, "ProductName"),
                (CLUSTER_BASIC_INFORMATION_ATTR_ID_NODELABEL, "NodeLabel"),
                (CLUSTER_BASIC_INFORMATION_ATTR_ID_REACHABLE, "Reachable"),
            ];
            assert(named_view(info@) =~= info_attrs());
            out.push(ClusterReads { id, name, attrs: info, keep_errors: false });
        },
        None => {},
    }
    out
}

/// Whether `n` is the node that the device tree shows for attribute
/// `attr_id` of cluster `cluster_id` under `name`, read with outcome `read`:
/// the codec's text of the value, or the error of the read when the cluster
/// shows errors (else nothing).
pub open spec fn is_named_attr_node(
    n: AttrNode,
    cluster_id: u32,
    attr_id: u32,
    name: Seq<char>,
    read: Result<TlvValue, String>,
    keep_errors: bool,
) -> bool {
    &&& n.id == attr_id
    &&& n.name@ == name
    &&& match read {
        Ok(v) => n.value is Some && n.value->0@ == attribute_json(cluster_id, attr_id, v) && n.error is None,
        Err(e) => n.value is None && n.error == if keep_errors { Some(e) } else { None },
    }
}

/// The node for one attribute of the device tree.
pub fn named_attr_node(
    cluster_id: u32,
    attr_id: u32,
    name: &str,
    read: &Result<TlvValue, String>,
    keep_errors: bool,
) -> (n: AttrNode)
    ensures
        is_named_attr_node(n, cluster_id, attr_id, name@, *read, keep_errors),
{
    let name: String = String::from_str(name);
    match read {
        Ok(v) => AttrNode {
            id: attr_id,
            name,
            value: Some(decode_attribute_json(cluster_id, attr_id, v)),
            error: None,
        },
        Err(e) => AttrNode {
            id: attr_id,
            name,
            value: None,
            error: if keep_errors {
                Some(e.clone())
            } else {
                None
            },
        },
    }
}

/// The node of one cluster of the device tree, from what `device_tree_reads`
/// planned for it and the outcome of each planned read, in order.
pub fn device_tree_cluster(plan: &ClusterReads, outcomes: &Vec<Result<TlvValue, String>>) -> (n: ClusterNode)
    requires
        outcomes@.len() == plan.attrs@.len(),
    ensures
        n.id == plan.id,
        n.name@ == plan.name@,
        n.attributes@.len() == plan.attrs@.len(),
        forall|i: int|
            0 <= i < plan.attrs@.len() ==> is_named_attr_node(
                #[trigger] n.attributes@[i],
                plan.id,
                plan.attrs@[i].0,
                plan.attrs@[i].1@,
                outcomes@[i],
                plan.keep_errors,
            ),
{
    let mut attrs: Vec<AttrNode> = Vec::new();
    let mut i: usize = 0;
    while i < plan.attrs.len()
        invariant
            i <= plan.attrs.len(),
            outcomes@.len() == plan.attrs@.len(),
            attrs@.len() == i,
            forall|k: int|
                0 <= k < i ==> is_named_attr_node(
                    #[trigger] attrs@[k],
                    plan.id,
                    plan.attrs@[k].0,
                    plan.attrs@[k].1@,
                    outcomes@[k],
                    plan.keep_errors,
                ),
        decreases plan.attrs.len() - i,
    {
        let (attr_id, name) = plan.attrs[i];
        attrs.push(named_attr_node(plan.id, attr_id, name, &outcomes[i], plan.keep_errors));
        i = i + 1;
    }
    ClusterNode { id: plan.id, name: String::from_str(plan.name), attributes: attrs }
}

} // verus!
