use vstd::prelude::*;

use crate::text::{hex, hex_text};

verus! {

/// The name that the cluster catalog gives a cluster, if it knows the cluster.
pub uninterp spec fn cluster_name_of(cluster_id: u32) -> Option<Seq<char>>;

/// The attributes that the cluster catalog lists for a cluster, as pairs of id and name.
pub uninterp spec fn attribute_list_of(cluster_id: u32) -> Seq<(u32, Seq<char>)>;

/// The commands that the cluster catalog lists for a cluster, as pairs of id and name.
pub uninterp spec fn command_list_of(cluster_id: u32) -> Seq<(u32, Seq<char>)>;

/// Calls `matc::clusters::names::get_cluster_name`, a fixed table from
/// cluster id to name. The contract names its result.
#[verifier::external_body]
pub(crate) fn catalog_cluster_name(cluster_id: u32) -> (r: Option<&'static str>)
    ensures
        r is Some <==> cluster_name_of(cluster_id) is Some,
        r is Some ==> r->0@ == cluster_name_of(cluster_id)->0,
{
    matc::clusters::names::get_cluster_name(cluster_id)
}

/// Calls `matc::clusters::codec::get_attribute_list`, a fixed table of the
/// attributes of each known cluster (empty for others). The contract names
/// its result.
#[verifier::external_body]
fn catalog_attribute_list(cluster_id: u32) -> (r: Vec<(u32, &'static str)>)
    ensures
        r@.len() == attribute_list_of(cluster_id).len(),
        forall|i: int|
            0 <= i < r@.len() ==> (#[trigger] r@[i]).0 == attribute_list_of(cluster_id)[i].0
                && r@[i].1@ == attribute_list_of(cluster_id)[i].1,
{
    matc::clusters::codec::get_attribute_list(cluster_id)
}

/// Calls `matc::clusters::codec::get_command_list`, a fixed table of the
/// commands of each known cluster (empty for others). The contract names
/// its result.
#[verifier::external_body]
fn catalog_command_list(cluster_id: u32) -> (r: Vec<(u32, &'static str)>)
    ensures
        r@.len() == command_list_of(cluster_id).len(),
        forall|i: int|
            0 <= i < r@.len() ==> (#[trigger] r@[i]).0 == command_list_of(cluster_id)[i].0
                && r@[i].1@ == command_list_of(cluster_id)[i].1,
{
    matc::clusters::codec::get_command_list(cluster_id)
}

/// The name of the first entry with id `id`.
pub open spec fn first_name(list: Seq<(u32, Seq<char>)>, id: u32) -> Option<Seq<char>>
    decreases list.len(),
{
    if list.len() == 0 {
        None
    } else if list[0].0 == id {
        Some(list[0].1)
    } else {
        first_name(list.drop_first(), id)
    }
}

/// The name of the last entry with id `id`, as a map built from the list keeps it.
pub open spec fn last_name(list: Seq<(u32, Seq<char>)>, id: u32) -> Option<Seq<char>>
    decreases list.len(),
{
    if list.len() == 0 {
        None
    } else if list.last().0 == id {
        Some(list.last().1)
    } else {
        last_name(list.drop_last(), id)
    }
}

/// A catalog table, by the characters of its names.
spec fn table_view(v: Seq<(u32, &'static str)>) -> Seq<(u32, Seq<char>)> {
    Seq::new(v.len(), |i: int| (v[i].0, v[i].1@))
}

fn find_first(table: &Vec<(u32, &'static str)>, id: u32) -> (r: Option<&'static str>)
    ensures
        match first_name(table_view(table@), id) {
            Some(n) => r is Some && r->0@ == n,
            None => r is None,
        },
{
    let ghost t = table_view(table@);
    assert(t.subrange(0, t.len() as int) =~= t);
    let mut i: usize = 0;
    while i < table.len()
        invariant
            i <= table.len(),
            t == table_view(table@),
            first_name(t, id) == first_name(t.subrange(i as int, t.len() as int), id),
        decreases table.len() - i,
    {
        let ghost rest = t.subrange(i as int, t.len() as int);
        assert(rest.drop_first() =~= t.subrange(i + 1, t.len() as int));
        if table[i].0 == id {
            return Some(table[i].1);
        }
        i = i + 1;
    }
    None
}

fn find_last(table: &Vec<(u32, &'static str)>, id: u32) -> (r: Option<&'static str>)
    ensures
        match last_name(table_view(table@), id) {
            Some(n) => r is Some && r->0@ == n,
            None => r is None,
        },
{
    let ghost t = table_view(table@);
    let mut found: Option<&'static str> = None;
    let mut i: usize = 0;
    while i < table.len()
        invariant
            i <= table.len(),
            t == table_view(table@),
            match last_name(t.subrange(0, i as int), id) {
                Some(n) => found is Some && found->0@ == n,
                None => found is None,
            },
        decreases table.len() - i,
    {
        assert(t.subrange(0, i + 1).drop_last() =~= t.subrange(0, i as int));
        if table[i].0 == id {
            found = Some(table[i].1);
        }
        i = i + 1;
    }
    assert(t.subrange(0, t.len() as int) =~= t);
    found
}

/// `0x` and the id in hexadecimal, followed by the catalog's name in brackets when known.
pub open spec fn label_text(id: u32, width: nat, name: Option<Seq<char>>) -> Seq<char> {
    "0x"@ + hex(id as nat, width, false) + match name {
        Some(n) => "("@ + n + ")"@,
        None => Seq::<char>::empty(),
    }
}

fn label(id: u32, width: usize, name: Option<&'static str>) -> (r: String)
    ensures
        r@ == label_text(
            id,
            width as nat,
            match name {
                Some(n) => Some(n@),
                None => None,
            },
        ),
{
    let mut s: String = String::from_str("0x");
    let h: String = hex_text(id as u64, width, false);
    s.append(h.as_str());
    match name {
        Some(n) => {
            s.append("(");
            s.append(n);
            s.append(")");
        },
        None => {},
    }
    s
}

/// A cluster for log lines: its id with four hex digits and its name when known.
pub fn cluster_label(cluster: u32) -> (r: String)
    ensures
        r@ == label_text(cluster, 4, cluster_name_of(cluster)),
{
    label(cluster, 4, catalog_cluster_name(cluster))
}

/// A command for log lines: its id with two hex digits and the name that
/// the catalog first lists for it in the cluster.
pub fn command_label(cluster: u32, command: u32) -> (r: String)
    ensures
        r@ == label_text(command, 2, first_name(command_list_of(cluster), command)),
{
    let table: Vec<(u32, &'static str)> = catalog_command_list(cluster);
    assert(table_view(table@) =~= command_list_of(cluster));
    label(command, 2, find_first(&table, command))
}

/// An attribute for log lines: its id with four hex digits and the name
/// that the catalog first lists for it in the cluster.
pub fn attr_label(cluster: u32, attr_id: u32) -> (r: String)
    ensures
        r@ == label_text(attr_id, 4, first_name(attribute_list_of(cluster), attr_id)),
{
    let table: Vec<(u32, &'static str)> = catalog_attribute_list(cluster);
    assert(table_view(table@) =~= attribute_list_of(cluster));
    label(attr_id, 4, find_first(&table, attr_id))
}

pub const ATTR_ID_GENERATED_COMMAND_LIST: u32 = 0xFFF8;
pub const ATTR_ID_ACCEPTED_COMMAND_LIST: u32 = 0xFFF9;
pub const ATTR_ID_EVENT_LIST: u32 = 0xFFFA;
pub const ATTR_ID_ATTRIBUTE_LIST: u32 = 0xFFFB;
pub const ATTR_ID_FEATURE_MAP: u32 = 0xFFFC;
pub const ATTR_ID_CLUSTER_REVISION: u32 = 0xFFFD;

/// The name of a global attribute, which every cluster has.
pub open spec fn global_attr_name(attr_id: u32) -> Option<Seq<char>> {
    if attr_id == ATTR_ID_GENERATED_COMMAND_LIST {
        Some("GeneratedCommandList"@)
    } else if attr_id == ATTR_ID_ACCEPTED_COMMAND_LIST {
        Some("AcceptedCommandList"@)
    } else if attr_id == ATTR_ID_EVENT_LIST {
        Some("EventList"@)
    } else if attr_id == ATTR_ID_ATTRIBUTE_LIST {
        Some("AttributeList"@)
    } else if attr_id == ATTR_ID_FEATURE_MAP {
        Some("FeatureMap"@)
    } else if attr_id == ATTR_ID_CLUSTER_REVISION {
        Some("ClusterRevision"@)
    } else {
        None
    }
}

/// The display name of an attribute: a global attribute's own name, else
/// the catalog's name for it in the cluster (its last entry when listed
/// twice), else `Attr 0x` and the id in upper-case hex with four digits.
pub open spec fn attr_display_name(cluster_id: u32, attr_id: u32) -> Seq<char> {
    match global_attr_name(attr_id) {
        Some(n) => n,
        None => match last_name(attribute_list_of(cluster_id), attr_id) {
            Some(n) => n,
            None => "Attr 0x"@ + hex(attr_id as nat, 4, true),
        },
    }
}

/// Global attributes keep their fixed names in every cluster, whatever the
/// catalog lists: 0xFFF8 GeneratedCommandList, 0xFFF9 AcceptedCommandList,
/// 0xFFFA EventList, 0xFFFB AttributeList, 0xFFFC FeatureMap, 0xFFFD
/// ClusterRevision.
pub proof fn global_attributes_keep_their_names(cluster_id: u32)
    ensures
        attr_display_name(cluster_id, 0xFFF8u32) == "GeneratedCommandList"@,
        attr_display_name(cluster_id, 0xFFF9u32) == "AcceptedCommandList"@,
        attr_display_name(cluster_id, 0xFFFAu32) == "EventList"@,
        attr_display_name(cluster_id, 0xFFFBu32) == "AttributeList"@,
        attr_display_name(cluster_id, 0xFFFCu32) == "FeatureMap"@,
        attr_display_name(cluster_id, 0xFFFDu32) == "ClusterRevision"@,
{
}

/// The display name of an attribute of a cluster.
pub fn attr_name(cluster_id: u32, attr_id: u32) -> (r: String)
    ensures
        r@ == attr_display_name(cluster_id, attr_id),
{
    if attr_id == ATTR_ID_GENERATED_COMMAND_LIST {
        return String::from_str("GeneratedCommandList");
    } else if attr_id == ATTR_ID_ACCEPTED_COMMAND_LIST {
        return String::from_str("AcceptedCommandList");
    } else if attr_id == ATTR_ID_EVENT_LIST {
        return String::from_str("EventList");
    } else if attr_id == ATTR_ID_ATTRIBUTE_LIST {
        return String::from_str("AttributeList");
    } else if attr_id == ATTR_ID_FEATURE_MAP {
        return String::from_str("FeatureMap");
    } else if attr_id == ATTR_ID_CLUSTER_REVISION {
        return String::from_str("ClusterRevision");
    }
    let table: Vec<(u32, &'static str)> = catalog_attribute_list(cluster_id);
    assert(table_view(table@) =~= attribute_list_of(cluster_id));
    match find_last(&table, attr_id) {
        Some(n) => String::from_str(n),
        None => {
            let mut s: String = String::from_str("Attr 0x");
            let h: String = hex_text(attr_id as u64, 4, true);
            s.append(h.as_str());
            s
        },
    }
}

/// One command of a cluster, as offered to the user interface.
#[derive(Clone, Debug)]
pub struct CommandDto {
    pub id: u32,
    pub name: String,
}

/// The commands of a cluster, in the catalog's order.
pub fn list_cluster_commands(cluster_id: u32) -> (r: Vec<CommandDto>)
    ensures
        r@.len() == command_list_of(cluster_id).len(),
        forall|i: int|
            0 <= i < r@.len() ==> (#[trigger] r@[i]).id == command_list_of(cluster_id)[i].0
                && r@[i].name@ == command_list_of(cluster_id)[i].1,
{
    let table: Vec<(u32, &'static str)> = catalog_command_list(cluster_id);
    let mut out: Vec<CommandDto> = Vec::new();
    let mut i: usize = 0;
    while i < table.len()
        invariant
            i <= table.len(),
            out@.len() == i,
            table@.len() == command_list_of(cluster_id).len(),
            forall|k: int|
                0 <= k < table@.len() ==> (#[trigger] table@[k]).0 == command_list_of(cluster_id)[k].0
                    && table@[k].1@ == command_list_of(cluster_id)[k].1,
            forall|k: int|
                0 <= k < i ==> (#[trigger] out@[k]).id == command_list_of(cluster_id)[k].0
                    && out@[k].name@ == command_list_of(cluster_id)[k].1,
        decreases table.len() - i,
    {
        let (id, name) = table[i];
        out.push(CommandDto { id, name: String::from_str(name) });
        i = i + 1;
    }
    out
}

} // verus!
