use matc_ui::attributes::{
    aggregator_scan_endpoints, attr_node, attribute_ids, cluster_ids, cluster_name_or_unknown,
    decode_global_attr, device_tree_reads, endpoint_list, grand_total, info_cluster, lists_aggregator,
    named_attr_node, structure_endpoint, AttrRead, ClusterPlan, EndpointPlan,
    assemble_tree, attribute_text, cluster_plan, device_tree_cluster, progress_after_read, read_steps,
    CLUSTER_BASIC_INFORMATION_ATTR_ID_REACHABLE, CLUSTER_DESCRIPTOR_ATTR_ID_PARTSLIST, CLUSTER_ID_BASIC_INFORMATION,
    CLUSTER_ID_BRIDGED_DEVICE_BASIC_INFORMATION, CLUSTER_ID_DESCRIPTOR,
};
use matc::tlv::TlvItemValue;
use matc_ui::tlv::{int_elements, TlvItem, TlvValue};

fn item(tag: u8, value: TlvValue) -> TlvItem {
    TlvItem { tag, value }
}

fn codec_text(cluster: u32, attr: u32, v: TlvItemValue) -> String {
    matc::clusters::codec::decode_attribute_json(cluster, attr, &v)
}

fn int_list(v: &[u64]) -> TlvValue {
    TlvValue::List(v.iter().map(|x| item(0, TlvValue::Int(*x))).collect())
}

#[test]
fn tlv_get_int_follows_tags() {
    let t = item(
        0,
        TlvValue::List(vec![
            item(0, TlvValue::Int(1)),
            item(1, TlvValue::List(vec![item(0, TlvValue::Int(7)), item(0, TlvValue::Int(8))])),
            item(1, TlvValue::Int(99)),
        ]),
    );
    assert_eq!(t.get_int(&vec![0]), Some(1));
    assert_eq!(t.get_int(&vec![1, 0]), Some(7));
    assert_eq!(t.get_int(&vec![1]), None);
    assert_eq!(t.get_int(&vec![2]), None);
    assert_eq!(item(3, TlvValue::Int(5)).get_int(&vec![]), Some(5));
}

#[test]
fn int_elements_skip_other_kinds() {
    let v = TlvValue::List(vec![
        item(0, TlvValue::Int(4)),
        item(0, TlvValue::Bool(true)),
        item(0, TlvValue::Int(6)),
    ]);
    assert_eq!(int_elements(&v), Some(vec![4, 6]));
    assert_eq!(int_elements(&TlvValue::Int(4)), None);
}

#[test]
fn endpoints_are_sorted_and_unique() {
    assert_eq!(endpoint_list(Some(&int_list(&[3, 1, 2, 1, 0]))), vec![0, 1, 2, 3]);
    assert_eq!(endpoint_list(Some(&int_list(&[65537, 9]))), vec![0, 1, 9]);
    assert_eq!(endpoint_list(Some(&TlvValue::Nil)), vec![0]);
    assert_eq!(endpoint_list(None), vec![0]);
}

#[test]
fn aggregator_scan_keeps_the_reported_order() {
    assert_eq!(aggregator_scan_endpoints(Some(&int_list(&[5, 2, 5]))), vec![0, 5, 2, 5]);
    assert_eq!(aggregator_scan_endpoints(None), vec![0]);
}

#[test]
fn aggregator_device_type_is_found() {
    let entry = |dt: u64| item(0, TlvValue::List(vec![item(0, TlvValue::Int(dt)), item(1, TlvValue::Int(1))]));
    assert!(lists_aggregator(Some(&TlvValue::List(vec![entry(0x16), entry(0x0E)]))));
    assert!(!lists_aggregator(Some(&TlvValue::List(vec![entry(0x16)]))));
    assert!(!lists_aggregator(Some(&TlvValue::Int(0x0E))));
    assert!(!lists_aggregator(None));
}

#[test]
fn cluster_and_attribute_ids() {
    let v = TlvValue::List(vec![item(0, TlvValue::Int(6)), item(0, TlvValue::Nil), item(0, TlvValue::Int(0x1_0000_0008))]);
    assert_eq!(cluster_ids(Some(&v)), Some(vec![6, 8]));
    assert_eq!(cluster_ids(Some(&TlvValue::Int(6))), None);
    assert_eq!(cluster_ids(None), None);
    assert_eq!(attribute_ids(Some(&v)), vec![6, 8]);
    assert!(attribute_ids(Some(&TlvValue::Bool(false))).is_empty());
    assert!(attribute_ids(None).is_empty());
}

#[test]
fn global_attributes_are_decoded() {
    assert_eq!(decode_global_attr(0xFFFB, &int_list(&[1, 2, 0x1_0000_0003])), Some("[1,2,3]".to_string()));
    assert_eq!(decode_global_attr(0xFFF8, &int_list(&[])), Some("[]".to_string()));
    assert_eq!(decode_global_attr(0xFFFC, &TlvValue::Int(u64::MAX)), Some(u64::MAX.to_string()));
    assert_eq!(decode_global_attr(0xFFFD, &TlvValue::Int(4)), Some("4".to_string()));
    assert_eq!(decode_global_attr(0xFFFC, &int_list(&[1])), None);
    assert_eq!(decode_global_attr(0xFFF9, &TlvValue::Int(1)), None);
    assert_eq!(decode_global_attr(0x0000, &TlvValue::Int(1)), None);
}

#[test]
fn attribute_nodes() {
    let n = attr_node(6, 0xFFFB, &AttrRead::Value { tlv: int_list(&[0, 1]) });
    assert_eq!(n.name, "AttributeList");
    assert_eq!(n.value.as_deref(), Some("[0,1]"));
    assert!(n.error.is_none());
    let n = attr_node(6, 0, &AttrRead::Value { tlv: TlvValue::Bool(true) });
    assert_eq!(n.name, "OnOff");
    assert_eq!(n.value, Some(codec_text(6, 0, TlvItemValue::Bool(true))));
    assert_eq!(n.value.as_deref(), Some("true"));
    let n = attr_node(6, 0x4000, &AttrRead::Failed { error: "timeout".to_string() });
    assert_eq!(n.name, "GlobalSceneControl");
    assert!(n.value.is_none());
    assert_eq!(n.error.as_deref(), Some("timeout"));
}

#[test]
fn plan_total_counts_every_attribute() {
    let plan = vec![
        EndpointPlan {
            id: 0,
            clusters: vec![
                ClusterPlan { id: 6, name: "On/Off".to_string(), attr_ids: vec![0, 1, 2] },
                ClusterPlan { id: 8, name: "Level".to_string(), attr_ids: vec![] },
            ],
        },
        EndpointPlan { id: 1, clusters: vec![ClusterPlan { id: 6, name: "On/Off".to_string(), attr_ids: vec![0, 5] }] },
    ];
    assert_eq!(grand_total(&plan), 5);
    assert_eq!(grand_total(&vec![]), 0);
}

#[test]
fn cluster_names_for_structure() {
    assert_eq!(cluster_name_or_unknown(6), "On/Off");
    assert_eq!(cluster_name_or_unknown(0xFFFF_FFF0), "Unknown");
    let ep = structure_endpoint(2, &vec![6, 0xFFFF_FFF0]);
    assert_eq!(ep.id, 2);
    assert_eq!(ep.clusters.len(), 2);
    assert_eq!(ep.clusters[0].name, "On/Off");
    assert_eq!(ep.clusters[1].name, "Unknown");
    assert!(ep.clusters[0].attributes.is_empty());
}

#[test]
fn identity_cluster_prefers_bridged_information() {
    assert_eq!(info_cluster(&vec![0x28, 0x39]), Some((0x39, "BridgedDeviceBasicInformation")));
    assert_eq!(info_cluster(&vec![6, 0x28]), Some((0x28, "BasicInformation")));
    assert_eq!(info_cluster(&vec![6]), None);
    assert_eq!(CLUSTER_ID_BRIDGED_DEVICE_BASIC_INFORMATION, matc::clusters::defs::CLUSTER_ID_BRIDGED_DEVICE_BASIC_INFORMATION);
    assert_eq!(CLUSTER_ID_BASIC_INFORMATION, matc::clusters::defs::CLUSTER_ID_BASIC_INFORMATION);
    assert_eq!(CLUSTER_ID_DESCRIPTOR, matc::clusters::defs::CLUSTER_ID_DESCRIPTOR);
    assert_eq!(CLUSTER_DESCRIPTOR_ATTR_ID_PARTSLIST, matc::clusters::defs::CLUSTER_DESCRIPTOR_ATTR_ID_PARTSLIST);
    assert_eq!(CLUSTER_BASIC_INFORMATION_ATTR_ID_REACHABLE, matc::clusters::defs::CLUSTER_BASIC_INFORMATION_ATTR_ID_REACHABLE);
}

#[test]
fn device_tree_read_plan() {
    let r = device_tree_reads(&vec![0x1D, 0x28]);
    assert_eq!(r.len(), 2);
    assert_eq!(r[0].id, 0x1D);
    assert_eq!(r[0].attrs, vec![(0, "DeviceTypeList"), (3, "PartsList")]);
    assert!(r[0].keep_errors);
    assert_eq!(r[1].name, "BasicInformation");
    assert_eq!(r[1].attrs, vec![(1, "VendorName"), (3, "ProductName"), (5, "NodeLabel"), (0x11, "Reachable")]);
    assert!(!r[1].keep_errors);
    assert_eq!(device_tree_reads(&vec![0x1D]).len(), 1);
}

#[test]
fn device_tree_attribute_nodes() {
    let n = named_attr_node(0x1D, 3, "PartsList", &Err("busy".to_string()), true);
    assert_eq!(n.error.as_deref(), Some("busy"));
    let n = named_attr_node(0x28, 1, "VendorName", &Err("busy".to_string()), false);
    assert!(n.error.is_none() && n.value.is_none());
    let n = named_attr_node(0x28, 1, "VendorName", &Ok(TlvValue::String("Acme".to_string())), false);
    assert_eq!(n.value, Some(codec_text(0x28, 1, TlvItemValue::String("Acme".to_string()))));
    assert_eq!(n.value.as_deref(), Some("\"Acme\""));
    assert_eq!(n.name, "VendorName");
}

fn sample_plan() -> Vec<EndpointPlan> {
    vec![
        EndpointPlan {
            id: 0,
            clusters: vec![
                ClusterPlan { id: 6, name: "On/Off".to_string(), attr_ids: vec![0, 0xFFFD] },
                ClusterPlan { id: 8, name: "Level".to_string(), attr_ids: vec![] },
            ],
        },
        EndpointPlan { id: 2, clusters: vec![ClusterPlan { id: 6, name: "On/Off".to_string(), attr_ids: vec![0x4000] }] },
    ]
}

#[test]
fn reads_follow_plan_order() {
    let plan = sample_plan();
    let steps = read_steps(&plan);
    let order: Vec<(u16, u32, u32, &str)> =
        steps.iter().map(|s| (s.endpoint, s.cluster, s.attr, s.cluster_name.as_str())).collect();
    assert_eq!(order, vec![(0, 6, 0, "On/Off"), (0, 6, 0xFFFD, "On/Off"), (2, 6, 0x4000, "On/Off")]);
    assert!(read_steps(&vec![]).is_empty());
}

#[test]
fn read_progress_fills_one_bar() {
    let plan = sample_plan();
    let steps = read_steps(&plan);
    let events: Vec<_> = (0..steps.len()).map(|i| progress_after_read(&steps, i)).collect();
    let marks: Vec<(usize, usize)> = events.iter().map(|e| (e.endpoint_attr_index, e.endpoint_attr_total)).collect();
    assert_eq!(marks, vec![(1, 3), (2, 3), (3, 3)]);
    assert_eq!(events[2].phase, "read");
    assert_eq!(events[2].endpoint_id, Some(2));
    assert_eq!(events[0].current_cluster.as_deref(), Some("On/Off"));
}

#[test]
fn assembled_tree_has_plan_shape() {
    let plan = sample_plan();
    let reads = vec![
        AttrRead::Value { tlv: TlvValue::Bool(true) },
        AttrRead::Value { tlv: TlvValue::Int(4) },
        AttrRead::Failed { error: "unsupported".to_string() },
    ];
    let t = assemble_tree(&plan, &reads);
    assert_eq!(t.endpoints.len(), 2);
    assert_eq!(t.endpoints[0].id, 0);
    assert_eq!(t.endpoints[0].clusters.len(), 2);
    assert_eq!(t.endpoints[0].clusters[0].name, "On/Off");
    assert_eq!(t.endpoints[0].clusters[1].attributes.len(), 0);
    let first = &t.endpoints[0].clusters[0].attributes;
    assert_eq!(first[0].name, "OnOff");
    assert_eq!(first[0].value.as_deref(), Some("true"));
    assert_eq!(first[1].name, "ClusterRevision");
    assert_eq!(first[1].value.as_deref(), Some("4"));
    let last = &t.endpoints[1].clusters[0].attributes[0];
    assert_eq!(last.id, 0x4000);
    assert!(last.value.is_none());
    assert_eq!(last.error.as_deref(), Some("unsupported"));
}

#[test]
fn cluster_plan_lists_reported_attributes() {
    let p = cluster_plan(6, Some(&int_list(&[0, 0x1_0000_0001])));
    assert_eq!(p.id, 6);
    assert_eq!(p.name, "On/Off");
    assert_eq!(p.attr_ids, vec![0, 1]);
    let p = cluster_plan(0xFFFF_FFF0, None);
    assert_eq!(p.name, "Unknown");
    assert!(p.attr_ids.is_empty());
}

#[test]
fn device_tree_cluster_nodes() {
    let plans = device_tree_reads(&vec![0x1D, 0x39]);
    let desc = device_tree_cluster(&plans[0], &vec![Ok(TlvValue::List(vec![])), Err("busy".to_string())]);
    assert_eq!(desc.id, 0x1D);
    assert_eq!(desc.name, "Descriptor");
    assert_eq!(desc.attributes[0].value, Some(codec_text(0x1D, 0, TlvItemValue::List(vec![]))));
    assert_eq!(desc.attributes[1].name, "PartsList");
    assert_eq!(desc.attributes[1].error.as_deref(), Some("busy"));
    let info = device_tree_cluster(
        &plans[1],
        &vec![
            Ok(TlvValue::String("Acme".to_string())),
            Err("x".to_string()),
            Err("y".to_string()),
            Ok(TlvValue::Bool(true)),
        ],
    );
    assert_eq!(info.name, "BridgedDeviceBasicInformation");
    assert_eq!(info.attributes.len(), 4);
    assert!(info.attributes[1].value.is_none() && info.attributes[1].error.is_none());
    assert_eq!(info.attributes[3].id, 0x11);
    assert_eq!(info.attributes[3].value, Some(codec_text(0x39, 0x11, TlvItemValue::Bool(true))));
    assert_eq!(info.attributes[0].value, Some(codec_text(0x39, 1, TlvItemValue::String("Acme".to_string()))));
}

#[test]
fn single_attribute_text_is_the_codec_text() {
    let v = TlvValue::Int(254);
    assert_eq!(attribute_text(8, 0, &v), codec_text(8, 0, TlvItemValue::Int(254)));
    let l = int_list(&[1, 2]);
    let raw = TlvItemValue::List(vec![
        matc::tlv::TlvItem { tag: 0, value: TlvItemValue::Int(1) },
        matc::tlv::TlvItem { tag: 0, value: TlvItemValue::Int(2) },
    ]);
    assert_eq!(attribute_text(0x1D, 3, &l), codec_text(0x1D, 3, raw));
}
