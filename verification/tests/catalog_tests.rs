use matc_ui::clusters::{attr_label, attr_name, cluster_label, command_label, list_cluster_commands};

#[test]
fn cluster_labels() {
    assert_eq!(cluster_label(0x0006), "0x0006(On/Off)");
    assert_eq!(cluster_label(0xFFF0_0000), "0xfff00000");
    assert_eq!(cluster_label(0x0028), format!("0x0028({})", matc::clusters::names::get_cluster_name(0x28).unwrap()));
}

#[test]
fn command_and_attribute_labels() {
    assert_eq!(command_label(0x0006, 0x01), "0x01(On)");
    assert_eq!(command_label(0x0006, 0x99), "0x99");
    assert_eq!(command_label(0x0006, 0x140), "0x140");
    assert_eq!(attr_label(0x0006, 0x0000), "0x0000(OnOff)");
    assert_eq!(attr_label(0x0006, 0x0abc), "0x0abc");
}

#[test]
fn attribute_names() {
    assert_eq!(attr_name(0x0006, 0x0000), "OnOff");
    assert_eq!(attr_name(0x0006, 0x4001), "OnTime");
    assert_eq!(attr_name(0x0006, 0xFFFD), "ClusterRevision");
    assert_eq!(attr_name(0x0006, 0xFFF8), "GeneratedCommandList");
    assert_eq!(attr_name(0x0006, 0x0abc), "Attr 0x0ABC");
    assert_eq!(attr_name(0xFFFF_FFF0, 0x12345), "Attr 0x12345");
}

#[test]
fn cluster_commands_follow_the_catalog() {
    let cmds = list_cluster_commands(0x0006);
    let expected = matc::clusters::codec::get_command_list(0x0006);
    assert_eq!(cmds.len(), expected.len());
    assert_eq!(cmds[0].id, 0);
    assert_eq!(cmds[0].name, "Off");
    assert_eq!(cmds[2].name, "Toggle");
    for (c, (id, name)) in cmds.iter().zip(expected.iter()) {
        assert_eq!(c.id, *id);
        assert_eq!(c.name, *name);
    }
    assert!(list_cluster_commands(0xFFFF_FFF0).is_empty());
}
