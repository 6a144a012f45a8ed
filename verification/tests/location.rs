use benchbot::location::{location_readable, node_location, split_address_fields, NodeLocation};

fn prefix(addr: &str) -> String {
    format!("{:21}:", addr)
}

fn locate(addr: &str) -> NodeLocation {
    let p = prefix(addr);
    assert!(location_readable(p.as_bytes()));
    node_location(p.as_bytes())
}

#[test]
fn known_nodes_are_located() {
    assert_eq!(locate("192.168.0.7:8001"), NodeLocation::Local);
    assert_eq!(locate("148.153.36.220:8001"), NodeLocation::UsNewYork);
    assert_eq!(locate("148.153.50.162:8001"), NodeLocation::DeFrankfurt);
    assert_eq!(locate("148.153.25.50:8001"), NodeLocation::NeArmsterdam);
    assert_eq!(locate("164.52.39.162:8001"), NodeLocation::SgSingaopore);
    assert_eq!(locate("118.186.39.238:8001"), NodeLocation::CnPeking);
}

#[test]
fn other_nodes_are_unknown() {
    assert_eq!(locate("127.0.0.1:8001"), NodeLocation::Unknown);
    assert_eq!(locate("148.153.36.221:8001"), NodeLocation::Unknown);
    assert_eq!(locate("148.153.9.9:8001"), NodeLocation::Unknown);
    assert_eq!(locate("10.192.168.1:8001"), NodeLocation::Unknown);
    assert_eq!(locate("[::1]:8001"), NodeLocation::Unknown);
}

#[test]
fn labels_are_those_printed() {
    assert_eq!(NodeLocation::Local.label(), "LOCAL");
    assert_eq!(NodeLocation::UsNewYork.label(), "US_NEW_YORK");
    assert_eq!(NodeLocation::DeFrankfurt.label(), "DE_FRANKFURT");
    assert_eq!(NodeLocation::NeArmsterdam.label(), "NE_ARMSTERDAM");
    assert_eq!(NodeLocation::SgSingaopore.label(), "SG_SINGAOPORE");
    assert_eq!(NodeLocation::CnPeking.label(), "CN_PEKING");
    assert_eq!(NodeLocation::Unknown.label(), "Node Location");
}

#[test]
fn fields_are_cut_at_dots_and_colons() {
    let f = split_address_fields(b"1.2:3..4:");
    let expect: Vec<Vec<u8>> = vec![
        b"1".to_vec(),
        b"2".to_vec(),
        b"3".to_vec(),
        Vec::new(),
        b"4".to_vec(),
        Vec::new(),
    ];
    assert_eq!(f, expect);
    assert_eq!(split_address_fields(b""), vec![Vec::<u8>::new()]);
}

#[test]
fn short_texts_are_not_readable() {
    assert!(!location_readable(b"192"));
    assert!(location_readable(b"192.168"));
    assert_eq!(node_location(b"192.168"), NodeLocation::Local);
    assert!(!location_readable(b"148.153"));
    assert!(location_readable(b"148.153.7"));
    assert_eq!(node_location(b"148.153.7"), NodeLocation::Unknown);
    assert!(!location_readable(b"148.153.36"));
    assert!(!location_readable(b"164.52.39"));
    assert!(location_readable(b"164.52.40"));
    assert!(!location_readable(b"118.186.39"));
    assert!(location_readable(b"1.2"));
}
