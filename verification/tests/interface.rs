//! Interface tables.
use siphon_rtp_engine::interface::{InterfaceAddress, InterfaceEntry, InterfaceTable};
use siphon_rtp_engine::net::{AddressFamily, IpAddress, SourceFilter};

fn v4(a: u8, b: u8, c: u8, d: u8) -> IpAddress {
    IpAddress::V4(a, b, c, d)
}

fn entry(name: &str, bind: IpAddress, advertised: Option<IpAddress>) -> InterfaceEntry {
    InterfaceEntry::new(name.to_string(), bind, advertised)
}

#[test]
fn single_defaults_advertised_to_bind() {
    let table = InterfaceTable::single(v4(10, 0, 0, 1), None);
    let address = table.default_interface().exact_address_for(AddressFamily::V4).expect("v4 address");
    assert_eq!(address.bind, v4(10, 0, 0, 1));
    assert_eq!(address.advertised, v4(10, 0, 0, 1));
}

#[test]
fn single_carries_a_distinct_advertised_ip() {
    let table = InterfaceTable::single(v4(0, 0, 0, 0), Some(v4(203, 0, 113, 5)));
    let address = table.default_interface().exact_address_for(AddressFamily::V4).expect("v4 address");
    assert_eq!(address.bind, v4(0, 0, 0, 0));
    assert_eq!(address.advertised, v4(203, 0, 113, 5));
}

#[test]
fn direction_selects_near_and_far_interfaces() {
    let table = InterfaceTable::from_entries(
        vec![
            entry("internal", v4(10, 0, 0, 1), None),
            entry("external", v4(0, 0, 0, 0), Some(v4(203, 0, 113, 5))),
        ],
        None,
    )
    .expect("table");
    let (near, far) = table.resolve_direction(&["external".to_string(), "internal".to_string()]);
    assert_eq!(near.name, "external");
    assert_eq!(far.name, "internal");
    assert_eq!(near.exact_address_for(AddressFamily::V4).expect("v4").advertised, v4(203, 0, 113, 5));
    assert_eq!(far.exact_address_for(AddressFamily::V4).expect("v4").bind, v4(10, 0, 0, 1));
}

#[test]
fn unknown_direction_falls_back_to_default() {
    let table = InterfaceTable::from_entries(
        vec![entry("internal", v4(10, 0, 0, 1), None), entry("external", v4(203, 0, 113, 5), None)],
        Some("external"),
    )
    .expect("table");
    let (near, far) = table.resolve_direction(&["does-not-exist".to_string(), String::new()]);
    assert_eq!(near.name, "external", "unknown slot falls back to default");
    assert_eq!(far.name, "external", "empty slot falls back to default");
}

#[test]
fn empty_direction_uses_default() {
    let table = InterfaceTable::from_entries(
        vec![entry("a", v4(10, 0, 0, 1), None), entry("b", v4(10, 0, 0, 2), None)],
        Some("b"),
    )
    .expect("table");
    let (near, far) = table.resolve_direction(&[]);
    assert_eq!(near.name, "b");
    assert_eq!(far.name, "b");
}

#[test]
fn same_name_merges_two_families() {
    let six = IpAddress::V6(0x2001_0db8_0000_0000_0000_0000_0000_0005);
    let table =
        InterfaceTable::from_entries(vec![entry("edge", v4(203, 0, 113, 5), None), entry("edge", six, None)], None)
            .expect("table");
    let edge = table.find("edge").expect("edge");
    assert_eq!(edge.addresses.len(), 2, "v4 and v6 merged under one name");
    assert_eq!(edge.exact_address_for(AddressFamily::V4).expect("v4").bind.family(), AddressFamily::V4);
    assert_eq!(edge.exact_address_for(AddressFamily::V6).expect("v6").bind.family(), AddressFamily::V6);
}

#[test]
fn exact_address_for_returns_none_for_a_missing_family() {
    let table = InterfaceTable::single(v4(10, 0, 0, 1), None);
    assert!(table.default_interface().exact_address_for(AddressFamily::V6).is_none());
}

#[test]
fn empty_entries_is_an_error() {
    assert!(InterfaceTable::from_entries(Vec::new(), None).is_err());
}

#[test]
fn duplicate_family_on_one_name_is_an_error() {
    let error = InterfaceTable::from_entries(
        vec![entry("dup", v4(10, 0, 0, 1), None), entry("dup", v4(10, 0, 0, 2), None)],
        None,
    )
    .expect_err("two v4 addresses on one name must be rejected");
    assert!(error.contains("dup"), "error names the offending interface");
}

#[test]
fn unknown_default_name_is_an_error() {
    assert!(InterfaceTable::from_entries(vec![entry("a", v4(10, 0, 0, 1), None)], Some("missing")).is_err());
}

#[test]
fn advertised_media_addresses_dedup_and_skip_wildcard() {
    let table = InterfaceTable::from_entries(
        vec![
            entry("a", v4(0, 0, 0, 0), Some(v4(203, 0, 113, 5))),
            entry("b", v4(0, 0, 0, 0), None),
            entry("c", v4(203, 0, 113, 5), None),
        ],
        None,
    )
    .expect("table");
    let texts: Vec<String> = table
        .advertised_media_addresses()
        .into_iter()
        .map(|address| match address {
            IpAddress::V4(a, b, c, d) => format!("{a}.{b}.{c}.{d}"),
            IpAddress::V6(bits) => format!("{bits:x}"),
        })
        .collect();
    assert_eq!(texts, vec!["203.0.113.5".to_string()]);
}

#[test]
fn an_interface_holds_the_lines_of_its_name_in_order() {
    let table = InterfaceTable::from_entries(
        vec![
            entry("b", IpAddress::V6(7), None),
            entry("a", v4(10, 0, 0, 1), None),
            entry("b", v4(10, 0, 0, 2), Some(v4(203, 0, 113, 6))),
        ],
        None,
    )
    .expect("table");
    assert_eq!(
        table.find("b").expect("found").addresses,
        vec![
            InterfaceAddress { bind: IpAddress::V6(7), advertised: IpAddress::V6(7) },
            InterfaceAddress { bind: v4(10, 0, 0, 2), advertised: v4(203, 0, 113, 6) },
        ]
    );
    assert_eq!(table.find("a").expect("found").addresses.len(), 1);
    assert_eq!(table.default_interface().name, "b", "the first line's");
}

#[test]
fn a_name_that_is_not_there_is_not_found() {
    let table = InterfaceTable::from_entries(vec![entry("a", v4(10, 0, 0, 1), None)], None).expect("table");
    assert!(table.find("A").is_none());
    assert_eq!(table.default_interface().name, "a");
    let address = InterfaceAddress { bind: IpAddress::V6(1), advertised: v4(10, 0, 0, 1) };
    assert_eq!(address.family(), AddressFamily::V6, "the bind address decides");
}

#[test]
fn the_source_gate_compares_addresses() {
    let signalled = v4(198, 51, 100, 7);
    assert!(SourceFilter::Exact(signalled).accepts(signalled));
    assert!(!SourceFilter::Exact(signalled).accepts(v4(198, 51, 100, 8)));
    let subnet = SourceFilter::Subnet(signalled, 24);
    assert!(subnet.accepts(v4(198, 51, 100, 200)));
    assert!(!subnet.accepts(v4(198, 51, 101, 7)));
    assert!(!subnet.accepts(IpAddress::V6(0)));
    assert!(!SourceFilter::Subnet(signalled, 99).accepts(v4(198, 51, 100, 8)), "at most the whole address");
    assert!(SourceFilter::Subnet(IpAddress::V6(7 << 64), 64).accepts(IpAddress::V6((7 << 64) + 9)));
    assert!(SourceFilter::Subnet(signalled, 0).accepts(v4(1, 2, 3, 4)));
    assert!(SourceFilter::Any.accepts(IpAddress::V6(0)));
}
