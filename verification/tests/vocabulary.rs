use twinvpn_core::reason::{Component, Diagnostic, Evidence, ReasonCode};
use twinvpn_core::session_table::{SessionEntry, SessionTable};
use twinvpn_core::table::{NameMap, OctetMap};
use twinvpn_core::types::{
    AddressFamily, DeviceId, IpAddr, IpPrefix, Port, SessionId, TwinnetId, TypeError, V4Addr,
    V6Addr,
};

#[test]
fn a_code_is_found_by_its_text() {
    let code = ReasonCode::NetSessionClosedByUser;
    assert_eq!(code.as_str(), "NET.SESSION_CLOSED_BY_USER");
    assert_eq!(ReasonCode::lookup(code.as_str(), &Vec::new()), Some(code));
    assert_eq!(ReasonCode::lookup("NET.NOT_A_CODE", &Vec::new()), None);
    assert_eq!(
        ReasonCode::lookup("NAT.SYMMETRIC", &vec!["NAT.SYMMETRIC"]),
        Some(ReasonCode::Registered("NAT.SYMMETRIC"))
    );
}

#[test]
fn a_diagnostic_carries_what_it_was_given() {
    let d = Diagnostic::invariant_violated(Component::Diagnostics, "what");
    assert_eq!(d.code().as_str(), "INTERNAL.INVARIANT_VIOLATED");
    assert_eq!(d.evidence, Evidence::Invariant("what"));
}

#[test]
fn an_identifier_of_the_wrong_width_is_refused() {
    assert!(DeviceId::from_slice(&[0; 31]).is_err());
    assert!(SessionId::from_slice(&[0; 17]).is_err());
    assert!(V4Addr::from_slice(&[0; 5]).is_err());
    assert!(V6Addr::from_slice(&[0; 15], 0).is_err());
    assert!(Port::new(0).is_err());
    let a = DeviceId::from_slice(&[1; 32]).expect("32");
    let b = DeviceId::from_slice(&[2; 32]).expect("32");
    assert!(a.same(&a) && !a.same(&b));
}

#[test]
fn a_prefix_has_no_host_bits() {
    let host = IpAddr::V4(V4Addr::from_slice(&[192, 0, 2, 10]).expect("v4"));
    let refused: Result<IpPrefix, TypeError> = IpPrefix::new(host, 24);
    assert!(refused.is_err());
    let single = IpPrefix::new(host, 32).expect("a host");
    assert_eq!(single.address(), host);
    assert_eq!(single.family(), AddressFamily::V4);
    assert!(IpPrefix::new(host, 33).is_err());
}

#[test]
fn a_map_is_walked_in_the_order_of_its_keys() {
    let mut map: OctetMap<u8> = OctetMap::new();
    map.insert(vec![2, 1], 1);
    map.insert(vec![1], 2);
    map.insert(vec![2], 3);
    map.insert(vec![1], 4);
    assert_eq!(map.len(), 3);
    assert_eq!(map.key_at(0), &vec![1]);
    assert_eq!(*map.value_at(0), 4);
    assert_eq!(map.key_at(1), &vec![2]);
    assert_eq!(map.key_at(2), &vec![2, 1]);
    assert_eq!(map.remove(&[2]), Some(3));
    assert!(!map.contains(&[2]));
    assert_eq!(map.get(&[2, 1]), Some(&1));

    let mut names: NameMap<u8> = NameMap::new();
    names.insert("b".to_owned(), 1);
    names.insert("a".to_owned(), 2);
    names.insert("b".to_owned(), 3);
    assert_eq!(names.len(), 2);
    assert_eq!(names.get(&"b".to_owned()), Some(&3));
    assert_eq!(names.remove(&"a".to_owned()), Some(2));
}

#[test]
fn a_session_stands_under_its_own_name() {
    let id = |b: u8| SessionId::from_slice(&[b; 16]).expect("16");
    let peer = DeviceId::from_slice(&[1; 32]).expect("32");
    let mut table = SessionTable::new();
    table.put(SessionEntry::new(id(2), peer));
    table.put(SessionEntry::new(id(1), peer));
    assert_eq!(table.ids(), vec![id(1), id(2)]);
    assert!(table.contains(id(1)));
    let taken = table.take(id(1)).expect("known");
    assert_eq!(taken.session_id, id(1));
    assert!(table.get(id(1)).is_none());
    assert!(table.carrying().is_empty());
    assert!(!table.any_connected());
}

#[test]
fn a_network_keeps_its_name() {
    assert_eq!(TwinnetId::new("tn-test").as_str(), "tn-test");
}
