use twinvpn_core::establish::{
    addresses_reported, admit_round, bind_plan, candidate_id, gather, gather_round, host_address,
    kept_sockets, probe, probe_plan, Bind, FamilyOutcome, Gathered, InterfaceFacts, Row, SocketFamily, Standing, SupportedFamilies,
};
use twinvpn_core::types::{
    AddressFamily, Endpoint, IpAddr, IpPrefix, PerFamily, Port, SessionId, V4Addr, V6Addr,
};

fn v4(octets: [u8; 4]) -> IpAddr {
    IpAddr::V4(V4Addr::from_slice(&octets).expect("v4"))
}

fn v6(octets: [u8; 16]) -> IpAddr {
    IpAddr::V6(V6Addr::from_slice(&octets, 0).expect("v6"))
}

fn dual_stack_interface() -> InterfaceFacts {
    InterfaceFacts {
        addresses: vec![
            IpPrefix::new(v4([192, 0, 2, 10]), 32).expect("prefix"),
            IpPrefix::new(
                v6([0x20, 0x01, 0x0d, 0xb8, 0, 0, 0, 0, 0, 0, 0, 0, 0, 0, 0, 10]),
                128,
            )
            .expect("prefix"),
        ],
        is_overlay: false,
        is_up: true,
        mtu: 1500,
    }
}

fn session() -> SessionId {
    SessionId::from_slice(&[7; 16]).expect("16")
}

fn bound(port: u16) -> Bind {
    Bind::Bound(Port::new(port).expect("port"))
}

fn times() -> PerFamily<Vec<u64>> {
    PerFamily {
        v4: vec![5, 6],
        v6: vec![7, 8],
    }
}

fn gathered_on(interfaces: Vec<InterfaceFacts>) -> Gathered {
    gather(
        session(),
        &Some(interfaces),
        bound(40_000),
        bound(40_001),
        &times(),
    )
}

#[test]
fn gathering_opens_a_socket_for_each_family_and_produces_both() {
    let plan = bind_plan(Some(SupportedFamilies { v4: true, v6: true }));
    assert!(plan.v4.is_some() && plan.v6.is_some(), "one socket per family");
    let gathered = gathered_on(vec![dual_stack_interface()]);
    assert!(gathered.v4.produced(), "v4 produced nothing");
    assert!(gathered.v6.produced(), "v6 produced nothing");
    assert!(!gathered.single_family());
    assert_eq!(gathered.candidates.len(), 2);
}

#[test]
fn an_overlay_interface_is_never_a_candidate() {
    let mut overlay = dual_stack_interface();
    overlay.is_overlay = true;
    let gathered = gathered_on(vec![overlay]);
    assert!(gathered.no_candidate_either_family());
    assert_eq!(gathered.v4, FamilyOutcome::NoAddress);
    assert_eq!(gathered.v6, FamilyOutcome::NoAddress);
}

#[test]
fn no_address_and_unsupported_are_different_answers() {
    let gathered = gathered_on(Vec::new());
    assert_eq!(gathered.v4, FamilyOutcome::NoAddress);
    assert_eq!(gathered.v6, FamilyOutcome::NoAddress);
    let unsupported = gather(
        session(),
        &Some(Vec::new()),
        bound(1),
        Bind::Unsupported,
        &times(),
    );
    assert_eq!(unsupported.v6, FamilyOutcome::Unsupported);
    let refused = gather(
        session(),
        &Some(Vec::new()),
        Bind::Refused,
        bound(1),
        &times(),
    );
    assert_eq!(refused.v4, FamilyOutcome::Refused);
}

#[test]
fn a_subnet_prefix_cannot_name_a_host_address() {
    let subnet = IpPrefix::new(v4([192, 0, 2, 0]), 24).expect("canonical");
    assert!(
        host_address(subnet).is_none(),
        "a /24 names a network; using it as a candidate would probe an address \
         nothing answers on"
    );
    let single = IpPrefix::new(v4([192, 0, 2, 10]), 32).expect("canonical");
    assert!(host_address(single).is_some());
}

#[test]
fn a_family_whose_address_cannot_be_carried_says_so() {
    let mut iface = dual_stack_interface();
    iface.addresses = vec![IpPrefix::new(v4([192, 0, 2, 0]), 24).expect("canonical")];
    let gathered = gathered_on(vec![iface]);
    assert_eq!(gathered.v4, FamilyOutcome::AddressNotReportable);
    assert_eq!(gathered.v6, FamilyOutcome::NoAddress);
}

#[test]
fn candidate_ids_are_distinct_and_derived() {
    let a = candidate_id(session(), 0);
    let b = candidate_id(session(), 1);
    assert_ne!(a, b);
    assert_eq!(a, candidate_id(session(), 0), "derivation is stable");
}

#[test]
fn admitting_records_every_candidate_and_schedules_the_race() {
    let gathered = gathered_on(vec![dual_stack_interface()]);
    let mut rows = Vec::new();
    let admitted = admit_round(&mut rows, gathered, 9);
    assert_eq!(rows.len(), 2);
    assert_eq!(admitted.first_direct_probe, Some(9));
    assert_eq!(admitted.now, 9);
    let families: Vec<AddressFamily> = admitted
        .candidates
        .iter()
        .map(|c| c.endpoint.address.family())
        .collect();
    assert_eq!(
        families,
        vec![AddressFamily::V4, AddressFamily::V6],
        "the race must race both families"
    );
}

#[test]
fn no_peer_means_no_probe_and_no_standing_change() {
    assert!(probe_plan(&Vec::new(), &Vec::new(), None).is_none());
    let mut rows: Vec<Row> = Vec::new();
    let absent = [0; 8];
    let _ = probe(&mut rows, absent, false);
    assert!(rows.is_empty());
}

#[test]
fn a_probe_goes_out_on_a_socket_of_the_peers_family() {
    let gathered = gathered_on(vec![dual_stack_interface()]);
    let peer = Endpoint {
        address: v4([198, 51, 100, 1]),
        port: Port::new(51_820).expect("port"),
    };
    let sockets = vec![SocketFamily::V6Only, SocketFamily::V4];
    let (at, due) = probe_plan(&sockets, &gathered.candidates, Some(peer)).expect("a plan");
    assert_eq!(at, 1);
    assert_eq!(due.len(), 1);
    let mut rows = Vec::new();
    let _ = admit_round(&mut rows, gathered, 0);
    assert_eq!(probe(&mut rows, due[0].id, true), 1);
    assert_eq!(rows[0].standing, Standing::Probing);
    assert_eq!(rows[1].standing, Standing::Gathered);
    assert_eq!(probe(&mut rows, due[0].id, false), 0);
    assert!(matches!(rows[0].standing, Standing::Failed(_)));
}

#[test]
fn a_host_that_cannot_say_opens_nothing() {
    let plan = bind_plan(None);
    assert!(plan.v4.is_none() && plan.v6.is_none());
    let gathered = gather(session(), &None, bound(1), bound(2), &times());
    assert!(gathered.no_candidate_either_family());
}

#[test]
fn a_round_without_a_candidate_stamps_no_probe() {
    let mut rows = Vec::new();
    let admitted = admit_round(&mut rows, gathered_on(Vec::new()), 9);
    assert!(rows.is_empty() && admitted.candidates.is_empty());
    assert_eq!(admitted.first_direct_probe, None);
}

#[test]
fn every_candidate_is_gathered_at_its_own_time() {
    let interfaces = Some(vec![dual_stack_interface(), dual_stack_interface()]);
    let reported = addresses_reported(&interfaces);
    assert_eq!((reported.v4, reported.v6), (2, 2));
    let gathered = gather(session(), &interfaces, bound(1), bound(2), &times());
    let at: Vec<u64> = gathered.candidates.iter().map(|c| c.gathered_at).collect();
    assert_eq!(at, vec![5, 6, 7, 8]);
}

#[test]
fn a_round_keeps_the_sockets_that_opened() {
    let both = bind_plan(Some(SupportedFamilies { v4: true, v6: true }));
    assert_eq!(
        kept_sockets(&both, bound(1), bound(2)),
        vec![SocketFamily::V4, SocketFamily::V6Only]
    );
    assert_eq!(
        kept_sockets(&both, Bind::Refused, bound(2)),
        vec![SocketFamily::V6Only]
    );
    let one = bind_plan(Some(SupportedFamilies {
        v4: true,
        v6: false,
    }));
    let round = gather_round(
        session(),
        &one,
        &Some(vec![dual_stack_interface()]),
        bound(1),
        bound(2),
        &times(),
    );
    assert_eq!(round.sockets, vec![SocketFamily::V4]);
    assert_eq!(round.gathered.v6, FamilyOutcome::Unsupported);
    assert_eq!(round.gathered.candidates.len(), 1);
}
