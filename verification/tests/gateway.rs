use twinvpn_core::gateway::{
    encode_grants, encode_peers, encode_status, AdmitError, AfterReserve, AfterTable,
    GatewayState, Grant, MIN_ADMITTED_PEERS,
};
use twinvpn_core::reason::ReasonCode;
use twinvpn_core::types::{AddressFamily, DeviceId};

fn device(tag: u8) -> DeviceId {
    DeviceId::from_slice(&[tag; 32]).expect("32 bytes")
}

fn gateway() -> GatewayState {
    GatewayState::new(64, 100_000_000)
}

fn take_in(g: &mut GatewayState, tag: u8) -> Result<(), AdmitError> {
    match g.admit_reserved(&device(tag), Ok(())) {
        AfterReserve::Refuse(e) => Err(e),
        AfterReserve::ReleaseAndRefuse(e) => Err(e),
        AfterReserve::AskTable => match g.admit_answered(device(tag), Ok(())) {
            AfterTable::Admitted => Ok(()),
            AfterTable::ReleaseAndRefuse(e) => Err(e),
        },
    }
}

#[test]
fn an_unconfigured_host_reports_that_it_is_not_a_conforming_gateway() {
    let idle = GatewayState::unconfigured();
    assert_eq!(idle.admitted(), 0);
    assert!(!idle.conforms_to_mg14());

    let real = gateway();
    assert_eq!(real.admitted(), 0);
    assert!(real.conforms_to_mg14());
}

#[test]
fn mg14s_sixteen_peer_floor_is_read_from_the_gateway_crate_and_not_restated() {
    assert_eq!(MIN_ADMITTED_PEERS, 16);
    assert!(!GatewayState::new(15, 0).conforms_to_mg14());
    assert!(GatewayState::new(16, 0).conforms_to_mg14());
}

#[test]
fn admitting_a_peer_reserves_its_capacity_and_removing_it_gives_it_back() {
    let mut g = gateway();
    take_in(&mut g, 1).expect("admitted");
    assert_eq!(g.admitted(), 1);
    g.remove(device(1));
    assert_eq!(g.admitted(), 0);
}

#[test]
fn a_refused_admission_releases_the_capacity_it_reserved() {
    let mut g = gateway();
    take_in(&mut g, 1).expect("first");
    assert!(matches!(
        g.admit_reserved(&device(1), Ok(())),
        AfterReserve::ReleaseAndRefuse(AdmitError::SourceSetOverlap)
    ));
    assert!(take_in(&mut g, 1).is_err());
    assert_eq!(g.admitted(), 1, "the admitted peer was not displaced");
    take_in(&mut g, 2).expect("second");
    assert_eq!(g.admitted(), 2);
}

#[test]
fn the_status_body_is_the_width_the_table_says() {
    let g = gateway();
    let body = encode_status(&g);
    assert_eq!(body.len(), 25);
    assert_eq!(u64::from_be_bytes(body[0..8].try_into().unwrap()), 0);
    assert_eq!(u64::from_be_bytes(body[8..16].try_into().unwrap()), 64);
    assert_eq!(body[24], 1, "a 64-peer gateway conforms to MG-14");
}

#[test]
fn the_peer_body_is_a_whole_number_of_device_ids() {
    let mut g = gateway();
    take_in(&mut g, 1).expect("one");
    take_in(&mut g, 2).expect("two");
    let body = encode_peers(&g);
    assert_eq!(body.len(), 64, "two ids at the frozen 32-byte width");
    assert_eq!(&body[..32], &device(1).bytes);
    assert_eq!(&body[32..], &device(2).bytes);
}

#[test]
fn a_grant_reports_both_families_separately() {
    let mut g = gateway();
    g.record_grant(Grant {
        peer: device(1),
        v4: true,
        v6: false,
    });
    let body = encode_grants(&g);
    assert_eq!(body.len(), 34);
    assert_eq!(&body[..32], &device(1).bytes);
    assert_eq!(body[32], 1, "v4 permitted");
    assert_eq!(body[33], 0, "v6 is NOT, and the wire can say so");
}

#[test]
fn one_peer_holds_at_most_one_grant_record() {
    let mut g = gateway();
    for _ in 0..2 {
        g.record_grant(Grant {
            peer: device(1),
            v4: true,
            v6: true,
        });
    }
    assert_eq!(g.grants().len(), 1, "a re-grant replaces, never duplicates");
}

#[test]
fn a_capacity_or_a_table_that_refuses_keeps_its_code() {
    let mut g = gateway();
    let full = AdmitError::Refused(ReasonCode::Registered("GATEWAY.FULL"));
    assert_eq!(
        g.admit_reserved(&device(1), Err(full)),
        AfterReserve::Refuse(full)
    );
    assert_eq!(
        g.admit_answered(device(1), Err(full)),
        AfterTable::ReleaseAndRefuse(full)
    );
    assert!(!g.is_admitted(&device(1)));
}

#[test]
fn removing_a_peer_takes_its_grant_and_nobody_elses() {
    let mut g = gateway();
    take_in(&mut g, 1).expect("one");
    take_in(&mut g, 2).expect("two");
    for tag in [1, 2] {
        g.record_grant(Grant {
            peer: device(tag),
            v4: true,
            v6: false,
        });
    }
    g.remove(device(1));
    assert_eq!(g.peers(), &vec![device(2)]);
    assert_eq!(g.grants().len(), 1);
    assert_eq!(g.grants()[0].peer(), device(2));
    assert!(g.grants()[0].permits(AddressFamily::V4));
    assert!(!g.grants()[0].permits(AddressFamily::V6));
    assert_eq!(g.floor_bits_per_sec(), 100_000_000);
}
