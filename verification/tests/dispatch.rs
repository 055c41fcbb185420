use twinvpn_core::dispatch::{
    disposition, executed, missing_parameter, not_wired, peer_from_params, CoreCommand,
    Lifecycle, Outcome, Submission,
};
use twinvpn_core::instance::{executes, unimplemented};
use twinvpn_core::reason::ReasonCode;
use twinvpn_core::session::Event;

#[test]
fn every_operation_has_a_stated_disposition() {
    assert_eq!(executed().len() + not_wired().len(), CoreCommand::all().len());
}

#[test]
fn every_refusal_states_a_reason_and_a_registered_code() {
    for (op, code, why) in not_wired() {
        assert!(
            !why.trim().is_empty(),
            "{op:?} is refused with no stated reason"
        );
        assert!(
            ReasonCode::lookup(code.as_str(), &Vec::new()).is_some(),
            "{op:?} refuses with an unregistered code"
        );
    }
}

#[test]
fn what_is_refused_is_listed_once_and_in_the_order_of_the_catalogue() {
    let listed: Vec<CoreCommand> = not_wired().iter().map(|(op, _, _)| *op).collect();
    let refused: Vec<CoreCommand> = CoreCommand::all()
        .into_iter()
        .filter(|op| !disposition(*op).executes())
        .collect();
    assert_eq!(listed, refused);
    for (i, op) in listed.iter().enumerate() {
        assert!(!listed[i + 1..].contains(op), "{op:?} is listed twice");
    }
    for (_, code, _) in not_wired() {
        assert_eq!(ReasonCode::lookup(code.as_str(), &Vec::new()), Some(code));
    }
}

#[test]
fn session_connect_is_executed() {
    assert!(disposition(CoreCommand::SessionConnect).executes());
}

#[test]
fn a_lifecycle_selector_is_never_defaulted() {
    assert_eq!(Lifecycle::from_params(&[]), None);
    assert_eq!(Lifecycle::from_params(&[9]), None);
    for phase in [
        Lifecycle::Suspend,
        Lifecycle::Resume,
        Lifecycle::Background,
        Lifecycle::Foreground,
    ] {
        assert_eq!(Lifecycle::from_params(&[phase.to_params()]), Some(phase));
    }
}

#[test]
fn a_peer_of_the_wrong_width_is_refused_not_padded() {
    assert!(peer_from_params(&[0u8; 31]).is_none());
    assert!(peer_from_params(&[0u8; 33]).is_none());
    assert!(peer_from_params(&[0u8; 32]).is_some());
}

#[test]
fn a_session_operation_without_a_peer_is_a_typed_reject() {
    let bare = Submission::bare(CoreCommand::SessionConnect);
    assert_eq!(
        missing_parameter(CoreCommand::SessionConnect, &bare),
        Some(ReasonCode::ProtoMalformedMessage)
    );
}

#[test]
fn the_refused_set_is_a_subset_of_the_catalogue() {
    for (op, _, _) in unimplemented() {
        assert!(
            CoreCommand::all().contains(&op),
            "{op:?} is not a catalogue operation"
        );
    }
}

#[test]
fn the_catalogue_is_divided_into_what_is_performed_and_what_is_refused() {
    assert_eq!(CoreCommand::all().len(), 51);
    assert_eq!(executed().len(), 22);
    assert_eq!(unimplemented().len(), 29);
    assert!(executes(CoreCommand::PairBegin));
    assert!(!executes(CoreCommand::DeviceRevoke));
}

#[test]
fn a_phase_is_told_to_a_machine_as_its_event() {
    assert_eq!(Lifecycle::Suspend.event(), Event::Suspend);
    assert_eq!(Lifecycle::Foreground.event(), Event::Foreground);
}

#[test]
fn a_ceremony_and_its_identifier_are_checked_before_any_work() {
    let mut begin = Submission::bare(CoreCommand::PairBegin);
    assert!(missing_parameter(CoreCommand::PairBegin, &begin).is_some());
    begin.params = vec![0];
    let mut cancel = Submission::bare(CoreCommand::PairCancel);
    cancel.params = vec![0; 15];
    assert!(missing_parameter(CoreCommand::PairCancel, &cancel).is_some());
    cancel.params = vec![0; 16];
    assert_eq!(missing_parameter(CoreCommand::PairCancel, &cancel), None);
    let status = Submission::bare(CoreCommand::StatusGet);
    assert_eq!(missing_parameter(CoreCommand::StatusGet, &status), None);
}

#[test]
fn a_read_is_an_effect_by_itself() {
    let read = Outcome::read(vec![1]);
    assert_eq!(read.effects, 1);
    let told = Outcome::new(vec![2], 3).responding(Some(vec![4]));
    assert_eq!(told.effects, 3);
    assert_eq!(told.response, Some(vec![4]));
}
