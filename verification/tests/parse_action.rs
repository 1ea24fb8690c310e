//! The reply-line grammar: the four action forms parse, everything else
//! is rejected.

use pokerbots::actions::{parse_action, Action, GameActionError};

#[test]
fn parse_action_check() {
    assert_eq!(parse_action(&"X".to_owned()).unwrap(), Action::Check);
}

#[test]
fn parse_action_fold() {
    assert_eq!(parse_action(&"F".to_owned()).unwrap(), Action::Fold);
}

#[test]
fn parse_action_call() {
    assert_eq!(parse_action(&"C".to_owned()).unwrap(), Action::Call);
}

#[test]
fn parse_action_raise() {
    assert_eq!(
        parse_action(&"R1234".to_owned()).unwrap(),
        Action::Raise { amt: 1234 }
    );
}

#[test]
fn parse_action_raise_invalid() {
    assert!(parse_action(&"R".to_owned()).is_err());
}

#[test]
fn parse_action_raise_invalid2() {
    assert!(parse_action(&"R1234a".to_owned()).is_err());
}

#[test]
fn parse_action_raise_invalid3() {
    assert!(parse_action(&"R-1234".to_owned()).is_err());
}

#[test]
fn parse_action_raise_invalid4() {
    assert!(parse_action(&"R-1".to_owned()).is_err());
}

#[test]
fn parse_action_raise_invalid5() {
    assert!(parse_action(&"R1234.0".to_owned()).is_err());
}

#[test]
fn parse_action_raise_invalid6() {
    assert!(parse_action(&"B".to_owned()).is_err());
}

#[test]
fn parse_action_rejects_plus_sign_and_overflow() {
    assert_eq!(
        parse_action("R+12"),
        Err(GameActionError::CouldNotParse)
    );
    assert!(parse_action("R99999999999").is_err());
    assert_eq!(parse_action("R4294967295").unwrap(), Action::Raise { amt: u32::MAX });
    assert!(parse_action("").is_err());
    assert!(parse_action("XX").is_err());
    assert_eq!(parse_action("R007").unwrap(), Action::Raise { amt: 7 });
}
