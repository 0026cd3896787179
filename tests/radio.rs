use rog_core::{RadioCommand, RogCore};

#[test]
fn blocked_radio_is_unblocked() {
    let core = RogCore::new(0, 0);
    let listing = "0: phy0: Wireless LAN\n\tSoft blocked: yes\n\tHard blocked: no\n";
    assert_eq!(core.toggle_airplane_mode(Some(listing)), Some(RadioCommand::UnblockAll));
    assert_eq!(core.toggle_airplane_mode(Some("wifi: yes")), Some(RadioCommand::UnblockAll));
    assert_eq!(core.toggle_airplane_mode(Some(": yes")), Some(RadioCommand::UnblockAll));
}

#[test]
fn unblocked_radios_are_blocked() {
    let core = RogCore::new(0, 0);
    let listing = "0: phy0: Wireless LAN\n\tSoft blocked: no\n\tHard blocked: no\n";
    assert_eq!(core.toggle_airplane_mode(Some(listing)), Some(RadioCommand::BlockAll));
    assert_eq!(core.toggle_airplane_mode(Some("")), Some(RadioCommand::BlockAll));
    assert_eq!(core.toggle_airplane_mode(Some("wifi:yes")), Some(RadioCommand::BlockAll));
    assert_eq!(core.toggle_airplane_mode(Some(": ye")), Some(RadioCommand::BlockAll));
}

#[test]
fn failed_listing_issues_nothing() {
    let core = RogCore::new(0, 0);
    assert_eq!(core.toggle_airplane_mode(None), None);
}

#[test]
fn radio_command_verbs() {
    assert_eq!(RadioCommand::UnblockAll.verb(), "unblock");
    assert_eq!(RadioCommand::BlockAll.verb(), "block");
}
