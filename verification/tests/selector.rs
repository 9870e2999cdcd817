//! Exercises of the Mii Selector decision logic.

use ctru::mii::{
    guest_mii_slot, launch_outcome, selected_mii_type, user_mii_slot, Index, LaunchError, MiiType,
    GUEST_MII_SLOTS, NO_GUEST_MII, USER_MII_SLOTS,
};

#[test]
fn slot_argument_for_specific_and_all_miis() {
    assert_eq!(guest_mii_slot(Index::Index(3)), 3);
    assert_eq!(guest_mii_slot(Index::All), GUEST_MII_SLOTS);
    assert_eq!(user_mii_slot(Index::Index(42)), 42);
    assert_eq!(user_mii_slot(Index::All), USER_MII_SLOTS);
}

#[test]
fn a_number_converts_to_a_specific_index() {
    assert_eq!(Index::from(7), Index::Index(7));
}

#[test]
fn sentinel_guest_index_means_a_user_mii() {
    assert_eq!(selected_mii_type(NO_GUEST_MII, &vec![]), Some(MiiType::User));
    // Even a nonsense name plays no role for a user Mii.
    assert_eq!(selected_mii_type(NO_GUEST_MII, &vec![0xD800]), Some(MiiType::User));
}

#[test]
fn guest_name_units_arrive_reversed() {
    // The applet hands the name back in reversed code-unit order:
    // [B, A] decodes to the name "AB".
    let r = selected_mii_type(2, &vec![0x42, 0x41]);
    assert_eq!(r, Some(MiiType::Guest { index: 2, name: String::from("AB") }));
}

#[test]
fn empty_guest_name_decodes_to_the_empty_string() {
    let r = selected_mii_type(0, &vec![]);
    assert_eq!(r, Some(MiiType::Guest { index: 0, name: String::new() }));
}

#[test]
fn invalid_utf16_guest_name_is_rejected() {
    // An unpaired surrogate is not valid UTF-16.
    assert_eq!(selected_mii_type(1, &vec![0xD800]), None);
}

#[test]
fn launch_errors_describe_themselves() {
    assert_eq!(LaunchError::InvalidChecksum.message(), "selected mii has invalid checksum");
    assert_eq!(LaunchError::NoMiiSelected.message(), "no mii was selected");
}

#[test]
fn launch_outcome_orders_its_errors() {
    assert_eq!(launch_outcome(true, true), Err(LaunchError::NoMiiSelected));
    assert_eq!(launch_outcome(true, false), Err(LaunchError::NoMiiSelected));
    assert_eq!(launch_outcome(false, false), Err(LaunchError::InvalidChecksum));
    assert_eq!(launch_outcome(false, true), Ok(()));
}
