use steamworks::init::{
    init_code_check, interface_version_list, is_usable_interface_address, library_path_check,
    EServerMode, InitError,
};

#[test]
fn library_path_checks_in_order() {
    assert_eq!(library_path_check(false, true, true), Err(InitError::NotAFile));
    assert_eq!(library_path_check(false, false, false), Err(InitError::NotAFile));
    assert_eq!(library_path_check(true, false, true), Err(InitError::Missing));
    assert_eq!(library_path_check(true, false, false), Err(InitError::Missing));
    assert_eq!(library_path_check(true, true, false), Err(InitError::Internal));
    assert_eq!(library_path_check(true, true, true), Ok(()));
}

#[test]
fn init_codes() {
    assert_eq!(init_code_check(0), Ok(()));
    assert_eq!(init_code_check(1), Err(InitError::FailedInit));
    assert_eq!(init_code_check(255), Err(InitError::FailedInit));
}

#[test]
fn interface_addresses() {
    assert!(!is_usable_interface_address(0));
    assert!(!is_usable_interface_address(0x10000));
    assert!(is_usable_interface_address(0x10001));
    assert!(is_usable_interface_address(usize::MAX));
}

#[test]
fn interface_version_list_of_names() {
    let list = interface_version_list(&vec!["SteamUser023\0", "Apps8"]);
    assert_eq!(list, b"SteamUser023\0\0Apps8\0\0".to_vec());
}

#[test]
fn interface_version_list_of_nothing() {
    let list = interface_version_list(&vec![]);
    assert_eq!(list, vec![0u8]);
}

#[test]
fn interface_version_list_of_non_ascii_names() {
    let list = interface_version_list(&vec!["é"]);
    assert_eq!(list, vec![0xC3, 0xA9, 0, 0]);
}

#[test]
fn server_mode_numbers() {
    assert_eq!(EServerMode::Invalid.v1_into(), Some(0));
    assert_eq!(EServerMode::NoAuthentication.v1_into(), Some(1));
    assert_eq!(EServerMode::Authentication.v1_into(), Some(2));
    assert_eq!(EServerMode::AuthenticationAndSecure.v1_into(), Some(3));
}
