use steamworks::auth::{EBeginAuthSessionResult, HAuthTicket};
use steamworks::steam_id::{AccountType, CSteamID, Universe};

fn sample_buffer() -> [u8; 1024] {
    let mut buffer = [0u8; 1024];
    for (i, byte) in buffer.iter_mut().enumerate() {
        *byte = (i % 251) as u8;
    }
    buffer
}

fn sample_id() -> CSteamID {
    CSteamID::new(Universe::Public, AccountType::Individual, 1, 22202)
}

#[test]
fn version1_ticket_answers_requests_with_its_fields() {
    let buffer = sample_buffer();
    let ticket = HAuthTicket::new_version1(42, sample_id(), buffer, 240);
    let (bytes, length, id) = ticket.session_request().unwrap();
    assert_eq!(bytes, &buffer);
    assert_eq!(length, 240);
    assert_eq!(id, 76561197960287930);
    assert_eq!(ticket.session_steam_id(), Some(76561197960287930));
    assert_eq!(ticket.cancel_handle(), Some(42));
}

#[test]
fn session_request_length_is_cut_to_32_bits() {
    let ticket = HAuthTicket::new_version1(1, sample_id(), [0; 1024], (1usize << 32) + 5);
    let (_, length, _) = ticket.session_request().unwrap();
    assert_eq!(length, 5);
}

#[test]
fn issued_ticket_needs_a_handle_and_bytes() {
    assert!(HAuthTicket::from_issued(0, 100, sample_id(), sample_buffer()).is_none());
    assert!(HAuthTicket::from_issued(7, 0, sample_id(), sample_buffer()).is_none());
    assert!(HAuthTicket::from_issued(0, 0, sample_id(), sample_buffer()).is_none());
    let ticket = HAuthTicket::from_issued(7, 100, sample_id(), sample_buffer()).unwrap();
    let (bytes, length, id) = ticket.session_request().unwrap();
    assert_eq!(bytes, &sample_buffer());
    assert_eq!(length, 100);
    assert_eq!(id, 76561197960287930);
    assert_eq!(ticket.cancel_handle(), Some(7));
}

#[test]
fn begin_auth_session_results_from_numbers() {
    let expected = [
        EBeginAuthSessionResult::OK,
        EBeginAuthSessionResult::InvalidTicket,
        EBeginAuthSessionResult::DuplicateRequest,
        EBeginAuthSessionResult::InvalidVersion,
        EBeginAuthSessionResult::GameMismatch,
        EBeginAuthSessionResult::ExpiredTicket,
    ];
    for (code, result) in expected.iter().enumerate() {
        assert_eq!(EBeginAuthSessionResult::v1_from(code as u32), Some(*result));
        assert_eq!(EBeginAuthSessionResult::from_session_call(Some(code as u32)), *result);
    }
    assert_eq!(EBeginAuthSessionResult::v1_from(6), None);
    assert_eq!(EBeginAuthSessionResult::v1_from(u32::MAX), None);
    assert_eq!(
        EBeginAuthSessionResult::from_session_call(Some(6)),
        EBeginAuthSessionResult::InvalidTicket
    );
    assert_eq!(
        EBeginAuthSessionResult::from_session_call(Some(u32::MAX)),
        EBeginAuthSessionResult::InvalidTicket
    );
    assert_eq!(
        EBeginAuthSessionResult::from_session_call(None),
        EBeginAuthSessionResult::InvalidTicket
    );
}
