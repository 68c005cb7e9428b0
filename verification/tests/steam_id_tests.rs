use steamworks::steam_id::{AccountType, CSteamID, Universe};
use steamworks::text::push_decimal;

const ALL_UNIVERSES: [Universe; 6] = [
    Universe::Individual,
    Universe::Public,
    Universe::Beta,
    Universe::Internal,
    Universe::Dev,
    Universe::RC,
];

const ALL_ACCOUNT_TYPES: [AccountType; 11] = [
    AccountType::Invalid,
    AccountType::Individual,
    AccountType::Multiseat,
    AccountType::GameServer,
    AccountType::AnonGameServer,
    AccountType::Pending,
    AccountType::ContentServer,
    AccountType::Clan,
    AccountType::Chat,
    AccountType::P2P,
    AccountType::AnonUser,
];

#[test]
fn new_packs_the_fields() {
    let id = CSteamID::new(Universe::Public, AccountType::Individual, 1, 22202);
    let raw: u64 = (&id).into();
    assert_eq!(raw, 76561197960287930);
    assert_eq!(raw, 0x0110_0001_0000_56BA);
}

#[test]
fn new_then_getters_give_the_fields_back() {
    for universe in ALL_UNIVERSES {
        for account_type in ALL_ACCOUNT_TYPES {
            let id = CSteamID::new(universe, account_type, 0xABCDE, 0xDEADBEEF);
            assert_eq!(id.universe(), Some(universe));
            assert_eq!(id.account_type(), Some(account_type));
            assert_eq!(id.instance(), 0xABCDE);
            assert_eq!(id.account_id(), 0xDEADBEEF);
            assert!(id.is_valid());
        }
    }
}

#[test]
fn new_keeps_only_the_low_twenty_bits_of_the_instance() {
    let id = CSteamID::new(Universe::Dev, AccountType::Chat, 0xFFFF_FFFF, 7);
    assert_eq!(id.instance(), 0xFFFFF);
    assert_eq!(id.universe(), Some(Universe::Dev));
    assert_eq!(id.account_type(), Some(AccountType::Chat));
    assert_eq!(id.account_id(), 7);
    let raw: u64 = id.into();
    assert_eq!(raw, (4u64 << 56) | (8u64 << 52) | (0xFFFFFu64 << 32) | 7);
}

#[test]
fn getters_of_extreme_values() {
    let id = CSteamID::new(Universe::Individual, AccountType::Invalid, 0, 0);
    let raw: u64 = (&id).into();
    assert_eq!(raw, 0);
    assert_eq!(id.universe(), Some(Universe::Individual));
    assert_eq!(id.account_type(), Some(AccountType::Invalid));
    let id = CSteamID::new(Universe::RC, AccountType::AnonUser, 0xFFFFF, u32::MAX);
    assert_eq!(id.account_id(), u32::MAX);
    assert_eq!(id.instance(), 0xFFFFF);
}

#[test]
fn raw_value_round_trips() {
    for raw in [0u64, 1, 76561197960287930, u64::MAX, 0x0F00_0000_0000_0000] {
        let id = CSteamID::from(raw);
        let back: u64 = id.into();
        assert_eq!(back, raw);
    }
}

#[test]
fn fields_of_a_raw_value() {
    let id = CSteamID::from(0x0723_4567_89AB_CDEFu64);
    assert_eq!(id.universe(), None);
    assert_eq!(id.account_type(), Some(AccountType::Multiseat));
    assert_eq!(id.instance(), 0x34567);
    assert_eq!(id.account_id(), 0x89AB_CDEF);
    assert!(!id.is_valid());
}

#[test]
fn repacking_the_fields_of_a_valid_id_gives_it_back() {
    let raw: u64 = 0x0514_5678_9ABC_DEF0;
    let id = CSteamID::from(raw);
    assert!(id.is_valid());
    let rebuilt = CSteamID::new(
        id.universe().unwrap(),
        id.account_type().unwrap(),
        id.instance(),
        id.account_id(),
    );
    let back: u64 = rebuilt.into();
    assert_eq!(back, raw);
}

#[test]
fn unknown_universe_or_account_type_is_invalid() {
    for universe_code in 6u64..256 {
        let id = CSteamID::from(universe_code << 56 | 1u64 << 52);
        assert_eq!(id.universe(), None);
        assert!(!id.is_valid());
    }
    for type_code in 11u64..16 {
        let id = CSteamID::from(1u64 << 56 | type_code << 52);
        assert_eq!(id.account_type(), None);
        assert!(!id.is_valid());
    }
    for code in 0u64..6 {
        let id = CSteamID::from(code << 56);
        assert_eq!(id.universe(), Some(ALL_UNIVERSES[code as usize]));
    }
    for code in 0u64..11 {
        let id = CSteamID::from(code << 52);
        assert_eq!(id.account_type(), Some(ALL_ACCOUNT_TYPES[code as usize]));
    }
}

#[test]
fn codes_follow_the_declaration_order() {
    for (i, universe) in ALL_UNIVERSES.iter().enumerate() {
        assert_eq!(universe.code() as usize, i);
    }
    for (i, account_type) in ALL_ACCOUNT_TYPES.iter().enumerate() {
        assert_eq!(account_type.code() as usize, i);
    }
}

#[test]
fn account_type_letters() {
    let letters: String = ALL_ACCOUNT_TYPES.iter().map(|t| t.letter()).collect();
    assert_eq!(letters, "IUMGAPCgT2a");
}

#[test]
fn text_with_width_three() {
    let id = CSteamID::new(Universe::Public, AccountType::Individual, 1, 22202);
    assert_eq!(id.to_text(Some(3)), "[U:1:22202]");
    let id = CSteamID::new(Universe::Individual, AccountType::Clan, 0, 0);
    assert_eq!(id.to_text(Some(3)), "[g:0:0]");
}

#[test]
fn text_with_width_two() {
    let id = CSteamID::new(Universe::Public, AccountType::Individual, 1, 22202);
    assert_eq!(id.to_text(Some(2)), "STEAM_1:0:44404");
    let id = CSteamID::new(Universe::Beta, AccountType::GameServer, 1, 0x8000_0001);
    assert_eq!(id.to_text(Some(2)), "STEAM_2:1:2");
}

#[test]
fn text_with_other_widths_is_the_raw_value() {
    let id = CSteamID::new(Universe::Public, AccountType::Individual, 1, 22202);
    assert_eq!(id.to_text(None), "76561197960287930");
    assert_eq!(id.to_text(Some(0)), "76561197960287930");
    assert_eq!(id.to_text(Some(20)), "76561197960287930");
}

#[test]
fn text_of_an_invalid_id() {
    let id = CSteamID::from(u64::MAX);
    assert_eq!(id.to_text(None), "INVALID_STEAM_ID");
    assert_eq!(id.to_text(Some(3)), "INVALID_STEAM_ID");
    assert_eq!(id.to_text(Some(2)), "INVALID_STEAM_ID");
}

#[test]
fn decimal_text_of_numbers() {
    for (n, text) in [
        (0u64, "0"),
        (9, "9"),
        (10, "10"),
        (1234567890, "1234567890"),
        (u64::MAX, "18446744073709551615"),
    ] {
        let mut s = String::from("x=");
        push_decimal(&mut s, n);
        assert_eq!(s, format!("x={}", text));
    }
}
