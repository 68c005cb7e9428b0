//! Steam identifiers: a 64-bit value that packs a universe, an account
//! type, an instance and an account number.
//!
//! Layout of the packed value, from the most significant bit down:
//! bits 56..64 hold the universe, bits 52..56 the account type,
//! bits 32..52 the instance and bits 0..32 the account number.
use vstd::prelude::*;

use crate::text::{decimal_text, decimal_value, lemma_decimal_text_denotes, push_decimal};

verus! {

/// 2^56: the weight of the universe field.
pub open spec fn universe_weight() -> int {
    0x100000000000000
}

/// 2^52: the weight of the account type field.
pub open spec fn account_type_weight() -> int {
    0x10000000000000
}

/// 2^32: the weight of the instance field.
pub open spec fn instance_weight() -> int {
    0x100000000
}

/// 2^20: the number of distinct instances.
pub open spec fn instance_span() -> int {
    0x100000
}

/// The value that packs the four fields; `instance` is reduced to its
/// low 20 bits.
pub open spec fn packed_id(universe: int, account_type: int, instance: int, account_id: int) -> int {
    universe * universe_weight() + account_type * account_type_weight() + (instance
        % instance_span()) * instance_weight() + account_id
}

/// The universe field of a packed value.
pub open spec fn universe_field(id: u64) -> int {
    id as int / universe_weight()
}

/// The account type field of a packed value.
pub open spec fn account_type_field(id: u64) -> int {
    (id as int / account_type_weight()) % 16
}

/// The instance field of a packed value.
pub open spec fn instance_field(id: u64) -> int {
    (id as int / instance_weight()) % instance_span()
}

/// The account number field of a packed value.
pub open spec fn account_id_field(id: u64) -> int {
    id as int % instance_weight()
}

/// The Steam universe an identifier belongs to.
#[derive(Debug, Clone, Copy, PartialEq, Eq, Structural)]
pub enum Universe {
    Individual,
    Public,
    Beta,
    Internal,
    Dev,
    RC,
}

impl Universe {
    /// The number that stands for the universe in a packed identifier.
    pub open spec fn spec_code(self) -> u8 {
        match self {
            Universe::Individual => 0,
            Universe::Public => 1,
            Universe::Beta => 2,
            Universe::Internal => 3,
            Universe::Dev => 4,
            Universe::RC => 5,
        }
    }

    /// The universe a number stands for, if any.
    pub open spec fn spec_from_code(code: int) -> Option<Universe> {
        if code == 0 {
            Some(Universe::Individual)
        } else if code == 1 {
            Some(Universe::Public)
        } else if code == 2 {
            Some(Universe::Beta)
        } else if code == 3 {
            Some(Universe::Internal)
        } else if code == 4 {
            Some(Universe::Dev)
        } else if code == 5 {
            Some(Universe::RC)
        } else {
            None
        }
    }

    /// The number that stands for the universe in a packed identifier.
    pub fn code(&self) -> (c: u8)
        ensures
            c == self.spec_code(),
    {
        match self {
            Universe::Individual => 0,
            Universe::Public => 1,
            Universe::Beta => 2,
            Universe::Internal => 3,
            Universe::Dev => 4,
            Universe::RC => 5,
        }
    }
}

/// The kind of account an identifier names.
#[derive(Debug, Clone, Copy, PartialEq, Eq, Structural)]
pub enum AccountType {
    Invalid,
    Individual,
    Multiseat,
    GameServer,
    AnonGameServer,
    Pending,
    ContentServer,
    Clan,
    Chat,
    P2P,
    AnonUser,
}

impl AccountType {
    /// The number that stands for the account type in a packed identifier.
    pub open spec fn spec_code(self) -> u8 {
        match self {
            AccountType::Invalid => 0,
            AccountType::Individual => 1,
            AccountType::Multiseat => 2,
            AccountType::GameServer => 3,
            AccountType::AnonGameServer => 4,
            AccountType::Pending => 5,
            AccountType::ContentServer => 6,
            AccountType::Clan => 7,
            AccountType::Chat => 8,
            AccountType::P2P => 9,
            AccountType::AnonUser => 10,
        }
    }

    /// The account type a number stands for, if any.
    pub open spec fn spec_from_code(code: int) -> Option<AccountType> {
        if code == 0 {
            Some(AccountType::Invalid)
        } else if code == 1 {
            Some(AccountType::Individual)
        } else if code == 2 {
            Some(AccountType::Multiseat)
        } else if code == 3 {
            Some(AccountType::GameServer)
        } else if code == 4 {
            Some(AccountType::AnonGameServer)
        } else if code == 5 {
            Some(AccountType::Pending)
        } else if code == 6 {
            Some(AccountType::ContentServer)
        } else if code == 7 {
            Some(AccountType::Clan)
        } else if code == 8 {
            Some(AccountType::Chat)
        } else if code == 9 {
            Some(AccountType::P2P)
        } else if code == 10 {
            Some(AccountType::AnonUser)
        } else {
            None
        }
    }

    /// The letter that names the account type in the bracketed text form.
    pub open spec fn spec_letter(self) -> char {
        match self {
            AccountType::Invalid => 'I',
            AccountType::Individual => 'U',
            AccountType::Multiseat => 'M',
            AccountType::GameServer => 'G',
            AccountType::AnonGameServer => 'A',
            AccountType::Pending => 'P',
            AccountType::ContentServer => 'C',
            AccountType::Clan => 'g',
            AccountType::Chat => 'T',
            AccountType::P2P => '2',
            AccountType::AnonUser => 'a',
        }
    }

    /// The number that stands for the account type in a packed identifier.
    pub fn code(&self) -> (c: u8)
        ensures
            c == self.spec_code(),
    {
        match self {
            AccountType::Invalid => 0,
            AccountType::Individual => 1,
            AccountType::Multiseat => 2,
            AccountType::GameServer => 3,
            AccountType::AnonGameServer => 4,
            AccountType::Pending => 5,
            AccountType::ContentServer => 6,
            AccountType::Clan => 7,
            AccountType::Chat => 8,
            AccountType::P2P => 9,
            AccountType::AnonUser => 10,
        }
    }

    /// The letter that names the account type (its text form).
    pub fn letter(&self) -> (c: char)
        ensures
            c == self.spec_letter(),
    {
        match self {
            AccountType::Invalid => 'I',
            AccountType::Individual => 'U',
            AccountType::Multiseat => 'M',
            AccountType::GameServer => 'G',
            AccountType::AnonGameServer => 'A',
            AccountType::Pending => 'P',
            AccountType::ContentServer => 'C',
            AccountType::Clan => 'g',
            AccountType::Chat => 'T',
            AccountType::P2P => '2',
            AccountType::AnonUser => 'a',
        }
    }
}

/// A Steam identifier.
pub struct CSteamID(u64);

impl View for CSteamID {
    type V = u64;

    closed spec fn view(&self) -> u64 {
        self.0
    }
}

impl CSteamID {
    /// The universe the identifier names, if its field holds a known one.
    pub open spec fn spec_universe(&self) -> Option<Universe> {
        Universe::spec_from_code(universe_field(self@))
    }

    /// The account type the identifier names, if its field holds a known one.
    pub open spec fn spec_account_type(&self) -> Option<AccountType> {
        AccountType::spec_from_code(account_type_field(self@))
    }

    /// An identifier is valid when both its universe and its account type
    /// are known.
    pub open spec fn spec_is_valid(&self) -> bool {
        self.spec_universe() is Some && self.spec_account_type() is Some
    }

    /// Packs the four fields; only the low 20 bits of `instance` are kept.
    pub fn new(universe: Universe, account_type: AccountType, instance: u32, account_id: u32) -> (id: Self)
        ensures
            id@ as int == packed_id(
                universe.spec_code() as int,
                account_type.spec_code() as int,
                instance as int,
                account_id as int,
            ),
    {
        let universe: u8 = universe.code();
        let account_type: u8 = account_type.code();
        let low_instance: u32 = instance & 0xFFFFF;
        proof {
            lemma_low_bits_as_remainder(instance);
            lemma_pack_as_sum(universe, account_type, low_instance, account_id);
        }
        let id: u64 = ((universe as u64) << 56) | ((account_type as u64) << 52) | ((
        low_instance as u64) << 32) | (account_id as u64);
        CSteamID(id)
    }

    /// The universe field, if it holds a known universe.
    pub fn universe(&self) -> (u: Option<Universe>)
        ensures
            u == self.spec_universe(),
    {
        let x: u64 = self.0;
        let code: u8 = ((x >> 56) & 0xFF) as u8;
        assert(((x >> 56) & 0xFF) == x / 0x100000000000000) by (bit_vector);
        match code {
            0 => Some(Universe::Individual),
            1 => Some(Universe::Public),
            2 => Some(Universe::Beta),
            3 => Some(Universe::Internal),
            4 => Some(Universe::Dev),
            5 => Some(Universe::RC),
            _ => None,
        }
    }

    /// The account type field, if it holds a known account type.
    pub fn account_type(&self) -> (t: Option<AccountType>)
        ensures
            t == self.spec_account_type(),
    {
        let x: u64 = self.0;
        let code: u8 = ((x >> 52) & 0xF) as u8;
        assert(((x >> 52) & 0xF) == (x / 0x10000000000000) % 16) by (bit_vector);
        match code {
            0 => Some(AccountType::Invalid),
            1 => Some(AccountType::Individual),
            2 => Some(AccountType::Multiseat),
            3 => Some(AccountType::GameServer),
            4 => Some(AccountType::AnonGameServer),
            5 => Some(AccountType::Pending),
            6 => Some(AccountType::ContentServer),
            7 => Some(AccountType::Clan),
            8 => Some(AccountType::Chat),
            9 => Some(AccountType::P2P),
            10 => Some(AccountType::AnonUser),
            _ => None,
        }
    }

    /// The instance field.
    pub fn instance(&self) -> (i: u32)
        ensures
            i as int == instance_field(self@),
    {
        let x: u64 = self.0;
        assert(((x >> 32) & 0xFFFFF) == (x / 0x100000000) % 0x100000) by (bit_vector);
        ((x >> 32) & 0xFFFFF) as u32
    }

    /// The account number field.
    pub fn account_id(&self) -> (a: u32)
        ensures
            a as int == account_id_field(self@),
    {
        let x: u64 = self.0;
        assert((x & 0xFFFFFFFF) == x % 0x100000000) by (bit_vector);
        (x & 0xFFFFFFFF) as u32
    }

    /// Whether both the universe and the account type are known.
    pub fn is_valid(&self) -> (b: bool)
        ensures
            b == self.spec_is_valid(),
    {
        self.account_type().is_some() && self.universe().is_some()
    }
}

/// The text form of an identifier for a requested field width: width 3
/// gives `[T:U:N]` (account type letter, universe number, account number),
/// width 2 gives `STEAM_U:B:D` (universe number, lowest bit of the account
/// number, the account number shifted left by one within 32 bits), any
/// other width the raw 64-bit value in decimal. An identifier whose
/// universe or account type is unknown reads `INVALID_STEAM_ID`.
pub open spec fn steam_id_text(id: CSteamID, width: Option<usize>) -> Seq<char> {
    if !id.spec_is_valid() {
        "INVALID_STEAM_ID"@
    } else if width == Some(3usize) {
        seq!['['].push(id.spec_account_type().unwrap().spec_letter()).push(':') + decimal_text(
            id.spec_universe().unwrap().spec_code() as nat,
        ).push(':') + decimal_text(account_id_field(id@) as nat).push(']')
    } else if width == Some(2usize) {
        "STEAM_"@ + decimal_text(id.spec_universe().unwrap().spec_code() as nat).push(':')
            + decimal_text((account_id_field(id@) % 2) as nat).push(':') + decimal_text(
            ((account_id_field(id@) * 2) % instance_weight()) as nat,
        )
    } else {
        decimal_text(id@ as nat)
    }
}

impl CSteamID {
    /// The text form for a requested field width (see `steam_id_text`).
    pub fn to_text(&self, width: Option<usize>) -> (s: String)
        ensures
            s@ == steam_id_text(*self, width),
    {
        if self.is_valid() {
            let universe: Universe = match self.universe() {
                Some(u) => u,
                None => Universe::Individual,
            };
            let account_type: AccountType = match self.account_type() {
                Some(t) => t,
                None => AccountType::Invalid,
            };
            let account_id: u32 = self.account_id();
            let mut s: String = String::new();
            match width {
                Some(3) => {
                    s.append("[");
                    proof {
                        reveal_strlit("[");
                    }
                    let letter: &str = letter_str(account_type);
                    s.append(letter);
                    s.append(":");
                    proof {
                        reveal_strlit(":");
                    }
                    push_decimal(&mut s, universe.code() as u64);
                    s.append(":");
                    push_decimal(&mut s, account_id as u64);
                    s.append("]");
                    proof {
                        reveal_strlit("]");
                    }
                },
                Some(2) => {
                    s.append("STEAM_");
                    push_decimal(&mut s, universe.code() as u64);
                    s.append(":");
                    proof {
                        reveal_strlit(":");
                    }
                    push_decimal(&mut s, (account_id & 0b1) as u64);
                    s.append(":");
                    let shifted: u32 = account_id << 1;
                    assert((account_id & 0b1) == account_id % 2) by (bit_vector);
                    assert((account_id << 1) as int == (account_id as int * 2) % 0x100000000)
                        by (bit_vector);
                    push_decimal(&mut s, shifted as u64);
                },
                _ => {
                    push_decimal(&mut s, self.0);
                },
            }
            s
        } else {
            String::from_str("INVALID_STEAM_ID")
        }
    }
}

/// The one-letter text of an account type.
fn letter_str(account_type: AccountType) -> (s: &'static str)
    ensures
        s@ == seq![account_type.spec_letter()],
{
    match account_type {
        AccountType::Invalid => {
            proof {
                reveal_strlit("I");
            }
            "I"
        },
        AccountType::Individual => {
            proof {
                reveal_strlit("U");
            }
            "U"
        },
        AccountType::Multiseat => {
            proof {
                reveal_strlit("M");
            }
            "M"
        },
        AccountType::GameServer => {
            proof {
                reveal_strlit("G");
            }
            "G"
        },
        AccountType::AnonGameServer => {
            proof {
                reveal_strlit("A");
            }
            "A"
        },
        AccountType::Pending => {
            proof {
                reveal_strlit("P");
            }
            "P"
        },
        AccountType::ContentServer => {
            proof {
                reveal_strlit("C");
            }
            "C"
        },
        AccountType::Clan => {
            proof {
                reveal_strlit("g");
            }
            "g"
        },
        AccountType::Chat => {
            proof {
                reveal_strlit("T");
            }
            "T"
        },
        AccountType::P2P => {
            proof {
                reveal_strlit("2");
            }
            "2"
        },
        AccountType::AnonUser => {
            proof {
                reveal_strlit("a");
            }
            "a"
        },
    }
}

impl From<u64> for CSteamID {
    /// Takes a raw 64-bit value as it stands.
    fn from(id: u64) -> (r: Self)
        ensures
            r@ == id,
    {
        CSteamID(id)
    }
}

impl vstd::std_specs::convert::FromSpecImpl<u64> for CSteamID {
    open spec fn obeys_from_spec() -> bool {
        true
    }

    closed spec fn from_spec(v: u64) -> Self {
        CSteamID(v)
    }
}

impl From<CSteamID> for u64 {
    /// The raw 64-bit value.
    fn from(id: CSteamID) -> (r: u64)
        ensures
            r == id@,
    {
        id.0
    }
}

impl vstd::std_specs::convert::FromSpecImpl<CSteamID> for u64 {
    open spec fn obeys_from_spec() -> bool {
        true
    }

    open spec fn from_spec(v: CSteamID) -> u64 {
        v@
    }
}

impl<'a> From<&'a CSteamID> for u64 {
    /// The raw 64-bit value.
    fn from(id: &'a CSteamID) -> (r: u64)
        ensures
            r == id@,
    {
        id.0
    }
}

impl<'a> vstd::std_specs::convert::FromSpecImpl<&'a CSteamID> for u64 {
    open spec fn obeys_from_spec() -> bool {
        true
    }

    open spec fn from_spec(v: &'a CSteamID) -> u64 {
        v@
    }
}

/// Every number that `Universe::spec_code` gives stands for the universe
/// it came from.
pub proof fn lemma_universe_code_round_trip(universe: Universe)
    ensures
        Universe::spec_from_code(universe.spec_code() as int) == Some(universe),
{
}

/// Every number that `AccountType::spec_code` gives stands for the account
/// type it came from.
pub proof fn lemma_account_type_code_round_trip(account_type: AccountType)
    ensures
        AccountType::spec_from_code(account_type.spec_code() as int) == Some(account_type),
{
}

/// An identifier built by `CSteamID::new` gives back its universe, its
/// account type, the low 20 bits of its instance and its account number,
/// and is valid.
pub proof fn lemma_new_then_fields(
    universe: Universe,
    account_type: AccountType,
    instance: u32,
    account_id: u32,
    id: CSteamID,
)
    requires
        id@ as int == packed_id(
            universe.spec_code() as int,
            account_type.spec_code() as int,
            instance as int,
            account_id as int,
        ),
    ensures
        id.spec_universe() == Some(universe),
        id.spec_account_type() == Some(account_type),
        instance_field(id@) == instance as int % instance_span(),
        account_id_field(id@) == account_id as int,
        id.spec_is_valid(),
{
    let x: u64 = id@;
    let u: u64 = universe.spec_code() as u64;
    let t: u64 = account_type.spec_code() as u64;
    let i: u64 = (instance as int % instance_span()) as u64;
    let a: u64 = account_id as u64;
    assert(x / 0x100000000000000 == u && (x / 0x10000000000000) % 16 == t && (x / 0x100000000)
        % 0x100000 == i && x % 0x100000000 == a) by (bit_vector)
        requires
            u < 256,
            t < 16,
            i < 0x100000,
            a < 0x100000000,
            x == u * 0x100000000000000 + t * 0x10000000000000 + i * 0x100000000 + a,
    ;
    lemma_universe_code_round_trip(universe);
    lemma_account_type_code_round_trip(account_type);
}

/// The bracketed text of an identifier built by `CSteamID::new` names its
/// account type letter, its universe number and its account number.
pub proof fn lemma_bracketed_text_of_new(
    universe: Universe,
    account_type: AccountType,
    instance: u32,
    account_id: u32,
    id: CSteamID,
)
    requires
        id@ as int == packed_id(
            universe.spec_code() as int,
            account_type.spec_code() as int,
            instance as int,
            account_id as int,
        ),
    ensures
        steam_id_text(id, Some(3usize)) == seq!['['].push(account_type.spec_letter()).push(':')
            + decimal_text(universe.spec_code() as nat).push(':') + decimal_text(
            account_id as nat,
        ).push(']'),
{
    lemma_new_then_fields(universe, account_type, instance, account_id, id);
}

/// The `STEAM_` text of an identifier built by `CSteamID::new` names its
/// universe number, the lowest bit of its account number (`account_id & 1`)
/// and its account number shifted left by one within 32 bits
/// (`account_id << 1`).
pub proof fn lemma_steam2_text_of_new(
    universe: Universe,
    account_type: AccountType,
    instance: u32,
    account_id: u32,
    id: CSteamID,
)
    requires
        id@ as int == packed_id(
            universe.spec_code() as int,
            account_type.spec_code() as int,
            instance as int,
            account_id as int,
        ),
    ensures
        steam_id_text(id, Some(2usize)) == "STEAM_"@ + decimal_text(universe.spec_code() as nat).push(
            ':',
        ) + decimal_text((account_id & 1u32) as nat).push(':') + decimal_text(
            (account_id << 1u32) as nat,
        ),
{
    lemma_new_then_fields(universe, account_type, instance, account_id, id);
    assert((account_id & 1u32) == account_id % 2) by (bit_vector);
    assert((account_id << 1u32) as int == (account_id as int * 2) % 0x100000000) by (bit_vector);
}

/// For any width but 2 and 3, the text of an identifier built by
/// `CSteamID::new` is the decimal value of
/// `universe << 56 | account_type << 52 | (instance & 0xFFFFF) << 32 | account_id`.
pub proof fn lemma_plain_text_of_new(
    universe: Universe,
    account_type: AccountType,
    instance: u32,
    account_id: u32,
    id: CSteamID,
    width: Option<usize>,
)
    requires
        id@ as int == packed_id(
            universe.spec_code() as int,
            account_type.spec_code() as int,
            instance as int,
            account_id as int,
        ),
        width != Some(2usize),
        width != Some(3usize),
    ensures
        steam_id_text(id, width) == decimal_text(
            (((universe.spec_code() as u64) << 56u64) | ((account_type.spec_code() as u64) << 52u64)
                | (((instance & 0xFFFFFu32) as u64) << 32u64) | (account_id as u64)) as nat,
        ),
{
    lemma_new_then_fields(universe, account_type, instance, account_id, id);
    lemma_low_bits_as_remainder(instance);
    lemma_pack_as_sum(
        universe.spec_code(),
        account_type.spec_code(),
        instance & 0xFFFFFu32,
        account_id,
    );
}

/// For any width but 2 and 3, the text of a valid identifier is the
/// decimal value of its raw 64-bit value, as `From` gives it.
pub proof fn lemma_plain_text_is_raw(raw: u64, id: CSteamID, width: Option<usize>)
    requires
        id@ == raw,
        id.spec_is_valid(),
        width != Some(2usize),
        width != Some(3usize),
    ensures
        steam_id_text(id, width) == decimal_text(raw as nat),
        decimal_value(steam_id_text(id, width)) == raw,
{
    lemma_decimal_text_denotes(raw as nat);
}

/// Universes are numbered 0 to 5 and account types 0 to 10: an identifier
/// is valid exactly when its universe field is at most 5 and its account
/// type field at most 10.
pub proof fn lemma_valid_iff_known_codes(id: CSteamID)
    ensures
        id.spec_universe() is Some <==> universe_field(id@) <= 5,
        id.spec_account_type() is Some <==> account_type_field(id@) <= 10,
        id.spec_is_valid() <==> (universe_field(id@) <= 5 && account_type_field(id@) <= 10),
{
    assert(universe_field(id@) >= 0);
    assert(account_type_field(id@) >= 0);
}

/// An identifier whose universe or account type is unknown reads
/// `INVALID_STEAM_ID` whatever the width.
pub proof fn lemma_invalid_text(id: CSteamID, width: Option<usize>)
    requires
        id.spec_universe() is None || id.spec_account_type() is None,
    ensures
        steam_id_text(id, width) == "INVALID_STEAM_ID"@,
{
}

/// The four fields of any identifier pack back into it: building an
/// identifier from the fields of a valid one gives the same value.
pub proof fn lemma_fields_repack(id: CSteamID)
    requires
        id.spec_is_valid(),
    ensures
        packed_id(
            id.spec_universe().unwrap().spec_code() as int,
            id.spec_account_type().unwrap().spec_code() as int,
            instance_field(id@),
            account_id_field(id@),
        ) == id@ as int,
{
    let x: u64 = id@;
    assert(x == (x / 0x100000000000000) * 0x100000000000000 + ((x / 0x10000000000000) % 16)
        * 0x10000000000000 + ((x / 0x100000000) % 0x100000) * 0x100000000 + x % 0x100000000)
        by (bit_vector);
    assert(((x / 0x100000000) % 0x100000) % 0x100000 == (x / 0x100000000) % 0x100000)
        by (bit_vector);
}

/// The shifted fields of a packed identifier do not overlap, so or-ing them
/// is adding them.
proof fn lemma_pack_as_sum(universe: u8, account_type: u8, instance: u32, account_id: u32)
    requires
        account_type < 16,
        instance < 0x100000,
    ensures
        (((universe as u64) << 56) | ((account_type as u64) << 52) | ((instance as u64) << 32) | (
        account_id as u64)) as int == universe as int * 0x100000000000000 + account_type as int
            * 0x10000000000000 + instance as int * 0x100000000 + account_id as int,
{
    let u: u64 = universe as u64;
    let t: u64 = account_type as u64;
    let i: u64 = instance as u64;
    let a: u64 = account_id as u64;
    assert(((u << 56) | (t << 52) | (i << 32) | a) == u * 0x100000000000000 + t * 0x10000000000000
        + i * 0x100000000 + a) by (bit_vector)
        requires
            u < 256,
            t < 16,
            i < 0x100000,
            a < 0x100000000,
    ;
}

/// Masking with 2^20 - 1 keeps the remainder modulo 2^20.
proof fn lemma_low_bits_as_remainder(instance: u32)
    ensures
        (instance & 0xFFFFF) as int == instance as int % 0x100000,
{
    assert((instance & 0xFFFFF) == instance % 0x100000) by (bit_vector);
}

} // verus!
