//! Sandbox identifiers and the user context of executed commands.
use vstd::prelude::*;

use crate::error::SandboxError;
use crate::wide::{encode_utf16, utf16_encode};

verus! {

/// The sandbox ID, if any, that `uuid` parses from the text `s` (in any of
/// the forms that `uuid::Uuid::from_str` accepts), as its 128-bit value.
pub uninterp spec fn uuid_parse(s: Seq<char>) -> Option<u128>;

/// The lower-case hexadecimal digit of `n`, for `n < 16`.
pub open spec fn hex_digit(n: u128) -> char {
    if n < 10 {
        (0x30 + n) as char
    } else {
        (0x61 + n - 10) as char
    }
}

/// The `k`-th hexadecimal digit of `v`, counting from the most significant.
pub open spec fn uuid_nibble(v: u128, k: int) -> u128 {
    (v >> ((4 * (31 - k)) as u128)) & 15u128
}

/// How many hyphens come before position `i` of the hyphenated form.
pub open spec fn hyphens_before(i: int) -> int {
    if i < 8 {
        0
    } else if i < 13 {
        1
    } else if i < 18 {
        2
    } else if i < 23 {
        3
    } else {
        4
    }
}

/// The hyphenated lower-case form of a UUID, such as
/// `12345678-1234-1234-1234-1234567890ab`: 32 hexadecimal digits, most
/// significant first, grouped 8-4-4-4-12.
pub open spec fn uuid_display(v: u128) -> Seq<char> {
    Seq::new(
        36,
        |i: int|
            if i == 8 || i == 13 || i == 18 || i == 23 {
                '-'
            } else {
                hex_digit(uuid_nibble(v, i - hyphens_before(i)))
            },
    )
}

/// Calls `<uuid::Uuid as FromStr>::from_str` and returns the parsed value as
/// a `u128`. Claims that the outcome is a function of the text: the parsed
/// value where `uuid` accepts the text, and an error where it does not.
#[verifier::external_body]
fn parse_uuid(s: &str) -> (res: Result<u128, uuid::Error>)
    ensures
        match res {
            Ok(v) => uuid_parse(s@) == Some(v),
            Err(_) => uuid_parse(s@) is None,
        },
{
    match <uuid::Uuid as core::str::FromStr>::from_str(s) {
        Ok(u) => Ok(u.as_u128()),
        Err(e) => Err(e),
    }
}

/// Calls `Display` on `uuid::Uuid::from_u128(v)`. Claims what the `uuid`
/// source shows: the hyphenated lower-case form of the value, and that
/// `from_str` parses that form back to the same value.
#[verifier::external_body]
fn uuid_to_string(v: u128) -> (res: String)
    ensures
        res@ == uuid_display(v),
        uuid_parse(res@) == Some(v),
{
    uuid::Uuid::from_u128(v).to_string()
}

/// The identifier of a Windows Sandbox environment: the GUID used by the
/// `wsb` CLI, held as its 128-bit value.
#[derive(Debug, Clone, Copy, PartialEq, Eq, Hash, Structural)]
pub struct SandboxId {
    value: u128,
}

impl View for SandboxId {
    type V = u128;

    closed spec fn view(&self) -> u128 {
        self.value
    }
}

/// The sandbox ID whose UUID value is `v`.
pub closed spec fn sandbox_id(v: u128) -> SandboxId {
    SandboxId { value: v }
}

/// The value of an optional sandbox ID.
pub open spec fn opt_id(o: Option<SandboxId>) -> Option<u128> {
    match o {
        Some(i) => Some(i@),
        None => None,
    }
}

impl SandboxId {
    /// The sandbox ID with the UUID value `uuid`.
    #[verifier::allow_in_spec]
    pub fn new(uuid: u128) -> (res: SandboxId)
        returns
            sandbox_id(uuid),
    {
        SandboxId { value: uuid }
    }

    /// The UUID value of this ID.
    #[verifier::allow_in_spec]
    pub fn uuid(&self) -> (res: u128)
        returns
            self@,
    {
        self.value
    }

    /// Parses a sandbox ID from the text of a UUID.
    pub fn parse_str(s: &str) -> (res: Result<SandboxId, SandboxError>)
        ensures
            match res {
                Ok(id) => uuid_parse(s@) == Some(id@),
                Err(e) => uuid_parse(s@) is None && e is ParseSandboxId,
            },
    {
        match parse_uuid(s) {
            Ok(v) => Ok(SandboxId { value: v }),
            Err(e) => Err(SandboxError::ParseSandboxId(e)),
        }
    }

    /// The hyphenated lower-case text of this ID, as the `wsb` CLI writes it.
    pub fn to_string(&self) -> (res: String)
        ensures
            res@ == uuid_display(self@),
            uuid_parse(res@) == Some(self@),
    {
        uuid_to_string(self.value)
    }

    /// The text of this ID as UTF-16 code units.
    pub fn to_wide(&self) -> (res: Vec<u16>)
        ensures
            res@ == utf16_encode(uuid_display(self@)),
    {
        let s = self.to_string();
        encode_utf16(s.as_str())
    }
}

/// The ID made from a UUID value gives that value back, and two IDs with
/// the same value are the same ID.
pub proof fn law_new_uuid(v: u128, id: SandboxId)
    ensures
        SandboxId::new(v).uuid() == v,
        SandboxId::new(v)@ == v,
        SandboxId::new(id.uuid()) == id,
{
}

impl core::str::FromStr for SandboxId {
    type Err = SandboxError;

    fn from_str(s: &str) -> (res: Result<Self, Self::Err>)
        ensures
            match res {
                Ok(id) => uuid_parse(s@) == Some(id@),
                Err(e) => uuid_parse(s@) is None && e is ParseSandboxId,
            },
    {
        SandboxId::parse_str(s)
    }
}

/// The user context in which a command is executed in a sandbox.
#[derive(Debug, Clone, Copy, PartialEq, Eq, Hash, Structural)]
pub enum RunAs {
    /// Runs the command in the currently active user session.
    ExistingLogin,
    /// Runs the command in the system context.
    System,
}

} // verus!
