//! The request types of the service's HTTP API and their
//! query-string serialization.  Sending a request is I/O and stays
//! outside this crate; these types build the exact bodies the
//! service expects.

use vstd::prelude::*;

use crate::text::{dec_str, u64_to_string};

pub mod account;
pub mod comment;
pub mod user;

verus! {

/// A game version as the API spells it: major and minor digit,
/// serialized as one two-digit number.
#[derive(Debug, Clone, Copy, PartialEq, Eq, Structural, Hash)]
pub struct GameVersion {
    /// The major version digit.
    pub major: u8,
    /// The minor version digit.
    pub minor: u8,
}

/// The single number a game version serializes as.
pub open spec fn game_version_value(v: GameVersion) -> nat {
    (v.major * 10 + v.minor) as nat
}

impl GameVersion {
    /// Builds a version from its digits.
    pub fn new(major: u8, minor: u8) -> (r: GameVersion)
        ensures
            r == (GameVersion { major, minor }),
    {
        GameVersion { major, minor }
    }

    /// Writes the version's wire number.
    pub fn to_text(&self) -> (r: String)
        ensures
            r@ == dec_str(game_version_value(*self)),
    {
        u64_to_string((self.major as u64) * 10 + (self.minor as u64))
    }
}

/// The base fields every request carries: the game and binary
/// versions and the endpoint secret.
#[derive(Debug, Clone, PartialEq, Eq)]
pub struct BaseRequest {
    /// The game version field.
    pub game_version: GameVersion,
    /// The binary version field.
    pub binary_version: GameVersion,
    /// The endpoint secret.
    pub secret: String,
}

/// Whether `b` is the generation 2.1 base.
pub open spec fn base_is_gd21(b: BaseRequest) -> bool {
    &&& b.game_version == (GameVersion { major: 2, minor: 1 })
    &&& b.binary_version == (GameVersion { major: 3, minor: 3 })
    &&& b.secret@ == "Wmfd2893gb7"@
}

/// The query text of the base fields:
/// `gameVersion=..&binaryVersion=..&secret=..`.
pub open spec fn base_query_spec(b: BaseRequest) -> Seq<char> {
    "gameVersion="@ + dec_str(game_version_value(b.game_version)) + "&binaryVersion="@ + dec_str(
        game_version_value(b.binary_version),
    ) + "&secret="@ + b.secret@
}

impl BaseRequest {
    /// Builds a base request from its fields.
    pub fn new(game_version: GameVersion, binary_version: GameVersion, secret: String) -> (r:
        BaseRequest)
        ensures
            r == (BaseRequest { game_version, binary_version, secret }),
    {
        BaseRequest { game_version, binary_version, secret }
    }

    /// The base most endpoints of API generation 2.1 use.
    pub fn gd21() -> (r: BaseRequest)
        ensures
            r.game_version == (GameVersion { major: 2, minor: 1 }),
            r.binary_version == (GameVersion { major: 3, minor: 3 }),
            r.secret@ == "Wmfd2893gb7"@,
    {
        BaseRequest {
            game_version: GameVersion { major: 2, minor: 1 },
            binary_version: GameVersion { major: 3, minor: 3 },
            secret: String::from_str("Wmfd2893gb7"),
        }
    }

    /// The base that API generation 2.2 uses.
    pub fn gd22() -> (r: BaseRequest)
        ensures
            r.game_version == (GameVersion { major: 2, minor: 2 }),
            r.binary_version == (GameVersion { major: 3, minor: 8 }),
            r.secret@ == "Wmfd2893gb7"@,
    {
        BaseRequest {
            game_version: GameVersion { major: 2, minor: 2 },
            binary_version: GameVersion { major: 3, minor: 8 },
            secret: String::from_str("Wmfd2893gb7"),
        }
    }

    /// Appends the base fields' query text to `out`.
    pub fn write_query(&self, out: &mut String)
        ensures
            final(out)@ == old(out)@ + base_query_spec(*self),
    {
        out.append("gameVersion=");
        let gv = self.game_version.to_text();
        out.append(gv.as_str());
        out.append("&binaryVersion=");
        let bv = self.binary_version.to_text();
        out.append(bv.as_str());
        out.append("&secret=");
        out.append(self.secret.as_str());
    }
}

impl Default for BaseRequest {
    /// The default base, the newest API generation.
    fn default() -> (r: BaseRequest)
        ensures
            r.game_version == (GameVersion { major: 2, minor: 2 }),
            r.binary_version == (GameVersion { major: 3, minor: 8 }),
            r.secret@ == "Wmfd2893gb7"@,
    {
        BaseRequest::gd22()
    }
}

/// The base URL every endpoint path is appended to.
pub fn get_gdps_url() -> (r: String)
    ensures
        r@ == "http://www.boomlings.com/database/"@,
{
    String::from_str("http://www.boomlings.com/database/")
}

/// The credentials attached to authenticated requests: the derived
/// token, never the plaintext password.
#[derive(Debug, Clone, PartialEq, Eq)]
pub struct AuthenticatedUser {
    /// The account's user name.
    pub user_name: String,
    /// The account id the login response reported.
    pub account_id: u64,
    /// The authentication token derived from the password.
    pub password_hash: String,
}

/// The query text of the authenticated-user fields:
/// `userName=..&accountID=..&gjp=..`.
pub open spec fn auth_user_query_spec(u: AuthenticatedUser) -> Seq<char> {
    "userName="@ + u.user_name@ + "&accountID="@ + dec_str(u.account_id as nat) + "&gjp="@
        + u.password_hash@
}

impl AuthenticatedUser {
    /// Builds the credential record from its fields.
    pub fn new(user_name: String, account_id: u64, password_hash: String) -> (r:
        AuthenticatedUser)
        ensures
            r == (AuthenticatedUser { user_name, account_id, password_hash }),
    {
        AuthenticatedUser { user_name, account_id, password_hash }
    }

    /// Appends the credential fields' query text to `out`.
    pub fn write_query(&self, out: &mut String)
        ensures
            final(out)@ == old(out)@ + auth_user_query_spec(*self),
    {
        out.append("userName=");
        out.append(self.user_name.as_str());
        out.append("&accountID=");
        let id = u64_to_string(self.account_id);
        out.append(id.as_str());
        out.append("&gjp=");
        out.append(self.password_hash.as_str());
    }
}

} // verus!
