//! Request checks every OSB call goes through: the `X-Broker-API-Version`
//! header must name a version the broker accepts, and HTTP Basic credentials must match the
//! configured user and password.

use vstd::prelude::*;

use base64::Engine;
use vstd::utf8::{decode_utf8, valid_utf8};

use crate::config::Config;
use crate::error::{BrokerError, BrokerResult};
use crate::text::{parse_unsigned, parsed_unsigned, same_text, split_at_first, split_once, strip_prefix, trim, trimmed};

verus! {

/// The bytes that `text` encodes in standard base64 (RFC 4648 alphabet,
/// with canonical padding), if it is such an encoding.
pub uninterp spec fn base64_standard_decoding(text: Seq<char>) -> Option<Seq<u8>>;

/// `base64::engine::general_purpose::STANDARD.decode`. Its contract claims
/// only that the result is a function of the text.
#[verifier::external_body]
fn decode_base64(text: &str) -> (bytes: Option<Vec<u8>>)
    ensures
        match bytes {
            Some(b) => base64_standard_decoding(text@) == Some(b@),
            None => base64_standard_decoding(text@) is None,
        },
{
    base64::engine::general_purpose::STANDARD.decode(text).ok()
}

/// `String::from_utf8`: the text the bytes encode, when they are valid
/// UTF-8.
#[verifier::external_body]
fn utf8_text(bytes: Vec<u8>) -> (text: Option<String>)
    ensures
        text is Some <==> valid_utf8(bytes@),
        text matches Some(t) ==> t@ == decode_utf8(bytes@),
{
    String::from_utf8(bytes).ok()
}

/// The user and password that an `Authorization` header value carries:
/// "Basic ", then (white space trimmed) the base64 encoding of UTF-8 text
/// that holds a `:`, the user before its first `:`, the password after it.
pub open spec fn basic_credentials(header: Seq<char>) -> Option<(Seq<char>, Seq<char>)> {
    if "Basic "@.is_prefix_of(header) {
        match base64_standard_decoding(trimmed(header.skip(6))) {
            Some(bytes) => if valid_utf8(bytes) {
                split_at_first(decode_utf8(bytes), ':')
            } else {
                None
            },
            None => None,
        }
    } else {
        None
    }
}

/// Whether a request with the given `Authorization` header value (if any)
/// carries the configured credentials.
pub open spec fn authorized(config: Config, authorization: Option<Seq<char>>) -> bool {
    match authorization {
        Some(h) => basic_credentials(h) == Some((config.username@, config.password@)),
        None => false,
    }
}

/// The major and minor numbers of an OSB API version, written
/// `major.minor` (or `major` alone, minor `0`), each in decimal as
/// `str::parse` reads a `u64`.
pub open spec fn version_numbers(v: Seq<char>) -> Option<(nat, nat)> {
    match split_at_first(v, '.') {
        Some(parts) => match parsed_unsigned(parts.0, u64::MAX as nat) {
            Some(major) => match parsed_unsigned(parts.1, u64::MAX as nat) {
                Some(minor) => Some((major, minor)),
                None => None,
            },
            None => None,
        },
        None => match parsed_unsigned(v, u64::MAX as nat) {
            Some(major) => Some((major, 0)),
            None => None,
        },
    }
}

/// Whether the API version `v` is at least the version `min`: both are
/// versions, and `v` has a greater major number, or the same major number
/// and a minor number at least as great.
pub open spec fn version_at_least(v: Seq<char>, min: Seq<char>) -> bool {
    match version_numbers(v) {
        Some(a) => match version_numbers(min) {
            Some(b) => a.0 > b.0 || (a.0 == b.0 && a.1 >= b.1),
            None => false,
        },
        None => false,
    }
}

/// Whether a request with the given `X-Broker-API-Version` header value
/// (if any) asks for an API version the broker accepts: at least the
/// configured minimum.
pub open spec fn version_accepted(config: Config, version: Option<Seq<char>>) -> bool {
    match version {
        Some(v) => version_at_least(v, config.min_api_version@),
        None => false,
    }
}

/// The major and minor numbers of an OSB API version.
fn version_of(v: &str) -> (n: Option<(u64, u64)>)
    ensures
        match n {
            Some(p) => version_numbers(v@) == Some((p.0 as nat, p.1 as nat)),
            None => version_numbers(v@) is None,
        },
{
    match split_once(v, '.') {
        Some((major, minor)) => match parse_unsigned(major, u64::MAX) {
            Some(a) => match parse_unsigned(minor, u64::MAX) {
                Some(b) => Some((a, b)),
                None => None,
            },
            None => None,
        },
        None => match parse_unsigned(v, u64::MAX) {
            Some(a) => Some((a, 0)),
            None => None,
        },
    }
}

/// Accepts a request whose `X-Broker-API-Version` header value (the OSB
/// spec requires the header on every call) names a version at least the
/// configured minimum; rejects a request without the header, or with an
/// older or unreadable version (`412`). A minimum that is not a version
/// admits no request.
pub fn api_version_check(config: &Config, version: Option<&str>) -> (r: BrokerResult<()>)
    ensures
        r is Ok <==> version_accepted(*config, match version {
            Some(v) => Some(v@),
            None => None,
        }),
        r matches Err(e) ==> e is UnsupportedApiVersion,
{
    let asked = match version {
        Some(v) => v,
        None => return Err(BrokerError::UnsupportedApiVersion),
    };
    let have = match version_of(asked) {
        Some(n) => n,
        None => return Err(BrokerError::UnsupportedApiVersion),
    };
    let need = match version_of(config.min_api_version.as_str()) {
        Some(n) => n,
        None => return Err(BrokerError::UnsupportedApiVersion),
    };
    if have.0 > need.0 || (have.0 == need.0 && have.1 >= need.1) {
        Ok(())
    } else {
        Err(BrokerError::UnsupportedApiVersion)
    }
}

/// The user and password an `Authorization` header value carries.
pub fn credentials_of(header: &str) -> (creds: Option<(String, String)>)
    ensures
        match creds {
            Some((user, pass)) => basic_credentials(header@) == Some((user@, pass@)),
            None => basic_credentials(header@) is None,
        },
{
    proof {
        reveal_strlit("Basic ");
    }
    let token = match strip_prefix(header, "Basic ") {
        Some(t) => t,
        None => return None,
    };
    let bytes = match decode_base64(trim(token)) {
        Some(b) => b,
        None => return None,
    };
    let decoded = match utf8_text(bytes) {
        Some(t) => t,
        None => return None,
    };
    match split_once(decoded.as_str(), ':') {
        Some((user, pass)) => Some((String::from_str(user), String::from_str(pass))),
        None => None,
    }
}

/// Accepts a request whose `Authorization` header value carries the
/// configured user and password in HTTP Basic form; rejects any other.
pub fn basic_auth(config: &Config, authorization: Option<&str>) -> (r: BrokerResult<()>)
    ensures
        r is Ok <==> authorized(*config, match authorization {
            Some(h) => Some(h@),
            None => None,
        }),
        r matches Err(e) ==> e is Unauthorized,
{
    let header = match authorization {
        Some(h) => h,
        None => return Err(BrokerError::Unauthorized),
    };
    match credentials_of(header) {
        Some((user, pass)) => {
            if same_text(user.as_str(), config.username.as_str()) && same_text(
                pass.as_str(),
                config.password.as_str(),
            ) {
                Ok(())
            } else {
                Err(BrokerError::Unauthorized)
            }
        },
        None => Err(BrokerError::Unauthorized),
    }
}

} // verus!
