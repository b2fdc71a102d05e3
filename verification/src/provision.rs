//! What a provisioning service answers.

use vstd::prelude::*;

use crate::error::RunnerError;
use crate::json;
use crate::json::Json;

verus! {

/// The port of a host whose answer names none.
pub const DEFAULT_PORT: u64 = 22;

/// The host, port and user name to connect to, out of the three fields of an answer.
///
/// Without a host there is no target. A port that the answer leaves out is 22; one that is
/// too large for a port is cut to its low 16 bits. A user name that it leaves out is `root`.
pub open spec fn target_of(
    host: Option<Seq<char>>,
    port: Option<u64>,
    username: Option<Seq<char>>,
) -> Option<(Seq<char>, int, Seq<char>)> {
    match host {
        Some(host) => Some(
            (
                host,
                (match port {
                    Some(port) => port,
                    None => DEFAULT_PORT,
                }) as int % 0x1_0000,
                match username {
                    Some(username) => username,
                    None => "root"@,
                },
            ),
        ),
        None => None,
    }
}

/// The target that a JSON answer names.
pub open spec fn target_in(answer: Json) -> Option<(Seq<char>, int, Seq<char>)> {
    target_of(
        answer.member("host"@).text(),
        answer.member("port"@).unsigned(),
        answer.member("username"@).text(),
    )
}

/// Whether a target is the one with this host, port and user name.
pub open spec fn is_target(
    target: (String, u16, String),
    expected: (Seq<char>, int, Seq<char>),
) -> bool {
    &&& target.0@ == expected.0
    &&& target.1 as int == expected.1
    &&& target.2@ == expected.2
}

/// Whether this is what becomes of an answer whose target is `expected`: the target, or
/// the error that there is no host.
pub open spec fn is_outcome(
    outcome: Result<(String, u16, String), RunnerError>,
    expected: Option<(Seq<char>, int, Seq<char>)>,
) -> bool {
    match expected {
        Some(expected) => outcome matches Ok(target) && is_target(target, expected),
        None => outcome matches Err(RunnerError::MissingHost),
    }
}

/// Puts a target together from the three fields of an answer.
pub fn target_from_fields(host: Option<&str>, port: Option<u64>, username: Option<&str>) -> (target:
    Result<(String, u16, String), RunnerError>)
    ensures
        is_outcome(
            target,
            target_of(
                match host {
                    Some(host) => Some(host@),
                    None => None,
                },
                port,
                match username {
                    Some(username) => Some(username@),
                    None => None,
                },
            ),
        ),
        host is None <==> target is Err,
        host matches Some(host) ==> (target matches Ok(target) && target.0@ == host@),
        target matches Ok(target) ==> (port matches Some(port) ==> target.1 as int == port as int
            % 0x1_0000),
        target matches Ok(target) ==> (port is None ==> target.1 == 22),
        target matches Ok(target) ==> (username matches Some(username) ==> target.2@ == username@),
        target matches Ok(target) ==> (username is None ==> target.2@ == "root"@),
{
    let host = match host {
        Some(host) => host.to_owned(),
        None => return Err(RunnerError::MissingHost),
    };
    let port: u64 = match port {
        Some(port) => port,
        None => DEFAULT_PORT,
    };
    let username = match username {
        Some(username) => username.to_owned(),
        None => "root".to_owned(),
    };
    let low_bits: u16 = #[verifier::truncate]
    (port as u16);
    assert(low_bits == port % 0x1_0000) by (bit_vector)
        requires
            low_bits == port as u16,
    ;
    Ok((host, low_bits, username))
}

/// Reads the target out of a parsed answer.
pub fn target_from_value(answer: &serde_json::Value) -> (target: Result<
    (String, u16, String),
    RunnerError,
>)
    ensures
        is_outcome(target, target_in(json::contents(*answer))),
{
    let host = json::index(answer, "host").as_str();
    let port = json::index(answer, "port").as_u64();
    let username = json::index(answer, "username").as_str();
    target_from_fields(host, port, username)
}

/// Reads the target out of the body of an answer.
pub fn decode_answer(body: &[u8]) -> (target: Result<(String, u16, String), RunnerError>)
    ensures
        match json::parsed(body@) {
            Ok(answer) => is_outcome(target, target_in(answer)),
            Err(reason) => target matches Err(RunnerError::InvalidResponse(held)) && held@
                == reason,
        },
{
    match json::from_slice(body) {
        Ok(answer) => target_from_value(&answer),
        Err(reason) => Err(RunnerError::InvalidResponse(reason)),
    }
}

} // verus!
