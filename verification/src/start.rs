//! How a chat begins.

use crate::invitation::{decode_token, preshared_key, DecodeError};
use crate::text::parse_u16;
use vstd::prelude::*;
use vstd::string::StringExecFns;

verus! {

use crate::invitation::{base64_decoded, bytes_of, key_for, random_psk, text_of};
use crate::text::{digits_of, law_decimal_reads_back, law_large_numbers_are_refused, number_up_to};
use vstd::utf8::encode_utf8;

/// What the command line asks for.
#[derive(Debug, Clone, PartialEq, Eq)]
pub enum Request {
    /// Wait at a rendezvous server for a peer with an invitation.
    Wait { server_address: String, server_port: String, preshared_key: Option<String> },
    /// Join the peer that handed on this invitation.
    Join { invitation_token: String },
    /// Talk to a peer in the local network.
    Lan { bind_address: String, local_port: Option<String>, preshared_key: Option<String> },
    /// A subcommand of this name.
    Other(String),
}

/// What is to be done about a [`Request`].
#[derive(Debug, Clone, PartialEq, Eq)]
pub enum Launch {
    /// Wait at this server, under this key.
    Wait { server_address: String, server_port: u16, psk: Vec<u8> },
    /// Join by this invitation, in its serialised form.
    Join { token: Vec<u8> },
    /// Listen here, under this key.
    Lan { bind_address: String, local_port: u16, psk: Vec<u8> },
}

/// Why a chat cannot begin.
#[derive(Debug, Clone, PartialEq, Eq)]
pub enum StartError {
    /// The port of the server is no 16-bit number.
    ServerPort,
    /// The invitation is no Base64.
    Token(DecodeError),
    /// There is no subcommand of this name.
    UnknownSubcommand(String),
}

/// Whether `r` is what has to be done about a request to wait under the key
/// `key`.
pub open spec fn waits(
    server_address: Seq<char>,
    server_port: Seq<char>,
    key: Seq<u8>,
    r: Result<Launch, StartError>,
) -> bool {
    match number_up_to(server_port, u16::MAX as nat) {
        Some(number) => {
            &&& r matches Ok(Launch::Wait { server_address: address, server_port: port, psk })
            &&& address@ == server_address
            &&& port == number
            &&& psk@ == key
        },
        None => r matches Err(StartError::ServerPort),
    }
}

/// Whether `r` is what has to be done about an invitation that decodes to
/// `decoded`.
pub open spec fn joins(
    decoded: Result<Seq<u8>, DecodeError>,
    r: Result<Launch, StartError>,
) -> bool {
    match decoded {
        Ok(bytes) => r matches Ok(Launch::Join { token }) && token@ == bytes,
        Err(error) => r matches Err(StartError::Token(e)) && e == error,
    }
}

/// Whether `r` is what has to be done about a request to listen in the local
/// network under the key `key`.
pub open spec fn listens(
    bind_address: Seq<char>,
    given_port: Option<Seq<char>>,
    key: Seq<u8>,
    r: Result<Launch, StartError>,
) -> bool {
    &&& r matches Ok(Launch::Lan { bind_address: address, local_port: port, psk })
    &&& address@ == bind_address
    &&& port == port_or_any(given_port)
    &&& psk@ == key
}

/// The port that `given` spells, or 0 if it spells none.
pub open spec fn port_or_any(given: Option<Seq<char>>) -> nat {
    match given {
        Some(text) => match number_up_to(text, u16::MAX as nat) {
            Some(number) => number,
            None => 0,
        },
        None => 0,
    }
}

/// Reads the port to listen on. A port that was not given, or is none, leaves
/// the choice to the system.
pub fn local_port(given: &Option<String>) -> (r: u16)
    ensures
        r == port_or_any(text_of(*given)),
        given is None ==> r == 0,
        given matches Some(text) ==> match number_up_to(text@, 65535) {
            Some(port) => r == port,
            None => r == 0,
        },
{
    match given {
        Some(text) => match parse_u16(text.as_str()) {
            Some(port) => port,
            None => 0,
        },
        None => 0,
    }
}

/// Decides about an invitation that decodes to `decoded`.
pub fn join(decoded: Result<Vec<u8>, DecodeError>) -> (r: Result<Launch, StartError>)
    ensures
        joins(bytes_of(decoded), r),
        match decoded {
            Ok(bytes) => r matches Ok(Launch::Join { token }) && token@ == bytes@,
            Err(error) => r matches Err(StartError::Token(e)) && e == error,
        },
{
    match decoded {
        Ok(token) => Ok(Launch::Join { token }),
        Err(error) => Err(StartError::Token(error)),
    }
}

/// Decides about a request to wait under the key `psk`.
pub fn wait(server_address: String, server_port: &str, psk: Vec<u8>) -> (r: Result<
    Launch,
    StartError,
>)
    ensures
        waits(server_address@, server_port@, psk@, r),
        match number_up_to(server_port@, 65535) {
            Some(number) => {
                &&& r matches Ok(
                    Launch::Wait { server_address: address, server_port: port, psk: key },
                )
                &&& address@ == server_address@
                &&& port == number
                &&& key@ == psk@
            },
            None => r matches Err(StartError::ServerPort),
        },
{
    match parse_u16(server_port) {
        Some(port) => Ok(Launch::Wait { server_address, server_port: port, psk }),
        None => Err(StartError::ServerPort),
    }
}

/// Decides about a request to listen in the local network under the key `psk`.
pub fn lan(bind_address: String, given_port: &Option<String>, psk: Vec<u8>) -> (r: Result<
    Launch,
    StartError,
>)
    ensures
        listens(bind_address@, text_of(*given_port), psk@, r),
        r matches Ok(Launch::Lan { bind_address: address, local_port: port, psk: key }) && address@
            == bind_address@ && key@ == psk@ && match given_port {
            Some(text) => match number_up_to(text@, 65535) {
                Some(number) => port == number,
                None => port == 0,
            },
            None => port == 0,
        },
{
    Ok(Launch::Lan { bind_address, local_port: local_port(given_port), psk })
}

/// Decides about what the command line asks for. Which random key is taken where
/// none was given is up to chance.
pub fn launch(request: Request) -> (r: Result<Launch, StartError>)
    ensures
        match request {
            Request::Wait { server_address, server_port, preshared_key: given } => exists|
                key: Seq<u8>,
            |
                key_for(text_of(given), key) && #[trigger] waits(
                    server_address@,
                    server_port@,
                    key,
                    r,
                ),
            Request::Join { invitation_token } => joins(base64_decoded(invitation_token@), r),
            Request::Lan { bind_address, local_port: given_port, preshared_key: given } => exists|
                key: Seq<u8>,
            |
                key_for(text_of(given), key) && #[trigger] listens(
                    bind_address@,
                    text_of(given_port),
                    key,
                    r,
                ),
            Request::Other(name) => r matches Err(StartError::UnknownSubcommand(cmd)) && cmd@
                == name@,
        },
        match request {
            Request::Wait { server_address, server_port, preshared_key: given } => {
                match number_up_to(server_port@, 65535) {
                    Some(number) => {
                        &&& r matches Ok(
                            Launch::Wait { server_address: address, server_port: port, psk },
                        )
                        &&& address@ == server_address@
                        &&& port == number
                        &&& given matches Some(text) ==> psk@ == encode_utf8(text@)
                        &&& given is None ==> psk@.len() == 8 && exists|key: Vec<u8>|
                            key@ == psk@ && #[trigger] call_ensures(random_psk, (8usize,), key)
                    },
                    None => r matches Err(StartError::ServerPort),
                }
            },
            Request::Join { invitation_token } => match base64_decoded(invitation_token@) {
                Ok(bytes) => r matches Ok(Launch::Join { token }) && token@ == bytes,
                Err(error) => r matches Err(StartError::Token(e)) && e == error,
            },
            Request::Lan { bind_address, local_port: given_port, preshared_key: given } => {
                &&& r matches Ok(Launch::Lan { bind_address: address, local_port: port, psk })
                &&& address@ == bind_address@
                &&& given matches Some(text) ==> psk@ == encode_utf8(text@)
                &&& given is None ==> psk@.len() == 8 && exists|key: Vec<u8>|
                    key@ == psk@ && #[trigger] call_ensures(random_psk, (8usize,), key)
                &&& given_port is None ==> port == 0
                &&& given_port matches Some(text) ==> match number_up_to(text@, 65535) {
                    Some(number) => port == number,
                    None => port == 0,
                }
            },
            Request::Other(name) => r matches Err(StartError::UnknownSubcommand(cmd)) && cmd@
                == name@,
        },
{
    match request {
        Request::Wait { server_address, server_port, preshared_key: given } => {
            wait(server_address, server_port.as_str(), preshared_key(&given))
        },
        Request::Join { invitation_token } => join(decode_token(invitation_token.as_str())),
        Request::Lan { bind_address, local_port: given_port, preshared_key: given } => {
            lan(bind_address, &given_port, preshared_key(&given))
        },
        Request::Other(name) => Err(StartError::UnknownSubcommand(name)),
    }
}

/// The text of the error about an unknown subcommand, whose name between
/// quotation marks is `quoted`.
pub fn unknown_subcommand_text(quoted: &str) -> (r: String)
    ensures
        r@ == "unknown subcommand "@ + quoted@,
{
    let mut text: String = "unknown subcommand ".to_owned();
    text.append(quoted);
    text
}

/// The text of the error about the subcommand `name`, which is no subcommand:
/// `quoted` is the name between quotation marks. Where there is no subcommand at
/// all, the name is empty and nothing stands between the marks.
pub fn subcommand_error_text(name: &str, quoted: &str) -> (r: String)
    ensures
        name@.len() == 0 ==> r@ == "unknown subcommand \"\""@,
        name@.len() > 0 ==> r@ == "unknown subcommand "@ + quoted@,
{
    if name.is_empty() {
        proof {
            reveal_strlit("unknown subcommand ");
            reveal_strlit("\"\"");
            reveal_strlit("unknown subcommand \"\"");
            assert("unknown subcommand "@ + "\"\""@ =~= "unknown subcommand \"\""@);
        }
        unknown_subcommand_text("\"\"")
    } else {
        unknown_subcommand_text(quoted)
    }
}

/// Every port there is can be waited at: a request that writes down `n` leads to
/// a wait at exactly that address and port, under exactly that key.
pub proof fn law_every_port_can_be_waited_at(
    server_address: Seq<char>,
    n: nat,
    key: Seq<u8>,
    r: Result<Launch, StartError>,
)
    requires
        n <= 65535,
    ensures
        forall|spelling: Seq<char>|
            spelling == digits_of(n) || spelling == seq!['+'] + digits_of(n)
                ==> #[trigger] waits(server_address, spelling, key, r) == {
                &&& r matches Ok(Launch::Wait { server_address: address, server_port: port, psk })
                &&& address@ == server_address
                &&& port == n
                &&& psk@ == key
            },
{
    law_decimal_reads_back(n, 65535);
}

/// A request to wait at a port that is no port is refused: a number above 65535,
/// or a text that is no number.
pub proof fn law_other_ports_are_refused(
    server_address: Seq<char>,
    n: nat,
    text: Seq<char>,
    key: Seq<u8>,
    r: Result<Launch, StartError>,
)
    ensures
        n > 65535 && waits(server_address, digits_of(n), key, r) ==> (r matches Err(
            StartError::ServerPort,
        )),
        number_up_to(text, 65535) is None && waits(server_address, text, key, r) ==> (r matches Err(
            StartError::ServerPort,
        )),
{
    if n > 65535 {
        law_large_numbers_are_refused(n, 65535);
    }
}

/// A chat in the local network listens at the port that was written down, or at
/// port 0 where none was or it is none, and always begins.
pub proof fn law_every_port_can_be_listened_at(
    bind_address: Seq<char>,
    n: nat,
    text: Seq<char>,
    key: Seq<u8>,
    r: Result<Launch, StartError>,
)
    ensures
        n <= 65535 ==> port_or_any(Some(digits_of(n))) == n,
        n > 65535 ==> port_or_any(Some(digits_of(n))) == 0,
        number_up_to(text, 65535) is None ==> port_or_any(Some(text)) == 0,
        port_or_any(None) == 0,
        n <= 65535 ==> listens(bind_address, Some(digits_of(n)), key, r) == {
            &&& r matches Ok(Launch::Lan { bind_address: address, local_port: port, psk })
            &&& address@ == bind_address
            &&& port == n
            &&& psk@ == key
        },
        listens(bind_address, None, key, r) == {
            &&& r matches Ok(Launch::Lan { bind_address: address, local_port: port, psk })
            &&& address@ == bind_address
            &&& port == 0
            &&& psk@ == key
        },
{
    if n <= 65535 {
        law_decimal_reads_back(n, 65535);
    } else {
        law_large_numbers_are_refused(n, 65535);
    }
}

/// An invitation is joined by exactly the bytes that it decodes to, and one that
/// does not decode is refused for the reason that decoding gave.
pub proof fn law_invitations_are_joined_as_decoded(
    bytes: Seq<u8>,
    error: DecodeError,
    r: Result<Launch, StartError>,
)
    ensures
        joins(Ok(bytes), r) <==> (r matches Ok(Launch::Join { token }) && token@ == bytes),
        joins(Err(error), r) <==> (r matches Err(StartError::Token(e)) && e == error),
{
}

}
