//! The client of the recognition service: where it connects to, what it
//! declares when it connects, and the handshake it begins with.

use vstd::prelude::*;
use crate::constants::{AID, USER_AGENT, WEBSOCKET_HOST, WEBSOCKET_URL};
use crate::device::{pairs_view, random_uuid, DeviceCredentials};
use crate::session::{Handshake, HandshakeView, SessionState};
use crate::text::{decimal, push_decimal};

verus! {

/// A client that streams audio to the service for one device.
#[derive(Debug)]
pub struct AsrClient {
    credentials: DeviceCredentials,
}

/// The headers of the request that opens the connection: the declared
/// identity of the client, the version of the protocol, the wish to be kept
/// alive, and the handshake key of this attempt.
pub open spec fn upgrade_header_values(key: Seq<char>) -> Seq<(Seq<char>, Seq<char>)> {
    seq![
        ("User-Agent"@, USER_AGENT@),
        ("proto-version"@, "v2"@),
        ("x-custom-keepalive"@, "true"@),
        ("Host"@, WEBSOCKET_HOST@),
        ("Connection"@, "Upgrade"@),
        ("Upgrade"@, "websocket"@),
        ("Sec-WebSocket-Version"@, "13"@),
        ("Sec-WebSocket-Key"@, key),
    ]
}

/// The address of the service for the device `device_id`.
pub open spec fn service_url(device_id: Seq<char>) -> Seq<char> {
    WEBSOCKET_URL@ + "?aid="@ + decimal(AID as nat) + "&device_id="@ + device_id
}

/// One header, name and value.
fn header(name: &str, value: &str) -> (pair: (String, String))
    ensures
        pair.0@ == name@,
        pair.1@ == value@,
{
    (name.to_owned(), value.to_owned())
}

impl AsrClient {
    /// The credentials that the client works with.
    pub closed spec fn credentials(&self) -> DeviceCredentials {
        self.credentials
    }

    /// A client for the device that `credentials` name.
    pub fn new(credentials: DeviceCredentials) -> (client: AsrClient)
        ensures
            client.credentials() == credentials,
    {
        AsrClient { credentials }
    }

    /// The address to connect to.
    pub fn ws_url(&self) -> (url: String)
        ensures
            url@ == service_url(self.credentials().device_id@),
    {
        let mut url = WEBSOCKET_URL.to_owned();
        url.append("?aid=");
        push_decimal(&mut url, AID as u64);
        url.append("&device_id=");
        url.append(self.credentials.device_id.as_str());
        url
    }

    /// The headers of the request that opens the connection. `key` is the
    /// handshake key, which is made anew for each attempt.
    pub fn upgrade_headers(key: &str) -> (headers: Vec<(String, String)>)
        ensures
            pairs_view(headers@) == upgrade_header_values(key@),
    {
        let mut headers: Vec<(String, String)> = Vec::new();
        headers.push(header("User-Agent", USER_AGENT));
        headers.push(header("proto-version", "v2"));
        headers.push(header("x-custom-keepalive", "true"));
        headers.push(header("Host", WEBSOCKET_HOST));
        headers.push(header("Connection", "Upgrade"));
        headers.push(header("Upgrade", "websocket"));
        headers.push(header("Sec-WebSocket-Version", "13"));
        headers.push(header("Sec-WebSocket-Key", key));
        assert(pairs_view(headers@) =~= upgrade_header_values(key@));
        headers
    }

    /// The handshake of a session with the request id `request_id`.
    pub fn begin_with(&self, request_id: String) -> (handshake: Handshake)
        ensures
            handshake@ == (HandshakeView {
                state: SessionState::Disconnected,
                request_id: request_id@,
                token: self.credentials().token@,
                device_id: self.credentials().device_id@,
            }),
    {
        Handshake::new(
            request_id,
            self.credentials.token.as_str().to_owned(),
            self.credentials.device_id.as_str().to_owned(),
        )
    }

    /// The handshake of a new session. Its request id is drawn at random
    /// and stays the same for the whole session.
    pub fn begin(&self) -> (handshake: Handshake)
        ensures
            handshake@.state == SessionState::Disconnected,
            handshake@.token == self.credentials().token@,
            handshake@.device_id == self.credentials().device_id@,
    {
        self.begin_with(random_uuid())
    }
}

} // verus!
