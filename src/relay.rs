//! The WebSocket relay between a DevTools client and a browser's debugger
//! endpoint: frame translation between the two sides' dialects, and the
//! decisions each forwarding direction takes.

use vstd::prelude::*;

verus! {

/// Close status 1011: the server met a condition that kept it from serving.
pub const CLOSE_SERVER_ERROR: u16 = 1011;

/// A close frame's status code and reason.
#[derive(Debug)]
pub struct CloseInfo {
    pub code: u16,
    pub reason: String,
}

/// A whole message as the client-facing socket delivers it.
#[derive(Debug)]
pub enum ClientFrame {
    Text(String),
    Binary(Vec<u8>),
    Ping(Vec<u8>),
    Pong(Vec<u8>),
    Close(Option<CloseInfo>),
}

/// A whole message as the debugger socket delivers it; `Raw` is a lower-level
/// frame that this dialect can surface and the client dialect cannot carry.
#[derive(Debug)]
pub enum BrowserFrame {
    Text(String),
    Binary(Vec<u8>),
    Ping(Vec<u8>),
    Pong(Vec<u8>),
    Close(Option<CloseInfo>),
    Raw,
}

/// The meaning of a frame, shared by both dialects.
pub ghost enum FrameModel {
    Text(Seq<char>),
    Binary(Seq<u8>),
    Ping(Seq<u8>),
    Pong(Seq<u8>),
    Close(Option<(u16, Seq<char>)>),
    Raw,
}

pub open spec fn close_model(c: Option<CloseInfo>) -> Option<(u16, Seq<char>)> {
    match c {
        Some(i) => Some((i.code, i.reason@)),
        None => None,
    }
}

impl View for ClientFrame {
    type V = FrameModel;

    open spec fn view(&self) -> FrameModel {
        match self {
            ClientFrame::Text(t) => FrameModel::Text(t@),
            ClientFrame::Binary(b) => FrameModel::Binary(b@),
            ClientFrame::Ping(b) => FrameModel::Ping(b@),
            ClientFrame::Pong(b) => FrameModel::Pong(b@),
            ClientFrame::Close(c) => FrameModel::Close(close_model(*c)),
        }
    }
}

impl View for BrowserFrame {
    type V = FrameModel;

    open spec fn view(&self) -> FrameModel {
        match self {
            BrowserFrame::Text(t) => FrameModel::Text(t@),
            BrowserFrame::Binary(b) => FrameModel::Binary(b@),
            BrowserFrame::Ping(b) => FrameModel::Ping(b@),
            BrowserFrame::Pong(b) => FrameModel::Pong(b@),
            BrowserFrame::Close(c) => FrameModel::Close(close_model(*c)),
            BrowserFrame::Raw => FrameModel::Raw,
        }
    }
}

/// What a frame becomes on the client side: the same frame, except that a raw
/// frame has no counterpart there.
pub open spec fn client_side(m: FrameModel) -> Option<FrameModel> {
    match m {
        FrameModel::Raw => None,
        _ => Some(m),
    }
}

/// Why a frame was not translated.
#[derive(Debug, Clone, Copy, PartialEq, Eq, Structural)]
pub enum TranslateError {
    /// Raw frames are not relayed.
    RawFrame,
}

/// Client dialect to browser dialect: every frame keeps its kind and its bytes.
pub fn to_browser(f: ClientFrame) -> (r: BrowserFrame)
    ensures
        r@ == f@,
{
    match f {
        ClientFrame::Text(t) => BrowserFrame::Text(t),
        ClientFrame::Binary(b) => BrowserFrame::Binary(b),
        ClientFrame::Ping(b) => BrowserFrame::Ping(b),
        ClientFrame::Pong(b) => BrowserFrame::Pong(b),
        ClientFrame::Close(c) => BrowserFrame::Close(c),
    }
}

/// Browser dialect to client dialect: every frame but a raw one keeps its kind
/// and its bytes; a raw frame is refused.
pub fn to_client(f: BrowserFrame) -> (r: Result<ClientFrame, TranslateError>)
    ensures
        match r {
            Ok(c) => client_side(f@) == Some(c@),
            Err(e) => client_side(f@) is None && e == TranslateError::RawFrame,
        },
{
    match f {
        BrowserFrame::Text(t) => Ok(ClientFrame::Text(t)),
        BrowserFrame::Binary(b) => Ok(ClientFrame::Binary(b)),
        BrowserFrame::Ping(b) => Ok(ClientFrame::Ping(b)),
        BrowserFrame::Pong(b) => Ok(ClientFrame::Pong(b)),
        BrowserFrame::Close(c) => Ok(ClientFrame::Close(c)),
        BrowserFrame::Raw => Err(TranslateError::RawFrame),
    }
}

/// What happened on one direction of the relay.
#[derive(Debug)]
pub enum RelayEvent<F> {
    /// A whole frame arrived from the source side.
    Received(F),
    /// Reading from the source side failed.
    ReceiveFailed,
    /// The source side's stream ended.
    Ended,
    /// Writing the last forwarded frame to the other side failed.
    SendFailed,
}

/// What that direction does next.
#[derive(Debug)]
pub enum RelayAction<G> {
    /// Send this frame to the other side.
    Forward(G),
    /// Drop the frame and keep reading.
    Skip,
    /// This direction is over, and with it the relay.
    Stop,
}

/// Client-to-browser direction: forwards every frame; any read or write failure,
/// or the end of the stream, ends the relay.
pub fn client_to_browser_step(ev: RelayEvent<ClientFrame>) -> (r: RelayAction<BrowserFrame>)
    ensures
        match ev {
            RelayEvent::Received(f) => r matches RelayAction::Forward(g) && g@ == f@,
            _ => r is Stop,
        },
{
    match ev {
        RelayEvent::Received(f) => RelayAction::Forward(to_browser(f)),
        _ => RelayAction::Stop,
    }
}

/// Browser-to-client direction: forwards every frame the client dialect can
/// carry and skips the others; any read or write failure, or the end of the
/// stream, ends the relay.
pub fn browser_to_client_step(ev: RelayEvent<BrowserFrame>) -> (r: RelayAction<ClientFrame>)
    ensures
        match ev {
            RelayEvent::Received(f) => match client_side(f@) {
                Some(m) => r matches RelayAction::Forward(g) && g@ == m,
                None => r is Skip,
            },
            _ => r is Stop,
        },
{
    match ev {
        RelayEvent::Received(f) => match to_client(f) {
            Ok(c) => RelayAction::Forward(c),
            Err(_) => RelayAction::Skip,
        },
        _ => RelayAction::Stop,
    }
}

/// How a session's relay begins.
#[derive(Debug)]
pub enum RelayStart {
    /// Dial the browser's debugger endpoint at this URL.
    Dial(String),
    /// The session is not live: close the client with this frame.
    Refuse(CloseInfo),
}

/// Starts the relay for the looked-up debugger URL of a session: dial it, or,
/// when the session is not live, close the client with a server-error status.
pub fn relay_start(debugger_url: Option<String>) -> (r: RelayStart)
    ensures
        match debugger_url {
            Some(u) => r matches RelayStart::Dial(d) && d@ == u@,
            None => r matches RelayStart::Refuse(c) && c.code == CLOSE_SERVER_ERROR
                && c.reason@ == "session not found"@,
        },
{
    match debugger_url {
        Some(u) => RelayStart::Dial(u),
        None => {
            let reason = String::from_str("session not found");
            RelayStart::Refuse(CloseInfo { code: CLOSE_SERVER_ERROR, reason })
        },
    }
}

/// A client frame carried to the browser dialect and back is the same frame,
/// kind and bytes.
pub proof fn lemma_relay_round_trip(c: ClientFrame, b: BrowserFrame)
    requires
        b@ == c@,
    ensures
        client_side(b@) == Some(c@),
{
}

} // verus!
