use browser_container::relay::{
    browser_to_client_step, client_to_browser_step, to_browser, to_client, BrowserFrame, ClientFrame,
    CloseInfo, RelayAction, RelayEvent, TranslateError,
};

#[test]
fn proxy_frame_fidelity_binary() {
    let payload: Vec<u8> = (0..64 * 1024).map(|i| (i * 31 % 251) as u8).collect();
    match client_to_browser_step(RelayEvent::Received(ClientFrame::Binary(payload.clone()))) {
        RelayAction::Forward(BrowserFrame::Binary(b)) => assert_eq!(b, payload),
        _ => panic!("binary frame not forwarded as binary"),
    }
}

#[test]
fn proxy_frame_fidelity_text_echo() {
    let text = "{\"id\":1,\"method\":\"Browser.getVersion\"}".to_string();
    let sent = match client_to_browser_step(RelayEvent::Received(ClientFrame::Text(text.clone()))) {
        RelayAction::Forward(f) => f,
        _ => panic!("text not forwarded"),
    };
    match browser_to_client_step(RelayEvent::Received(sent)) {
        RelayAction::Forward(ClientFrame::Text(t)) => assert_eq!(t, text),
        _ => panic!("echo not forwarded as text"),
    }
}

#[test]
fn ping_pong_keep_their_data() {
    match to_browser(ClientFrame::Ping(vec![1, 2, 3])) {
        BrowserFrame::Ping(d) => assert_eq!(d, vec![1, 2, 3]),
        _ => panic!("ping changed kind"),
    }
    match to_client(BrowserFrame::Pong(vec![9])) {
        Ok(ClientFrame::Pong(d)) => assert_eq!(d, vec![9]),
        _ => panic!("pong changed kind"),
    }
}

#[test]
fn close_keeps_code_and_reason() {
    let f = ClientFrame::Close(Some(CloseInfo { code: 1000, reason: "bye".to_string() }));
    match to_browser(f) {
        BrowserFrame::Close(Some(c)) => {
            assert_eq!(c.code, 1000);
            assert_eq!(c.reason, "bye");
        }
        _ => panic!("close frame changed"),
    }
    assert!(matches!(to_client(BrowserFrame::Close(None)), Ok(ClientFrame::Close(None))));
}

#[test]
fn raw_frame_is_refused_and_skipped() {
    assert!(matches!(to_client(BrowserFrame::Raw), Err(TranslateError::RawFrame)));
    assert!(matches!(browser_to_client_step(RelayEvent::Received(BrowserFrame::Raw)), RelayAction::Skip));
}

#[test]
fn failures_and_end_stop_a_direction() {
    assert!(matches!(client_to_browser_step(RelayEvent::ReceiveFailed), RelayAction::Stop));
    assert!(matches!(client_to_browser_step(RelayEvent::SendFailed), RelayAction::Stop));
    assert!(matches!(client_to_browser_step(RelayEvent::Ended), RelayAction::Stop));
    assert!(matches!(browser_to_client_step(RelayEvent::ReceiveFailed), RelayAction::Stop));
    assert!(matches!(browser_to_client_step(RelayEvent::SendFailed), RelayAction::Stop));
    assert!(matches!(browser_to_client_step(RelayEvent::Ended), RelayAction::Stop));
}

#[test]
fn client_close_is_forwarded() {
    let ev = RelayEvent::Received(ClientFrame::Close(None));
    assert!(matches!(client_to_browser_step(ev), RelayAction::Forward(BrowserFrame::Close(None))));
}
