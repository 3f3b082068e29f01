use portscanner::probe::{
    banner_from_read, banner_line, probe_start, probe_step, socket_address_text, ConnectOutcome,
    ProbeAction, ProbeEvent, ProbeState, ReadOutcome, BANNER_BUFFER_LEN, DEADLINE_MS,
};

const NO_BANNER: &str = "Servis bilgisi alınamadı";

#[test]
fn writes_the_socket_address() {
    assert_eq!(socket_address_text("127.0.0.1", 80), "127.0.0.1:80");
    assert_eq!(socket_address_text("10.0.0.7", 65535), "10.0.0.7:65535");
    assert_eq!(socket_address_text("::1", 0), "[::1]:0");
    assert_eq!(socket_address_text("::1", 8080), "[::1]:8080");
    assert_eq!(socket_address_text("2001:db8::7", 443), "[2001:db8::7]:443");
    assert_eq!(socket_address_text("", 1), ":1");
}

#[test]
fn banner_is_the_first_line_trimmed() {
    assert_eq!(banner_line("HELLO\r\n"), "HELLO");
    assert_eq!(banner_line("  SSH-2.0-OpenSSH_9.6 \r\nmore\r\n"), "SSH-2.0-OpenSSH_9.6");
    assert_eq!(banner_line("HTTP/1.0 200 OK\nServer: x\n"), "HTTP/1.0 200 OK");
    assert_eq!(banner_line("no line end"), "no line end");
    assert_eq!(banner_line("\nsecond"), "");
    assert_eq!(banner_line(""), "");
    assert_eq!(banner_line("a\rb\n"), "a\rb");
    assert_eq!(banner_line(" \t \n x"), "");
}

#[test]
fn banner_agrees_with_lines_and_trim() {
    let samples = ["HELLO\r\n", "a\r\n\r\n", "\r\n", "\r", " x \r", "x\ny", "\u{2003}x\u{85}\ny", "é è\n"];
    for s in samples {
        assert_eq!(banner_line(s), s.lines().next().unwrap_or("").trim());
    }
}

#[test]
fn hello_service_gives_hello() {
    let outcome = ReadOutcome::Data(vec![72, 69, 76, 76, 79, 13, 10]);
    assert_eq!(banner_from_read(&outcome), "HELLO");
}

#[test]
fn malformed_bytes_are_replaced() {
    let outcome = ReadOutcome::Data(vec![0xff, 65, 0xc3, 10, 66]);
    assert_eq!(banner_from_read(&outcome), "\u{fffd}A\u{fffd}");
    let outcome = ReadOutcome::Data(vec![0xc3, 0xa9, 32, 10]);
    assert_eq!(banner_from_read(&outcome), "é");
}

#[test]
fn silent_service_gives_the_sentinel() {
    assert_eq!(banner_from_read(&ReadOutcome::TimedOut), NO_BANNER);
    assert_eq!(banner_from_read(&ReadOutcome::Failed), NO_BANNER);
    assert_eq!(banner_from_read(&ReadOutcome::Data(Vec::new())), NO_BANNER);
}

#[test]
fn white_space_only_answer_gives_an_empty_banner() {
    assert_eq!(banner_from_read(&ReadOutcome::Data(vec![13, 10])), "");
}

#[test]
fn refused_address_ends_the_probe() {
    let (state, action) = probe_step(80, probe_start(), ProbeEvent::Addressed(false));
    assert!(matches!(state, ProbeState::Finished));
    assert!(matches!(action, ProbeAction::Report(None)));
}

#[test]
fn closed_port_is_not_reported() {
    let (state, action) = probe_step(80, probe_start(), ProbeEvent::Addressed(true));
    assert!(matches!(state, ProbeState::Connecting));
    assert!(matches!(action, ProbeAction::Connect { timeout_ms: 1000 }));
    let (after, action) = probe_step(80, state, ProbeEvent::Connect(ConnectOutcome::Failed));
    assert!(matches!(after, ProbeState::Finished));
    assert!(matches!(action, ProbeAction::Report(None)));
    let (after, action) =
        probe_step(80, ProbeState::Connecting, ProbeEvent::Connect(ConnectOutcome::TimedOut));
    assert!(matches!(after, ProbeState::Finished));
    assert!(matches!(action, ProbeAction::Report(None)));
}

#[test]
fn open_port_without_data_is_reported_with_the_sentinel() {
    let (state, action) = probe_step(
        8080,
        ProbeState::Connecting,
        ProbeEvent::Connect(ConnectOutcome::Connected { elapsed_ms: 42 }),
    );
    assert!(matches!(state, ProbeState::Reading { response_time_ms: 42 }));
    match action {
        ProbeAction::SendAndRead { payload, buffer_len, timeout_ms } => {
            assert_eq!(payload, b"GET / HTTP/1.0\r\n\r\n".to_vec());
            assert_eq!(buffer_len, 512);
            assert_eq!(buffer_len, BANNER_BUFFER_LEN);
            assert_eq!(timeout_ms, 1000);
            assert_eq!(timeout_ms, DEADLINE_MS);
        }
        _ => panic!("the request was not sent"),
    }
    let (state, action) = probe_step(8080, state, ProbeEvent::Read(ReadOutcome::TimedOut));
    assert!(matches!(state, ProbeState::Finished));
    match action {
        ProbeAction::Report(Some(info)) => {
            assert_eq!(info.port, 8080);
            assert!(info.is_open);
            assert_eq!(info.service_banner, NO_BANNER);
            assert_eq!(info.response_time_ms, 42);
        }
        _ => panic!("the open port was not reported"),
    }
}

#[test]
fn open_port_with_data_is_reported_with_its_banner() {
    let state = ProbeState::Reading { response_time_ms: 3 };
    let (_, action) =
        probe_step(22, state, ProbeEvent::Read(ReadOutcome::Data(b"HELLO\r\n".to_vec())));
    match action {
        ProbeAction::Report(Some(info)) => {
            assert_eq!(info.port, 22);
            assert!(info.is_open);
            assert_eq!(info.service_banner, "HELLO");
            assert_eq!(info.response_time_ms, 3);
        }
        _ => panic!("the open port was not reported"),
    }
}

#[test]
fn an_event_out_of_turn_ends_the_probe() {
    let (state, action) = probe_step(1, probe_start(), ProbeEvent::Read(ReadOutcome::TimedOut));
    assert!(matches!(state, ProbeState::Finished));
    assert!(matches!(action, ProbeAction::Report(None)));
    let (state, action) = probe_step(1, ProbeState::Finished, ProbeEvent::Addressed(true));
    assert!(matches!(state, ProbeState::Finished));
    assert!(matches!(action, ProbeAction::Report(None)));
    let (state, action) = probe_step(
        1,
        ProbeState::Reading { response_time_ms: 1 },
        ProbeEvent::Connect(ConnectOutcome::Connected { elapsed_ms: 2 }),
    );
    assert!(matches!(state, ProbeState::Finished));
    assert!(matches!(action, ProbeAction::Report(None)));
}
