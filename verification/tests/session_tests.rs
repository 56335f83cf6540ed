use ws_console::msg::Color;
use ws_console::session::{drain, iteration, on_read, on_recv, on_write_error, relay_inbound,
    run_write_phases, Mode, ReadEvent, RecvEvent};

#[test]
fn eof_terminates_with_success() {
    let o = on_read(ReadEvent::Eof);
    assert_eq!(o.msgs.len(), 1);
    assert_eq!(o.msgs[0].color, Color::Cyan);
    assert_eq!(o.msgs[0].text, "EOF\n");
    let s = o.shutdown.expect("EOF must end the run");
    assert_eq!(s.code, 0);
    assert!(s.flush_pause);
    assert!(!o.progress);
}

#[test]
fn data_renders_marker_and_payload() {
    let o = on_read(ReadEvent::Data(String::from("pong")));
    assert_eq!(o.msgs.len(), 2);
    assert_eq!(o.msgs[0].color, Color::Blue);
    assert_eq!(o.msgs[0].text, "< ");
    assert_eq!(o.msgs[1].color, Color::Default);
    assert_eq!(o.msgs[1].text, "pong\n");
    assert!(o.shutdown.is_none());
    assert!(o.progress);
}

#[test]
fn would_block_is_silent() {
    let o = on_read(ReadEvent::WouldBlock);
    assert_eq!(o.msgs.len(), 0);
    assert!(o.shutdown.is_none());
    assert!(!o.progress);
}

#[test]
fn read_error_shows_red_and_ends() {
    let o = on_read(ReadEvent::Failed(String::from("Kind(ConnectionReset)")));
    assert_eq!(o.msgs.len(), 1);
    assert_eq!(o.msgs[0].color, Color::Red);
    assert_eq!(o.msgs[0].text, "Kind(ConnectionReset)");
    let s = o.shutdown.expect("a fatal read error must end the run");
    assert_eq!(s.code, 0);
    assert!(s.flush_pause);
}

#[test]
fn line_written_whole_in_blocking_mode() {
    let s = on_recv(RecvEvent::Line(String::from("ping\n")), Mode::NonBlocking);
    assert!(s.make_blocking);
    assert_eq!(s.write.as_deref(), Some("ping\n"));
    assert!(s.shutdown.is_none());
    assert!(!s.stop);
}

#[test]
fn line_in_blocking_mode_needs_no_switch() {
    let s = on_recv(RecvEvent::Line(String::from("x")), Mode::Blocking);
    assert!(!s.make_blocking);
    assert_eq!(s.write.as_deref(), Some("x"));
}

#[test]
fn empty_queue_stops_drain() {
    let s = on_recv(RecvEvent::Empty, Mode::NonBlocking);
    assert!(s.stop);
    assert!(s.write.is_none());
    assert!(s.shutdown.is_none());
}

#[test]
fn disconnected_queue_exits_at_once() {
    let s = on_recv(RecvEvent::Disconnected, Mode::NonBlocking);
    assert!(s.stop);
    assert!(s.write.is_none());
    let sh = s.shutdown.expect("queue disconnection must end the run");
    assert_eq!(sh.code, 0);
    assert!(!sh.flush_pause);
}

#[test]
fn ping_written_once_then_nonblocking_again() {
    let evs = vec![RecvEvent::Line(String::from("ping\n")), RecvEvent::Empty];
    let d = drain(&evs, Mode::NonBlocking);
    assert_eq!(d.writes, vec![String::from("ping\n")]);
    assert_eq!(d.mode, Mode::NonBlocking);
    assert!(d.shutdown.is_none());
    assert!(d.progress);
}

#[test]
fn outgoing_order_preserved() {
    let evs = vec![
        RecvEvent::Line(String::from("one\n")),
        RecvEvent::Line(String::from("two\n")),
        RecvEvent::Line(String::from("three\n")),
        RecvEvent::Empty,
    ];
    let d = drain(&evs, Mode::NonBlocking);
    assert_eq!(
        d.writes,
        vec![String::from("one\n"), String::from("two\n"), String::from("three\n")]
    );
    assert!(d.shutdown.is_none());
}

#[test]
fn drain_of_empty_queue_changes_nothing() {
    let evs = vec![RecvEvent::Empty];
    let d = drain(&evs, Mode::NonBlocking);
    assert!(d.writes.is_empty());
    assert_eq!(d.mode, Mode::NonBlocking);
    assert!(d.shutdown.is_none());
    assert!(!d.progress);
}

#[test]
fn drain_stops_at_disconnect_after_lines() {
    let evs = vec![RecvEvent::Line(String::from("last\n")), RecvEvent::Disconnected];
    let d = drain(&evs, Mode::NonBlocking);
    assert_eq!(d.writes, vec![String::from("last\n")]);
    let s = d.shutdown.expect("disconnection must end the run");
    assert_eq!(s.code, 0);
    assert!(!s.flush_pause);
}

#[test]
fn order_preserved_across_phases() {
    let phases = vec![
        vec![RecvEvent::Line(String::from("one\n")), RecvEvent::Empty],
        vec![RecvEvent::Empty],
        vec![
            RecvEvent::Line(String::from("two\n")),
            RecvEvent::Line(String::from("three\n")),
            RecvEvent::Empty,
        ],
    ];
    let (writes, ended) = run_write_phases(&phases, Mode::NonBlocking);
    assert_eq!(
        writes,
        vec![String::from("one\n"), String::from("two\n"), String::from("three\n")]
    );
    assert!(!ended);
}

#[test]
fn run_ends_at_disconnect() {
    let phases = vec![
        vec![RecvEvent::Line(String::from("sent\n")), RecvEvent::Disconnected],
        vec![RecvEvent::Line(String::from("never\n")), RecvEvent::Empty],
    ];
    let (writes, ended) = run_write_phases(&phases, Mode::NonBlocking);
    assert_eq!(writes, vec![String::from("sent\n")]);
    assert!(ended);
}

#[test]
fn would_block_still_writes() {
    let evs = vec![RecvEvent::Line(String::from("a\n")), RecvEvent::Empty];
    let r = iteration(ReadEvent::WouldBlock, &evs, Mode::NonBlocking);
    assert_eq!(r.msgs.len(), 0);
    assert_eq!(r.writes, vec![String::from("a\n")]);
    assert!(r.shutdown.is_none());
    assert!(!r.yield_now);
}

#[test]
fn idle_iteration_yields() {
    let evs = vec![RecvEvent::Empty];
    let r = iteration(ReadEvent::WouldBlock, &evs, Mode::NonBlocking);
    assert!(r.msgs.is_empty());
    assert!(r.writes.is_empty());
    assert!(r.shutdown.is_none());
    assert!(r.yield_now);
}

#[test]
fn remote_sends_pong_then_closes() {
    let no_lines = vec![RecvEvent::Empty];
    let first = iteration(ReadEvent::Data(String::from("pong")), &no_lines, Mode::NonBlocking);
    assert_eq!(first.msgs.len(), 2);
    assert_eq!(first.msgs[0].color, Color::Blue);
    assert_eq!(first.msgs[0].text, "< ");
    assert_eq!(first.msgs[1].color, Color::Default);
    assert_eq!(first.msgs[1].text, "pong\n");
    assert!(first.shutdown.is_none());
    assert!(!first.yield_now);

    let second = iteration(ReadEvent::Eof, &no_lines, Mode::NonBlocking);
    assert_eq!(second.msgs.len(), 1);
    assert_eq!(second.msgs[0].color, Color::Cyan);
    assert_eq!(second.msgs[0].text, "EOF\n");
    assert!(second.writes.is_empty());
    let s = second.shutdown.expect("EOF must end the run");
    assert_eq!(s.code, 0);
}

#[test]
fn eof_skips_write_phase() {
    let evs = vec![RecvEvent::Line(String::from("late\n")), RecvEvent::Empty];
    let r = iteration(ReadEvent::Eof, &evs, Mode::NonBlocking);
    assert!(r.writes.is_empty());
    assert!(r.shutdown.is_some());
}

#[test]
fn write_error_shows_red_and_ends() {
    let (m, s) = on_write_error(String::from("Kind(BrokenPipe)"));
    assert_eq!(m.color, Color::Red);
    assert_eq!(m.text, "Kind(BrokenPipe)");
    assert_eq!(s.code, 0);
    assert!(s.flush_pause);
}

#[test]
fn inbound_concat_preserved() {
    let chunks = vec![String::from("ab"), String::from("cd")];
    let msgs = relay_inbound(&chunks);
    assert_eq!(msgs.len(), 4);
    assert_eq!(msgs[0].text, "< ");
    assert_eq!(msgs[1].text, "ab\n");
    assert_eq!(msgs[2].text, "< ");
    assert_eq!(msgs[3].text, "cd\n");
    let payload: String = msgs
        .iter()
        .filter(|m| m.color == Color::Default)
        .map(|m| m.text.as_str())
        .collect();
    assert_eq!(payload, "ab\ncd\n");
}

#[test]
fn no_inbound_chunks_render_nothing() {
    let chunks: Vec<String> = Vec::new();
    let msgs = relay_inbound(&chunks);
    assert!(msgs.is_empty());
}
