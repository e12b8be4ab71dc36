use infuser::channel::{clear_screen_sequence, format_pipe_name, take_frame, FRAME_CAP};
use infuser::filter::Filter;
use infuser::server::{Command, LineRoute, Platform, Reply, Server};

fn respond_text(r: Reply) -> String {
    match r {
        Reply::Respond(s) => s,
        other => panic!("expected a response, got {:?}", other),
    }
}

fn query_filter(s: &mut Server) -> String {
    respond_text(s.on_command(Command::GetCurrentFilter))
}

fn set_filter(s: &mut Server, p: Option<&str>) {
    let r = s.on_command(Command::NewFilter(p.map(|x| x.to_string())));
    assert!(matches!(r, Reply::Nothing));
}

#[test]
fn empty_filter_answers_sentinel() {
    let f = Filter::empty();
    assert_eq!(f.current(), "<no current filter>");
    assert!(!f.matches("anything"));
}

#[test]
fn filter_query_without_filter_ever_set() {
    let mut s = Server::new(Platform::Socket, None);
    assert_eq!(query_filter(&mut s), "<no current filter>");
}

#[test]
fn clearing_unset_filter_is_idempotent() {
    let mut s = Server::new(Platform::Socket, None);
    set_filter(&mut s, None);
    assert_eq!(query_filter(&mut s), "<no current filter>");
    set_filter(&mut s, None);
    assert_eq!(query_filter(&mut s), "<no current filter>");
}

#[test]
fn valid_pattern_round_trips() {
    let mut s = Server::new(Platform::Socket, None);
    set_filter(&mut s, Some("New.*Thing"));
    assert_eq!(query_filter(&mut s), "New.*Thing");
}

#[test]
fn invalid_pattern_keeps_prior_filter() {
    let mut s = Server::new(Platform::Socket, Some("abc".to_string()));
    set_filter(&mut s, Some("["));
    assert_eq!(query_filter(&mut s), "abc");
}

#[test]
fn invalid_pattern_keeps_sentinel() {
    let mut s = Server::new(Platform::Socket, None);
    set_filter(&mut s, Some("["));
    assert_eq!(query_filter(&mut s), "<no current filter>");
}

#[test]
fn filter_set_reports_acceptance() {
    let mut f = Filter::empty();
    assert!(!f.set(Some("[".to_string())));
    assert_eq!(f.current(), "<no current filter>");
    assert!(f.set(Some("x+".to_string())));
    assert_eq!(f.current(), "x+");
    assert!(f.matches("axxb"));
    assert!(!f.matches("ab"));
    assert!(f.set(None));
    assert_eq!(f.current(), "<no current filter>");
}

#[test]
fn invalid_initial_filter_is_not_taken() {
    let f = Filter::new(Some("(".to_string()));
    assert_eq!(f.current(), "<no current filter>");
    let g = Filter::new(Some("a|b".to_string()));
    assert_eq!(g.current(), "a|b");
}

#[test]
fn clearing_filter_stops_matching() {
    let mut s = Server::new(Platform::Socket, Some("beta".to_string()));
    s.sink_opened("/dev/pts/3".to_string());
    assert!(s.on_line("beta").forward.is_some());
    set_filter(&mut s, None);
    assert!(s.on_line("beta").forward.is_none());
}

#[test]
fn digits_filter_forwards_only_matching_line() {
    let mut s = Server::new(Platform::Socket, Some(r"\d+".to_string()));
    s.sink_opened("/dev/pts/7".to_string());
    let inputs = ["alpha", "beta123", "gamma"];
    let mut primary: Vec<String> = Vec::new();
    let mut sink: Vec<String> = Vec::new();
    for line in inputs.iter() {
        let LineRoute { echo, forward } = s.on_line(line);
        primary.push(echo);
        if let Some(out) = forward {
            sink.push(out);
        }
    }
    assert_eq!(primary, vec!["alpha", "beta123", "gamma"]);
    assert_eq!(sink, vec!["beta123\n"]);
}

#[test]
fn no_sink_means_nothing_forwarded() {
    let s = Server::new(Platform::Socket, Some(".*".to_string()));
    let r = s.on_line("hello");
    assert_eq!(r.echo, "hello");
    assert!(r.forward.is_none());
}

#[test]
fn failed_sink_is_retired() {
    let mut s = Server::new(Platform::Socket, Some("x".to_string()));
    s.sink_opened("/dev/pts/1".to_string());
    assert_eq!(s.on_line("x").forward.as_deref(), Some("x\n"));
    s.sink_failed();
    assert!(s.on_line("x").forward.is_none());
    assert_eq!(respond_text(s.on_command(Command::GetCurrentTty)), "<no current tty>");
}

#[test]
fn socket_registration_asks_to_open_terminal() {
    let mut s = Server::new(Platform::Socket, None);
    match s.on_command(Command::Listen("/dev/pts/4".to_string())) {
        Reply::OpenSink(id) => assert_eq!(id, "/dev/pts/4"),
        other => panic!("unexpected reply {:?}", other),
    }
    assert_eq!(respond_text(s.on_command(Command::GetCurrentTty)), "<no current tty>");
    s.sink_opened("/dev/pts/4".to_string());
    assert_eq!(respond_text(s.on_command(Command::GetCurrentTty)), "/dev/pts/4");
}

#[test]
fn second_registration_replaces_first() {
    let mut s = Server::new(Platform::Socket, None);
    s.sink_opened("/dev/pts/1".to_string());
    s.sink_opened("/dev/pts/2".to_string());
    assert_eq!(respond_text(s.on_command(Command::GetCurrentTty)), "/dev/pts/2");
}

#[test]
fn pipe_registration_adopts_connection() {
    let mut s = Server::new(Platform::Pipe, Some("err".to_string()));
    assert!(s.on_line("error").forward.is_none());
    assert!(matches!(
        s.on_command(Command::Listen(String::new())),
        Reply::AdoptConnection
    ));
    assert_eq!(s.on_line("error").forward.as_deref(), Some("error\n"));
    assert!(matches!(
        s.on_command(Command::Listen(String::new())),
        Reply::AdoptConnection
    ));
    assert_eq!(s.on_line("error").forward.as_deref(), Some("error\n"));
}

#[test]
fn pipe_sink_query_is_unsupported() {
    let mut s = Server::new(Platform::Pipe, None);
    assert_eq!(respond_text(s.on_command(Command::GetCurrentTty)), "<not supported>");
}

#[test]
fn empty_read_holds_no_frame() {
    let buf = [0u8; FRAME_CAP];
    assert!(take_frame(&buf, 0).is_none());
}

#[test]
fn frame_is_prefix_of_buffer() {
    let mut buf = [0u8; FRAME_CAP];
    let msg = br#""GetCurrentFilter""#;
    buf[..msg.len()].copy_from_slice(msg);
    assert_eq!(take_frame(&buf, msg.len()), Some(msg.to_vec()));
    assert_eq!(take_frame(&buf, FRAME_CAP).map(|f| f.len()), Some(1024));
}

#[test]
fn only_pipes_consume_their_listener() {
    assert!(Platform::Pipe.consumes_listener());
    assert!(!Platform::Socket.consumes_listener());
}

#[test]
fn pipe_name_is_prefixed() {
    assert_eq!(format_pipe_name("infuser.pipe"), r"\\.\pipe\infuser.pipe");
    assert_eq!(format_pipe_name(""), r"\\.\pipe\");
}

#[test]
fn clear_screen_is_escape_c() {
    assert_eq!(clear_screen_sequence(), b"\x1b\x63".to_vec());
}
