//! The server's decisions: routing input lines, applying control commands,
//! and keeping track of the sink.
use vstd::prelude::*;
use vstd::string::*;
use crate::filter::{
    Filter, filter_after_set, filter_selects, filter_sound, filter_text, opt_view,
};

verus! {

/// The kind of control channel the server listens on.
#[derive(Clone, Copy, PartialEq, Eq, Debug, Structural)]
pub enum Platform {
    /// A socket listener that accepts any number of connections.
    Socket,
    /// A named pipe whose listening instance each connection consumes.
    Pipe,
}

impl Platform {
    /// Whether a fresh listening instance must be made after each accepted
    /// connection, before the next one can come in.
    pub fn consumes_listener(&self) -> (r: bool)
        ensures
            r == (*self == Platform::Pipe),
    {
        match self {
            Platform::Socket => false,
            Platform::Pipe => true,
        }
    }
}

/// One request on the control channel.
#[derive(Debug)]
pub enum Command {
    /// Set the filter to a pattern, or clear it.
    NewFilter(Option<String>),
    /// Ask for the current filter.
    GetCurrentFilter,
    /// Ask for the current sink.
    GetCurrentTty,
    /// Register a sink by its identifier.
    Listen(String),
}

/// What the caller does after a command was applied.
#[derive(Debug)]
pub enum Reply {
    /// Nothing more: close the connection.
    Nothing,
    /// Write these bytes back on the connection.
    Respond(String),
    /// Open this terminal as the new sink, then report it with `sink_opened`.
    OpenSink(String),
    /// Keep the connection: it has become the sink.
    AdoptConnection,
}

/// The model of a command.
pub enum CommandView {
    SetFilter(Option<Seq<char>>),
    QueryFilter,
    QuerySink,
    RegisterSink(Seq<char>),
}

/// The model of a reply.
pub enum ReplyView {
    Nothing,
    Respond(Seq<char>),
    OpenSink(Seq<char>),
    AdoptConnection,
}

impl View for Command {
    type V = CommandView;

    open spec fn view(&self) -> CommandView {
        match self {
            Command::NewFilter(p) => CommandView::SetFilter(opt_view(*p)),
            Command::GetCurrentFilter => CommandView::QueryFilter,
            Command::GetCurrentTty => CommandView::QuerySink,
            Command::Listen(id) => CommandView::RegisterSink(id@),
        }
    }
}

impl View for Reply {
    type V = ReplyView;

    open spec fn view(&self) -> ReplyView {
        match self {
            Reply::Nothing => ReplyView::Nothing,
            Reply::Respond(s) => ReplyView::Respond(s@),
            Reply::OpenSink(id) => ReplyView::OpenSink(id@),
            Reply::AdoptConnection => ReplyView::AdoptConnection,
        }
    }
}

/// The model of the server: its filter, the identifier of its sink if one is
/// active, and its platform.
pub struct ServerState {
    pub filter: Option<Seq<char>>,
    pub sink: Option<Seq<char>>,
    pub platform: Platform,
}

/// The text a sink query answers when no sink is active.
pub open spec fn no_sink_text() -> Seq<char> {
    "<no current tty>"@
}

/// The text a sink query answers where sinks are not named.
pub open spec fn unsupported_text() -> Seq<char> {
    "<not supported>"@
}

/// What a sink query answers.
pub open spec fn sink_text(s: ServerState) -> Seq<char> {
    match s.platform {
        Platform::Pipe => unsupported_text(),
        Platform::Socket => match s.sink {
            Some(id) => id,
            None => no_sink_text(),
        },
    }
}

/// Whether a line read in state `s` goes on to the sink.
pub open spec fn forwarded(s: ServerState, line: Seq<char>) -> bool {
    s.sink is Some && filter_selects(s.filter, line)
}

/// The state after a sink was registered.
pub open spec fn with_sink(s: ServerState, id: Seq<char>) -> ServerState {
    ServerState { sink: Some(id), ..s }
}

/// The state after the sink failed a write.
pub open spec fn without_sink(s: ServerState) -> ServerState {
    ServerState { sink: None, ..s }
}

/// The state and the reply after one command.
pub open spec fn step(s: ServerState, c: CommandView) -> (ServerState, ReplyView) {
    match c {
        CommandView::SetFilter(p) => (
            ServerState { filter: filter_after_set(s.filter, p), ..s },
            ReplyView::Nothing,
        ),
        CommandView::QueryFilter => (s, ReplyView::Respond(filter_text(s.filter))),
        CommandView::QuerySink => (s, ReplyView::Respond(sink_text(s))),
        CommandView::RegisterSink(id) => match s.platform {
            Platform::Socket => (s, ReplyView::OpenSink(id)),
            Platform::Pipe => (with_sink(s, id), ReplyView::AdoptConnection),
        },
    }
}

/// Where an input line goes.
pub struct LineRoute {
    /// The line, for the primary output.
    pub echo: String,
    /// The line and its terminator, for the sink, when it goes there.
    pub forward: Option<String>,
}

/// The server's state: the filter and the active sink.
pub struct Server {
    filter: Filter,
    sink: Option<String>,
    platform: Platform,
}

impl View for Server {
    type V = ServerState;

    closed spec fn view(&self) -> ServerState {
        ServerState { filter: self.filter@, sink: opt_view(self.sink), platform: self.platform }
    }
}

impl Server {
    pub open spec fn wf(&self) -> bool {
        filter_sound(self@.filter)
    }

    /// A server with the initial filter, if it compiles, and no sink.
    pub fn new(platform: Platform, initial_filter: Option<String>) -> (r: Server)
        ensures
            r.wf(),
            r@.filter == filter_after_set(None, opt_view(initial_filter)),
            r@.sink is None,
            r@.platform == platform,
    {
        Server { filter: Filter::new(initial_filter), sink: None, platform }
    }

    /// Routes one input line: always to the primary output, and to the sink
    /// when one is active and the filter selects the line.
    pub fn on_line(&self, line: &str) -> (r: LineRoute)
        requires
            self.wf(),
        ensures
            r.echo@ == line@,
            r.forward is Some <==> forwarded(self@, line@),
            r.forward matches Some(out) ==> out@ == line@.push('\n'),
    {
        let echo = line.to_owned();
        let forward = if self.sink.is_some() && self.filter.matches(line) {
            let mut out = line.to_owned();
            out.append("\n");
            proof {
                reveal_strlit("\n");
                assert(out@ == line@.push('\n'));
            }
            Some(out)
        } else {
            None
        };
        LineRoute { echo, forward }
    }

    /// Applies one control command.
    pub fn on_command(&mut self, cmd: Command) -> (r: Reply)
        requires
            old(self).wf(),
        ensures
            final(self).wf(),
            (final(self)@, r@) == step(old(self)@, cmd@),
    {
        match cmd {
            Command::NewFilter(p) => {
                let _ = self.filter.set(p);
                Reply::Nothing
            },
            Command::GetCurrentFilter => Reply::Respond(self.filter.current()),
            Command::GetCurrentTty => Reply::Respond(self.sink_identity()),
            Command::Listen(id) => match self.platform {
                Platform::Socket => Reply::OpenSink(id),
                Platform::Pipe => {
                    self.sink = Some(id);
                    Reply::AdoptConnection
                },
            },
        }
    }

    /// The answer to a sink query.
    pub fn sink_identity(&self) -> (r: String)
        ensures
            r@ == sink_text(self@),
    {
        match self.platform {
            Platform::Pipe => String::from_str("<not supported>"),
            Platform::Socket => match &self.sink {
                Some(id) => id.clone(),
                None => String::from_str("<no current tty>"),
            },
        }
    }

    /// Records a newly opened sink, which replaces the previous one.
    pub fn sink_opened(&mut self, id: String)
        requires
            old(self).wf(),
        ensures
            final(self).wf(),
            final(self)@ == with_sink(old(self)@, id@),
    {
        self.sink = Some(id);
    }

    /// Retires the sink after a failed write.
    pub fn sink_failed(&mut self)
        requires
            old(self).wf(),
        ensures
            final(self).wf(),
            final(self)@ == without_sink(old(self)@),
    {
        self.sink = None;
    }
}

} // verus!
