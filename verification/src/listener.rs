//! Where the local HTTP server listens.

use crate::text;
use vstd::prelude::*;
use vstd::string::StringExecFns;

verus! {

/// Whether the local server listens, where, and what went wrong.
#[derive(Debug)]
pub struct ServerStatus {
    pub listening: bool,
    pub port: u16,
    pub error: Option<String>,
}

/// What a [`ServerStatus`] says.
#[verifier::ext_equal]
pub struct ServerStatusView {
    pub listening: bool,
    pub port: u16,
    pub error: Option<Seq<char>>,
}

impl View for ServerStatus {
    type V = ServerStatusView;

    open spec fn view(&self) -> ServerStatusView {
        ServerStatusView {
            listening: self.listening,
            port: self.port,
            error: text::option_view(self.error),
        }
    }
}

impl Clone for ServerStatus {
    fn clone(&self) -> (copy: Self)
        ensures
            copy@ == self@,
    {
        ServerStatus { listening: self.listening, port: self.port, error: self.error.clone() }
    }
}

impl Default for ServerStatus {
    fn default() -> (status: Self)
        ensures
            status@ == (ServerStatusView { listening: false, port: 0, error: None }),
    {
        ServerStatus { listening: false, port: 0, error: None }
    }
}

/// Why the server could not be started on `port`.
pub open spec fn listen_failure(port: u16, reason: Seq<char>) -> Seq<char> {
    "Could not listen on 127.0.0.1:"@ + text::decimal(port as nat) + ": "@ + reason
}

impl ServerStatusView {
    /// After a server was to be started on `port`. `failure` is why the port could not be opened,
    /// unless it was.
    pub open spec fn started(self, port: u16, failure: Option<Seq<char>>) -> ServerStatusView {
        match failure {
            None => ServerStatusView { listening: true, port, error: None },
            Some(_) => self,
        }
    }

    /// After the server that was started on `port` has stopped by itself, for `reason`. That is
    /// only reported where this server is still the current one.
    pub open spec fn stopped(self, port: u16, reason: Seq<char>) -> ServerStatusView {
        if self.port == port {
            ServerStatusView {
                listening: false,
                port,
                error: Some("Server stopped: "@ + reason),
            }
        } else {
            self
        }
    }
}

impl ServerStatus {
    /// Before the server has been started on `port`.
    pub fn idle(port: u16) -> (status: Self)
        ensures
            status@ == (ServerStatusView { listening: false, port, error: None }),
    {
        ServerStatus { listening: false, port, error: None }
    }

    /// Starts a server on `port`, where `bound` is what came of opening the port. The port is
    /// opened before the server that was running is stopped, so a port that can't be opened
    /// (already in use, not permitted) leaves the helper running where it was.
    pub fn start(&mut self, port: u16, bound: Result<(), String>) -> (r: Result<(), String>)
        ensures
            match (r, bound) {
                (Ok(()), Ok(())) => final(self)@ == old(self)@.started(port, None),
                (Err(message), Err(reason)) => {
                    &&& message@ == listen_failure(port, reason@)
                    &&& final(self)@ == old(self)@.started(port, Some(reason@))
                },
                _ => false,
            },
    {
        match bound {
            Ok(()) => {
                self.listening = true;
                self.port = port;
                self.error = None;
                Ok(())
            },
            Err(reason) => Err(
                "Could not listen on 127.0.0.1:".to_owned().concat(
                    &text::decimal_text(port as u64),
                ).concat(": ").concat(&reason),
            ),
        }
    }

    /// Notes why the helper's first server could not be started.
    pub fn fail(&mut self, error: String)
        ensures
            final(self)@ == (ServerStatusView { error: Some(error@), ..old(self)@ }),
    {
        self.error = Some(error);
    }

    /// Notes that the server that was started on `port` has stopped by itself.
    pub fn stop(&mut self, port: u16, reason: &str)
        ensures
            final(self)@ == old(self)@.stopped(port, reason@),
    {
        if self.port == port {
            self.listening = false;
            self.error = Some("Server stopped: ".to_owned().concat(reason));
        }
    }
}

/// The local server, which `S` stops.
pub struct Listener<S> {
    status: ServerStatus,
    stop: Option<S>,
}

/// What a [`Listener`] holds.
#[verifier::ext_equal]
pub struct ListenerView<S> {
    pub status: ServerStatusView,
    /// What stops the server that runs, once one has been started.
    pub stop: Option<S>,
}

impl<S> View for Listener<S> {
    type V = ListenerView<S>;

    closed spec fn view(&self) -> ListenerView<S> {
        ListenerView { status: self.status@, stop: self.stop }
    }
}

impl<S> ListenerView<S> {
    /// After a server was to be started on `port`. `bound` is what stops it, or why the port could
    /// not be opened.
    pub open spec fn started(self, port: u16, bound: Result<S, Seq<char>>) -> ListenerView<S> {
        match bound {
            Ok(stop) => ListenerView { status: self.status.started(port, None), stop: Some(stop) },
            Err(reason) => ListenerView {
                status: self.status.started(port, Some(reason)),
                stop: self.stop,
            },
        }
    }
}

impl<S> Listener<S> {
    /// Before a server has been started on `port`.
    pub fn new(port: u16) -> (listener: Self)
        ensures
            listener@ == (ListenerView::<S> {
                status: ServerStatusView { listening: false, port, error: None },
                stop: None,
            }),
    {
        Listener { status: ServerStatus::idle(port), stop: None }
    }

    /// Whether the server listens, where, and what went wrong.
    pub fn status(&self) -> (status: ServerStatus)
        ensures
            status@ == self@.status,
    {
        self.status.clone()
    }

    /// Starts a server on `port`, where `bound` is what stops it, or why the port could not be
    /// opened. Gives what stops the server that ran before, which has to be done now. Where the
    /// port could not be opened, that one goes on.
    pub fn start(&mut self, port: u16, bound: Result<S, String>) -> (r: Result<Option<S>, String>)
        ensures
            match (r, bound) {
                (Ok(previous), Ok(stop)) => {
                    &&& previous == old(self)@.stop
                    &&& final(self)@ == old(self)@.started(port, Ok(stop))
                },
                (Err(message), Err(reason)) => {
                    &&& message@ == listen_failure(port, reason@)
                    &&& final(self)@ == old(self)@.started(port, Err(reason@))
                },
                _ => false,
            },
    {
        match bound {
            Ok(stop) => {
                let _ = self.status.start(port, Ok(()));
                let previous = self.stop.take();
                self.stop = Some(stop);
                Ok(previous)
            },
            Err(reason) => match self.status.start(port, Err(reason)) {
                Ok(()) => Ok(None),
                Err(message) => Err(message),
            },
        }
    }

    /// Notes why the helper's first server could not be started.
    pub fn fail(&mut self, error: String)
        ensures
            final(self)@ == (ListenerView {
                status: ServerStatusView { error: Some(error@), ..old(self)@.status },
                ..old(self)@
            }),
    {
        self.status.fail(error);
    }

    /// Notes that the server that was started on `port` has stopped by itself.
    pub fn stop(&mut self, port: u16, reason: &str)
        ensures
            final(self)@ == (ListenerView {
                status: old(self)@.status.stopped(port, reason@),
                ..old(self)@
            }),
    {
        self.status.stop(port, reason);
    }
}

/// Changing the port moves the server: the helper listens on the new port, and what stopped the
/// server on the old one is what is handed out to be used.
pub proof fn law_changing_the_port_moves_the_server<S>(
    listener: ListenerView<S>,
    first: u16,
    first_stop: S,
    second: u16,
    second_stop: S,
)
    ensures
        ({
            let before = listener.started(first, Ok(first_stop));
            let after = before.started(second, Ok(second_stop));
            &&& before.stop == Some(first_stop)
            &&& after == ListenerView {
                status: ServerStatusView { listening: true, port: second, error: None },
                stop: Some(second_stop),
            }
        }),
{
}

/// A port that can't be opened leaves the helper as it was: its status, and the server that runs
/// with what stops it.
pub proof fn law_busy_port_keeps_the_server<S>(
    listener: ListenerView<S>,
    port: u16,
    reason: Seq<char>,
)
    ensures
        listener.started(port, Err(reason)) == listener,
        ("Could not listen on 127.0.0.1:"@ + text::decimal(port as nat) + ": "@).is_prefix_of(
            listen_failure(port, reason),
        ),
{
    let start = "Could not listen on 127.0.0.1:"@ + text::decimal(port as nat) + ": "@;
    assert(listen_failure(port, reason).take(start.len() as int) == start);
}

/// A port that can't be opened leaves the helper as it was. One that can be is where it listens
/// from then on.
pub proof fn law_failed_port_keeps_the_server(status: ServerStatusView, port: u16, reason: Seq<char>)
    ensures
        status.started(port, Some(reason)) == status,
        status.started(port, None).listening,
        status.started(port, None).port == port,
        status.started(port, None).error is None,
{
}

/// The end of a server that another port has replaced goes unnoticed.
pub proof fn law_replaced_server_is_not_reported(
    status: ServerStatusView,
    first: u16,
    second: u16,
    reason: Seq<char>,
)
    requires
        first != second,
    ensures
        ({
            let moved = status.started(first, None).started(second, None);
            moved.stopped(first, reason) == moved
        }),
{
}

} // verus!
