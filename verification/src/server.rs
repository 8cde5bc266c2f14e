//! The server: an address, a registry of methods and a place in the
//! lifecycle.

use crate::dispatch::{answers, handle_message, handlers_accept_all, serve};
use crate::lifecycle::{
    action_of, may_stop_waiting, next_phase, step, wait_is_over, Action, Event, Phase,
};
use crate::registry::Registry;
use vstd::prelude::*;
use vstd::utf8::{decode_utf8, valid_utf8};

verus! {

/// The number of worker threads behind the accept loop.
pub const WORKER_THREADS: usize = 2;

/// The seconds that one read or one write on a connection may take.
pub const IO_TIMEOUT_SECONDS: u64 = 1;

/// Why a server did not start.
#[derive(Clone, Copy, Debug, PartialEq, Eq, Structural)]
pub enum StartError {
    /// The listening socket could not be bound.
    Bind,
    /// The server had left its configuration before.
    NotConfiguring,
}

/// The event that the outcome of binding the socket stands for.
pub open spec fn bind_event(bound: bool) -> Event {
    if bound {
        Event::Bound
    } else {
        Event::BindFailed
    }
}

/// A server. Methods are registered while it is configured; once it was
/// started its registry stays as it is.
#[verifier::reject_recursive_types(H)]
pub struct Server<H> {
    addr: String,
    methods: Registry<H>,
    phase: Phase,
}

#[verifier::reject_recursive_types(H)]
pub struct ServerView<H> {
    pub addr: Seq<char>,
    pub methods: Map<Seq<char>, H>,
    pub phase: Phase,
}

impl<H> View for Server<H> {
    type V = ServerView<H>;

    closed spec fn view(&self) -> ServerView<H> {
        ServerView { addr: self.addr@, methods: self.methods@, phase: self.phase }
    }
}

impl<H> Server<H> {
    /// A server for an address, without methods, not yet started.
    pub fn new(addr: String) -> (r: Self)
        ensures
            r@ == (ServerView {
                addr: addr@,
                methods: Map::<Seq<char>, H>::empty(),
                phase: Phase::Configuring,
            }),
    {
        Server { addr, methods: Registry::new(), phase: Phase::Configuring }
    }

    /// Registers a method under a name, in place of the one that was there.
    /// Once the server has left its configuration the call changes nothing.
    pub fn add_method(&mut self, name: &str, method: H)
        ensures
            final(self)@ == (ServerView {
                methods: if old(self)@.phase is Configuring {
                    old(self)@.methods.insert(name@, method)
                } else {
                    old(self)@.methods
                },
                ..old(self)@
            }),
    {
        match self.phase {
            Phase::Configuring => {
                self.methods.register(name, method);
            },
            _ => {},
        }
    }

    /// The address to listen on.
    pub fn addr(&self) -> (r: &str)
        ensures
            r@ == self@.addr,
    {
        self.addr.as_str()
    }

    /// The registered methods.
    pub fn methods(&self) -> (r: &Registry<H>)
        ensures
            r@ == self@.methods,
    {
        &self.methods
    }

    /// Where the server is in its life.
    pub fn phase(&self) -> (r: Phase)
        ensures
            r == self@.phase,
    {
        self.phase
    }

    /// Takes note of an event and says what to do about it. Address and
    /// methods stay as they are.
    pub fn on_event(&mut self, event: Event) -> (action: Action)
        ensures
            action == action_of(old(self)@.phase, event),
            final(self)@ == (ServerView {
                phase: next_phase(old(self)@.phase, event),
                ..old(self)@
            }),
    {
        let (phase, action) = step(self.phase, event);
        self.phase = phase;
        action
    }

    /// Starts the server once its socket was bound, or ends it where the
    /// socket could not be bound: that failure goes to the caller. A server
    /// that was started or ended before stays as it is.
    pub fn run(&mut self, bound: bool) -> (r: Result<(), StartError>)
        ensures
            final(self)@ == (ServerView {
                phase: next_phase(old(self)@.phase, bind_event(bound)),
                ..old(self)@
            }),
            r == if !(old(self)@.phase is Configuring) {
                Err::<(), StartError>(StartError::NotConfiguring)
            } else if bound {
                Ok::<(), StartError>(())
            } else {
                Err::<(), StartError>(StartError::Bind)
            },
            r is Ok <==> final(self)@.phase is Running && old(self)@.phase is Configuring,
    {
        let event = if bound {
            Event::Bound
        } else {
            Event::BindFailed
        };
        match self.on_event(event) {
            Action::Accept => Ok(()),
            Action::Fail => Err(StartError::Bind),
            _ => Err(StartError::NotConfiguring),
        }
    }

    /// Whether a caller that waits for the server's end may go on.
    pub fn wait_is_over(&self) -> (r: bool)
        ensures
            r == wait_is_over(self@.phase),
    {
        may_stop_waiting(self.phase)
    }
}

impl<E, H: Fn(String) -> Result<Option<String>, E>> Server<H> {
    /// Answers one message with the server's methods.
    pub fn handle_message(&self, message: &str) -> (reply: String)
        requires
            handlers_accept_all(self@.methods),
        ensures
            answers(self@.methods, message@, reply@),
    {
        handle_message(&self.methods, message)
    }

    /// Serves what one read of a connection brought: `None` where the bytes
    /// are no text and the connection gets no reply.
    pub fn serve(&self, received: Vec<u8>) -> (reply: Option<String>)
        requires
            handlers_accept_all(self@.methods),
        ensures
            match reply {
                Some(text) => valid_utf8(received@) && answers(
                    self@.methods,
                    decode_utf8(received@),
                    text@,
                ),
                None => !valid_utf8(received@),
            },
    {
        serve(&self.methods, received)
    }
}

} // verus!
