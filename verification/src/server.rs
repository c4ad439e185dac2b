//! The server's three loops as state machines over one cancellation flag.
//!
//! [`ServerBuilder::bind`] turns the outcome of binding a socket into a
//! [`Server`], and [`Server::listen`] splits the server into the loop that
//! accepts connections and the supervisor that waits for the shutdown. Each
//! accepted connection gets a [`ConnectionLoop`] of its own. A fault on one
//! connection closes that connection; a fault on the accepting socket, or a
//! trigger from anywhere else, stops all of them at their next poll.

use crate::cancellation::{CancellationToken, FamilyView, FlagOp, TokenView};
use crate::error::Error;
use vstd::prelude::*;

verus! {

/// The size of the read buffer for each incoming connection, unless the
/// builder is told otherwise (1 MiB).
pub const DEFAULT_SERVER_READ_BUF_SIZE: usize = 1024 * 1024;

/// For how many milliseconds the supervisor sleeps between two polls.
pub const SUPERVISOR_POLL_MILLIS: u64 = 100;

/// Configures and makes a [`Server`].
pub struct ServerBuilder {
    read_buf_size: usize,
}

impl ServerBuilder {
    /// The size of the buffer into which each connection reads.
    pub closed spec fn read_buf_size(&self) -> usize {
        self.read_buf_size
    }

    /// A builder for servers whose connections read into buffers of
    /// `read_buf_size` bytes.
    pub fn new(read_buf_size: usize) -> (builder: Self)
        ensures
            builder.read_buf_size() == read_buf_size,
    {
        ServerBuilder { read_buf_size }
    }

    /// Makes the server from the outcome of binding its listening socket:
    /// the text of the address that the socket was bound to, or the text of the
    /// failure. On a failure nothing is made.
    pub fn bind(self, bound: Result<String, String>) -> (outcome: Result<Server, Error>)
        ensures
            match bound {
                Ok(local_addr) => outcome matches Ok(server) && server@ == (ServerView {
                    local_addr: local_addr@,
                    read_buf_size: self.read_buf_size(),
                    token: TokenView::fresh(),
                }),
                Err(failure) => outcome matches Err(Error::Io(text)) && text@ == failure@,
            },
    {
        match bound {
            Ok(local_addr) => Ok(
                Server {
                    local_addr,
                    read_buf_size: self.read_buf_size,
                    cancellation_source: CancellationToken::new(),
                },
            ),
            Err(failure) => Err(Error::Io(failure)),
        }
    }
}

impl Default for ServerBuilder {
    fn default() -> (builder: Self)
        ensures
            builder.read_buf_size() == DEFAULT_SERVER_READ_BUF_SIZE,
    {
        ServerBuilder { read_buf_size: DEFAULT_SERVER_READ_BUF_SIZE }
    }
}

/// A bound server, seen as plain values.
pub struct ServerView {
    /// The address that the listening socket is bound to.
    pub local_addr: Seq<char>,
    /// The size of the buffer into which each connection reads.
    pub read_buf_size: usize,
    /// What the server's own token knows of the flag.
    pub token: TokenView,
}

/// A server that is bound and does not listen yet. It owns the flag that its
/// loops will share.
pub struct Server {
    local_addr: String,
    read_buf_size: usize,
    cancellation_source: CancellationToken,
}

impl View for Server {
    type V = ServerView;

    closed spec fn view(&self) -> ServerView {
        ServerView {
            local_addr: self.local_addr@,
            read_buf_size: self.read_buf_size,
            token: self.cancellation_source@,
        }
    }
}

impl Server {
    /// The server's own token.
    pub closed spec fn handle(&self) -> CancellationToken {
        self.cancellation_source
    }

    /// A token on the server's flag, with which the server can be shut down
    /// from outside its loops.
    pub fn token(&mut self) -> (token: CancellationToken)
        ensures
            *final(self) == *old(self),
            token@ == old(self)@.token,
            token.same_flag(&old(self).handle()),
    {
        self.cancellation_source.clone()
    }

    /// Starts the service: hands out the loop that accepts connections, which is
    /// to run on a thread of its own, and the supervisor, which keeps the
    /// calling thread until the flag is set. Both share the server's flag.
    pub fn listen(self) -> (loops: (AcceptLoop, Supervisor))
        ensures
            loops.0@ == (AcceptLoopView {
                read_buf_size: self@.read_buf_size,
                token: self@.token,
            }),
            loops.0.handle().same_flag(&self.handle()),
            loops.1@ == (SupervisorView { token: self@.token }),
            loops.1.handle().same_flag(&self.handle()),
    {
        let token = self.cancellation_source.clone();
        (
            AcceptLoop { read_buf_size: self.read_buf_size, token },
            Supervisor { token: self.cancellation_source },
        )
    }

    /// The address that the server is bound to.
    pub fn local_addr(&self) -> (local_addr: String)
        ensures
            local_addr@ == self@.local_addr,
    {
        self.local_addr.clone()
    }
}

/// How the last piece of outside work of the accepting loop ended.
pub enum AcceptEvent {
    /// Nothing is pending: the loop starts, or a handler was just spawned.
    Ready,
    /// A connection was accepted from the peer with this address.
    Connected(String),
    /// Accepting failed.
    Failed,
}

/// An [`AcceptEvent`] as plain values.
pub enum AcceptEventView {
    Ready,
    Connected(Seq<char>),
    Failed,
}

impl View for AcceptEvent {
    type V = AcceptEventView;

    open spec fn view(&self) -> AcceptEventView {
        match *self {
            AcceptEvent::Ready => AcceptEventView::Ready,
            AcceptEvent::Connected(peer) => AcceptEventView::Connected(peer@),
            AcceptEvent::Failed => AcceptEventView::Failed,
        }
    }
}

/// What the accepting loop is to do next.
pub enum AcceptAction {
    /// Block until the next connection comes in.
    Accept,
    /// Run this loop on a new thread, over the connection that was accepted.
    Serve(ConnectionLoop),
    /// Leave the loop: the server shuts down.
    Stop,
}

/// An [`AcceptAction`] as plain values.
pub enum AcceptActionView {
    Accept,
    Serve(ConnectionLoopView),
    Stop,
}

impl View for AcceptAction {
    type V = AcceptActionView;

    open spec fn view(&self) -> AcceptActionView {
        match *self {
            AcceptAction::Accept => AcceptActionView::Accept,
            AcceptAction::Serve(connection) => AcceptActionView::Serve(connection@),
            AcceptAction::Stop => AcceptActionView::Stop,
        }
    }
}

/// The accepting loop as plain values.
pub struct AcceptLoopView {
    /// The size of the buffer that each new connection is given.
    pub read_buf_size: usize,
    /// What the loop's token knows of the flag.
    pub token: TokenView,
}

impl AcceptLoopView {
    /// The loop after `event`, where a poll read the flag as `loaded`. Only a
    /// failure to accept triggers cancellation, and it does so once.
    pub open spec fn next(self, event: AcceptEventView, loaded: bool) -> AcceptLoopView {
        AcceptLoopView {
            read_buf_size: self.read_buf_size,
            token: match event {
                AcceptEventView::Ready => self.token.poll(loaded),
                AcceptEventView::Connected(_) => self.token,
                AcceptEventView::Failed => self.token.cancel(),
            },
        }
    }

    /// What the loop does on `event`, where a poll read the flag as `loaded`.
    /// The flag is polled at the head of the loop only: a connection that was
    /// accepted is served.
    pub open spec fn action(self, event: AcceptEventView, loaded: bool) -> AcceptActionView {
        match event {
            AcceptEventView::Ready => if self.token.poll(loaded).cancelled {
                AcceptActionView::Stop
            } else {
                AcceptActionView::Accept
            },
            AcceptEventView::Connected(peer) => AcceptActionView::Serve(
                ConnectionLoopView { peer, read_buf_size: self.read_buf_size, token: self.token },
            ),
            AcceptEventView::Failed => AcceptActionView::Stop,
        }
    }
}

impl AcceptLoopView {
    /// The loop after the first `n` events of a run, where the polls read the
    /// flag as `loads` says, event by event.
    pub open spec fn after(self, events: Seq<AcceptEventView>, loads: Seq<bool>, n: int)
        -> AcceptLoopView
        decreases n,
    {
        if n <= 0 {
            self
        } else {
            self.after(events, loads, n - 1).next(events[n - 1], loads[n - 1])
        }
    }

    /// What the loop does on event `n` of a run.
    pub open spec fn action_at(self, events: Seq<AcceptEventView>, loads: Seq<bool>, n: int)
        -> AcceptActionView {
        self.after(events, loads, n).action(events[n], loads[n])
    }
}

/// The loop that accepts connections until the flag is set.
pub struct AcceptLoop {
    read_buf_size: usize,
    token: CancellationToken,
}

impl View for AcceptLoop {
    type V = AcceptLoopView;

    closed spec fn view(&self) -> AcceptLoopView {
        AcceptLoopView { read_buf_size: self.read_buf_size, token: self.token@ }
    }
}

impl AcceptLoop {
    /// The loop's token.
    pub closed spec fn handle(&self) -> CancellationToken {
        self.token
    }

    /// Decides what follows `event`, given the value `loaded` that a poll reads
    /// from the flag.
    pub fn step_with(&mut self, event: AcceptEvent, loaded: bool) -> (action: AcceptAction)
        ensures
            final(self)@ == old(self)@.next(event@, loaded),
            action@ == old(self)@.action(event@, loaded),
            final(self).handle().same_flag(&old(self).handle()),
            action matches AcceptAction::Serve(connection) ==> connection.handle().same_flag(
                &old(self).handle(),
            ),
    {
        match event {
            AcceptEvent::Ready => {
                if self.token.observe(loaded) {
                    AcceptAction::Stop
                } else {
                    AcceptAction::Accept
                }
            },
            AcceptEvent::Connected(peer) => AcceptAction::Serve(
                ConnectionLoop {
                    peer,
                    read_buf_size: self.read_buf_size,
                    token: self.token.clone(),
                },
            ),
            AcceptEvent::Failed => {
                self.token.cancel();
                AcceptAction::Stop
            },
        }
    }

    /// Decides what follows `event`, polling the flag where the loop is at its
    /// head. Whatever the poll reads, the step is the one that
    /// [`AcceptLoopView::next`] and [`AcceptLoopView::action`] give for what the
    /// loop's token knows afterwards; a loop whose token knew of the
    /// cancellation before stops.
    pub fn step(&mut self, event: AcceptEvent) -> (action: AcceptAction)
        ensures
            final(self)@ == old(self)@.next(event@, final(self)@.token.cancelled),
            action@ == old(self)@.action(event@, final(self)@.token.cancelled),
            final(self).handle().same_flag(&old(self).handle()),
            action matches AcceptAction::Serve(connection) ==> connection.handle().same_flag(
                &old(self).handle(),
            ),
    {
        let loaded = match event {
            AcceptEvent::Ready => self.token.is_cancelled(),
            _ => false,
        };
        self.step_with(event, loaded)
    }
}

/// How the last piece of outside work on a connection ended.
#[derive(Clone, Copy, Debug, PartialEq, Eq, Structural)]
pub enum ConnectionEvent {
    /// The framed reader and writer stand; nothing was read yet.
    Opened,
    /// A request was read and decoded.
    Request,
    /// The peer closed the stream in good order.
    EndOfStream,
    /// Reading or decoding a request failed.
    ReadFailed,
    /// The response was written.
    Sent,
    /// Writing the response failed.
    SendFailed,
}

/// Why a connection's loop ended.
#[derive(Clone, Copy, Debug, PartialEq, Eq, Structural)]
pub enum CloseReason {
    /// The flag was set.
    Cancelled,
    /// The peer closed the stream.
    PeerClosed,
    /// A request could not be read.
    ReadFailed,
    /// A response could not be written.
    SendFailed,
}

/// What a connection's loop is to do next.
#[derive(Clone, Copy, Debug, PartialEq, Eq, Structural)]
pub enum ConnectionAction {
    /// Pull the next framed request from the stream.
    Read,
    /// Hand the request to the application, together with a token, and write
    /// the response that comes back.
    Respond,
    /// Leave the loop and let the thread end.
    Close(CloseReason),
}

/// A connection's loop as plain values.
pub struct ConnectionLoopView {
    /// The address of the peer.
    pub peer: Seq<char>,
    /// The size of the buffer into which the connection reads.
    pub read_buf_size: usize,
    /// What the loop's token knows of the flag.
    pub token: TokenView,
}

impl ConnectionLoopView {
    /// The event finds the loop at its head, where the flag is polled.
    pub open spec fn polls(event: ConnectionEvent) -> bool {
        event is Opened || event is Sent
    }

    /// The loop after `event`, where a poll read the flag as `loaded`. No event
    /// on a connection triggers cancellation.
    pub open spec fn next(self, event: ConnectionEvent, loaded: bool) -> ConnectionLoopView {
        ConnectionLoopView {
            peer: self.peer,
            read_buf_size: self.read_buf_size,
            token: if Self::polls(event) {
                self.token.poll(loaded)
            } else {
                self.token
            },
        }
    }

    /// What the loop does on `event`, where a poll read the flag as `loaded`.
    pub open spec fn action(self, event: ConnectionEvent, loaded: bool) -> ConnectionAction {
        match event {
            ConnectionEvent::Opened | ConnectionEvent::Sent => if self.token.poll(
                loaded,
            ).cancelled {
                ConnectionAction::Close(CloseReason::Cancelled)
            } else {
                ConnectionAction::Read
            },
            ConnectionEvent::Request => ConnectionAction::Respond,
            ConnectionEvent::EndOfStream => ConnectionAction::Close(CloseReason::PeerClosed),
            ConnectionEvent::ReadFailed => ConnectionAction::Close(CloseReason::ReadFailed),
            ConnectionEvent::SendFailed => ConnectionAction::Close(CloseReason::SendFailed),
        }
    }
}

impl ConnectionLoopView {
    /// The loop after the first `n` events of a run, where the polls read the
    /// flag as `loads` says, event by event.
    pub open spec fn after(self, events: Seq<ConnectionEvent>, loads: Seq<bool>, n: int)
        -> ConnectionLoopView
        decreases n,
    {
        if n <= 0 {
            self
        } else {
            self.after(events, loads, n - 1).next(events[n - 1], loads[n - 1])
        }
    }

    /// What the loop does on event `n` of a run.
    pub open spec fn action_at(self, events: Seq<ConnectionEvent>, loads: Seq<bool>, n: int)
        -> ConnectionAction {
        self.after(events, loads, n).action(events[n], loads[n])
    }
}

/// What a connection reports while its peer sends `requests` requests, each
/// of which is answered, and then closes the stream.
pub open spec fn served_stream(requests: nat) -> Seq<ConnectionEvent> {
    Seq::new(
        2 * requests + 2,
        |i: int|
            if i == 0 {
                ConnectionEvent::Opened
            } else if i == 2 * requests + 1 {
                ConnectionEvent::EndOfStream
            } else if i % 2 == 1 {
                ConnectionEvent::Request
            } else {
                ConnectionEvent::Sent
            },
    )
}

/// The loop that serves one accepted connection: read a request, respond, and
/// poll the flag in between.
pub struct ConnectionLoop {
    peer: String,
    read_buf_size: usize,
    token: CancellationToken,
}

impl View for ConnectionLoop {
    type V = ConnectionLoopView;

    closed spec fn view(&self) -> ConnectionLoopView {
        ConnectionLoopView {
            peer: self.peer@,
            read_buf_size: self.read_buf_size,
            token: self.token@,
        }
    }
}

impl ConnectionLoop {
    /// The loop's token.
    pub closed spec fn handle(&self) -> CancellationToken {
        self.token
    }

    /// The address of the peer.
    pub fn peer(&self) -> (peer: &str)
        ensures
            peer@ == self@.peer,
    {
        self.peer.as_str()
    }

    /// The size of the buffer into which the connection is to read.
    pub fn read_buf_size(&self) -> (read_buf_size: usize)
        ensures
            read_buf_size == self@.read_buf_size,
    {
        self.read_buf_size
    }

    /// A token to hand to the application with a request, so that a long
    /// operation can poll the flag on its way.
    pub fn token(&self) -> (token: CancellationToken)
        ensures
            token@ == self@.token,
            token.same_flag(&self.handle()),
    {
        self.token.clone()
    }

    /// Decides what follows `event`, given the value `loaded` that a poll reads
    /// from the flag.
    pub fn step_with(&mut self, event: ConnectionEvent, loaded: bool) -> (action: ConnectionAction)
        ensures
            final(self)@ == old(self)@.next(event, loaded),
            action == old(self)@.action(event, loaded),
            final(self).handle().same_flag(&old(self).handle()),
    {
        match event {
            ConnectionEvent::Opened | ConnectionEvent::Sent => {
                if self.token.observe(loaded) {
                    ConnectionAction::Close(CloseReason::Cancelled)
                } else {
                    ConnectionAction::Read
                }
            },
            ConnectionEvent::Request => ConnectionAction::Respond,
            ConnectionEvent::EndOfStream => ConnectionAction::Close(CloseReason::PeerClosed),
            ConnectionEvent::ReadFailed => ConnectionAction::Close(CloseReason::ReadFailed),
            ConnectionEvent::SendFailed => ConnectionAction::Close(CloseReason::SendFailed),
        }
    }

    /// Decides what follows `event`, polling the flag where the loop is at its
    /// head. Whatever the poll reads, the step is the one that
    /// [`ConnectionLoopView::next`] and [`ConnectionLoopView::action`] give for
    /// what the loop's token knows afterwards.
    pub fn step(&mut self, event: ConnectionEvent) -> (action: ConnectionAction)
        ensures
            final(self)@ == old(self)@.next(event, final(self)@.token.cancelled),
            action == old(self)@.action(event, final(self)@.token.cancelled),
            final(self).handle().same_flag(&old(self).handle()),
    {
        let loaded = match event {
            ConnectionEvent::Opened | ConnectionEvent::Sent => self.token.is_cancelled(),
            _ => false,
        };
        self.step_with(event, loaded)
    }
}

/// What the supervisor is to do next.
#[derive(Clone, Copy, Debug, PartialEq, Eq, Structural)]
pub enum SupervisorAction {
    /// Sleep for this many milliseconds, then ask again.
    Sleep(u64),
    /// Return from listening, with success.
    Return,
}

/// The supervisor as plain values.
pub struct SupervisorView {
    /// What the supervisor's token knows of the flag.
    pub token: TokenView,
}

impl SupervisorView {
    /// The supervisor after a poll that read the flag as `loaded`.
    pub open spec fn next(self, loaded: bool) -> SupervisorView {
        SupervisorView { token: self.token.poll(loaded) }
    }

    /// What the supervisor does after a poll that read the flag as `loaded`.
    pub open spec fn action(self, loaded: bool) -> SupervisorAction {
        if self.token.poll(loaded).cancelled {
            SupervisorAction::Return
        } else {
            SupervisorAction::Sleep(SUPERVISOR_POLL_MILLIS)
        }
    }
}

/// Keeps the thread that called `listen` until the flag is set by anyone. It
/// neither waits for the connections to end nor joins their threads.
pub struct Supervisor {
    token: CancellationToken,
}

impl View for Supervisor {
    type V = SupervisorView;

    closed spec fn view(&self) -> SupervisorView {
        SupervisorView { token: self.token@ }
    }
}

impl Supervisor {
    /// The supervisor's token.
    pub closed spec fn handle(&self) -> CancellationToken {
        self.token
    }

    /// Decides between sleeping and returning, given the value `loaded` that
    /// the poll reads from the flag.
    pub fn step_with(&mut self, loaded: bool) -> (action: SupervisorAction)
        ensures
            final(self)@ == old(self)@.next(loaded),
            action == old(self)@.action(loaded),
            final(self).handle().same_flag(&old(self).handle()),
    {
        if self.token.observe(loaded) {
            SupervisorAction::Return
        } else {
            SupervisorAction::Sleep(SUPERVISOR_POLL_MILLIS)
        }
    }

    /// Polls the flag and decides between sleeping and returning. Whatever the
    /// poll reads, the step is the one that [`SupervisorView::next`] and
    /// [`SupervisorView::action`] give for what the token knows afterwards.
    pub fn step(&mut self) -> (action: SupervisorAction)
        ensures
            final(self)@ == old(self)@.next(final(self)@.token.cancelled),
            action == old(self)@.action(final(self)@.token.cancelled),
            final(self).handle().same_flag(&old(self).handle()),
    {
        let loaded = self.token.is_cancelled();
        self.step_with(loaded)
    }
}

/// A request gets one response, and a fault on a connection stays on that
/// connection. A request is answered by exactly one action, `Respond`, after
/// which the loop reads again unless the flag was set. A request that cannot be
/// read, a response that cannot be written and a stream that the peer closed
/// each close the connection on which they occur, for that reason, and trigger
/// nothing: the loop's token is left as it was, so another connection, which
/// sees the flag as before, goes on reading and responding.
pub proof fn lemma_connection_faults_stay_local(
    faulty: ConnectionLoopView,
    other: ConnectionLoopView,
    event: ConnectionEvent,
    loaded: bool,
)
    ensures
        faulty.action(ConnectionEvent::Request, loaded) == ConnectionAction::Respond,
        faulty.action(ConnectionEvent::ReadFailed, loaded) == ConnectionAction::Close(
            CloseReason::ReadFailed,
        ),
        faulty.action(ConnectionEvent::SendFailed, loaded) == ConnectionAction::Close(
            CloseReason::SendFailed,
        ),
        faulty.action(ConnectionEvent::EndOfStream, loaded) == ConnectionAction::Close(
            CloseReason::PeerClosed,
        ),
        faulty.action(event, loaded) == ConnectionAction::Respond <==> event is Request,
        faulty.action(event, loaded) == ConnectionAction::Close(CloseReason::Cancelled)
            <==> ConnectionLoopView::polls(event) && faulty.token.poll(loaded).cancelled,
        !ConnectionLoopView::polls(event) ==> faulty.next(event, loaded) == faulty,
        faulty.next(event, loaded).token.triggers == faulty.token.triggers,
        !other.token.cancelled ==> other.action(ConnectionEvent::Sent, false)
            == ConnectionAction::Read,
        !other.token.cancelled ==> other.action(ConnectionEvent::Opened, false)
            == ConnectionAction::Read,
        other.action(ConnectionEvent::Request, loaded) == ConnectionAction::Respond,
{
}

/// Once the flag is set, every loop that polls it stops at its next poll: a
/// connection closes in place of reading the next request, the accepting loop
/// stops in place of accepting, and the supervisor returns in place of
/// sleeping. A loop whose token knows of the cancellation never reads or
/// accepts again, whatever its later polls read. The supervisor never sleeps
/// for longer than its interval, so it returns within one interval of seeing
/// the flag.
pub proof fn lemma_cancellation_stops_every_loop(
    accept: AcceptLoopView,
    supervisor: SupervisorView,
    first: ConnectionLoopView,
    second: ConnectionLoopView,
    event: ConnectionEvent,
    accepted: AcceptEventView,
    loaded: bool,
)
    ensures
        accept.action(AcceptEventView::Ready, true) == AcceptActionView::Stop,
        accept.action(accepted, true) != AcceptActionView::Accept,
        supervisor.action(true) == SupervisorAction::Return,
        ConnectionLoopView::polls(event) ==> first.action(event, true) == ConnectionAction::Close(
            CloseReason::Cancelled,
        ),
        ConnectionLoopView::polls(event) ==> second.action(event, true) == ConnectionAction::Close(
            CloseReason::Cancelled,
        ),
        first.action(event, true) != ConnectionAction::Read,
        second.action(event, true) != ConnectionAction::Read,
        first.token.cancelled ==> first.action(event, loaded) != ConnectionAction::Read,
        accept.token.cancelled ==> accept.action(AcceptEventView::Ready, loaded)
            == AcceptActionView::Stop,
        supervisor.token.cancelled ==> supervisor.action(loaded) == SupervisorAction::Return,
        supervisor.action(loaded) == SupervisorAction::Return || supervisor.action(loaded)
            == SupervisorAction::Sleep(SUPERVISOR_POLL_MILLIS),
        first.next(event, true).token.cancelled == (first.token.cancelled
            || ConnectionLoopView::polls(event)),
        accept.next(AcceptEventView::Ready, true).token.cancelled,
        supervisor.next(true).token.cancelled,
{
}

/// A failure to accept shuts the server down, connections or none. The
/// accepting loop triggers cancellation exactly once and stops. In the family
/// of the loop's token and the supervisor's, that trigger is the call that
/// sets the flag, and the supervisor returns at its next poll that reads the
/// flag as it then stands.
pub proof fn lemma_accept_failure_ends_listening(
    accept: AcceptLoopView,
    supervisor: SupervisorView,
    flag: bool,
    loaded: bool,
)
    ensures
        accept.action(AcceptEventView::Failed, loaded) == AcceptActionView::Stop,
        accept.next(AcceptEventView::Failed, loaded).token == accept.token.cancel(),
        accept.next(AcceptEventView::Failed, loaded).token.triggers == accept.token.triggers + 1,
        accept.next(AcceptEventView::Failed, loaded).action(AcceptEventView::Ready, loaded)
            == AcceptActionView::Stop,
        ({
            let family = FamilyView { flag, tokens: seq![accept.token, supervisor.token] };
            let after = family.step(FlagOp::Cancel(0));
            &&& after.flag
            &&& after.tokens[0] == accept.next(AcceptEventView::Failed, loaded).token
            &&& after.tokens[1] == supervisor.token
            &&& supervisor.action(after.flag) == SupervisorAction::Return
        }),
{
}

/// While the flag stays unset, a connection answers every request exactly
/// once, however many come and whatever else happens on the stream: on each
/// event of a run the loop is as it was made, it responds on a request and on
/// nothing else, reads at its head, and closes only on a fault or at the end
/// of the stream.
pub proof fn lemma_each_request_gets_one_response(
    connection: ConnectionLoopView,
    events: Seq<ConnectionEvent>,
    loads: Seq<bool>,
    n: int,
)
    requires
        !connection.token.cancelled,
        events.len() == loads.len(),
        0 <= n < events.len(),
        forall|i: int| 0 <= i <= n ==> !loads[i],
    ensures
        connection.after(events, loads, n) == connection,
        connection.after(events, loads, n + 1) == connection,
        connection.action_at(events, loads, n) == connection.action(events[n], false),
        connection.action_at(events, loads, n) == ConnectionAction::Respond
            <==> events[n] is Request,
        connection.action_at(events, loads, n) == ConnectionAction::Read
            <==> ConnectionLoopView::polls(events[n]),
        connection.action_at(events, loads, n) != ConnectionAction::Close(CloseReason::Cancelled),
    decreases n,
{
    if n > 0 {
        lemma_each_request_gets_one_response(connection, events, loads, n - 1);
    }
}

/// A peer that sends `requests` requests and then closes the stream is served
/// in order, while the flag stays unset: the loop reads first, responds on
/// every request and reads again after every response, so that it responds
/// `requests` times, once for each request and before the next is read, and it
/// closes when the stream ends.
pub proof fn lemma_stream_of_requests_is_served(
    connection: ConnectionLoopView,
    requests: nat,
    loads: Seq<bool>,
    n: int,
)
    requires
        !connection.token.cancelled,
        loads.len() == 2 * requests + 2,
        forall|i: int| 0 <= i < loads.len() ==> !loads[i],
        0 <= n < 2 * requests + 2,
    ensures
        connection.action_at(served_stream(requests), loads, n) == if n == 2 * requests + 1 {
            ConnectionAction::Close(CloseReason::PeerClosed)
        } else if n % 2 == 1 {
            ConnectionAction::Respond
        } else {
            ConnectionAction::Read
        },
        connection.after(served_stream(requests), loads, n + 1) == connection,
{
    lemma_each_request_gets_one_response(connection, served_stream(requests), loads, n);
}

/// However many connections were accepted before, the first failure to accept
/// ends the accepting. While the flag stays unset and accepting succeeds, the
/// loop is as it was made: it accepts at its head and serves each connection
/// that comes, once, with the loop's buffer size and what its token knows. On
/// the failure it stops, with one trigger more than it began with.
pub proof fn lemma_accepting_until_the_first_failure(
    accept: AcceptLoopView,
    events: Seq<AcceptEventView>,
    loads: Seq<bool>,
    failure: int,
    n: int,
)
    requires
        !accept.token.cancelled,
        events.len() == loads.len(),
        0 <= n <= failure < events.len(),
        forall|i: int| 0 <= i <= failure ==> !loads[i],
        forall|i: int| 0 <= i < failure ==> !(events[i] is Failed),
        events[failure] is Failed,
    ensures
        accept.after(events, loads, n) == accept,
        accept.action_at(events, loads, n) == accept.action(events[n], false),
        events[n] is Ready ==> accept.action_at(events, loads, n) == AcceptActionView::Accept,
        events[n] matches AcceptEventView::Connected(peer) ==> accept.action_at(events, loads, n)
            == AcceptActionView::Serve(
            ConnectionLoopView { peer, read_buf_size: accept.read_buf_size, token: accept.token },
        ),
        accept.action_at(events, loads, n) == AcceptActionView::Stop <==> n == failure,
        n == failure ==> accept.after(events, loads, n + 1).token == accept.token.cancel(),
    decreases n,
{
    if n > 0 {
        lemma_accepting_until_the_first_failure(accept, events, loads, failure, n - 1);
    }
}

/// After a failure to accept the loop never accepts again, whatever its polls
/// read and whatever it is told: its token knows of the cancellation for good,
/// and at its head the loop stops.
pub proof fn lemma_no_accepting_after_a_failure(
    accept: AcceptLoopView,
    events: Seq<AcceptEventView>,
    loads: Seq<bool>,
    failure: int,
    n: int,
)
    requires
        events.len() == loads.len(),
        0 <= failure < n < events.len(),
        events[failure] is Failed,
    ensures
        accept.after(events, loads, n).token.cancelled,
        accept.after(events, loads, n).token.triggers > accept.after(
            events,
            loads,
            failure,
        ).token.triggers,
        accept.action_at(events, loads, n) != AcceptActionView::Accept,
        events[n] is Ready ==> accept.action_at(events, loads, n) == AcceptActionView::Stop,
    decreases n,
{
    if n > failure + 1 {
        lemma_no_accepting_after_a_failure(accept, events, loads, failure, n - 1);
    }
}

} // verus!
