//! One client connection: its object table, and what it answers.
//!
//! Nothing here reads or writes a stream. `Client::handle_input` is told what
//! the last read brought and says what to do next; `Client::handle_message`
//! is the dispatch of one framed request.

use crate::byte_order::ByteOrder;
use crate::codec::{body_len, body_len_of, decode_header, header_of, HEADER_LEN};
use crate::error::ConnectionError;
use crate::protocol::{
    done_event, done_event_bytes, global_event, Global, Interface, DISPLAY_ID,
    WL_DISPLAY_GET_REGISTRY, WL_DISPLAY_SYNC, WL_REGISTRY_BIND,
};
use std::collections::HashMap;
use vstd::prelude::*;

verus! {

/// What a connection is waiting for.
#[derive(Clone, Copy, Debug, PartialEq, Eq, Structural)]
pub enum Phase {
    /// The eight bytes of the next header.
    AwaitingHeader,
    /// The `len` bytes of the body of a message for `object_id`.
    AwaitingBody { object_id: u32, opcode: u16, len: usize },
    /// Nothing: the connection is over.
    Closed,
}

/// The requests that the dispatch tells apart.
#[derive(Clone, Copy, Debug, PartialEq, Eq, Structural)]
pub enum Request {
    /// `wl_display.sync`
    Sync,
    /// `wl_display.get_registry`
    GetRegistry,
    /// `wl_registry.bind`, on an object that is a registry
    Bind,
    /// Anything else. It is ignored.
    Unknown,
}

/// What a read on the stream brought.
#[derive(Clone, Debug, PartialEq, Eq)]
pub enum Input {
    /// All the bytes that the connection was waiting for.
    Bytes(Vec<u8>),
    /// The stream ended after `received` bytes, fewer than were waited for.
    Eof { received: usize },
    /// The stream failed, on this read or on the write before it.
    Failure,
}

/// A request that was dispatched, and the events that answer it.
#[derive(Clone, Debug, PartialEq, Eq)]
pub struct Handled {
    /// The object that the request was addressed to.
    pub object_id: u32,
    /// The opcode of the request.
    pub opcode: u16,
    /// Which request the dispatch took it for.
    pub request: Request,
    /// The events to write, each framed, in the order in which to write them.
    pub events: Vec<Vec<u8>>,
}

/// What to do after an input.
#[derive(Clone, Debug, PartialEq, Eq)]
pub enum Action {
    /// A header was taken: read the `len` bytes of its body.
    ReadBody { len: usize },
    /// A request was dispatched: write its events, then read the next header.
    Respond(Handled),
    /// The client hung up between two messages: stop, without an error.
    Disconnected,
    /// The connection is given up for this reason.
    Failed(ConnectionError),
}

/// `Handled` with the events as sequences of bytes.
pub ghost struct HandledView {
    pub object_id: u32,
    pub opcode: u16,
    pub request: Request,
    pub events: Seq<Seq<u8>>,
}

/// `Action` with the events as sequences of bytes.
pub ghost enum ActionView {
    ReadBody { len: usize },
    Respond(HandledView),
    Disconnected,
    Failed(ConnectionError),
}

/// What a `Client` holds.
pub ghost struct ClientState {
    /// The interface of every object that the connection knows.
    pub objects: Map<u32, Interface>,
    /// One past the id of the registry that was created last.
    pub next_id: u32,
    /// The byte order of the words on the wire.
    pub order: ByteOrder,
    /// What the connection is waiting for.
    pub phase: Phase,
}

/// The byte sequences that `events` holds.
pub open spec fn views(events: Seq<Vec<u8>>) -> Seq<Seq<u8>> {
    Seq::new(events.len(), |i: int| events[i]@)
}

impl View for Handled {
    type V = HandledView;

    open spec fn view(&self) -> HandledView {
        HandledView {
            object_id: self.object_id,
            opcode: self.opcode,
            request: self.request,
            events: views(self.events@),
        }
    }
}

impl View for Action {
    type V = ActionView;

    open spec fn view(&self) -> ActionView {
        match self {
            Action::ReadBody { len } => ActionView::ReadBody { len: *len },
            Action::Respond(handled) => ActionView::Respond(handled@),
            Action::Disconnected => ActionView::Disconnected,
            Action::Failed(error) => ActionView::Failed(*error),
        }
    }
}

/// The state in which every connection starts: the display is object 1.
pub open spec fn initial(order: ByteOrder) -> ClientState {
    ClientState {
        objects: map![DISPLAY_ID => Interface::Display],
        next_id: 2,
        order,
        phase: Phase::AwaitingHeader,
    }
}

/// Which request a message for `object_id` with `opcode` is. The display's
/// two requests come first, whatever the table holds under the display's id.
pub open spec fn classify(objects: Map<u32, Interface>, object_id: u32, opcode: u16) -> Request {
    if object_id == DISPLAY_ID && opcode == WL_DISPLAY_SYNC {
        Request::Sync
    } else if object_id == DISPLAY_ID && opcode == WL_DISPLAY_GET_REGISTRY {
        Request::GetRegistry
    } else if opcode == WL_REGISTRY_BIND && objects.contains_key(object_id) && objects[object_id]
        == Interface::Registry {
        Request::Bind
    } else {
        Request::Unknown
    }
}

/// The id after `id`, which is 0 after the largest one.
pub open spec fn id_after(id: u32) -> u32 {
    if id == u32::MAX {
        0
    } else {
        (id + 1) as u32
    }
}

/// The three `wl_registry.global` events that answer `get_registry`.
pub open spec fn registry_events(order: ByteOrder, registry_id: u32) -> Seq<Seq<u8>> {
    Seq::new(3, |i: int| Global::advertised()[i].event(order, registry_id))
}

/// What one message does to a connection in state `s`: the state after it
/// and the events that answer it, or the error that ends the connection.
/// The phase plays no part and stays as it is.
pub open spec fn dispatch(s: ClientState, object_id: u32, opcode: u16, body: Seq<u8>) -> Result<
    (ClientState, HandledView),
    ConnectionError,
> {
    let request = classify(s.objects, object_id, opcode);
    let new_id = s.order.word_at(body);
    match request {
        Request::Sync => if body.len() < 4 {
            Err(ConnectionError::MissingNewId)
        } else {
            Ok(
                (
                    ClientState { objects: s.objects.insert(new_id, Interface::Callback), ..s },
                    HandledView {
                        object_id,
                        opcode,
                        request,
                        events: seq![done_event_bytes(s.order, new_id)],
                    },
                ),
            )
        },
        Request::GetRegistry => if body.len() < 4 {
            Err(ConnectionError::MissingNewId)
        } else {
            Ok(
                (
                    ClientState {
                        objects: s.objects.insert(new_id, Interface::Registry),
                        next_id: id_after(new_id),
                        ..s
                    },
                    HandledView {
                        object_id,
                        opcode,
                        request,
                        events: registry_events(s.order, new_id),
                    },
                ),
            )
        },
        Request::Bind | Request::Unknown => Ok(
            (s, HandledView { object_id, opcode, request, events: Seq::empty() }),
        ),
    }
}

/// Number of bytes that a connection in this phase waits for.
pub open spec fn wanted_in(phase: Phase) -> usize {
    match phase {
        Phase::AwaitingHeader => HEADER_LEN,
        Phase::AwaitingBody { len, .. } => len,
        Phase::Closed => 0,
    }
}

/// `s`, closed.
pub open spec fn closed(s: ClientState) -> ClientState {
    ClientState { phase: Phase::Closed, ..s }
}

/// The connection's state machine: the state after `input` and what to do.
///
/// A closed connection stays closed. An end of stream is a clean disconnect
/// only where not one byte of a header had arrived; a failure, a header whose
/// size is under 8 and a request without its argument close the connection
/// with an error. Everything else keeps it open.
pub open spec fn step(s: ClientState, input: Input) -> (ClientState, ActionView) {
    match s.phase {
        Phase::Closed => (s, ActionView::Failed(ConnectionError::Closed)),
        Phase::AwaitingHeader => match input {
            Input::Failure => (closed(s), ActionView::Failed(ConnectionError::Io)),
            Input::Eof { received } => if received == 0 {
                (closed(s), ActionView::Disconnected)
            } else {
                (closed(s), ActionView::Failed(ConnectionError::TruncatedHeader))
            },
            Input::Bytes(bytes) => {
                let header = header_of(s.order, bytes@);
                match body_len_of(header.size) {
                    Err(error) => (closed(s), ActionView::Failed(error)),
                    Ok(len) => (
                        ClientState {
                            phase: Phase::AwaitingBody {
                                object_id: header.object_id,
                                opcode: header.opcode,
                                len,
                            },
                            ..s
                        },
                        ActionView::ReadBody { len },
                    ),
                }
            },
        },
        Phase::AwaitingBody { object_id, opcode, len } => match input {
            Input::Failure => (closed(s), ActionView::Failed(ConnectionError::Io)),
            Input::Eof { received } => (closed(s), ActionView::Failed(ConnectionError::TruncatedBody)),
            Input::Bytes(bytes) => match dispatch(s, object_id, opcode, bytes@) {
                Err(error) => (closed(s), ActionView::Failed(error)),
                Ok((after, handled)) => (
                    ClientState { phase: Phase::AwaitingHeader, ..after },
                    ActionView::Respond(handled),
                ),
            },
        },
    }
}

/// The connection after `sync` requests with these bodies, one after the
/// other, and the events that answered them, in order.
pub open spec fn sync_all(s: ClientState, bodies: Seq<Seq<u8>>) -> (ClientState, Seq<Seq<u8>>)
    decreases bodies.len(),
{
    if bodies.len() == 0 {
        (s, Seq::empty())
    } else {
        let (before, events) = sync_all(s, bodies.drop_last());
        match dispatch(before, DISPLAY_ID, WL_DISPLAY_SYNC, bodies.last()) {
            Ok((after, handled)) => (after, events + handled.events),
            Err(_) => (before, events),
        }
    }
}

/// Every `sync` is answered on its own. However many follow one another, and
/// whatever ids they bring, request `i` gets exactly one `wl_callback.done`
/// event, addressed to its own callback, and the events come in the order of
/// the requests. Afterwards the table holds each of the callbacks and, beside
/// them, the ids it held before.
pub proof fn lemma_sync_repeated(s: ClientState, bodies: Seq<Seq<u8>>)
    requires
        forall|i: int| 0 <= i < bodies.len() ==> (#[trigger] bodies[i]).len() >= 4,
    ensures
        ({
            let (after, events) = sync_all(s, bodies);
            &&& events.len() == bodies.len()
            &&& forall|i: int|
                0 <= i < bodies.len() ==> #[trigger] events[i] == done_event_bytes(
                    s.order,
                    s.order.word_at(bodies[i]),
                )
            &&& forall|i: int|
                0 <= i < bodies.len() ==> after.objects.contains_key(
                    s.order.word_at(#[trigger] bodies[i]),
                ) && after.objects[s.order.word_at(bodies[i])] == Interface::Callback
            &&& forall|id: u32|
                #[trigger] after.objects.contains_key(id) <==> s.objects.contains_key(id) || exists|
                    i: int,
                |
                    0 <= i < bodies.len() && s.order.word_at(#[trigger] bodies[i]) == id
            &&& after.next_id == s.next_id
            &&& after.order == s.order
            &&& after.phase == s.phase
        }),
    decreases bodies.len(),
{
    if bodies.len() > 0 {
        let front = bodies.drop_last();
        lemma_sync_repeated(s, front);
        let (before, events) = sync_all(s, front);
        let (after, all) = sync_all(s, bodies);
        let last = s.order.word_at(bodies.last());
        assert(all == events.push(done_event_bytes(s.order, last)));
        assert forall|i: int| 0 <= i < front.len() implies front[i] == bodies[i] by {}
        assert forall|id: u32| #[trigger]
            after.objects.contains_key(id) <==> s.objects.contains_key(id) || exists|i: int|
                0 <= i < bodies.len() && s.order.word_at(#[trigger] bodies[i]) == id by {
            if after.objects.contains_key(id) && id != last && !s.objects.contains_key(id) {
                let i = choose|i: int|
                    0 <= i < front.len() && s.order.word_at(#[trigger] front[i]) == id;
                assert(s.order.word_at(bodies[i]) == id);
            }
        }
    }
}

/// A `bind` is heeded on registries only. Sent to any other object but the
/// display, whose own request has the same opcode, it is an unknown message:
/// nothing is answered and nothing changes.
pub proof fn lemma_bind_needs_registry(s: ClientState, object_id: u32, body: Seq<u8>)
    requires
        object_id != DISPLAY_ID,
        !(s.objects.contains_key(object_id) && s.objects[object_id] == Interface::Registry),
    ensures
        dispatch(s, object_id, WL_REGISTRY_BIND, body) == Ok::<
            (ClientState, HandledView),
            ConnectionError,
        >(
            (
                s,
                HandledView {
                    object_id,
                    opcode: WL_REGISTRY_BIND,
                    request: Request::Unknown,
                    events: Seq::empty(),
                },
            ),
        ),
{
}

/// When the client hangs up while a header is awaited, the connection ends
/// cleanly if not one byte of that header had come, and with an error
/// otherwise.
pub proof fn lemma_hang_up(s: ClientState, received: usize)
    requires
        s.phase == Phase::AwaitingHeader,
    ensures
        step(s, Input::Eof { received }).0 == closed(s),
        received == 0 ==> step(s, Input::Eof { received }).1 == ActionView::Disconnected,
        received != 0 ==> step(s, Input::Eof { received }).1 == ActionView::Failed(
            ConnectionError::TruncatedHeader,
        ),
{
}

/// A closed connection stays closed, whatever comes in.
pub proof fn lemma_closed_is_final(s: ClientState, input: Input)
    requires
        s.phase == Phase::Closed,
    ensures
        step(s, input) == (s, ActionView::Failed(ConnectionError::Closed)),
{
}

/// The state of one client connection.
#[derive(Debug)]
pub struct Client {
    objects: HashMap<u32, Interface>,
    next_id: u32,
    order: ByteOrder,
    phase: Phase,
}

impl View for Client {
    type V = ClientState;

    closed spec fn view(&self) -> ClientState {
        ClientState {
            objects: self.objects@,
            next_id: self.next_id,
            order: self.order,
            phase: self.phase,
        }
    }
}

impl Client {
    /// A connection that has just been accepted, with words in `order`.
    pub fn new(order: ByteOrder) -> (client: Client)
        ensures
            client@ == initial(order),
    {
        let mut objects: HashMap<u32, Interface> = HashMap::new();
        objects.insert(DISPLAY_ID, Interface::Display);
        assert(objects@ =~= map![DISPLAY_ID => Interface::Display]);
        Client { objects, next_id: 2, order, phase: Phase::AwaitingHeader }
    }

    /// The byte order of the connection.
    pub fn order(&self) -> (order: ByteOrder)
        ensures
            order == self@.order,
    {
        self.order
    }

    /// One past the id of the registry that was created last; 2 before that.
    pub fn next_id(&self) -> (id: u32)
        ensures
            id == self@.next_id,
    {
        self.next_id
    }

    /// What the connection is waiting for.
    pub fn phase(&self) -> (phase: Phase)
        ensures
            phase == self@.phase,
    {
        self.phase
    }

    /// Number of bytes that the next `Input::Bytes` has to bring.
    pub fn wanted(&self) -> (len: usize)
        ensures
            len == wanted_in(self@.phase),
    {
        match self.phase {
            Phase::AwaitingHeader => HEADER_LEN,
            Phase::AwaitingBody { len, .. } => len,
            Phase::Closed => 0,
        }
    }

    /// The interface of the object `id`, where the table holds one.
    pub fn interface_of(&self, id: u32) -> (interface: Option<Interface>)
        ensures
            interface == if self@.objects.contains_key(id) {
                Some(self@.objects[id])
            } else {
                None
            },
    {
        match self.objects.get(&id) {
            Some(interface) => Some(*interface),
            None => None,
        }
    }

    /// Number of objects in the table.
    pub fn object_count(&self) -> (count: usize)
        ensures
            count == self@.objects.len(),
    {
        self.objects.len()
    }

    /// Which request a message for `object_id` with `opcode` is.
    pub fn classify(&self, object_id: u32, opcode: u16) -> (request: Request)
        ensures
            request == classify(self@.objects, object_id, opcode),
    {
        if object_id == DISPLAY_ID && opcode == WL_DISPLAY_SYNC {
            Request::Sync
        } else if object_id == DISPLAY_ID && opcode == WL_DISPLAY_GET_REGISTRY {
            Request::GetRegistry
        } else if opcode == WL_REGISTRY_BIND {
            match self.interface_of(object_id) {
                Some(Interface::Registry) => Request::Bind,
                _ => Request::Unknown,
            }
        } else {
            Request::Unknown
        }
    }

    /// Dispatches one request: updates the object table and returns the
    /// events that answer it. On an error nothing changes.
    pub fn handle_message(&mut self, object_id: u32, opcode: u16, body: &[u8]) -> (result: Result<
        Handled,
        ConnectionError,
    >)
        ensures
            match dispatch(old(self)@, object_id, opcode, body@) {
                Ok((after, handled)) => {
                    &&& final(self)@ == after
                    &&& result matches Ok(h)
                    &&& h@ == handled
                },
                Err(error) => final(self)@ == old(self)@ && result == Err::<Handled, ConnectionError>(
                    error,
                ),
            },
    {
        let request: Request = self.classify(object_id, opcode);
        let mut events: Vec<Vec<u8>> = Vec::new();
        match request {
            Request::Sync => {
                let callback_id: u32 = match self.order.read_word(body, 0) {
                    Some(id) => id,
                    None => {
                        return Err(ConnectionError::MissingNewId);
                    },
                };
                self.objects.insert(callback_id, Interface::Callback);
                events.push(done_event(self.order, callback_id));
            },
            Request::GetRegistry => {
                let registry_id: u32 = match self.order.read_word(body, 0) {
                    Some(id) => id,
                    None => {
                        return Err(ConnectionError::MissingNewId);
                    },
                };
                self.objects.insert(registry_id, Interface::Registry);
                self.next_id = if registry_id == u32::MAX {
                    0
                } else {
                    registry_id + 1
                };
                self.send_global_event(registry_id, Global::Compositor, &mut events);
                self.send_global_event(registry_id, Global::WmBase, &mut events);
                self.send_global_event(registry_id, Global::Shm, &mut events);
            },
            Request::Bind => {},
            Request::Unknown => {},
        }
        let handled = Handled { object_id, opcode, request, events };
        assert(handled@.events =~= dispatch(old(self)@, object_id, opcode, body@)->Ok_0.1.events);
        Ok(handled)
    }

    /// Queues the `wl_registry.global` event that advertises `global` on the
    /// registry `registry_id`.
    pub fn send_global_event(&self, registry_id: u32, global: Global, events: &mut Vec<Vec<u8>>)
        ensures
            views(final(events)@) == views(old(events)@).push(global.event(self@.order, registry_id)),
    {
        proof {
            global.lemma_interface_len();
        }
        let event: Vec<u8> = global_event(
            self.order,
            registry_id,
            global.name(),
            global.interface(),
            global.version(),
        );
        events.push(event);
        assert(views(events@) =~= views(old(events)@).push(global.event(self@.order, registry_id)));
    }

    /// Takes what the last read brought and says what to do next.
    pub fn handle_input(&mut self, input: &Input) -> (action: Action)
        requires
            input matches Input::Bytes(bytes) ==> bytes@.len() == wanted_in(old(self)@.phase),
        ensures
            (final(self)@, action@) == step(old(self)@, *input),
    {
        match self.phase {
            Phase::Closed => Action::Failed(ConnectionError::Closed),
            Phase::AwaitingHeader => match input {
                Input::Failure => self.close(Action::Failed(ConnectionError::Io)),
                Input::Eof { received } => if *received == 0 {
                    self.close(Action::Disconnected)
                } else {
                    self.close(Action::Failed(ConnectionError::TruncatedHeader))
                },
                Input::Bytes(bytes) => {
                    let raw: [u8; 8] = [
                        bytes[0],
                        bytes[1],
                        bytes[2],
                        bytes[3],
                        bytes[4],
                        bytes[5],
                        bytes[6],
                        bytes[7],
                    ];
                    assert(raw@ =~= bytes@);
                    let header = decode_header(self.order, &raw);
                    match body_len(header.size) {
                        Err(error) => self.close(Action::Failed(error)),
                        Ok(len) => {
                            self.phase = Phase::AwaitingBody {
                                object_id: header.object_id,
                                opcode: header.opcode,
                                len,
                            };
                            Action::ReadBody { len }
                        },
                    }
                },
            },
            Phase::AwaitingBody { object_id, opcode, len } => match input {
                Input::Failure => self.close(Action::Failed(ConnectionError::Io)),
                Input::Eof { received } => self.close(Action::Failed(ConnectionError::TruncatedBody)),
                Input::Bytes(bytes) => match self.handle_message(object_id, opcode, bytes.as_slice()) {
                    Err(error) => self.close(Action::Failed(error)),
                    Ok(handled) => {
                        self.phase = Phase::AwaitingHeader;
                        Action::Respond(handled)
                    },
                },
            },
        }
    }

    /// Closes the connection and hands `action` on.
    fn close(&mut self, action: Action) -> (same: Action)
        ensures
            final(self)@ == closed(old(self)@),
            same == action,
    {
        self.phase = Phase::Closed;
        action
    }
}

} // verus!
