//! The client driver: one connection and a list of requests, one at a time.
//!
//! The driver connects, negotiates the application protocol, and then walks
//! its list of paths in order. For each path it sends a GET request on a
//! stream of its own, signals that the request has no body, waits for the
//! response head and reads the body chunk by chunk to its end. Only then
//! does it turn to the next path. The first failure aborts the whole run:
//! the client does not shield one request from another.
//!
//! Like the server's state machines the driver performs no I/O. It answers
//! each event with the next action.

use vstd::prelude::*;
use crate::exchange::{
    exchange_run, fresh_exchange, lemma_served_request_is_answered, response_writes, served,
    writes_of, ExchangeActionView,
};
use crate::message::{get_request, ok_text_response, Request, RequestView};
use crate::routes::{
    lemma_standard_body_by_cases, lemma_standard_paths_differ, standard_body, standard_routes,
    RouteTable, HEALTH_BODY, HEALTH_PATH, NOT_FOUND_BODY, ROOT_BODY, ROOT_PATH, TEST_BODY,
    TEST_PATH,
};

verus! {

/// A path the server has no route for, which the client asks for last.
pub const UNKNOWN_PATH: &'static str = "/unknown";

/// The paths the client asks for, in this order.
pub open spec fn fixed_paths() -> Seq<Seq<char>> {
    seq![ROOT_PATH@, TEST_PATH@, HEALTH_PATH@, UNKNOWN_PATH@]
}

/// Where the driver stands.
#[derive(Clone, Copy, Debug, PartialEq, Eq, Structural)]
pub enum ClientPhase {
    /// The connection is being established.
    Connecting,
    /// The application protocol is being negotiated.
    Negotiating,
    /// The request for the current path is being sent.
    Sending,
    /// The end of the request is being signalled.
    Closing,
    /// The response head is awaited.
    AwaitingHead,
    /// The body is being read.
    ReadingBody,
    /// Every path was asked for and answered in full. Terminal.
    Done,
    /// A step failed; the run is over. Terminal.
    Aborted,
}

/// What the outside reports to the driver.
pub enum ClientEvent {
    /// The action handed out last was carried out.
    Completed,
    /// The response head arrived, with this status.
    Head(u16),
    /// A chunk of the body arrived.
    Chunk(Vec<u8>),
    /// The body has ended.
    EndOfBody,
    /// The action handed out last could not be carried out.
    Failed,
}

/// An event as plain values.
pub enum ClientEventView {
    Completed,
    Head(u16),
    Chunk(Seq<u8>),
    EndOfBody,
    Failed,
}

impl View for ClientEvent {
    type V = ClientEventView;

    open spec fn view(&self) -> ClientEventView {
        match self {
            ClientEvent::Completed => ClientEventView::Completed,
            ClientEvent::Head(status) => ClientEventView::Head(*status),
            ClientEvent::Chunk(bytes) => ClientEventView::Chunk(bytes@),
            ClientEvent::EndOfBody => ClientEventView::EndOfBody,
            ClientEvent::Failed => ClientEventView::Failed,
        }
    }
}

/// What the driver asks the outside to do next.
pub enum ClientAction {
    /// Negotiate the application protocol on the connection.
    Negotiate,
    /// Open a stream and send this request on it.
    SendRequest(Request),
    /// Signal that the request has no body.
    FinishRequest,
    /// Wait for the response head.
    ReceiveHead,
    /// Wait for the next chunk of the body, or its end.
    ReceiveData,
    /// Nothing is left to do: every request was answered.
    Complete,
    /// Nothing is left to do: the run failed, and the failure goes to the caller.
    Abort,
}

/// An action as plain values.
pub enum ClientActionView {
    Negotiate,
    SendRequest(RequestView),
    FinishRequest,
    ReceiveHead,
    ReceiveData,
    Complete,
    Abort,
}

impl View for ClientAction {
    type V = ClientActionView;

    open spec fn view(&self) -> ClientActionView {
        match self {
            ClientAction::Negotiate => ClientActionView::Negotiate,
            ClientAction::SendRequest(request) => ClientActionView::SendRequest(request@),
            ClientAction::FinishRequest => ClientActionView::FinishRequest,
            ClientAction::ReceiveHead => ClientActionView::ReceiveHead,
            ClientAction::ReceiveData => ClientActionView::ReceiveData,
            ClientAction::Complete => ClientActionView::Complete,
            ClientAction::Abort => ClientActionView::Abort,
        }
    }
}

/// What came back for one path.
pub struct Fetched {
    pub path: String,
    pub status: u16,
    pub body: Vec<u8>,
}

/// What came back for one path, as plain values.
pub struct FetchedView {
    pub path: Seq<char>,
    pub status: u16,
    pub body: Seq<u8>,
}

impl View for Fetched {
    type V = FetchedView;

    open spec fn view(&self) -> FetchedView {
        FetchedView { path: self.path@, status: self.status, body: self.body@ }
    }
}

/// A list of paths as text.
pub open spec fn paths_view(paths: Seq<String>) -> Seq<Seq<char>> {
    Seq::new(paths.len(), |i: int| paths[i]@)
}

/// A list of answers as plain values.
pub open spec fn fetched_view(responses: Seq<Fetched>) -> Seq<FetchedView> {
    Seq::new(responses.len(), |i: int| responses[i]@)
}

/// The driver as plain values.
pub struct ClientView {
    pub phase: ClientPhase,
    /// The paths to ask for, in order.
    pub paths: Seq<Seq<char>>,
    /// The path of the request that is under way.
    pub current: Seq<char>,
    /// The status of the response that is being read.
    pub status: u16,
    /// The body of the response that is being read, as far as it has arrived.
    pub body: Seq<u8>,
    /// The answers so far, one for each path that was answered in full.
    pub responses: Seq<FetchedView>,
}

/// The driver before anything has happened.
pub open spec fn fresh_client(paths: Seq<Seq<char>>) -> ClientView {
    ClientView {
        phase: ClientPhase::Connecting,
        paths,
        current: Seq::<char>::empty(),
        status: 0,
        body: Seq::<u8>::empty(),
        responses: Seq::<FetchedView>::empty(),
    }
}

/// Whether a phase is terminal.
pub open spec fn client_is_over(phase: ClientPhase) -> bool {
    phase == ClientPhase::Done || phase == ClientPhase::Aborted
}

/// Whether a request is under way in a phase.
pub open spec fn request_under_way(phase: ClientPhase) -> bool {
    phase == ClientPhase::Sending || phase == ClientPhase::Closing || phase
        == ClientPhase::AwaitingHead || phase == ClientPhase::ReadingBody
}

/// The driver after a failure, and the action that goes with it.
pub open spec fn aborted(before: ClientView) -> (ClientView, ClientActionView) {
    (ClientView { phase: ClientPhase::Aborted, ..before }, ClientActionView::Abort)
}

/// The driver when it turns to the next path, the first one that has no
/// answer yet: it sends the request for that path, or is done where every
/// path has its answer.
pub open spec fn turn_to_next(before: ClientView) -> (ClientView, ClientActionView) {
    let index = before.responses.len() as int;
    if index < before.paths.len() {
        (
            ClientView {
                phase: ClientPhase::Sending,
                current: before.paths[index],
                status: 0,
                body: Seq::<u8>::empty(),
                ..before
            },
            ClientActionView::SendRequest(get_request(before.paths[index])),
        )
    } else {
        (
            ClientView {
                phase: ClientPhase::Done,
                current: Seq::<char>::empty(),
                status: 0,
                body: Seq::<u8>::empty(),
                ..before
            },
            ClientActionView::Complete,
        )
    }
}

/// The driver with the response that was being read added to its answers.
pub open spec fn with_answer(before: ClientView) -> ClientView {
    ClientView {
        responses: before.responses.push(
            FetchedView { path: before.current, status: before.status, body: before.body },
        ),
        ..before
    }
}

/// The transition of the driver: the state after `event` and the action to
/// carry out next.
///
/// A failure, or an event that the present phase does not expect, aborts
/// the run. The two terminal phases keep their state under every event.
pub open spec fn client_step(before: ClientView, event: ClientEventView) -> (
    ClientView,
    ClientActionView,
) {
    match (before.phase, event) {
        (ClientPhase::Done, _) => (before, ClientActionView::Complete),
        (ClientPhase::Aborted, _) => (before, ClientActionView::Abort),
        (ClientPhase::Connecting, ClientEventView::Completed) => (
            ClientView { phase: ClientPhase::Negotiating, ..before },
            ClientActionView::Negotiate,
        ),
        (ClientPhase::Negotiating, ClientEventView::Completed) => turn_to_next(before),
        (ClientPhase::Sending, ClientEventView::Completed) => (
            ClientView { phase: ClientPhase::Closing, ..before },
            ClientActionView::FinishRequest,
        ),
        (ClientPhase::Closing, ClientEventView::Completed) => (
            ClientView { phase: ClientPhase::AwaitingHead, ..before },
            ClientActionView::ReceiveHead,
        ),
        (ClientPhase::AwaitingHead, ClientEventView::Head(status)) => (
            ClientView { phase: ClientPhase::ReadingBody, status, ..before },
            ClientActionView::ReceiveData,
        ),
        (ClientPhase::ReadingBody, ClientEventView::Chunk(bytes)) => (
            ClientView { body: before.body + bytes, ..before },
            ClientActionView::ReceiveData,
        ),
        (ClientPhase::ReadingBody, ClientEventView::EndOfBody) => turn_to_next(
            with_answer(before),
        ),
        _ => aborted(before),
    }
}

/// The state after a sequence of events, and the actions handed out on the
/// way, one for each event.
pub open spec fn client_run(start: ClientView, events: Seq<ClientEventView>) -> (
    ClientView,
    Seq<ClientActionView>,
)
    decreases events.len(),
{
    if events.len() == 0 {
        (start, Seq::<ClientActionView>::empty())
    } else {
        let (next, action) = client_step(start, events[0]);
        let (last, actions) = client_run(next, events.drop_first());
        (last, seq![action] + actions)
    }
}

/// The client driver.
pub struct ClientDriver {
    phase: ClientPhase,
    paths: Vec<String>,
    current: String,
    status: u16,
    body: Vec<u8>,
    responses: Vec<Fetched>,
}

impl View for ClientDriver {
    type V = ClientView;

    closed spec fn view(&self) -> ClientView {
        ClientView {
            phase: self.phase,
            paths: paths_view(self.paths@),
            current: self.current@,
            status: self.status,
            body: self.body@,
            responses: fetched_view(self.responses@),
        }
    }
}

impl ClientDriver {
    /// A driver that asks for `paths`, in this order. The first thing to do
    /// for it is to establish the connection.
    pub fn new(paths: Vec<String>) -> (driver: ClientDriver)
        ensures
            driver@ == fresh_client(paths_view(paths@)),
    {
        let driver = ClientDriver {
            phase: ClientPhase::Connecting,
            paths,
            current: String::new(),
            status: 0,
            body: Vec::new(),
            responses: Vec::new(),
        };
        assert(driver@.responses =~= Seq::<FetchedView>::empty());
        driver
    }

    /// A driver that asks for the greeting, the test and the health route
    /// and for a path without a route, in this order.
    pub fn standard() -> (driver: ClientDriver)
        ensures
            driver@ == fresh_client(fixed_paths()),
    {
        let mut paths: Vec<String> = Vec::new();
        paths.push(ROOT_PATH.to_owned());
        paths.push(TEST_PATH.to_owned());
        paths.push(HEALTH_PATH.to_owned());
        paths.push(UNKNOWN_PATH.to_owned());
        assert(paths_view(paths@) =~= fixed_paths());
        ClientDriver::new(paths)
    }

    /// Where the driver stands.
    pub fn phase(&self) -> (phase: ClientPhase)
        ensures
            phase == self@.phase,
    {
        self.phase
    }

    /// Whether the run is over, for better or worse.
    pub fn is_over(&self) -> (over: bool)
        ensures
            over == client_is_over(self@.phase),
    {
        match self.phase {
            ClientPhase::Done => true,
            ClientPhase::Aborted => true,
            _ => false,
        }
    }

    /// The answers so far, one for each path that was answered in full, in
    /// the order in which they were completed.
    pub fn responses(&self) -> (responses: &Vec<Fetched>)
        ensures
            fetched_view(responses@) == self@.responses,
    {
        &self.responses
    }

    /// Takes the outcome of the last action and says what to do next.
    ///
    /// A request is handed out only when the request before it has been
    /// answered to the end of its body. A body is the chunks of its
    /// response, one after the other in the order they arrived.
    pub fn step(&mut self, event: ClientEvent) -> (action: ClientAction)
        ensures
            (final(self)@, action@) == client_step(old(self)@, event@),
    {
        match self.phase {
            ClientPhase::Done => ClientAction::Complete,
            ClientPhase::Aborted => ClientAction::Abort,
            ClientPhase::Connecting => match event {
                ClientEvent::Completed => {
                    self.phase = ClientPhase::Negotiating;
                    ClientAction::Negotiate
                },
                _ => self.abort(),
            },
            ClientPhase::Negotiating => match event {
                ClientEvent::Completed => self.turn_to_next(),
                _ => self.abort(),
            },
            ClientPhase::Sending => match event {
                ClientEvent::Completed => {
                    self.phase = ClientPhase::Closing;
                    ClientAction::FinishRequest
                },
                _ => self.abort(),
            },
            ClientPhase::Closing => match event {
                ClientEvent::Completed => {
                    self.phase = ClientPhase::AwaitingHead;
                    ClientAction::ReceiveHead
                },
                _ => self.abort(),
            },
            ClientPhase::AwaitingHead => match event {
                ClientEvent::Head(status) => {
                    self.status = status;
                    self.phase = ClientPhase::ReadingBody;
                    ClientAction::ReceiveData
                },
                _ => self.abort(),
            },
            ClientPhase::ReadingBody => match event {
                ClientEvent::Chunk(bytes) => {
                    let mut bytes = bytes;
                    self.body.append(&mut bytes);
                    ClientAction::ReceiveData
                },
                ClientEvent::EndOfBody => {
                    let mut body: Vec<u8> = Vec::new();
                    std::mem::swap(&mut self.body, &mut body);
                    let fetched = Fetched { path: self.current.clone(), status: self.status, body };
                    let ghost before = self.responses@;
                    self.responses.push(fetched);
                    proof {
                        assert(fetched_view(self.responses@) =~= fetched_view(before).push(
                            fetched@,
                        ));
                    }
                    self.turn_to_next()
                },
                _ => self.abort(),
            },
        }
    }

    /// Turns to the first path without an answer, or ends the run where
    /// there is none.
    fn turn_to_next(&mut self) -> (action: ClientAction)
        ensures
            (final(self)@, action@) == turn_to_next(old(self)@),
    {
        let index = self.responses.len();
        self.status = 0;
        self.body = Vec::new();
        if index < self.paths.len() {
            self.current = self.paths[index].clone();
            self.phase = ClientPhase::Sending;
            ClientAction::SendRequest(Request::get(self.current.as_str()))
        } else {
            self.current = String::new();
            self.phase = ClientPhase::Done;
            ClientAction::Complete
        }
    }

    /// Ends the run as failed.
    fn abort(&mut self) -> (action: ClientAction)
        ensures
            (final(self)@, action@) == aborted(old(self)@),
    {
        self.phase = ClientPhase::Aborted;
        ClientAction::Abort
    }
}

/// What holds of the driver at every moment of a run: the answers so far
/// are those for the first paths of the list, in order, and while a request
/// is under way it is the request for the first path without an answer.
pub open spec fn client_in_order(state: ClientView) -> bool {
    &&& state.responses.len() <= state.paths.len()
    &&& forall|i: int|
        0 <= i < state.responses.len() ==> (#[trigger] state.responses[i]).path == state.paths[i]
    &&& request_under_way(state.phase) ==> state.responses.len() < state.paths.len()
        && state.current == state.paths[state.responses.len() as int]
    &&& (state.phase == ClientPhase::Connecting || state.phase == ClientPhase::Negotiating)
        ==> state.responses.len() == 0
    &&& state.phase == ClientPhase::Done ==> state.responses.len() == state.paths.len()
}

/// Requests go out one at a time and in the order of the list: a step keeps
/// the order of a run, and the request it hands out, if any, is the one for
/// the first path that has no answer yet.
pub proof fn lemma_client_step_keeps_order(before: ClientView, event: ClientEventView)
    requires
        client_in_order(before),
    ensures
        client_in_order(client_step(before, event).0),
        client_step(before, event).0.paths == before.paths,
        client_step(before, event).1 matches ClientActionView::SendRequest(request) ==> {
            let after = client_step(before, event).0;
            &&& after.phase == ClientPhase::Sending
            &&& after.responses.len() < after.paths.len()
            &&& request == get_request(after.paths[after.responses.len() as int])
            &&& (before.phase == ClientPhase::Negotiating || before.phase
                == ClientPhase::ReadingBody)
        },
{
}

/// The order holds over a whole run from the start.
pub proof fn lemma_client_run_keeps_order(start: ClientView, events: Seq<ClientEventView>)
    requires
        client_in_order(start),
    ensures
        client_in_order(client_run(start, events).0),
        client_run(start, events).0.paths == start.paths,
        client_run(start, events).1.len() == events.len(),
    decreases events.len(),
{
    if events.len() > 0 {
        lemma_client_step_keeps_order(start, events[0]);
        lemma_client_run_keeps_order(client_step(start, events[0]).0, events.drop_first());
    }
}

/// A run that is done has an answer for every path of its list, in the
/// order of the list.
pub proof fn lemma_done_means_all_answered(paths: Seq<Seq<char>>, events: Seq<ClientEventView>)
    requires
        client_run(fresh_client(paths), events).0.phase == ClientPhase::Done,
    ensures
        client_run(fresh_client(paths), events).0.responses.len() == paths.len(),
        forall|i: int|
            0 <= i < paths.len() ==> (#[trigger] client_run(
                fresh_client(paths),
                events,
            ).0.responses[i]).path == paths[i],
{
    lemma_client_run_keeps_order(fresh_client(paths), events);
}

/// The first failure ends the run: a failure reported in any phase that is
/// not terminal aborts the driver, and an aborted driver stays aborted and
/// hands out no further request.
pub proof fn lemma_failure_aborts_the_run(before: ClientView, later: Seq<ClientEventView>)
    requires
        !client_is_over(before.phase),
    ensures
        client_step(before, ClientEventView::Failed) == aborted(before),
        client_run(aborted(before).0, later).0 == aborted(before).0,
        forall|i: int|
            0 <= i < later.len() ==> #[trigger] client_run(aborted(before).0, later).1[i]
                == ClientActionView::Abort,
{
    lemma_aborted_stays(aborted(before).0, later);
}

/// An aborted driver stays as it is and answers every event by aborting.
proof fn lemma_aborted_stays(state: ClientView, events: Seq<ClientEventView>)
    requires
        state.phase == ClientPhase::Aborted,
    ensures
        client_run(state, events).0 == state,
        client_run(state, events).1.len() == events.len(),
        forall|i: int|
            0 <= i < events.len() ==> #[trigger] client_run(state, events).1[i]
                == ClientActionView::Abort,
    decreases events.len(),
{
    if events.len() > 0 {
        lemma_aborted_stays(state, events.drop_first());
        let rest = client_run(state, events.drop_first()).1;
        let all = client_run(state, events).1;
        assert(all =~= seq![ClientActionView::Abort] + rest);
        assert forall|i: int| 0 <= i < events.len() implies #[trigger] all[i]
            == ClientActionView::Abort by {
            if i > 0 {
                assert(all[i] == rest[i - 1]);
            }
        }
    }
}

/// The chunks of a list, one after the other.
pub open spec fn concat_chunks(chunks: Seq<Seq<u8>>) -> Seq<u8>
    decreases chunks.len(),
{
    if chunks.len() == 0 {
        Seq::<u8>::empty()
    } else {
        concat_chunks(chunks.drop_last()) + chunks.last()
    }
}

/// The events that report `chunks`, one event for each chunk, in order.
pub open spec fn chunk_events(chunks: Seq<Seq<u8>>) -> Seq<ClientEventView> {
    Seq::new(chunks.len(), |i: int| ClientEventView::Chunk(chunks[i]))
}

/// A body is its chunks in the order of their arrival: while a body is
/// read, any number of chunks leaves the driver reading, with the body so
/// far followed by all of them, one after the other.
pub proof fn lemma_body_is_chunks_in_order(before: ClientView, chunks: Seq<Seq<u8>>)
    requires
        before.phase == ClientPhase::ReadingBody,
    ensures
        client_run(before, chunk_events(chunks)).0 == (ClientView {
            body: before.body + concat_chunks(chunks),
            ..before
        }),
    decreases chunks.len(),
{
    let events = chunk_events(chunks);
    if chunks.len() == 0 {
        assert(before.body + concat_chunks(chunks) =~= before.body);
    } else {
        let first = client_step(before, events[0]).0;
        let tail = chunks.drop_first();
        assert(events.drop_first() =~= chunk_events(tail));
        lemma_body_is_chunks_in_order(first, tail);
        lemma_concat_from_front(chunks);
        assert(first.body + concat_chunks(tail) =~= before.body + concat_chunks(chunks));
    }
}

/// The chunks of a list are its first chunk followed by the rest.
proof fn lemma_concat_from_front(chunks: Seq<Seq<u8>>)
    requires
        chunks.len() > 0,
    ensures
        concat_chunks(chunks) == chunks[0] + concat_chunks(chunks.drop_first()),
    decreases chunks.len(),
{
    if chunks.len() == 1 {
        assert(chunks.drop_last() =~= Seq::<Seq<u8>>::empty());
        assert(chunks.drop_first() =~= Seq::<Seq<u8>>::empty());
        assert(concat_chunks(chunks.drop_last()) =~= Seq::<u8>::empty());
        assert(concat_chunks(chunks) =~= chunks[0]);
        assert(chunks[0] + concat_chunks(chunks.drop_first()) =~= chunks[0]);
    } else {
        lemma_concat_from_front(chunks.drop_last());
        assert(chunks.drop_last().drop_first() =~= chunks.drop_first().drop_last());
        assert(chunks.drop_first().last() == chunks.last());
        assert(concat_chunks(chunks) =~= chunks[0] + concat_chunks(chunks.drop_first()));
    }
}

/// The body that answers each of the client's paths, in the order of the paths.
pub open spec fn fixed_bodies() -> Seq<Seq<char>> {
    seq![ROOT_BODY@, TEST_BODY@, HEALTH_BODY@, NOT_FOUND_BODY@]
}

/// Every path the client asks for is answered by a server with the standard
/// table with status 200 and the body of its route; the path without a
/// route gets the not-found body, under the same status.
pub proof fn lemma_fixed_paths_are_answered(table: RouteTable, index: int)
    requires
        table@ == standard_routes(),
        table.fallback() == NOT_FOUND_BODY@,
        0 <= index < fixed_paths().len(),
    ensures
        ok_text_response().status == 200,
        table.body_for(fixed_paths()[index]) == fixed_bodies()[index],
        writes_of(
            exchange_run(table, fresh_exchange(), served(get_request(fixed_paths()[index]))).1,
        ) == seq![
            ExchangeActionView::SendResponse(ok_text_response()),
            ExchangeActionView::SendData(fixed_bodies()[index]),
            ExchangeActionView::Finish,
        ],
{
    let path = fixed_paths()[index];
    reveal_strlit("/unknown");
    lemma_standard_paths_differ();
    lemma_standard_body_by_cases(path);
    assert(table.body_for(path) == standard_body(path));
    lemma_served_request_is_answered(table, get_request(path));
    assert(response_writes(table, path) =~= seq![
        ExchangeActionView::SendResponse(ok_text_response()),
        ExchangeActionView::SendData(fixed_bodies()[index]),
        ExchangeActionView::Finish,
    ]);
}

} // verus!
