//! The exchange: one request stream from resolution to completion.
//!
//! An exchange owns one request stream. It resolves the request, announces
//! it, routes it by path, writes the response head, then the body, then
//! signals that it has nothing more to write. A failure at any point ends
//! this exchange and nothing else: an exchange holds no state but its own
//! and reads only the route table.
//!
//! The exchange itself performs no I/O. It is driven by events, each the
//! outcome of the action it handed out before, and answers each event with
//! the next action.

use vstd::prelude::*;
use crate::message::{ok_text_response, Request, RequestView, Response, ResponseView, Version};
use crate::routes::RouteTable;

verus! {

/// The part of the response that is being written.
#[derive(Clone, Copy, Debug, PartialEq, Eq, Structural)]
pub enum ResponsePart {
    /// Status and headers.
    Head,
    /// The body bytes.
    Body,
    /// The signal that this direction of the stream is finished.
    End,
}

/// Where an exchange stands.
#[derive(Clone, Copy, Debug, PartialEq, Eq, Structural)]
pub enum ExchangePhase {
    /// Waiting for the request to be resolved from the stream.
    Resolving,
    /// The request is known; its body has not been looked up yet.
    Routing,
    /// The named part of the response is being written.
    Responding(ResponsePart),
    /// Head, body and end were written. Terminal.
    Finished,
    /// A step failed; the stream is abandoned. Terminal.
    Failed,
}

/// What the outside reports to an exchange.
pub enum ExchangeEvent {
    /// The request was resolved from the stream.
    Resolved(Request),
    /// The action handed out last was carried out.
    Completed,
    /// The action handed out last could not be carried out.
    Failed,
}

/// An event as plain values.
pub enum ExchangeEventView {
    Resolved(RequestView),
    Completed,
    Failed,
}

impl View for ExchangeEvent {
    type V = ExchangeEventView;

    open spec fn view(&self) -> ExchangeEventView {
        match self {
            ExchangeEvent::Resolved(request) => ExchangeEventView::Resolved(request@),
            ExchangeEvent::Completed => ExchangeEventView::Completed,
            ExchangeEvent::Failed => ExchangeEventView::Failed,
        }
    }
}

/// What an exchange asks the outside to do next.
pub enum ExchangeAction {
    /// Report the request that was resolved.
    Announce { path: String, version: Version },
    /// Write this response head to the stream.
    SendResponse(Response),
    /// Write this body to the stream.
    SendData(String),
    /// Signal that the server has finished writing to the stream.
    Finish,
    /// Nothing is left to do: the exchange has finished.
    Done,
    /// Nothing is left to do: the exchange has failed and the stream is
    /// abandoned without further writes.
    Abandon,
}

/// An action as plain values.
pub enum ExchangeActionView {
    Announce { path: Seq<char>, version: Version },
    SendResponse(ResponseView),
    SendData(Seq<char>),
    Finish,
    Done,
    Abandon,
}

impl View for ExchangeAction {
    type V = ExchangeActionView;

    open spec fn view(&self) -> ExchangeActionView {
        match self {
            ExchangeAction::Announce { path, version } => ExchangeActionView::Announce {
                path: path@,
                version: *version,
            },
            ExchangeAction::SendResponse(response) => ExchangeActionView::SendResponse(response@),
            ExchangeAction::SendData(body) => ExchangeActionView::SendData(body@),
            ExchangeAction::Finish => ExchangeActionView::Finish,
            ExchangeAction::Done => ExchangeActionView::Done,
            ExchangeAction::Abandon => ExchangeActionView::Abandon,
        }
    }
}

/// One exchange.
pub struct Exchange {
    phase: ExchangePhase,
    path: String,
    body: String,
}

/// An exchange as plain values: its phase, the path of its request once that
/// is resolved, and the body it answers with once that is routed.
pub struct ExchangeView {
    pub phase: ExchangePhase,
    pub path: Seq<char>,
    pub body: Seq<char>,
}

/// The exchange before anything has happened on its stream.
pub open spec fn fresh_exchange() -> ExchangeView {
    ExchangeView {
        phase: ExchangePhase::Resolving,
        path: Seq::<char>::empty(),
        body: Seq::<char>::empty(),
    }
}

/// The exchange after a failure, and the action that goes with it.
pub open spec fn abandoned(before: ExchangeView) -> (ExchangeView, ExchangeActionView) {
    (ExchangeView { phase: ExchangePhase::Failed, ..before }, ExchangeActionView::Abandon)
}

/// The transition of an exchange: the state after `event` and the action to
/// carry out next.
///
/// An event that the present phase does not expect is a failure of this
/// exchange. The two terminal phases keep their state under every event.
pub open spec fn exchange_step(table: RouteTable, before: ExchangeView, event: ExchangeEventView) -> (
    ExchangeView,
    ExchangeActionView,
) {
    match (before.phase, event) {
        (ExchangePhase::Finished, _) => (before, ExchangeActionView::Done),
        (ExchangePhase::Failed, _) => (before, ExchangeActionView::Abandon),
        (ExchangePhase::Resolving, ExchangeEventView::Resolved(request)) => (
            ExchangeView { phase: ExchangePhase::Routing, path: request.path, ..before },
            ExchangeActionView::Announce { path: request.path, version: request.version },
        ),
        (ExchangePhase::Routing, ExchangeEventView::Completed) => (
            ExchangeView {
                phase: ExchangePhase::Responding(ResponsePart::Head),
                body: table.body_for(before.path),
                ..before
            },
            ExchangeActionView::SendResponse(ok_text_response()),
        ),
        (ExchangePhase::Responding(ResponsePart::Head), ExchangeEventView::Completed) => (
            ExchangeView { phase: ExchangePhase::Responding(ResponsePart::Body), ..before },
            ExchangeActionView::SendData(before.body),
        ),
        (ExchangePhase::Responding(ResponsePart::Body), ExchangeEventView::Completed) => (
            ExchangeView { phase: ExchangePhase::Responding(ResponsePart::End), ..before },
            ExchangeActionView::Finish,
        ),
        (ExchangePhase::Responding(ResponsePart::End), ExchangeEventView::Completed) => (
            ExchangeView { phase: ExchangePhase::Finished, ..before },
            ExchangeActionView::Done,
        ),
        _ => abandoned(before),
    }
}

/// The state after a sequence of events, and the actions handed out on the
/// way, one for each event.
pub open spec fn exchange_run(
    table: RouteTable,
    start: ExchangeView,
    events: Seq<ExchangeEventView>,
) -> (ExchangeView, Seq<ExchangeActionView>)
    decreases events.len(),
{
    if events.len() == 0 {
        (start, Seq::<ExchangeActionView>::empty())
    } else {
        let (next, action) = exchange_step(table, start, events[0]);
        let (last, actions) = exchange_run(table, next, events.drop_first());
        (last, seq![action] + actions)
    }
}

/// Whether a phase is terminal.
pub open spec fn is_terminal(phase: ExchangePhase) -> bool {
    phase == ExchangePhase::Finished || phase == ExchangePhase::Failed
}

impl View for Exchange {
    type V = ExchangeView;

    closed spec fn view(&self) -> ExchangeView {
        ExchangeView { phase: self.phase, path: self.path@, body: self.body@ }
    }
}

impl Exchange {
    /// An exchange for a stream that was just accepted. The first thing to
    /// do for it is to resolve the request.
    pub fn new() -> (exchange: Exchange)
        ensures
            exchange@ == fresh_exchange(),
    {
        Exchange { phase: ExchangePhase::Resolving, path: String::new(), body: String::new() }
    }

    /// Where the exchange stands.
    pub fn phase(&self) -> (phase: ExchangePhase)
        ensures
            phase == self@.phase,
    {
        self.phase
    }

    /// Whether the exchange has finished or failed.
    pub fn is_over(&self) -> (over: bool)
        ensures
            over == is_terminal(self@.phase),
    {
        match self.phase {
            ExchangePhase::Finished => true,
            ExchangePhase::Failed => true,
            _ => false,
        }
    }

    /// Takes the outcome of the last action and says what to do next.
    ///
    /// The body comes from `table` alone: the entry for exactly the path of
    /// the request, or the table's fallback. The head is the same for every
    /// request. Head, body and end are asked for in this order, each only
    /// after the one before was carried out.
    pub fn step(&mut self, table: &RouteTable, event: ExchangeEvent) -> (action: ExchangeAction)
        ensures
            (final(self)@, action@) == exchange_step(*table, old(self)@, event@),
    {
        match self.phase {
            ExchangePhase::Finished => ExchangeAction::Done,
            ExchangePhase::Failed => ExchangeAction::Abandon,
            ExchangePhase::Resolving => match event {
                ExchangeEvent::Resolved(request) => {
                    let version = request.version;
                    self.path = request.path;
                    self.phase = ExchangePhase::Routing;
                    ExchangeAction::Announce { path: self.path.clone(), version }
                },
                _ => self.fail(),
            },
            ExchangePhase::Routing => match event {
                ExchangeEvent::Completed => {
                    self.body = table.lookup(self.path.as_str()).to_owned();
                    self.phase = ExchangePhase::Responding(ResponsePart::Head);
                    ExchangeAction::SendResponse(Response::ok_text())
                },
                _ => self.fail(),
            },
            ExchangePhase::Responding(part) => match event {
                ExchangeEvent::Completed => match part {
                    ResponsePart::Head => {
                        self.phase = ExchangePhase::Responding(ResponsePart::Body);
                        ExchangeAction::SendData(self.body.clone())
                    },
                    ResponsePart::Body => {
                        self.phase = ExchangePhase::Responding(ResponsePart::End);
                        ExchangeAction::Finish
                    },
                    ResponsePart::End => {
                        self.phase = ExchangePhase::Finished;
                        ExchangeAction::Done
                    },
                },
                _ => self.fail(),
            },
        }
    }

    /// Ends the exchange as failed.
    fn fail(&mut self) -> (action: ExchangeAction)
        ensures
            (final(self)@, action@) == abandoned(old(self)@),
    {
        self.phase = ExchangePhase::Failed;
        ExchangeAction::Abandon
    }
}

/// Whether an action writes to the stream.
pub open spec fn is_write(action: ExchangeActionView) -> bool {
    action is SendResponse || action is SendData || action is Finish
}

/// The actions of a list that write to the stream, in order.
pub open spec fn writes_of(actions: Seq<ExchangeActionView>) -> Seq<ExchangeActionView>
    decreases actions.len(),
{
    if actions.len() == 0 {
        Seq::<ExchangeActionView>::empty()
    } else if is_write(actions[0]) {
        seq![actions[0]] + writes_of(actions.drop_first())
    } else {
        writes_of(actions.drop_first())
    }
}

/// The writes that answer a request for `path`: the head, the body the table
/// gives for the path, and the end of the stream.
pub open spec fn response_writes(table: RouteTable, path: Seq<char>) -> Seq<ExchangeActionView> {
    seq![
        ExchangeActionView::SendResponse(ok_text_response()),
        ExchangeActionView::SendData(table.body_for(path)),
        ExchangeActionView::Finish,
    ]
}

/// The writes an exchange in state `state` has still to ask for.
pub open spec fn pending_writes(table: RouteTable, state: ExchangeView) -> Seq<ExchangeActionView> {
    match state.phase {
        ExchangePhase::Routing => response_writes(table, state.path),
        ExchangePhase::Responding(ResponsePart::Head) => seq![
            ExchangeActionView::SendData(state.body),
            ExchangeActionView::Finish,
        ],
        ExchangePhase::Responding(ResponsePart::Body) => seq![ExchangeActionView::Finish],
        _ => Seq::<ExchangeActionView>::empty(),
    }
}

/// A finished or failed exchange stays as it is, whatever is reported to it,
/// and asks for no further write.
pub proof fn lemma_terminal_is_absorbing(
    table: RouteTable,
    state: ExchangeView,
    event: ExchangeEventView,
)
    requires
        is_terminal(state.phase),
    ensures
        exchange_step(table, state, event).0 == state,
        !is_write(exchange_step(table, state, event).1),
{
}

/// A finished or failed exchange stays as it is over any sequence of events,
/// and asks for no further write.
pub proof fn lemma_terminal_run(
    table: RouteTable,
    state: ExchangeView,
    events: Seq<ExchangeEventView>,
)
    requires
        is_terminal(state.phase),
    ensures
        exchange_run(table, state, events).0 == state,
        writes_of(exchange_run(table, state, events).1) == Seq::<ExchangeActionView>::empty(),
    decreases events.len(),
{
    if events.len() > 0 {
        lemma_terminal_run(table, state, events.drop_first());
        let action = exchange_step(table, state, events[0]).1;
        let rest = exchange_run(table, state, events.drop_first()).1;
        assert((seq![action] + rest).drop_first() =~= rest);
    }
}

/// A run hands out one action for each event; its first action and first
/// state are those of the first event, and the rest is the run from there.
pub proof fn lemma_run_unfolds(
    table: RouteTable,
    state: ExchangeView,
    events: Seq<ExchangeEventView>,
)
    ensures
        exchange_run(table, state, events).1.len() == events.len(),
        events.len() > 0 ==> {
            let first = exchange_step(table, state, events[0]);
            let rest = exchange_run(table, first.0, events.drop_first());
            let all = exchange_run(table, state, events);
            &&& all.0 == rest.0
            &&& all.1[0] == first.1
            &&& all.1.drop_first() == rest.1
        },
    decreases events.len(),
{
    if events.len() > 0 {
        let first = exchange_step(table, state, events[0]);
        lemma_run_unfolds(table, first.0, events.drop_first());
        let rest = exchange_run(table, first.0, events.drop_first());
        assert((seq![first.1] + rest.1).drop_first() =~= rest.1);
    }
}

/// Writes go out in order, whatever happens: over any sequence of events,
/// the writes an exchange asks for are the head, then the body, then the
/// end, or the beginning of that list where the exchange failed or the
/// events ran out. The body is the one the table gives for the request's path.
pub proof fn lemma_writes_in_order(
    table: RouteTable,
    state: ExchangeView,
    events: Seq<ExchangeEventView>,
)
    requires
        state.phase != ExchangePhase::Resolving,
        state.phase is Responding ==> state.body == table.body_for(state.path),
    ensures
        writes_of(exchange_run(table, state, events).1).is_prefix_of(pending_writes(table, state)),
    decreases events.len(),
{
    if events.len() > 0 {
        let first = exchange_step(table, state, events[0]);
        let tail = events.drop_first();
        let rest = exchange_run(table, first.0, tail);
        lemma_run_unfolds(table, state, events);
        let all = exchange_run(table, state, events).1;
        assert(all =~= seq![first.1] + rest.1);
        assert(all.drop_first() == rest.1);
        if is_terminal(first.0.phase) {
            lemma_terminal_run(table, first.0, tail);
        } else {
            lemma_writes_in_order(table, first.0, tail);
        }
        if is_write(first.1) {
            assert(pending_writes(table, state)[0] == first.1);
            assert(pending_writes(table, state).drop_first() =~= pending_writes(table, first.0));
            assert(writes_of(all) =~= seq![first.1] + writes_of(rest.1));
        } else {
            assert(writes_of(all) == writes_of(rest.1));
        }
    }
}

/// From the first event on, the writes of an exchange are those that answer
/// its own request, in order, or a beginning of them.
pub proof fn lemma_fresh_exchange_writes_in_order(
    table: RouteTable,
    request: RequestView,
    events: Seq<ExchangeEventView>,
)
    requires
        events.len() > 0,
        events[0] == ExchangeEventView::Resolved(request),
    ensures
        writes_of(exchange_run(table, fresh_exchange(), events).1).is_prefix_of(
            response_writes(table, request.path),
        ),
{
    let first = exchange_step(table, fresh_exchange(), events[0]);
    lemma_run_unfolds(table, fresh_exchange(), events);
    lemma_writes_in_order(table, first.0, events.drop_first());
    let all = exchange_run(table, fresh_exchange(), events).1;
    assert(writes_of(all) == writes_of(all.drop_first()));
}

/// An exchange whose request could not be resolved writes nothing.
pub proof fn lemma_unresolved_exchange_writes_nothing(
    table: RouteTable,
    events: Seq<ExchangeEventView>,
)
    requires
        events.len() > 0,
        !(events[0] is Resolved),
    ensures
        exchange_run(table, fresh_exchange(), events).0.phase == ExchangePhase::Failed,
        writes_of(exchange_run(table, fresh_exchange(), events).1) == Seq::<
            ExchangeActionView,
        >::empty(),
{
    let first = exchange_step(table, fresh_exchange(), events[0]);
    lemma_run_unfolds(table, fresh_exchange(), events);
    lemma_terminal_run(table, first.0, events.drop_first());
    let all = exchange_run(table, fresh_exchange(), events).1;
    assert(writes_of(all) == writes_of(all.drop_first()));
}

/// The events that carry an exchange for `request` to its end: the request
/// resolved, then four actions carried out.
pub open spec fn served(request: RequestView) -> Seq<ExchangeEventView> {
    seq![
        ExchangeEventView::Resolved(request),
        ExchangeEventView::Completed,
        ExchangeEventView::Completed,
        ExchangeEventView::Completed,
        ExchangeEventView::Completed,
    ]
}

/// An exchange finishes only by way of the full response: if it has
/// finished, the events began with a resolved request and four actions
/// carried out, and the actions began with the announcement, the head, the
/// body for the request's path, the end of the stream and the completion.
pub proof fn lemma_finished_exchange_served_its_request(
    table: RouteTable,
    events: Seq<ExchangeEventView>,
)
    requires
        exchange_run(table, fresh_exchange(), events).0.phase == ExchangePhase::Finished,
    ensures
        events.len() >= 5,
        events[0] is Resolved,
        events.subrange(0, 5) == served(events[0]->Resolved_0),
        exchange_run(table, fresh_exchange(), events).1.subrange(0, 5) == seq![
            ExchangeActionView::Announce {
                path: events[0]->Resolved_0.path,
                version: events[0]->Resolved_0.version,
            },
            ExchangeActionView::SendResponse(ok_text_response()),
            ExchangeActionView::SendData(table.body_for(events[0]->Resolved_0.path)),
            ExchangeActionView::Finish,
            ExchangeActionView::Done,
        ],
        exchange_run(table, fresh_exchange(), events).0.body == table.body_for(
            events[0]->Resolved_0.path,
        ),
{
    let s0 = fresh_exchange();
    let all = exchange_run(table, s0, events);
    lemma_run_unfolds(table, s0, events);
    assert(events.len() > 0);
    let e1 = events.drop_first();
    let t0 = exchange_step(table, s0, events[0]);
    if is_terminal(t0.0.phase) {
        lemma_terminal_run(table, t0.0, e1);
    }
    lemma_run_unfolds(table, t0.0, e1);
    assert(e1.len() > 0);
    let e2 = e1.drop_first();
    let t1 = exchange_step(table, t0.0, e1[0]);
    if is_terminal(t1.0.phase) {
        lemma_terminal_run(table, t1.0, e2);
    }
    lemma_run_unfolds(table, t1.0, e2);
    assert(e2.len() > 0);
    let e3 = e2.drop_first();
    let t2 = exchange_step(table, t1.0, e2[0]);
    if is_terminal(t2.0.phase) {
        lemma_terminal_run(table, t2.0, e3);
    }
    lemma_run_unfolds(table, t2.0, e3);
    assert(e3.len() > 0);
    let e4 = e3.drop_first();
    let t3 = exchange_step(table, t2.0, e3[0]);
    if is_terminal(t3.0.phase) {
        lemma_terminal_run(table, t3.0, e4);
    }
    lemma_run_unfolds(table, t3.0, e4);
    assert(e4.len() > 0);
    let e5 = e4.drop_first();
    let t4 = exchange_step(table, t3.0, e4[0]);
    lemma_terminal_run(table, t4.0, e5);
    let a1 = exchange_run(table, t0.0, e1).1;
    let a2 = exchange_run(table, t1.0, e2).1;
    let a3 = exchange_run(table, t2.0, e3).1;
    let a4 = exchange_run(table, t3.0, e4).1;
    assert(all.1[1] == a1[0]);
    assert(all.1[2] == a2[0]);
    assert(all.1[3] == a3[0]);
    assert(all.1[4] == a4[0]);
    assert(events[1] == e1[0]);
    assert(events[2] == e2[0]);
    assert(events[3] == e3[0]);
    assert(events[4] == e4[0]);
    assert(events.subrange(0, 5) =~= served(events[0]->Resolved_0));
    assert(all.1.subrange(0, 5) =~= seq![
        ExchangeActionView::Announce {
            path: events[0]->Resolved_0.path,
            version: events[0]->Resolved_0.version,
        },
        ExchangeActionView::SendResponse(ok_text_response()),
        ExchangeActionView::SendData(table.body_for(events[0]->Resolved_0.path)),
        ExchangeActionView::Finish,
        ExchangeActionView::Done,
    ]);
}

/// Served without a failure, a request is answered in full: the exchange
/// finishes, and its writes are the head, the body for the request's path
/// and the end of the stream.
pub proof fn lemma_served_request_is_answered(table: RouteTable, request: RequestView)
    ensures
        exchange_run(table, fresh_exchange(), served(request)).0.phase == ExchangePhase::Finished,
        writes_of(exchange_run(table, fresh_exchange(), served(request)).1) == response_writes(
            table,
            request.path,
        ),
{
    let events = served(request);
    lemma_finished_run_of_served(table, request);
    lemma_finished_exchange_served_its_request(table, events);
    lemma_run_unfolds(table, fresh_exchange(), events);
    let actions = exchange_run(table, fresh_exchange(), events).1;
    assert(actions =~= actions.subrange(0, 5));
    reveal_with_fuel(writes_of, 6);
    assert(writes_of(actions) =~= response_writes(table, request.path));
}

/// The run over the events of [`served`] ends in the finished phase.
proof fn lemma_finished_run_of_served(table: RouteTable, request: RequestView)
    ensures
        exchange_run(table, fresh_exchange(), served(request)).0.phase == ExchangePhase::Finished,
{
    let events = served(request);
    let s0 = fresh_exchange();
    lemma_run_unfolds(table, s0, events);
    let t0 = exchange_step(table, s0, events[0]);
    let e1 = events.drop_first();
    lemma_run_unfolds(table, t0.0, e1);
    let t1 = exchange_step(table, t0.0, e1[0]);
    let e2 = e1.drop_first();
    lemma_run_unfolds(table, t1.0, e2);
    let t2 = exchange_step(table, t1.0, e2[0]);
    let e3 = e2.drop_first();
    lemma_run_unfolds(table, t2.0, e3);
    let t3 = exchange_step(table, t2.0, e3[0]);
    let e4 = e3.drop_first();
    lemma_run_unfolds(table, t3.0, e4);
    let t4 = exchange_step(table, t3.0, e4[0]);
    let e5 = e4.drop_first();
    assert(e5.len() == 0);
}

/// The same path is answered with the same writes, byte for byte, whatever
/// else the two requests hold and however often it is asked for.
pub proof fn lemma_same_path_same_answer(table: RouteTable, first: RequestView, second: RequestView)
    requires
        first.path == second.path,
    ensures
        writes_of(exchange_run(table, fresh_exchange(), served(first)).1) == writes_of(
            exchange_run(table, fresh_exchange(), served(second)).1,
        ),
{
    lemma_served_request_is_answered(table, first);
    lemma_served_request_is_answered(table, second);
}

} // verus!
