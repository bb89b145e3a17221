//! Many exchanges at once.
//!
//! A server runs one exchange for every request stream of every connection,
//! all at the same time, and what the transport reports reaches them in no
//! particular order. This module states what that cannot change: since an
//! exchange holds no state but its own, the server as a whole, seen as one
//! log of events from all streams, does to each stream exactly what an
//! exchange alone would do with the events of that stream.

use vstd::prelude::*;
use crate::exchange::{
    exchange_run, exchange_step, fresh_exchange, lemma_run_unfolds,
    lemma_served_request_is_answered,
    lemma_unresolved_exchange_writes_nothing, response_writes, served, writes_of,
    ExchangeActionView, ExchangeEventView, ExchangePhase, ExchangeView,
};
use crate::message::RequestView;
use crate::routes::RouteTable;

verus! {

/// A request stream: the connection it belongs to and its number there.
pub struct StreamKey {
    pub connection: nat,
    pub stream: nat,
}

/// One entry of the server's log: an event, and the stream it is about.
pub struct StreamEvent {
    pub key: StreamKey,
    pub event: ExchangeEventView,
}

/// The events of a log that are about the stream `key`, in order.
pub open spec fn events_of(log: Seq<StreamEvent>, key: StreamKey) -> Seq<ExchangeEventView>
    decreases log.len(),
{
    if log.len() == 0 {
        Seq::<ExchangeEventView>::empty()
    } else if log.last().key == key {
        events_of(log.drop_last(), key).push(log.last().event)
    } else {
        events_of(log.drop_last(), key)
    }
}

/// What the server holds for one stream: the state of its exchange and the
/// actions handed out for it so far.
pub struct StreamRecord {
    pub state: ExchangeView,
    pub actions: Seq<ExchangeActionView>,
}

/// The record of a stream nothing has happened on.
pub open spec fn fresh_record() -> StreamRecord {
    StreamRecord { state: fresh_exchange(), actions: Seq::<ExchangeActionView>::empty() }
}

/// The server after a log of events: the record of every stream. Each
/// event is handed to the exchange of its stream; the records of all other
/// streams stay as they are.
pub open spec fn server_after(table: RouteTable, log: Seq<StreamEvent>) -> Map<
    StreamKey,
    StreamRecord,
>
    decreases log.len(),
{
    if log.len() == 0 {
        Map::total(|key: StreamKey| fresh_record())
    } else {
        let before = server_after(table, log.drop_last());
        let entry = log.last();
        let (state, action) = exchange_step(table, before[entry.key].state, entry.event);
        before.insert(
            entry.key,
            StreamRecord { state, actions: before[entry.key].actions.push(action) },
        )
    }
}

/// A run over a sequence of events and one more event is the run over the
/// sequence, followed by the step for that event.
pub proof fn lemma_run_one_more(
    table: RouteTable,
    start: ExchangeView,
    events: Seq<ExchangeEventView>,
    event: ExchangeEventView,
)
    ensures
        exchange_run(table, start, events.push(event)).0 == exchange_step(
            table,
            exchange_run(table, start, events).0,
            event,
        ).0,
        exchange_run(table, start, events.push(event)).1 == exchange_run(
            table,
            start,
            events,
        ).1.push(exchange_step(table, exchange_run(table, start, events).0, event).1),
    decreases events.len(),
{
    let longer = events.push(event);
    lemma_run_unfolds(table, start, longer);
    let next = exchange_step(table, start, longer[0]).0;
    let first = exchange_step(table, start, longer[0]).1;
    let all = exchange_run(table, start, longer).1;
    if events.len() == 0 {
        assert(longer.drop_first() =~= Seq::<ExchangeEventView>::empty());
        assert(all =~= Seq::<ExchangeActionView>::empty().push(first));
    } else {
        assert(longer[0] == events[0]);
        assert(longer.drop_first() =~= events.drop_first().push(event));
        lemma_run_one_more(table, next, events.drop_first(), event);
        lemma_run_unfolds(table, start, events);
        let rest = exchange_run(table, next, events.drop_first()).1;
        let last = exchange_step(table, exchange_run(table, start, events).0, event).1;
        let shorter = exchange_run(table, start, events).1;
        assert(shorter =~= seq![first] + rest);
        assert(all =~= seq![first] + rest.push(last));
        assert(seq![first] + rest.push(last) =~= (seq![first] + rest).push(last));
    }
}

/// Streams do not interfere. Whatever the order in which the events of all
/// streams of all connections arrive, the server holds for each stream
/// exactly what an exchange would hold that saw the events of that stream
/// alone: the same state, and the same actions in the same order.
pub proof fn lemma_streams_do_not_interfere(
    table: RouteTable,
    log: Seq<StreamEvent>,
    key: StreamKey,
)
    ensures
        server_after(table, log).dom().contains(key),
        server_after(table, log)[key].state == exchange_run(
            table,
            fresh_exchange(),
            events_of(log, key),
        ).0,
        server_after(table, log)[key].actions == exchange_run(
            table,
            fresh_exchange(),
            events_of(log, key),
        ).1,
    decreases log.len(),
{
    if log.len() > 0 {
        lemma_streams_do_not_interfere(table, log.drop_last(), key);
        if log.last().key == key {
            lemma_run_one_more(
                table,
                fresh_exchange(),
                events_of(log.drop_last(), key),
                log.last().event,
            );
        }
    }
}

/// An event changes nothing but the record of its own stream.
pub proof fn lemma_event_touches_its_stream_only(
    table: RouteTable,
    log: Seq<StreamEvent>,
    entry: StreamEvent,
    other: StreamKey,
)
    requires
        other != entry.key,
    ensures
        server_after(table, log.push(entry))[other] == server_after(table, log)[other],
{
    assert(log.push(entry).drop_last() =~= log);
}

/// Every stream gets the answer for its own path, whatever else goes on: if
/// the events of a stream, picked out of the log of all streams, are those
/// of a request served without failure, the stream was answered with the
/// head, the body for its own path and the end of the stream, in this
/// order, and its exchange has finished.
pub proof fn lemma_each_stream_gets_its_own_answer(
    table: RouteTable,
    log: Seq<StreamEvent>,
    key: StreamKey,
    request: RequestView,
)
    requires
        events_of(log, key) == served(request),
    ensures
        server_after(table, log)[key].state.phase == ExchangePhase::Finished,
        writes_of(server_after(table, log)[key].actions) == response_writes(table, request.path),
{
    lemma_streams_do_not_interfere(table, log, key);
    lemma_served_request_is_answered(table, request);
}

/// A stream that was abandoned before its request could be resolved costs
/// its own exchange and nothing else: that exchange fails without a write,
/// and any other stream whose request is served, on the same connection or
/// on another, before or after, is answered in full.
pub proof fn lemma_abandoned_stream_hurts_no_other(
    table: RouteTable,
    log: Seq<StreamEvent>,
    abandoned: StreamKey,
    other: StreamKey,
    request: RequestView,
)
    requires
        abandoned != other,
        events_of(log, abandoned).len() > 0,
        !(events_of(log, abandoned)[0] is Resolved),
        events_of(log, other) == served(request),
    ensures
        server_after(table, log)[abandoned].state.phase == ExchangePhase::Failed,
        writes_of(server_after(table, log)[abandoned].actions) == Seq::<
            ExchangeActionView,
        >::empty(),
        server_after(table, log)[other].state.phase == ExchangePhase::Finished,
        writes_of(server_after(table, log)[other].actions) == response_writes(
            table,
            request.path,
        ),
{
    lemma_streams_do_not_interfere(table, log, abandoned);
    lemma_unresolved_exchange_writes_nothing(table, events_of(log, abandoned));
    lemma_each_stream_gets_its_own_answer(table, log, other, request);
}

/// Two streams that ask for the same path get the same answer, byte for
/// byte, one after the other or at the same time, on one connection or two.
pub proof fn lemma_same_path_same_answer_on_any_stream(
    table: RouteTable,
    log: Seq<StreamEvent>,
    first: StreamKey,
    second: StreamKey,
    first_request: RequestView,
    second_request: RequestView,
)
    requires
        events_of(log, first) == served(first_request),
        events_of(log, second) == served(second_request),
        first_request.path == second_request.path,
    ensures
        writes_of(server_after(table, log)[first].actions) == writes_of(
            server_after(table, log)[second].actions,
        ),
{
    lemma_each_stream_gets_its_own_answer(table, log, first, first_request);
    lemma_each_stream_gets_its_own_answer(table, log, second, second_request);
}

} // verus!
