//! What holds of the store over whole sequences of dispatches: the counter
//! is the sum of its steps, the router is a stack, every change is told once
//! and in order, reads do not disturb, and initialization happens once.

use crate::app::{dispatched, emitted, statement_for, told, Event};
use crate::database::{top_of, watched_tables, DatabaseView, StoreError, TablesView};
use crate::navigation::{lemma_route_round_trip, Route};
use crate::schema::{lemma_table_names_differ, StatementView, Table};
use crate::text::{encode_decimal, lemma_decimal_round_trip, parse_i32_spec};
use crate::updater::UpdateView;
use vstd::prelude::*;

verus! {

/// The store after the events were dispatched, one after the other.
pub open spec fn run(database: DatabaseView, events: Seq<Event>) -> DatabaseView
    decreases events.len(),
{
    if events.len() == 0 {
        database
    } else {
        dispatched(run(database, events.drop_last()), events.last())
    }
}

/// The updates that the dispatches produced, in the order of the dispatches.
pub open spec fn updates(database: DatabaseView, events: Seq<Event>) -> Seq<UpdateView>
    decreases events.len(),
{
    if events.len() == 0 {
        Seq::empty()
    } else {
        let earlier = updates(database, events.drop_last());
        match emitted(run(database, events.drop_last()), events.last()) {
            Some(update) => earlier.push(update),
            None => earlier,
        }
    }
}

/// What an event adds to the counter.
pub open spec fn step_of(event: Event) -> int {
    match event {
        Event::Increment => 1,
        Event::Decrement => -1,
        _ => 0,
    }
}

/// The sum of the steps of the events.
pub open spec fn net(events: Seq<Event>) -> int
    decreases events.len(),
{
    if events.len() == 0 {
        0
    } else {
        net(events.drop_last()) + step_of(events.last())
    }
}

/// The value of the counter: the 32-bit integer that the last row of
/// `app_state` holds, if it holds one.
pub open spec fn counter_value(tables: TablesView) -> Option<int> {
    match tables.last_state() {
        Some(state) => match parse_i32_spec(state) {
            Some(value) => Some(value as int),
            None => None,
        },
        None => None,
    }
}

/// The stack after an event: a push appends, a pop removes the last entry
/// and leaves an empty stack empty, a reset removes every entry, and a step
/// of the counter changes nothing.
pub open spec fn stack_after(routes: Seq<Route>, event: Event) -> Seq<Route> {
    match event {
        Event::PushRoute { route } => routes.push(route),
        Event::PopRoute => if routes.len() == 0 {
            routes
        } else {
            routes.drop_last()
        },
        Event::ResetRouter => Seq::empty(),
        _ => routes,
    }
}

/// The stack after the events, one after the other.
pub open spec fn stack(routes: Seq<Route>, events: Seq<Event>) -> Seq<Route>
    decreases events.len(),
{
    if events.len() == 0 {
        routes
    } else {
        stack_after(stack(routes, events.drop_last()), events.last())
    }
}

/// Whether the counter, started at `start`, is a 32-bit integer after each
/// of the events.
pub open spec fn stays_in_range(start: int, events: Seq<Event>) -> bool {
    forall|k: int|
        0 <= k <= events.len() ==> i32::MIN <= start + #[trigger] net(events.subrange(0, k))
            <= i32::MAX
}

/// The sum of the steps of a sequence of events lies within its length.
pub proof fn lemma_net_is_bounded(events: Seq<Event>)
    ensures
        -events.len() <= net(events) <= events.len(),
    decreases events.len(),
{
    if events.len() > 0 {
        lemma_net_is_bounded(events.drop_last());
    }
}

/// One dispatch moves the counter by the step of its event: by one up or
/// down for a step of the counter that stays within the 32-bit integers, and
/// not at all for an event of the router.
pub proof fn lemma_dispatch_counts(database: DatabaseView, event: Event, value: int)
    requires
        counter_value(database.tables) == Some(value),
        i32::MIN <= value + step_of(event) <= i32::MAX,
    ensures
        counter_value(dispatched(database, event).tables) == Some(value + step_of(event)),
{
    match event {
        Event::Increment => {
            lemma_decimal_round_trip(value + 1);
        },
        Event::Decrement => {
            lemma_decimal_round_trip(value - 1);
        },
        _ => {},
    }
}

/// A sequence of events that is no longer than the distance of the counter
/// from either end of the 32-bit integers keeps the counter in range.
pub proof fn lemma_short_sequences_stay_in_range(start: int, events: Seq<Event>)
    requires
        i32::MIN <= start - events.len(),
        start + events.len() <= i32::MAX,
    ensures
        stays_in_range(start, events),
{
    assert forall|k: int| 0 <= k <= events.len() implies i32::MIN <= start + #[trigger] net(
        events.subrange(0, k),
    ) <= i32::MAX by {
        lemma_net_is_bounded(events.subrange(0, k));
    }
}

/// The counter is the sum of its steps, for every sequence of events that
/// is too short to take it out of the 32-bit integers.
pub proof fn lemma_counter_is_net_sum(database: DatabaseView, events: Seq<Event>, start: int)
    requires
        counter_value(database.tables) == Some(start),
        i32::MIN <= start - events.len(),
        start + events.len() <= i32::MAX,
    ensures
        counter_value(run(database, events).tables) == Some(start + net(events)),
{
    lemma_short_sequences_stay_in_range(start, events);
    lemma_counter_follows_its_steps(database, events, start);
}

/// The counter is the sum of its steps. Whatever sequence of increments and
/// decrements is dispatched, with events of the router among them or not,
/// and however long it is: if the counter is a 32-bit integer after each of
/// the events, it ends at the value it started from plus the sum of their
/// steps.
pub proof fn lemma_counter_follows_its_steps(
    database: DatabaseView,
    events: Seq<Event>,
    start: int,
)
    requires
        counter_value(database.tables) == Some(start),
        stays_in_range(start, events),
    ensures
        counter_value(run(database, events).tables) == Some(start + net(events)),
    decreases events.len(),
{
    if events.len() > 0 {
        let earlier = events.drop_last();
        assert forall|k: int| 0 <= k <= earlier.len() implies i32::MIN <= start + #[trigger] net(
            earlier.subrange(0, k),
        ) <= i32::MAX by {
            assert(earlier.subrange(0, k) =~= events.subrange(0, k));
        }
        lemma_counter_follows_its_steps(database, earlier, start);
        assert(events.subrange(0, events.len() as int) =~= events);
        lemma_dispatch_counts(run(database, earlier), events.last(), start + net(earlier));
    }
}

/// The counter of a store that was just initialized is zero.
pub proof fn lemma_seed_is_zero()
    ensures
        counter_value(TablesView::empty().initialized()) == Some(0int),
{
    lemma_decimal_round_trip(0);
    reveal_strlit("0");
    assert("0"@ =~= encode_decimal(0));
}

/// A store that holds a state is the same after it is opened again: what
/// was counted before a restart is still counted after it.
pub proof fn lemma_restart_keeps_the_counter(tables: TablesView)
    requires
        counter_value(tables) is Some,
    ensures
        tables.initialized() == tables,
{
}

/// Started on a new store, the counter is the sum of its steps for as long
/// as that sum stays a 32-bit integer, and it still is after the store was
/// closed and opened again.
pub proof fn lemma_counter_from_seed(database: DatabaseView, events: Seq<Event>)
    requires
        database.tables == TablesView::empty().initialized(),
        stays_in_range(0, events),
    ensures
        counter_value(run(database, events).tables) == Some(net(events)),
        counter_value(run(database, events).tables.initialized()) == Some(net(events)),
{
    lemma_seed_is_zero();
    lemma_counter_follows_its_steps(database, events, 0);
    lemma_restart_keeps_the_counter(run(database, events).tables);
}

/// Serialized increments are not lost: however the increments of a number
/// of callers are interleaved, once they are dispatched one after the other
/// the counter has grown by their number.
pub proof fn lemma_increments_add_up(
    database: DatabaseView,
    events: Seq<Event>,
    start: int,
    callers: nat,
    each: nat,
)
    requires
        counter_value(database.tables) == Some(start),
        events.len() == callers * each,
        forall|i: int| 0 <= i < events.len() ==> events[i] == Event::Increment,
        i32::MIN <= start - callers * each,
        start + callers * each <= i32::MAX,
    ensures
        counter_value(run(database, events).tables) == Some(start + callers * each),
{
    lemma_counter_is_net_sum(database, events, start);
    lemma_net_of_increments(events);
}

/// The sum of the steps of increments is their number.
pub proof fn lemma_net_of_increments(events: Seq<Event>)
    requires
        forall|i: int| 0 <= i < events.len() ==> events[i] == Event::Increment,
    ensures
        net(events) == events.len(),
    decreases events.len(),
{
    if events.len() > 0 {
        lemma_net_of_increments(events.drop_last());
    }
}

/// One dispatch does to the router what its event does to a stack, and a
/// router that could be read before it can be read after it.
pub proof fn lemma_dispatch_stacks(database: DatabaseView, event: Event)
    requires
        database.tables.readable(),
    ensures
        dispatched(database, event).tables.readable(),
        dispatched(database, event).tables.router() == stack_after(
            database.tables.router(),
            event,
        ),
{
    let names = database.tables.navigation_stack;
    let after = dispatched(database, event).tables.navigation_stack;
    match event {
        Event::PushRoute { route } => {
            lemma_route_round_trip(route);
            assert(after.drop_last() =~= names);
        },
        _ => {},
    }
}

/// The router is a stack. On a store whose router can be read, whatever
/// sequence of pushes, pops and resets is dispatched, with steps of the
/// counter among them or not, the router can be read afterwards, and it is
/// the router from before with the events applied as stack operations: a
/// push appends, a pop removes the last entry, a reset empties, and a pop of
/// the empty stack does nothing.
pub proof fn lemma_router_is_a_stack(database: DatabaseView, events: Seq<Event>)
    requires
        database.tables.readable(),
    ensures
        run(database, events).tables.readable(),
        run(database, events).tables.router() == stack(database.tables.router(), events),
    decreases events.len(),
{
    if events.len() > 0 {
        lemma_router_is_a_stack(database, events.drop_last());
        lemma_dispatch_stacks(run(database, events.drop_last()), events.last());
    }
}

/// Started on a new store, the router can always be read, and it is the
/// empty stack with the events applied.
pub proof fn lemma_router_from_new_store(database: DatabaseView, events: Seq<Event>)
    requires
        database.tables == TablesView::empty().initialized(),
    ensures
        run(database, events).tables.readable(),
        run(database, events).tables.router() == stack(Seq::empty(), events),
{
    lemma_router_is_a_stack(database, events);
    assert(database.tables.router() =~= Seq::<Route>::empty());
}

/// A store whose router can be read never fails to tell of a commit: a
/// dispatch on it tells the update of its commit, and fails only where the
/// event would take the counter out of its range.
pub proof fn lemma_readable_store_tells(database: DatabaseView, event: Event)
    requires
        database.tables.readable(),
    ensures
        told(database, event) == match statement_for(database, event) {
            Some(_) => Ok::<Option<UpdateView>, StoreError>(emitted(database, event)),
            None => Err::<Option<UpdateView>, StoreError>(StoreError::CounterOutOfRange),
        },
{
    lemma_dispatch_stacks(database, event);
}

/// Updates are appended, and never inserted, merged or taken back: each
/// dispatch adds at most one update, behind those of the dispatches before
/// it, so that the updates of the first `k` dispatches are the first of the
/// updates of the whole sequence.
pub proof fn lemma_updates_are_appended(database: DatabaseView, events: Seq<Event>, k: int)
    requires
        0 <= k <= events.len(),
    ensures
        updates(database, events).len() <= events.len(),
        updates(database, events.subrange(0, k)).len() <= updates(database, events).len(),
        updates(database, events.subrange(0, k)) == updates(database, events).subrange(
            0,
            updates(database, events.subrange(0, k)).len() as int,
        ),
    decreases events.len(),
{
    if k == events.len() {
        assert(events.subrange(0, k) =~= events);
        if events.len() > 0 {
            lemma_updates_are_appended(database, events.drop_last(), k - 1);
        }
    } else {
        let earlier = events.drop_last();
        assert(earlier.subrange(0, k) =~= events.subrange(0, k));
        lemma_updates_are_appended(database, earlier, k);
    }
}

/// The watched tables and the path of a store do not change with a dispatch.
pub proof fn lemma_run_keeps_the_watch(database: DatabaseView, events: Seq<Event>)
    ensures
        run(database, events).watched == database.watched,
        run(database, events).path == database.path,
    decreases events.len(),
{
    if events.len() > 0 {
        lemma_run_keeps_the_watch(database, events.drop_last());
    }
}

/// Every change is told exactly once. On a store that watches both tables
/// and whose router can be read, a dispatch produces an update if and only
/// if it changed a table: the router after the change, with its current
/// route, where the navigation stack changed, and the plain notice of a
/// change where the counter did. A dispatch that changed nothing, such as a
/// pop of the empty stack or a step of the counter that failed, produces
/// none. The dispatch fails only where the counter would leave its range.
pub proof fn lemma_one_update_for_each_change(database: DatabaseView, event: Event)
    requires
        database.watched == watched_tables(),
        database.tables.readable(),
    ensures
        told(database, event) == match statement_for(database, event) {
            Some(_) => Ok::<Option<UpdateView>, StoreError>(emitted(database, event)),
            None => Err::<Option<UpdateView>, StoreError>(StoreError::CounterOutOfRange),
        },
        emitted(database, event) == (if dispatched(database, event).tables.navigation_stack
            != database.tables.navigation_stack {
            Some(
                UpdateView::RouterUpdate {
                    router: dispatched(database, event).tables.router(),
                    current_route: top_of(dispatched(database, event).tables.router()),
                },
            )
        } else if dispatched(database, event).tables.app_state != database.tables.app_state {
            Some(UpdateView::DatabaseUpdate)
        } else {
            None
        }),
{
    lemma_readable_store_tells(database, event);
    // Each statement reports the one table that it changed.
    lemma_table_names_differ();
    let names = database.tables.navigation_stack;
    let state_table = Table::AppState.spec_name();
    let stack_table = Table::NavigationStack.spec_name();
    assert(watched_tables()[0] == state_table && watched_tables()[1] == stack_table);
    match statement_for(database, event) {
        Some(statement) => {
            let reported = database.reported(statement);
            match statement {
                StatementView::InsertState { .. } => {
                    assert(reported[0] == state_table);
                },
                StatementView::PushRoute { .. } => {
                    assert(reported[0] == stack_table);
                },
                StatementView::PopRoute => {
                    if names.len() > 0 {
                        assert(reported[0] == stack_table);
                    }
                },
                StatementView::ResetNavigationStack => {
                    if names.len() > 0 {
                        assert(reported[0] == stack_table);
                    } else {
                        assert(names =~= Seq::<Seq<char>>::empty());
                    }
                },
                _ => {},
            }
        },
        None => {},
    }
}

/// Updates come in the order of their dispatches, none left out and none
/// merged. On a store that watches both tables and whose rows all name
/// routes, a sequence of pushes produces one update for each push: the
/// update of the push at position `i` carries the router as it is after
/// that push, which ends in the route that was pushed.
pub proof fn lemma_pushes_are_told_in_order(database: DatabaseView, events: Seq<Event>, i: int)
    requires
        database.watched == watched_tables(),
        database.tables.readable(),
        forall|j: int| 0 <= j < events.len() ==> (#[trigger] events[j]) is PushRoute,
        0 <= i < events.len(),
    ensures
        updates(database, events).len() == events.len(),
        updates(database, events)[i] == (UpdateView::RouterUpdate {
            router: stack(database.tables.router(), events.subrange(0, i + 1)),
            current_route: Some(events[i]->route),
        }),
    decreases events.len(),
{
    let earlier = events.drop_last();
    let last = events.last();
    let before = run(database, earlier);
    lemma_pushes_count(database, earlier);
    lemma_run_keeps_the_watch(database, earlier);
    lemma_router_is_a_stack(database, earlier);
    lemma_one_update_for_each_change(before, last);
    lemma_dispatch_stacks(before, last);
    if i == events.len() - 1 {
        assert(events.subrange(0, i + 1) =~= events);
        assert(stack(database.tables.router(), events) == stack_after(
            stack(database.tables.router(), earlier),
            last,
        ));
    } else {
        lemma_pushes_are_told_in_order(database, earlier, i);
        assert(earlier.subrange(0, i + 1) =~= events.subrange(0, i + 1));
    }
}

/// A sequence of pushes produces as many updates as it has pushes.
pub proof fn lemma_pushes_count(database: DatabaseView, events: Seq<Event>)
    requires
        database.watched == watched_tables(),
        forall|j: int| 0 <= j < events.len() ==> (#[trigger] events[j]) is PushRoute,
    ensures
        updates(database, events).len() == events.len(),
    decreases events.len(),
{
    if events.len() > 0 {
        let earlier = events.drop_last();
        lemma_pushes_count(database, earlier);
        lemma_run_keeps_the_watch(database, earlier);
    }
}

/// Reading does not disturb, and counting does not move the router: the
/// router depends on the navigation table alone, so two reads with no
/// dispatch between them agree, and so do two reads with only steps of the
/// counter between them.
pub proof fn lemma_reads_agree(database: DatabaseView, events: Seq<Event>)
    requires
        forall|j: int|
            0 <= j < events.len() ==> (#[trigger] events[j]) is Increment || events[j] is Decrement,
    ensures
        run(database, events).tables.readable() == database.tables.readable(),
        run(database, events).tables.router() == database.tables.router(),
        run(database, Seq::empty()).tables == database.tables,
    decreases events.len(),
{
    if events.len() > 0 {
        lemma_reads_agree(database, events.drop_last());
    }
}

/// Initialization happens once. A file without a state gets exactly the one
/// seed row; a file that holds a state is left as it is; and initializing
/// what was initialized changes nothing, so the seed row is neither reset
/// nor repeated.
pub proof fn lemma_initialized_once(file: TablesView)
    ensures
        file.initialized().initialized() == file.initialized(),
        file.app_state.len() == 0 ==> file.initialized().app_state == seq!["0"@],
        file.app_state.len() > 0 ==> file.initialized() == file,
        file.initialized().navigation_stack == file.navigation_stack,
{
}

} // verus!
