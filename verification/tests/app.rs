use crossbeam::channel::{unbounded, TryRecvError};
use rust_multiplatform::app::{App, DispatchError, Event, FfiApp};
use rust_multiplatform::database::{StoreError, Tables};
use rust_multiplatform::navigation::{DecodeError, Route};
use rust_multiplatform::schema::Statement;
use rust_multiplatform::text::parse_i32;
use rust_multiplatform::updater::{
    deliver, deliver_next, Delivery, EventBus, FfiUpdater, Idle, Unsent, Update, Updater,
};
use std::sync::{Mutex, RwLock};

struct Recorder {
    seen: Mutex<Vec<Vec<Route>>>,
}

impl Recorder {
    fn new() -> Recorder {
        Recorder { seen: Mutex::new(Vec::new()) }
    }

    fn seen(&self) -> Vec<Vec<Route>> {
        self.seen.lock().unwrap().clone()
    }
}

impl FfiUpdater for Recorder {
    fn update(&self, update: Update) {
        let routes = match update {
            Update::RouterUpdate { router, .. } => router.routes,
            Update::DatabaseUpdate => Vec::new(),
        };
        self.seen.lock().unwrap().push(routes);
    }
}

fn counter(app: &App) -> Option<i32> {
    app.database().get_connection().last_state().and_then(parse_i32)
}

#[test]
fn only_a_step_of_the_counter_reads_the_state() {
    assert_eq!(Event::Increment.action(), Some(rust_multiplatform::database::Action::Increment));
    assert_eq!(Event::Decrement.action(), Some(rust_multiplatform::database::Action::Decrement));
    assert_eq!(Event::PushRoute { route: Route::Home }.action(), None);
    assert_eq!(Event::PopRoute.action(), None);
    assert_eq!(Event::ResetRouter.action(), None);
}

#[test]
fn events_are_decoded_into_statements() {
    assert!(matches!(
        Event::Increment.statement(Some("4")),
        Ok(Statement::InsertState { state }) if state == "5"
    ));
    assert!(matches!(
        Event::Decrement.statement(Some("4")),
        Ok(Statement::InsertState { state }) if state == "3"
    ));
    assert!(matches!(
        Event::Increment.statement(None),
        Ok(Statement::InsertState { state }) if state == "2"
    ));
    assert!(matches!(
        Event::Increment.statement(Some("2147483647")),
        Err(StoreError::CounterOutOfRange)
    ));
    assert!(matches!(
        Event::PushRoute { route: Route::Home }.statement(None),
        Ok(Statement::PushRoute { route: Route::Home })
    ));
    assert!(matches!(Event::PopRoute.statement(Some("1")), Ok(Statement::PopRoute)));
    assert!(matches!(Event::ResetRouter.statement(None), Ok(Statement::ResetNavigationStack)));
}

#[test]
fn updates_arrive_in_the_order_of_the_dispatches() {
    let mut handle = FfiApp::new("dir".to_string());
    handle.dispatch(Event::PushRoute { route: Route::Home }).unwrap();
    handle.dispatch(Event::PushRoute { route: Route::Mint }).unwrap();
    let receiver = handle.inner().update_receiver();
    match receiver.try_recv() {
        Ok(Update::RouterUpdate { router, current_route }) => {
            assert_eq!(router.routes, vec![Route::Home]);
            assert_eq!(current_route, Some(Route::Home));
        }
        _ => panic!("the first update tells of the first push"),
    }
    match receiver.try_recv() {
        Ok(Update::RouterUpdate { router, current_route }) => {
            assert_eq!(router.routes, vec![Route::Home, Route::Mint]);
            assert_eq!(current_route, Some(Route::Mint));
        }
        _ => panic!("the second update tells of the second push"),
    }
    assert!(matches!(receiver.try_recv(), Err(TryRecvError::Empty)));
}

#[test]
fn every_change_puts_one_update_on_the_bus() {
    let mut handle = FfiApp::new("dir".to_string());
    let events = [
        Event::Increment,
        Event::PushRoute { route: Route::Home },
        Event::PopRoute,
        Event::PopRoute,
        Event::Decrement,
        Event::ResetRouter,
        Event::PushRoute { route: Route::Melt },
        Event::ResetRouter,
    ];
    for event in events {
        handle.dispatch(event).unwrap();
    }
    let receiver = handle.inner().update_receiver();
    assert!(matches!(receiver.try_recv(), Ok(Update::DatabaseUpdate)));
    assert!(matches!(receiver.try_recv(), Ok(Update::RouterUpdate { .. })));
    assert!(matches!(receiver.try_recv(), Ok(Update::RouterUpdate { .. })));
    assert!(matches!(receiver.try_recv(), Ok(Update::DatabaseUpdate)));
    assert!(matches!(receiver.try_recv(), Ok(Update::RouterUpdate { .. })));
    assert!(matches!(receiver.try_recv(), Ok(Update::RouterUpdate { .. })));
    assert!(matches!(receiver.try_recv(), Err(TryRecvError::Empty)));
    assert_eq!(counter(handle.inner()), Some(0));
}

#[test]
fn the_listener_is_told_in_order() {
    let mut app = App::new("dir".to_string()).unwrap();
    let recorder = Recorder::new();
    assert_eq!(app.deliver_next(&recorder), Delivery::Nothing);
    for route in [Route::Home, Route::Mint, Route::MintConfirm] {
        let update = app.handle_event(Event::PushRoute { route }).unwrap();
        app.publish(update).unwrap();
    }
    let update = app.handle_event(Event::Increment).unwrap();
    app.publish(update).unwrap();
    assert_eq!(app.deliver_next(&recorder), Delivery::Delivered);
    assert_eq!(app.deliver_next(&recorder), Delivery::Delivered);
    assert_eq!(app.deliver_next(&recorder), Delivery::Delivered);
    assert_eq!(app.deliver_next(&recorder), Delivery::Delivered);
    assert_eq!(app.deliver_next(&recorder), Delivery::Nothing);
    assert_eq!(
        recorder.seen(),
        vec![
            vec![Route::Home],
            vec![Route::Home, Route::Mint],
            vec![Route::Home, Route::Mint, Route::MintConfirm],
            vec![],
        ]
    );
}

#[test]
fn delivery_passes_on_why_there_was_no_update() {
    let recorder = Recorder::new();
    assert_eq!(deliver(Err(Idle::Empty), &recorder), Delivery::Nothing);
    assert_eq!(deliver(Err(Idle::Disconnected), &recorder), Delivery::Closed);
    assert_eq!(deliver(Ok(Update::DatabaseUpdate), &recorder), Delivery::Delivered);
    assert_eq!(recorder.seen().len(), 1);
    let (sender, receiver) = unbounded::<Update>();
    assert_eq!(deliver_next(&receiver, &recorder), Delivery::Nothing);
    sender.send(Update::DatabaseUpdate).unwrap();
    drop(sender);
    assert_eq!(deliver_next(&receiver, &recorder), Delivery::Delivered);
    assert_eq!(deliver_next(&receiver, &recorder), Delivery::Closed);
    assert_eq!(recorder.seen().len(), 2);
}

#[test]
fn the_bus_keeps_the_sender_that_came_first() {
    let (first, first_receiver) = unbounded();
    let (second, second_receiver) = unbounded();
    let mut updater = Updater::new();
    assert!(!updater.is_initialized());
    updater.init(first);
    assert!(updater.is_initialized());
    updater.init(second);
    updater.send_update(Update::DatabaseUpdate).unwrap();
    assert!(matches!(first_receiver.try_recv(), Ok(Update::DatabaseUpdate)));
    assert!(matches!(second_receiver.try_recv(), Err(TryRecvError::Disconnected)));
}

#[test]
fn an_update_comes_back_when_nobody_listens() {
    let (sender, receiver) = unbounded();
    let mut updater = Updater::new();
    updater.init(sender);
    drop(receiver);
    assert!(matches!(
        updater.send_update(Update::DatabaseUpdate),
        Err(Unsent::Disconnected(Update::DatabaseUpdate))
    ));
}

#[test]
fn an_update_comes_back_when_the_channel_is_full() {
    let (sender, _receiver) = crossbeam::channel::bounded(1);
    let mut updater = Updater::new();
    updater.init(sender);
    updater.send_update(Update::DatabaseUpdate).unwrap();
    assert!(matches!(
        updater.send_update(Update::DatabaseUpdate),
        Err(Unsent::Full(Update::DatabaseUpdate))
    ));
}

#[test]
fn a_bus_is_made_on_the_ends_it_is_given() {
    let (sender, receiver) = unbounded();
    let bus = EventBus::from_ends(sender, receiver.clone());
    bus.publish(Some(Update::DatabaseUpdate)).unwrap();
    assert!(matches!(receiver.try_recv(), Ok(Update::DatabaseUpdate)));
    assert!(matches!(bus.receiver().try_recv(), Err(TryRecvError::Empty)));
}

#[test]
fn a_bus_hands_back_the_update_that_its_channel_does_not_take() {
    let (sender, receiver) = crossbeam::channel::bounded(1);
    let bus = EventBus::from_ends(sender, receiver);
    bus.publish(Some(Update::DatabaseUpdate)).unwrap();
    bus.publish(None).unwrap();
    assert!(matches!(
        bus.publish(Some(Update::DatabaseUpdate)),
        Err(Unsent::Full(Update::DatabaseUpdate))
    ));
    assert_eq!(bus.receiver().len(), 1);
}

#[test]
fn a_commit_without_an_update_puts_nothing_on_the_bus() {
    let bus = EventBus::new();
    bus.publish(None).unwrap();
    assert!(matches!(bus.receiver().try_recv(), Err(TryRecvError::Empty)));
    bus.publish(Some(Update::DatabaseUpdate)).unwrap();
    assert!(matches!(bus.receiver().try_recv(), Ok(Update::DatabaseUpdate)));
}

#[test]
fn a_dispatch_that_fails_changes_nothing() {
    let file = Tables { app_state: vec!["-2147483648".to_string()], navigation_stack: Vec::new() };
    let mut app = App::open("dir".to_string(), file).unwrap();
    assert!(matches!(app.handle_event(Event::Decrement), Err(StoreError::CounterOutOfRange)));
    assert_eq!(counter(&app), Some(i32::MIN));
    assert_eq!(app.database().get_connection().count_state(), 1);
    assert!(matches!(app.update_receiver().try_recv(), Err(TryRecvError::Empty)));
    assert!(matches!(app.handle_event(Event::Increment), Ok(Some(Update::DatabaseUpdate))));
    assert_eq!(counter(&app), Some(i32::MIN + 1));
    let file = app.close();
    assert_eq!(file.app_state.len(), 2);
}

#[test]
fn the_handle_starts_the_application_with_its_first_use() {
    let mut handle = FfiApp::new("dir".to_string());
    assert!(matches!(handle.inner().update_receiver().try_recv(), Err(TryRecvError::Empty)));
    assert_eq!(counter(handle.inner()), Some(0));
    assert_eq!(handle.inner().database().path(), "dir/app_state.db");
    for _ in 0..3 {
        handle.dispatch(Event::Increment).unwrap();
    }
    assert_eq!(counter(handle.inner()), Some(3));
    assert_eq!(handle.inner().update_receiver().len(), 3);
}

#[test]
fn a_dispatch_whose_router_cannot_be_read_fails_and_sends_nothing() {
    let file = Tables {
        app_state: vec!["1".to_string()],
        navigation_stack: vec!["home".to_string(), "bogus".to_string()],
    };
    let mut handle = FfiApp::open("dir".to_string(), file);
    assert!(matches!(
        handle.dispatch(Event::PushRoute { route: Route::Mint }),
        Err(DispatchError::Store(StoreError::Decode(DecodeError::UnrecognizedRoute)))
    ));
    assert_eq!(
        handle.inner().database().get_connection().navigation_stack,
        vec!["home".to_string(), "bogus".to_string(), "mint".to_string()]
    );
    assert!(matches!(handle.inner().update_receiver().try_recv(), Err(TryRecvError::Empty)));
    handle.dispatch(Event::Increment).unwrap();
    assert!(matches!(handle.inner().update_receiver().try_recv(), Ok(Update::DatabaseUpdate)));
    handle.dispatch(Event::ResetRouter).unwrap();
    assert!(matches!(
        handle.inner().update_receiver().try_recv(),
        Ok(Update::RouterUpdate { current_route: None, .. })
    ));
}

#[test]
fn a_dispatch_error_tells_what_failed() {
    let file = Tables { app_state: vec!["2147483647".to_string()], navigation_stack: Vec::new() };
    let mut handle = FfiApp::open("dir".to_string(), file);
    assert!(matches!(
        handle.dispatch(Event::Increment),
        Err(DispatchError::Store(StoreError::CounterOutOfRange))
    ));
    assert_eq!(counter(handle.inner()), Some(i32::MAX));
    assert!(matches!(handle.inner().update_receiver().try_recv(), Err(TryRecvError::Empty)));
    handle.dispatch(Event::Decrement).unwrap();
    assert_eq!(counter(handle.inner()), Some(i32::MAX - 1));
    assert!(matches!(handle.inner().update_receiver().try_recv(), Ok(Update::DatabaseUpdate)));
}

#[test]
fn serialized_dispatches_lose_no_increment() {
    let callers = 8;
    let each = 125;
    let handle = RwLock::new(FfiApp::new("dir".to_string()));
    crossbeam::scope(|scope| {
        for _ in 0..callers {
            scope.spawn(|_| {
                for _ in 0..each {
                    handle.write().unwrap().dispatch(Event::Increment).unwrap();
                }
            });
        }
    })
    .unwrap();
    let mut handle = handle.write().unwrap();
    assert_eq!(counter(handle.inner()), Some(callers * each));
    assert_eq!(handle.inner().update_receiver().len(), 1000);
}
