//! The application: the store and the event bus behind one handle, and the
//! events that are dispatched to it.

use crate::database::{
    next_state, next_value, option_text, outcome_view, store_path, watched_tables, Action,
    Database, DatabaseView, StoreError, Tables, TablesView,
};
use crate::navigation::Route;
use crate::schema::{Statement, StatementView};
use crate::text::encode_decimal;
use crate::updater::{Delivery, EventBus, FfiUpdater, Unsent, Update, UpdateView};
use crossbeam::channel::Receiver;
use vstd::prelude::*;

verus! {

/// What the frontend asks of the application.
#[derive(Debug, Clone, Copy, PartialEq, Eq, Structural)]
pub enum Event {
    /// Add one to the counter.
    Increment,
    /// Take one from the counter.
    Decrement,
    /// Push a route on the navigation stack.
    PushRoute { route: Route },
    /// Take the top route off the navigation stack.
    PopRoute,
    /// Empty the navigation stack.
    ResetRouter,
}

/// The statement that `event` is decoded into on the store `database`;
/// `None` where the event would take the counter out of its range.
pub open spec fn statement_for(database: DatabaseView, event: Event) -> Option<StatementView> {
    match event {
        Event::Increment => database.counted(Action::Increment),
        Event::Decrement => database.counted(Action::Decrement),
        Event::PushRoute { route } => Some(StatementView::PushRoute { route }),
        Event::PopRoute => Some(StatementView::PopRoute),
        Event::ResetRouter => Some(StatementView::ResetNavigationStack),
    }
}

/// The store after `event` was dispatched. An event that fails leaves the
/// store as it was.
pub open spec fn dispatched(database: DatabaseView, event: Event) -> DatabaseView {
    match statement_for(database, event) {
        Some(statement) => database.execute(statement),
        None => database,
    }
}

/// The update that dispatching `event` produces, if it produces one, where
/// the router can be read for it.
pub open spec fn emitted(database: DatabaseView, event: Event) -> Option<UpdateView> {
    match statement_for(database, event) {
        Some(statement) => database.update(statement),
        None => None,
    }
}

/// What dispatching `event` tells: the update of its commit, the error where
/// the event would take the counter out of its range, or the error where
/// the router cannot be read for the update.
pub open spec fn told(database: DatabaseView, event: Event) -> Result<Option<UpdateView>, StoreError> {
    match statement_for(database, event) {
        Some(statement) => database.told(statement),
        None => Err(StoreError::CounterOutOfRange),
    }
}

impl Event {
    /// The step of the counter that the event asks for, if it asks for one.
    /// Only such an event needs the state of the last row to be read.
    pub fn action(self) -> (action: Option<Action>)
        ensures
            action == match self {
                Event::Increment => Some(Action::Increment),
                Event::Decrement => Some(Action::Decrement),
                _ => None,
            },
    {
        match self {
            Event::Increment => Some(Action::Increment),
            Event::Decrement => Some(Action::Decrement),
            _ => None,
        }
    }

    /// Decodes the event into the statement to execute, given the state of
    /// the last row of `app_state` (`None` where the table is empty).
    pub fn statement(self, prior: Option<&str>) -> (outcome: Result<Statement, StoreError>)
        ensures
            match self {
                Event::Increment => counted_outcome(prior, Action::Increment, outcome),
                Event::Decrement => counted_outcome(prior, Action::Decrement, outcome),
                Event::PushRoute { route } => outcome matches Ok(statement) && statement@
                    == (StatementView::PushRoute { route }),
                Event::PopRoute => outcome matches Ok(statement) && statement@
                    == StatementView::PopRoute,
                Event::ResetRouter => outcome matches Ok(statement) && statement@
                    == StatementView::ResetNavigationStack,
            },
    {
        match self {
            Event::Increment => match next_state(prior, Action::Increment) {
                Ok(state) => Ok(Statement::InsertState { state }),
                Err(error) => Err(error),
            },
            Event::Decrement => match next_state(prior, Action::Decrement) {
                Ok(state) => Ok(Statement::InsertState { state }),
                Err(error) => Err(error),
            },
            Event::PushRoute { route } => Ok(Statement::PushRoute { route }),
            Event::PopRoute => Ok(Statement::PopRoute),
            Event::ResetRouter => Ok(Statement::ResetNavigationStack),
        }
    }
}

/// Whether `outcome` is the statement of a step of the counter, given the
/// state of the last row: the insert of the new value's decimal text, or
/// the error where the new value is no 32-bit integer.
pub open spec fn counted_outcome(
    prior: Option<&str>,
    action: Action,
    outcome: Result<Statement, StoreError>,
) -> bool {
    let value = next_value(option_text(prior), action);
    if i32::MIN <= value <= i32::MAX {
        outcome matches Ok(statement) && statement@ == (StatementView::InsertState {
            state: encode_decimal(value),
        })
    } else {
        outcome matches Err(error) && error == StoreError::CounterOutOfRange
    }
}

/// The application: its store and its event bus.
pub struct App {
    database: Database,
    bus: EventBus,
}

impl App {
    /// The store of the application.
    pub closed spec fn store(&self) -> DatabaseView {
        self.database@
    }

    /// Starts the application on the store below `data_dir` whose file holds
    /// `file`: the store is opened and initialized, the update channel is
    /// created and its sending end installed on the bus.
    pub fn open(data_dir: String, file: Tables) -> (outcome: Result<App, StoreError>)
        ensures
            outcome matches Ok(app) && app.store() == (DatabaseView {
                path: store_path(data_dir@),
                tables: file@.initialized(),
                watched: watched_tables(),
            }),
    {
        let database = match Database::open(data_dir, file) {
            Ok(database) => database,
            Err(error) => { return Err(error); },
        };
        Ok(App { database, bus: EventBus::new() })
    }

    /// Starts the application on a new store below `data_dir`.
    pub fn new(data_dir: String) -> (outcome: Result<App, StoreError>)
        ensures
            outcome matches Ok(app) && app.store() == (DatabaseView {
                path: store_path(data_dir@),
                tables: TablesView::empty().initialized(),
                watched: watched_tables(),
            }),
    {
        App::open(data_dir, Tables::new())
    }

    /// Stops the application; what the file of its store holds is handed back.
    pub fn close(self) -> (file: Tables)
        ensures
            file@ == self.store().tables,
    {
        self.database.close()
    }

    /// The store, for reading.
    pub fn database(&self) -> (database: &Database)
        ensures
            database@ == self.store(),
    {
        &self.database
    }

    /// The receiving end of the bus.
    pub closed spec fn receiving_end(&self) -> Receiver<Update> {
        self.bus.receiving_end()
    }

    /// The receiving end of the bus, for the listener. Every call gives the
    /// same end.
    pub fn update_receiver(&self) -> (receiver: &Receiver<Update>)
        ensures
            *receiver == self.receiving_end(),
    {
        self.bus.receiver()
    }

    /// Decodes `event` into an operation of the store and executes it.
    /// Returns the update that the commit produced, if it produced one. An
    /// event that would take the counter out of its range fails and changes
    /// nothing. A change of the navigation stack whose router cannot be
    /// read stays committed and fails with the error of the read. The bus
    /// is left as it is.
    pub fn handle_event(&mut self, event: Event) -> (outcome: Result<Option<Update>, StoreError>)
        ensures
            final(self).store() == dispatched(old(self).store(), event),
            final(self).receiving_end() == old(self).receiving_end(),
            outcome_view(outcome) == told(old(self).store(), event),
    {
        let prior = match event.action() {
            Some(_) => self.database.get_connection().last_state(),
            None => None,
        };
        match event.statement(prior) {
            Ok(statement) => self.database.execute(statement),
            Err(error) => Err(error),
        }
    }

    /// Puts the update of a commit on the bus; a commit without an update
    /// puts nothing on it. An update that the bus does not take comes back
    /// in the error.
    pub fn publish(&self, update: Option<Update>) -> (outcome: Result<(), Unsent<Update>>)
        ensures
            update is None ==> outcome is Ok,
            outcome matches Err(unsent) ==> update == Some(unsent.message()),
    {
        self.bus.publish(update)
    }

    /// Takes the oldest update off the bus, if there is one, and hands it to
    /// `listener`.
    pub fn deliver_next<L: FfiUpdater + ?Sized>(&self, listener: &L) -> (delivery: Delivery) {
        self.bus.deliver_next(listener)
    }
}

/// Why a dispatch failed.
#[derive(Debug)]
pub enum DispatchError {
    /// The store failed: it refused the operation and nothing was changed,
    /// or it committed the operation and could not read the router for the
    /// update.
    Store(StoreError),
    /// The operation was committed, but the bus did not take its update.
    Undelivered(Unsent<Update>),
}

/// The handle through which the frontend reaches the application. The
/// application is started when the handle is first used, on a new store
/// below the directory that the handle was made with; from then on every
/// call reaches that same application.
pub struct FfiApp {
    data_dir: String,
    app: Option<App>,
}

impl FfiApp {
    /// The directory below which the store of the application lies.
    pub closed spec fn spec_data_dir(&self) -> Seq<char> {
        self.data_dir@
    }

    /// The store of the application, once the application is started.
    pub closed spec fn started(&self) -> Option<DatabaseView> {
        match self.app {
            Some(app) => Some(app.store()),
            None => None,
        }
    }

    /// The receiving end of the application's bus, once the application is
    /// started.
    pub closed spec fn bus(&self) -> Option<Receiver<Update>> {
        match self.app {
            Some(app) => Some(app.receiving_end()),
            None => None,
        }
    }

    /// The store as the next call finds it: the store of the application
    /// that is running, or else the store of one that is newly started.
    pub open spec fn store(&self) -> DatabaseView {
        match self.started() {
            Some(store) => store,
            None => DatabaseView {
                path: store_path(self.spec_data_dir()),
                tables: TablesView::empty().initialized(),
                watched: watched_tables(),
            },
        }
    }

    /// A handle on the application whose store lies below `data_dir`. The
    /// application is not started yet.
    pub fn new(data_dir: String) -> (handle: FfiApp)
        ensures
            handle.spec_data_dir() == data_dir@,
            handle.started() is None,
            handle.bus() is None,
    {
        FfiApp { data_dir, app: None }
    }

    /// A handle on the application that is started on the store below
    /// `data_dir` whose file holds `file`.
    pub fn open(data_dir: String, file: Tables) -> (handle: FfiApp)
        ensures
            handle.spec_data_dir() == data_dir@,
            handle.started() == Some(
                DatabaseView {
                    path: store_path(data_dir@),
                    tables: file@.initialized(),
                    watched: watched_tables(),
                },
            ),
            handle.bus() is Some,
    {
        let app = App::open(data_dir.clone(), file).unwrap();
        FfiApp { data_dir, app: Some(app) }
    }

    /// Dispatches `event`: the event is decoded into an operation of the
    /// store, the operation is executed, and the update of its commit is put
    /// on the bus. The exclusive borrow keeps every other dispatch and every
    /// reader out until the call returns.
    pub fn dispatch(&mut self, event: Event) -> (outcome: Result<(), DispatchError>)
        ensures
            final(self).spec_data_dir() == old(self).spec_data_dir(),
            final(self).started() == Some(dispatched(old(self).store(), event)),
            final(self).bus() is Some,
            old(self).bus() is Some ==> final(self).bus() == old(self).bus(),
            match outcome {
                Ok(_) => told(old(self).store(), event) is Ok,
                Err(DispatchError::Store(error)) => told(old(self).store(), event) == Err::<
                    Option<UpdateView>,
                    StoreError,
                >(error),
                Err(DispatchError::Undelivered(unsent)) => told(old(self).store(), event) == Ok::<
                    Option<UpdateView>,
                    StoreError,
                >(Some(unsent.message()@)),
            },
            told(old(self).store(), event) == Ok::<Option<UpdateView>, StoreError>(None)
                ==> outcome is Ok,
    {
        let mut app = self.take_app();
        let handled = app.handle_event(event);
        let outcome = match handled {
            Ok(update) => match app.publish(update) {
                Ok(()) => Ok(()),
                Err(unsent) => Err(DispatchError::Undelivered(unsent)),
            },
            Err(error) => Err(DispatchError::Store(error)),
        };
        self.app = Some(app);
        outcome
    }

    /// The application behind the handle, started first where it is not
    /// running yet.
    pub fn inner(&mut self) -> (app: &App)
        ensures
            final(self).spec_data_dir() == old(self).spec_data_dir(),
            final(self).started() == Some(old(self).store()),
            final(self).bus() == Some(app.receiving_end()),
            old(self).bus() is Some ==> final(self).bus() == old(self).bus(),
            app.store() == old(self).store(),
    {
        let app = self.take_app();
        self.app = Some(app);
        self.app.as_ref().unwrap()
    }

    /// The application, started first where it is not running yet. It is
    /// taken out of the handle, to be put back by the caller.
    fn take_app(&mut self) -> (app: App)
        ensures
            final(self).spec_data_dir() == old(self).spec_data_dir(),
            final(self).started() is None,
            app.store() == old(self).store(),
            old(self).bus() is Some ==> old(self).bus() == Some(app.receiving_end()),
    {
        match self.app.take() {
            Some(app) => app,
            None => App::new(self.data_dir.clone()).unwrap(),
        }
    }
}

} // verus!
