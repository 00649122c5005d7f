//! The store: its two tables, the mutations that are run against them, and
//! the observer that turns each commit into an update.
//!
//! The tables are held in memory. A program that persists them runs the same
//! statements, in the same order, against its relational store; what the
//! statements do to the rows is stated here.

use crate::navigation::{all_named, routes_of, DecodeError, Route, Router};
use crate::schema::{seed_statement, Statement, StatementView, Table};
use crate::text::{encode_decimal, i32_to_string, parse_i32, parse_i32_spec, str_eq};
use crate::updater::{Update, UpdateView};
use vstd::prelude::*;
use vstd::string::*;

verus! {

/// A failure of the store.
#[derive(Debug, Clone, Copy, PartialEq, Eq, Structural)]
pub enum StoreError {
    /// The counter would leave the range of a 32-bit integer.
    CounterOutOfRange,
    /// The router could not be read: a row of the navigation table names
    /// no route.
    Decode(DecodeError),
}

/// A step of the counter.
#[derive(Debug, Clone, Copy, PartialEq, Eq, Structural)]
pub enum Action {
    Increment,
    Decrement,
}

impl Action {
    /// The value that the counter is taken to have had where the last row is
    /// missing or does not hold a 32-bit integer.
    pub open spec fn default_prior(self) -> int {
        match self {
            Action::Increment => 1,
            Action::Decrement => 0,
        }
    }

    /// What the step adds to the counter.
    pub open spec fn delta(self) -> int {
        match self {
            Action::Increment => 1,
            Action::Decrement => -1,
        }
    }
}

/// The value that the counter had, as far as its last row tells.
pub open spec fn prior_value(prior: Option<Seq<char>>, action: Action) -> int {
    match prior {
        Some(text) => match parse_i32_spec(text) {
            Some(value) => value as int,
            None => action.default_prior(),
        },
        None => action.default_prior(),
    }
}

/// The value of the counter after `action`, given the state of its last row.
pub open spec fn next_value(prior: Option<Seq<char>>, action: Action) -> int {
    prior_value(prior, action) + action.delta()
}

/// The state to insert for `action`, given the state of the last row (`None`
/// where the table is empty): the decimal text of the prior value plus or
/// minus one. Fails where that value is no 32-bit integer.
pub fn next_state(prior: Option<&str>, action: Action) -> (outcome: Result<String, StoreError>)
    ensures
        match outcome {
            Ok(state) => {
                &&& i32::MIN <= next_value(option_text(prior), action) <= i32::MAX
                &&& state@ == encode_decimal(next_value(option_text(prior), action))
            },
            Err(error) => {
                &&& error == StoreError::CounterOutOfRange
                &&& !(i32::MIN <= next_value(option_text(prior), action) <= i32::MAX)
            },
        },
{
    let default: i32 = match action {
        Action::Increment => 1,
        Action::Decrement => 0,
    };
    let base: i32 = match prior {
        Some(text) => match parse_i32(text) {
            Some(value) => value,
            None => default,
        },
        None => default,
    };
    let next = match action {
        Action::Increment => base.checked_add(1),
        Action::Decrement => base.checked_sub(1),
    };
    match next {
        Some(value) => Ok(i32_to_string(value)),
        None => Err(StoreError::CounterOutOfRange),
    }
}

/// The characters of an optional text.
pub open spec fn option_text(text: Option<&str>) -> Option<Seq<char>> {
    match text {
        Some(text) => Some(text@),
        None => None,
    }
}

/// What the two tables hold: the column of states of `app_state` and the
/// column of route names of `navigation_stack`, each in ascending order of
/// the rows' identifiers, which is the order of insertion.
#[verifier::ext_equal]
pub struct TablesView {
    pub app_state: Seq<Seq<char>>,
    pub navigation_stack: Seq<Seq<char>>,
}

impl TablesView {
    /// The tables of a file that was just created.
    pub open spec fn empty() -> TablesView {
        TablesView { app_state: Seq::empty(), navigation_stack: Seq::empty() }
    }

    /// The tables after `statement`. An insert appends a row. The row with
    /// the highest identifier is the last one, so a pop removes the last row,
    /// and does nothing to an empty table.
    pub open spec fn apply(self, statement: StatementView) -> TablesView {
        match statement {
            StatementView::CreateAppState => self,
            StatementView::CreateNavigationStack => self,
            StatementView::InsertState { state } => TablesView {
                app_state: self.app_state.push(state),
                navigation_stack: self.navigation_stack,
            },
            StatementView::PushRoute { route } => TablesView {
                app_state: self.app_state,
                navigation_stack: self.navigation_stack.push(route.sql_name()),
            },
            StatementView::PopRoute => if self.navigation_stack.len() == 0 {
                self
            } else {
                TablesView {
                    app_state: self.app_state,
                    navigation_stack: self.navigation_stack.drop_last(),
                }
            },
            StatementView::ResetNavigationStack => TablesView {
                app_state: self.app_state,
                navigation_stack: Seq::empty(),
            },
        }
    }

    /// The number of rows that `statement` inserts or deletes.
    pub open spec fn affected(self, statement: StatementView) -> int {
        match statement {
            StatementView::CreateAppState => 0,
            StatementView::CreateNavigationStack => 0,
            StatementView::InsertState { .. } => 1,
            StatementView::PushRoute { .. } => 1,
            StatementView::PopRoute => if self.navigation_stack.len() == 0 {
                0
            } else {
                1
            },
            StatementView::ResetNavigationStack => self.navigation_stack.len() as int,
        }
    }

    /// The table in which `statement` inserts or deletes at least one row,
    /// if it does so in any.
    pub open spec fn changed(self, statement: StatementView) -> Option<Table> {
        statement.changed(self.affected(statement))
    }

    /// The state of the row of `app_state` that was inserted last.
    pub open spec fn last_state(self) -> Option<Seq<char>> {
        if self.app_state.len() == 0 {
            None
        } else {
            Some(self.app_state.last())
        }
    }

    /// The count of the rows of `app_state`, as a query gives it.
    pub open spec fn count_state(self) -> int {
        if self.app_state.len() <= i64::MAX {
            self.app_state.len() as int
        } else {
            i64::MAX as int
        }
    }

    /// The tables after initialization: an empty `app_state` gets the seed
    /// row; tables that hold a state are left as they are.
    pub open spec fn initialized(self) -> TablesView {
        if self.app_state.len() == 0 {
            self.apply(seed_statement())
        } else {
            self
        }
    }

    /// Whether the router can be read: whether every row of the navigation
    /// table names a route.
    pub open spec fn readable(self) -> bool {
        all_named(self.navigation_stack)
    }

    /// The router that the navigation table stands for, where it can be
    /// read.
    pub open spec fn router(self) -> Seq<Route>
        recommends
            self.readable(),
    {
        routes_of(self.navigation_stack)
    }
}

/// The two tables.
#[derive(Debug)]
pub struct Tables {
    /// The states of `app_state`, in the order of insertion.
    pub app_state: Vec<String>,
    /// The route names of `navigation_stack`, in the order of insertion.
    pub navigation_stack: Vec<String>,
}

impl View for Tables {
    type V = TablesView;

    open spec fn view(&self) -> TablesView {
        TablesView {
            app_state: self.app_state.deep_view(),
            navigation_stack: self.navigation_stack.deep_view(),
        }
    }
}

impl Tables {
    /// The tables of a file that was just created: both without rows.
    pub fn new() -> (tables: Self)
        ensures
            tables@ == TablesView::empty(),
    {
        Tables { app_state: Vec::new(), navigation_stack: Vec::new() }
    }

    /// Executes `statement` and tells how many rows it inserted or deleted.
    pub fn apply(&mut self, statement: &Statement) -> (rows: usize)
        ensures
            final(self)@ == old(self)@.apply(statement@),
            rows == old(self)@.affected(statement@),
    {
        match statement {
            Statement::CreateAppState => 0,
            Statement::CreateNavigationStack => 0,
            Statement::InsertState { state } => {
                self.app_state.push(state.clone());
                1
            },
            Statement::PushRoute { route } => {
                self.navigation_stack.push(String::from_str(route.to_sql()));
                1
            },
            Statement::PopRoute => match self.navigation_stack.pop() {
                Some(_) => 1,
                None => 0,
            },
            Statement::ResetNavigationStack => {
                let rows: usize = self.navigation_stack.len();
                self.navigation_stack.clear();
                rows
            },
        }
    }

    /// How many rows `app_state` holds.
    pub fn count_state(&self) -> (count: i64)
        ensures
            count == self@.count_state(),
    {
        let rows: u64 = self.app_state.len() as u64;
        if rows > 9223372036854775807 {
            i64::MAX
        } else {
            rows as i64
        }
    }

    /// The state of the row of `app_state` that was inserted last.
    pub fn last_state(&self) -> (state: Option<&str>)
        ensures
            option_text(state) == self@.last_state(),
    {
        let count: usize = self.app_state.len();
        if count == 0 {
            None
        } else {
            Some(self.app_state[count - 1].as_str())
        }
    }
}

/// Whether `name` is one of `names`.
pub fn contains_name(names: &Vec<String>, name: &str) -> (found: bool)
    ensures
        found == names.deep_view().contains(name@),
{
    let mut i: usize = 0;
    while i < names.len()
        invariant
            i <= names.len(),
            forall|j: int| 0 <= j < i ==> names.deep_view()[j] != name@,
        decreases names.len() - i,
    {
        if str_eq(names[i].as_str(), name) {
            assert(names.deep_view()[i as int] == name@);
            return true;
        }
        i += 1;
    }
    false
}

/// Whether the update for a commit that changed the tables named by
/// `changed` is told with the router: it is where the navigation stack is
/// among them.
pub open spec fn reads_router(changed: Seq<Seq<char>>) -> bool {
    changed.contains(Table::NavigationStack.spec_name())
}

/// The outcome of a mutation as a plain value.
pub open spec fn outcome_view(outcome: Result<Option<Update>, StoreError>) -> Result<
    Option<UpdateView>,
    StoreError,
> {
    match outcome {
        Ok(update) => Ok(option_update(update)),
        Err(error) => Err(error),
    }
}

/// The view of an optional update.
pub open spec fn option_update(update: Option<Update>) -> Option<UpdateView> {
    match update {
        Some(update) => Some(update@),
        None => None,
    }
}

/// The last route of a sequence of routes, if it has one.
pub open spec fn top_of(routes: Seq<Route>) -> Option<Route> {
    if routes.len() == 0 {
        None
    } else {
        Some(routes.last())
    }
}

/// Interest in the commits that change one of a set of tables.
#[derive(Debug)]
pub struct Observer {
    name: String,
    tables: Vec<String>,
}

impl Observer {
    /// The name that the observer was given.
    pub closed spec fn spec_name(&self) -> Seq<char> {
        self.name@
    }

    /// The names of the tables that the observer watches.
    pub closed spec fn spec_tables(&self) -> Seq<Seq<char>> {
        self.tables.deep_view()
    }

    /// The update that tells of a commit that changed the tables named by
    /// `changed`, where `router` is the router after the commit. A change of
    /// the navigation stack is told with the router; any other change of a
    /// table as a plain change of the store; a commit that changed no table
    /// is not told at all.
    pub open spec fn spec_update(changed: Seq<Seq<char>>, router: Seq<Route>) -> Option<
        UpdateView,
    > {
        if changed.contains(Table::NavigationStack.spec_name()) {
            Some(UpdateView::RouterUpdate { router, current_route: top_of(router) })
        } else if changed.len() > 0 {
            Some(UpdateView::DatabaseUpdate)
        } else {
            None
        }
    }

    /// An observer of the tables named by `tables`.
    pub fn new(name: &str, tables: Vec<String>) -> (observer: Observer)
        ensures
            observer.spec_name() == name@,
            observer.spec_tables() == tables.deep_view(),
    {
        Observer { name: String::from_str(name), tables }
    }

    /// The names of the tables that the observer watches.
    pub fn tables(&self) -> (tables: Vec<String>)
        ensures
            tables.deep_view() == self.spec_tables(),
    {
        self.tables.clone()
    }

    /// The name that the observer was given.
    pub fn name(&self) -> (name: &str)
        ensures
            name@ == self.spec_name(),
    {
        self.name.as_str()
    }

    /// Whether the observer watches `table`.
    pub fn watches(&self, table: Table) -> (watched: bool)
        ensures
            watched == self.spec_tables().contains(table.spec_name()),
    {
        contains_name(&self.tables, table.name())
    }

    /// Whether the observer is told of a commit that changed `changed`: it
    /// is told of a change of a table that it watches, and of nothing else.
    pub fn is_told(&self, changed: Option<Table>) -> (told: bool)
        ensures
            told == (spec_reported(self.spec_tables(), changed).len() > 0),
    {
        match changed {
            Some(table) => self.watches(table),
            None => false,
        }
    }

    /// Whether the update for a commit that changed `tables` is told with
    /// the router, so that the router has to be read for it.
    pub fn wants_router(&self, tables: &Vec<String>) -> (wanted: bool)
        ensures
            wanted == reads_router(tables.deep_view()),
    {
        contains_name(tables, Table::NavigationStack.name())
    }

    /// Turns the set of tables that a commit changed into the update for the
    /// listener. `router` is the router as read after the commit; it is
    /// looked at only where `wants_router` says so.
    pub fn on_tables_changed(&self, tables: &Vec<String>, router: Router) -> (update: Option<
        Update,
    >)
        ensures
            option_update(update) == Observer::spec_update(tables.deep_view(), router@),
    {
        if contains_name(tables, Table::NavigationStack.name()) {
            let current_route = router.current_route();
            Some(Update::RouterUpdate { router, current_route })
        } else if tables.len() > 0 {
            Some(Update::DatabaseUpdate)
        } else {
            None
        }
    }
}

/// The names of the tables that a commit reports to an observer of the
/// tables `watched`, where the commit changed `changed`: the table that
/// changed, if it is watched. A commit reports tables that changed, never
/// those that only might have.
pub open spec fn spec_reported(watched: Seq<Seq<char>>, changed: Option<Table>) -> Seq<Seq<char>> {
    match changed {
        Some(table) => if watched.contains(table.spec_name()) {
            seq![table.spec_name()]
        } else {
            Seq::empty()
        },
        None => Seq::empty(),
    }
}

/// The names of the tables that a commit reports, where `watched` names the
/// watched tables and the commit changed `changed`.
pub fn reported_tables(watched: &Vec<String>, changed: Option<Table>) -> (reported: Vec<String>)
    ensures
        reported.deep_view() == spec_reported(watched.deep_view(), changed),
{
    let mut reported: Vec<String> = Vec::new();
    match changed {
        Some(table) => {
            if contains_name(watched, table.name()) {
                reported.push(String::from_str(table.name()));
            }
        },
        None => {},
    }
    reported
}

/// A store as a plain value.
#[verifier::ext_equal]
pub struct DatabaseView {
    /// Where the file of the store lies.
    pub path: Seq<char>,
    /// What the tables hold.
    pub tables: TablesView,
    /// The names of the tables whose changes are reported.
    pub watched: Seq<Seq<char>>,
}

impl DatabaseView {
    /// The names of the tables that a commit of `statement` reports.
    pub open spec fn reported(self, statement: StatementView) -> Seq<Seq<char>> {
        spec_reported(self.watched, self.tables.changed(statement))
    }

    /// The update that a commit of `statement` produces, if it produces
    /// one, where the router can be read for it.
    pub open spec fn update(self, statement: StatementView) -> Option<UpdateView> {
        Observer::spec_update(self.reported(statement), self.tables.apply(statement).router())
    }

    /// What a commit of `statement` tells: its update, or the error where
    /// the update needs the router and the navigation table, as the commit
    /// left it, holds a row that names no route.
    pub open spec fn told(self, statement: StatementView) -> Result<Option<UpdateView>, StoreError> {
        if reads_router(self.reported(statement)) && !self.tables.apply(statement).readable() {
            Err(StoreError::Decode(DecodeError::UnrecognizedRoute))
        } else {
            Ok(self.update(statement))
        }
    }

    /// What a step of the counter tells: what the commit of its insert
    /// tells, or the error where the new value is no 32-bit integer.
    pub open spec fn stepped(self, action: Action) -> Result<Option<UpdateView>, StoreError> {
        match self.counted(action) {
            Some(statement) => self.told(statement),
            None => Err(StoreError::CounterOutOfRange),
        }
    }

    /// The store after `statement`.
    pub open spec fn execute(self, statement: StatementView) -> DatabaseView {
        DatabaseView {
            path: self.path,
            tables: self.tables.apply(statement),
            watched: self.watched,
        }
    }

    /// The statement that a step of the counter executes: the insert of
    /// the decimal text of the new value. `None` where the new value is no
    /// 32-bit integer.
    pub open spec fn counted(self, action: Action) -> Option<StatementView> {
        let value = next_value(self.tables.last_state(), action);
        if i32::MIN <= value <= i32::MAX {
            Some(StatementView::InsertState { state: encode_decimal(value) })
        } else {
            None
        }
    }

    /// Whether `after` and `outcome` are what a step of the counter leaves
    /// of this store. Where the new value is a 32-bit integer, its insert
    /// is executed and the commit's update returned. Where it is not, the
    /// step fails and the store stays as it was.
    pub open spec fn counts(
        self,
        action: Action,
        after: DatabaseView,
        outcome: Result<Option<Update>, StoreError>,
    ) -> bool {
        &&& after == match self.counted(action) {
            Some(statement) => self.execute(statement),
            None => self,
        }
        &&& outcome_view(outcome) == self.stepped(action)
    }
}

/// The names of the tables that a store watches.
pub open spec fn watched_tables() -> Seq<Seq<char>> {
    seq![Table::AppState.spec_name(), Table::NavigationStack.spec_name()]
}

/// The path of the store's file below `data_dir`.
pub open spec fn store_path(data_dir: Seq<char>) -> Seq<char> {
    data_dir + "/app_state.db"@
}

/// The path of the store's file below `data_dir`.
pub fn store_file(data_dir: String) -> (path: String)
    ensures
        path@ == store_path(data_dir@),
{
    data_dir.concat("/app_state.db")
}

/// The observer that a store registers: it watches both tables.
pub fn store_observer() -> (observer: Observer)
    ensures
        observer.spec_tables() == watched_tables(),
{
    let mut watched: Vec<String> = Vec::new();
    watched.push(String::from_str(Table::AppState.name()));
    watched.push(String::from_str(Table::NavigationStack.name()));
    Observer::new("observer-1", watched)
}

/// The store.
#[derive(Debug)]
pub struct Database {
    path: String,
    tables: Tables,
    observer: Observer,
}

impl View for Database {
    type V = DatabaseView;

    closed spec fn view(&self) -> DatabaseView {
        DatabaseView {
            path: self.path@,
            tables: self.tables@,
            watched: self.observer.spec_tables(),
        }
    }
}

impl Database {
    /// Opens the store below `data_dir` whose file holds `file`, and
    /// initializes it: both tables are created unless they exist, and an
    /// empty `app_state` gets the seed row `0`. A file that holds a state
    /// already is left as it is. The store watches both tables.
    pub fn open(data_dir: String, file: Tables) -> (outcome: Result<Database, StoreError>)
        ensures
            outcome matches Ok(database) && database@ == (DatabaseView {
                path: store_path(data_dir@),
                tables: file@.initialized(),
                watched: watched_tables(),
            }),
    {
        let path = store_file(data_dir);
        let mut tables = file;
        tables.apply(&Statement::CreateAppState);
        tables.apply(&Statement::CreateNavigationStack);
        match Statement::seed(tables.count_state()) {
            Some(seed) => {
                tables.apply(&seed);
            },
            None => {},
        }
        let observer = store_observer();
        Ok(Database { path, tables, observer })
    }

    /// Creates the store below `data_dir` in a new file.
    pub fn new(data_dir: String) -> (outcome: Result<Database, StoreError>)
        ensures
            outcome matches Ok(database) && database@ == (DatabaseView {
                path: store_path(data_dir@),
                tables: TablesView::empty().initialized(),
                watched: watched_tables(),
            }),
    {
        Database::open(data_dir, Tables::new())
    }

    /// Closes the store; what its file holds is handed back.
    pub fn close(self) -> (file: Tables)
        ensures
            file@ == self@.tables,
    {
        self.tables
    }

    /// Where the file of the store lies.
    pub fn path(&self) -> (path: &str)
        ensures
            path@ == self@.path,
    {
        self.path.as_str()
    }

    /// The tables, for queries.
    pub fn get_connection(&self) -> (tables: &Tables)
        ensures
            tables@ == self@.tables,
    {
        &self.tables
    }

    /// Executes `statement` as one watched transaction, in three steps that
    /// are taken in this order: the watched tables are read, the statement
    /// is run, and the change is published to the observer. Returns the
    /// update that the commit produced: exactly one where the statement
    /// changed a watched table, none otherwise.
    ///
    /// The update for a change of the navigation stack carries the router,
    /// which is read after the commit. Where that read fails, because a row
    /// names no route, the statement stays committed and the error is
    /// returned in place of the update.
    pub fn execute(&mut self, statement: Statement) -> (outcome: Result<Option<Update>, StoreError>)
        ensures
            final(self)@ == old(self)@.execute(statement@),
            outcome_view(outcome) == old(self)@.told(statement@),
    {
        // Sync: the tables that are watched are fixed before the write.
        let watched = self.observer.tables();
        // Apply.
        let rows = self.tables.apply(&statement);
        // Publish: what changed, among the tables that were watched.
        let reported = reported_tables(&watched, statement.changed(rows));
        if reported.len() == 0 {
            return Ok(None);
        }
        let router = if self.observer.wants_router(&reported) {
            match Router::from_names(&self.tables.navigation_stack) {
                Ok(router) => router,
                Err(error) => { return Err(StoreError::Decode(error)); },
            }
        } else {
            Router::new()
        };
        Ok(self.observer.on_tables_changed(&reported, router))
    }

    /// Adds one to the counter: a row is inserted that holds the last row's
    /// value plus one.
    pub fn increment_state(&mut self) -> (outcome: Result<Option<Update>, StoreError>)
        ensures
            old(self)@.counts(Action::Increment, final(self)@, outcome),
    {
        let state = match next_state(self.tables.last_state(), Action::Increment) {
            Ok(state) => state,
            Err(error) => { return Err(error); },
        };
        self.execute(Statement::InsertState { state })
    }

    /// Takes one from the counter: a row is inserted that holds the last
    /// row's value minus one.
    pub fn decrement_state(&mut self) -> (outcome: Result<Option<Update>, StoreError>)
        ensures
            old(self)@.counts(Action::Decrement, final(self)@, outcome),
    {
        let state = match next_state(self.tables.last_state(), Action::Decrement) {
            Ok(state) => state,
            Err(error) => { return Err(error); },
        };
        self.execute(Statement::InsertState { state })
    }

    /// Pushes `route` on the navigation stack.
    pub fn push_route(&mut self, route: &Route) -> (outcome: Result<Option<Update>, StoreError>)
        ensures
            final(self)@ == old(self)@.execute(StatementView::PushRoute { route: *route }),
            outcome_view(outcome) == old(self)@.told(StatementView::PushRoute { route: *route }),
    {
        self.execute(Statement::PushRoute { route: *route })
    }

    /// Takes the top entry off the navigation stack; an empty stack stays
    /// empty.
    pub fn pop_route(&mut self) -> (outcome: Result<Option<Update>, StoreError>)
        ensures
            final(self)@ == old(self)@.execute(StatementView::PopRoute),
            outcome_view(outcome) == old(self)@.told(StatementView::PopRoute),
    {
        self.execute(Statement::PopRoute)
    }

    /// Empties the navigation stack.
    pub fn reset_navigation_stack(&mut self) -> (outcome: Result<Option<Update>, StoreError>)
        ensures
            final(self)@ == old(self)@.execute(StatementView::ResetNavigationStack),
            outcome_view(outcome) == old(self)@.told(StatementView::ResetNavigationStack),
    {
        self.execute(Statement::ResetNavigationStack)
    }

    /// Empties the navigation stack.
    pub fn reset_router(&mut self) -> (outcome: Result<Option<Update>, StoreError>)
        ensures
            final(self)@ == old(self)@.execute(StatementView::ResetNavigationStack),
            outcome_view(outcome) == old(self)@.told(StatementView::ResetNavigationStack),
    {
        self.reset_navigation_stack()
    }
}

/// The store of one application, opened when it is first written to, or
/// right away on the file that it is given.
#[derive(Debug)]
pub struct FfiDatabase {
    db_path: String,
    database: Option<Database>,
}

impl FfiDatabase {
    /// The directory that the store is opened below.
    pub closed spec fn spec_path(&self) -> Seq<char> {
        self.db_path@
    }

    /// The store, once it is open.
    pub closed spec fn store(&self) -> Option<DatabaseView> {
        match self.database {
            Some(database) => Some(database@),
            None => None,
        }
    }

    /// The store as the next write finds it: the store that is open, or
    /// else a store that is newly created.
    pub open spec fn opened(&self) -> DatabaseView {
        match self.store() {
            Some(database) => database,
            None => DatabaseView {
                path: store_path(self.spec_path()),
                tables: TablesView::empty().initialized(),
                watched: watched_tables(),
            },
        }
    }

    /// A handle on the store below `db_path`. The store is not opened yet.
    pub fn new(db_path: String) -> (handle: Self)
        ensures
            handle.spec_path() == db_path@,
            handle.store() is None,
    {
        FfiDatabase { db_path, database: None }
    }

    /// Whether the store is open.
    pub fn is_open(&self) -> (open: bool)
        ensures
            open == self.store() is Some,
    {
        self.database.is_some()
    }

    /// A handle on the store below `db_path` whose file holds `file`. The
    /// store is opened and initialized right away, so that what the file
    /// held before is found again.
    pub fn open(db_path: String, file: Tables) -> (handle: Self)
        ensures
            handle.spec_path() == db_path@,
            handle.store() == Some(
                DatabaseView {
                    path: store_path(db_path@),
                    tables: file@.initialized(),
                    watched: watched_tables(),
                },
            ),
    {
        let database = Database::open(db_path.clone(), file).unwrap();
        FfiDatabase { db_path, database: Some(database) }
    }

    /// Closes the store; what its file holds is handed back. A store that
    /// was never opened is opened first, so that its file is initialized.
    pub fn close(self) -> (file: Tables)
        ensures
            file@ == self.opened().tables,
    {
        let mut handle = self;
        handle.get_database().close()
    }

    /// The router, as the navigation table holds it now. A row that names
    /// no route fails the read.
    pub fn get_router(&self) -> (outcome: Result<Router, DecodeError>)
        requires
            self.store() is Some,
        ensures
            match outcome {
                Ok(router) => self.store()->0.tables.readable() && router@
                    == self.store()->0.tables.router(),
                Err(error) => error == DecodeError::UnrecognizedRoute
                    && !self.store()->0.tables.readable(),
            },
    {
        Router::get(self.database.as_ref().unwrap())
    }

    /// The routes of the router. A row that names no route fails the read.
    pub fn get_routes(&self) -> (outcome: Result<Vec<Route>, DecodeError>)
        requires
            self.store() is Some,
        ensures
            match outcome {
                Ok(routes) => self.store()->0.tables.readable() && routes@
                    == self.store()->0.tables.router(),
                Err(error) => error == DecodeError::UnrecognizedRoute
                    && !self.store()->0.tables.readable(),
            },
    {
        match Router::get(self.database.as_ref().unwrap()) {
            Ok(router) => Ok(router.routes),
            Err(error) => Err(error),
        }
    }

    /// The current route, or `None` where the router is empty. A row that
    /// names no route fails the read.
    pub fn get_current_route(&self) -> (outcome: Result<Option<Route>, DecodeError>)
        requires
            self.store() is Some,
        ensures
            match outcome {
                Ok(current) => self.store()->0.tables.readable() && current == top_of(
                    self.store()->0.tables.router(),
                ),
                Err(error) => error == DecodeError::UnrecognizedRoute
                    && !self.store()->0.tables.readable(),
            },
    {
        match Router::get(self.database.as_ref().unwrap()) {
            Ok(router) => Ok(router.current_route()),
            Err(error) => Err(error),
        }
    }

    /// Pushes `route` on the router. Returns the commit's update, or the
    /// error where the router cannot be read for it.
    pub fn push_route(&mut self, route: Route) -> (outcome: Result<Option<Update>, StoreError>)
        ensures
            final(self).spec_path() == old(self).spec_path(),
            final(self).store() == Some(
                old(self).opened().execute(StatementView::PushRoute { route }),
            ),
            outcome_view(outcome) == old(self).opened().told(StatementView::PushRoute { route }),
    {
        self.run(Statement::PushRoute { route })
    }

    /// Takes the top route off the router. Returns the commit's update, or
    /// the error where the router cannot be read for it.
    pub fn pop_route(&mut self) -> (outcome: Result<Option<Update>, StoreError>)
        ensures
            final(self).spec_path() == old(self).spec_path(),
            final(self).store() == Some(old(self).opened().execute(StatementView::PopRoute)),
            outcome_view(outcome) == old(self).opened().told(StatementView::PopRoute),
    {
        self.run(Statement::PopRoute)
    }

    /// Empties the router. Returns the commit's update.
    pub fn reset_router(&mut self) -> (outcome: Result<Option<Update>, StoreError>)
        ensures
            final(self).spec_path() == old(self).spec_path(),
            final(self).store() == Some(
                old(self).opened().execute(StatementView::ResetNavigationStack),
            ),
            outcome_view(outcome) == old(self).opened().told(StatementView::ResetNavigationStack),
    {
        self.run(Statement::ResetNavigationStack)
    }

    /// The store, opened first where it is not open yet.
    fn get_database(&mut self) -> (database: Database)
        ensures
            database@ == old(self).opened(),
            final(self).spec_path() == old(self).spec_path(),
            final(self).store() is None,
    {
        match self.database.take() {
            Some(database) => database,
            None => Database::new(self.db_path.clone()).unwrap(),
        }
    }

    /// Executes `statement` on the store and keeps the store open.
    fn run(&mut self, statement: Statement) -> (outcome: Result<Option<Update>, StoreError>)
        ensures
            final(self).spec_path() == old(self).spec_path(),
            final(self).store() == Some(old(self).opened().execute(statement@)),
            outcome_view(outcome) == old(self).opened().told(statement@),
    {
        let mut database = self.get_database();
        let outcome = database.execute(statement);
        self.database = Some(database);
        outcome
    }
}

} // verus!
