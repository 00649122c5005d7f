//! The persisted layout: the two tables, and the statements and queries that
//! the store runs against them.

use crate::navigation::Route;
use vstd::prelude::*;
use vstd::string::*;

verus! {

/// A table of the store.
#[derive(Debug, Clone, Copy, PartialEq, Eq, Structural)]
pub enum Table {
    /// `app_state`: the counter, one row for each value it has had.
    AppState,
    /// `navigation_stack`: the routes, one row for each entry of the stack.
    NavigationStack,
}

impl Table {
    /// The name of the table in the store.
    pub open spec fn spec_name(self) -> Seq<char> {
        match self {
            Table::AppState => "app_state"@,
            Table::NavigationStack => "navigation_stack"@,
        }
    }

    /// The name of the table in the store.
    pub fn name(&self) -> (name: &'static str)
        ensures
            name@ == self.spec_name(),
    {
        match self {
            Table::AppState => "app_state",
            Table::NavigationStack => "navigation_stack",
        }
    }
}

/// The two table names differ.
pub proof fn lemma_table_names_differ()
    ensures
        Table::AppState.spec_name() != Table::NavigationStack.spec_name(),
{
    reveal_strlit("app_state");
    reveal_strlit("navigation_stack");
    assert("app_state"@.len() == 9);
    assert("navigation_stack"@.len() == 16);
}

/// The text of the statement that creates `app_state`.
pub const CREATE_APP_STATE: &'static str =
    "CREATE TABLE IF NOT EXISTS app_state (id INTEGER PRIMARY KEY, state TEXT NOT NULL)";

/// The text of the statement that creates `navigation_stack`.
pub const CREATE_NAVIGATION_STACK: &'static str =
    "CREATE TABLE IF NOT EXISTS navigation_stack (id INTEGER PRIMARY KEY AUTOINCREMENT, route_name TEXT NOT NULL)";

/// The text of the statement that inserts a state.
pub const INSERT_STATE: &'static str = "INSERT INTO app_state (state) VALUES (?1)";

/// The text of the statement that pushes a route.
pub const PUSH_ROUTE: &'static str = "INSERT INTO navigation_stack (route_name) VALUES (?1)";

/// The text of the statement that pops a route.
pub const POP_ROUTE: &'static str =
    "DELETE FROM navigation_stack WHERE id = (SELECT MAX(id) FROM navigation_stack)";

/// The text of the statement that empties the navigation stack.
pub const RESET_NAVIGATION_STACK: &'static str = "DELETE FROM navigation_stack";

/// A statement that the store executes. Each is one transaction.
#[derive(Debug)]
pub enum Statement {
    /// Creates `app_state` unless it exists.
    CreateAppState,
    /// Creates `navigation_stack` unless it exists.
    CreateNavigationStack,
    /// Appends a row to `app_state`.
    InsertState { state: String },
    /// Appends a row to `navigation_stack`.
    PushRoute { route: Route },
    /// Deletes the row of `navigation_stack` with the highest identifier.
    PopRoute,
    /// Deletes every row of `navigation_stack`.
    ResetNavigationStack,
}

/// A statement as a plain value.
pub enum StatementView {
    CreateAppState,
    CreateNavigationStack,
    InsertState { state: Seq<char> },
    PushRoute { route: Route },
    PopRoute,
    ResetNavigationStack,
}

impl View for Statement {
    type V = StatementView;

    open spec fn view(&self) -> StatementView {
        match *self {
            Statement::CreateAppState => StatementView::CreateAppState,
            Statement::CreateNavigationStack => StatementView::CreateNavigationStack,
            Statement::InsertState { state } => StatementView::InsertState { state: state@ },
            Statement::PushRoute { route } => StatementView::PushRoute { route },
            Statement::PopRoute => StatementView::PopRoute,
            Statement::ResetNavigationStack => StatementView::ResetNavigationStack,
        }
    }
}

impl StatementView {
    /// The text of the statement.
    pub open spec fn sql(self) -> Seq<char> {
        match self {
            StatementView::CreateAppState => CREATE_APP_STATE@,
            StatementView::CreateNavigationStack => CREATE_NAVIGATION_STACK@,
            StatementView::InsertState { .. } => INSERT_STATE@,
            StatementView::PushRoute { .. } => PUSH_ROUTE@,
            StatementView::PopRoute => POP_ROUTE@,
            StatementView::ResetNavigationStack => RESET_NAVIGATION_STACK@,
        }
    }

    /// The value bound to the statement's one parameter, if it has one.
    pub open spec fn param(self) -> Option<Seq<char>> {
        match self {
            StatementView::InsertState { state } => Some(state),
            StatementView::PushRoute { route } => Some(route.sql_name()),
            _ => None,
        }
    }

    /// The table whose rows the statement may change; `None` for a
    /// statement that only defines a table.
    pub open spec fn table(self) -> Option<Table> {
        match self {
            StatementView::CreateAppState => None,
            StatementView::CreateNavigationStack => None,
            StatementView::InsertState { .. } => Some(Table::AppState),
            _ => Some(Table::NavigationStack),
        }
    }

    /// The table that the statement changed, given the number of rows that
    /// it inserted or deleted: its table, if it touched a row at all.
    pub open spec fn changed(self, rows: int) -> Option<Table> {
        if rows > 0 {
            self.table()
        } else {
            None
        }
    }
}

impl Statement {
    /// The text of the statement.
    pub fn sql(&self) -> (text: &'static str)
        ensures
            text@ == self@.sql(),
    {
        match self {
            Statement::CreateAppState => CREATE_APP_STATE,
            Statement::CreateNavigationStack => CREATE_NAVIGATION_STACK,
            Statement::InsertState { .. } => INSERT_STATE,
            Statement::PushRoute { .. } => PUSH_ROUTE,
            Statement::PopRoute => POP_ROUTE,
            Statement::ResetNavigationStack => RESET_NAVIGATION_STACK,
        }
    }

    /// The value bound to the statement's one parameter, if it has one.
    pub fn param(&self) -> (value: Option<String>)
        ensures
            option_string(value) == self@.param(),
    {
        match self {
            Statement::InsertState { state } => Some(state.clone()),
            Statement::PushRoute { route } => Some(String::from_str(route.to_sql())),
            _ => None,
        }
    }

    /// The table that the statement changed, given the number of rows that
    /// it inserted or deleted. A statement that touched no row changed no
    /// table.
    pub fn changed(&self, rows: usize) -> (table: Option<Table>)
        ensures
            table == self@.changed(rows as int),
    {
        if rows > 0 {
            self.table()
        } else {
            None
        }
    }

    /// The statement that initializes `app_state`, given the count of its
    /// rows: the insert of the seed row `0` for a table without rows, and
    /// nothing for a table that holds a row.
    pub fn seed(count: i64) -> (statement: Option<Statement>)
        ensures
            match statement {
                Some(statement) => count == 0 && statement@ == seed_statement(),
                None => count != 0,
            },
    {
        if count == 0 {
            Some(Statement::InsertState { state: String::from_str("0") })
        } else {
            None
        }
    }

    /// The table whose rows the statement may change.
    pub fn table(&self) -> (table: Option<Table>)
        ensures
            table == self@.table(),
    {
        match self {
            Statement::CreateAppState => None,
            Statement::CreateNavigationStack => None,
            Statement::InsertState { .. } => Some(Table::AppState),
            _ => Some(Table::NavigationStack),
        }
    }
}

/// The insert of the seed row.
pub open spec fn seed_statement() -> StatementView {
    StatementView::InsertState { state: "0"@ }
}

/// The characters of an optional string.
pub open spec fn option_string(text: Option<String>) -> Option<Seq<char>> {
    match text {
        Some(text) => Some(text@),
        None => None,
    }
}

/// The text of the query for the count of the states.
pub const COUNT_STATE: &'static str = "SELECT COUNT(*) FROM app_state";

/// The text of the query for the last state.
pub const LAST_STATE: &'static str = "SELECT state FROM app_state ORDER BY id DESC LIMIT 1";

/// The text of the query for the route names.
pub const ROUTES: &'static str = "SELECT route_name FROM navigation_stack ORDER BY id";

/// A query that the store answers. None changes a row.
#[derive(Debug, Clone, Copy, PartialEq, Eq, Structural)]
pub enum Query {
    /// How many rows `app_state` holds.
    CountState,
    /// The state of the row of `app_state` that was inserted last.
    LastState,
    /// The route names of `navigation_stack`, in the order of insertion.
    Routes,
}

impl Query {
    /// The text of the query.
    pub open spec fn spec_sql(self) -> Seq<char> {
        match self {
            Query::CountState => COUNT_STATE@,
            Query::LastState => LAST_STATE@,
            Query::Routes => ROUTES@,
        }
    }

    /// The text of the query.
    pub fn sql(&self) -> (text: &'static str)
        ensures
            text@ == self.spec_sql(),
    {
        match self {
            Query::CountState => COUNT_STATE,
            Query::LastState => LAST_STATE,
            Query::Routes => ROUTES,
        }
    }
}

} // verus!
