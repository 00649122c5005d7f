use crossbeam::channel::{unbounded, Receiver, Sender};
use rusqlite::{params_from_iter, Connection, OpenFlags, OptionalExtension};
use rust_multiplatform::database::{store_observer, Observer, Tables};
use rust_multiplatform::navigation::{DecodeError, Route, Router};
use rust_multiplatform::schema::{Query, Statement};
use sqlite_watcher::connection::Connection as WatcherConnection;
use sqlite_watcher::watcher::{TableObserver, Watcher};
use std::collections::BTreeSet;
use std::sync::Arc;
use std::time::Duration;

fn run(connection: &Connection, statement: &Statement) -> usize {
    connection.execute(statement.sql(), params_from_iter(statement.param())).unwrap()
}

fn column(connection: &Connection, query: &str) -> Vec<String> {
    let mut statement = connection.prepare(query).unwrap();
    let rows = statement.query_map([], |row| row.get::<_, String>(0)).unwrap();
    rows.map(|row| row.unwrap()).collect()
}

fn count_state(connection: &Connection) -> i64 {
    connection.query_row(Query::CountState.sql(), [], |row| row.get(0)).unwrap()
}

fn last_state(connection: &Connection) -> Option<String> {
    connection.query_row(Query::LastState.sql(), [], |row| row.get(0)).optional().unwrap()
}

fn script() -> Vec<Statement> {
    vec![
        Statement::PopRoute,
        Statement::ResetNavigationStack,
        Statement::InsertState { state: "0".to_string() },
        Statement::PushRoute { route: Route::Home },
        Statement::PushRoute { route: Route::Mint },
        Statement::InsertState { state: "1".to_string() },
        Statement::PopRoute,
        Statement::PushRoute { route: Route::MintAmount },
        Statement::PushRoute { route: Route::MintConfirm },
        Statement::InsertState { state: "-12".to_string() },
        Statement::ResetNavigationStack,
        Statement::ResetNavigationStack,
        Statement::PopRoute,
        Statement::PushRoute { route: Route::TransactionHistory },
        Statement::PopRoute,
        Statement::PushRoute { route: Route::Success },
        Statement::InsertState { state: "not a number".to_string() },
    ]
}

#[test]
fn the_tables_change_as_the_relational_store_does() {
    let connection = Connection::open_in_memory().unwrap();
    let mut tables = Tables::new();
    assert_eq!(run(&connection, &Statement::CreateAppState), tables.apply(&Statement::CreateAppState));
    assert_eq!(
        run(&connection, &Statement::CreateNavigationStack),
        tables.apply(&Statement::CreateNavigationStack)
    );
    assert_eq!(count_state(&connection), tables.count_state());
    assert_eq!(last_state(&connection).as_deref(), tables.last_state());
    for statement in script() {
        let rows = run(&connection, &statement);
        assert_eq!(tables.apply(&statement), rows, "{:?}", statement);
        assert_eq!(column(&connection, "SELECT state FROM app_state ORDER BY id"), tables.app_state);
        assert_eq!(column(&connection, Query::Routes.sql()), tables.navigation_stack);
        assert_eq!(count_state(&connection), tables.count_state());
        assert_eq!(last_state(&connection).as_deref(), tables.last_state());
    }
    assert_eq!(Router::from_names(&tables.navigation_stack).unwrap().routes, vec![Route::Success]);
}

#[test]
fn a_row_of_the_relational_store_that_names_no_route_fails_the_read() {
    let connection = Connection::open_in_memory().unwrap();
    run(&connection, &Statement::CreateNavigationStack);
    run(&connection, &Statement::PushRoute { route: Route::Home });
    connection.execute("INSERT INTO navigation_stack (route_name) VALUES ('bogus')", []).unwrap();
    run(&connection, &Statement::PushRoute { route: Route::Mint });
    let names = column(&connection, Query::Routes.sql());
    assert_eq!(names, vec!["home", "bogus", "mint"]);
    assert!(matches!(Router::from_names(&names), Err(DecodeError::UnrecognizedRoute)));
    run(&connection, &Statement::PopRoute);
    run(&connection, &Statement::PopRoute);
    let names = column(&connection, Query::Routes.sql());
    assert_eq!(Router::from_names(&names).unwrap().routes, vec![Route::Home]);
}

#[test]
fn the_seed_is_inserted_once_in_the_relational_store() {
    let path = "file:seeded_once?mode=memory&cache=shared";
    let flags = OpenFlags::SQLITE_OPEN_READ_WRITE
        | OpenFlags::SQLITE_OPEN_CREATE
        | OpenFlags::SQLITE_OPEN_URI;
    let first = Connection::open_with_flags(path, flags).unwrap();
    let mut opened = Vec::new();
    for _ in 0..3 {
        let connection = Connection::open_with_flags(path, flags).unwrap();
        run(&connection, &Statement::CreateAppState);
        run(&connection, &Statement::CreateNavigationStack);
        if let Some(seed) = Statement::seed(count_state(&connection)) {
            run(&connection, &seed);
        }
        assert_eq!(column(&connection, "SELECT state FROM app_state ORDER BY id"), vec!["0"]);
        opened.push(connection);
    }
    assert_eq!(count_state(&first), 1);
    assert_eq!(last_state(&first), Some("0".to_string()));
}

struct Telling {
    observer: Observer,
    notices: Sender<Vec<String>>,
}

impl TableObserver for Telling {
    fn tables(&self) -> Vec<String> {
        self.observer.tables()
    }

    fn on_tables_changed(&self, tables: &BTreeSet<String>) {
        self.notices.send(tables.iter().cloned().collect()).unwrap();
    }
}

fn watched() -> (WatcherConnection<Connection>, Receiver<Vec<String>>) {
    let watcher = Watcher::new().unwrap();
    let connection =
        WatcherConnection::new(Connection::open_in_memory().unwrap(), Arc::clone(&watcher)).unwrap();
    run(&connection, &Statement::CreateAppState);
    run(&connection, &Statement::CreateNavigationStack);
    let (sender, notices) = unbounded();
    watcher.add_observer(Box::new(Telling { observer: store_observer(), notices: sender })).unwrap();
    (connection, notices)
}

#[test]
fn the_watcher_tells_of_the_tables_that_the_statement_changed() {
    let (mut connection, notices) = watched();
    let mut tables = Tables::new();
    for statement in script() {
        connection.sync_watcher_tables().unwrap();
        let rows = run(&connection, &statement);
        connection.publish_watcher_changes().unwrap();
        assert_eq!(tables.apply(&statement), rows);
        match statement.changed(rows) {
            Some(table) => {
                let told = notices.recv_timeout(Duration::from_secs(5)).unwrap();
                assert_eq!(told, vec![table.name().to_string()], "{:?}", statement);
            }
            None => {
                assert!(
                    notices.recv_timeout(Duration::from_millis(100)).is_err(),
                    "{:?}",
                    statement
                );
            }
        }
    }
}

#[test]
fn a_notice_of_the_watcher_becomes_the_update_of_the_commit() {
    let (mut connection, notices) = watched();
    let observer = store_observer();
    let mut seen = Vec::new();
    for route in [Route::Home, Route::Mint] {
        let statement = Statement::PushRoute { route };
        connection.sync_watcher_tables().unwrap();
        let rows = run(&connection, &statement);
        connection.publish_watcher_changes().unwrap();
        assert_eq!(rows, 1);
        let told = notices.recv_timeout(Duration::from_secs(5)).unwrap();
        let router = Router::from_names(&column(&connection, Query::Routes.sql())).unwrap();
        match observer.on_tables_changed(&told, router) {
            Some(rust_multiplatform::updater::Update::RouterUpdate { router, current_route }) => {
                seen.push((router.routes, current_route))
            }
            _ => panic!("a push is told with the router"),
        }
    }
    assert_eq!(
        seen,
        vec![
            (vec![Route::Home], Some(Route::Home)),
            (vec![Route::Home, Route::Mint], Some(Route::Mint)),
        ]
    );
}
