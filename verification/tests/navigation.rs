use rust_multiplatform::database::Database;
use rust_multiplatform::navigation::{DecodeError, Route, Router};

const ALL: [Route; 11] = [
    Route::Counter,
    Route::Timer,
    Route::Home,
    Route::Mint,
    Route::MintAmount,
    Route::MintConfirm,
    Route::Melt,
    Route::MeltConfirm,
    Route::TransactionHistory,
    Route::Success,
    Route::Error,
];

#[test]
fn route_names_are_lower_snake_case() {
    assert_eq!(Route::Counter.to_sql(), "counter");
    assert_eq!(Route::Timer.to_sql(), "timer");
    assert_eq!(Route::Home.to_sql(), "home");
    assert_eq!(Route::Mint.to_sql(), "mint");
    assert_eq!(Route::MintAmount.to_sql(), "mint_amount");
    assert_eq!(Route::MintConfirm.to_sql(), "mint_confirm");
    assert_eq!(Route::Melt.to_sql(), "melt");
    assert_eq!(Route::MeltConfirm.to_sql(), "melt_confirm");
    assert_eq!(Route::TransactionHistory.to_sql(), "transaction_history");
    assert_eq!(Route::Success.to_sql(), "success");
    assert_eq!(Route::Error.to_sql(), "error");
}

#[test]
fn every_route_is_read_back_from_its_name() {
    for route in ALL {
        assert_eq!(Route::column_result(route.to_sql()), Ok(route));
    }
}

#[test]
fn an_unknown_name_is_an_error() {
    assert_eq!(Route::column_result("settings"), Err(DecodeError::UnrecognizedRoute));
    assert_eq!(Route::column_result(""), Err(DecodeError::UnrecognizedRoute));
    assert_eq!(Route::column_result("Home"), Err(DecodeError::UnrecognizedRoute));
    assert_eq!(Route::column_result("home "), Err(DecodeError::UnrecognizedRoute));
    assert_eq!(Route::column_result("mint_"), Err(DecodeError::UnrecognizedRoute));
}

#[test]
fn a_new_router_is_empty() {
    let router = Router::new();
    assert!(router.routes.is_empty());
    assert_eq!(router.current_route(), None);
}

#[test]
fn the_current_route_is_the_last() {
    let router = Router { routes: vec![Route::Home, Route::Mint, Route::MintAmount] };
    assert_eq!(router.current_route(), Some(Route::MintAmount));
    let copy = router.clone();
    assert_eq!(copy.routes, router.routes);
}

#[test]
fn names_are_decoded_in_order() {
    let names = vec!["home".to_string(), "mint".to_string(), "mint_confirm".to_string()];
    let router = Router::from_names(&names).unwrap();
    assert_eq!(router.routes, vec![Route::Home, Route::Mint, Route::MintConfirm]);
    assert!(Router::from_names(&Vec::new()).unwrap().routes.is_empty());
}

#[test]
fn an_unknown_name_fails_the_whole_read() {
    let names = vec!["home".to_string(), "bogus".to_string(), "mint".to_string()];
    assert!(matches!(Router::from_names(&names), Err(DecodeError::UnrecognizedRoute)));
    let names = vec!["home".to_string(), "mint".to_string(), "".to_string()];
    assert!(matches!(Router::from_names(&names), Err(DecodeError::UnrecognizedRoute)));
    let names = vec!["Home".to_string()];
    assert!(matches!(Router::from_names(&names), Err(DecodeError::UnrecognizedRoute)));
}

#[test]
fn the_router_is_read_from_the_store() {
    let mut database = Database::new("dir".to_string()).unwrap();
    assert!(Router::get(&database).unwrap().routes.is_empty());
    database.push_route(&Route::Home).unwrap();
    database.push_route(&Route::Melt).unwrap();
    assert_eq!(Router::get(&database).unwrap().routes, vec![Route::Home, Route::Melt]);
}

#[test]
fn reading_twice_gives_the_same_router() {
    let mut database = Database::new("dir".to_string()).unwrap();
    database.push_route(&Route::Counter).unwrap();
    database.push_route(&Route::Timer).unwrap();
    let first = Router::get(&database).unwrap();
    let second = Router::get(&database).unwrap();
    assert_eq!(first.routes, second.routes);
    assert_eq!(first.routes, vec![Route::Counter, Route::Timer]);
    database.increment_state().unwrap();
    assert_eq!(Router::get(&database).unwrap().routes, first.routes);
}
