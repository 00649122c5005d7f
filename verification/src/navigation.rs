//! The navigation stack: routes, their persisted names, and the router that
//! is projected from the rows of the navigation table.

use crate::database::Database;
use crate::text::str_eq;
use vstd::prelude::*;

verus! {

/// A screen of the application.
#[derive(Debug, Clone, Copy, PartialEq, Eq, Structural)]
pub enum Route {
    Counter,
    Timer,
    Home,
    Mint,
    MintAmount,
    MintConfirm,
    Melt,
    MeltConfirm,
    TransactionHistory,
    Success,
    Error,
}

/// A persisted route name that names no route.
#[derive(Debug, Clone, Copy, PartialEq, Eq, Structural)]
pub enum DecodeError {
    /// The text is not the name of any route.
    UnrecognizedRoute,
}

/// The route that `name` is the persisted name of, if there is one.
pub open spec fn route_named(name: Seq<char>) -> Option<Route> {
    if name == "counter"@ {
        Some(Route::Counter)
    } else if name == "timer"@ {
        Some(Route::Timer)
    } else if name == "home"@ {
        Some(Route::Home)
    } else if name == "mint"@ {
        Some(Route::Mint)
    } else if name == "mint_amount"@ {
        Some(Route::MintAmount)
    } else if name == "mint_confirm"@ {
        Some(Route::MintConfirm)
    } else if name == "melt"@ {
        Some(Route::Melt)
    } else if name == "melt_confirm"@ {
        Some(Route::MeltConfirm)
    } else if name == "transaction_history"@ {
        Some(Route::TransactionHistory)
    } else if name == "success"@ {
        Some(Route::Success)
    } else if name == "error"@ {
        Some(Route::Error)
    } else {
        None
    }
}

/// Whether every name of a column of persisted names names a route. Only
/// such a column can be read as a router.
pub open spec fn all_named(names: Seq<Seq<char>>) -> bool {
    forall|i: int| 0 <= i < names.len() ==> route_named(#[trigger] names[i]) is Some
}

/// The routes that a column of persisted names decodes to: one route for
/// each name, in the same order.
pub open spec fn routes_of(names: Seq<Seq<char>>) -> Seq<Route>
    recommends
        all_named(names),
{
    Seq::new(names.len(), |i: int| route_named(names[i])->0)
}

/// The persisted names of a sequence of routes, in the same order.
pub open spec fn names_of(routes: Seq<Route>) -> Seq<Seq<char>> {
    Seq::new(routes.len(), |i: int| routes[i].sql_name())
}

impl Route {
    /// The name under which the route is persisted: its variant in lower
    /// snake case.
    pub open spec fn sql_name(self) -> Seq<char> {
        match self {
            Route::Counter => "counter"@,
            Route::Timer => "timer"@,
            Route::Home => "home"@,
            Route::Mint => "mint"@,
            Route::MintAmount => "mint_amount"@,
            Route::MintConfirm => "mint_confirm"@,
            Route::Melt => "melt"@,
            Route::MeltConfirm => "melt_confirm"@,
            Route::TransactionHistory => "transaction_history"@,
            Route::Success => "success"@,
            Route::Error => "error"@,
        }
    }

    /// The text that is stored for the route.
    pub fn to_sql(&self) -> (name: &'static str)
        ensures
            name@ == self.sql_name(),
    {
        match self {
            Route::Counter => "counter",
            Route::Timer => "timer",
            Route::Home => "home",
            Route::Mint => "mint",
            Route::MintAmount => "mint_amount",
            Route::MintConfirm => "mint_confirm",
            Route::Melt => "melt",
            Route::MeltConfirm => "melt_confirm",
            Route::TransactionHistory => "transaction_history",
            Route::Success => "success",
            Route::Error => "error",
        }
    }

    /// The route that a stored text names. Text that names no route is an
    /// error, never a default route.
    pub fn column_result(text: &str) -> (route: Result<Route, DecodeError>)
        ensures
            route == match route_named(text@) {
                Some(named) => Ok::<Route, DecodeError>(named),
                None => Err::<Route, DecodeError>(DecodeError::UnrecognizedRoute),
            },
    {
        if str_eq(text, "counter") {
            Ok(Route::Counter)
        } else if str_eq(text, "timer") {
            Ok(Route::Timer)
        } else if str_eq(text, "home") {
            Ok(Route::Home)
        } else if str_eq(text, "mint") {
            Ok(Route::Mint)
        } else if str_eq(text, "mint_amount") {
            Ok(Route::MintAmount)
        } else if str_eq(text, "mint_confirm") {
            Ok(Route::MintConfirm)
        } else if str_eq(text, "melt") {
            Ok(Route::Melt)
        } else if str_eq(text, "melt_confirm") {
            Ok(Route::MeltConfirm)
        } else if str_eq(text, "transaction_history") {
            Ok(Route::TransactionHistory)
        } else if str_eq(text, "success") {
            Ok(Route::Success)
        } else if str_eq(text, "error") {
            Ok(Route::Error)
        } else {
            Err(DecodeError::UnrecognizedRoute)
        }
    }
}

/// Every route is found again under its persisted name, and under no other
/// text: the encoding loses nothing and no two routes share a name.
pub proof fn lemma_route_round_trip(route: Route)
    ensures
        route_named(route.sql_name()) == Some(route),
        forall|name: Seq<char>| route_named(name) == Some(route) ==> name == route.sql_name(),
{
    reveal_strlit("counter");
    reveal_strlit("timer");
    reveal_strlit("home");
    reveal_strlit("mint");
    reveal_strlit("mint_amount");
    reveal_strlit("mint_confirm");
    reveal_strlit("melt");
    reveal_strlit("melt_confirm");
    reveal_strlit("transaction_history");
    reveal_strlit("success");
    reveal_strlit("error");
    // Two names differ in their length,
    assert("home"@.len() == 4 && "mint"@.len() == 4 && "melt"@.len() == 4);
    assert("timer"@.len() == 5 && "error"@.len() == 5);
    assert("counter"@.len() == 7 && "success"@.len() == 7);
    assert("mint_amount"@.len() == 11);
    assert("mint_confirm"@.len() == 12 && "melt_confirm"@.len() == 12);
    assert("transaction_history"@.len() == 19);
    // or else in their first or second character.
    assert("home"@[0] == 'h' && "mint"@[0] == 'm' && "melt"@[0] == 'm');
    assert("mint"@[1] == 'i' && "melt"@[1] == 'e');
    assert("timer"@[0] == 't' && "error"@[0] == 'e');
    assert("counter"@[0] == 'c' && "success"@[0] == 's');
    assert("mint_confirm"@[1] == 'i' && "melt_confirm"@[1] == 'e');
}

/// The names of a sequence of routes can be read, and reading them gives
/// the routes back.
pub proof fn lemma_routes_round_trip(routes: Seq<Route>)
    ensures
        all_named(names_of(routes)),
        routes_of(names_of(routes)) == routes,
{
    let names = names_of(routes);
    assert forall|i: int| 0 <= i < names.len() implies route_named(#[trigger] names[i]) == Some(
        routes[i],
    ) by {
        lemma_route_round_trip(routes[i]);
    }
    assert(routes_of(names) =~= routes);
}

/// The navigation history, oldest entry first; the last entry is the
/// current route.
#[derive(Debug)]
pub struct Router {
    pub routes: Vec<Route>,
}

impl View for Router {
    type V = Seq<Route>;

    open spec fn view(&self) -> Seq<Route> {
        self.routes@
    }
}

impl Clone for Router {
    fn clone(&self) -> (copy: Self)
        ensures
            copy@ == self@,
    {
        Router { routes: self.routes.clone() }
    }
}

impl Router {
    /// An empty router.
    pub fn new() -> (router: Self)
        ensures
            router@ == Seq::<Route>::empty(),
    {
        Router { routes: Vec::new() }
    }

    /// The router that a column of persisted route names stands for: the
    /// names decoded in order. A name that names no route is an error: it
    /// is neither passed over nor replaced, and no router is returned.
    pub fn from_names(names: &Vec<String>) -> (outcome: Result<Router, DecodeError>)
        ensures
            match outcome {
                Ok(router) => all_named(names.deep_view()) && router@ == routes_of(
                    names.deep_view(),
                ),
                Err(error) => error == DecodeError::UnrecognizedRoute && !all_named(
                    names.deep_view(),
                ),
            },
    {
        let mut routes: Vec<Route> = Vec::new();
        let mut i: usize = 0;
        while i < names.len()
            invariant
                i <= names.len(),
                all_named(names.deep_view().subrange(0, i as int)),
                routes@ == routes_of(names.deep_view().subrange(0, i as int)),
            decreases names.len() - i,
        {
            let ghost read = names.deep_view().subrange(0, i as int);
            let ghost next = names.deep_view().subrange(0, i + 1);
            match Route::column_result(names[i].as_str()) {
                Ok(route) => {
                    routes.push(route);
                    assert forall|j: int| 0 <= j < next.len() implies route_named(
                        #[trigger] next[j],
                    ) is Some by {
                        if j < i {
                            assert(next[j] == read[j]);
                        }
                    }
                    assert(routes@ =~= routes_of(next)) by {
                        assert forall|j: int| 0 <= j < i implies routes_of(next)[j] == routes_of(
                            read,
                        )[j] by {
                            assert(next[j] == read[j]);
                        }
                    }
                },
                Err(error) => {
                    assert(route_named(names.deep_view()[i as int]) is None);
                    return Err(error);
                },
            }
            i += 1;
        }
        assert(names.deep_view().subrange(0, names.len() as int) =~= names.deep_view());
        Ok(Router { routes })
    }

    /// The router of `database`, read from its navigation table. Nothing is
    /// kept between two calls: each reads the table anew, and two calls
    /// with no change of the table between them give the same outcome. A
    /// row that names no route fails the read.
    pub fn get(database: &Database) -> (outcome: Result<Router, DecodeError>)
        ensures
            match outcome {
                Ok(router) => database@.tables.readable() && router@
                    == database@.tables.router(),
                Err(error) => error == DecodeError::UnrecognizedRoute
                    && !database@.tables.readable(),
            },
    {
        Router::from_names(&database.get_connection().navigation_stack)
    }

    /// The current route: the top of the stack, or `None` for an empty router.
    pub fn current_route(&self) -> (current: Option<Route>)
        ensures
            current == if self@.len() == 0 {
                None::<Route>
            } else {
                Some(self@.last())
            },
    {
        let depth: usize = self.routes.len();
        if depth == 0 {
            None
        } else {
            Some(self.routes[depth - 1])
        }
    }
}

} // verus!
