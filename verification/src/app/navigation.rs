//! Which page the main window shows.
use crate::app::contracts::{route_index, Route};
use vstd::prelude::*;

verus! {

/// The page currently shown.
#[derive(Debug, Clone, Copy, PartialEq, Eq)]
pub struct NavigationState {
    current: Route,
}

impl NavigationState {
    pub closed spec fn view_route(self) -> Route {
        self.current
    }

    /// Navigation starts on the welcome page.
    pub fn new() -> (r: Self)
        ensures
            r.view_route() == Route::Welcome,
    {
        Self { current: Route::Welcome }
    }

    pub fn current(self) -> (r: Route)
        ensures
            r == self.view_route(),
    {
        self.current
    }

    pub fn navigate_to(&mut self, route: Route)
        ensures
            final(self).view_route() == route,
    {
        self.current = route;
    }

    /// Moves to the page with this index; an unknown index changes nothing.
    pub fn navigate_to_index(&mut self, index: i32) -> (moved: bool)
        ensures
            moved <==> (0 <= index && index <= 3),
            moved ==> route_index(final(self).view_route()) == index,
            !moved ==> final(self).view_route() == old(self).view_route(),
    {
        match Route::from_index(index) {
            Some(route) => {
                self.navigate_to(route);
                true
            },
            None => false,
        }
    }
}

impl Default for NavigationState {
    fn default() -> (r: Self)
        ensures
            r.view_route() == Route::Welcome,
    {
        Self::new()
    }
}

/// Law: navigating to a page's index shows that page.
pub proof fn law_navigate_to_index_of_route(r: Route)
    ensures
        0 <= route_index(r) <= 3,
{
}

} // verus!
