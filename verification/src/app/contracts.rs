//! The pages of the application and the service seams between its layers.
use vstd::prelude::*;

verus! {

/// A page of the main window.
#[derive(Debug, Clone, Copy, PartialEq, Eq, Structural)]
pub enum Route {
    Welcome,
    Configure,
    Search,
    Tasks,
}

/// The position of a page in the navigation bar.
pub open spec fn route_index(r: Route) -> i32 {
    match r {
        Route::Welcome => 0,
        Route::Configure => 1,
        Route::Search => 2,
        Route::Tasks => 3,
    }
}

impl Route {
    /// Every page, in navigation order.
    pub const ALL: [Route; 4] = [Route::Welcome, Route::Configure, Route::Search, Route::Tasks];

    pub fn index(self) -> (r: i32)
        ensures
            r == route_index(self),
    {
        match self {
            Self::Welcome => 0,
            Self::Configure => 1,
            Self::Search => 2,
            Self::Tasks => 3,
        }
    }

    pub fn from_index(index: i32) -> (r: Option<Self>)
        ensures
            r matches Some(route) ==> route_index(route) == index,
            r is None <==> !(0 <= index && index <= 3),
    {
        match index {
            0 => Some(Self::Welcome),
            1 => Some(Self::Configure),
            2 => Some(Self::Search),
            3 => Some(Self::Tasks),
            _ => None,
        }
    }
}

/// Law: every page has a distinct index in `0..4`, and `from_index` undoes `index`.
pub proof fn law_route_index_round_trip(r: Route, s: Route)
    ensures
        0 <= route_index(r) <= 3,
        route_index(r) == route_index(s) ==> r == s,
{
}

/// The seam through which pages read the active theme.
pub trait ThemeProvider {}

/// The seam through which pages read localized text.
pub trait I18nProvider {}

/// The seam through which pages show dialogs.
pub trait DialogService {}

} // verus!
