//! The table of routes: which path is answered by which handler.

use vstd::prelude::*;

verus! {

/// The handlers that the server has.
#[derive(Clone, Copy, Debug, PartialEq, Eq, Structural)]
pub enum Handler {
    /// The gallery.
    Index,
    /// The administrator's page.
    Admin,
    /// The script and the style sheet.
    StyleScript,
    /// A thumbnail.
    Image,
    /// The login page.
    LoginPage,
    /// A submitted login form.
    Login,
    /// The upload page.
    UploadPage,
    /// An upload.
    Upload,
    /// The page of one video.
    Video,
}

/// One route: a path pattern, the handler of `GET` requests, and the
/// handler of `POST` requests if there is one.
#[derive(Clone, Copy, Debug, PartialEq, Eq)]
pub struct Route {
    pub path: &'static str,
    pub get: Handler,
    pub post: Option<Handler>,
}

/// The mathematical content of a [`Route`].
pub struct RouteView {
    pub path: Seq<char>,
    pub get: Handler,
    pub post: Option<Handler>,
}

impl View for Route {
    type V = RouteView;

    open spec fn view(&self) -> RouteView {
        RouteView { path: self.path@, get: self.get, post: self.post }
    }
}

/// The routes of the server, in the order in which they are declared.
pub open spec fn route_table() -> Seq<RouteView> {
    seq![
        RouteView { path: "/"@, get: Handler::Index, post: Some(Handler::Index) },
        RouteView { path: "/admin"@, get: Handler::Admin, post: None },
        RouteView { path: "/assets/:name"@, get: Handler::StyleScript, post: None },
        RouteView { path: "/assets/images/:id"@, get: Handler::Image, post: None },
        RouteView { path: "/login"@, get: Handler::LoginPage, post: Some(Handler::Login) },
        RouteView { path: "/upload"@, get: Handler::UploadPage, post: Some(Handler::Upload) },
        RouteView { path: "/video/:id"@, get: Handler::Video, post: None },
    ]
}

/// Builds the table of routes.
pub fn routes() -> (table: Vec<Route>)
    ensures
        table@.map_values(|route: Route| route@) == route_table(),
{
    let mut table: Vec<Route> = Vec::new();
    table.push(Route { path: "/", get: Handler::Index, post: Some(Handler::Index) });
    table.push(Route { path: "/admin", get: Handler::Admin, post: None });
    table.push(Route { path: "/assets/:name", get: Handler::StyleScript, post: None });
    table.push(Route { path: "/assets/images/:id", get: Handler::Image, post: None });
    table.push(Route { path: "/login", get: Handler::LoginPage, post: Some(Handler::Login) });
    table.push(Route { path: "/upload", get: Handler::UploadPage, post: Some(Handler::Upload) });
    table.push(Route { path: "/video/:id", get: Handler::Video, post: None });
    assert(table@.map_values(|route: Route| route@) =~= route_table());
    table
}

} // verus!
