use vstd::prelude::*;
use crate::text::str_eq;

verus! {

/// The method of an HTTP request, as far as routing tells methods apart.
#[derive(PartialEq, Eq, Structural, Clone, Copy, Debug)]
pub enum HttpMethod {
    Get,
    Post,
    Other,
}

/// The files that are served as they are.
#[derive(PartialEq, Eq, Structural, Clone, Copy, Debug)]
pub enum Page {
    Index,
    Htmx,
    WsScript,
    Revolver,
    Background,
    Waiting,
}

/// What the server does with a request.
#[derive(PartialEq, Eq, Structural, Clone, Copy, Debug)]
pub enum Route {
    /// Answer with a file of the pages directory.
    Serve(Page),
    /// Read the body, then answer with the rendered start page.
    Start,
    /// Read the body, then answer with the waiting page (`served_page`).
    EnterGame,
    /// Answer `404`.
    NotFound,
}

/// The file name of a page.
pub open spec fn page_file_spec(p: Page) -> Seq<char> {
    match p {
        Page::Index => "index.html"@,
        Page::Htmx => "htmx.js"@,
        Page::WsScript => "ws.js"@,
        Page::Revolver => "revolver.png"@,
        Page::Background => "background.png"@,
        Page::Waiting => "waiting.html"@,
    }
}

impl Page {
    pub fn file_name(&self) -> (r: &'static str)
        ensures
            r@ == page_file_spec(*self),
    {
        match self {
            Page::Index => "index.html",
            Page::Htmx => "htmx.js",
            Page::WsScript => "ws.js",
            Page::Revolver => "revolver.png",
            Page::Background => "background.png",
            Page::Waiting => "waiting.html",
        }
    }
}

/// The page file that a route answers with, if any: the served page, and
/// the waiting page for entering the game.
pub open spec fn served_page_spec(r: Route) -> Option<Page> {
    match r {
        Route::Serve(p) => Some(p),
        Route::EnterGame => Some(Page::Waiting),
        Route::Start => None,
        Route::NotFound => None,
    }
}

impl Route {
    /// The page file that the route answers with, if any.
    pub fn served_page(&self) -> (r: Option<Page>)
        ensures
            r == served_page_spec(*self),
            *self matches Route::Serve(p) ==> r == Some(p),
            *self == Route::EnterGame ==> r == Some(Page::Waiting),
            *self == Route::Start || *self == Route::NotFound ==> r is None,
    {
        match self {
            Route::Serve(p) => Some(*p),
            Route::EnterGame => Some(Page::Waiting),
            Route::Start => None,
            Route::NotFound => None,
        }
    }
}

/// Where a request for `url` with `method` goes.
pub open spec fn route_spec(url: Seq<char>, method: HttpMethod) -> Route {
    if method == HttpMethod::Get && (url == "/"@ || url == "/index.html"@) {
        Route::Serve(Page::Index)
    } else if method == HttpMethod::Get && url == "/htmx"@ {
        Route::Serve(Page::Htmx)
    } else if method == HttpMethod::Get && url == "/ws.js"@ {
        Route::Serve(Page::WsScript)
    } else if method == HttpMethod::Post && url == "/start"@ {
        Route::Start
    } else if method == HttpMethod::Get && (url == "/revolver"@ || url == "/favicon.ico"@) {
        Route::Serve(Page::Revolver)
    } else if method == HttpMethod::Get && url == "/background"@ {
        Route::Serve(Page::Background)
    } else if method == HttpMethod::Post && url == "/enterGame"@ {
        Route::EnterGame
    } else {
        Route::NotFound
    }
}

/// Routes a request by its path and method.
pub fn route(url: &str, method: HttpMethod) -> (r: Route)
    ensures
        r == route_spec(url@, method),
{
    let get = method == HttpMethod::Get;
    let post = method == HttpMethod::Post;
    if get && (str_eq(url, "/") || str_eq(url, "/index.html")) {
        Route::Serve(Page::Index)
    } else if get && str_eq(url, "/htmx") {
        Route::Serve(Page::Htmx)
    } else if get && str_eq(url, "/ws.js") {
        Route::Serve(Page::WsScript)
    } else if post && str_eq(url, "/start") {
        Route::Start
    } else if get && (str_eq(url, "/revolver") || str_eq(url, "/favicon.ico")) {
        Route::Serve(Page::Revolver)
    } else if get && str_eq(url, "/background") {
        Route::Serve(Page::Background)
    } else if post && str_eq(url, "/enterGame") {
        Route::EnterGame
    } else {
        Route::NotFound
    }
}

/// A request whose method is neither GET nor POST is never answered with a page.
pub proof fn lemma_other_methods_not_found(url: Seq<char>)
    ensures
        route_spec(url, HttpMethod::Other) == Route::NotFound,
{
}

/// A route that serves a page answers with that very page, entering the game
/// answers with the waiting page, and the start page and unknown requests are
/// answered with no page file.
pub proof fn lemma_served_page(p: Page)
    ensures
        served_page_spec(Route::Serve(p)) == Some(p),
        served_page_spec(Route::EnterGame) == Some(Page::Waiting),
        served_page_spec(Route::Start) is None,
        served_page_spec(Route::NotFound) is None,
{
}

/// Every request that a route answers with a page file is answered with the
/// file that its path names: the background with `background.png`, the
/// revolver and the icon with `revolver.png`, and so on.
pub proof fn lemma_route_files(url: Seq<char>, method: HttpMethod)
    ensures
        served_page_spec(route_spec(url, method)) matches Some(p) ==> {
            ||| url == "/background"@ && page_file_spec(p) == "background.png"@
            ||| (url == "/revolver"@ || url == "/favicon.ico"@) && page_file_spec(p) == "revolver.png"@
            ||| (url == "/"@ || url == "/index.html"@) && page_file_spec(p) == "index.html"@
            ||| url == "/htmx"@ && page_file_spec(p) == "htmx.js"@
            ||| url == "/ws.js"@ && page_file_spec(p) == "ws.js"@
            ||| url == "/enterGame"@ && page_file_spec(p) == "waiting.html"@
        },
{
}

} // verus!
