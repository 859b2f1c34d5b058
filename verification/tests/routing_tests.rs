use bang_web::routing::{route, HttpMethod, Page, Route};

#[test]
fn get_pages() {
    assert_eq!(route("/", HttpMethod::Get), Route::Serve(Page::Index));
    assert_eq!(route("/index.html", HttpMethod::Get), Route::Serve(Page::Index));
    assert_eq!(route("/htmx", HttpMethod::Get), Route::Serve(Page::Htmx));
    assert_eq!(route("/ws.js", HttpMethod::Get), Route::Serve(Page::WsScript));
    assert_eq!(route("/revolver", HttpMethod::Get), Route::Serve(Page::Revolver));
    assert_eq!(route("/favicon.ico", HttpMethod::Get), Route::Serve(Page::Revolver));
    assert_eq!(route("/background", HttpMethod::Get), Route::Serve(Page::Background));
}

#[test]
fn post_pages() {
    assert_eq!(route("/start", HttpMethod::Post), Route::Start);
    assert_eq!(route("/enterGame", HttpMethod::Post), Route::EnterGame);
}

#[test]
fn everything_else_is_not_found() {
    assert_eq!(route("/start", HttpMethod::Get), Route::NotFound);
    assert_eq!(route("/", HttpMethod::Post), Route::NotFound);
    assert_eq!(route("/index.htm", HttpMethod::Get), Route::NotFound);
    assert_eq!(route("", HttpMethod::Get), Route::NotFound);
    assert_eq!(route("/", HttpMethod::Other), Route::NotFound);
    assert_eq!(route("/enterGame", HttpMethod::Other), Route::NotFound);
}

#[test]
fn page_files() {
    assert_eq!(Page::Index.file_name(), "index.html");
    assert_eq!(Page::Htmx.file_name(), "htmx.js");
    assert_eq!(Page::WsScript.file_name(), "ws.js");
    assert_eq!(Page::Revolver.file_name(), "revolver.png");
    assert_eq!(Page::Background.file_name(), "background.png");
    assert_eq!(Page::Waiting.file_name(), "waiting.html");
}

#[test]
fn pages_of_routes() {
    assert_eq!(Route::Serve(Page::Htmx).served_page(), Some(Page::Htmx));
    assert_eq!(route("/enterGame", HttpMethod::Post).served_page(), Some(Page::Waiting));
    assert_eq!(Route::Start.served_page(), None);
    assert_eq!(Route::NotFound.served_page(), None);
}
