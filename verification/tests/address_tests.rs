use bang_web::address::{resolve_address, server_address, set_address, websocket_address, PAGES_DIR};

fn args(items: &[&str]) -> Vec<String> {
    items.iter().map(|s| s.to_string()).collect()
}

#[test]
fn file_joins_pages_dir_and_name() {
    assert_eq!(bang_web::address::file("index.html"), "/home/sasha/Projects/bang-web/src/pages/index.html");
    assert_eq!(bang_web::address::file(""), format!("{PAGES_DIR}/"));
}

#[test]
fn server_address_joins_host_and_port() {
    assert_eq!(server_address("127.0.0.1", 8080), "127.0.0.1:8080");
    assert_eq!(server_address("localhost", 0), "localhost:0");
    assert_eq!(websocket_address("127.0.0.1", 8080), "127.0.0.1:8081");
    assert_eq!(websocket_address("h", 65534), "h:65535");
}

#[test]
fn set_address_with_host_argument() {
    assert_eq!(
        set_address(args(&["bang", "8080", "127.0.0.1"])),
        Ok(("127.0.0.1".to_string(), 8080))
    );
}

#[test]
fn set_address_bad_port() {
    assert_eq!(
        set_address(args(&["bang", "80x", "127.0.0.1"])),
        Err("Port number is not a u16".to_string())
    );
    assert_eq!(
        set_address(args(&["bang", "70000", "host"])),
        Err("Port number is not a u16".to_string())
    );
}

#[test]
fn set_address_wrong_count() {
    let expected = Err("Wrong amount of args".to_string());
    assert_eq!(set_address(args(&[])), expected);
    assert_eq!(set_address(args(&["bang"])), expected);
    assert_eq!(set_address(args(&["bang", "1", "2", "3"])), expected);
}

#[test]
fn set_address_two_args_uses_lookup_or_its_error() {
    let r = set_address(args(&["bang", "8080"]));
    match r {
        Ok((_, port)) => assert_eq!(port, 8080),
        Err(e) => assert!(!e.is_empty()),
    }
}

#[test]
fn resolve_address_two_args() {
    let a = args(&["bang", "9000"]);
    assert_eq!(resolve_address(&a, Ok("10.0.0.5".to_string())), Ok(("10.0.0.5".to_string(), 9000)));
    assert_eq!(resolve_address(&a, Err("no interface".to_string())), Err("no interface".to_string()));
    let b = args(&["bang", "x"]);
    assert_eq!(
        resolve_address(&b, Ok("10.0.0.5".to_string())),
        Err("Port number is not a u16".to_string())
    );
    assert_eq!(resolve_address(&b, Err("lookup".to_string())), Err("lookup".to_string()));
}

#[test]
fn resolve_address_ignores_lookup_with_host() {
    let a = args(&["bang", "+80", "example.org"]);
    assert_eq!(resolve_address(&a, Err("unused".to_string())), Ok(("example.org".to_string(), 80)));
}
