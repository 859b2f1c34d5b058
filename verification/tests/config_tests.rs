use bang_web::config::parse_config;

#[test]
fn well_formed_config_parses() {
    let table = parse_config("[general]\nmin_players = 4\nmax_players = 7\n").unwrap();
    assert!(table.contains_key("general"));
    assert!(parse_config("").is_ok());
}

#[test]
fn malformed_config_is_refused() {
    assert!(parse_config("[general\nmin_players = ").is_err());
    assert!(parse_config("a = 1\na = 2\n").is_err());
}

#[test]
fn parsed_table_has_the_documents_top_level_entries() {
    let table = parse_config("title = \"bang\"\n[general]\nmin_players = 4\n[stats]\nmax_health = 5\n").unwrap();
    let mut keys: Vec<&String> = table.keys().collect();
    keys.sort();
    assert_eq!(keys, vec!["general", "stats", "title"]);
    assert_eq!(parse_config("").unwrap().len(), 0);
}
