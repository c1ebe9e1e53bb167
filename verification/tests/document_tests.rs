use ts_validator::cli::validate_tosd_table;
use ts_validator::document::{get_string, get_table};
use ts_validator::error::TsError;
use ts_validator::schema::Schema;

fn table(text: &str) -> toml::Table {
    toml::from_str::<toml::Table>(text).unwrap()
}

#[test]
fn lookups_read_strings_and_tables() {
    let doc = table("a = \"x\"\nb = 1\n[c]\nd = \"y\"\n");
    assert_eq!(get_string(&doc, "a").as_deref(), Some("x"));
    assert_eq!(get_string(&doc, "b"), None);
    assert_eq!(get_string(&doc, "c"), None);
    assert_eq!(get_string(&doc, "zz"), None);
    assert!(get_table(&doc, "a").is_none());
    let c = get_table(&doc, "c").expect("table c");
    assert_eq!(get_string(c, "d").as_deref(), Some("y"));
}

fn refusal(text: &str) -> String {
    match Schema::from_table(table(text)) {
        Err(TsError::BadSchema(m)) => m,
        _ => panic!("expected BadSchema"),
    }
}

#[test]
fn engine_compiles_and_refuses() {
    let header = "[toml-schema]\ntype = \"anything\"\nversion = \"1.0.0\"\n";
    assert!(Schema::from_table(table(&format!("{header}[name]\ntype = \"string\"\n"))).is_ok());
    let m = refusal(&format!("name = 3\n{header}"));
    assert!(m.starts_with("Schema for key name should be a table"), "{}", m);
    let m = refusal(&format!("type = \"nothing\"\n{header}"));
    assert_eq!(m, "Invalid schema type nothing");
}

#[test]
fn schema_checks_with_the_table_it_was_made_from() {
    let text = "[toml-schema]\ntype = \"anything\"\nversion = \"1.0.0\"\n[name]\ntype = \"int\"\n";
    let s = Schema::from_table(table(text)).ok().unwrap();
    assert!(s.check(&table("name = 3\n")).is_empty());
    assert_eq!(s.check(&table("name = \"x\"\n")).len(), 1);
    assert_eq!(s.check(&table("other = 3\n")).len(), 1);
}

#[test]
fn messages_carry_reports() {
    assert_eq!(TsError::Invalid("[]: x\n".to_string()).message(), "[]: x\n");
    assert_eq!(TsError::BadSchema("bad".to_string()).message(), "bad");
}

#[test]
fn tosd_check_agrees_with_making_a_schema() {
    let canonical = Schema::from_toml_str("[toml-schema]\ntype = \"anything\"\nversion = \"1.0.0\"\n[name]\ntype = \"anything\"\n")
        .ok()
        .unwrap();
    let texts = [
        "[name]\ntype = \"string\"\n",
        "[toml-schema]\ntype = \"anything\"\nversion = \"x\"\n",
        "[toml-schema]\nversion = \"1.0.0\"\n",
        "[toml-schema]\ntype = \"anything\"\nversion = \"3.1.4\"\n",
    ];
    for text in texts {
        let made = Schema::from_table(table(text));
        let checked = validate_tosd_table(table(text), &canonical);
        assert_eq!(made.is_ok(), checked.is_ok(), "{}", text);
        match (made, checked) {
            (Err(TsError::MissingHeader), Err(TsError::MissingHeader)) => {}
            (Err(TsError::BadVersion(_)), Err(TsError::BadVersion(_))) => {}
            (Err(TsError::BadSchema(a)), Err(TsError::BadSchema(b))) => assert_eq!(a, b),
            (Ok(_), Ok(())) => {}
            _ => panic!("verdicts differ on {}", text),
        }
    }
}
