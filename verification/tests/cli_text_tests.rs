use ts_validator::cli::{
    locate_schema_in_text, parse_toml_text, schema_from_text_at, validate_tosd_text, InputPath, SchemaSource,
};
use ts_validator::error::TsError;
use ts_validator::schema::Schema;

const CANONICAL_TOSD: &str = "[toml-schema]\ntype = \"anything\"\nversion = \"1.0.0\"\n[name]\ntype = \"anything\"\n";

fn toml_message(text: &str) -> String {
    toml::from_str::<toml::Table>(text).unwrap_err().to_string()
}

#[test]
fn text_is_parsed_before_locating() {
    let text = "name = \"abc\"\n[toml-schema]\nlocation = \"doc.tosd\"\n";
    match locate_schema_in_text(text, &None) {
        Ok((t, SchemaSource::Located { location })) => {
            assert_eq!(location, "doc.tosd");
            assert_eq!(t.get("name").and_then(|v| v.as_str()), Some("abc"));
        }
        _ => panic!("expected Located"),
    }
    match locate_schema_in_text(text, &Some(InputPath::File("s.tosd".to_string()))) {
        Ok((_, SchemaSource::Given { origin })) => assert_eq!(origin, "s.tosd"),
        _ => panic!("expected Given"),
    }
    assert!(matches!(locate_schema_in_text("name = 1\n", &None), Err(TsError::NoSchemaArgument)));
    match locate_schema_in_text("name = ", &None) {
        Err(TsError::BadToml(m)) => assert_eq!(m, toml_message("name = ")),
        _ => panic!("expected BadToml"),
    }
}

#[test]
fn schema_text_with_origin() {
    let s = schema_from_text_at("a/b.tosd".to_string(), CANONICAL_TOSD).ok().unwrap();
    assert_eq!(s.origin.as_deref(), Some("a/b.tosd"));
    assert_eq!((s.meta.version.major, s.meta.version.minor, s.meta.version.patch), (1, 0, 0));
    match schema_from_text_at("x".to_string(), "[[") {
        Err(TsError::BadToml(m)) => assert_eq!(m, toml_message("[[")),
        _ => panic!("expected BadToml"),
    }
    assert!(matches!(schema_from_text_at("x".to_string(), "a = 1\n"), Err(TsError::MissingHeader)));
}

#[test]
fn tosd_text_is_checked() {
    let canonical = Schema::from_toml_str(CANONICAL_TOSD).ok().unwrap();
    assert!(validate_tosd_text("[toml-schema]\ntype = \"anything\"\nversion = \"2.0.0\"\n", &canonical).is_ok());
    match validate_tosd_text("other = 1\n", &canonical) {
        Err(TsError::Invalid(m)) => assert!(m.starts_with("[]: ") && !m.ends_with('\n')),
        _ => panic!("expected Invalid"),
    }
    match validate_tosd_text("[toml-schema]\ntype = \"anything\"\nversion = \"v2\"\n", &canonical) {
        Err(TsError::BadVersion(m)) => assert_eq!(m, semver::Version::parse("v2").unwrap_err().to_string()),
        _ => panic!("expected BadVersion"),
    }
    match validate_tosd_text("= 1", &canonical) {
        Err(TsError::BadToml(m)) => assert_eq!(m, toml_message("= 1")),
        _ => panic!("expected BadToml"),
    }
}

#[test]
fn toml_text_parses() {
    let t = parse_toml_text("a = \"b\"\n").ok().unwrap();
    assert_eq!(t.get("a").and_then(|v| v.as_str()), Some("b"));
    match parse_toml_text("a = ") {
        Err(e @ TsError::BadToml(_)) => assert_eq!(e.message(), toml_message("a = ")),
        _ => panic!("expected BadToml"),
    }
}

#[test]
fn canonical_schema_checks_schema_files() {
    let canonical = ts_validator::cli::canon_schema().ok().unwrap();
    assert_eq!((canonical.meta.version.major, canonical.meta.version.minor, canonical.meta.version.patch), (1, 0, 0));
    assert!(canonical.origin.is_none());
    let tosd = "[toml-schema]\ntype = \"anything\"\nversion = \"1.0.0\"\n[types]\n[elements]\n";
    assert!(validate_tosd_text(tosd, &canonical).is_ok());
    match validate_tosd_text("[toml-schema]\ntype = \"anything\"\nversion = \"1.0.0\"\n[other]\n", &canonical) {
        Err(TsError::Invalid(m)) => assert!(m.starts_with("[]: ")),
        _ => panic!("expected Invalid"),
    }
}
