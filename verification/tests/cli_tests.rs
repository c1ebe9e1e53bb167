use ts_validator::cli::{locate_schema, validate_toml_table, validate_tosd_table, InputPath, SchemaSource};
use ts_validator::error::TsError;
use ts_validator::schema::{Schema, ValidationStep};
use ts_validator::util::{OrStdin, TryResolve};

const CANONICAL: &str = r#"
[toml-schema]
type = "anything"
version = "1.0.0"

[name]
type = "string"
regex = "^[a-z]+$"
"#;

fn table(text: &str) -> toml::Table {
    toml::from_str::<toml::Table>(text).unwrap()
}

fn canonical() -> Schema {
    Schema::from_toml_str(CANONICAL).ok().unwrap()
}

const CANONICAL_TOSD: &str = r#"
[toml-schema]
type = "anything"
version = "1.0.0"

[name]
type = "anything"
"#;

#[test]
fn schema_argument_wins() {
    let doc = table("[toml-schema]\nlocation = \"doc.tosd\"\n");
    match locate_schema(&Some(InputPath::File("given.tosd".to_string())), &doc) {
        Ok(SchemaSource::Given { origin }) => assert_eq!(origin, "given.tosd"),
        _ => panic!("expected Given"),
    }
    match locate_schema(&Some(InputPath::Stdin), &doc) {
        Ok(SchemaSource::Given { origin }) => assert_eq!(origin, "<stdin>"),
        _ => panic!("expected Given"),
    }
}

#[test]
fn location_is_used_without_argument() {
    let doc = table("[toml-schema]\nlocation = \"doc.tosd\"\n");
    match locate_schema(&None, &doc) {
        Ok(SchemaSource::Located { location }) => assert_eq!(location, "doc.tosd"),
        _ => panic!("expected Located"),
    }
}

#[test]
fn no_schema_at_all() {
    let doc = table("name = \"abc\"\n");
    match locate_schema(&None, &doc) {
        Err(e @ TsError::NoSchemaArgument) => assert_eq!(
            e.message(),
            "No `--schema` value provided and toml doesn't have a `toml-schema.location` value"
        ),
        _ => panic!("expected NoSchemaArgument"),
    }
}

#[test]
fn command_line_report_is_joined() {
    let s = canonical();
    assert!(validate_toml_table(&table("name = \"abc\"\n"), &s).is_ok());
    let bad = table("name = \"ABC\"\n");
    let cli = match validate_toml_table(&bad, &s) {
        Err(TsError::Invalid(m)) => m,
        _ => panic!("expected Invalid"),
    };
    assert!(cli.starts_with("[]: "));
    assert!(!cli.ends_with('\n'));
    let lib = match Schema::validate_table(&bad, Some(canonical())) {
        ValidationStep::Done(Err(TsError::Invalid(m))) => m,
        _ => panic!("expected Invalid"),
    };
    assert_eq!(lib, format!("{}\n", cli));
}

#[test]
fn tosd_checked_against_canonical() {
    let s = Schema::from_toml_str(CANONICAL_TOSD).ok().unwrap();
    let ok = table("[toml-schema]\ntype = \"anything\"\nversion = \"2.0.0\"\n[name]\ntype = \"string\"\n");
    assert!(validate_tosd_table(ok, &s).is_ok());
    let no_header = table("[name]\ntype = \"string\"\n");
    assert!(matches!(validate_tosd_table(no_header, &s), Err(TsError::MissingHeader)));
    let refused = table("other = 1\n");
    match validate_tosd_table(refused, &s) {
        Err(TsError::Invalid(m)) => assert!(m.starts_with("[]: ")),
        _ => panic!("expected Invalid"),
    }
    let bad_version = table("[toml-schema]\ntype = \"anything\"\nversion = \"x\"\n");
    assert!(matches!(validate_tosd_table(bad_version, &s), Err(TsError::BadVersion(_))));
}

#[test]
fn input_paths() {
    assert_eq!(InputPath::Stdin.path_ref(), None);
    let f = InputPath::File("a.toml".to_string());
    assert_eq!(f.path_ref().map(|s| s.as_str()), Some("a.toml"));
    assert_eq!(f.path_ref().or_stdin(), "a.toml");
    assert_eq!(InputPath::Stdin.path_ref().or_stdin(), "<stdin>");
}

#[test]
fn try_resolve_keeps_success() {
    let ok: Result<u32, &str> = Ok(7);
    assert_eq!(ok.try_resolve(|_| Err::<u32, String>("x".to_string())), Ok(7));
    let err: Result<u32, &str> = Err("terminal");
    assert_eq!(err.try_resolve(|e| if e == "terminal" { Ok::<u32, String>(0) } else { Err(e.to_string()) }), Ok(0));
    let err: Result<u32, &str> = Err("bad");
    assert_eq!(err.try_resolve(|e| if e == "terminal" { Ok(0) } else { Err(e.to_string()) }), Err("bad".to_string()));
}
