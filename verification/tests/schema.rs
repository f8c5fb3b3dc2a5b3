use kernel::{schema_version, SceneError, SchemaVersion};

#[test]
fn the_current_schema_version_is_v0() {
    assert_eq!(schema_version(), "v0".to_string());
}

#[test]
fn identifier_of_v0() {
    assert_eq!(SchemaVersion::V0.identifier(), "v0");
}

#[test]
fn parse_accepts_the_known_version() {
    assert_eq!(SchemaVersion::parse("v0"), Ok(SchemaVersion::V0));
}

#[test]
fn parse_reads_back_what_identifier_writes() {
    let version = SchemaVersion::V0;
    assert_eq!(SchemaVersion::parse(version.identifier()), Ok(version));
    assert_eq!(SchemaVersion::parse(&schema_version()), Ok(SchemaVersion::V0));
}

#[test]
fn parse_rejects_unknown_versions() {
    for text in ["", "v", "v1", "V0", "v0 ", " v0", "v00", "0v", "v\u{0}", "\u{76}\u{660}"] {
        assert_eq!(
            SchemaVersion::parse(text),
            Err(SceneError::UnsupportedSchemaVersion),
            "{:?}",
            text
        );
    }
}
