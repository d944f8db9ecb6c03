use ffmpeg_bus::migration::{parse_i64, parse_migration_name, MigrationNameError};

#[test]
fn migration_names() {
    assert_eq!(
        parse_migration_name("1_create_kvs.sql"),
        Ok(Some((1, "create kvs".to_string())))
    );
    assert_eq!(
        parse_migration_name("002_add_users_table.sql.sql"),
        Ok(Some((2, "add users table".to_string())))
    );
    assert_eq!(parse_migration_name("README.md"), Ok(None));
    assert_eq!(parse_migration_name("3_notes.txt"), Ok(None));
    assert_eq!(parse_migration_name("x_init.sql"), Err(MigrationNameError::InvalidVersion));
    assert_eq!(parse_migration_name("_init.sql"), Err(MigrationNameError::InvalidVersion));
    assert_eq!(parse_migration_name("7_.sql"), Ok(Some((7, String::new()))));
}

#[test]
fn i64_parsing_matches_std() {
    for s in [
        "0", "42", "-42", "+42", "", "-", "+", "9223372036854775807", "9223372036854775808",
        "-9223372036854775808", "-9223372036854775809", "12a", " 1", "007",
    ] {
        assert_eq!(parse_i64(s), s.parse::<i64>().ok(), "input {:?}", s);
    }
}
