use aish::store::{apply_migrations, db_path_for, migrations, pending_migrations, run_migrations, Database, MIGRATION_COUNT};
use rusqlite::Connection;

#[test]
fn test_migrations_idempotent() {
    let conn = Connection::open_in_memory().unwrap();
    // Run twice — should be idempotent
    run_migrations(&conn).unwrap();
    run_migrations(&conn).unwrap();

    // Verify tables exist
    let tables: Vec<String> = conn
        .prepare("SELECT name FROM sqlite_master WHERE type='table' ORDER BY name")
        .unwrap()
        .query_map([], |row| row.get(0))
        .unwrap()
        .filter_map(|r| r.ok())
        .collect();

    assert!(tables.contains(&"adapters".to_string()));
    assert!(tables.contains(&"tasks".to_string()));
    assert!(tables.contains(&"tool_calls".to_string()));
    assert!(tables.contains(&"token_usage".to_string()));
    assert!(tables.contains(&"permission_audit".to_string()));
    assert!(tables.contains(&"mcp_connection_log".to_string()));
    assert!(tables.contains(&"bands".to_string()));
    assert!(tables.contains(&"fan_out_groups".to_string()));
}

#[test]
fn second_run_applies_nothing() {
    let conn = Connection::open_in_memory().unwrap();
    assert_eq!(run_migrations(&conn).unwrap(), vec![1]);
    assert_eq!(run_migrations(&conn).unwrap(), Vec::<i32>::new());
    let version: i32 = conn
        .query_row("SELECT COALESCE(MAX(version), 0) FROM schema_version", [], |row| row.get(0))
        .unwrap();
    assert_eq!(version, 1);
}

#[test]
fn pending_migrations_are_those_above_the_version() {
    assert_eq!(pending_migrations(0, 3), vec![1, 2, 3]);
    assert_eq!(pending_migrations(1, 3), vec![2, 3]);
    assert_eq!(pending_migrations(3, 3), Vec::<i32>::new());
    assert_eq!(pending_migrations(7, 3), Vec::<i32>::new());
    assert_eq!(pending_migrations(-2, 2), vec![1, 2]);
    assert_eq!(pending_migrations(0, 0), Vec::<i32>::new());
}

#[test]
fn there_is_one_migration() {
    assert_eq!(migrations().len(), MIGRATION_COUNT);
    assert!(migrations()[0].contains("CREATE TABLE IF NOT EXISTS tasks"));
}

#[test]
fn db_path_order_of_preference() {
    assert_eq!(db_path_for(Some("/x/my.db"), Some("/band"), Some("/data")), "/x/my.db");
    assert_eq!(db_path_for(None, Some("/band"), Some("/data")), "/band/data/aish.db");
    assert_eq!(db_path_for(None, None, Some("/data")), "/data/aish/aish.db");
    assert_eq!(db_path_for(None, None, None), "./aish/aish.db");
}

#[test]
fn a_failing_statement_is_reported() {
    let conn = Connection::open_in_memory().unwrap();
    conn.execute_batch("CREATE TABLE schema_version (note TEXT)").unwrap();
    // The version table has the wrong shape: reading the version fails (counted
    // as none), and recording a version then fails.
    let err = run_migrations(&conn).unwrap_err();
    assert!(!err.message.is_empty());
}

#[test]
fn first_migration_creates_the_tables() {
    let all = migrations();
    assert_eq!(all.len(), MIGRATION_COUNT);
    for table in [
        "adapters",
        "tasks",
        "fan_out_groups",
        "tool_calls",
        "token_usage",
        "permission_audit",
        "mcp_connection_log",
    ] {
        assert!(all[0].contains(&format!("CREATE TABLE IF NOT EXISTS {} (", table)), "{}", table);
    }
}

#[test]
fn applying_migrations_through_a_session() {
    let conn = Connection::open_in_memory().unwrap();
    let mut db = Database::new(&conn);
    assert_eq!(apply_migrations(&mut db).unwrap(), vec![1]);
    assert_eq!(apply_migrations(&mut db).unwrap(), Vec::<i32>::new());
    let version: i32 = conn.query_row("SELECT MAX(version) FROM schema_version", [], |r| r.get(0)).unwrap();
    assert_eq!(version, 1);
}

#[test]
fn a_second_session_on_a_migrated_database_applies_nothing() {
    let conn = Connection::open_in_memory().unwrap();
    assert_eq!(run_migrations(&conn).unwrap(), vec![1]);
    let mut db = Database::new(&conn);
    assert_eq!(apply_migrations(&mut db).unwrap(), Vec::<i32>::new());
}
