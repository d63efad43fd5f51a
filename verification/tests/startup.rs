use pastebin::config::parse_port;
use pastebin::config::rocket;
use pastebin::config::ConfigError;
use pastebin::config::DEFAULT_PORT;
use pastebin::startup::pending_migrations;
use pastebin::startup::run_migrations;
use pastebin::startup::Migration;
use pastebin::startup::MigrationError;

fn schema() -> Vec<Migration> {
    vec![
        Migration {
            version: 1,
            sql: String::from("CREATE TABLE pastes (id TEXT PRIMARY KEY, paste TEXT NOT NULL)"),
        },
        Migration {
            version: 2,
            sql: String::from("CREATE INDEX pastes_by_id ON pastes (id)"),
        },
        Migration {
            version: 3,
            sql: String::from("DROP INDEX pastes_by_id"),
        },
    ]
}

#[test]
fn a_fresh_store_has_every_migration_pending() {
    assert_eq!(pending_migrations(&schema(), &vec![]), vec![0, 1, 2]);
}

#[test]
fn applied_migrations_are_skipped_in_order() {
    assert_eq!(pending_migrations(&schema(), &vec![1, 3]), vec![1]);
}

#[test]
fn a_fully_migrated_store_has_nothing_pending() {
    let all = schema();
    let applied = vec![1, 2, 3];
    assert_eq!(pending_migrations(&all, &applied), Vec::<usize>::new());
}

#[test]
fn startup_refuses_without_a_store_handle() {
    assert_eq!(run_migrations(false, false), Err(MigrationError::PoolMissing));
    assert_eq!(run_migrations(false, true), Err(MigrationError::PoolMissing));
}

#[test]
fn startup_refuses_when_migrations_fail() {
    assert_eq!(run_migrations(true, false), Err(MigrationError::Failed));
}

#[test]
fn startup_proceeds_when_migrations_apply() {
    assert_eq!(run_migrations(true, true), Ok(()));
}

#[test]
fn parse_port_reads_decimal_text() {
    assert_eq!(parse_port("8000"), Some(8000));
    assert_eq!(parse_port("0"), Some(0));
    assert_eq!(parse_port("007"), Some(7));
    assert_eq!(parse_port("65535"), Some(65535));
}

#[test]
fn parse_port_refuses_what_is_no_16_bit_number() {
    assert_eq!(parse_port(""), None);
    assert_eq!(parse_port("65536"), None);
    assert_eq!(parse_port("99999999999999999999"), None);
    assert_eq!(parse_port("80a0"), None);
    assert_eq!(parse_port("-1"), None);
    assert_eq!(parse_port(" 8000"), None);
}

#[test]
fn the_port_defaults_when_the_environment_sets_none() {
    let config = rocket(None).expect("a missing PORT falls back to the default");
    assert_eq!(config.port, DEFAULT_PORT);
    assert_eq!(config.port, 8000);
}

#[test]
fn the_port_comes_from_the_environment_when_set() {
    let config = rocket(Some("1234")).expect("a decimal PORT is taken");
    assert_eq!(config.port, 1234);
}

#[test]
fn an_invalid_port_refuses_startup() {
    match rocket(Some("not-a-port")) {
        Err(ConfigError::InvalidPort) => {}
        Ok(_) => panic!("an invalid PORT must refuse startup"),
    }
}
