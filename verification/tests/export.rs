use gachadata_server::config::MySQL;
use gachadata_server::decimal::decimal_text;
use gachadata_server::export::{
    DumpCommand, DUMP_DATABASE, DUMP_PROGRAM, GACHADATA_TABLE, GACHA_EVENTS_TABLE,
};

fn settings(host: &str, port: u16, user: &str, password: &str) -> MySQL {
    MySQL {
        host: host.to_string(),
        port,
        user: user.to_string(),
        password: password.to_string(),
    }
}

#[test]
fn decimal_of_single_digits() {
    assert_eq!(decimal_text(0), "0");
    assert_eq!(decimal_text(1), "1");
    assert_eq!(decimal_text(2), "2");
    assert_eq!(decimal_text(3), "3");
    assert_eq!(decimal_text(4), "4");
    assert_eq!(decimal_text(5), "5");
    assert_eq!(decimal_text(6), "6");
    assert_eq!(decimal_text(7), "7");
    assert_eq!(decimal_text(8), "8");
    assert_eq!(decimal_text(9), "9");
}

#[test]
fn decimal_of_longer_numbers() {
    assert_eq!(decimal_text(10), "10");
    assert_eq!(decimal_text(99), "99");
    assert_eq!(decimal_text(100), "100");
    assert_eq!(decimal_text(3306), "3306");
    assert_eq!(decimal_text(9090), "9090");
    assert_eq!(decimal_text(10000), "10000");
    assert_eq!(decimal_text(65535), "65535");
}

#[test]
fn decimal_agrees_with_the_standard_library() {
    let mut n: u16 = 0;
    loop {
        assert_eq!(decimal_text(n), n.to_string());
        if n == u16::MAX {
            break;
        }
        n += 1;
    }
}

#[test]
fn names_of_program_database_and_tables() {
    assert_eq!(DUMP_PROGRAM, "mariadb-dump");
    assert_eq!(DUMP_DATABASE, "seichiassist");
    assert_eq!(GACHADATA_TABLE, "gachadata");
    assert_eq!(GACHA_EVENTS_TABLE, "gacha_events");
}

#[test]
fn command_line_for_a_connection() {
    let command = DumpCommand::for_connection(&settings("db.internal", 3306, "exporter", "s3cret"));
    assert_eq!(command.program, "mariadb-dump");
    assert_eq!(
        command.arguments,
        vec![
            "--host",
            "db.internal",
            "--port",
            "3306",
            "--user",
            "exporter",
            "-ps3cret",
            "seichiassist",
            "gachadata",
            "gacha_events",
        ]
    );
}

#[test]
fn command_line_takes_settings_as_they_are() {
    let command = DumpCommand::for_connection(&settings("", 0, "a b", ""));
    assert_eq!(
        command.arguments,
        vec![
            "--host",
            "",
            "--port",
            "0",
            "--user",
            "a b",
            "-p",
            "seichiassist",
            "gachadata",
            "gacha_events",
        ]
    );
    let command = DumpCommand::for_connection(&settings("::1", 65535, "--user", "-p -p"));
    assert_eq!(command.arguments[1], "::1");
    assert_eq!(command.arguments[3], "65535");
    assert_eq!(command.arguments[5], "--user");
    assert_eq!(command.arguments[6], "-p-p -p");
    assert_eq!(command.arguments.len(), 10);
}

#[test]
fn cloned_settings_read_the_same() {
    let mysql = settings("db.internal", 3306, "exporter", "s3cret");
    let copy = mysql.clone();
    assert_eq!(copy.host, "db.internal");
    assert_eq!(copy.port, 3306);
    assert_eq!(copy.user, "exporter");
    assert_eq!(copy.password, "s3cret");
}

#[test]
fn settings_are_plain_values() {
    let config = gachadata_server::config::Config {
        http_port: gachadata_server::config::HttpPort { port: 8080 },
        mysql: settings("db.internal", 3306, "exporter", "s3cret"),
    };
    assert_eq!(config.http_port.port, 8080);
    assert_eq!(config.mysql.host, "db.internal");
    let command = DumpCommand::for_connection(&config.mysql);
    assert_eq!(command.arguments[3], "3306");
}
