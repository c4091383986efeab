use temp_mongo::layout::child_path;
use temp_mongo::layout::db_dir_path;
use temp_mongo::layout::log_file_path;
use temp_mongo::layout::port_text;
use temp_mongo::layout::select_endpoint;
use temp_mongo::layout::server_arguments;
use temp_mongo::layout::socket_file_path;
use temp_mongo::Directive;
use temp_mongo::Endpoint;
use temp_mongo::Error;
use temp_mongo::ErrorInner;
use temp_mongo::Platform;
use temp_mongo::PortGenerator;
use temp_mongo::TempMongo;
use temp_mongo::TempMongoBuilder;

fn text(s: &str) -> String {
    s.to_string()
}

#[test]
fn a_new_generator_has_no_port() {
    assert_eq!(PortGenerator::new().selected_port(), None);
}

#[test]
fn a_port_that_was_assigned_is_selected() {
    let mut generator = PortGenerator::new();
    assert_eq!(generator.generate(Some(49152)).selected_port(), Some(49152));
    assert_eq!(generator.selected_port(), Some(49152));
    assert_eq!(generator.generate(Some(0)).selected_port(), Some(0));
    assert_eq!(generator.generate(Some(65535)).selected_port(), Some(65535));
}

#[test]
fn a_failed_request_leaves_no_port() {
    let mut generator = PortGenerator::new();
    assert_eq!(generator.generate(None).selected_port(), None);
    generator.generate(Some(5001));
    assert_eq!(generator.selected_port(), Some(5001));
    assert_eq!(generator.generate(None).selected_port(), None);
    assert_eq!(generator.selected_port(), None);
    assert_eq!(generator.generate(Some(27017)).selected_port(), Some(27017));
    generator.generate(None);
    assert_eq!(generator.selected_port(), None);
}

#[test]
fn every_error_has_its_line() {
    let cases = vec![
        (
            ErrorInner::MakeTempDir(text("denied")),
            "Failed to create temporary directory: denied",
        ),
        (
            ErrorInner::MakeDbDir(text("/tmp/a/db"), text("disk full")),
            "Failed to create data directory /tmp/a/db: disk full",
        ),
        (
            ErrorInner::SpawnServer(text("mongod"), text("not found")),
            "Failed to run server command: mongod: not found",
        ),
        (ErrorInner::KillServer(text("gone")), "Failed to terminate spanwed server: gone"),
        (
            ErrorInner::CleanDir(text("/tmp/a"), text("busy")),
            "Failed to clean up temporary state directory /tmp/a: busy",
        ),
        (
            ErrorInner::Connect(text("/tmp/a/mongod.sock"), text("timed out")),
            "Failed to connect to server at /tmp/a/mongod.sock: timed out",
        ),
        (ErrorInner::Port, "Failed to select a free port by the os "),
    ];
    for (inner, line) in cases {
        assert_eq!(inner.message(), line);
        let error = Error::from(inner.clone());
        assert_eq!(error.inner(), &inner);
        assert_eq!(error.message(), line);
    }
}

#[test]
fn an_error_with_empty_parts_keeps_its_frame() {
    assert_eq!(
        ErrorInner::MakeDbDir(String::new(), String::new()).message(),
        "Failed to create data directory : "
    );
    assert_eq!(
        ErrorInner::KillServer(String::new()).message(),
        "Failed to terminate spanwed server: "
    );
}

#[test]
fn the_builder_starts_with_the_defaults() {
    let builder = TempMongoBuilder::new();
    assert_eq!(builder.get_command(), "mongod");
    assert_eq!(builder.get_command_string(), "mongod");
    assert_eq!(builder.make_temp_dir(), Directive::MakeTempDir { parent: None });
    assert_eq!(builder, TempMongoBuilder::default());
    assert_eq!(builder, TempMongo::builder());
}

#[test]
fn the_builder_takes_another_command() {
    let builder = TempMongoBuilder::new().mongod_command(text("/usr/local/bin/mongod-7"));
    assert_eq!(builder.get_command(), "/usr/local/bin/mongod-7");
    assert_eq!(builder.get_command_string(), "/usr/local/bin/mongod-7");
    let builder = builder.mongod_command(text("mongod-6"));
    assert_eq!(builder.get_command(), "mongod-6");
}

#[test]
fn the_builder_settings_do_not_touch_each_other() {
    let builder = TempMongoBuilder::new()
        .parent_directory(text("/scratch"))
        .clean_on_drop(false)
        .mongod_command(text("m"));
    assert_eq!(builder.make_temp_dir(), Directive::MakeTempDir { parent: Some(text("/scratch")) });
    assert_eq!(builder.get_command(), "m");
    let again = TempMongoBuilder::new()
        .mongod_command(text("m"))
        .clean_on_drop(true)
        .clean_on_drop(false)
        .parent_directory(text("/scratch"));
    assert_eq!(builder, again);
}

#[test]
fn paths_are_entries_of_the_state_directory() {
    assert_eq!(child_path("/tmp/a", "x"), "/tmp/a/x");
    assert_eq!(child_path("", "x"), "/x");
    assert_eq!(child_path("/tmp/a", ""), "/tmp/a/");
    assert_eq!(db_dir_path("/tmp/a"), "/tmp/a/db");
    assert_eq!(log_file_path("/tmp/a"), "/tmp/a/mongod.log");
    assert_eq!(socket_file_path("/tmp/a"), "/tmp/a/mongod.sock");
}

#[test]
fn ports_are_written_in_decimal() {
    assert_eq!(port_text(0), "0");
    assert_eq!(port_text(7), "7");
    assert_eq!(port_text(9), "9");
    assert_eq!(port_text(10), "10");
    assert_eq!(port_text(99), "99");
    assert_eq!(port_text(100), "100");
    assert_eq!(port_text(27017), "27017");
    assert_eq!(port_text(65535), "65535");
    for port in [1u16, 12, 123, 1234, 12345, 40404, 60000] {
        assert_eq!(port_text(port), port.to_string());
    }
}

#[test]
fn the_endpoint_follows_the_platform() {
    assert_eq!(
        select_endpoint(Platform::LocalSocket, "/tmp/a", 123),
        Endpoint::Socket { path: text("/tmp/a/mongod.sock") }
    );
    assert_eq!(
        select_endpoint(Platform::Loopback, "/tmp/a", 123),
        Endpoint::Tcp { host: text("localhost"), port: 123 }
    );
}

#[test]
fn an_endpoint_has_an_address_and_can_be_duplicated() {
    let socket = Endpoint::Socket { path: text("/tmp/a/mongod.sock") };
    assert_eq!(socket.address(), "/tmp/a/mongod.sock");
    assert_eq!(socket.duplicate(), socket);
    let tcp = Endpoint::Tcp { host: text("localhost"), port: 80 };
    assert_eq!(tcp.address(), "localhost");
    assert_eq!(tcp.duplicate(), tcp);
}

#[test]
fn the_server_arguments_end_with_the_port_only_over_tcp() {
    let socket = Endpoint::Socket { path: text("/d/mongod.sock") };
    assert_eq!(
        server_arguments(&socket, "/d"),
        vec![
            "--bind_ip",
            "/d/mongod.sock",
            "--dbpath",
            "/d/db",
            "--logpath",
            "/d/mongod.log",
            "--noauth"
        ]
    );
    let tcp = Endpoint::Tcp { host: text("localhost"), port: 40001 };
    assert_eq!(
        server_arguments(&tcp, "/d"),
        vec![
            "--bind_ip",
            "localhost",
            "--dbpath",
            "/d/db",
            "--logpath",
            "/d/mongod.log",
            "--noauth",
            "--port",
            "40001"
        ]
    );
}
