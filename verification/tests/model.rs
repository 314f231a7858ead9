use easy_ipc::connection::ReceiveAction;
use easy_ipc::error::{ConnectionError, InitError};
use easy_ipc::handlers::ServerRegistry;
use easy_ipc::model::{
    bind_error, client_of, server_of, ClientServerModel, ClientServerOptions, Handlers,
};
use std::io::{Error, ErrorKind};
use std::path::PathBuf;

fn options(name: &str) -> ClientServerOptions<u32, u32> {
    ClientServerOptions::new(PathBuf::from(name))
}

/// A model as the tests of a transport would have it: any number of servers
/// to a process, and a hook of the test's own.
fn test_model(name: &str) -> ClientServerModel<u32, u32> {
    options(name)
        .disable_single_server_check()
        .handlers(Handlers::Custom)
        .create()
}

#[test]
fn default_options() {
    let model = options("calc").create();
    assert_eq!(model.opts().socket_name(), &PathBuf::from("calc"));
    assert_eq!(model.opts().magic_bytes(), b"4242".to_vec());
    assert!(!model.opts().single_server_check_disabled());
}

#[test]
fn options_are_set_one_by_one() {
    let model = options("calc").magic_bytes(b"1.2.3".to_vec()).create();
    assert_eq!(model.opts().magic_bytes(), b"1.2.3".to_vec());
    assert_eq!(model.opts().socket_name(), &PathBuf::from("calc"));
    assert!(!model.opts().single_server_check_disabled());

    let model = options("calc")
        .disable_single_server_check()
        .magic_bytes(Vec::new())
        .handlers(Handlers::Custom)
        .create();
    assert!(model.opts().single_server_check_disabled());
    assert_eq!(model.opts().magic_bytes(), Vec::<u8>::new());
    assert_eq!(model.opts().socket_name(), &PathBuf::from("calc"));
}

#[test]
fn client_of_a_connected_stream_speaks_the_models_magic() {
    let model = options("calc").magic_bytes(b"abc".to_vec()).create();
    let mut client = model.client(Ok(())).unwrap();
    assert_eq!(client.receive(), 3 + 8);
    assert_eq!(
        client.send(Ok(vec![9])).unwrap(),
        b"abc\x01\0\0\0\0\0\0\0\x09".to_vec()
    );
}

#[test]
fn client_without_a_server_fails_to_connect() {
    let model = options("nobody-listens-here").create();
    let refused = Error::from(ErrorKind::ConnectionRefused);
    assert!(matches!(
        model.client(Err(refused)),
        Err(InitError::FailedConnectingToSocket(e)) if e.kind() == ErrorKind::ConnectionRefused
    ));
}

#[test]
fn bind_errors() {
    assert!(matches!(
        bind_error(Error::from(ErrorKind::AddrInUse), true),
        InitError::SocketAlreadyExists
    ));
    assert!(matches!(
        bind_error(Error::from(ErrorKind::PermissionDenied), false),
        InitError::FailedConnectingToSocket(e) if e.kind() == ErrorKind::PermissionDenied
    ));
}

#[test]
fn first_server_runs_the_default_hook() {
    let mut registry = ServerRegistry::new();
    let (server, hook) = options("calc").create().server(&mut registry, Ok(())).unwrap();
    assert_eq!(hook, Some(Handlers::Default));
    assert_eq!(server.opts().socket_name(), &PathBuf::from("calc"));
    assert_eq!(server.opts().magic_bytes(), b"4242".to_vec());
}

#[test]
fn first_server_runs_the_hook_that_was_set() {
    let mut registry = ServerRegistry::new();
    let model = options("calc").handlers(Handlers::Custom).create();
    let (_server, hook) = model.server(&mut registry, Ok(())).unwrap();
    assert_eq!(hook, Some(Handlers::Custom));
}

#[test]
fn second_server_is_already_running() {
    let mut registry = ServerRegistry::new();
    let _first = options("one").create().server(&mut registry, Ok(())).unwrap();
    assert!(matches!(
        options("two").create().server(&mut registry, Ok(())),
        Err(InitError::ServerAlreadyRunning)
    ));
    // The flag is never reset.
    assert!(matches!(
        options("three").create().server(&mut registry, Ok(())),
        Err(InitError::ServerAlreadyRunning)
    ));
}

#[test]
fn servers_on_distinct_identities_with_the_check_disabled() {
    let mut registry = ServerRegistry::new();
    let first = options("one")
        .disable_single_server_check()
        .create()
        .server(&mut registry, Ok(()));
    let second = options("two")
        .disable_single_server_check()
        .create()
        .server(&mut registry, Ok(()));
    let (_, first_hook) = first.unwrap();
    let (_, second_hook) = second.unwrap();
    // The hook runs once in the process.
    assert_eq!(first_hook, Some(Handlers::Default));
    assert_eq!(second_hook, None);
}

#[test]
fn check_is_made_for_the_server_that_asks() {
    let mut registry = ServerRegistry::new();
    let _first = options("one")
        .disable_single_server_check()
        .create()
        .server(&mut registry, Ok(()))
        .unwrap();
    assert!(matches!(
        options("two").create().server(&mut registry, Ok(())),
        Err(InitError::ServerAlreadyRunning)
    ));
}

#[test]
fn failed_bind_leaves_the_registry_alone() {
    let mut registry = ServerRegistry::new();
    assert!(matches!(
        options("one")
            .create()
            .server(&mut registry, Err(Error::from(ErrorKind::PermissionDenied))),
        Err(InitError::FailedConnectingToSocket(e)) if e.kind() == ErrorKind::PermissionDenied
    ));
    assert!(matches!(
        options("one")
            .create()
            .server(&mut registry, Err(Error::from(ErrorKind::AddrInUse))),
        Err(InitError::SocketAlreadyExists)
    ));
    // No server was created, so the next one is the first.
    let (_, hook) = options("one").create().server(&mut registry, Ok(())).unwrap();
    assert_eq!(hook, Some(Handlers::Default));
}

#[test]
fn basic_multi_server() {
    let mut registry = ServerRegistry::new();
    let _server = test_model("basic_multi_server.socket")
        .server(&mut registry, Ok(()))
        .unwrap();
    // The socket of the first server is still there: the second bind finds
    // the address in use.
    assert!(matches!(
        test_model("basic_multi_server.socket")
            .server(&mut registry, Err(Error::from(ErrorKind::AddrInUse)))
            .unwrap_err(),
        InitError::SocketAlreadyExists,
    ));
}

/// One connection's worth of a server: receives a message, answers it.
fn serve_one(
    server: &easy_ipc::server::Server<u32, u32>,
    request: &[u8],
    expect: u32,
    answer: u32,
) -> Vec<u8> {
    let mut conn = server.connections(Ok(())).unwrap();
    let header = conn.receive();
    let action = conn.on_read(Ok(request[..header].to_vec()));
    let len = match action {
        ReceiveAction::Read { len } => len,
        other => panic!("no payload announced: {:?}", other),
    };
    let payload = match conn.on_read(Ok(request[header..header + len].to_vec())) {
        ReceiveAction::Deliver { payload } => payload,
        other => panic!("no payload: {:?}", other),
    };
    assert_eq!(expect, conn.received(bitcode::deserialize(&payload)).unwrap());
    conn.send(bitcode::serialize(&answer)).unwrap()
}

const PING: u32 = 1;
const PONG: u32 = 2;

#[test]
fn lib_basic_send_receive() {
    let mut registry = ServerRegistry::new();
    let (server, _) = options("basic_send_receive.sock")
        .create()
        .server(&mut registry, Ok(()))
        .unwrap();
    let mut client = options("basic_send_receive.sock").create().client(Ok(())).unwrap();

    let request = client.send(bitcode::serialize(&PING)).unwrap();
    client.sent(Ok(())).unwrap();
    let response = serve_one(&server, &request, PING, PONG);

    let header = client.receive();
    let len = match client.on_read(Ok(response[..header].to_vec())) {
        ReceiveAction::Read { len } => len,
        other => panic!("no payload announced: {:?}", other),
    };
    let payload = match client.on_read(Ok(response[header..header + len].to_vec())) {
        ReceiveAction::Deliver { payload } => payload,
        other => panic!("no payload: {:?}", other),
    };
    assert_eq!(PONG, client.received(bitcode::deserialize(&payload)).unwrap());

    // Server is closed, should get errors when sending and receiving
    let _ = client.send(bitcode::serialize(&PING)).unwrap();
    assert!(matches!(
        client.sent(Err(Error::from(ErrorKind::BrokenPipe))).unwrap_err(),
        ConnectionError::WriteFailed(_)
    ));
    client.receive();
    assert!(matches!(
        client.on_read(Ok(Vec::new())),
        ReceiveAction::Fail(ConnectionError::UnexepctedEof)
    ));
}

#[test]
fn test_basic_send_receive() {
    let mut registry = ServerRegistry::new();
    let (server, hook) = test_model("basic_send_receive.socket")
        .server(&mut registry, Ok(()))
        .unwrap();
    assert_eq!(hook, Some(Handlers::Custom));
    let mut client = test_model("basic_send_receive.socket").client(Ok(())).unwrap();

    let request = client.send(bitcode::serialize(&PING)).unwrap();
    let response = serve_one(&server, &request, PING, PONG);

    let header = client.receive();
    let len = match client.on_read(Ok(response[..header].to_vec())) {
        ReceiveAction::Read { len } => len,
        other => panic!("no payload announced: {:?}", other),
    };
    let payload = match client.on_read(Ok(response[header..header + len].to_vec())) {
        ReceiveAction::Deliver { payload } => payload,
        other => panic!("no payload: {:?}", other),
    };
    assert_eq!(PONG, client.received(bitcode::deserialize(&payload)).unwrap());

    // Server is closed, should get errors when sending and receiving
    assert!(matches!(
        client.sent(Err(Error::from(ErrorKind::BrokenPipe))).unwrap_err(),
        ConnectionError::WriteFailed(_)
    ));
    client.receive();
    assert!(matches!(
        client.on_read(Ok(Vec::new())),
        ReceiveAction::Fail(ConnectionError::UnexepctedEof)
    ));
}

#[test]
fn basic_multi_client() {
    let mut registry = ServerRegistry::new();
    let (server, _) = test_model("basic_multi_client.socket")
        .server(&mut registry, Ok(()))
        .unwrap();
    let num_conn = 10;
    let mut count = 0;
    for _ii in 0..num_conn {
        let mut client = test_model("basic_multi_client.socket").client(Ok(())).unwrap();
        let request = client.send(bitcode::serialize(&PING)).unwrap();
        let response = serve_one(&server, &request, PING, PONG);
        count += 1;
        let header = client.receive();
        let len = match client.on_read(Ok(response[..header].to_vec())) {
            ReceiveAction::Read { len } => len,
            other => panic!("no payload announced: {:?}", other),
        };
        let payload = match client.on_read(Ok(response[header..header + len].to_vec())) {
            ReceiveAction::Deliver { payload } => payload,
            other => panic!("no payload: {:?}", other),
        };
        assert_eq!(client.received(bitcode::deserialize::<u32>(&payload)).unwrap(), PONG);
    }
    assert_eq!(count, num_conn);
}

#[test]
fn failed_accept_does_not_end_the_server() {
    let mut registry = ServerRegistry::new();
    let (server, _) = test_model("accept").server(&mut registry, Ok(())).unwrap();
    assert!(matches!(
        server.connections(Err(Error::from(ErrorKind::ConnectionAborted))),
        Err(ConnectionError::InitError(e)) if e.kind() == ErrorKind::ConnectionAborted
    ));
    let mut conn = server.connections(Ok(())).unwrap();
    assert_eq!(conn.receive(), 12);
}

#[test]
fn a_failed_model_gives_its_error() {
    let mut registry = ServerRegistry::new();
    assert!(matches!(
        client_of::<u32, u32>(Err(InitError::FailedGettingNamespace), Ok(())),
        Err(InitError::FailedGettingNamespace)
    ));
    assert!(matches!(
        server_of::<u32, u32>(Err(InitError::BadPath), &mut registry, Ok(())),
        Err(InitError::BadPath)
    ));
    // The registry is as it was: the next server is the first.
    let (_, hook) = server_of(Ok(options("x").create()), &mut registry, Ok(())).unwrap();
    assert_eq!(hook, Some(Handlers::Default));
    assert!(client_of(Ok(options("x").create()), Ok(())).is_ok());
}
