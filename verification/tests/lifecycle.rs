use protopathy::Capabilities;
use protopathy::Server;
use protopathy::ServerError;
use protopathy::ServerState;
use protopathy::SocketUrl;
use protopathy::Transport;

fn tcp_url() -> SocketUrl {
    SocketUrl::parse("tcp://127.0.0.1:50051").unwrap()
}

#[test]
fn new_server_is_configured() {
    let server = Server::new(tcp_url());
    assert_eq!(server.state, ServerState::Configured);
    assert_eq!(
        server.capabilities,
        Capabilities { tcp: true, unix_path: true, unix_fd: true }
    );
    assert_eq!(server.socket_url, tcp_url());
}

#[test]
fn start_moves_to_serving_and_finish_stops() {
    let mut server = Server::new(tcp_url());
    let transport = server.start().unwrap();
    assert_eq!(
        transport,
        Transport::Tcp { host: "127.0.0.1".to_string(), port: 50051 }
    );
    assert_eq!(server.state, ServerState::Serving);
    server.finish();
    assert_eq!(server.state, ServerState::Stopped);
}

#[test]
fn start_on_unknown_scheme_stops_with_unsupported() {
    let mut server = Server::new(SocketUrl::parse("bogus://x").unwrap());
    let r = server.start();
    assert_eq!(r, Err(ServerError::UnsupportedScheme));
    assert_eq!(server.state, ServerState::Stopped);
}

#[test]
fn second_start_fails_with_io_and_changes_nothing() {
    let mut server = Server::new(tcp_url());
    assert!(server.start().is_ok());
    assert_eq!(server.state, ServerState::Serving);
    let second = server.start();
    assert_eq!(
        second,
        Err(ServerError::Io("server already started".to_string()))
    );
    assert_eq!(server.state, ServerState::Serving);
}

#[test]
fn start_after_stop_fails_with_io() {
    let mut server = Server::new(SocketUrl::parse("bogus://x").unwrap());
    assert!(server.start().is_err());
    assert_eq!(server.state, ServerState::Stopped);
    let again = server.start();
    assert!(matches!(again, Err(ServerError::Io(_))));
    assert_eq!(server.state, ServerState::Stopped);
}

#[test]
fn finish_outside_serving_changes_nothing() {
    let mut server = Server::new(tcp_url());
    server.finish();
    assert_eq!(server.state, ServerState::Configured);
}

#[test]
fn shutdown_fires_every_listener_clone_once() {
    let server = Server::new(tcp_url());
    let early_clone = server.stop_listener.clone();
    let second_clone = early_clone.clone();
    assert!(!server.stop_listener.is_triggered());
    assert!(!early_clone.is_triggered());

    server.stop_trigger.trigger();
    // firing a second time has no observable effect
    server.stop_trigger.trigger();

    // every clone resolves, whether derived before or after the fire
    let late_clone = server.stop_listener.clone();
    server.stop_listener.wait();
    early_clone.wait();
    second_clone.wait();
    late_clone.wait();
    assert!(server.stop_listener.is_triggered());
    assert!(late_clone.is_triggered());
}
