use protopathy::Capabilities;
use protopathy::Server;
use protopathy::ServerError;
use protopathy::ServerState;
use protopathy::SocketUrl;
use protopathy::Transport;
use protopathy::address::parent_of;

fn runtime() -> tokio::runtime::Runtime {
    tokio::runtime::Builder::new_current_thread()
        .enable_all()
        .build()
        .unwrap()
}

#[test]
fn tcp_ephemeral_bind_then_shutdown_returns_ok() {
    let mut server = Server::new(SocketUrl::parse("tcp://127.0.0.1:0").unwrap());
    let transport = server.start().unwrap();
    let (host, port) = match transport {
        Transport::Tcp { host, port } => (host, port),
        other => panic!("expected a tcp transport, got {:?}", other),
    };
    assert_eq!(host, "127.0.0.1");
    assert_eq!(port, 0);

    let routes = server.routes.clone();
    let shutdown = server.stop_listener.clone();
    // fire before serving: an already-fired listener resolves immediately,
    // so the serve call binds, drains, and returns within a bounded time
    server.stop_trigger.trigger();

    let rt = runtime();
    let served: Result<(), String> = rt.block_on(async move {
        let listener = tokio::net::TcpListener::bind((host.as_str(), port))
            .await
            .map_err(|e| e.to_string())?;
        let incoming = tokio_stream::wrappers::TcpListenerStream::new(listener);
        tonic::transport::Server::builder()
            .add_routes(routes.routes())
            .serve_with_incoming_shutdown(incoming, shutdown)
            .await
            .map_err(|e| e.to_string())
    });
    assert_eq!(served, Ok(()));

    server.finish();
    assert_eq!(server.state, ServerState::Stopped);
}

#[test]
fn second_bind_on_same_port_fails_with_io() {
    let rt = runtime();
    rt.block_on(async {
        let first = tokio::net::TcpListener::bind(("127.0.0.1", 0)).await.unwrap();
        let port = first.local_addr().unwrap().port();

        // a second binder racing on the same URL must not also succeed
        let url = SocketUrl {
            scheme: "tcp".to_string(),
            host: Some("127.0.0.1".to_string()),
            port: Some(port),
            path: String::new(),
        };
        let transport = url.resolve(&Capabilities::default()).unwrap();
        let (host2, port2) = match transport {
            Transport::Tcp { host, port } => (host, port),
            other => panic!("expected a tcp transport, got {:?}", other),
        };
        let second = tokio::net::TcpListener::bind((host2.as_str(), port2)).await;
        let err = match second {
            Ok(_) => panic!("second bind on an occupied port succeeded"),
            Err(e) => ServerError::Io(e.to_string()),
        };
        assert!(matches!(err, ServerError::Io(_)));
    });
}

#[test]
fn file_socket_parent_created_and_stale_file_removed() {
    let path = "/tmp/protopathy_file_binder_test/srv.sock";
    let url = SocketUrl::parse("file:/tmp/protopathy_file_binder_test/srv.sock").unwrap();
    let transport = url.resolve(&Capabilities::default()).unwrap();
    assert_eq!(transport, Transport::UnixPath { path: path.to_string() });

    let parent = parent_of(path).unwrap();
    assert_eq!(parent, "/tmp/protopathy_file_binder_test");

    let rt = runtime();
    rt.block_on(async {
        // start from a missing parent directory
        let _ = tokio::fs::remove_file(path).await;
        let _ = tokio::fs::remove_dir_all(&parent).await;

        // the binder's preparation: create the parent, clear a stale file
        tokio::fs::create_dir_all(&parent).await.unwrap();
        let _ = tokio::fs::remove_file(path).await;
        let listener = tokio::net::UnixListener::bind(path).unwrap();
        drop(listener);

        // a stale socket file is left behind; the same preparation makes a
        // fresh bind succeed again
        tokio::fs::create_dir_all(&parent).await.unwrap();
        let _ = tokio::fs::remove_file(path).await;
        let listener = tokio::net::UnixListener::bind(path).unwrap();
        drop(listener);

        let _ = tokio::fs::remove_file(path).await;
        let _ = tokio::fs::remove_dir_all(&parent).await;
    });
}
