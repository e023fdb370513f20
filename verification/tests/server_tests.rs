use thruster_grpc::server::ProtoServer;

#[test]
fn fresh_settings_accept_http2_only() {
    let server = ProtoServer::new();
    assert!(server.http2_only());
    assert!(server.tcp_keepalive().is_none());
    assert!(server.tcp_nodelay());
}

#[test]
fn settings_can_be_changed() {
    let mut server = ProtoServer::new();
    server.set_http2_only(false);
    server.set_tcp_keepalive(Some(30_000));
    server.set_tcp_nodelay(false);
    assert!(!server.http2_only());
    assert_eq!(server.tcp_keepalive(), Some(30_000));
    assert!(!server.tcp_nodelay());
}
