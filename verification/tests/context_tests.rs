use thruster_grpc::codec::{encode_frame, CodecError};
use thruster_grpc::context::{CookieOptions, HttpVersion, ProtoContext, SameSite};

#[test]
fn new_context_defaults() {
    let ctx: ProtoContext<()> = ProtoContext::new(vec![], ());
    assert_eq!(ctx.status, 200);
    assert_eq!(ctx.headers.get("Server").unwrap().as_str(), "Thruster");
    assert_eq!(ctx.headers.entries().len(), 1);
    assert!(ctx.query_params.is_none());
}

#[test]
fn receive_strips_the_frame_header() {
    let framed = encode_frame(&[10, 20, 30]).unwrap();
    let mut ctx: ProtoContext<()> = ProtoContext::new(framed, ());
    assert_eq!(ctx.receive(), Ok(vec![10, 20, 30]));
}

#[test]
fn receive_twice_fails_fast_the_second_time() {
    let framed = encode_frame(&[1, 2, 3, 4]).unwrap();
    let mut ctx: ProtoContext<()> = ProtoContext::new(framed, ());
    assert_eq!(ctx.receive(), Ok(vec![1, 2, 3, 4]));
    assert_eq!(ctx.receive(), Err(CodecError::AlreadyConsumed));
    assert_eq!(ctx.receive(), Err(CodecError::AlreadyConsumed));
}

#[test]
fn receive_fails_on_short_inbound_octets() {
    let mut ctx: ProtoContext<()> = ProtoContext::new(vec![0, 0, 0], ());
    assert_eq!(ctx.receive(), Err(CodecError::Truncated));
    // The attempt still consumed the inbound slot.
    assert_eq!(ctx.receive(), Err(CodecError::AlreadyConsumed));
}

#[test]
fn send_sets_the_standard_headers_and_frames_the_payload() {
    let mut ctx: ProtoContext<()> = ProtoContext::new(vec![], ());
    ctx.send(&[5, 6]).unwrap();
    assert_eq!(
        ctx.headers.get("content-type").unwrap().as_str(),
        "application/grpc"
    );
    assert_eq!(ctx.headers.get("grpc-status").unwrap().as_str(), "0");
    assert_eq!(ctx.headers.get("trailer").unwrap().as_str(), "grpc-status");
    assert_eq!(ctx.http_version, HttpVersion::Http2);
    assert_eq!(ctx.body.take_content(), Some(vec![0, 0, 0, 0, 2, 5, 6]));
}

#[test]
fn status_and_redirect_and_content_type() {
    let mut ctx: ProtoContext<()> = ProtoContext::new(vec![], ());
    ctx.status(404);
    assert_eq!(ctx.status, 404);
    ctx.redirect("/elsewhere");
    assert_eq!(ctx.status, 302);
    assert_eq!(ctx.headers.get("Location").unwrap().as_str(), "/elsewhere");
    ctx.content_type("text/plain");
    assert_eq!(
        ctx.headers.get("Content-Type").unwrap().as_str(),
        "text/plain"
    );
}

#[test]
fn proto_status_is_rendered_in_decimal() {
    let mut ctx: ProtoContext<()> = ProtoContext::new(vec![], ());
    ctx.set_proto_status(16);
    assert_eq!(ctx.headers.get("grpc-status").unwrap().as_str(), "16");
    ctx.set_proto_status(0);
    assert_eq!(ctx.headers.get("grpc-status").unwrap().as_str(), "0");
}

#[test]
fn version_switches() {
    let mut ctx: ProtoContext<()> = ProtoContext::new(vec![], ());
    assert_eq!(ctx.http_version, HttpVersion::Http11);
    ctx.set_http2();
    assert_eq!(ctx.http_version, HttpVersion::Http2);
    ctx.set_http10();
    assert_eq!(ctx.http_version, HttpVersion::Http10);
    ctx.set_http11();
    assert_eq!(ctx.http_version, HttpVersion::Http11);
}

#[test]
fn get_response_carries_headers_into_the_trailers() {
    let mut ctx: ProtoContext<()> = ProtoContext::new(vec![], ());
    ctx.send(&[1]).unwrap();
    ctx.set_proto_status(0);
    let status = ctx.status;
    let mut response = ctx.get_response();
    assert_eq!(response.status, status);
    assert_eq!(response.version, HttpVersion::Http2);
    let trailers = response.body.take_trailers().unwrap();
    assert_eq!(trailers.get("grpc-status").unwrap().as_str(), "0");
    assert_eq!(
        trailers.get("content-type").unwrap().as_str(),
        "application/grpc"
    );
    assert!(response.body.take_trailers().is_none());
}

#[test]
fn cookie_with_default_options() {
    let mut ctx: ProtoContext<()> = ProtoContext::new(vec![], ());
    ctx.cookie("session", "abc123", &CookieOptions::default());
    assert_eq!(
        ctx.headers.get("Set-Cookie").unwrap().as_str(),
        "session=abc123; Path=/, SameSite=Strict"
    );
}

#[test]
fn cookie_with_every_attribute() {
    let mut ctx: ProtoContext<()> = ProtoContext::new(vec![], ());
    let options = CookieOptions {
        domain: String::from("example.com"),
        path: String::from("/app"),
        expires: 1700000000,
        http_only: true,
        max_age: 3600,
        secure: true,
        signed: false,
        same_site: SameSite::Lax,
    };
    ctx.cookie("id", "7", &options);
    assert_eq!(
        ctx.headers.get("Set-Cookie").unwrap().as_str(),
        "id=7; Path=/app, Expires=1700000000, Max-Age=3600, Domain=example.com, \
         Secure, HttpOnly, SameSite=Lax"
    );
}

#[test]
fn second_cookie_is_appended() {
    let mut ctx: ProtoContext<()> = ProtoContext::new(vec![], ());
    ctx.cookie("a", "1", &CookieOptions::default());
    ctx.cookie("b", "2", &CookieOptions::default());
    assert_eq!(
        ctx.headers.get("Set-Cookie").unwrap().as_str(),
        "a=1; Path=/, SameSite=Strict, b=2; Path=/, SameSite=Strict"
    );
}

#[test]
fn set_body_resets_trailer_state() {
    let mut ctx: ProtoContext<()> = ProtoContext::new(vec![], ());
    ctx.set_body(vec![1, 2]);
    assert_eq!(ctx.body.take_content(), Some(vec![1, 2]));
    assert!(ctx.body.take_trailers().is_none());
}

#[test]
fn header_set_and_remove() {
    let mut ctx: ProtoContext<()> = ProtoContext::new(vec![], ());
    ctx.set("x-request-id", "42");
    assert_eq!(ctx.headers.get("x-request-id").unwrap().as_str(), "42");
    ctx.remove("x-request-id");
    assert!(ctx.headers.get("x-request-id").is_none());
}

#[test]
fn query_params_are_stored() {
    let mut ctx: ProtoContext<()> = ProtoContext::new(vec![], ());
    ctx.set_query_params(vec![(String::from("k"), String::from("v"))]);
    let params = ctx.query_params.as_ref().unwrap();
    assert_eq!(params.len(), 1);
    assert_eq!(params[0].0.as_str(), "k");
    assert_eq!(params[0].1.as_str(), "v");
}
