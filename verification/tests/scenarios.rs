use hyper::header::HeaderValue;
use hyper::{HeaderMap, Uri};
use tokiotest_httpserver::handler::HandlerBuilder;
use tokiotest_httpserver::message::{Method, Request, StatusCode};
use tokiotest_httpserver::ports::PortPool;
use tokiotest_httpserver::HttpTestContext;

fn code(number: u16) -> StatusCode {
    StatusCode::from_u16(number).unwrap()
}

fn pooled_context(pool: &mut PortPool) -> HttpTestContext {
    HttpTestContext::setup(None, pool).unwrap()
}

fn fixed_context(pool: &mut PortPool) -> HttpTestContext {
    HttpTestContext::setup(Some("54321"), pool).unwrap()
}

fn teardown(mut ctx: HttpTestContext, pool: &mut PortPool) {
    assert!(ctx.begin_teardown());
    ctx.finish_teardown(pool);
}

#[test]
fn test_get_without_expect_should_send_500() {
    let mut pool = PortPool::new();
    let mut ctx = pooled_context(&mut pool);
    let resp = ctx.handle(&Request::get("/whatever"));
    assert_eq!(500, resp.status.as_u16());
    assert!(resp.body.is_empty());
    teardown(ctx, &mut pool);
}

#[test]
fn lib_test_get_respond_404() {
    let mut pool = PortPool::new();
    let mut ctx = pooled_context(&mut pool);
    ctx.add(HandlerBuilder::new("/unknown").status_code(code(404)).build());

    let resp = ctx.handle(&Request::get("/unknown"));

    assert_eq!(404, resp.status.as_u16());
    teardown(ctx, &mut pool);
}

#[test]
fn test_get_endpoint() {
    let mut pool = PortPool::new();
    let mut ctx = pooled_context(&mut pool);
    ctx.add(HandlerBuilder::new("/foo").status_code(code(200)).build());

    let resp = ctx.handle(&Request::get("/foo"));
    assert_eq!(200, resp.status.as_u16());

    let resp = ctx.handle(&Request::get("/foo"));
    assert_eq!(500, resp.status.as_u16());
    teardown(ctx, &mut pool);
}

#[test]
fn test_get_with_headers() {
    let mut pool = PortPool::new();
    let mut ctx = pooled_context(&mut pool);
    let mut headers = HeaderMap::new();
    headers.append("foo", "bar".parse().unwrap());
    ctx.add(HandlerBuilder::new("/headers").status_code(code(200)).headers(headers.clone()).build());
    ctx.add(HandlerBuilder::new("/headers").status_code(code(200)).headers(headers).build());

    let resp = ctx.handle(&Request::get("/headers"));
    assert_eq!(500, resp.status.as_u16());

    let mut sent = HeaderMap::new();
    sent.insert("foo", HeaderValue::from_static("bar"));
    let req = Request::new(Method::get(), "/headers").with_headers(sent);
    let resp = ctx.handle(&req);
    assert_eq!(200, resp.status.as_u16());
    teardown(ctx, &mut pool);
}

#[test]
fn test_post_endpoint() {
    let mut pool = PortPool::new();
    let mut ctx = pooled_context(&mut pool);
    ctx.add(HandlerBuilder::new("/bar").status_code(code(200)).method(Method::post()).build());

    let req = Request::new(Method::post(), "/bar").with_body("foo=bar".as_bytes().to_vec());

    let resp = ctx.handle(&req);

    assert_eq!(200, resp.status.as_u16());
    teardown(ctx, &mut pool);
}

#[test]
fn test_http_test_get_respond_200() {
    let mut pool = PortPool::new();
    let mut ctx = pooled_context(&mut pool);
    let uri = format!("http://{}:{}/ok", "localhost", ctx.port()).parse::<Uri>().unwrap();
    ctx.add(HandlerBuilder::new("/ok").status_code(code(200)).build());

    assert_eq!(Some(uri.clone()), ctx.uri("/ok"));
    let resp = ctx.handle(&Request::get(uri.path()));

    assert_eq!(200, resp.status.as_u16());
    teardown(ctx, &mut pool);
}

#[test]
fn test_parallel_test_get_respond_200() {
    let mut pool = PortPool::new();
    let mut ctx = pooled_context(&mut pool);
    let mut other = pooled_context(&mut pool);
    assert_ne!(ctx.port(), other.port());
    ctx.add(HandlerBuilder::new("/ok").status_code(code(200)).build());

    let uri = ctx.uri("/ok").unwrap();
    let resp = ctx.handle(&Request::get(uri.path()));

    assert_eq!(200, resp.status.as_u16());
    assert_eq!(500, other.handle(&Request::get("/ok")).status.as_u16());
    teardown(ctx, &mut pool);
    teardown(other, &mut pool);
    assert_eq!(100, pool.available());
}

#[test]
fn test_parallel_test_get_respond_404() {
    let mut pool = PortPool::new();
    let mut ctx = pooled_context(&mut pool);
    ctx.add(HandlerBuilder::new("/notfound").status_code(code(404)).build());

    let uri = ctx.uri("/notfound").unwrap();
    let resp = ctx.handle(&Request::get(uri.path()));

    assert_eq!(404, resp.status.as_u16());
    teardown(ctx, &mut pool);
}

#[test]
fn test_serial_test_get_respond_200() {
    let mut pool = PortPool::new();
    let mut ctx = fixed_context(&mut pool);
    ctx.add(HandlerBuilder::new("/ok").status_code(code(200)).build());

    assert_eq!(Some(Uri::from_static("http://localhost:54321/ok")), ctx.uri("/ok"));
    let resp = ctx.handle(&Request::get("/ok"));

    assert_eq!(200, resp.status.as_u16());
    teardown(ctx, &mut pool);
    assert_eq!(100, pool.available());
}

#[test]
fn test_serial_test_get_respond_404() {
    let mut pool = PortPool::new();
    let mut ctx = fixed_context(&mut pool);
    ctx.add(HandlerBuilder::new("/notfound").status_code(code(404)).build());

    assert_eq!(Some(Uri::from_static("http://localhost:54321/notfound")), ctx.uri("/notfound"));
    let resp = ctx.handle(&Request::get("/notfound"));

    assert_eq!(404, resp.status.as_u16());
    teardown(ctx, &mut pool);
}
