use khronos_runtime::datetime::DateTimeError;
use khronos_runtime::timedelta::TimeDelta;
use khronos_runtime::httpserver::{
    read_limit, BodyExhausted, ServerRequestBody,
    dispatch, plan_for_failure, plan_for_run, plan_for_upstream, plan_for_value, valid_status, BindAddr, BindError,
    HandlerRun, HandlerValue, HttpVersion, Method, PortArg, ResponsePlan, RouteFailure, RouteKey, RouteTable,
    RouteTimeout, Router, RouterError, UpstreamOutcome,
};

fn status<R>(p: ResponsePlan<R>) -> (u16, String) {
    match p {
        ResponsePlan::Status { code, body } => (code, body),
        ResponsePlan::Respond(_) => panic!("expected a status"),
    }
}

#[test]
fn method_names_roundtrip() {
    for m in [Method::ANY, Method::GET, Method::POST, Method::PUT, Method::PATCH, Method::DELETE, Method::OPTIONS, Method::HEAD, Method::TRACE, Method::CONNECT] {
        assert_eq!(Method::parse(m.as_str()), Some(m));
    }
    assert_eq!(Method::parse("*"), Some(Method::ANY));
    assert_eq!(Method::parse("get"), None);
}

#[test]
fn version_names() {
    assert_eq!(HttpVersion::Http2.server_name(), "HTTP/2");
    assert_eq!(HttpVersion::Http2.client_name(), "HTTP/2.0");
    assert_eq!(HttpVersion::parse_server("HTTP/1.1"), Some(HttpVersion::Http11));
    assert_eq!(HttpVersion::parse_client("HTTP/3.0"), Some(HttpVersion::Http3));
    assert_eq!(HttpVersion::parse_server("HTTP/4"), None);
}

#[test]
fn status_codes() {
    assert!(valid_status(200));
    assert!(!valid_status(99));
    assert!(!valid_status(1000));
}

#[test]
fn routes_change_only_while_stopped() {
    let mut router: Router<u8> = Router::new(0);
    let mut routes: RouteTable<&str> = RouteTable::new();
    assert!(router.route(&mut routes, Method::GET, "/a".to_string(), "h1").is_ok());
    assert!(router.set_timeout(Method::GET, "/a".to_string(), RouteTimeout { secs: 5, nanos: 0 }).is_ok());
    let listed = router.routes_with_timeouts(&routes);
    assert_eq!(listed.len(), 1);
    assert_eq!(listed[0].1, "/a");
    assert_eq!(listed[0].2, RouteTimeout { secs: 5, nanos: 0 });
    let other = RouteKey { method: Method::POST, pattern: "/b".to_string() };
    assert_eq!(router.timeout_for(&other), RouteTimeout { secs: 30, nanos: 0 });

    router.start();
    assert!(router.is_running());
    assert_eq!(router.route(&mut routes, Method::POST, "/b".to_string(), "h2"), Err(RouterError::Running));
    assert_eq!(router.set_bind_addr(9), Err(RouterError::Running));
    assert_eq!(routes.len(), 1);
    assert!(router.stop());
    assert!(!router.stop());
    assert!(router.set_bind_addr(9).is_ok());
    assert_eq!(*router.bind_addr(), 9);
}

#[test]
fn dispatch_finds_handler_or_404() {
    let router: Router<u8> = Router::new(0);
    let mut routes: RouteTable<u32> = RouteTable::new();
    router.route(&mut routes, Method::GET, "/x".to_string(), 7).unwrap();
    let hit = RouteKey { method: Method::GET, pattern: "/x".to_string() };
    assert_eq!(*dispatch::<u32, ()>(&routes, &hit).ok().unwrap(), 7);
    let miss = RouteKey { method: Method::GET, pattern: "/y".to_string() };
    let (code, body) = status(dispatch::<u32, ()>(&routes, &miss).err().unwrap());
    assert_eq!((code, body.as_str()), (404, "No route found for request"));
}

#[test]
fn handler_answers() {
    assert_eq!(status(plan_for_value::<()>(None)), (204, String::new()));
    assert!(matches!(plan_for_value(Some(HandlerValue::Response(5))), ResponsePlan::Respond(5)));
    assert_eq!(status(plan_for_value::<()>(Some(HandlerValue::OtherObject))), (500, "Invalid response from upstream!".to_string()));
    assert_eq!(status(plan_for_value::<()>(Some(HandlerValue::Text("hi".to_string())))), (200, "hi".to_string()));
    assert_eq!(status(plan_for_run::<()>(HandlerRun::Raised("boom".to_string()))), (500, "boom".to_string()));
    assert_eq!(status(plan_for_run::<()>(HandlerRun::Unfinished)), (204, String::new()));
    assert_eq!(status(plan_for_upstream::<()>(UpstreamOutcome::TimedOut)), (408, "Timed out waiting for upstream (after {}ms)".to_string()));
    assert_eq!(status(plan_for_upstream::<()>(UpstreamOutcome::Dropped("channel closed".to_string()))), (500, "channel closed".to_string()));
    assert_eq!(status(plan_for_failure::<()>(RouteFailure::RequestObject)), (500, "Failed to create request object".to_string()));
}

#[test]
fn bind_addresses() {
    assert!(matches!(BindAddr::from_text("unix:/tmp/s.sock"), BindAddr::Unix { path } if path == "/tmp/s.sock"));
    assert!(matches!(BindAddr::from_text("0.0.0.0:80"), BindAddr::Tcp { addr } if addr == "0.0.0.0:80"));
    assert_eq!(BindAddr::from_text("unix:x").kind_name(), "unix");
    assert_eq!(BindAddr::pair_text("127.0.0.1", &PortArg::Integer(8080)).unwrap(), "127.0.0.1:8080");
    assert_eq!(BindAddr::pair_text("h", &PortArg::Integer(65537)).unwrap(), "h:1");
    assert_eq!(BindAddr::pair_text("h", &PortArg::Integer(-1)).unwrap(), "h:65535");
    assert_eq!(BindAddr::pair_text("h", &PortArg::Text("+443".to_string())).unwrap(), "h:443");
    assert_eq!(BindAddr::pair_text("h", &PortArg::Text("70000".to_string())), Err(BindError::PortNotNumber));
    assert_eq!(BindAddr::pair_text("h", &PortArg::Other), Err(BindError::InvalidPort));
    assert_eq!(BindAddr::pair_text("unix:/s", &PortArg::Integer(1)), Err(BindError::InvalidAddress));
}

#[test]
fn router_copies_and_labels() {
    let mut router: Router<String> = Router::new("a".to_string());
    router.set_timeout(Method::GET, "/t".to_string(), RouteTimeout { secs: 1, nanos: 2 }).unwrap();
    router.start();
    let copy = router.copy_stopped();
    assert!(!copy.is_running());
    assert_eq!(copy.bind_addr(), "a");
    let key = RouteKey { method: Method::GET, pattern: "/t".to_string() };
    assert_eq!(copy.timeout_for(&key), RouteTimeout { secs: 1, nanos: 2 });
    assert_eq!(BindAddr::from_text("unix:/s").action_label(), "unix:/s");
    assert_eq!(BindAddr::from_text("1.2.3.4:5").action_label(), "tcp:1.2.3.4:5");
}

#[test]
fn request_bodies_are_used_once() {
    let mut body = ServerRequestBody::new(vec![1u8, 2]);
    assert_eq!(body.take_for_read(), Ok(vec![1, 2]));
    assert_eq!(body.take_for_read(), Err(BodyExhausted::Read));
    assert_eq!(body.take_for_response(), Err(BodyExhausted::Given));
    assert_eq!(BodyExhausted::Given.message(), "Body has been exhausted");
    assert_eq!(read_limit(None), usize::MAX);
    assert_eq!(read_limit(Some(3)), 3);
}

#[test]
fn durations_become_route_timeouts() {
    let t = TimeDelta::from_millis(1_500).unwrap().to_route_timeout().unwrap();
    assert_eq!(t, RouteTimeout { secs: 1, nanos: 500_000_000 });
    assert_eq!(TimeDelta::from_nanos(0).to_route_timeout().unwrap(), RouteTimeout { secs: 0, nanos: 0 });
    let e = TimeDelta::from_nanos(-1).to_route_timeout().unwrap_err();
    assert_eq!(e, DateTimeError::NegativeDuration);
    assert_eq!(e.message(), "Source duration value is out of range for the target type");
    let mut router: Router<u8> = Router::new(0);
    let t = TimeDelta::from_seconds(7).unwrap().to_route_timeout().unwrap();
    router.set_timeout(Method::POST, "/p".to_string(), t).unwrap();
    let key = RouteKey { method: Method::POST, pattern: "/p".to_string() };
    assert_eq!(router.timeout_for(&key), RouteTimeout { secs: 7, nanos: 0 });
}

#[test]
fn copied_router_binds_to_the_same_address() {
    let router: Router<BindAddr> = Router::new(BindAddr::from_text("127.0.0.1:8080"));
    let copy = router.copy_stopped();
    assert!(matches!(copy.bind_addr(), BindAddr::Tcp { addr } if addr == "127.0.0.1:8080"));
    let unix = BindAddr::from_text("unix:/tmp/s.sock");
    assert!(matches!(unix.clone(), BindAddr::Unix { path } if path == "/tmp/s.sock"));
}
