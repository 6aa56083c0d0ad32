use ekiden_worker_host::router::{BindError, RequestRouter, RouteError};
use ekiden_worker_host::shutdown::{ShutdownCause, ShutdownSignal};

#[test]
fn route_before_binding_is_an_error() {
    let r: RequestRouter<String> = RequestRouter::new();
    assert!(!r.is_bound());
    assert_eq!(r.route(), Err(RouteError::WorkerNotBound));
}

#[test]
fn bind_once_then_route() {
    let mut r = RequestRouter::new();
    assert_eq!(r.bind_worker("first".to_string()), Ok(()));
    assert!(r.is_bound());
    assert_eq!(r.route().unwrap(), "first");
}

#[test]
fn second_bind_is_rejected_and_keeps_first() {
    let mut r = RequestRouter::new();
    r.bind_worker(1u32).unwrap();
    assert_eq!(r.bind_worker(2u32), Err(BindError::AlreadyBound));
    assert_eq!(*r.route().unwrap(), 1);
}

#[test]
fn shutdown_resolves_once() {
    let mut s = ShutdownSignal::new();
    assert!(!s.is_resolved());
    assert_eq!(s.cause(), None);
    assert!(s.resolve(ShutdownCause::ChannelClosed));
    assert!(s.is_resolved());
    assert!(!s.resolve(ShutdownCause::ShutdownRequested));
    assert_eq!(s.cause(), Some(ShutdownCause::ChannelClosed));
}
