use proxylib::addr::SockAddr;
use proxylib::handlers::filter::{wrap_inner, AddrLookupFilter, Filter, FilterError, FilterLogic};
use proxylib::handlers::redirect::Redirect;
use proxylib::message::{Request, Response, UpstreamError};
use proxylib::uri::{Authority, Uri};
use proxylib::{RequestHandler, Step};

fn listed() -> SockAddr {
    SockAddr::v4(127, 0, 0, 1, 9000)
}

fn unlisted() -> SockAddr {
    SockAddr::v4(10, 0, 0, 5, 1234)
}

fn request() -> Request {
    Request {
        method: "GET".to_string(),
        uri: Uri {
            scheme: Some("http".to_string()),
            authority: Some("old.example".to_string()),
            path: "/a/b".to_string(),
            query: Some("q=1".to_string()),
        },
    }
}

fn redirect() -> Redirect<proxylib::handlers::redirect::ChangeAuthority> {
    Redirect::change_authority(Authority::parse("upstream.test".to_string()).unwrap())
}

#[test]
fn whitelist_admits_listed_address() {
    let logic = AddrLookupFilter { list: vec![listed()], is_blacklist: false };
    assert!(logic.filter(listed(), &request()));
}

#[test]
fn whitelist_blocks_unlisted_address() {
    let logic = AddrLookupFilter { list: vec![listed()], is_blacklist: false };
    assert!(!logic.filter(unlisted(), &request()));
}

#[test]
fn blacklist_blocks_listed_address() {
    let logic = AddrLookupFilter { list: vec![listed()], is_blacklist: true };
    assert!(!logic.filter(listed(), &request()));
}

#[test]
fn blacklist_admits_unlisted_address() {
    let logic = AddrLookupFilter { list: vec![listed()], is_blacklist: true };
    assert!(logic.filter(unlisted(), &request()));
}

#[test]
fn same_host_different_port_is_a_different_caller() {
    let logic = AddrLookupFilter { list: vec![listed()], is_blacklist: false };
    assert!(!logic.filter(SockAddr::v4(127, 0, 0, 1, 9001), &request()));
}

#[test]
fn rejection_carries_caller_and_request() {
    let chain = Filter::addr_whitelist(redirect(), vec![listed()]);
    match chain.handle(unlisted(), request()) {
        Step::Resolved(Err(FilterError::FilteredOut(from_addr, original))) => {
            assert_eq!(from_addr, unlisted());
            assert_eq!(original, request());
        },
        other => panic!("expected a filtered-out rejection, got {:?}", other),
    }
}

#[test]
fn rejection_does_not_reach_the_inner_handler() {
    // The same request handed to the inner handler directly is forwarded;
    // behind a rejecting filter the step is already resolved, so no
    // outbound request exists for the transport to issue.
    match redirect().handle(unlisted(), request()) {
        Step::Forward(_) => {},
        other => panic!("the inner handler alone forwards, got {:?}", other),
    }
    let chain = Filter::addr_whitelist(redirect(), vec![listed()]);
    match chain.handle(unlisted(), request()) {
        Step::Resolved(Err(FilterError::FilteredOut(..))) => {},
        other => panic!("expected a filtered-out rejection, got {:?}", other),
    }
}

#[test]
fn admission_is_a_passthrough_to_the_inner_handler() {
    let chain = Filter::addr_whitelist(redirect(), vec![listed()]);
    let through_filter = chain.handle(listed(), request());
    let direct = redirect().handle(listed(), request());
    match (through_filter, direct) {
        (Step::Forward(filtered), Step::Forward(forwarded)) => {
            assert_eq!(filtered, forwarded);
        },
        (a, b) => panic!("expected both to forward, got {:?} and {:?}", a, b),
    }
}

#[test]
fn success_is_relayed_unchanged() {
    let chain = Filter::addr_whitelist(redirect(), vec![listed()]);
    let response = Response { status: 200, body: b"hello".to_vec() };
    match chain.finish(Ok(response.clone())) {
        Ok(relayed) => assert_eq!(relayed, response),
        Err(_) => panic!("a successful outcome must pass through"),
    }
}

#[test]
fn inner_failure_is_wrapped() {
    let chain = Filter::addr_whitelist(redirect(), vec![listed()]);
    let failure = UpstreamError { message: "connection refused".to_string() };
    match chain.finish(Err(failure.clone())) {
        Err(FilterError::Inner(carried)) => assert_eq!(carried, failure),
        other => panic!("expected the inner failure wrapped, got {:?}", other),
    }
}

#[test]
fn wrap_inner_keeps_the_value() {
    match wrap_inner::<u32, u32>(Ok(5)) {
        Ok(v) => assert_eq!(v, 5),
        Err(_) => panic!("a success must stay a success"),
    }
    match wrap_inner::<u32, u32>(Err(7)) {
        Err(FilterError::Inner(e)) => assert_eq!(e, 7),
        other => panic!("expected the error wrapped, got {:?}", other),
    }
}

#[test]
fn duplicate_entries_do_not_change_the_decision() {
    let logic = AddrLookupFilter { list: vec![listed(), listed()], is_blacklist: false };
    assert!(logic.filter(listed(), &request()));
    let empty = AddrLookupFilter { list: vec![], is_blacklist: false };
    assert!(!empty.filter(listed(), &request()));
}
