use h3_exchange::exchange::{
    Exchange, ExchangeAction, ExchangeEvent, ExchangePhase, ResponsePart,
};
use h3_exchange::message::{Header, Request, Response, Version};
use h3_exchange::routes::RouteTable;

fn head_of(action: ExchangeAction) -> Response {
    match action {
        ExchangeAction::SendResponse(response) => response,
        _ => panic!("expected a response head"),
    }
}

fn body_of(action: ExchangeAction) -> String {
    match action {
        ExchangeAction::SendData(body) => body,
        _ => panic!("expected a body"),
    }
}

fn serve(table: &RouteTable, path: &str) -> (u16, String) {
    let mut exchange = Exchange::new();
    let announced = exchange.step(table, ExchangeEvent::Resolved(Request::get(path)));
    assert!(matches!(announced, ExchangeAction::Announce { .. }));
    let head = head_of(exchange.step(table, ExchangeEvent::Completed));
    let body = body_of(exchange.step(table, ExchangeEvent::Completed));
    assert!(matches!(exchange.step(table, ExchangeEvent::Completed), ExchangeAction::Finish));
    assert!(matches!(exchange.step(table, ExchangeEvent::Completed), ExchangeAction::Done));
    assert_eq!(exchange.phase(), ExchangePhase::Finished);
    (head.status, body)
}

#[test]
fn exchange_walks_through_its_phases() {
    let table = RouteTable::standard();
    let mut exchange = Exchange::new();
    assert_eq!(exchange.phase(), ExchangePhase::Resolving);
    assert!(!exchange.is_over());
    let action = exchange.step(&table, ExchangeEvent::Resolved(Request::get("/test")));
    match action {
        ExchangeAction::Announce { path, version } => {
            assert_eq!(path, "/test");
            assert_eq!(version, Version::Http3);
        }
        _ => panic!("expected the announcement"),
    }
    assert_eq!(exchange.phase(), ExchangePhase::Routing);
    let head = head_of(exchange.step(&table, ExchangeEvent::Completed));
    assert_eq!(head.status, 200);
    assert_eq!(head.headers.len(), 1);
    assert_eq!(head.headers[0].name, "content-type");
    assert_eq!(head.headers[0].value, "text/plain");
    assert_eq!(exchange.phase(), ExchangePhase::Responding(ResponsePart::Head));
    let body = body_of(exchange.step(&table, ExchangeEvent::Completed));
    assert_eq!(body, "Hello from http3 test endpoint");
    assert_eq!(exchange.phase(), ExchangePhase::Responding(ResponsePart::Body));
    assert!(matches!(exchange.step(&table, ExchangeEvent::Completed), ExchangeAction::Finish));
    assert_eq!(exchange.phase(), ExchangePhase::Responding(ResponsePart::End));
    assert!(matches!(exchange.step(&table, ExchangeEvent::Completed), ExchangeAction::Done));
    assert_eq!(exchange.phase(), ExchangePhase::Finished);
    assert!(exchange.is_over());
}

#[test]
fn four_fixed_paths_get_status_200_and_their_bodies() {
    let table = RouteTable::standard();
    assert_eq!(serve(&table, "/"), (200, "Hello from http3 server".to_string()));
    assert_eq!(serve(&table, "/test"), (200, "Hello from http3 test endpoint".to_string()));
    assert_eq!(serve(&table, "/health"), (200, "hello from http3 health check".to_string()));
    assert_eq!(serve(&table, "/unknown"), (200, "404 Not Found".to_string()));
}

#[test]
fn unmatched_path_keeps_status_200() {
    let table = RouteTable::standard();
    let (status, body) = serve(&table, "/test/");
    assert_eq!(status, 200);
    assert_eq!(body, "404 Not Found");
    let (status, body) = serve(&table, "/TEST");
    assert_eq!(status, 200);
    assert_eq!(body, "404 Not Found");
}

#[test]
fn same_path_twice_gives_identical_responses() {
    let table = RouteTable::standard();
    let first = serve(&table, "/health");
    let second = serve(&table, "/health");
    assert_eq!(first.0, second.0);
    assert_eq!(first.1.as_bytes(), second.1.as_bytes());
}

#[test]
fn method_and_headers_do_not_change_the_answer() {
    let table = RouteTable::standard();
    let mut exchange = Exchange::new();
    let request = Request {
        method: "POST".to_string(),
        path: "/".to_string(),
        version: Version::Http11,
        headers: vec![Header::new("x-test", "1")],
    };
    exchange.step(&table, ExchangeEvent::Resolved(request));
    head_of(exchange.step(&table, ExchangeEvent::Completed));
    let body = body_of(exchange.step(&table, ExchangeEvent::Completed));
    assert_eq!(body, "Hello from http3 server");
}

#[test]
fn unresolved_request_fails_the_exchange_without_a_write() {
    let table = RouteTable::standard();
    let mut exchange = Exchange::new();
    assert!(matches!(exchange.step(&table, ExchangeEvent::Failed), ExchangeAction::Abandon));
    assert_eq!(exchange.phase(), ExchangePhase::Failed);
    assert!(exchange.is_over());
    assert!(matches!(exchange.step(&table, ExchangeEvent::Completed), ExchangeAction::Abandon));
    assert!(matches!(
        exchange.step(&table, ExchangeEvent::Resolved(Request::get("/"))),
        ExchangeAction::Abandon
    ));
    assert_eq!(exchange.phase(), ExchangePhase::Failed);
}

#[test]
fn failed_exchange_does_not_hinder_the_next() {
    let table = RouteTable::standard();
    let mut broken = Exchange::new();
    broken.step(&table, ExchangeEvent::Failed);
    assert_eq!(broken.phase(), ExchangePhase::Failed);
    assert_eq!(serve(&table, "/test"), (200, "Hello from http3 test endpoint".to_string()));
}

#[test]
fn write_failure_ends_the_exchange_at_every_part() {
    let table = RouteTable::standard();
    for completed in 0..4 {
        let mut exchange = Exchange::new();
        exchange.step(&table, ExchangeEvent::Resolved(Request::get("/")));
        for _ in 0..completed {
            exchange.step(&table, ExchangeEvent::Completed);
        }
        assert!(!exchange.is_over());
        assert!(matches!(exchange.step(&table, ExchangeEvent::Failed), ExchangeAction::Abandon));
        assert_eq!(exchange.phase(), ExchangePhase::Failed);
    }
}

#[test]
fn event_out_of_turn_fails_the_exchange() {
    let table = RouteTable::standard();
    let mut exchange = Exchange::new();
    assert!(matches!(exchange.step(&table, ExchangeEvent::Completed), ExchangeAction::Abandon));
    assert_eq!(exchange.phase(), ExchangePhase::Failed);
    let mut exchange = Exchange::new();
    exchange.step(&table, ExchangeEvent::Resolved(Request::get("/")));
    assert!(matches!(
        exchange.step(&table, ExchangeEvent::Resolved(Request::get("/test"))),
        ExchangeAction::Abandon
    ));
    assert_eq!(exchange.phase(), ExchangePhase::Failed);
}

#[test]
fn finished_exchange_stays_finished() {
    let table = RouteTable::standard();
    let mut exchange = Exchange::new();
    exchange.step(&table, ExchangeEvent::Resolved(Request::get("/")));
    for _ in 0..4 {
        exchange.step(&table, ExchangeEvent::Completed);
    }
    assert_eq!(exchange.phase(), ExchangePhase::Finished);
    assert!(matches!(exchange.step(&table, ExchangeEvent::Failed), ExchangeAction::Done));
    assert!(matches!(exchange.step(&table, ExchangeEvent::Completed), ExchangeAction::Done));
    assert_eq!(exchange.phase(), ExchangePhase::Finished);
}

#[test]
fn interleaved_exchanges_each_get_their_own_body() {
    let table = RouteTable::standard();
    let paths = ["/health", "/", "/unknown", "/test"];
    let expected = [
        "hello from http3 health check",
        "Hello from http3 server",
        "404 Not Found",
        "Hello from http3 test endpoint",
    ];
    let mut exchanges: Vec<Exchange> = paths.iter().map(|_| Exchange::new()).collect();
    for (exchange, path) in exchanges.iter_mut().zip(paths.iter()) {
        exchange.step(&table, ExchangeEvent::Resolved(Request::get(path)));
    }
    for exchange in exchanges.iter_mut().rev() {
        head_of(exchange.step(&table, ExchangeEvent::Completed));
    }
    let order = [2usize, 0, 3, 1];
    for &i in order.iter() {
        let body = body_of(exchanges[i].step(&table, ExchangeEvent::Completed));
        assert_eq!(body, expected[i]);
    }
}

#[test]
fn request_target_joins_scheme_authority_and_path() {
    assert_eq!(Request::get("/test").target("localhost"), "https://localhost/test");
    assert_eq!(Request::get("/").target("localhost"), "https://localhost/");
    assert_eq!(Request::get("/unknown").target("example.org"), "https://example.org/unknown");
    let request = Request::get("/health");
    assert_eq!(request.method, "GET");
    assert_eq!(request.path, "/health");
    assert_eq!(request.version, Version::Http3);
    assert!(request.headers.is_empty());
}
