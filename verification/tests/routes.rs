use h3_exchange::routes::{
    RouteTable, HEALTH_BODY, HEALTH_PATH, NOT_FOUND_BODY, ROOT_BODY, ROOT_PATH, TEST_BODY,
    TEST_PATH,
};
use h3_exchange::text::{bytes_eq, copy_bytes, str_eq};

#[test]
fn standard_table_serves_its_three_routes() {
    let table = RouteTable::standard();
    assert_eq!(table.lookup("/"), "Hello from http3 server");
    assert_eq!(table.lookup("/test"), "Hello from http3 test endpoint");
    assert_eq!(table.lookup("/health"), "hello from http3 health check");
    assert_eq!(table.lookup(ROOT_PATH), ROOT_BODY);
    assert_eq!(table.lookup(TEST_PATH), TEST_BODY);
    assert_eq!(table.lookup(HEALTH_PATH), HEALTH_BODY);
}

#[test]
fn unknown_path_gets_the_not_found_body() {
    let table = RouteTable::standard();
    assert_eq!(table.lookup("/unknown"), "404 Not Found");
    assert_eq!(table.lookup(""), NOT_FOUND_BODY);
    assert_eq!(table.not_found(), "404 Not Found");
    assert!(!table.contains("/unknown"));
}

#[test]
fn lookup_is_exact_about_trailing_slashes() {
    let table = RouteTable::standard();
    assert_eq!(table.lookup("/test/"), "404 Not Found");
    assert_eq!(table.lookup("/health/"), "404 Not Found");
    assert_eq!(table.lookup("//"), "404 Not Found");
    assert!(table.contains("/test"));
    assert!(!table.contains("/test/"));
}

#[test]
fn lookup_is_exact_about_case() {
    let table = RouteTable::standard();
    assert_eq!(table.lookup("/TEST"), "404 Not Found");
    assert_eq!(table.lookup("/Test"), "404 Not Found");
    assert_eq!(table.lookup("/Health"), "404 Not Found");
}

#[test]
fn lookup_does_not_trim_or_strip_queries() {
    let table = RouteTable::standard();
    assert_eq!(table.lookup(" /test"), "404 Not Found");
    assert_eq!(table.lookup("/test?x=1"), "404 Not Found");
    assert_eq!(table.lookup("test"), "404 Not Found");
}

#[test]
fn empty_table_answers_everything_with_its_fallback() {
    let table = RouteTable::new("nothing here");
    assert_eq!(table.lookup("/"), "nothing here");
    assert_eq!(table.lookup("/test"), "nothing here");
    assert!(!table.contains("/"));
}

#[test]
fn with_route_adds_and_replaces() {
    let table = RouteTable::new("none").with_route("/a", "first").with_route("/b", "second");
    assert_eq!(table.lookup("/a"), "first");
    assert_eq!(table.lookup("/b"), "second");
    let table = table.with_route("/a", "third");
    assert_eq!(table.lookup("/a"), "third");
    assert_eq!(table.lookup("/b"), "second");
    assert_eq!(table.lookup("/c"), "none");
    assert_eq!(table.not_found(), "none");
}

#[test]
fn same_path_gives_the_same_body_twice() {
    let table = RouteTable::standard();
    let first = table.lookup("/health").to_string();
    let second = table.lookup("/health").to_string();
    assert_eq!(first.as_bytes(), second.as_bytes());
}

#[test]
fn text_comparison_is_exact() {
    assert!(str_eq("/test", "/test"));
    assert!(!str_eq("/test", "/Test"));
    assert!(!str_eq("/test", "/test/"));
    assert!(str_eq("", ""));
    assert!(str_eq("héllo", "héllo"));
    assert!(!str_eq("héllo", "hello"));
    assert!(bytes_eq(b"h3", b"h3"));
    assert!(!bytes_eq(b"h3", b"h2"));
    assert!(!bytes_eq(b"h3", b"h3-29"));
    assert_eq!(copy_bytes(b"abc"), vec![97u8, 98, 99]);
    assert_eq!(copy_bytes(b""), Vec::<u8>::new());
}
