use dubbo_rpc::http::bytes_eq;
use dubbo_rpc::http::copy_bytes;
use dubbo_rpc::http::lower_name;
use dubbo_rpc::http::starts_with;
use dubbo_rpc::http::HeaderRule;
use dubbo_rpc::http::Headers;
use dubbo_rpc::http::HttpRequest;
use dubbo_rpc::http::HttpResponse;
use dubbo_rpc::http::HttpVersion;
use dubbo_rpc::multiplex::classify;
use dubbo_rpc::multiplex::is_grpc_request;
use dubbo_rpc::multiplex::Route;
use dubbo_rpc::server::launch_plan;
use dubbo_rpc::address::SocketAddress;

fn request(version: HttpVersion, content_type: Option<&[u8]>) -> HttpRequest<Vec<u8>> {
    let mut headers = Headers::new();
    if let Some(ct) = content_type {
        headers.set("content-type", ct);
    }
    HttpRequest { method: "POST".to_string(), uri: "/".to_string(), version, headers, body: vec![1, 2, 3] }
}

#[test]
fn byte_helpers() {
    assert!(bytes_eq(b"abc", b"abc"));
    assert!(!bytes_eq(b"abc", b"abd"));
    assert!(!bytes_eq(b"abc", b"ab"));
    assert!(bytes_eq(b"", b""));
    assert!(starts_with(b"application/grpc+proto", b"application/grpc"));
    assert!(starts_with(b"abc", b""));
    assert!(starts_with(b"abc", b"abc"));
    assert!(!starts_with(b"ab", b"abc"));
    assert!(!starts_with(b"xbc", b"ab"));
    assert_eq!(copy_bytes(b"\x00\xffz"), vec![0, 255, b'z']);
    assert_eq!(lower_name(b"Content-TYPE"), b"content-type".to_vec());
    assert_eq!(lower_name(b"@AZ[`az{\xc3\x84"), b"@az[`az{\xc3\x84".to_vec());
}

#[test]
fn headers_are_found_whatever_the_case_of_the_name() {
    let mut h = Headers::new();
    assert_eq!(h.get("content-type"), None);
    assert!(!h.contains("content-type"));
    h.set("Content-Type", b"text/plain");
    assert_eq!(h.get("content-type"), Some(&b"text/plain".to_vec()));
    assert_eq!(h.get("CONTENT-TYPE"), Some(&b"text/plain".to_vec()));
    assert!(h.contains("Content-type"));
    assert_eq!(h.get("content_type"), None);
    h.set("CONTENT-TYPE", b"application/json");
    assert_eq!(h.get("Content-Type"), Some(&b"application/json".to_vec()));
    h.set("accept", b"*/*");
    assert_eq!(h.get("Accept"), Some(&b"*/*".to_vec()));
    assert_eq!(h.get("content-type"), Some(&b"application/json".to_vec()));
}

#[test]
fn set_if_absent_keeps_what_is_there() {
    let mut h = Headers::new();
    assert!(h.set_if_absent("warning", b"first"));
    assert!(!h.set_if_absent("Warning", b"second"));
    assert_eq!(h.get("warning"), Some(&b"first".to_vec()));
    assert!(h.set_if_absent("other", b""));
    assert_eq!(h.get("other"), Some(&vec![]));
}

#[test]
fn conditional_rule_sets_only_where_absent_and_is_idempotent() {
    let rule = HeaderRule::if_not_present("Warning", b"my very cool app");
    let mut h = Headers::new();
    rule.apply(&mut h);
    assert_eq!(h.get("warning"), Some(&b"my very cool app".to_vec()));
    rule.apply(&mut h);
    assert_eq!(h.get("warning"), Some(&b"my very cool app".to_vec()));
    let mut h = Headers::new();
    h.set("WARNING", b"199 - already");
    h.set("host", b"example");
    rule.apply(&mut h);
    assert_eq!(h.get("warning"), Some(&b"199 - already".to_vec()));
    assert_eq!(h.get("host"), Some(&b"example".to_vec()));
}

#[test]
fn overriding_rule_always_sets_and_is_idempotent() {
    let rule = HeaderRule::overriding("User-Agent", b"My-Value");
    let mut h = Headers::new();
    h.set("user-agent", b"curl/8");
    h.set("host", b"example");
    rule.apply(&mut h);
    assert_eq!(h.get("user-agent"), Some(&b"My-Value".to_vec()));
    rule.apply(&mut h);
    assert_eq!(h.get("user-agent"), Some(&b"My-Value".to_vec()));
    assert_eq!(h.get("host"), Some(&b"example".to_vec()));
    let mut h = Headers::new();
    rule.apply(&mut h);
    assert_eq!(h.get("user-agent"), Some(&b"My-Value".to_vec()));
}

#[test]
fn rules_leave_the_body_untouched() {
    let rule = HeaderRule::overriding("x-a", b"1");
    let req = request(HttpVersion::Http11, Some(b"text/plain"));
    let out = rule.on_request(req);
    assert_eq!(out.body, vec![1, 2, 3]);
    assert_eq!(out.method, "POST");
    assert_eq!(out.uri, "/");
    assert_eq!(out.version, HttpVersion::Http11);
    assert_eq!(out.headers.get("x-a"), Some(&b"1".to_vec()));
    assert_eq!(out.headers.get("content-type"), Some(&b"text/plain".to_vec()));
    let resp = HttpResponse { status: 404, headers: Headers::new(), body: "gone".to_string() };
    let out = HeaderRule::if_not_present("x-b", b"2").on_response(resp);
    assert_eq!(out.status, 404);
    assert_eq!(out.body, "gone");
    assert_eq!(out.headers.get("x-b"), Some(&b"2".to_vec()));
}

#[test]
fn grpc_is_http2_with_a_grpc_content_type() {
    assert_eq!(classify(&request(HttpVersion::H2, Some(b"application/grpc"))), Route::Grpc);
    assert_eq!(classify(&request(HttpVersion::H2, Some(b"application/grpc+proto"))), Route::Grpc);
    assert_eq!(classify(&request(HttpVersion::H2, Some(b"application/grpc-web"))), Route::Grpc);
    assert!(is_grpc_request(&request(HttpVersion::H2, Some(b"application/grpc"))));
}

#[test]
fn everything_else_is_rest() {
    assert_eq!(classify(&request(HttpVersion::Http11, None)), Route::Rest);
    assert_eq!(classify(&request(HttpVersion::Http11, Some(b"application/grpc"))), Route::Rest);
    assert_eq!(classify(&request(HttpVersion::Http10, Some(b"application/grpc"))), Route::Rest);
    assert_eq!(classify(&request(HttpVersion::Http09, Some(b"application/grpc"))), Route::Rest);
    assert_eq!(classify(&request(HttpVersion::H3, Some(b"application/grpc"))), Route::Rest);
    assert_eq!(classify(&request(HttpVersion::H2, None)), Route::Rest);
    assert_eq!(classify(&request(HttpVersion::H2, Some(b"application/json"))), Route::Rest);
    assert_eq!(classify(&request(HttpVersion::H2, Some(b"application/grp"))), Route::Rest);
    assert_eq!(classify(&request(HttpVersion::H2, Some(b"Application/grpc"))), Route::Rest);
    assert_eq!(classify(&request(HttpVersion::H2, Some(b""))), Route::Rest);
    assert!(!is_grpc_request(&request(HttpVersion::Http11, None)));
}

#[test]
fn launch_plan_is_the_documented_one() {
    let plan = launch_plan();
    assert!(matches!(plan.listen, SocketAddress::V4 { octets: [127, 0, 0, 1], port: 3000 }));
    let mut h = Headers::new();
    plan.request_rule.apply(&mut h);
    assert_eq!(h.get("warning"), Some(&b"my very cool app".to_vec()));
    let mut h = Headers::new();
    h.set("warning", b"kept");
    plan.request_rule.apply(&mut h);
    assert_eq!(h.get("warning"), Some(&b"kept".to_vec()));
    let mut h = Headers::new();
    h.set("user-agent", b"old");
    plan.response_rule.apply(&mut h);
    assert_eq!(h.get("user-agent"), Some(&b"My-Value".to_vec()));
}

#[test]
fn headers_list_each_name_once() {
    let mut h = Headers::new();
    assert!(h.to_vec().is_empty());
    h.set("B", b"2");
    h.set("a", b"1");
    h.set("b", b"3");
    let mut list = h.to_vec();
    list.sort_by(|x, y| x.name.cmp(&y.name));
    assert_eq!(list.len(), 2);
    assert_eq!(list[0].name, b"a".to_vec());
    assert_eq!(list[0].value, b"1".to_vec());
    assert_eq!(list[1].name, b"b".to_vec());
    assert_eq!(list[1].value, b"3".to_vec());
}

#[test]
fn duplicate_rule_writes_the_same_header() {
    let rule = HeaderRule::if_not_present("X-Trace", b"on");
    let copy = rule.duplicate();
    let mut a = Headers::new();
    let mut b = Headers::new();
    rule.apply(&mut a);
    copy.apply(&mut b);
    assert_eq!(a.get("x-trace"), Some(&b"on".to_vec()));
    assert_eq!(b.get("x-trace"), Some(&b"on".to_vec()));
    a.set("x-trace", b"off");
    copy.apply(&mut a);
    assert_eq!(a.get("x-trace"), Some(&b"off".to_vec()));
    let copy = HeaderRule::overriding("x-trace", b"forced").duplicate();
    copy.apply(&mut a);
    assert_eq!(a.get("x-trace"), Some(&b"forced".to_vec()));
}

#[test]
fn greeter_says_hello_to_the_name() {
    assert_eq!(dubbo_rpc::server::say_hello("world"), "Hello world!");
    assert_eq!(dubbo_rpc::server::say_hello(""), "Hello !");
    assert_eq!(dubbo_rpc::server::say_hello("J\u{fc}rgen"), "Hello J\u{fc}rgen!");
}
