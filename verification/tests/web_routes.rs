use codex_launchpad::web_backend::{route_request, rpc_method, rpc_method_name, Route, RpcMethod};

#[test]
fn rpc_needs_post() {
    assert!(matches!(route_request("/rpc", false, None), Route::MethodNotAllowed));
    assert!(matches!(route_request("/rpc", true, Some(10)), Route::Rpc));
    assert!(matches!(route_request("/rpc", true, None), Route::Rpc));
    assert!(matches!(route_request("/rpc", true, Some(65537)), Route::PayloadTooLarge));
    assert!(matches!(route_request("/rpc", true, Some(65536)), Route::Rpc));
}

#[test]
fn license_and_index_routes() {
    assert!(matches!(route_request("/LICENSE", false, None), Route::License));
    assert!(matches!(route_request("/license", false, None), Route::License));
    assert!(matches!(route_request("/", false, None), Route::Index));
    assert!(matches!(route_request("/index.html", false, None), Route::Index));
    assert!(matches!(route_request("//index.htmlindex.html", false, None), Route::Index));
}

#[test]
fn static_paths_drop_dot_segments() {
    match route_request("/assets/../../etc/./passwd", false, None) {
        Route::File(p) => assert_eq!(p, "assets/etc/passwd"),
        other => panic!("unexpected route {:?}", other),
    }
    match route_request("/assets/index.js", false, None) {
        Route::File(p) => assert_eq!(p, "assets/index.js"),
        other => panic!("unexpected route {:?}", other),
    }
    match route_request("/..", false, None) {
        Route::File(p) => assert_eq!(p, ""),
        other => panic!("unexpected route {:?}", other),
    }
}

#[test]
fn rpc_names_round_trip() {
    assert_eq!(rpc_method("loadConfig"), Some(RpcMethod::LoadConfig));
    assert_eq!(rpc_method("probeCodexApi"), Some(RpcMethod::ProbeCodexApi));
    assert_eq!(rpc_method("nope"), None);
    assert_eq!(rpc_method_name(RpcMethod::FailoverToLocal), "failoverToLocal");
}
