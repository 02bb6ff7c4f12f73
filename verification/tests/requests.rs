use metrics_server::request::respond_to;
use metrics_server::{Method, MetricsServer};

#[test]
fn fresh_server_serves_200_with_empty_body() {
    let server = MetricsServer::new();
    let r = server.handle_request(Method::Get, "/metrics");
    assert_eq!(r.status, 200);
    assert!(r.body.is_empty());
}

#[test]
fn get_metrics_serves_current_payload() {
    let server = MetricsServer::new();
    server.update(vec![1, 2, 3, 4]);
    let r = server.handle_request(Method::Get, "/metrics");
    assert_eq!(r.status, 200);
    assert_eq!(r.body, vec![1, 2, 3, 4]);
}

#[test]
fn wrong_path_is_404_with_empty_body() {
    let server = MetricsServer::new();
    server.update(vec![7, 7, 7]);
    let r = server.handle_request(Method::Get, "/other-path");
    assert_eq!(r.status, 404);
    assert!(r.body.is_empty());
}

#[test]
fn post_metrics_is_405_with_empty_body() {
    let server = MetricsServer::new();
    server.update(vec![7]);
    let r = server.handle_request(Method::Post, "/metrics");
    assert_eq!(r.status, 405);
    assert!(r.body.is_empty());
}

#[test]
fn non_get_methods_are_405_whatever_the_path() {
    let methods = [
        Method::Head,
        Method::Put,
        Method::Delete,
        Method::Connect,
        Method::Options,
        Method::Trace,
        Method::Patch,
        Method::Other,
    ];
    for m in methods {
        let r = respond_to(m, "/metrics", vec![1]);
        assert_eq!(r.status, 405);
        assert!(r.body.is_empty());
    }
}

#[test]
fn near_miss_paths_are_rejected() {
    let paths = ["/", "/metric", "/metricsx", "/metrics/", "", "/METRICS", "metrics"];
    for p in paths {
        let r = respond_to(Method::Get, p, vec![1, 2]);
        assert_eq!(r.status, 404);
        assert!(r.body.is_empty());
    }
    let ok = respond_to(Method::Get, "/metrics", vec![1, 2]);
    assert_eq!(ok.status, 200);
    assert_eq!(ok.body, vec![1, 2]);
}
