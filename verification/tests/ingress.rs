use serde_json::Value;
use talpa::error::Error;
use talpa::ingress::{IngressRule, Route, RouteListing, TunnelConfig};

fn rule(hostname: Option<&str>, service: &str) -> IngressRule {
    IngressRule { hostname: hostname.map(str::to_string), service: service.to_string(), extra: None }
}

fn config(rules: Vec<IngressRule>) -> TunnelConfig {
    TunnelConfig { ingress: rules, extra: serde_json::Map::new() }
}

fn route(hostname: &str, service: &str) -> Route {
    Route { hostname: hostname.to_string(), service: service.to_string() }
}

fn origin_request() -> Value {
    let mut inner = serde_json::Map::new();
    inner.insert("noTLSVerify".to_string(), Value::Bool(true));
    inner.insert("connectTimeout".to_string(), Value::from(30));
    Value::Object(inner)
}

fn three_rules() -> TunnelConfig {
    let mut extra = serde_json::Map::new();
    extra.insert("warp-routing".to_string(), Value::Object(serde_json::Map::new()));
    TunnelConfig {
        ingress: vec![
            IngressRule {
                hostname: Some("a.example.com".to_string()),
                service: "http://localhost:8080".to_string(),
                extra: Some(origin_request()),
            },
            rule(Some("b.example.com"), "http://localhost:8081"),
            rule(None, "http_status:404"),
        ],
        extra,
    }
}

#[test]
fn add_route_to_catch_all_only() {
    let mut cfg = config(vec![rule(None, "http://localhost:9000")]);
    assert_eq!(cfg.add_route("app.example.com", "http://localhost:8080"), Ok(()));
    assert_eq!(
        cfg,
        config(vec![
            rule(Some("app.example.com"), "http://localhost:8080"),
            rule(None, "http://localhost:9000"),
        ])
    );
}

#[test]
fn remove_absent_route_is_not_found() {
    let mut cfg = config(vec![
        rule(Some("a.example.com"), "http://localhost:8080"),
        rule(None, "http://localhost:9000"),
    ]);
    assert_eq!(cfg.remove_route("b.example.com"), Err(Error::RouteNotFound));
    assert_eq!(
        cfg,
        config(vec![
            rule(Some("a.example.com"), "http://localhost:8080"),
            rule(None, "http://localhost:9000"),
        ])
    );
}

#[test]
fn added_route_is_listed_directly_before_the_catch_all() {
    let mut cfg = three_rules();
    let before = cfg.list_routes();
    assert_eq!(cfg.add_route("c.example.com", "http://localhost:8082"), Ok(()));
    assert_eq!(cfg.ingress.len(), 4);
    assert_eq!(cfg.ingress[2], rule(Some("c.example.com"), "http://localhost:8082"));
    assert_eq!(cfg.ingress[3], rule(None, "http_status:404"));
    let after = cfg.list_routes();
    let mut expected = before.routes.clone();
    expected.push(route("c.example.com", "http://localhost:8082"));
    assert_eq!(after.routes, expected);
    assert_eq!(after.catch_all, before.catch_all);
    assert_eq!(after.catch_all, Some("http_status:404".to_string()));
}

#[test]
fn add_route_keeps_what_it_does_not_understand() {
    let mut cfg = three_rules();
    assert_eq!(cfg.add_route("c.example.com", "http://localhost:8082"), Ok(()));
    assert_eq!(cfg.ingress[0].extra, Some(origin_request()));
    assert_eq!(cfg.ingress[2].extra, None);
    assert_eq!(cfg.extra, three_rules().extra);
    assert_eq!(cfg.ingress[0], three_rules().ingress[0]);
    assert_eq!(cfg.ingress[1], three_rules().ingress[1]);
}

#[test]
fn add_existing_route_is_a_duplicate() {
    let mut cfg = three_rules();
    assert_eq!(cfg.add_route("b.example.com", "http://localhost:9999"), Err(Error::DuplicateRoute));
    assert_eq!(cfg, three_rules());
}

#[test]
fn add_route_to_empty_list_is_an_invariant_violation() {
    let mut cfg = config(vec![]);
    assert_eq!(
        cfg.add_route("app.example.com", "http://localhost:8080"),
        Err(Error::InvariantViolation)
    );
    assert_eq!(cfg, config(vec![]));
}

#[test]
fn hostnames_match_exactly() {
    let mut cfg = three_rules();
    assert!(cfg.has_route("a.example.com"));
    assert!(!cfg.has_route("A.example.com"));
    assert!(!cfg.has_route("a.example.co"));
    assert!(!cfg.has_route("a.example.com."));
    assert!(!cfg.has_route(""));
    assert_eq!(cfg.add_route("A.example.com", "http://localhost:1"), Ok(()));
    assert_eq!(cfg.ingress.len(), 4);
    assert_eq!(cfg.remove_route("example.com"), Err(Error::RouteNotFound));
}

#[test]
fn removed_route_is_never_listed() {
    let mut cfg = three_rules();
    assert_eq!(cfg.remove_route("a.example.com"), Ok(()));
    assert!(!cfg.has_route("a.example.com"));
    let listing = cfg.list_routes();
    assert_eq!(
        listing,
        RouteListing {
            routes: vec![route("b.example.com", "http://localhost:8081")],
            catch_all: Some("http_status:404".to_string()),
        }
    );
    assert_eq!(cfg.extra, three_rules().extra);
}

#[test]
fn remove_route_takes_out_every_rule_of_that_name() {
    let mut cfg = config(vec![
        rule(Some("x.example.com"), "http://localhost:1"),
        rule(Some("y.example.com"), "http://localhost:2"),
        rule(Some("x.example.com"), "http://localhost:3"),
        rule(None, "http_status:404"),
    ]);
    assert_eq!(cfg.remove_route("x.example.com"), Ok(()));
    assert_eq!(
        cfg,
        config(vec![rule(Some("y.example.com"), "http://localhost:2"), rule(None, "http_status:404")])
    );
}

#[test]
fn remove_route_never_takes_the_catch_all() {
    let mut cfg = config(vec![rule(Some("a.example.com"), "s"), rule(None, "http_status:404")]);
    assert_eq!(cfg.remove_route("a.example.com"), Ok(()));
    assert_eq!(cfg, config(vec![rule(None, "http_status:404")]));
    assert_eq!(cfg.remove_route(""), Err(Error::RouteNotFound));
    assert_eq!(cfg, config(vec![rule(None, "http_status:404")]));
}

#[test]
fn add_then_remove_restores_the_list() {
    let mut cfg = three_rules();
    assert_eq!(cfg.add_route("c.example.com", "http://localhost:8082"), Ok(()));
    assert_ne!(cfg, three_rules());
    assert_eq!(cfg.remove_route("c.example.com"), Ok(()));
    assert_eq!(cfg, three_rules());
}

#[test]
fn list_routes_parts_hosts_from_the_catch_all() {
    let listing = three_rules().list_routes();
    assert_eq!(
        listing,
        RouteListing {
            routes: vec![
                route("a.example.com", "http://localhost:8080"),
                route("b.example.com", "http://localhost:8081"),
            ],
            catch_all: Some("http_status:404".to_string()),
        }
    );
}

#[test]
fn list_routes_of_odd_lists() {
    assert_eq!(config(vec![]).list_routes(), RouteListing { routes: vec![], catch_all: None });
    assert_eq!(
        config(vec![rule(Some("a.example.com"), "s")]).list_routes(),
        RouteListing { routes: vec![route("a.example.com", "s")], catch_all: None }
    );
    assert_eq!(
        config(vec![rule(None, "first"), rule(Some("a.example.com"), "s"), rule(None, "second")])
            .list_routes(),
        RouteListing {
            routes: vec![route("a.example.com", "s")],
            catch_all: Some("second".to_string()),
        }
    );
}

#[test]
fn add_route_goes_before_the_last_rule_whatever_it_is() {
    let mut cfg = config(vec![rule(Some("a.example.com"), "s")]);
    assert_eq!(cfg.add_route("b.example.com", "t"), Ok(()));
    assert_eq!(
        cfg,
        config(vec![rule(Some("b.example.com"), "t"), rule(Some("a.example.com"), "s")])
    );
}
