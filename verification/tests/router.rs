use server::router::{
    health_check, init, not_found, Handler, Method, Request, Response, Route, Scope, ServiceConfig,
};

const METHODS: [Method; 10] = [
    Method::Get,
    Method::Head,
    Method::Post,
    Method::Put,
    Method::Delete,
    Method::Connect,
    Method::Options,
    Method::Trace,
    Method::Patch,
    Method::Other,
];

fn service() -> ServiceConfig {
    let mut cfg = ServiceConfig::new();
    init(&mut cfg);
    cfg
}

fn request(method: Method, path: &str) -> Request {
    Request {
        method,
        path: path.to_owned(),
        query: String::new(),
        headers: Vec::new(),
        body: Vec::new(),
    }
}

fn ok() -> Response {
    Response {
        status: 200,
        content_type: Some("text/plain".to_owned()),
        body: "Server is working!".to_owned(),
    }
}

fn missing() -> Response {
    Response { status: 404, content_type: None, body: String::new() }
}

#[test]
fn health_check_returns_200_and_the_fixed_body() {
    let response = health_check();
    assert_eq!(response.status, 200);
    assert_eq!(response.body, "Server is working!");
    assert_eq!(response.content_type.as_deref(), Some("text/plain"));
}

#[test]
fn not_found_is_404_with_an_empty_body() {
    assert_eq!(not_found(), missing());
}

#[test]
fn health_check_handler_gives_the_health_check_response() {
    assert_eq!(Handler::HealthCheck.respond(), ok());
}

#[test]
fn new_config_holds_nothing() {
    assert_eq!(ServiceConfig::new(), ServiceConfig { scopes: Vec::new() });
}

#[test]
fn init_mounts_the_health_check_under_api_v1() {
    let cfg = service();
    assert_eq!(
        cfg,
        ServiceConfig {
            scopes: vec![Scope {
                prefix: "/api/v1".to_owned(),
                routes: vec![Route {
                    method: Method::Get,
                    path: "/healthCheck".to_owned(),
                    handler: Handler::HealthCheck,
                }],
            }],
        }
    );
}

#[test]
fn init_keeps_what_was_registered_before() {
    let other = Scope {
        prefix: "/internal".to_owned(),
        routes: vec![Route {
            method: Method::Post,
            path: "/ping".to_owned(),
            handler: Handler::HealthCheck,
        }],
    };
    let mut cfg = ServiceConfig { scopes: vec![other.clone()] };
    init(&mut cfg);
    assert_eq!(cfg.scopes.len(), 2);
    assert_eq!(cfg.scopes[0], other);
    assert_eq!(cfg.scopes[1], service().scopes[0]);
    assert_eq!(cfg.dispatch(&request(Method::Post, "/internal/ping")), ok());
    assert_eq!(cfg.dispatch(&request(Method::Get, "/api/v1/healthCheck")), ok());
    assert_eq!(cfg.dispatch(&request(Method::Get, "/internal/ping")), missing());
}

#[test]
fn get_health_check_is_served() {
    let response = service().dispatch(&request(Method::Get, "/api/v1/healthCheck"));
    assert_eq!(response.status, 200);
    assert_eq!(response.body, "Server is working!");
}

#[test]
fn health_check_ignores_query_headers_and_body() {
    let cfg = service();
    let queries = ["", "verbose=1", "a=b&c=d", "?", "/api/v1/other"];
    let headers = [
        vec![],
        vec![("Accept".to_owned(), "application/json".to_owned())],
        vec![
            ("Authorization".to_owned(), "Bearer nothing".to_owned()),
            ("Content-Type".to_owned(), "text/html".to_owned()),
        ],
    ];
    let bodies = [vec![], vec![0u8], b"{\"status\":\"down\"}".to_vec(), vec![255u8; 4096]];
    for query in queries {
        for header in &headers {
            for body in &bodies {
                let request = Request {
                    method: Method::Get,
                    path: "/api/v1/healthCheck".to_owned(),
                    query: query.to_owned(),
                    headers: header.clone(),
                    body: body.clone(),
                };
                assert_eq!(cfg.dispatch(&request), ok());
            }
        }
    }
}

#[test]
fn other_paths_are_not_found() {
    let cfg = service();
    let paths = [
        "",
        "/",
        "/api",
        "/api/v1",
        "/api/v1/",
        "/healthCheck",
        "/api/v1/healthCheck/",
        "/api/v1/healthCheck/extra",
        "/api/v1/healthcheck",
        "/api/v1/HealthCheck",
        "/api/v1//healthCheck",
        "/api/v2/healthCheck",
        "api/v1/healthCheck",
        "/api/v1/healthCheck?x=1",
        " /api/v1/healthCheck",
        "/api/v1/healthChec",
        "/api/v1/healthCheck\u{0}",
        "/api/v1/healthCh\u{e9}ck",
    ];
    for path in paths {
        for method in METHODS {
            assert_eq!(cfg.dispatch(&request(method, path)), missing(), "{method:?} {path:?}");
        }
    }
}

#[test]
fn only_get_reaches_the_health_check() {
    let cfg = service();
    for method in METHODS {
        let response = cfg.dispatch(&request(method, "/api/v1/healthCheck"));
        if method == Method::Get {
            assert_eq!(response, ok());
        } else {
            assert_eq!(response, missing(), "{method:?}");
        }
    }
}

#[test]
fn empty_config_finds_nothing() {
    let cfg = ServiceConfig::new();
    assert_eq!(cfg.resolve(Method::Get, &"/api/v1/healthCheck".to_owned()), None);
    assert_eq!(cfg.dispatch(&request(Method::Get, "/api/v1/healthCheck")), missing());
}

#[test]
fn resolve_names_the_handler() {
    let cfg = service();
    assert_eq!(
        cfg.resolve(Method::Get, &"/api/v1/healthCheck".to_owned()),
        Some(Handler::HealthCheck)
    );
    assert_eq!(cfg.resolve(Method::Post, &"/api/v1/healthCheck".to_owned()), None);
    assert_eq!(cfg.resolve(Method::Get, &"/api/v1".to_owned()), None);
}

#[test]
fn scope_find_joins_prefix_and_path() {
    let scope = Scope {
        prefix: "/a".to_owned(),
        routes: vec![
            Route { method: Method::Put, path: "/b".to_owned(), handler: Handler::HealthCheck },
            Route { method: Method::Get, path: "".to_owned(), handler: Handler::HealthCheck },
        ],
    };
    assert_eq!(scope.find(Method::Put, &"/a/b".to_owned()), Some(Handler::HealthCheck));
    assert_eq!(scope.find(Method::Get, &"/a".to_owned()), Some(Handler::HealthCheck));
    assert_eq!(scope.find(Method::Get, &"/a/b".to_owned()), None);
    assert_eq!(scope.find(Method::Put, &"/b".to_owned()), None);
    assert_eq!(scope.find(Method::Put, &"/a".to_owned()), None);
    assert_eq!(scope.find(Method::Put, &"/a/b/".to_owned()), None);
}

#[test]
fn registering_twice_changes_no_answer() {
    let mut cfg = service();
    init(&mut cfg);
    assert_eq!(cfg.scopes.len(), 2);
    assert_eq!(cfg.scopes[0], cfg.scopes[1]);
    assert_eq!(cfg.dispatch(&request(Method::Get, "/api/v1/healthCheck")), ok());
    assert_eq!(cfg.dispatch(&request(Method::Get, "/api/v1")), missing());
}

#[test]
fn health_check_scenario_after_startup() {
    let cfg = service();
    let request = Request {
        method: Method::Get,
        path: "/api/v1/healthCheck".to_owned(),
        query: String::new(),
        headers: vec![("Host".to_owned(), "127.0.0.1:8080".to_owned())],
        body: Vec::new(),
    };
    let response = cfg.dispatch(&request);
    assert_eq!(response.status, 200);
    assert_eq!(response.body, "Server is working!");
}
