//! Wire-level checks: the library's handlers mounted on a real router with
//! the real CORS layer and a metrics middleware, driven without a socket.

use std::sync::atomic::{AtomicUsize, Ordering};
use std::sync::{Arc, Mutex};

use axum::body::Body;
use axum::http::{header, Method as HttpMethod, Request, StatusCode};
use axum::middleware::{self, Next};
use axum::response::Response;
use axum::routing::get;
use axum::Router;
use tower::ServiceExt;
use tower_http::cors::{Any, CorsLayer};

use rust_service::handlers::{handle_request, RequestOutcome};
use rust_service::http::Method;
use rust_service::metrics::{observe, record_if_ready, MetricsRecorder};

fn to_method(m: &HttpMethod) -> Method {
    if *m == HttpMethod::GET {
        Method::Get
    } else if *m == HttpMethod::POST {
        Method::Post
    } else if *m == HttpMethod::OPTIONS {
        Method::Options
    } else {
        Method::Other
    }
}

fn respond(o: RequestOutcome) -> Response {
    Response::builder()
        .status(o.response.status)
        .header(header::CONTENT_TYPE, "application/json")
        .body(Body::from(o.response.body))
        .unwrap()
}

fn cors_layer() -> CorsLayer {
    CorsLayer::new()
        .allow_origin(Any)
        .allow_methods([HttpMethod::GET, HttpMethod::POST, HttpMethod::OPTIONS])
        .allow_headers([header::CONTENT_TYPE])
}

type Recorder = Arc<Mutex<Option<MetricsRecorder>>>;

fn test_router(hits: Arc<AtomicUsize>, recorder: Recorder) -> Router {
    let route_handler = |path: &'static str| {
        let hits = hits.clone();
        move || {
            let hits = hits.clone();
            async move {
                hits.fetch_add(1, Ordering::SeqCst);
                respond(handle_request(Method::Get, path, 42))
            }
        }
    };
    let metrics_middleware = move |req: Request<Body>, next: Next| {
        let recorder = recorder.clone();
        async move {
            let method = to_method(req.method());
            let path = req.uri().path().to_string();
            let start = std::time::Instant::now();
            let response = next.run(req).await;
            let end_nanos = start.elapsed().as_nanos() as u64;
            let o = observe(method, &path, response.status().as_u16(), 0, end_nanos);
            let mut guard = recorder.lock().unwrap();
            let slot = guard.take();
            *guard = record_if_ready(slot, o);
            response
        }
    };
    Router::new()
        .route("/", get(route_handler("/")))
        .route("/data", get(route_handler("/data")))
        .route("/error", get(route_handler("/error")))
        .route("/health", get(route_handler("/health")))
        .layer(middleware::from_fn(metrics_middleware))
        .layer(cors_layer())
}

fn block_on<F: std::future::Future>(f: F) -> F::Output {
    tokio::runtime::Builder::new_current_thread()
        .build()
        .unwrap()
        .block_on(f)
}

fn send(router: Router, req: Request<Body>) -> (StatusCode, String) {
    block_on(async move {
        let response = router.oneshot(req).await.unwrap();
        let status = response.status();
        let bytes = axum::body::to_bytes(response.into_body(), usize::MAX)
            .await
            .unwrap();
        (status, String::from_utf8(bytes.to_vec()).unwrap())
    })
}

fn fresh() -> (Router, Arc<AtomicUsize>, Recorder) {
    let hits = Arc::new(AtomicUsize::new(0));
    let recorder: Recorder = Arc::new(Mutex::new(Some(MetricsRecorder::new())));
    let router = test_router(hits.clone(), recorder.clone());
    (router, hits, recorder)
}

fn get_request(path: &str) -> Request<Body> {
    Request::builder()
        .method(HttpMethod::GET)
        .uri(path)
        .body(Body::empty())
        .unwrap()
}

#[test]
fn get_data_returns_ten_items() {
    let (router, _, _) = fresh();
    let (status, body) = send(router, get_request("/data"));
    assert_eq!(status, StatusCode::OK);
    let v: serde_json::Value = serde_json::from_str(&body).unwrap();
    let items = v["data"].as_array().unwrap();
    assert_eq!(items.len(), 10);
    assert_eq!(v["count"].as_u64().unwrap(), 10);
    for (i, item) in items.iter().enumerate() {
        assert_eq!(item["id"].as_u64().unwrap(), i as u64);
        assert_eq!(item["value"].as_str().unwrap(), format!("item-{}", i));
    }
}

#[test]
fn get_error_returns_500() {
    let (router, _, _) = fresh();
    let (status, body) = send(router, get_request("/error"));
    assert_eq!(status, StatusCode::INTERNAL_SERVER_ERROR);
    assert_eq!(body, "{\"error\": \"This is a simulated error\"}");
}

#[test]
fn unknown_path_returns_404() {
    let (router, hits, _) = fresh();
    let (status, _) = send(router, get_request("/nonexistent"));
    assert_eq!(status, StatusCode::NOT_FOUND);
    assert_eq!(hits.load(Ordering::SeqCst), 0);
}

#[test]
fn post_to_root_returns_405() {
    let (router, hits, _) = fresh();
    let req = Request::builder()
        .method(HttpMethod::POST)
        .uri("/")
        .body(Body::empty())
        .unwrap();
    let (status, _) = send(router, req);
    assert_eq!(status, StatusCode::METHOD_NOT_ALLOWED);
    assert_eq!(hits.load(Ordering::SeqCst), 0);
}

#[test]
fn preflight_succeeds_without_reaching_handlers() {
    for path in ["/", "/data", "/error", "/health"] {
        let (router, hits, _) = fresh();
        let req = Request::builder()
            .method(HttpMethod::OPTIONS)
            .uri(path)
            .header(header::ORIGIN, "http://example.com")
            .header(header::ACCESS_CONTROL_REQUEST_METHOD, "GET")
            .body(Body::empty())
            .unwrap();
        let response = block_on(router.oneshot(req)).unwrap();
        assert!(response.status().is_success(), "preflight to {} failed", path);
        assert!(response
            .headers()
            .contains_key(header::ACCESS_CONTROL_ALLOW_ORIGIN));
        assert_eq!(hits.load(Ordering::SeqCst), 0);
    }
}

#[test]
fn counter_totals_n_after_n_requests() {
    let (router, _, recorder) = fresh();
    let paths = ["/", "/data", "/error", "/health", "/data", "/nonexistent"];
    for path in paths {
        let (status, _) = send(router.clone(), get_request(path));
        assert!(status.as_u16() > 0);
    }
    let guard = recorder.lock().unwrap();
    let recorded = guard.as_ref().expect("recorder stays initialized");
    assert_eq!(recorded.total(), paths.len());
    assert_eq!(recorded.get(2).status, 500);
    assert_eq!(recorded.get(2).path, "/error");
    assert_eq!(recorded.get(5).status, 404);
}
