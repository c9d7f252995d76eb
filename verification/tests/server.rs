use axum::body::Body;
use axum::http::{Request, StatusCode};
use axum::routing::get;
use axum::Router;
use tower::ServiceExt;
use web_service::handle::ServiceHandle;

fn test_router() -> Router {
    // every path but the root falls through to the 404 fallback
    Router::new().route("/", get(|| async { "home" }))
}

async fn status_of(router: Router, path: &str) -> StatusCode {
    let request = Request::builder().uri(path).body(Body::empty()).expect("request");
    router.oneshot(request).await.expect("response").status()
}

#[test]
fn root_is_served_and_other_paths_fall_through() {
    let rt = tokio::runtime::Runtime::new().unwrap();
    rt.block_on(async {
        assert_eq!(status_of(test_router(), "/").await, StatusCode::OK);
        assert_eq!(status_of(test_router(), "/missing").await, StatusCode::NOT_FOUND);
        assert_eq!(status_of(test_router(), "/deep/path").await, StatusCode::NOT_FOUND);
    });
}

#[test]
fn serve_shutdown_await_scenario() {
    let rt = tokio::runtime::Runtime::new().unwrap();
    rt.block_on(async {
        let listener = tokio::net::TcpListener::bind("127.0.0.1:0").await.expect("bind");
        let addr = format!("{}", listener.local_addr().expect("local addr"));

        let (tx, rx) = tokio::sync::oneshot::channel::<()>();
        let task = tokio::spawn(async move {
            let _ = axum::serve(listener, test_router())
                .with_graceful_shutdown(async move {
                    let _ = rx.await;
                })
                .await;
        });
        let mut handle = ServiceHandle::new(tx, task);

        assert!(handle.shutdown());
        let completion = handle.take_completion().expect("first await must succeed");
        tokio::time::timeout(std::time::Duration::from_secs(5), completion)
            .await
            .expect("completion must resolve within a bounded interval")
            .unwrap();

        // the listener is released once completion has resolved: the very
        // same address can be bound again, and the stopped instance cannot
        // be awaited a second time
        let rebound = tokio::net::TcpListener::bind(&addr).await;
        assert!(rebound.is_ok());
        assert!(handle.take_completion().is_err());
    });
}
