//! The connection pool: build-once per key, reuse on equal parameters, and
//! no caching of failed builds.

use vsmtp_delivery::config::Certificate;
use vsmtp_delivery::sender::{params_match, Sender, SenderParameters};

fn params(relay_target: &str, certificate: Vec<Certificate>) -> SenderParameters {
    SenderParameters {
        relay_target: relay_target.to_string(),
        server_name: "foo.bar".to_string(),
        hello_name: "testserver.com".to_string(),
        pool_idle_timeout_secs: 60,
        pool_max_size: 3,
        pool_min_idle: 1,
        port: 25,
        certificate,
    }
}

#[test]
fn equal_parameters_reuse_one_build() {
    // An empty trust bundle builds a transport without network activity;
    // the second call with structurally equal parameters reuses it.  The
    // pooled transport lives on an asynchronous runtime.
    let runtime = tokio::runtime::Runtime::new().unwrap();
    runtime.block_on(async {
        let mut pool = Sender::new();
        let first = pool.obtain(&params("mx1.foo.bar", Vec::new())).unwrap();
        assert_eq!(pool.build_count(), 1);
        let second = pool.obtain(&params("mx1.foo.bar", Vec::new())).unwrap();
        assert_eq!(pool.build_count(), 1);
        // The very same shared transport, not a second one.
        assert!(std::sync::Arc::ptr_eq(&first.inner, &second.inner));
    });
}

#[test]
fn distinct_parameters_build_separately() {
    let runtime = tokio::runtime::Runtime::new().unwrap();
    runtime.block_on(async {
        let mut pool = Sender::new();
        pool.obtain(&params("mx1.foo.bar", Vec::new())).unwrap();
        pool.obtain(&params("mx2.foo.bar", Vec::new())).unwrap();
        assert_eq!(pool.build_count(), 2);
    });
}

#[test]
fn failed_build_is_not_cached() {
    // Bytes that are no DER certificate make the TLS trust store refuse the
    // build; the failure is not cached, so the next caller builds again.
    let runtime = tokio::runtime::Runtime::new().unwrap();
    runtime.block_on(async {
        let garbage = vec![Certificate { der: vec![0x13, 0x37, 0x00, 0x01] }];
        let mut pool = Sender::new();
        assert!(pool.obtain(&params("mx1.foo.bar", garbage.clone())).is_err());
        assert_eq!(pool.build_count(), 1);
        assert!(pool.obtain(&params("mx1.foo.bar", garbage)).is_err());
        assert_eq!(pool.build_count(), 2);
    });
}

#[test]
fn parameter_equality_is_structural_over_every_field() {
    let a = params("mx1.foo.bar", Vec::new());
    let b = params("mx1.foo.bar", Vec::new());
    assert!(params_match(&a, &b));

    let mut c = params("mx1.foo.bar", Vec::new());
    c.port = 587;
    assert!(!params_match(&a, &c));

    let d = params("mx2.foo.bar", Vec::new());
    assert!(!params_match(&a, &d));

    let e = params("mx1.foo.bar", vec![Certificate { der: vec![1, 2, 3] }]);
    let f = params("mx1.foo.bar", vec![Certificate { der: vec![1, 2, 4] }]);
    assert!(!params_match(&e, &f));
    let g = params("mx1.foo.bar", vec![Certificate { der: vec![1, 2, 3] }]);
    assert!(params_match(&e, &g));
}

#[test]
fn duplicate_copies_every_field() {
    let a = params("mx1.foo.bar", vec![Certificate { der: vec![9, 9] }]);
    let b = a.duplicate();
    assert!(params_match(&a, &b));
    assert_eq!(b.relay_target, "mx1.foo.bar");
    assert_eq!(b.certificate.len(), 1);
    assert_eq!(b.certificate[0].der, vec![9, 9]);
}
