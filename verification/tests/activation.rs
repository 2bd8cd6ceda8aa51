use gopls_activation::paths::parent_dir;
use gopls_activation::registry::{ActivationRegistry, ActivationTracker};
use gopls_activation::trigger::{
    clear_state_for_server, enable_gc_details_for_buffer, register_notifications, ServerName,
};

#[test]
fn claim_is_idempotent() {
    let mut registry = ActivationRegistry::new();
    let key = String::from("/repo/pkgA");
    assert!(registry.try_claim(&key));
    assert!(!registry.try_claim(&key));
    assert!(!registry.try_claim(&key));
}

#[test]
fn sequential_claims_grant_exactly_one() {
    let mut registry = ActivationRegistry::new();
    let key = String::from("/repo/pkgA");
    let mut granted = 0;
    for _ in 0..8 {
        if registry.try_claim(&key) {
            granted += 1;
        }
    }
    assert_eq!(granted, 1);
}

#[test]
fn distinct_keys_claim_independently() {
    let mut registry = ActivationRegistry::new();
    assert!(registry.try_claim(&String::from("/repo/pkgA")));
    assert!(registry.try_claim(&String::from("/repo/pkgB")));
    assert!(!registry.try_claim(&String::from("/repo/pkgA")));
    assert!(!registry.try_claim(&String::from("/repo/pkgB")));
}

#[test]
fn reset_restores_eligibility() {
    let mut registry = ActivationRegistry::new();
    let key = String::from("/repo/pkgA");
    assert!(registry.try_claim(&key));
    registry.reset();
    assert!(registry.try_claim(&key));
}

#[test]
fn is_claimed_reports_membership() {
    let mut registry = ActivationRegistry::new();
    let key = String::from("/repo/pkgA");
    assert!(!registry.is_claimed(&key));
    assert!(registry.try_claim(&key));
    assert!(registry.is_claimed(&key));
    assert!(!registry.is_claimed(&String::from("/repo/pkgB")));
    registry.reset();
    assert!(!registry.is_claimed(&key));
}

#[test]
fn uninitialized_tracker_claims_nothing() {
    let mut tracker = ActivationTracker::new();
    assert!(!tracker.initialized());
    assert!(!tracker.try_claim(&String::from("/repo/pkgA")));
    assert!(!tracker.is_claimed(&String::from("/repo/pkgA")));
    tracker.ensure_initialized();
    assert!(tracker.initialized());
    assert!(tracker.try_claim(&String::from("/repo/pkgA")));
}

#[test]
fn parent_dir_of_nested_file() {
    assert_eq!(
        parent_dir("/repo/pkgA/file.go"),
        Some(String::from("/repo/pkgA"))
    );
    assert_eq!(parent_dir("a/b"), Some(String::from("a")));
    assert_eq!(parent_dir("/x"), Some(String::from("/")));
}

#[test]
fn parent_dir_without_directory_component() {
    assert_eq!(parent_dir("file.go"), None);
    assert_eq!(parent_dir("/"), None);
    assert_eq!(parent_dir(""), None);
}

#[test]
fn wrong_server_kind_is_ignored() {
    let mut tracker = ActivationTracker::new();
    let other = ServerName::new(String::from("rust-analyzer"));
    let request = enable_gc_details_for_buffer(
        &mut tracker,
        &other,
        "file:///repo/pkgA/file.go",
        "/repo/pkgA/file.go",
    );
    assert!(request.is_none());
    assert!(!tracker.initialized());
    assert!(!tracker.is_claimed(&String::from("/repo/pkgA")));
}

#[test]
fn no_parent_means_no_dispatch() {
    let mut tracker = ActivationTracker::new();
    let gopls = ServerName::gopls();
    let request =
        enable_gc_details_for_buffer(&mut tracker, &gopls, "file:///file.go", "file.go");
    assert!(request.is_none());
    let request = enable_gc_details_for_buffer(&mut tracker, &gopls, "file:///", "/");
    assert!(request.is_none());
    assert!(!tracker.initialized());
}

#[test]
fn dispatch_payload_once_per_package() {
    let mut tracker = ActivationTracker::new();
    let gopls = ServerName::gopls();
    let request = enable_gc_details_for_buffer(
        &mut tracker,
        &gopls,
        "file:///repo/pkgA/file.go",
        "/repo/pkgA/file.go",
    )
    .expect("first eligible activation must dispatch");
    assert_eq!(request.command, "gopls.gc_details");
    assert_eq!(
        request.arguments,
        vec![String::from("file:///repo/pkgA/file.go")]
    );
    let second = enable_gc_details_for_buffer(
        &mut tracker,
        &gopls,
        "file:///repo/pkgA/other.go",
        "/repo/pkgA/other.go",
    );
    assert!(second.is_none());
}

#[test]
fn different_packages_each_dispatch() {
    let mut tracker = ActivationTracker::new();
    let gopls = ServerName::gopls();
    let first = enable_gc_details_for_buffer(
        &mut tracker,
        &gopls,
        "file:///repo/pkgA/file.go",
        "/repo/pkgA/file.go",
    );
    let second = enable_gc_details_for_buffer(
        &mut tracker,
        &gopls,
        "file:///repo/pkgB/file.go",
        "/repo/pkgB/file.go",
    );
    assert!(first.is_some());
    assert!(second.is_some());
}

#[test]
fn registration_initializes_only_tracked_kind() {
    let mut tracker = ActivationTracker::new();
    register_notifications(&mut tracker, &ServerName::new(String::from("rust-analyzer")));
    assert!(!tracker.initialized());
    register_notifications(&mut tracker, &ServerName::gopls());
    assert!(tracker.initialized());
    assert!(!tracker.is_claimed(&String::from("/repo/pkgA")));
}

#[test]
fn shutdown_of_tracked_kind_restores_eligibility() {
    let mut tracker = ActivationTracker::new();
    let gopls = ServerName::gopls();
    let first = enable_gc_details_for_buffer(
        &mut tracker,
        &gopls,
        "file:///repo/pkgA/file.go",
        "/repo/pkgA/file.go",
    );
    assert!(first.is_some());
    clear_state_for_server(&mut tracker, &gopls);
    assert!(tracker.initialized());
    let again = enable_gc_details_for_buffer(
        &mut tracker,
        &gopls,
        "file:///repo/pkgA/file.go",
        "/repo/pkgA/file.go",
    );
    assert!(again.is_some());
}

#[test]
fn shutdown_of_other_kind_keeps_claims() {
    let mut tracker = ActivationTracker::new();
    let gopls = ServerName::gopls();
    let first = enable_gc_details_for_buffer(
        &mut tracker,
        &gopls,
        "file:///repo/pkgA/file.go",
        "/repo/pkgA/file.go",
    );
    assert!(first.is_some());
    clear_state_for_server(&mut tracker, &ServerName::new(String::from("rust-analyzer")));
    let again = enable_gc_details_for_buffer(
        &mut tracker,
        &gopls,
        "file:///repo/pkgA/file.go",
        "/repo/pkgA/file.go",
    );
    assert!(again.is_none());
}
