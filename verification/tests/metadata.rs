//! Tests of the metadata adapters over the composition path: adapters built
//! straight from field values, with no byte source involved.

use remotepkg::debian::{split_iteration, DebianRemotePackage};
use remotepkg::rpm::RpmRemotePackage;
use remotepkg::{PkgError, RemotePackageType};

#[test]
fn iteration_splits_on_last_hyphen() {
    assert_eq!(split_iteration("1.2.3-4"), Some("4"));
    assert_eq!(split_iteration("1.2.3"), None);
    assert_eq!(split_iteration("1.2-3-4"), Some("4"));
    assert_eq!(split_iteration(""), None);
    assert_eq!(split_iteration("1.2.3-"), Some(""));
    assert_eq!(split_iteration("-4"), Some("4"));
}

#[test]
fn debian_adapter_reports_fields() {
    let pkg = DebianRemotePackage::new_from_fields(
        "debian-faq".to_string(),
        "10.1".to_string(),
        Some("all".to_string()),
    );
    assert_eq!(pkg.package_type(), RemotePackageType::Deb);
    assert_eq!(pkg.package_name().unwrap(), "debian-faq");
    assert_eq!(pkg.package_version().unwrap(), "10.1");
    assert_eq!(pkg.package_arch().unwrap(), "all");
    assert_eq!(pkg.package_iteration(), None);
}

#[test]
fn debian_iteration_from_version_revision() {
    let pkg = DebianRemotePackage::new_from_fields(
        "tool".to_string(),
        "2.0-7".to_string(),
        None,
    );
    assert_eq!(pkg.package_iteration(), Some("7"));
    match pkg.package_arch() {
        Err(PkgError::FieldNotFound(field)) => assert_eq!(field, "Architecture"),
        other => panic!("expected a missing field, got {:?}", other.map(|_| ())),
    }
}

#[test]
fn rpm_adapter_reports_fields() {
    let pkg = RpmRemotePackage::new_from_fields(
        Some("kibana".to_string()),
        Some("8.2.1".to_string()),
        Some("1".to_string()),
        Some("x86_64".to_string()),
    );
    assert_eq!(pkg.package_type(), RemotePackageType::Rpm);
    assert_eq!(pkg.package_name().unwrap(), "kibana");
    assert_eq!(pkg.package_version().unwrap(), "8.2.1");
    assert_eq!(pkg.package_arch().unwrap(), "x86_64");
    assert_eq!(pkg.package_iteration(), Some("1"));
}

#[test]
fn rpm_absent_release_yields_no_iteration() {
    let pkg = RpmRemotePackage::new_from_fields(
        Some("kibana".to_string()),
        Some("8.2.1".to_string()),
        None,
        Some("x86_64".to_string()),
    );
    // Absence is an answer, never a failure.
    assert_eq!(pkg.package_iteration(), None);
    assert_eq!(pkg.package_name().unwrap(), "kibana");
}

#[test]
fn rpm_absent_fields_are_reported_by_name() {
    let pkg = RpmRemotePackage::new_from_fields(None, None, None, None);
    match pkg.package_name() {
        Err(PkgError::FieldNotFound(field)) => assert_eq!(field, "name"),
        other => panic!("expected a missing field, got {:?}", other.map(|_| ())),
    }
    match pkg.package_version() {
        Err(PkgError::FieldNotFound(field)) => assert_eq!(field, "version"),
        other => panic!("expected a missing field, got {:?}", other.map(|_| ())),
    }
    match pkg.package_arch() {
        Err(PkgError::FieldNotFound(field)) => assert_eq!(field, "arch"),
        other => panic!("expected a missing field, got {:?}", other.map(|_| ())),
    }
    assert_eq!(pkg.package_iteration(), None);
}

#[test]
fn repeated_adapter_queries_agree() {
    let pkg = DebianRemotePackage::new_from_fields(
        "debian-faq".to_string(),
        "10.1-2".to_string(),
        Some("all".to_string()),
    );
    assert_eq!(pkg.package_name().unwrap(), pkg.package_name().unwrap());
    assert_eq!(
        pkg.package_version().unwrap(),
        pkg.package_version().unwrap()
    );
    assert_eq!(pkg.package_arch().unwrap(), pkg.package_arch().unwrap());
    assert_eq!(pkg.package_iteration(), pkg.package_iteration());
}
