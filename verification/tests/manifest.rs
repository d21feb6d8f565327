use cargo_android::error::Error;
use cargo_android::manifest::{
    find_signing, min_sdk_version, resolve_package_version, Inheritable, Signing, SigningEntry,
    Workspace, WorkspacePackage,
};
use cargo_android::{path_join, u32_to_string};

#[test]
fn path_join_inserts_one_separator() {
    assert_eq!(path_join("/a", "b"), "/a/b");
    assert_eq!(path_join("/a/", "b"), "/a/b");
    assert_eq!(path_join("", "b"), "b");
    assert_eq!(path_join("/", "b"), "/b");
    assert_eq!(path_join("/a", "/b"), "/b");
    assert_eq!(path_join("a/b", "c/d"), "a/b/c/d");
}

#[test]
fn decimal_rendering_is_exact() {
    assert_eq!(u32_to_string(0), "0");
    assert_eq!(u32_to_string(9), "9");
    assert_eq!(u32_to_string(10), "10");
    assert_eq!(u32_to_string(100), "100");
    assert_eq!(u32_to_string(21), "21");
    assert_eq!(u32_to_string(35), "35");
    assert_eq!(u32_to_string(1234567890), "1234567890");
    assert_eq!(u32_to_string(u32::MAX), "4294967295");
}

#[test]
fn own_version_wins() {
    let v = resolve_package_version(&Inheritable::Value("0.3.1".to_string()), &None).unwrap();
    assert_eq!(v, "0.3.1");
}

#[test]
fn workspace_version_is_inherited() {
    let ws = Workspace { package: Some(WorkspacePackage { version: Some("1.2.3".to_string()) }) };
    let v = resolve_package_version(
        &Inheritable::Inherited { workspace: true },
        &Some(ws),
    )
    .unwrap();
    assert_eq!(v, "1.2.3");
}

#[test]
fn inheritance_without_workspace_manifest_fails() {
    let err =
        resolve_package_version(&Inheritable::Inherited { workspace: true }, &None).unwrap_err();
    assert!(matches!(err, Error::InheritanceMissingWorkspace));
}

#[test]
fn inheritance_reports_the_missing_workspace_field() {
    let ws = Workspace { package: None };
    let err = resolve_package_version(&Inheritable::Inherited { workspace: true }, &Some(ws))
        .unwrap_err();
    match err {
        Error::WorkspaceMissingInheritedField(field) => assert_eq!(field, "package"),
        other => panic!("unexpected error: {other:?}"),
    }

    let ws = Workspace { package: Some(WorkspacePackage { version: None }) };
    let err = resolve_package_version(&Inheritable::Inherited { workspace: true }, &Some(ws))
        .unwrap_err();
    match err {
        Error::WorkspaceMissingInheritedField(field) => assert_eq!(field, "package.version"),
        other => panic!("unexpected error: {other:?}"),
    }
}

#[test]
fn workspace_false_is_rejected() {
    let err =
        resolve_package_version(&Inheritable::Inherited { workspace: false }, &None).unwrap_err();
    assert!(matches!(err, Error::InheritedFalse));
}

#[test]
fn min_sdk_is_clamped_to_23() {
    assert_eq!(min_sdk_version(&None), 23);
    assert_eq!(min_sdk_version(&Some(21)), 23);
    assert_eq!(min_sdk_version(&Some(23)), 23);
    assert_eq!(min_sdk_version(&Some(30)), 30);
}

#[test]
fn signing_lookup_finds_the_profile() {
    let mk = |profile: &str, store: &str| SigningEntry {
        profile: profile.to_string(),
        signing: Signing {
            store_path: store.to_string(),
            store_password: "storepw".to_string(),
            key_alias: None,
            key_password: None,
        },
    };
    let entries = vec![mk("dev", "dev.jks"), mk("release", "release.jks")];
    assert_eq!(
        find_signing(&entries, &"release".to_string()).unwrap().store_path,
        "release.jks"
    );
    assert_eq!(find_signing(&entries, &"dev".to_string()).unwrap().store_path, "dev.jks");
    assert!(find_signing(&entries, &"beta".to_string()).is_none());
    assert!(find_signing(&Vec::new(), &"dev".to_string()).is_none());
}
