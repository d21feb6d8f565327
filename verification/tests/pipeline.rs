use cargo_android::error::Error;
use cargo_android::keystore::{resolve, BuildProfile, EnvOverrides, KeystoreCredential, Resolution};
use cargo_android::manifest::{BundleConfig, Signing, SigningEntry};
use cargo_android::pipeline::{
    advance, build_bundle_command, bundle_entries, compile_res_command, decompile_command,
    expand_command, expand_dirs, link_res_command, next_stage, outcome_error, repackage_command,
    restage_moves, should_remove, sign_command, PipelineState, Stage, StageOutcome,
    ToolchainPaths,
};
use cargo_android::staging::{
    apk_file_name, build_dirs, signed_bundle_name, unsigned_bundle_name, StagingLayout,
};

fn toolchain() -> ToolchainPaths {
    ToolchainPaths::from_homes("/opt/java", "/opt/android")
}

fn layout() -> StagingLayout {
    StagingLayout::new("/t/release/aab")
}

fn config() -> BundleConfig {
    BundleConfig {
        apk_name: Some("hello".to_string()),
        version_name: None,
        version_code: None,
        min_sdk_version: None,
        target_sdk_version: None,
        signing: Vec::new(),
    }
}

#[test]
fn toolchain_paths_sit_under_their_homes() {
    let tc = toolchain();
    assert_eq!(tc.java, "/opt/java/bin/java");
    assert_eq!(tc.jarsigner, "/opt/java/bin/jarsigner");
    assert_eq!(tc.aapt2, "/opt/android/build-tools/35.0.0/aapt2");
    assert_eq!(tc.android_jar, "/opt/android/platforms/android-35/android.jar");
}

#[test]
fn staging_layout_is_fixed_under_the_root() {
    let lay = layout();
    assert_eq!(lay.tools_dir, "/t/release/aab/tools");
    assert_eq!(lay.apk_tool, "/t/release/aab/tools/apktool-2.8.1.jar");
    assert_eq!(lay.bundle_tool, "/t/release/aab/tools/bundletool-1.15.4.jar");
    assert_eq!(lay.unpacked_dir, "/t/release/aab/unpacked-apk");
    assert_eq!(lay.unpacked_res_dir, "/t/release/aab/unpacked-apk/res");
    assert_eq!(lay.unpacked_manifest, "/t/release/aab/unpacked-apk/AndroidManifest.xml");
    assert_eq!(lay.res_zip, "/t/release/aab/res.zip");
    assert_eq!(lay.base_zip, "/t/release/aab/base.zip");
    assert_eq!(lay.bundle_dir, "/t/release/aab/bundle");
    assert_eq!(lay.bundle_dex_dir, "/t/release/aab/bundle/dex");
    assert_eq!(lay.bundle_manifest_dir, "/t/release/aab/bundle/manifest");
    assert_eq!(lay.bundle_root_dir, "/t/release/aab/bundle/root");
    assert_eq!(lay.bundle_lib_dir, "/t/release/aab/bundle/lib");
    assert_eq!(lay.bundle_assets_dir, "/t/release/aab/bundle/assets");
    assert_eq!(
        lay.bundle_manifest_file,
        "/t/release/aab/bundle/manifest/AndroidManifest.xml"
    );
    assert_eq!(lay.bundle_zip, "/t/release/aab/bundle/bundle.zip");
}

#[test]
fn build_dirs_split_by_profile() {
    let (apk_dir, aab_dir) = build_dirs("/t", "release");
    assert_eq!(apk_dir, "/t/release/apk");
    assert_eq!(aab_dir, "/t/release/aab");
}

#[test]
fn artifact_names_follow_the_package_name() {
    assert_eq!(apk_file_name(&Some("hello".to_string())), "hello.apk");
    assert_eq!(apk_file_name(&None), "app.apk");
    assert_eq!(unsigned_bundle_name(&Some("hello".to_string())), "hello-unsigned.aab");
    assert_eq!(unsigned_bundle_name(&None), "bundle-unsigned.aab");
    assert_eq!(signed_bundle_name(&Some("hello".to_string())), "hello.aab");
    assert_eq!(signed_bundle_name(&None), "bundle.aab");
}

#[test]
fn a_clean_run_walks_every_stage_in_order() {
    let mut state = PipelineState::Start;
    let expected = [
        Stage::Reset,
        Stage::MaterializeTools,
        Stage::Decompile,
        Stage::CompileResources,
        Stage::LinkResources,
        Stage::Expand,
        Stage::Restage,
        Stage::Repackage,
        Stage::BuildBundle,
        Stage::Sign,
    ];
    for stage in expected {
        assert_eq!(next_stage(&state), Some(stage));
        state = advance(&state, &StageOutcome::Success);
    }
    assert_eq!(state, PipelineState::Signed);
    assert_eq!(next_stage(&state), None);
}

#[test]
fn a_failure_stops_the_run_at_its_stage() {
    let mut state = PipelineState::Start;
    for _ in 0..4 {
        state = advance(&state, &StageOutcome::Success);
    }
    assert_eq!(next_stage(&state), Some(Stage::LinkResources));
    let failed = advance(&state, &StageOutcome::ToolFailed("link broke".to_string()));
    assert_eq!(failed, PipelineState::Failed(Stage::LinkResources));
    assert_eq!(next_stage(&failed), None);
}

#[test]
fn outcome_errors_carry_stage_and_text() {
    assert!(outcome_error(Stage::Sign, &StageOutcome::Success).is_none());
    match outcome_error(Stage::Sign, &StageOutcome::ToolFailed("bad key".to_string())) {
        Some(Error::ToolInvocationFailed { stage, stderr }) => {
            assert_eq!(stage, Stage::Sign);
            assert_eq!(stderr, "bad key");
        }
        other => panic!("unexpected: {other:?}"),
    }
    match outcome_error(Stage::Restage, &StageOutcome::FsFailed("no lib".to_string())) {
        Some(Error::Filesystem { stage, message }) => {
            assert_eq!(stage, Stage::Restage);
            assert_eq!(message, "no lib");
        }
        other => panic!("unexpected: {other:?}"),
    }
}

#[test]
fn error_messages_prefix_the_failing_stage() {
    let err = Error::ToolInvocationFailed {
        stage: Stage::LinkResources,
        stderr: "resource res/x not found".to_string(),
    };
    assert_eq!(
        err.message(),
        "stage `link resources` failed: resource res/x not found"
    );
    let err = Error::MissingReleaseKey("RELEASE".to_string());
    assert_eq!(err.message(), "missing release key for profile RELEASE");
    let err = Error::Filesystem { stage: Stage::Restage, message: "no lib".to_string() };
    assert_eq!(err.message(), "stage `restage into bundle layout`: no lib");
}

#[test]
fn reset_spares_only_the_tool_cache() {
    assert!(!should_remove(&"tools".to_string()));
    assert!(should_remove(&"bundle".to_string()));
    assert!(should_remove(&"unpacked-apk".to_string()));
    assert!(should_remove(&"res.zip".to_string()));
    assert!(should_remove(&"Tools".to_string()));
}

#[test]
fn decompile_command_matches_the_fixed_shape() {
    let cmd = decompile_command(&toolchain(), &layout(), "/t/release/apk", &config().apk_name);
    assert_eq!(cmd.program, "/opt/java/bin/java");
    assert_eq!(
        cmd.args,
        vec![
            "-jar",
            "/t/release/aab/tools/apktool-2.8.1.jar",
            "d",
            "/t/release/apk/hello.apk",
            "-s",
            "-o",
            "/t/release/aab/unpacked-apk",
            "-f",
        ]
    );
}

#[test]
fn compile_command_matches_the_fixed_shape() {
    let cmd = compile_res_command(&toolchain(), &layout());
    assert_eq!(cmd.program, "/opt/android/build-tools/35.0.0/aapt2");
    assert_eq!(
        cmd.args,
        vec![
            "compile",
            "--dir",
            "/t/release/aab/unpacked-apk/res",
            "-o",
            "/t/release/aab/res.zip",
        ]
    );
}

#[test]
fn link_command_uses_the_fixed_defaults() {
    let cmd = link_res_command(&toolchain(), &layout(), &config());
    assert_eq!(cmd.program, "/opt/android/build-tools/35.0.0/aapt2");
    assert_eq!(
        cmd.args,
        vec![
            "link",
            "-o",
            "/t/release/aab/base.zip",
            "-R",
            "/t/release/aab/res.zip",
            "-I",
            "/opt/android/platforms/android-35/android.jar",
            "--manifest",
            "/t/release/aab/unpacked-apk/AndroidManifest.xml",
            "--min-sdk-version",
            "21",
            "--target-sdk-version",
            "35",
            "--version-code",
            "1",
            "--version-name",
            "1.0",
            "--auto-add-overlay",
            "--proto-format",
        ]
    );
}

#[test]
fn link_command_takes_declared_values_over_defaults() {
    let mut cfg = config();
    cfg.min_sdk_version = Some(24);
    cfg.target_sdk_version = Some(34);
    cfg.version_code = Some(42);
    cfg.version_name = Some("2.1".to_string());
    let cmd = link_res_command(&toolchain(), &layout(), &cfg);
    let args = &cmd.args;
    assert_eq!(args[10], "24");
    assert_eq!(args[12], "34");
    assert_eq!(args[14], "42");
    assert_eq!(args[16], "2.1");
}

#[test]
fn expand_creates_exactly_dex_manifest_root() {
    let dirs = expand_dirs(&layout());
    assert_eq!(
        dirs,
        vec![
            "/t/release/aab/bundle/dex",
            "/t/release/aab/bundle/manifest",
            "/t/release/aab/bundle/root",
        ]
    );
    let cmd = expand_command(&layout());
    assert_eq!(cmd.program, "unzip");
    assert_eq!(cmd.args, vec!["-d", "/t/release/aab/bundle", "/t/release/aab/base.zip"]);
}

#[test]
fn restage_moves_relocate_into_the_bundle_layout() {
    let moves = restage_moves(&layout());
    assert_eq!(moves.len(), 5);
    assert_eq!(moves[0].src, "/t/release/aab/bundle/AndroidManifest.xml");
    assert_eq!(moves[0].dest, "/t/release/aab/bundle/manifest/AndroidManifest.xml");
    assert!(!moves[0].optional);
    assert_eq!(moves[1].src, "/t/release/aab/unpacked-apk/lib");
    assert_eq!(moves[1].dest, "/t/release/aab/bundle/lib");
    assert!(!moves[1].optional);
    assert_eq!(moves[2].src, "/t/release/aab/unpacked-apk/assets");
    assert_eq!(moves[2].dest, "/t/release/aab/bundle/assets");
    assert!(moves[2].optional);
    assert_eq!(moves[3].src, "/t/release/aab/unpacked-apk/unknown");
    assert_eq!(moves[3].dest, "/t/release/aab/bundle/root");
    assert!(moves[3].optional);
    assert_eq!(moves[4].src, "/t/release/aab/unpacked-apk/kotlin");
    assert_eq!(moves[4].dest, "/t/release/aab/bundle/root");
    assert!(moves[4].optional);
}

#[test]
fn bundle_entries_include_assets_only_when_present() {
    assert_eq!(
        bundle_entries(true),
        vec!["assets", "dex", "lib", "manifest", "res", "root", "resources.pb"]
    );
    assert_eq!(
        bundle_entries(false),
        vec!["dex", "lib", "manifest", "res", "root", "resources.pb"]
    );
}

#[test]
fn repackage_command_stores_each_entry_relative_to_the_bundle_dir() {
    let cmd = repackage_command(&layout(), false);
    assert_eq!(cmd.program, "jar");
    let d = "/t/release/aab/bundle";
    assert_eq!(
        cmd.args,
        vec![
            "c0Mf",
            "/t/release/aab/bundle/bundle.zip",
            "-C", d, "dex",
            "-C", d, "lib",
            "-C", d, "manifest",
            "-C", d, "res",
            "-C", d, "root",
            "-C", d, "resources.pb",
        ]
    );
    let with_assets = repackage_command(&layout(), true);
    assert_eq!(&with_assets.args[2..5], &["-C", d, "assets"]);
}

#[test]
fn build_bundle_command_matches_the_fixed_shape() {
    let cmd = build_bundle_command(&toolchain(), &layout(), &config().apk_name);
    assert_eq!(cmd.program, "/opt/java/bin/java");
    assert_eq!(
        cmd.args,
        vec![
            "-jar",
            "/t/release/aab/tools/bundletool-1.15.4.jar",
            "build-bundle",
            "--modules",
            "/t/release/aab/bundle/bundle.zip",
            "--output",
            "/t/release/aab/hello-unsigned.aab",
        ]
    );
}

#[test]
fn sign_command_uses_sha256_and_empty_strings_for_missing_alias() {
    let cred = KeystoreCredential {
        path: "/proj/keys/upload.jks".to_string(),
        store_password: "storepw".to_string(),
        alias: None,
        key_password: None,
    };
    let cmd = sign_command(&toolchain(), &layout(), &config().apk_name, &cred);
    assert_eq!(cmd.program, "/opt/java/bin/jarsigner");
    assert_eq!(
        cmd.args,
        vec![
            "-verbose",
            "-sigalg",
            "SHA256withRSA",
            "-digestalg",
            "SHA-256",
            "-keystore",
            "/proj/keys/upload.jks",
            "-storepass",
            "storepw",
            "-keypass",
            "",
            "-signedjar",
            "/t/release/aab/hello.aab",
            "/t/release/aab/hello-unsigned.aab",
            "",
        ]
    );
}

#[test]
fn two_plans_for_the_same_input_are_identical() {
    let plan = |tc: &ToolchainPaths, lay: &StagingLayout, cfg: &BundleConfig| {
        let mut all: Vec<(String, Vec<String>)> = Vec::new();
        let c = decompile_command(tc, lay, "/t/release/apk", &cfg.apk_name);
        all.push((c.program, c.args));
        let c = compile_res_command(tc, lay);
        all.push((c.program, c.args));
        let c = link_res_command(tc, lay, cfg);
        all.push((c.program, c.args));
        let c = expand_command(lay);
        all.push((c.program, c.args));
        let c = repackage_command(lay, false);
        all.push((c.program, c.args));
        let c = build_bundle_command(tc, lay, &cfg.apk_name);
        all.push((c.program, c.args));
        all
    };
    let first = plan(&toolchain(), &layout(), &config());
    let second = plan(&toolchain(), &layout(), &config());
    assert_eq!(first, second);
}

#[test]
fn release_scenario_without_assets_or_libs() {
    let signing = Signing {
        store_path: "keys/upload.jks".to_string(),
        store_password: "storepw".to_string(),
        key_alias: Some("upload".to_string()),
        key_password: Some("keypw".to_string()),
    };
    let entries = vec![SigningEntry { profile: "release".to_string(), signing }];
    let env = EnvOverrides {
        store_path: None,
        store_password: None,
        key_alias: None,
        key_password: None,
    };
    let resolution = resolve(&BuildProfile::Release, &env, &entries, "/proj", false).unwrap();
    let key = match resolution {
        Resolution::Credential { key, default_password_warning } => {
            assert!(!default_password_warning);
            key
        }
        Resolution::DebugKey => panic!("a bundle is never signed with the debug key"),
    };
    assert_eq!(key.alias.as_deref(), Some("upload"));

    assert_eq!(
        bundle_entries(false),
        vec!["dex", "lib", "manifest", "res", "root", "resources.pb"]
    );
    assert_eq!(signed_bundle_name(&Some("hello".to_string())), "hello.aab");
    let cmd = sign_command(&toolchain(), &layout(), &Some("hello".to_string()), &key);
    assert_eq!(cmd.args[12], "/t/release/aab/hello.aab");
    assert_eq!(cmd.args[13], "/t/release/aab/hello-unsigned.aab");
    assert_eq!(cmd.args[14], "upload");
}
