//! The bundle assembly pipeline as an explicit state machine.
//!
//! A run is a strict sequence of stages; each stage performs exactly one
//! piece of outside work (a filesystem reset, writing the cached helper
//! tools, or one external tool process) and either completes or fails.  The
//! machine here decides which stage comes next and how an outcome moves the
//! run forward; the unverified driver only performs the work each stage
//! names.

use vstd::prelude::*;

use crate::error::{Error, ErrorView};
use crate::keystore::KeystoreCredential;
use crate::manifest::BundleConfig;
use crate::staging::{
    spec_apk_file_name, spec_apk_tool_path, spec_base_zip, spec_bundle_assets_dir,
    spec_bundle_dex_dir, spec_bundle_dir, spec_bundle_lib_dir, spec_bundle_manifest_dir,
    spec_bundle_manifest_file, spec_bundle_root_dir, spec_bundle_tool_path, spec_bundle_zip,
    spec_res_zip, spec_signed_bundle_name, spec_unpacked_assets_dir, spec_unpacked_dir,
    spec_unpacked_kotlin_dir, spec_unpacked_lib_dir, spec_unpacked_manifest,
    spec_unpacked_res_dir, spec_unpacked_unknown_dir, spec_unsigned_bundle_name, apk_file_name,
    signed_bundle_name, unsigned_bundle_name, StagingLayout,
};
use crate::text::{path_join, spec_decimal, spec_path_join, u32_to_string};

verus! {

/// One stage of the pipeline, in the order the run performs them.
#[derive(Clone, Copy, Debug, PartialEq, Eq, Structural)]
pub enum Stage {
    /// Clear the staging root of everything but the tool cache.
    Reset,
    /// Write the two embedded helper-tool archives into the cache.
    MaterializeTools,
    /// Decompile the input package into `unpacked-apk/`.
    Decompile,
    /// Compile the decompiled resources into `res.zip`.
    CompileResources,
    /// Link the compiled resources into `base.zip`.
    LinkResources,
    /// Expand `base.zip` into the `bundle/` layout.
    Expand,
    /// Relocate manifest, libraries and auxiliary trees into `bundle/`.
    Restage,
    /// Repackage the `bundle/` tree as the stored archive `bundle.zip`.
    Repackage,
    /// Build the unsigned bundle container from `bundle.zip`.
    BuildBundle,
    /// Sign the bundle container with the resolved credential.
    Sign,
}

/// Where a run stands: at the start, past each completed stage, or failed.
/// `Failed` is terminal and keeps the stage that failed for diagnostics.
#[derive(Clone, Debug, PartialEq, Eq, Structural)]
pub enum PipelineState {
    Start,
    Reset,
    ToolsReady,
    Decompiled,
    ResCompiled,
    Linked,
    Expanded,
    Restaged,
    Repackaged,
    BundleBuilt,
    Signed,
    Failed(Stage),
}

/// The short name a stage goes by in diagnostics.
pub open spec fn spec_stage_label(stage: Stage) -> Seq<char> {
    match stage {
        Stage::Reset => "reset staging area"@,
        Stage::MaterializeTools => "materialize helper tools"@,
        Stage::Decompile => "decompile"@,
        Stage::CompileResources => "compile resources"@,
        Stage::LinkResources => "link resources"@,
        Stage::Expand => "expand linked archive"@,
        Stage::Restage => "restage into bundle layout"@,
        Stage::Repackage => "repackage module archive"@,
        Stage::BuildBundle => "build bundle container"@,
        Stage::Sign => "sign"@,
    }
}

/// The short name a stage goes by in diagnostics.
pub fn stage_label(stage: Stage) -> (r: String)
    ensures
        r@ == spec_stage_label(stage),
{
    match stage {
        Stage::Reset => String::from_str("reset staging area"),
        Stage::MaterializeTools => String::from_str("materialize helper tools"),
        Stage::Decompile => String::from_str("decompile"),
        Stage::CompileResources => String::from_str("compile resources"),
        Stage::LinkResources => String::from_str("link resources"),
        Stage::Expand => String::from_str("expand linked archive"),
        Stage::Restage => String::from_str("restage into bundle layout"),
        Stage::Repackage => String::from_str("repackage module archive"),
        Stage::BuildBundle => String::from_str("build bundle container"),
        Stage::Sign => String::from_str("sign"),
    }
}

/// How one stage's outside work ended: cleanly, with a tool process exiting
/// non-zero (carrying its captured standard-error text), or with a
/// filesystem failure.
#[derive(Clone, Debug)]
pub enum StageOutcome {
    Success,
    ToolFailed(String),
    FsFailed(String),
}

/// The stage a run in this state performs next, if any.
pub open spec fn spec_next_stage(state: PipelineState) -> Option<Stage> {
    match state {
        PipelineState::Start => Some(Stage::Reset),
        PipelineState::Reset => Some(Stage::MaterializeTools),
        PipelineState::ToolsReady => Some(Stage::Decompile),
        PipelineState::Decompiled => Some(Stage::CompileResources),
        PipelineState::ResCompiled => Some(Stage::LinkResources),
        PipelineState::Linked => Some(Stage::Expand),
        PipelineState::Expanded => Some(Stage::Restage),
        PipelineState::Restaged => Some(Stage::Repackage),
        PipelineState::Repackaged => Some(Stage::BuildBundle),
        PipelineState::BundleBuilt => Some(Stage::Sign),
        PipelineState::Signed => None,
        PipelineState::Failed(_) => None,
    }
}

/// A run stops in a signed or failed state and nowhere else.
pub open spec fn spec_is_terminal(state: PipelineState) -> bool {
    spec_next_stage(state) is None
}

/// The state a run reaches when the given stage completes cleanly.
pub open spec fn spec_after_stage(stage: Stage) -> PipelineState {
    match stage {
        Stage::Reset => PipelineState::Reset,
        Stage::MaterializeTools => PipelineState::ToolsReady,
        Stage::Decompile => PipelineState::Decompiled,
        Stage::CompileResources => PipelineState::ResCompiled,
        Stage::LinkResources => PipelineState::Linked,
        Stage::Expand => PipelineState::Expanded,
        Stage::Restage => PipelineState::Restaged,
        Stage::Repackage => PipelineState::Repackaged,
        Stage::BuildBundle => PipelineState::BundleBuilt,
        Stage::Sign => PipelineState::Signed,
    }
}

/// The state after the pending stage ends with the given outcome: forward on
/// success, `Failed` at that stage on anything else.
pub open spec fn spec_advance(state: PipelineState, outcome: StageOutcome) -> PipelineState
    recommends
        !spec_is_terminal(state),
{
    match spec_next_stage(state) {
        Some(stage) => match outcome {
            StageOutcome::Success => spec_after_stage(stage),
            StageOutcome::ToolFailed(_) => PipelineState::Failed(stage),
            StageOutcome::FsFailed(_) => PipelineState::Failed(stage),
        },
        None => state,
    }
}

/// The stage a run in this state performs next, if any.
pub fn next_stage(state: &PipelineState) -> (r: Option<Stage>)
    ensures
        r == spec_next_stage(*state),
{
    match state {
        PipelineState::Start => Some(Stage::Reset),
        PipelineState::Reset => Some(Stage::MaterializeTools),
        PipelineState::ToolsReady => Some(Stage::Decompile),
        PipelineState::Decompiled => Some(Stage::CompileResources),
        PipelineState::ResCompiled => Some(Stage::LinkResources),
        PipelineState::Linked => Some(Stage::Expand),
        PipelineState::Expanded => Some(Stage::Restage),
        PipelineState::Restaged => Some(Stage::Repackage),
        PipelineState::Repackaged => Some(Stage::BuildBundle),
        PipelineState::BundleBuilt => Some(Stage::Sign),
        PipelineState::Signed => None,
        PipelineState::Failed(_) => None,
    }
}

/// Move the run forward by one stage outcome.
pub fn advance(state: &PipelineState, outcome: &StageOutcome) -> (r: PipelineState)
    requires
        !spec_is_terminal(*state),
    ensures
        r == spec_advance(*state, *outcome),
{
    match next_stage(state) {
        Some(stage) => match outcome {
            StageOutcome::Success => after_stage(stage),
            StageOutcome::ToolFailed(_) => PipelineState::Failed(stage),
            StageOutcome::FsFailed(_) => PipelineState::Failed(stage),
        },
        None => state.clone(),
    }
}

/// The state a run reaches when the given stage completes cleanly.
fn after_stage(stage: Stage) -> (r: PipelineState)
    ensures
        r == spec_after_stage(stage),
{
    match stage {
        Stage::Reset => PipelineState::Reset,
        Stage::MaterializeTools => PipelineState::ToolsReady,
        Stage::Decompile => PipelineState::Decompiled,
        Stage::CompileResources => PipelineState::ResCompiled,
        Stage::LinkResources => PipelineState::Linked,
        Stage::Expand => PipelineState::Expanded,
        Stage::Restage => PipelineState::Restaged,
        Stage::Repackage => PipelineState::Repackaged,
        Stage::BuildBundle => PipelineState::BundleBuilt,
        Stage::Sign => PipelineState::Signed,
    }
}

/// The external programs the pipeline invokes, found by the caller.
#[derive(Clone, Debug)]
pub struct ToolchainPaths {
    pub java: String,
    pub jarsigner: String,
    pub aapt2: String,
    pub android_jar: String,
}

impl ToolchainPaths {
    /// The fixed places of the four programs under the Java and Android
    /// installation roots.
    pub fn from_homes(java_home: &str, android_home: &str) -> (r: ToolchainPaths)
        ensures
            r.java@ == spec_path_join(spec_path_join(java_home@, "bin"@), "java"@),
            r.jarsigner@ == spec_path_join(spec_path_join(java_home@, "bin"@), "jarsigner"@),
            r.aapt2@ == spec_path_join(
                spec_path_join(spec_path_join(android_home@, "build-tools"@), "35.0.0"@),
                "aapt2"@,
            ),
            r.android_jar@ == spec_path_join(
                spec_path_join(spec_path_join(android_home@, "platforms"@), "android-35"@),
                "android.jar"@,
            ),
    {
        let bin = path_join(java_home, "bin");
        let build_tools = path_join(android_home, "build-tools");
        let build_tools = path_join(build_tools.as_str(), "35.0.0");
        let platforms = path_join(android_home, "platforms");
        let platform = path_join(platforms.as_str(), "android-35");
        ToolchainPaths {
            java: path_join(bin.as_str(), "java"),
            jarsigner: path_join(bin.as_str(), "jarsigner"),
            aapt2: path_join(build_tools.as_str(), "aapt2"),
            android_jar: path_join(platform.as_str(), "android.jar"),
        }
    }
}

/// One external process invocation: the program and its arguments, in order.
#[derive(Clone, Debug)]
pub struct Command {
    pub program: String,
    pub args: Vec<String>,
}

/// Whether the reset stage removes a staging-root entry: everything goes
/// except the persistent tool cache.
pub open spec fn spec_should_remove(entry_name: Seq<char>) -> bool {
    entry_name != "tools"@
}

/// Whether the reset stage removes a staging-root entry.
pub fn should_remove(entry_name: &String) -> (r: bool)
    ensures
        r == spec_should_remove(entry_name@),
{
    let tools = String::from_str("tools");
    !(*entry_name == tools)
}

/// The decompiler's arguments: a clean, resources-only full decompilation
/// of the input package into the unpacked tree.
pub open spec fn spec_decompile_args(
    apk_tool: Seq<char>,
    input_apk: Seq<char>,
    unpacked: Seq<char>,
) -> Seq<Seq<char>> {
    seq!["-jar"@, apk_tool, "d"@, input_apk, "-s"@, "-o"@, unpacked, "-f"@]
}

/// The decompile stage's process: the cached decompiler run by `java` on
/// the input package found in the package build directory.
pub fn decompile_command(
    toolchain: &ToolchainPaths,
    layout: &StagingLayout,
    apk_dir: &str,
    apk_name: &Option<String>,
) -> (r: Command)
    requires
        layout.wf(),
    ensures
        r.program@ == toolchain.java@,
        r.args.deep_view() == spec_decompile_args(
            spec_apk_tool_path(layout.root@),
            spec_path_join(apk_dir@, spec_apk_file_name(apk_name.deep_view())),
            spec_unpacked_dir(layout.root@),
        ),
{
    let input = path_join(apk_dir, apk_file_name(apk_name).as_str());
    let mut args: Vec<String> = Vec::new();
    args.push(String::from_str("-jar"));
    args.push(layout.apk_tool.clone());
    args.push(String::from_str("d"));
    args.push(input);
    args.push(String::from_str("-s"));
    args.push(String::from_str("-o"));
    args.push(layout.unpacked_dir.clone());
    args.push(String::from_str("-f"));
    assert(args.deep_view() =~= spec_decompile_args(
        spec_apk_tool_path(layout.root@),
        spec_path_join(apk_dir@, spec_apk_file_name(apk_name.deep_view())),
        spec_unpacked_dir(layout.root@),
    ));
    Command { program: toolchain.java.clone(), args }
}

/// The resource compiler's arguments: compile the unpacked resource tree
/// into the compiled-resource archive.
pub open spec fn spec_compile_res_args(unpacked_res: Seq<char>, res_zip: Seq<char>) -> Seq<
    Seq<char>,
> {
    seq!["compile"@, "--dir"@, unpacked_res, "-o"@, res_zip]
}

/// The resource-compilation stage's process.
pub fn compile_res_command(toolchain: &ToolchainPaths, layout: &StagingLayout) -> (r: Command)
    requires
        layout.wf(),
    ensures
        r.program@ == toolchain.aapt2@,
        r.args.deep_view() == spec_compile_res_args(
            spec_unpacked_res_dir(layout.root@),
            spec_res_zip(layout.root@),
        ),
{
    let mut args: Vec<String> = Vec::new();
    args.push(String::from_str("compile"));
    args.push(String::from_str("--dir"));
    args.push(layout.unpacked_res_dir.clone());
    args.push(String::from_str("-o"));
    args.push(layout.res_zip.clone());
    assert(args.deep_view() =~= spec_compile_res_args(
        spec_unpacked_res_dir(layout.root@),
        spec_res_zip(layout.root@),
    ));
    Command { program: toolchain.aapt2.clone(), args }
}

/// The resource linker's arguments: the compiled archive as input, the
/// platform archive as import, the decompiled manifest, the SDK and version
/// settings (with their fixed defaults), overlay auto-merging, and proto
/// output.
pub open spec fn spec_link_res_args(
    base_zip: Seq<char>,
    res_zip: Seq<char>,
    android_jar: Seq<char>,
    manifest: Seq<char>,
    min_sdk: u32,
    target_sdk: u32,
    version_code: u32,
    version_name: Seq<char>,
) -> Seq<Seq<char>> {
    seq![
        "link"@,
        "-o"@,
        base_zip,
        "-R"@,
        res_zip,
        "-I"@,
        android_jar,
        "--manifest"@,
        manifest,
        "--min-sdk-version"@,
        spec_decimal(min_sdk as nat),
        "--target-sdk-version"@,
        spec_decimal(target_sdk as nat),
        "--version-code"@,
        spec_decimal(version_code as nat),
        "--version-name"@,
        version_name,
        "--auto-add-overlay"@,
        "--proto-format"@,
    ]
}

/// The minimum SDK the linker targets: the declared value or 21.
pub open spec fn spec_link_min_sdk(declared: Option<u32>) -> u32 {
    match declared {
        Some(v) => v,
        None => 21u32,
    }
}

/// The target SDK the linker uses: the declared value or 35.
pub open spec fn spec_link_target_sdk(declared: Option<u32>) -> u32 {
    match declared {
        Some(v) => v,
        None => 35u32,
    }
}

/// The version code the linker embeds: the declared value or 1.
pub open spec fn spec_link_version_code(declared: Option<u32>) -> u32 {
    match declared {
        Some(v) => v,
        None => 1u32,
    }
}

/// The version name the linker embeds: the declared value or `1.0`.
pub open spec fn spec_link_version_name(declared: Option<Seq<char>>) -> Seq<char> {
    match declared {
        Some(v) => v,
        None => "1.0"@,
    }
}

/// The resource-linking stage's process.
pub fn link_res_command(
    toolchain: &ToolchainPaths,
    layout: &StagingLayout,
    config: &BundleConfig,
) -> (r: Command)
    requires
        layout.wf(),
    ensures
        r.program@ == toolchain.aapt2@,
        r.args.deep_view() == spec_link_res_args(
            spec_base_zip(layout.root@),
            spec_res_zip(layout.root@),
            toolchain.android_jar@,
            spec_unpacked_manifest(layout.root@),
            spec_link_min_sdk(config.min_sdk_version),
            spec_link_target_sdk(config.target_sdk_version),
            spec_link_version_code(config.version_code),
            spec_link_version_name(config.version_name.deep_view()),
        ),
{
    let min_sdk: u32 = match &config.min_sdk_version {
        Some(v) => *v,
        None => 21,
    };
    let target_sdk: u32 = match &config.target_sdk_version {
        Some(v) => *v,
        None => 35,
    };
    let version_code: u32 = match &config.version_code {
        Some(v) => *v,
        None => 1,
    };
    let version_name: String = match &config.version_name {
        Some(v) => v.clone(),
        None => String::from_str("1.0"),
    };
    let mut args: Vec<String> = Vec::new();
    args.push(String::from_str("link"));
    args.push(String::from_str("-o"));
    args.push(layout.base_zip.clone());
    args.push(String::from_str("-R"));
    args.push(layout.res_zip.clone());
    args.push(String::from_str("-I"));
    args.push(toolchain.android_jar.clone());
    args.push(String::from_str("--manifest"));
    args.push(layout.unpacked_manifest.clone());
    args.push(String::from_str("--min-sdk-version"));
    args.push(u32_to_string(min_sdk));
    args.push(String::from_str("--target-sdk-version"));
    args.push(u32_to_string(target_sdk));
    args.push(String::from_str("--version-code"));
    args.push(u32_to_string(version_code));
    args.push(String::from_str("--version-name"));
    args.push(version_name);
    args.push(String::from_str("--auto-add-overlay"));
    args.push(String::from_str("--proto-format"));
    assert(args.deep_view() =~= spec_link_res_args(
        spec_base_zip(layout.root@),
        spec_res_zip(layout.root@),
        toolchain.android_jar@,
        spec_unpacked_manifest(layout.root@),
        spec_link_min_sdk(config.min_sdk_version),
        spec_link_target_sdk(config.target_sdk_version),
        spec_link_version_code(config.version_code),
        spec_link_version_name(config.version_name.deep_view()),
    ));
    Command { program: toolchain.aapt2.clone(), args }
}

/// The directories of the bundle layout the expand stage pre-creates: the
/// dex, manifest and root directories, and nothing else — in particular no
/// assets directory.
pub open spec fn spec_expand_dirs(root: Seq<char>) -> Seq<Seq<char>> {
    seq![spec_bundle_dex_dir(root), spec_bundle_manifest_dir(root), spec_bundle_root_dir(root)]
}

/// The directories the expand stage creates before decompressing.
pub fn expand_dirs(layout: &StagingLayout) -> (r: Vec<String>)
    requires
        layout.wf(),
    ensures
        r.deep_view() == spec_expand_dirs(layout.root@),
{
    let mut dirs: Vec<String> = Vec::new();
    dirs.push(layout.bundle_dex_dir.clone());
    dirs.push(layout.bundle_manifest_dir.clone());
    dirs.push(layout.bundle_root_dir.clone());
    assert(dirs.deep_view() =~= spec_expand_dirs(layout.root@));
    dirs
}

/// The expand stage's process: decompress the linked archive into the
/// bundle directory.
pub open spec fn spec_expand_args(bundle_dir: Seq<char>, base_zip: Seq<char>) -> Seq<Seq<char>> {
    seq!["-d"@, bundle_dir, base_zip]
}

/// The expand stage's process.
pub fn expand_command(layout: &StagingLayout) -> (r: Command)
    requires
        layout.wf(),
    ensures
        r.program@ == "unzip"@,
        r.args.deep_view() == spec_expand_args(
            spec_bundle_dir(layout.root@),
            spec_base_zip(layout.root@),
        ),
{
    let mut args: Vec<String> = Vec::new();
    args.push(String::from_str("-d"));
    args.push(layout.bundle_dir.clone());
    args.push(layout.base_zip.clone());
    assert(args.deep_view() =~= spec_expand_args(
        spec_bundle_dir(layout.root@),
        spec_base_zip(layout.root@),
    ));
    Command { program: String::from_str("unzip"), args }
}

/// One relocation of the restage stage.  An optional move tolerates a
/// missing source; a required one fails the stage if the source is absent.
#[derive(Clone, Debug)]
pub struct MoveOp {
    pub src: String,
    pub dest: String,
    pub optional: bool,
}

/// The mathematical shape of a [`MoveOp`].
pub ghost struct MoveOpView {
    pub src: Seq<char>,
    pub dest: Seq<char>,
    pub optional: bool,
}

impl View for MoveOp {
    type V = MoveOpView;

    open spec fn view(&self) -> MoveOpView {
        MoveOpView { src: self.src@, dest: self.dest@, optional: self.optional }
    }
}

impl DeepView for MoveOp {
    type V = MoveOpView;

    open spec fn deep_view(&self) -> MoveOpView {
        self.view()
    }
}

/// The restage stage's relocations, in order: the manifest into
/// `manifest/`, the native-library tree into `lib/`, the assets tree (if it
/// exists) into `assets/`, and the unknown and kotlin trees (if they exist)
/// both onto `root/` — the later move wins when both exist, a documented
/// ambiguity kept for compatibility.
pub open spec fn spec_restage_moves(root: Seq<char>) -> Seq<MoveOpView> {
    seq![
        MoveOpView {
            src: spec_path_join(spec_bundle_dir(root), "AndroidManifest.xml"@),
            dest: spec_bundle_manifest_file(root),
            optional: false,
        },
        MoveOpView {
            src: spec_unpacked_lib_dir(root),
            dest: spec_bundle_lib_dir(root),
            optional: false,
        },
        MoveOpView {
            src: spec_unpacked_assets_dir(root),
            dest: spec_bundle_assets_dir(root),
            optional: true,
        },
        MoveOpView {
            src: spec_unpacked_unknown_dir(root),
            dest: spec_bundle_root_dir(root),
            optional: true,
        },
        MoveOpView {
            src: spec_unpacked_kotlin_dir(root),
            dest: spec_bundle_root_dir(root),
            optional: true,
        },
    ]
}

/// The restage stage's relocations.
pub fn restage_moves(layout: &StagingLayout) -> (r: Vec<MoveOp>)
    requires
        layout.wf(),
    ensures
        r.deep_view() == spec_restage_moves(layout.root@),
{
    let mut moves: Vec<MoveOp> = Vec::new();
    moves.push(
        MoveOp {
            src: path_join(layout.bundle_dir.as_str(), "AndroidManifest.xml"),
            dest: layout.bundle_manifest_file.clone(),
            optional: false,
        },
    );
    moves.push(
        MoveOp {
            src: layout.unpacked_lib_dir.clone(),
            dest: layout.bundle_lib_dir.clone(),
            optional: false,
        },
    );
    moves.push(
        MoveOp {
            src: layout.unpacked_assets_dir.clone(),
            dest: layout.bundle_assets_dir.clone(),
            optional: true,
        },
    );
    moves.push(
        MoveOp {
            src: layout.unpacked_unknown_dir.clone(),
            dest: layout.bundle_root_dir.clone(),
            optional: true,
        },
    );
    moves.push(
        MoveOp {
            src: layout.unpacked_kotlin_dir.clone(),
            dest: layout.bundle_root_dir.clone(),
            optional: true,
        },
    );
    assert(moves.deep_view() =~= spec_restage_moves(layout.root@));
    moves
}

/// The top-level entries of the module archive: `assets` only when the
/// input package carried assets, then always `dex`, `lib`, `manifest`,
/// `res`, `root` and `resources.pb`, each under its bundle-relative name.
pub open spec fn spec_bundle_entries(has_assets: bool) -> Seq<Seq<char>> {
    if has_assets {
        seq!["assets"@, "dex"@, "lib"@, "manifest"@, "res"@, "root"@, "resources.pb"@]
    } else {
        seq!["dex"@, "lib"@, "manifest"@, "res"@, "root"@, "resources.pb"@]
    }
}

/// The top-level entries of the module archive.
pub fn bundle_entries(has_assets: bool) -> (r: Vec<String>)
    ensures
        r.deep_view() == spec_bundle_entries(has_assets),
{
    let mut entries: Vec<String> = Vec::new();
    if has_assets {
        entries.push(String::from_str("assets"));
    }
    entries.push(String::from_str("dex"));
    entries.push(String::from_str("lib"));
    entries.push(String::from_str("manifest"));
    entries.push(String::from_str("res"));
    entries.push(String::from_str("root"));
    entries.push(String::from_str("resources.pb"));
    assert(entries.deep_view() =~= spec_bundle_entries(has_assets));
    entries
}

/// The archiver's arguments: create the module archive uncompressed, with
/// no manifest of its own, adding each entry relative to the bundle
/// directory.
pub open spec fn spec_repackage_args(
    bundle_dir: Seq<char>,
    bundle_zip: Seq<char>,
    has_assets: bool,
) -> Seq<Seq<char>> {
    let head = seq!["c0Mf"@, bundle_zip];
    let tail = seq![
        "-C"@,
        bundle_dir,
        "dex"@,
        "-C"@,
        bundle_dir,
        "lib"@,
        "-C"@,
        bundle_dir,
        "manifest"@,
        "-C"@,
        bundle_dir,
        "res"@,
        "-C"@,
        bundle_dir,
        "root"@,
        "-C"@,
        bundle_dir,
        "resources.pb"@,
    ];
    if has_assets {
        head + seq!["-C"@, bundle_dir, "assets"@] + tail
    } else {
        head + tail
    }
}

/// The repackage stage's process.
pub fn repackage_command(layout: &StagingLayout, has_assets: bool) -> (r: Command)
    requires
        layout.wf(),
    ensures
        r.program@ == "jar"@,
        r.args.deep_view() == spec_repackage_args(
            spec_bundle_dir(layout.root@),
            spec_bundle_zip(layout.root@),
            has_assets,
        ),
{
    let mut args: Vec<String> = Vec::new();
    args.push(String::from_str("c0Mf"));
    args.push(layout.bundle_zip.clone());
    if has_assets {
        args.push(String::from_str("-C"));
        args.push(layout.bundle_dir.clone());
        args.push(String::from_str("assets"));
    }
    args.push(String::from_str("-C"));
    args.push(layout.bundle_dir.clone());
    args.push(String::from_str("dex"));
    args.push(String::from_str("-C"));
    args.push(layout.bundle_dir.clone());
    args.push(String::from_str("lib"));
    args.push(String::from_str("-C"));
    args.push(layout.bundle_dir.clone());
    args.push(String::from_str("manifest"));
    args.push(String::from_str("-C"));
    args.push(layout.bundle_dir.clone());
    args.push(String::from_str("res"));
    args.push(String::from_str("-C"));
    args.push(layout.bundle_dir.clone());
    args.push(String::from_str("root"));
    args.push(String::from_str("-C"));
    args.push(layout.bundle_dir.clone());
    args.push(String::from_str("resources.pb"));
    assert(args.deep_view() =~= spec_repackage_args(
        spec_bundle_dir(layout.root@),
        spec_bundle_zip(layout.root@),
        has_assets,
    ));
    Command { program: String::from_str("jar"), args }
}

/// The bundle builder's arguments: the module archive as the sole module,
/// the unsigned container as output.
pub open spec fn spec_build_bundle_args(
    bundle_tool: Seq<char>,
    bundle_zip: Seq<char>,
    unsigned_out: Seq<char>,
) -> Seq<Seq<char>> {
    seq!["-jar"@, bundle_tool, "build-bundle"@, "--modules"@, bundle_zip, "--output"@, unsigned_out]
}

/// The bundle-building stage's process: the cached bundle builder run by
/// `java` on the module archive.
pub fn build_bundle_command(
    toolchain: &ToolchainPaths,
    layout: &StagingLayout,
    apk_name: &Option<String>,
) -> (r: Command)
    requires
        layout.wf(),
    ensures
        r.program@ == toolchain.java@,
        r.args.deep_view() == spec_build_bundle_args(
            spec_bundle_tool_path(layout.root@),
            spec_bundle_zip(layout.root@),
            spec_path_join(layout.root@, spec_unsigned_bundle_name(apk_name.deep_view())),
        ),
{
    let out = path_join(layout.root.as_str(), unsigned_bundle_name(apk_name).as_str());
    let mut args: Vec<String> = Vec::new();
    args.push(String::from_str("-jar"));
    args.push(layout.bundle_tool.clone());
    args.push(String::from_str("build-bundle"));
    args.push(String::from_str("--modules"));
    args.push(layout.bundle_zip.clone());
    args.push(String::from_str("--output"));
    args.push(out);
    assert(args.deep_view() =~= spec_build_bundle_args(
        spec_bundle_tool_path(layout.root@),
        spec_bundle_zip(layout.root@),
        spec_path_join(layout.root@, spec_unsigned_bundle_name(apk_name.deep_view())),
    ));
    Command { program: toolchain.java.clone(), args }
}

/// The signer's arguments: SHA-256 digest and signature algorithms, the
/// resolved keystore and passwords, the signed container as output, the
/// unsigned one as input, and the alias last — the empty string when none
/// was resolved, leaving the keystore's default key to the signer.
pub open spec fn spec_sign_args(
    keystore_path: Seq<char>,
    store_password: Seq<char>,
    key_password: Option<Seq<char>>,
    alias: Option<Seq<char>>,
    signed_out: Seq<char>,
    unsigned_in: Seq<char>,
) -> Seq<Seq<char>> {
    seq![
        "-verbose"@,
        "-sigalg"@,
        "SHA256withRSA"@,
        "-digestalg"@,
        "SHA-256"@,
        "-keystore"@,
        keystore_path,
        "-storepass"@,
        store_password,
        "-keypass"@,
        match key_password {
            Some(kp) => kp,
            None => ""@,
        },
        "-signedjar"@,
        signed_out,
        unsigned_in,
        match alias {
            Some(a) => a,
            None => ""@,
        },
    ]
}

/// The signing stage's process.
pub fn sign_command(
    toolchain: &ToolchainPaths,
    layout: &StagingLayout,
    apk_name: &Option<String>,
    credential: &KeystoreCredential,
) -> (r: Command)
    requires
        layout.wf(),
    ensures
        r.program@ == toolchain.jarsigner@,
        r.args.deep_view() == spec_sign_args(
            credential.path@,
            credential.store_password@,
            credential.key_password.deep_view(),
            credential.alias.deep_view(),
            spec_path_join(layout.root@, spec_signed_bundle_name(apk_name.deep_view())),
            spec_path_join(layout.root@, spec_unsigned_bundle_name(apk_name.deep_view())),
        ),
{
    let signed_out = path_join(layout.root.as_str(), signed_bundle_name(apk_name).as_str());
    let unsigned_in = path_join(layout.root.as_str(), unsigned_bundle_name(apk_name).as_str());
    let key_password: String = match &credential.key_password {
        Some(kp) => kp.clone(),
        None => String::new(),
    };
    let alias: String = match &credential.alias {
        Some(a) => a.clone(),
        None => String::new(),
    };
    proof {
        reveal_strlit("");
        assert(""@ =~= Seq::<char>::empty());
    }
    let mut args: Vec<String> = Vec::new();
    args.push(String::from_str("-verbose"));
    args.push(String::from_str("-sigalg"));
    args.push(String::from_str("SHA256withRSA"));
    args.push(String::from_str("-digestalg"));
    args.push(String::from_str("SHA-256"));
    args.push(String::from_str("-keystore"));
    args.push(credential.path.clone());
    args.push(String::from_str("-storepass"));
    args.push(credential.store_password.clone());
    args.push(String::from_str("-keypass"));
    args.push(key_password);
    args.push(String::from_str("-signedjar"));
    args.push(signed_out);
    args.push(unsigned_in);
    args.push(alias);
    assert(args.deep_view() =~= spec_sign_args(
        credential.path@,
        credential.store_password@,
        credential.key_password.deep_view(),
        credential.alias.deep_view(),
        spec_path_join(layout.root@, spec_signed_bundle_name(apk_name.deep_view())),
        spec_path_join(layout.root@, spec_unsigned_bundle_name(apk_name.deep_view())),
    ));
    Command { program: toolchain.jarsigner.clone(), args }
}

/// The error a stage outcome carries out of the run: nothing on success, a
/// tool-invocation failure with the captured standard-error text, or a
/// filesystem failure, each tagged with the stage it struck.
pub fn outcome_error(stage: Stage, outcome: &StageOutcome) -> (r: Option<Error>)
    ensures
        match outcome {
            StageOutcome::Success => r is None,
            StageOutcome::ToolFailed(stderr) => (r matches Some(e) && e@
                == ErrorView::ToolInvocationFailed { stage, stderr: stderr@ }),
            StageOutcome::FsFailed(message) => (r matches Some(e) && e@ == ErrorView::Filesystem {
                stage,
                message: message@,
            }),
        },
{
    match outcome {
        StageOutcome::Success => None,
        StageOutcome::ToolFailed(stderr) => Some(
            Error::ToolInvocationFailed { stage, stderr: stderr.clone() },
        ),
        StageOutcome::FsFailed(message) => Some(
            Error::Filesystem { stage, message: message.clone() },
        ),
    }
}

/// The reset stage never removes the `tools` entry, so the persistent tool
/// cache survives every rebuild untouched by the reset; re-running the
/// pipeline leaves it as it was.
pub proof fn lemma_reset_preserves_tools()
    ensures
        !spec_should_remove("tools"@),
{
}

/// With no assets in the input package nothing creates `bundle/assets`:
/// the expand stage creates only the dex, manifest and root directories,
/// every required relocation targets somewhere else, and the module archive
/// lists no `assets` entry.
pub proof fn lemma_absent_assets_stay_absent(root: Seq<char>)
    ensures
        forall|i: int|
            0 <= i < spec_expand_dirs(root).len() ==> spec_expand_dirs(root)[i]
                != spec_bundle_assets_dir(root),
        forall|i: int|
            0 <= i < spec_restage_moves(root).len() && !spec_restage_moves(root)[i].optional
                ==> spec_restage_moves(root)[i].dest != spec_bundle_assets_dir(root),
        forall|i: int|
            0 <= i < spec_bundle_entries(false).len() ==> spec_bundle_entries(false)[i]
                != "assets"@,
{
    reveal_strlit("bundle");
    reveal_strlit("assets");
    reveal_strlit("dex");
    reveal_strlit("manifest");
    reveal_strlit("root");
    reveal_strlit("lib");
    reveal_strlit("res");
    reveal_strlit("resources.pb");
    reveal_strlit("AndroidManifest.xml");
    let b = spec_bundle_dir(root);
    assert(b.len() >= 6 && b[b.len() - 1] == 'e');
    let assets = spec_bundle_assets_dir(root);
    assert(assets.len() == b.len() + 7);
    assert forall|i: int| 0 <= i < spec_expand_dirs(root).len() implies spec_expand_dirs(root)[i]
        != assets by {
        assert(spec_bundle_dex_dir(root).len() == b.len() + 4);
        assert(spec_bundle_manifest_dir(root).len() == b.len() + 9);
        assert(spec_bundle_root_dir(root).len() == b.len() + 5);
    }
    assert forall|i: int|
        0 <= i < spec_restage_moves(root).len() && !spec_restage_moves(root)[i].optional implies
        spec_restage_moves(root)[i].dest != assets by {
        let m = spec_bundle_manifest_dir(root);
        assert(m.len() == b.len() + 9 && m[m.len() - 1] == 't');
        assert(spec_bundle_manifest_file(root).len() == b.len() + 29);
        assert(spec_bundle_lib_dir(root).len() == b.len() + 4);
    }
    assert forall|i: int| 0 <= i < spec_bundle_entries(false).len() implies spec_bundle_entries(
        false,
    )[i] != "assets"@ by {
        assert("assets"@.len() == 6);
        assert("dex"@.len() == 3);
        assert("lib"@.len() == 3);
        assert("manifest"@.len() == 8);
        assert("res"@.len() == 3);
        assert("root"@.len() == 4);
        assert("resources.pb"@.len() == 12);
    }
}

/// A failed run stays failed: no outcome moves it, and the stage that failed
/// is retained.
pub proof fn lemma_failed_is_terminal(stage: Stage)
    ensures
        spec_is_terminal(PipelineState::Failed(stage)),
{
}

/// A failure at any stage lands in `Failed` at exactly that stage; only a
/// clean outcome moves the run forward.
pub proof fn lemma_failure_records_stage(state: PipelineState, outcome: StageOutcome)
    requires
        !spec_is_terminal(state),
        !(outcome is Success),
    ensures
        spec_advance(state, outcome) == PipelineState::Failed(spec_next_stage(state)->0),
{
}

/// A run makes progress: ten clean outcomes from the start walk every
/// stage in order and leave the run signed.
pub proof fn lemma_clean_run_signs()
    ensures
        ({
            let step = |s: PipelineState| spec_advance(s, StageOutcome::Success);
            step(
                step(
                    step(
                        step(
                            step(
                                step(
                                    step(
                                        step(step(step(PipelineState::Start))),
                                    ),
                                ),
                            ),
                        ),
                    ),
                ),
            ) == PipelineState::Signed
        }),
{
}

} // verus!
