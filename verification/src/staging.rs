//! The staging area's layout: every path a pipeline run reads or writes is
//! a fixed function of the staging root, and the artifact names are fixed
//! functions of the configured package name.  Downstream tooling depends on
//! these exact locations, so each one is pinned by its specification.

use vstd::prelude::*;

use crate::text::{path_join, spec_path_join};

verus! {

/// The persistent tool cache, the one entry a reset leaves alone.
pub open spec fn spec_tools_dir(root: Seq<char>) -> Seq<char> {
    spec_path_join(root, "tools"@)
}

/// The cached decompiler archive, under its version-pinned name.
pub open spec fn spec_apk_tool_path(root: Seq<char>) -> Seq<char> {
    spec_path_join(spec_tools_dir(root), "apktool-2.8.1.jar"@)
}

/// The cached bundle-builder archive, under its version-pinned name.
pub open spec fn spec_bundle_tool_path(root: Seq<char>) -> Seq<char> {
    spec_path_join(spec_tools_dir(root), "bundletool-1.15.4.jar"@)
}

/// The full decompilation of the input package.
pub open spec fn spec_unpacked_dir(root: Seq<char>) -> Seq<char> {
    spec_path_join(root, "unpacked-apk"@)
}

/// The decompiled resource tree.
pub open spec fn spec_unpacked_res_dir(root: Seq<char>) -> Seq<char> {
    spec_path_join(spec_unpacked_dir(root), "res"@)
}

/// The decompiled application manifest.
pub open spec fn spec_unpacked_manifest(root: Seq<char>) -> Seq<char> {
    spec_path_join(spec_unpacked_dir(root), "AndroidManifest.xml"@)
}

/// The decompiled native-library tree.
pub open spec fn spec_unpacked_lib_dir(root: Seq<char>) -> Seq<char> {
    spec_path_join(spec_unpacked_dir(root), "lib"@)
}

/// The decompiled assets tree, which the input package may lack.
pub open spec fn spec_unpacked_assets_dir(root: Seq<char>) -> Seq<char> {
    spec_path_join(spec_unpacked_dir(root), "assets"@)
}

/// The decompiler's tree of unrecognized files, which may be absent.
pub open spec fn spec_unpacked_unknown_dir(root: Seq<char>) -> Seq<char> {
    spec_path_join(spec_unpacked_dir(root), "unknown"@)
}

/// The decompiled kotlin-runtime tree, which may be absent.
pub open spec fn spec_unpacked_kotlin_dir(root: Seq<char>) -> Seq<char> {
    spec_path_join(spec_unpacked_dir(root), "kotlin"@)
}

/// The compiled-resource archive.
pub open spec fn spec_res_zip(root: Seq<char>) -> Seq<char> {
    spec_path_join(root, "res.zip"@)
}

/// The linked-resource archive.
pub open spec fn spec_base_zip(root: Seq<char>) -> Seq<char> {
    spec_path_join(root, "base.zip"@)
}

/// The restaged bundle tree.
pub open spec fn spec_bundle_dir(root: Seq<char>) -> Seq<char> {
    spec_path_join(root, "bundle"@)
}

/// The (empty) dex directory of the bundle layout.
pub open spec fn spec_bundle_dex_dir(root: Seq<char>) -> Seq<char> {
    spec_path_join(spec_bundle_dir(root), "dex"@)
}

/// The manifest directory of the bundle layout.
pub open spec fn spec_bundle_manifest_dir(root: Seq<char>) -> Seq<char> {
    spec_path_join(spec_bundle_dir(root), "manifest"@)
}

/// The root-files directory of the bundle layout.
pub open spec fn spec_bundle_root_dir(root: Seq<char>) -> Seq<char> {
    spec_path_join(spec_bundle_dir(root), "root"@)
}

/// The native-library directory of the bundle layout.
pub open spec fn spec_bundle_lib_dir(root: Seq<char>) -> Seq<char> {
    spec_path_join(spec_bundle_dir(root), "lib"@)
}

/// The assets directory of the bundle layout.
pub open spec fn spec_bundle_assets_dir(root: Seq<char>) -> Seq<char> {
    spec_path_join(spec_bundle_dir(root), "assets"@)
}

/// The manifest's place inside the bundle layout.
pub open spec fn spec_bundle_manifest_file(root: Seq<char>) -> Seq<char> {
    spec_path_join(spec_bundle_manifest_dir(root), "AndroidManifest.xml"@)
}

/// The repackaged module archive.
pub open spec fn spec_bundle_zip(root: Seq<char>) -> Seq<char> {
    spec_path_join(spec_bundle_dir(root), "bundle.zip"@)
}

/// Every path of the staging area, computed once from the root.
#[derive(Clone, Debug)]
pub struct StagingLayout {
    pub root: String,
    pub tools_dir: String,
    pub apk_tool: String,
    pub bundle_tool: String,
    pub unpacked_dir: String,
    pub unpacked_res_dir: String,
    pub unpacked_manifest: String,
    pub unpacked_lib_dir: String,
    pub unpacked_assets_dir: String,
    pub unpacked_unknown_dir: String,
    pub unpacked_kotlin_dir: String,
    pub res_zip: String,
    pub base_zip: String,
    pub bundle_dir: String,
    pub bundle_dex_dir: String,
    pub bundle_manifest_dir: String,
    pub bundle_root_dir: String,
    pub bundle_lib_dir: String,
    pub bundle_assets_dir: String,
    pub bundle_manifest_file: String,
    pub bundle_zip: String,
}

impl StagingLayout {
    /// Every field stands exactly where the layout puts it under the root.
    pub open spec fn wf(&self) -> bool {
        let root = self.root@;
        &&& self.tools_dir@ == spec_tools_dir(root)
        &&& self.apk_tool@ == spec_apk_tool_path(root)
        &&& self.bundle_tool@ == spec_bundle_tool_path(root)
        &&& self.unpacked_dir@ == spec_unpacked_dir(root)
        &&& self.unpacked_res_dir@ == spec_unpacked_res_dir(root)
        &&& self.unpacked_manifest@ == spec_unpacked_manifest(root)
        &&& self.unpacked_lib_dir@ == spec_unpacked_lib_dir(root)
        &&& self.unpacked_assets_dir@ == spec_unpacked_assets_dir(root)
        &&& self.unpacked_unknown_dir@ == spec_unpacked_unknown_dir(root)
        &&& self.unpacked_kotlin_dir@ == spec_unpacked_kotlin_dir(root)
        &&& self.res_zip@ == spec_res_zip(root)
        &&& self.base_zip@ == spec_base_zip(root)
        &&& self.bundle_dir@ == spec_bundle_dir(root)
        &&& self.bundle_dex_dir@ == spec_bundle_dex_dir(root)
        &&& self.bundle_manifest_dir@ == spec_bundle_manifest_dir(root)
        &&& self.bundle_root_dir@ == spec_bundle_root_dir(root)
        &&& self.bundle_lib_dir@ == spec_bundle_lib_dir(root)
        &&& self.bundle_assets_dir@ == spec_bundle_assets_dir(root)
        &&& self.bundle_manifest_file@ == spec_bundle_manifest_file(root)
        &&& self.bundle_zip@ == spec_bundle_zip(root)
    }

    /// Lay the staging area out under a root directory.
    pub fn new(root: &str) -> (r: StagingLayout)
        ensures
            r.wf(),
            r.root@ == root@,
    {
        let tools_dir = path_join(root, "tools");
        let apk_tool = path_join(tools_dir.as_str(), "apktool-2.8.1.jar");
        let bundle_tool = path_join(tools_dir.as_str(), "bundletool-1.15.4.jar");
        let unpacked_dir = path_join(root, "unpacked-apk");
        let unpacked_res_dir = path_join(unpacked_dir.as_str(), "res");
        let unpacked_manifest = path_join(unpacked_dir.as_str(), "AndroidManifest.xml");
        let unpacked_lib_dir = path_join(unpacked_dir.as_str(), "lib");
        let unpacked_assets_dir = path_join(unpacked_dir.as_str(), "assets");
        let unpacked_unknown_dir = path_join(unpacked_dir.as_str(), "unknown");
        let unpacked_kotlin_dir = path_join(unpacked_dir.as_str(), "kotlin");
        let res_zip = path_join(root, "res.zip");
        let base_zip = path_join(root, "base.zip");
        let bundle_dir = path_join(root, "bundle");
        let bundle_dex_dir = path_join(bundle_dir.as_str(), "dex");
        let bundle_manifest_dir = path_join(bundle_dir.as_str(), "manifest");
        let bundle_root_dir = path_join(bundle_dir.as_str(), "root");
        let bundle_lib_dir = path_join(bundle_dir.as_str(), "lib");
        let bundle_assets_dir = path_join(bundle_dir.as_str(), "assets");
        let bundle_manifest_file = path_join(bundle_manifest_dir.as_str(), "AndroidManifest.xml");
        let bundle_zip = path_join(bundle_dir.as_str(), "bundle.zip");
        StagingLayout {
            root: String::from_str(root),
            tools_dir,
            apk_tool,
            bundle_tool,
            unpacked_dir,
            unpacked_res_dir,
            unpacked_manifest,
            unpacked_lib_dir,
            unpacked_assets_dir,
            unpacked_unknown_dir,
            unpacked_kotlin_dir,
            res_zip,
            base_zip,
            bundle_dir,
            bundle_dex_dir,
            bundle_manifest_dir,
            bundle_root_dir,
            bundle_lib_dir,
            bundle_assets_dir,
            bundle_manifest_file,
            bundle_zip,
        }
    }
}

/// The input package's file name: the configured package name, or `app`.
pub open spec fn spec_apk_file_name(apk_name: Option<Seq<char>>) -> Seq<char> {
    match apk_name {
        Some(name) => name + ".apk"@,
        None => "app.apk"@,
    }
}

/// The input package's file name: the configured package name, or `app`.
pub fn apk_file_name(apk_name: &Option<String>) -> (r: String)
    ensures
        r@ == spec_apk_file_name(apk_name.deep_view()),
{
    match apk_name {
        Some(name) => name.clone().concat(".apk"),
        None => String::from_str("app.apk"),
    }
}

/// The bundle container's name before signing: the configured package name,
/// or `bundle`.
pub open spec fn spec_unsigned_bundle_name(apk_name: Option<Seq<char>>) -> Seq<char> {
    match apk_name {
        Some(name) => name + "-unsigned.aab"@,
        None => "bundle-unsigned.aab"@,
    }
}

/// The bundle container's name before signing: the configured package name,
/// or `bundle`.
pub fn unsigned_bundle_name(apk_name: &Option<String>) -> (r: String)
    ensures
        r@ == spec_unsigned_bundle_name(apk_name.deep_view()),
{
    match apk_name {
        Some(name) => name.clone().concat("-unsigned.aab"),
        None => String::from_str("bundle-unsigned.aab"),
    }
}

/// The signed bundle's name: the configured package name, or `bundle`.
pub open spec fn spec_signed_bundle_name(apk_name: Option<Seq<char>>) -> Seq<char> {
    match apk_name {
        Some(name) => name + ".aab"@,
        None => "bundle.aab"@,
    }
}

/// The signed bundle's name: the configured package name, or `bundle`.
pub fn signed_bundle_name(apk_name: &Option<String>) -> (r: String)
    ensures
        r@ == spec_signed_bundle_name(apk_name.deep_view()),
{
    match apk_name {
        Some(name) => name.clone().concat(".aab"),
        None => String::from_str("bundle.aab"),
    }
}

/// The per-profile build directories: `<target>/<profile>/apk` for the
/// installable package and `<target>/<profile>/aab` for the bundle staging
/// root.
pub open spec fn spec_profile_base_dir(target_dir: Seq<char>, profile_name: Seq<char>) -> Seq<
    char,
> {
    spec_path_join(target_dir, profile_name)
}

/// Where the installable packages of a profile are built.
pub open spec fn spec_apk_build_dir(target_dir: Seq<char>, profile_name: Seq<char>) -> Seq<char> {
    spec_path_join(spec_profile_base_dir(target_dir, profile_name), "apk"@)
}

/// The bundle staging root of a profile.
pub open spec fn spec_aab_build_dir(target_dir: Seq<char>, profile_name: Seq<char>) -> Seq<char> {
    spec_path_join(spec_profile_base_dir(target_dir, profile_name), "aab"@)
}

/// The two per-profile build directories under the target directory.
pub fn build_dirs(target_dir: &str, profile_name: &str) -> (r: (String, String))
    ensures
        r.0@ == spec_apk_build_dir(target_dir@, profile_name@),
        r.1@ == spec_aab_build_dir(target_dir@, profile_name@),
{
    let base = path_join(target_dir, profile_name);
    let apk_dir = path_join(base.as_str(), "apk");
    let aab_dir = path_join(base.as_str(), "aab");
    (apk_dir, aab_dir)
}

} // verus!
