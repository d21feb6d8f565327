//! The slice of project configuration the library works from: the package
//! version (possibly inherited from the workspace), the bundle naming and
//! SDK settings, and the per-profile signing entries.

use vstd::prelude::*;

use crate::error::{Error, ErrorView};

verus! {

/// A manifest field that either carries its value or defers to the
/// workspace manifest.
#[derive(Clone, Debug)]
pub enum Inheritable<T> {
    Value(T),
    Inherited { workspace: bool },
}

/// A signing entry as declared in project configuration for one profile:
/// a keystore path relative to the project root, the store password, and an
/// optional key alias with its password.
#[derive(Clone, Debug)]
pub struct Signing {
    pub store_path: String,
    pub store_password: String,
    pub key_alias: Option<String>,
    pub key_password: Option<String>,
}

/// The mathematical shape of a [`Signing`] entry.
pub ghost struct SigningView {
    pub store_path: Seq<char>,
    pub store_password: Seq<char>,
    pub key_alias: Option<Seq<char>>,
    pub key_password: Option<Seq<char>>,
}

impl View for Signing {
    type V = SigningView;

    open spec fn view(&self) -> SigningView {
        SigningView {
            store_path: self.store_path@,
            store_password: self.store_password@,
            key_alias: self.key_alias.deep_view(),
            key_password: self.key_password.deep_view(),
        }
    }
}

/// One profile's signing entry; the project's signing map is a list of
/// these with pairwise distinct profile names.
#[derive(Clone, Debug)]
pub struct SigningEntry {
    pub profile: String,
    pub signing: Signing,
}

/// The first signing entry declared for the named profile, if any.
pub open spec fn spec_find_signing(entries: Seq<SigningEntry>, name: Seq<char>) -> Option<
    SigningView,
>
    decreases entries.len(),
{
    if entries.len() == 0 {
        None
    } else if entries[0].profile@ == name {
        Some(entries[0].signing@)
    } else {
        spec_find_signing(entries.drop_first(), name)
    }
}

/// Dropping a non-matching head leaves the lookup unchanged.
proof fn lemma_find_signing_skip(entries: Seq<SigningEntry>, name: Seq<char>, i: int)
    requires
        0 <= i < entries.len(),
        entries[i].profile@ != name,
        spec_find_signing(entries, name) == spec_find_signing(entries.skip(i), name),
    ensures
        spec_find_signing(entries, name) == spec_find_signing(entries.skip(i + 1), name),
{
    assert(entries.skip(i).drop_first() =~= entries.skip(i + 1));
    assert(entries.skip(i)[0] == entries[i]);
}

/// Look the named profile up in the project's signing entries.
pub fn find_signing<'a>(entries: &'a Vec<SigningEntry>, name: &String) -> (r: Option<&'a Signing>)
    ensures
        match r {
            Some(s) => spec_find_signing(entries@, name@) == Some(s@),
            None => spec_find_signing(entries@, name@) is None,
        },
{
    let mut i: usize = 0;
    assert(entries@.skip(0) =~= entries@);
    while i < entries.len()
        invariant
            i <= entries@.len(),
            spec_find_signing(entries@, name@) == spec_find_signing(
                entries@.skip(i as int),
                name@,
            ),
        decreases entries@.len() - i,
    {
        assert(entries@.skip(i as int)[0] == entries@[i as int]);
        let entry = &entries[i];
        if entry.profile == *name {
            return Some(&entry.signing);
        }
        proof {
            lemma_find_signing_skip(entries@, name@, i as int);
        }
        i = i + 1;
    }
    assert(entries@.skip(i as int) =~= Seq::<SigningEntry>::empty());
    None
}

/// The `[workspace.package]` table of a workspace manifest: the root values
/// a member package may inherit.
#[derive(Clone, Debug)]
pub struct WorkspacePackage {
    pub version: Option<String>,
}

/// The `[workspace]` table of a workspace manifest.
#[derive(Clone, Debug)]
pub struct Workspace {
    pub package: Option<WorkspacePackage>,
}

/// What version a package declaration settles on: its own value, or the
/// workspace's, with each missing link along that path its own failure.
pub open spec fn spec_resolve_package_version(
    version: Inheritable<String>,
    workspace: Option<Workspace>,
) -> Result<Seq<char>, ErrorView> {
    match version {
        Inheritable::Value(v) => Ok(v@),
        Inheritable::Inherited { workspace: false } => Err(ErrorView::InheritedFalse),
        Inheritable::Inherited { workspace: true } => match workspace {
            None => Err(ErrorView::InheritanceMissingWorkspace),
            Some(ws) => match ws.package {
                None => Err(ErrorView::WorkspaceMissingInheritedField("package"@)),
                Some(pkg) => match pkg.version {
                    None => Err(ErrorView::WorkspaceMissingInheritedField("package.version"@)),
                    Some(v) => Ok(v@),
                },
            },
        },
    }
}

/// Resolve the package version, following workspace inheritance.
pub fn resolve_package_version(version: &Inheritable<String>, workspace: &Option<Workspace>) -> (r:
    Result<String, Error>)
    ensures
        match r {
            Ok(v) => spec_resolve_package_version(*version, *workspace) == Ok::<
                Seq<char>,
                ErrorView,
            >(v@),
            Err(e) => spec_resolve_package_version(*version, *workspace) == Err::<
                Seq<char>,
                ErrorView,
            >(e@),
        },
{
    match version {
        Inheritable::Value(v) => Ok(v.clone()),
        Inheritable::Inherited { workspace: false } => Err(Error::InheritedFalse),
        Inheritable::Inherited { workspace: true } => match workspace {
            None => Err(Error::InheritanceMissingWorkspace),
            Some(ws) => match &ws.package {
                None => Err(Error::WorkspaceMissingInheritedField(String::from_str("package"))),
                Some(pkg) => match &pkg.version {
                    None => Err(
                        Error::WorkspaceMissingInheritedField(
                            String::from_str("package.version"),
                        ),
                    ),
                    Some(v) => Ok(v.clone()),
                },
            },
        },
    }
}

/// The settings of the project manifest that drive bundle assembly.  A
/// missing `apk_name` falls back to fixed artifact names; missing SDK and
/// version fields fall back to the linker's defaults.
#[derive(Clone, Debug)]
pub struct BundleConfig {
    pub apk_name: Option<String>,
    pub version_name: Option<String>,
    pub version_code: Option<u32>,
    pub min_sdk_version: Option<u32>,
    pub target_sdk_version: Option<u32>,
    pub signing: Vec<SigningEntry>,
}

/// The `minSdkVersion` handed to compiler target selection: the declared
/// value, defaulted and clamped so it never falls below 23.
pub fn min_sdk_version(declared: &Option<u32>) -> (r: u32)
    ensures
        r == spec_min_sdk_version(*declared),
{
    let base = match declared {
        Some(v) => *v,
        None => 23,
    };
    if base < 23 {
        23
    } else {
        base
    }
}

/// The declared minimum SDK, defaulted to 23 and clamped to at least 23.
pub open spec fn spec_min_sdk_version(declared: Option<u32>) -> u32 {
    let base = match declared {
        Some(v) => v,
        None => 23u32,
    };
    if base < 23 {
        23u32
    } else {
        base
    }
}

} // verus!
