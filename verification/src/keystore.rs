//! Resolution of the signing credential for a build profile.
//!
//! Sources are consulted in a fixed order: environment-variable overrides
//! first, then the project's per-profile signing entry, and — only when the
//! caller allows it — the auto-generated development keystore.  A release
//! profile with no explicit configuration fails; a key alias without its
//! password always fails.

use vstd::prelude::*;

use crate::error::{Error, ErrorView};
use crate::manifest::{find_signing, spec_find_signing, Signing, SigningEntry, SigningView};
use crate::text::{path_join, spec_path_join};

verus! {

/// The build profile a resolution is for: development, release, or a named
/// custom profile.
#[derive(Clone, Debug)]
pub enum BuildProfile {
    Dev,
    Release,
    Custom(String),
}

impl BuildProfile {
    /// Whether this is the development profile.
    pub open spec fn spec_is_dev(&self) -> bool {
        self is Dev
    }

    /// Whether this is the development profile.
    pub fn is_dev(&self) -> (r: bool)
        ensures
            r == self.spec_is_dev(),
    {
        match self {
            BuildProfile::Dev => true,
            _ => false,
        }
    }
}

/// The profile's name as it appears in configuration keys.
pub open spec fn spec_profile_name(profile: BuildProfile) -> Seq<char> {
    match profile {
        BuildProfile::Dev => "dev"@,
        BuildProfile::Release => "release"@,
        BuildProfile::Custom(name) => name@,
    }
}

/// The profile's name as it appears in configuration keys.
pub fn profile_name(profile: &BuildProfile) -> (r: String)
    ensures
        r@ == spec_profile_name(*profile),
{
    match profile {
        BuildProfile::Dev => String::from_str("dev"),
        BuildProfile::Release => String::from_str("release"),
        BuildProfile::Custom(name) => name.clone(),
    }
}

/// What `str::to_uppercase` returns; it depends on the characters alone.
pub uninterp spec fn upper_of(s: Seq<char>) -> Seq<char>;

/// Relies on `str::to_uppercase`: the Unicode upper-case form of the text,
/// a function of the characters alone.
#[verifier::external_body]
fn to_upper(s: &str) -> (r: String)
    ensures
        r@ == upper_of(s@),
{
    s.to_uppercase()
}

/// Every `-` replaced by `_`, character for character.
pub open spec fn spec_hyphens_to_underscores(s: Seq<char>) -> Seq<char> {
    s.map_values(
        |c: char|
            if c == '-' {
                '_'
            } else {
                c
            },
    )
}

/// Relies on `str::replace` with a single-character pattern and a
/// single-character replacement: each `-` becomes `_`, all else unchanged.
#[verifier::external_body]
fn hyphens_to_underscores(s: &str) -> (r: String)
    ensures
        r@ == spec_hyphens_to_underscores(s@),
{
    s.replace('-', "_")
}

/// The profile name as it appears in environment-variable names and in the
/// missing-key error: upper-cased, with `-` turned into `_`.
pub open spec fn spec_normalized_profile_name(profile: BuildProfile) -> Seq<char> {
    spec_hyphens_to_underscores(upper_of(spec_profile_name(profile)))
}

/// The profile name as it appears in environment-variable names and in the
/// missing-key error: upper-cased, with `-` turned into `_`.
pub fn normalized_profile_name(profile: &BuildProfile) -> (r: String)
    ensures
        r@ == spec_normalized_profile_name(*profile),
{
    let name = profile_name(profile);
    let upper = to_upper(name.as_str());
    hyphens_to_underscores(upper.as_str())
}

/// The four environment variables that can override signing for a profile.
#[derive(Clone, Debug)]
pub struct EnvVarNames {
    pub store_path: String,
    pub store_password: String,
    pub key_alias: String,
    pub key_password: String,
}

/// The name of one override variable: the fixed prefix, the normalized
/// profile name, and the field suffix.
pub open spec fn spec_env_var_name(profile: BuildProfile, suffix: Seq<char>) -> Seq<char> {
    "CARGO_ANDROID_"@ + spec_normalized_profile_name(profile) + suffix
}

/// One override variable's name, built from the normalized profile name.
fn env_var_name(norm: &String, profile: Ghost<BuildProfile>, suffix: &str) -> (r: String)
    requires
        norm@ == spec_normalized_profile_name(profile@),
    ensures
        r@ == spec_env_var_name(profile@, suffix@),
{
    String::from_str("CARGO_ANDROID_").concat(norm.as_str()).concat(suffix)
}

/// The names of the four override variables for a profile.
pub fn env_var_names(profile: &BuildProfile) -> (r: EnvVarNames)
    ensures
        r.store_path@ == spec_env_var_name(*profile, "_STORE_PATH"@),
        r.store_password@ == spec_env_var_name(*profile, "_STORE_PASSWORD"@),
        r.key_alias@ == spec_env_var_name(*profile, "_KEY_ALIAS"@),
        r.key_password@ == spec_env_var_name(*profile, "_KEY_PASSWORD"@),
{
    let norm = normalized_profile_name(profile);
    EnvVarNames {
        store_path: env_var_name(&norm, Ghost(*profile), "_STORE_PATH"),
        store_password: env_var_name(&norm, Ghost(*profile), "_STORE_PASSWORD"),
        key_alias: env_var_name(&norm, Ghost(*profile), "_KEY_ALIAS"),
        key_password: env_var_name(&norm, Ghost(*profile), "_KEY_PASSWORD"),
    }
}

/// The values of the four override variables, as found in the environment.
#[derive(Clone, Debug)]
pub struct EnvOverrides {
    pub store_path: Option<String>,
    pub store_password: Option<String>,
    pub key_alias: Option<String>,
    pub key_password: Option<String>,
}

/// The mathematical shape of the override values.
pub ghost struct EnvOverridesView {
    pub store_path: Option<Seq<char>>,
    pub store_password: Option<Seq<char>>,
    pub key_alias: Option<Seq<char>>,
    pub key_password: Option<Seq<char>>,
}

impl View for EnvOverrides {
    type V = EnvOverridesView;

    open spec fn view(&self) -> EnvOverridesView {
        EnvOverridesView {
            store_path: self.store_path.deep_view(),
            store_password: self.store_password.deep_view(),
            key_alias: self.key_alias.deep_view(),
            key_password: self.key_password.deep_view(),
        }
    }
}

/// A resolved signing credential: the keystore path, its store password,
/// and an optional key alias with its password.  Produced fresh for one
/// signing invocation and never stored.
#[derive(Clone, Debug)]
pub struct KeystoreCredential {
    pub path: String,
    pub store_password: String,
    pub alias: Option<String>,
    pub key_password: Option<String>,
}

/// The mathematical shape of a [`KeystoreCredential`].
pub ghost struct KeystoreCredentialView {
    pub path: Seq<char>,
    pub store_password: Seq<char>,
    pub alias: Option<Seq<char>>,
    pub key_password: Option<Seq<char>>,
}

impl View for KeystoreCredential {
    type V = KeystoreCredentialView;

    open spec fn view(&self) -> KeystoreCredentialView {
        KeystoreCredentialView {
            path: self.path@,
            store_password: self.store_password@,
            alias: self.alias.deep_view(),
            key_password: self.key_password.deep_view(),
        }
    }
}

/// How a resolution succeeded: with an explicit credential (and possibly a
/// warning that the fixed development password stood in for a missing store
/// password), or with a request for the toolchain's auto-generated debug
/// keystore, which the caller obtains itself.
#[derive(Clone, Debug)]
pub enum Resolution {
    Credential { key: KeystoreCredential, default_password_warning: bool },
    DebugKey,
}

/// The mathematical shape of a [`Resolution`].
pub ghost enum ResolutionView {
    Credential { key: KeystoreCredentialView, default_password_warning: bool },
    DebugKey,
}

impl View for Resolution {
    type V = ResolutionView;

    open spec fn view(&self) -> ResolutionView {
        match self {
            Resolution::Credential { key, default_password_warning } => ResolutionView::Credential {
                key: key@,
                default_password_warning: *default_password_warning,
            },
            Resolution::DebugKey => ResolutionView::DebugKey,
        }
    }
}

/// The fixed, well-known password of development keystores.
pub open spec fn spec_default_dev_password() -> Seq<char> {
    "android"@
}

/// Relies on `ndk_build::ndk::DEFAULT_DEV_KEYSTORE_PASSWORD`: the fixed
/// password used for development keystores.
#[verifier::external_body]
fn default_dev_keystore_password() -> (r: String)
    ensures
        r@ == spec_default_dev_password(),
{
    ndk_build::ndk::DEFAULT_DEV_KEYSTORE_PASSWORD.to_owned()
}

/// What resolution yields, given the override values, the profile's project
/// signing entry (if any), the project root, and whether the development
/// fallback is allowed.  An `Err` carries the normalized profile name of a
/// missing-release-key failure.
///
/// Overrides win outright: when a store path is set in the environment the
/// project entry is never consulted.  A store path without a store password
/// is allowed only under the development fallback, which substitutes the
/// fixed development password with a warning.  From either source, a key
/// alias demands a key password.  With no source at all, the development
/// fallback requests the auto-generated debug keystore.
pub open spec fn spec_resolve(
    profile: BuildProfile,
    env: EnvOverridesView,
    project: Option<SigningView>,
    project_root: Seq<char>,
    allow_debug_fallback: bool,
) -> Result<ResolutionView, Seq<char>> {
    let norm = spec_normalized_profile_name(profile);
    match env.store_path {
        Some(path) => {
            if env.store_password is None && !allow_debug_fallback {
                Err(norm)
            } else {
                let store_password = match env.store_password {
                    Some(pw) => pw,
                    None => spec_default_dev_password(),
                };
                let warned = env.store_password is None;
                match env.key_alias {
                    Some(alias) => match env.key_password {
                        Some(kp) => Ok(
                            ResolutionView::Credential {
                                key: KeystoreCredentialView {
                                    path,
                                    store_password,
                                    alias: Some(alias),
                                    key_password: Some(kp),
                                },
                                default_password_warning: warned,
                            },
                        ),
                        None => Err(norm),
                    },
                    None => Ok(
                        ResolutionView::Credential {
                            key: KeystoreCredentialView {
                                path,
                                store_password,
                                alias: None,
                                key_password: None,
                            },
                            default_password_warning: warned,
                        },
                    ),
                }
            }
        },
        None => match project {
            Some(signing) => {
                let path = spec_path_join(project_root, signing.store_path);
                match signing.key_alias {
                    Some(alias) => match signing.key_password {
                        Some(kp) => Ok(
                            ResolutionView::Credential {
                                key: KeystoreCredentialView {
                                    path,
                                    store_password: signing.store_password,
                                    alias: Some(alias),
                                    key_password: Some(kp),
                                },
                                default_password_warning: false,
                            },
                        ),
                        None => Err(norm),
                    },
                    None => Ok(
                        ResolutionView::Credential {
                            key: KeystoreCredentialView {
                                path,
                                store_password: signing.store_password,
                                alias: None,
                                key_password: None,
                            },
                            default_password_warning: false,
                        },
                    ),
                }
            },
            None => if allow_debug_fallback {
                Ok(ResolutionView::DebugKey)
            } else {
                Err(norm)
            },
        },
    }
}

/// Resolve the signing credential for a profile.  The override values and
/// the project's signing entries are handed in as read; the lookup of the
/// profile's entry, the precedence between the sources, and every validity
/// rule are decided here.
pub fn resolve(
    profile: &BuildProfile,
    env: &EnvOverrides,
    entries: &Vec<SigningEntry>,
    project_root: &str,
    allow_debug_fallback: bool,
) -> (r: Result<Resolution, Error>)
    ensures
        ({
            let s = spec_resolve(
                *profile,
                env@,
                spec_find_signing(entries@, spec_profile_name(*profile)),
                project_root@,
                allow_debug_fallback,
            );
            match r {
                Ok(res) => s == Ok::<ResolutionView, Seq<char>>(res@),
                Err(e) => e@ matches ErrorView::MissingReleaseKey(n) && s == Err::<
                    ResolutionView,
                    Seq<char>,
                >(n),
            }
        }),
{
    let name = profile_name(profile);
    let norm = normalized_profile_name(profile);
    if let Some(store_path) = &env.store_path {
        let (store_password, warned): (String, bool) = match &env.store_password {
            Some(pw) => (pw.clone(), false),
            None => {
                if allow_debug_fallback {
                    (default_dev_keystore_password(), true)
                } else {
                    return Err(Error::MissingReleaseKey(norm));
                }
            },
        };
        match &env.key_alias {
            Some(alias) => match &env.key_password {
                Some(kp) => Ok(
                    Resolution::Credential {
                        key: KeystoreCredential {
                            path: store_path.clone(),
                            store_password,
                            alias: Some(alias.clone()),
                            key_password: Some(kp.clone()),
                        },
                        default_password_warning: warned,
                    },
                ),
                None => Err(Error::MissingReleaseKey(norm)),
            },
            None => Ok(
                Resolution::Credential {
                    key: KeystoreCredential {
                        path: store_path.clone(),
                        store_password,
                        alias: None,
                        key_password: None,
                    },
                    default_password_warning: warned,
                },
            ),
        }
    } else {
        match find_signing(entries, &name) {
            Some(signing) => {
                let path = path_join(project_root, signing.store_path.as_str());
                match &signing.key_alias {
                    Some(alias) => match &signing.key_password {
                        Some(kp) => Ok(
                            Resolution::Credential {
                                key: KeystoreCredential {
                                    path,
                                    store_password: signing.store_password.clone(),
                                    alias: Some(alias.clone()),
                                    key_password: Some(kp.clone()),
                                },
                                default_password_warning: false,
                            },
                        ),
                        None => Err(Error::MissingReleaseKey(norm)),
                    },
                    None => Ok(
                        Resolution::Credential {
                            key: KeystoreCredential {
                                path,
                                store_password: signing.store_password.clone(),
                                alias: None,
                                key_password: None,
                            },
                            default_password_warning: false,
                        },
                    ),
                }
            },
            None => {
                if allow_debug_fallback {
                    Ok(Resolution::DebugKey)
                } else {
                    Err(Error::MissingReleaseKey(norm))
                }
            },
        }
    }
}

/// With both a store path and a store password set in the environment,
/// resolution is the same whatever the project configuration holds — the
/// project entry is never consulted — and, as long as the alias rule is
/// satisfied, it succeeds.
pub proof fn lemma_env_override_wins(
    profile: BuildProfile,
    env: EnvOverridesView,
    project_a: Option<SigningView>,
    project_b: Option<SigningView>,
    project_root: Seq<char>,
    allow_debug_fallback: bool,
)
    requires
        env.store_path is Some,
        env.store_password is Some,
    ensures
        spec_resolve(profile, env, project_a, project_root, allow_debug_fallback) == spec_resolve(
            profile,
            env,
            project_b,
            project_root,
            allow_debug_fallback,
        ),
        (env.key_alias is Some ==> env.key_password is Some) ==> spec_resolve(
            profile,
            env,
            project_a,
            project_root,
            allow_debug_fallback,
        ) is Ok,
{
}

/// For any profile other than the development one — so the development
/// fallback is off — resolution with no environment override and no project
/// signing entry fails with the missing-release-key error naming the
/// profile.
pub proof fn lemma_release_without_configuration_fails(
    profile: BuildProfile,
    env: EnvOverridesView,
    project_root: Seq<char>,
)
    requires
        !profile.spec_is_dev(),
        env.store_path is None,
    ensures
        spec_resolve(profile, env, None, project_root, profile.spec_is_dev()) == Err::<
            ResolutionView,
            Seq<char>,
        >(spec_normalized_profile_name(profile)),
{
}

/// For the development profile, resolution with no environment override and
/// no project signing entry succeeds by requesting the auto-generated debug
/// keystore.
pub proof fn lemma_dev_falls_back_to_debug_key(
    profile: BuildProfile,
    env: EnvOverridesView,
    project_root: Seq<char>,
)
    requires
        profile.spec_is_dev(),
        env.store_path is None,
    ensures
        spec_resolve(profile, env, None, project_root, profile.spec_is_dev()) == Ok::<
            ResolutionView,
            Seq<char>,
        >(ResolutionView::DebugKey),
{
}

/// A key alias configured without a matching key password fails resolution,
/// from either source; it never proceeds with an empty password.
pub proof fn lemma_alias_requires_password(
    profile: BuildProfile,
    env: EnvOverridesView,
    project: Option<SigningView>,
    project_root: Seq<char>,
    allow_debug_fallback: bool,
)
    requires
        ({
            ||| (env.store_path is Some && env.key_alias is Some && env.key_password is None)
            ||| (env.store_path is None && (project matches Some(s) && s.key_alias is Some
                && s.key_password is None))
        }),
    ensures
        spec_resolve(profile, env, project, project_root, allow_debug_fallback) == Err::<
            ResolutionView,
            Seq<char>,
        >(spec_normalized_profile_name(profile)),
{
}

/// With the development fallback off — as when the bundle pipeline signs —
/// resolution never answers with the auto-generated debug keystore.
pub proof fn lemma_no_debug_key_without_fallback(
    profile: BuildProfile,
    env: EnvOverridesView,
    project: Option<SigningView>,
    project_root: Seq<char>,
)
    ensures
        spec_resolve(profile, env, project, project_root, false) != Ok::<
            ResolutionView,
            Seq<char>,
        >(ResolutionView::DebugKey),
{
}

/// Resolve as the package builder does: the development fallback is allowed
/// exactly for the development profile.
pub fn resolve_for_profile(
    profile: &BuildProfile,
    env: &EnvOverrides,
    entries: &Vec<SigningEntry>,
    project_root: &str,
) -> (r: Result<Resolution, Error>)
    ensures
        ({
            let s = spec_resolve(
                *profile,
                env@,
                spec_find_signing(entries@, spec_profile_name(*profile)),
                project_root@,
                profile.spec_is_dev(),
            );
            match r {
                Ok(res) => s == Ok::<ResolutionView, Seq<char>>(res@),
                Err(e) => e@ matches ErrorView::MissingReleaseKey(n) && s == Err::<
                    ResolutionView,
                    Seq<char>,
                >(n),
            }
        }),
{
    let allow = profile.is_dev();
    resolve(profile, env, entries, project_root, allow)
}

} // verus!
