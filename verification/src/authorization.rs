//! Runtime authorization options passed to the ABI, and their consistency
//! with what the trusted environment already configures.

use vstd::prelude::*;
use crate::status::{AbiFailure, CuaDriverStatus};
use crate::text::{join_message, message};
use crate::envflag::{environment_flag, flag_text_enabled};
use crate::abi::invalid_argument;

verus! {

/// A permission mode as the ABI sees it: its stable name, and whether it is
/// the unrestricted mode.
#[derive(Debug)]
pub struct PermissionMode {
    name: String,
    unrestricted: bool,
}

impl PermissionMode {
    pub closed spec fn spec_name(&self) -> Seq<char> {
        self.name@
    }

    pub closed spec fn spec_unrestricted(&self) -> bool {
        self.unrestricted
    }

    pub fn new(name: String, unrestricted: bool) -> (mode: PermissionMode)
        ensures
            mode.spec_name() == name@,
            mode.spec_unrestricted() == unrestricted,
    {
        PermissionMode { name, unrestricted }
    }

    /// The mode's stable name.
    pub fn as_str(&self) -> (name: &str)
        ensures
            name@ == self.spec_name(),
    {
        self.name.as_str()
    }

    pub fn is_unrestricted(&self) -> (b: bool)
        ensures
            b == self.spec_unrestricted(),
    {
        self.unrestricted
    }

    /// Two modes are the same mode when they have the same name.
    pub fn same_mode(&self, other: &PermissionMode) -> (b: bool)
        ensures
            b == (self.spec_name() == other.spec_name()),
    {
        self.name == other.name
    }
}

/// Whether two optional texts conflict: both present and different.
pub open spec fn texts_conflict(a: Option<String>, b: Option<String>) -> bool {
    a is Some && b is Some && a.unwrap()@ != b.unwrap()@
}

/// The path that a primary option and its deprecated alias select together:
/// the primary one when given, else the alias.
pub open spec fn aliased_path(primary: Option<String>, alias: Option<String>) -> Option<Seq<char>> {
    match primary {
        Some(p) => Some(p@),
        None => match alias {
            Some(a) => Some(a@),
            None => None,
        },
    }
}

fn option_text_differs(a: &Option<String>, b: &Option<String>) -> (differs: bool)
    ensures
        differs == texts_conflict(*a, *b),
{
    match (a, b) {
        (Some(x), Some(y)) => !(*x == *y),
        _ => false,
    }
}

fn choose_aliased<'a>(primary: &'a Option<String>, alias: &'a Option<String>) -> (path: Option<&'a str>)
    ensures
        match path {
            Some(p) => aliased_path(*primary, *alias) == Some(p@),
            None => aliased_path(*primary, *alias) is None,
        },
{
    match primary {
        Some(p) => Some(p.as_str()),
        None => match alias {
            Some(a) => Some(a.as_str()),
            None => None,
        },
    }
}

/// Explicit runtime authorization options.
#[derive(Debug)]
pub struct AbiRuntimeAuthorizationOptions {
    pub allowed_modes: Vec<PermissionMode>,
    pub compatibility_mode: PermissionMode,
    pub compatibility_capability_manifest_path: Option<String>,
    pub compatibility_bounded_manifest_path: Option<String>,
    pub unrestricted_acknowledged: bool,
    pub max_session_ttl_seconds: u64,
    pub max_idle_ttl_seconds: u64,
}

impl AbiRuntimeAuthorizationOptions {
    /// The two spellings of the compatibility manifest path disagree.
    pub open spec fn manifest_paths_conflict(&self) -> bool {
        texts_conflict(self.compatibility_capability_manifest_path, self.compatibility_bounded_manifest_path)
    }

    /// The compatibility manifest path selected by the options.
    pub open spec fn spec_manifest_path(&self) -> Option<Seq<char>> {
        aliased_path(self.compatibility_capability_manifest_path, self.compatibility_bounded_manifest_path)
    }

    /// Some allowed mode is the unrestricted mode.
    pub open spec fn allows_unrestricted(&self) -> bool {
        exists|i: int| 0 <= i < self.allowed_modes@.len() && #[trigger] self.allowed_modes@[i].spec_unrestricted()
    }

    /// The compatibility capability manifest path, which may also be given
    /// by its deprecated bounded-manifest alias; the two must agree.
    pub fn capability_manifest_path(&self) -> (res: Result<Option<&str>, AbiFailure>)
        ensures
            match res {
                Ok(path) => !self.manifest_paths_conflict() && match path {
                    Some(p) => self.spec_manifest_path() == Some(p@),
                    None => self.spec_manifest_path() is None,
                },
                Err(failure) => self.manifest_paths_conflict()
                    && failure.status == CuaDriverStatus::InvalidArgument
                    && failure.message@ == "compatibility capability manifest path conflicts with its deprecated bounded-manifest alias"@,
            },            (self.compatibility_capability_manifest_path is Some && self.compatibility_bounded_manifest_path is Some && self.compatibility_capability_manifest_path->Some_0@ != self.compatibility_bounded_manifest_path->Some_0@) ==> res is Err,
            res is Err ==> (self.compatibility_capability_manifest_path is Some && self.compatibility_bounded_manifest_path is Some && self.compatibility_capability_manifest_path->Some_0@ != self.compatibility_bounded_manifest_path->Some_0@),
            (self.compatibility_capability_manifest_path is Some && res is Ok) ==> (res->Ok_0 is Some && res->Ok_0->Some_0@ == self.compatibility_capability_manifest_path->Some_0@),
            (self.compatibility_capability_manifest_path is None && self.compatibility_bounded_manifest_path is Some) ==> (res is Ok && res->Ok_0 is Some && res->Ok_0->Some_0@ == self.compatibility_bounded_manifest_path->Some_0@),
            (self.compatibility_capability_manifest_path is None && self.compatibility_bounded_manifest_path is None) ==> (res is Ok && res->Ok_0 is None),
    {
        if option_text_differs(&self.compatibility_capability_manifest_path, &self.compatibility_bounded_manifest_path) {
            return Err(AbiFailure::new(
                CuaDriverStatus::InvalidArgument,
                message("compatibility capability manifest path conflicts with its deprecated bounded-manifest alias"),
            ));
        }
        Ok(choose_aliased(&self.compatibility_capability_manifest_path, &self.compatibility_bounded_manifest_path))
    }

    /// Whether some allowed mode is the unrestricted mode.
    pub fn contains_unrestricted(&self) -> (b: bool)
        ensures
            b == self.allows_unrestricted(),
    {
        let mut i: usize = 0;
        while i < self.allowed_modes.len()
            invariant
                i <= self.allowed_modes@.len(),
                forall|j: int| 0 <= j < i ==> !(#[trigger] self.allowed_modes@[j]).spec_unrestricted(),
            decreases self.allowed_modes@.len() - i,
        {
            if self.allowed_modes[i].is_unrestricted() {
                return true;
            }
            i = i + 1;
        }
        false
    }
}

/// Options of a trusted session created through the ABI.
#[derive(Debug)]
pub struct AbiTrustedSessionOptions {
    pub public_session: String,
    pub mode: PermissionMode,
    pub ttl_seconds: u64,
    pub idle_ttl_seconds: u64,
    pub capability_manifest_path: Option<String>,
    pub bounded_manifest_path: Option<String>,
    pub transport_session: Option<String>,
}

impl AbiTrustedSessionOptions {
    pub open spec fn manifest_paths_conflict(&self) -> bool {
        texts_conflict(self.capability_manifest_path, self.bounded_manifest_path)
    }

    pub open spec fn spec_manifest_path(&self) -> Option<Seq<char>> {
        aliased_path(self.capability_manifest_path, self.bounded_manifest_path)
    }

    /// The session's capability manifest path, which may also be given by
    /// its deprecated bounded-manifest alias; the two must agree.
    pub fn capability_manifest_path(&self) -> (res: Result<Option<&str>, AbiFailure>)
        ensures
            match res {
                Ok(path) => !self.manifest_paths_conflict() && match path {
                    Some(p) => self.spec_manifest_path() == Some(p@),
                    None => self.spec_manifest_path() is None,
                },
                Err(failure) => self.manifest_paths_conflict()
                    && failure.status == CuaDriverStatus::InvalidArgument
                    && failure.message@ == "capability manifest path conflicts with its deprecated bounded-manifest alias"@,
            },            (self.capability_manifest_path is Some && self.bounded_manifest_path is Some && self.capability_manifest_path->Some_0@ != self.bounded_manifest_path->Some_0@) ==> res is Err,
            res is Err ==> (self.capability_manifest_path is Some && self.bounded_manifest_path is Some && self.capability_manifest_path->Some_0@ != self.bounded_manifest_path->Some_0@),
            (self.capability_manifest_path is Some && res is Ok) ==> (res->Ok_0 is Some && res->Ok_0->Some_0@ == self.capability_manifest_path->Some_0@),
            (self.capability_manifest_path is None && self.bounded_manifest_path is Some) ==> (res is Ok && res->Ok_0 is Some && res->Ok_0->Some_0@ == self.bounded_manifest_path->Some_0@),
            (self.capability_manifest_path is None && self.bounded_manifest_path is None) ==> (res is Ok && res->Ok_0 is None),
    {
        if option_text_differs(&self.capability_manifest_path, &self.bounded_manifest_path) {
            return Err(AbiFailure::new(
                CuaDriverStatus::InvalidArgument,
                message("capability manifest path conflicts with its deprecated bounded-manifest alias"),
            ));
        }
        Ok(choose_aliased(&self.capability_manifest_path, &self.bounded_manifest_path))
    }
}

} // verus!

verus! {

/// What the trusted environment configures, as read by the ABI before it
/// accepts explicit authorization options.
#[derive(Debug)]
pub struct AuthorizationEnvironment {
    /// The outcome of checking the configured policy (its error text when invalid).
    pub configured_policy: Result<(), String>,
    /// Whether a compatibility permission mode, or the dangerous bypass, is set.
    pub compatibility_mode_configured: bool,
    /// The compatibility mode those settings select (its error text when invalid).
    pub configured_mode: Result<PermissionMode, String>,
    /// The switch that disables the unrestricted mode.
    pub disable_unrestricted: Option<String>,
    /// The capability manifest file named by the environment, as raw bytes.
    pub capability_manifest_file: Option<Vec<u8>>,
    /// The same file under its deprecated session-policy name.
    pub session_policy_file: Option<Vec<u8>>,
    /// The switch approving a capability manifest.
    pub capability_manifest_approved: Option<String>,
    /// The same switch under its deprecated session-policy name.
    pub session_policy_approved: Option<String>,
}

/// An optional switch value that reads as enabled.
pub open spec fn switch_on(value: Option<String>) -> bool {
    value matches Some(v) && flag_text_enabled(v@)
}

/// Two optional byte strings that are both present and differ.
pub open spec fn bytes_conflict(a: Option<Vec<u8>>, b: Option<Vec<u8>>) -> bool {
    a is Some && b is Some && a.unwrap()@ != b.unwrap()@
}

/// The manifest file the environment names, under either name.
pub open spec fn environment_manifest(env: AuthorizationEnvironment) -> Option<Seq<u8>> {
    match env.capability_manifest_file {
        Some(p) => Some(p@),
        None => match env.session_policy_file {
            Some(p) => Some(p@),
            None => None,
        },
    }
}

pub open spec fn mode_conflict_message(explicit: Seq<char>, trusted: Seq<char>) -> Seq<char> {
    "explicit compatibility mode '"@ + explicit + "' conflicts with trusted environment mode '"@
        + trusted + "'"@
}

/// The manifest paths left to compare once both are resolved: the
/// environment's file and the explicit path.
#[derive(Debug)]
pub enum ManifestCheck {
    Settled,
    Compare { environment: Vec<u8>, explicit: String },
}

/// The verdict on explicit authorization options against the environment:
/// the first conflict found (status and message), or the manifest paths
/// that remain to be compared once resolved on disk.
pub open spec fn authorization_sources_verdict(
    auth: AbiRuntimeAuthorizationOptions,
    env: AuthorizationEnvironment,
) -> Result<Option<(Seq<u8>, Seq<char>)>, (CuaDriverStatus, Seq<char>)> {
    let invalid = CuaDriverStatus::InvalidArgument;
    if env.configured_policy is Err {
        Err((invalid, "configured policy is invalid: "@ + env.configured_policy->Err_0@))
    } else if env.compatibility_mode_configured && env.configured_mode is Err {
        Err((invalid, "explicit runtime authorization conflicts with invalid compatibility environment: "@
            + env.configured_mode->Err_0@))
    } else if env.compatibility_mode_configured
        && env.configured_mode->Ok_0.spec_name() != auth.compatibility_mode.spec_name() {
        Err((invalid, mode_conflict_message(auth.compatibility_mode.spec_name(), env.configured_mode->Ok_0.spec_name())))
    } else if auth.allows_unrestricted() && switch_on(env.disable_unrestricted) {
        Err((invalid, "explicit runtime ceiling conflicts with managed configuration disabling unrestricted mode"@))
    } else if bytes_conflict(env.capability_manifest_file, env.session_policy_file) {
        Err((invalid, "capability manifest environment path conflicts with its deprecated session-policy alias"@))
    } else if environment_manifest(env) is Some {
        if auth.manifest_paths_conflict() {
            Err((invalid, "compatibility capability manifest path conflicts with its deprecated bounded-manifest alias"@))
        } else if auth.spec_manifest_path() is None {
            Err((invalid, "explicit runtime authorization conflicts with a compatibility capability-manifest environment value"@))
        } else {
            Ok(Some((environment_manifest(env).unwrap(), auth.spec_manifest_path().unwrap())))
        }
    } else if switch_on(env.capability_manifest_approved) || switch_on(env.session_policy_approved) {
        if auth.manifest_paths_conflict() {
            Err((invalid, "compatibility capability manifest path conflicts with its deprecated bounded-manifest alias"@))
        } else if auth.spec_manifest_path() is None {
            Err((invalid, "explicit runtime authorization conflicts with a compatibility capability-manifest approval"@))
        } else {
            Ok(None)
        }
    } else {
        Ok(None)
    }
}

fn bytes_equal(a: &[u8], b: &[u8]) -> (eq: bool)
    ensures
        eq == (a@ == b@),
{
    if a.len() != b.len() {
        return false;
    }
    let mut i: usize = 0;
    while i < a.len()
        invariant
            a@.len() == b@.len(),
            i <= a@.len(),
            forall|j: int| 0 <= j < i ==> a@[j] == b@[j],
        decreases a@.len() - i,
    {
        if a[i] != b[i] {
            return false;
        }
        i = i + 1;
    }
    assert(a@ =~= b@);
    true
}

fn optional_bytes_conflict(a: &Option<Vec<u8>>, b: &Option<Vec<u8>>) -> (c: bool)
    ensures
        c == bytes_conflict(*a, *b),
{
    match (a, b) {
        (Some(x), Some(y)) => !bytes_equal(x.as_slice(), y.as_slice()),
        _ => false,
    }
}

fn optional_switch(value: &Option<String>) -> (on: bool)
    ensures
        on == switch_on(*value),
{
    match value {
        Some(v) => environment_flag(Some(v.as_str())),
        None => false,
    }
}

/// Explicit authorization is refused (as an invalid argument) whenever it
/// conflicts with the environment: an invalid policy, a different or invalid
/// compatibility mode, an unrestricted ceiling the environment disables,
/// disagreeing manifest variables, or a manifest file or manifest approval
/// in the environment without an explicit manifest path. It is accepted when
/// none of these holds, and then names the environment's manifest file (if
/// any) together with the explicit path.
pub proof fn lemma_authorization_conflicts_refused(
    auth: AbiRuntimeAuthorizationOptions,
    env: AuthorizationEnvironment,
)
    ensures
        ({
            let verdict = authorization_sources_verdict(auth, env);
            &&& (verdict is Err ==> verdict->Err_0.0 == CuaDriverStatus::InvalidArgument)
            &&& (env.configured_policy is Err ==> verdict is Err)
            &&& ((env.compatibility_mode_configured && env.configured_mode is Err) ==> verdict is Err)
            &&& ((env.compatibility_mode_configured && env.configured_mode is Ok
                && env.configured_mode->Ok_0.spec_name() != auth.compatibility_mode.spec_name()) ==> verdict is Err)
            &&& ((auth.allows_unrestricted() && switch_on(env.disable_unrestricted)) ==> verdict is Err)
            &&& (bytes_conflict(env.capability_manifest_file, env.session_policy_file) ==> verdict is Err)
            &&& ((environment_manifest(env) is Some && auth.spec_manifest_path() is None) ==> verdict is Err)
            &&& ((environment_manifest(env) is Some && auth.manifest_paths_conflict()) ==> verdict is Err)
            &&& ((environment_manifest(env) is None
                && (switch_on(env.capability_manifest_approved) || switch_on(env.session_policy_approved))
                && auth.spec_manifest_path() is None) ==> verdict is Err)
            &&& (verdict matches Ok(Some((e, p))) ==> environment_manifest(env) == Some(e) && auth.spec_manifest_path() == Some(p))
            &&& (verdict matches Ok(None) ==> environment_manifest(env) is None)
            &&& ((env.configured_policy is Ok
                && !(env.compatibility_mode_configured && (env.configured_mode is Err
                    || env.configured_mode->Ok_0.spec_name() != auth.compatibility_mode.spec_name()))
                && !(auth.allows_unrestricted() && switch_on(env.disable_unrestricted))
                && !bytes_conflict(env.capability_manifest_file, env.session_policy_file)
                && !auth.manifest_paths_conflict()
                && (auth.spec_manifest_path() is Some || (environment_manifest(env) is None
                    && !switch_on(env.capability_manifest_approved) && !switch_on(env.session_policy_approved))))
                ==> verdict is Ok)
        }),
{
}

/// Checks explicit authorization options against what the trusted
/// environment configures. On success it returns the manifest paths that
/// still have to agree once resolved on disk.
pub fn validate_explicit_authorization_sources(
    authorization: &AbiRuntimeAuthorizationOptions,
    env: &AuthorizationEnvironment,
) -> (res: Result<ManifestCheck, AbiFailure>)
    ensures
        match res {
            Ok(ManifestCheck::Settled) => authorization_sources_verdict(*authorization, *env) == Ok::<Option<(Seq<u8>, Seq<char>)>, (CuaDriverStatus, Seq<char>)>(None),
            Ok(ManifestCheck::Compare { environment, explicit }) =>
                authorization_sources_verdict(*authorization, *env) == Ok::<Option<(Seq<u8>, Seq<char>)>, (CuaDriverStatus, Seq<char>)>(Some((environment@, explicit@))),
            Err(failure) => authorization_sources_verdict(*authorization, *env) == Err::<Option<(Seq<u8>, Seq<char>)>, (CuaDriverStatus, Seq<char>)>((failure.status, failure.message@)),
        },
        res matches Err(f) ==> f.status == CuaDriverStatus::InvalidArgument,
        env.configured_policy is Err ==> res is Err,
        (env.compatibility_mode_configured && env.configured_mode is Err) ==> res is Err,
        (env.compatibility_mode_configured && env.configured_mode is Ok
            && env.configured_mode->Ok_0.spec_name() != authorization.compatibility_mode.spec_name()) ==> res is Err,
        (authorization.allows_unrestricted() && switch_on(env.disable_unrestricted)) ==> res is Err,
        bytes_conflict(env.capability_manifest_file, env.session_policy_file) ==> res is Err,
        (environment_manifest(*env) is Some && authorization.spec_manifest_path() is None) ==> res is Err,
        (environment_manifest(*env) is None
            && (switch_on(env.capability_manifest_approved) || switch_on(env.session_policy_approved))
            && authorization.spec_manifest_path() is None) ==> res is Err,
        res matches Ok(ManifestCheck::Compare { environment, explicit }) ==>
            environment_manifest(*env) == Some(environment@) && authorization.spec_manifest_path() == Some(explicit@),
        res matches Ok(ManifestCheck::Settled) ==> environment_manifest(*env) is None,
{
    proof {
        lemma_authorization_conflicts_refused(*authorization, *env);
    }
    if let Err(error) = &env.configured_policy {
        return Err(invalid_argument(join_message("configured policy is invalid: ", error.as_str())));
    }
    if env.compatibility_mode_configured {
        match &env.configured_mode {
            Err(error) => {
                return Err(invalid_argument(join_message(
                    "explicit runtime authorization conflicts with invalid compatibility environment: ",
                    error.as_str(),
                )));
            },
            Ok(mode) => {
                if !mode.same_mode(&authorization.compatibility_mode) {
                    let text = join_message("explicit compatibility mode '", authorization.compatibility_mode.as_str());
                    let text = join_message(text.as_str(), "' conflicts with trusted environment mode '");
                    let text = join_message(text.as_str(), mode.as_str());
                    let text = join_message(text.as_str(), "'");
                    return Err(invalid_argument(text));
                }
            },
        }
    }
    if authorization.contains_unrestricted() && optional_switch(&env.disable_unrestricted) {
        return Err(invalid_argument(message(
            "explicit runtime ceiling conflicts with managed configuration disabling unrestricted mode",
        )));
    }
    if optional_bytes_conflict(&env.capability_manifest_file, &env.session_policy_file) {
        return Err(invalid_argument(message(
            "capability manifest environment path conflicts with its deprecated session-policy alias",
        )));
    }
    let environment_file: Option<&Vec<u8>> = match &env.capability_manifest_file {
        Some(p) => Some(p),
        None => match &env.session_policy_file {
            Some(p) => Some(p),
            None => None,
        },
    };
    match environment_file {
        Some(environment) => {
            match authorization.capability_manifest_path()? {
                None => Err(invalid_argument(message(
                    "explicit runtime authorization conflicts with a compatibility capability-manifest environment value",
                ))),
                Some(explicit) => Ok(ManifestCheck::Compare {
                    environment: environment.clone(),
                    explicit: explicit.to_owned(),
                }),
            }
        },
        None => {
            if optional_switch(&env.capability_manifest_approved) || optional_switch(&env.session_policy_approved) {
                if authorization.capability_manifest_path()?.is_none() {
                    return Err(invalid_argument(message(
                        "explicit runtime authorization conflicts with a compatibility capability-manifest approval",
                    )));
                }
            }
            Ok(ManifestCheck::Settled)
        },
    }
}

/// A manifest path as shown to the user, and what resolving it on disk gave
/// (its canonical bytes, or the error text).
#[derive(Debug)]
pub struct ResolvedPath {
    pub display: String,
    pub resolved: Result<Vec<u8>, String>,
}

/// The verdict on the two resolved manifest paths: the environment's path
/// must resolve, then the explicit one, and both to the same file.
pub open spec fn resolved_manifests_verdict(environment: ResolvedPath, explicit: ResolvedPath) -> Option<Seq<char>> {
    match environment.resolved {
        Err(e) => Some("canonicalize compatibility capability manifest "@ + environment.display@ + ": "@ + e@),
        Ok(env_path) => match explicit.resolved {
            Err(e) => Some("canonicalize explicit compatibility capability manifest "@ + explicit.display@ + ": "@ + e@),
            Ok(explicit_path) => if env_path@ != explicit_path@ {
                Some("explicit compatibility capability manifest conflicts with the trusted environment path"@)
            } else {
                None
            },
        },
    }
}

/// Two resolved manifest paths are accepted exactly when both resolved and
/// the canonical paths are the same byte string.
pub proof fn lemma_resolved_manifests_must_match(environment: ResolvedPath, explicit: ResolvedPath)
    ensures
        resolved_manifests_verdict(environment, explicit) is None <==> (environment.resolved is Ok
            && explicit.resolved is Ok
            && environment.resolved->Ok_0@ == explicit.resolved->Ok_0@),
{
}

/// Compares the environment's manifest path with the explicit one after both
/// were resolved on disk.
pub fn compare_resolved_manifests(environment: &ResolvedPath, explicit: &ResolvedPath) -> (res: Result<(), AbiFailure>)
    ensures
        match res {
            Ok(()) => resolved_manifests_verdict(*environment, *explicit) is None,
            Err(failure) => failure.status == CuaDriverStatus::InvalidArgument
                && resolved_manifests_verdict(*environment, *explicit) == Some(failure.message@),
        },
        (environment.resolved is Ok && explicit.resolved is Ok) ==>
            (res is Ok <==> environment.resolved->Ok_0@ == explicit.resolved->Ok_0@),
        (environment.resolved is Err || explicit.resolved is Err) ==> res is Err,
{
    proof {
        lemma_resolved_manifests_must_match(*environment, *explicit);
    }
    let env_path = match &environment.resolved {
        Err(e) => {
            let text = join_message("canonicalize compatibility capability manifest ", environment.display.as_str());
            let text = join_message(text.as_str(), ": ");
            return Err(invalid_argument(join_message(text.as_str(), e.as_str())));
        },
        Ok(p) => p,
    };
    let explicit_path = match &explicit.resolved {
        Err(e) => {
            let text = join_message("canonicalize explicit compatibility capability manifest ", explicit.display.as_str());
            let text = join_message(text.as_str(), ": ");
            return Err(invalid_argument(join_message(text.as_str(), e.as_str())));
        },
        Ok(p) => p,
    };
    if !bytes_equal(env_path.as_slice(), explicit_path.as_slice()) {
        return Err(invalid_argument(message(
            "explicit compatibility capability manifest conflicts with the trusted environment path",
        )));
    }
    Ok(())
}

} // verus!
