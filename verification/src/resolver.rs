//! The binary resolution state machine: yield a usable adapter binary path,
//! preferring cheaper sources — an explicit user override, then the local
//! cache, then a downloaded release — and failing fast where nothing can
//! succeed.
//!
//! The machine makes every decision; it performs no I/O itself. A driver
//! carries out each returned action (stat a path, detect the platform, probe
//! the cache, query the release index, download and install) and feeds the
//! outcome back as the next event. Every outside outcome is an event, so the
//! decisions are verified for every answer the environment can give.

use vstd::prelude::*;
use vstd::string::StringExecFns;

verus! {

/// The operating-system family of the host.
#[derive(Debug, Clone, Copy, PartialEq, Eq, Structural)]
pub enum Os {
    Linux,
    Mac,
    Windows,
}

/// The processor architecture of the host.
#[derive(Debug, Clone, Copy, PartialEq, Eq, Structural)]
pub enum Arch {
    X86,
    X8664,
    Aarch64,
}

/// The release asset name for a supported platform pair; `None` where no
/// release exists for the combination.
pub open spec fn triple_of(os: Os, arch: Arch) -> Option<Seq<char>> {
    match (os, arch) {
        (Os::Linux, Arch::X8664) => Some("linux-amd64"@),
        (Os::Linux, Arch::Aarch64) => Some("linux-arm64"@),
        (Os::Mac, Arch::X8664) => Some("osx-amd64"@),
        (Os::Mac, Arch::Aarch64) => Some("osx-arm64"@),
        (Os::Windows, Arch::X8664) => Some("win64"@),
        _ => None,
    }
}

/// The adapter executable's file name on the given system.
pub open spec fn exe_name_of(os: Os) -> Seq<char> {
    match os {
        Os::Windows => "netcoredbg.exe"@,
        _ => "netcoredbg"@,
    }
}

/// The version- and platform-qualified path of the cached binary:
/// `<root>/<version>/<triple>/<executable>`.
pub open spec fn cache_path_spec(root: Seq<char>, version: Seq<char>, os: Os, arch: Arch) -> Seq<
    char,
> {
    root + "/"@ + version + "/"@ + triple_of(os, arch)->Some_0 + "/"@ + exe_name_of(os)
}

/// The release asset name for a supported platform pair.
pub fn platform_triple(os: Os, arch: Arch) -> (r: Option<&'static str>)
    ensures
        r is Some <==> triple_of(os, arch) is Some,
        r is Some ==> r->Some_0@ == triple_of(os, arch)->Some_0,
{
    match (os, arch) {
        (Os::Linux, Arch::X8664) => Some("linux-amd64"),
        (Os::Linux, Arch::Aarch64) => Some("linux-arm64"),
        (Os::Mac, Arch::X8664) => Some("osx-amd64"),
        (Os::Mac, Arch::Aarch64) => Some("osx-arm64"),
        (Os::Windows, Arch::X8664) => Some("win64"),
        _ => None,
    }
}

/// Why a resolution failed.
#[derive(Debug, Clone, PartialEq, Eq)]
pub enum ResolverError {
    /// An explicitly supplied adapter path is not an executable file.
    InvalidUserPath(String),
    /// The host's platform pair has no release asset.
    UnsupportedPlatform,
    /// The release index offers nothing for the platform triple.
    NoMatchingAsset(String),
    /// A filesystem or transport fault during acquisition; never retried
    /// here — retries are the caller's decision.
    AcquisitionFailed(String),
}

/// Where a resolution stands.
#[derive(Debug, Clone, PartialEq, Eq)]
pub enum ResolverState {
    /// Nothing asked yet.
    Idle,
    /// Waiting to hear whether the user-supplied path is executable.
    CheckingUserPath(String),
    /// Waiting for the host's platform pair.
    DetectingPlatform,
    /// Waiting to hear whether the cached binary exists; carries the triple
    /// and the cache path.
    ProbingCache(String, String),
    /// Waiting for the release index's answer; carries the triple and the
    /// cache path.
    QueryingIndex(String, String),
    /// Waiting for the download and install to finish; carries the cache
    /// path the binary is placed at.
    Downloading(String),
    /// The binary stands at this path.
    Resolved(String),
    /// Resolution failed; no further source is consulted.
    Failed(ResolverError),
}

/// What the environment answered.
#[derive(Debug, Clone, PartialEq, Eq)]
pub enum ResolverEvent {
    /// Start a resolution, with the user's explicit adapter path if one was
    /// supplied.
    Begin(Option<String>),
    /// Whether the user-supplied path is an executable file.
    UserPathChecked(bool),
    /// The host's operating system and architecture.
    PlatformDetected(Os, Arch),
    /// Whether the cached binary exists and is executable.
    CacheProbed(bool),
    /// The download URL the release index offers for the triple, if any.
    AssetFound(Option<String>),
    /// The release index could not be reached or read; carries the cause.
    AssetLookupFailed(String),
    /// `None` when the binary was downloaded, extracted, installed at the
    /// cache path and marked executable; otherwise the cause of the fault.
    DownloadFinished(Option<String>),
}

/// What the driver must do next.
#[derive(Debug, Clone, PartialEq, Eq)]
pub enum ResolverAction {
    /// Report whether this path is an executable file.
    CheckExecutable(String),
    /// Report the host's platform pair.
    DetectPlatform,
    /// Report whether an executable binary stands at this cache path.
    ProbeCache(String),
    /// Ask the release index for the asset matching this triple.
    QueryIndex(String),
    /// Download the archive at the URL into a scoped temporary location,
    /// extract the binary, place it at the given cache path, and mark it
    /// executable; the temporary location is removed on every exit path.
    DownloadAndInstall(String, String),
    /// The resolution is over; read the final state.
    Finish,
    /// The event did not answer what the current state awaits; nothing done.
    Wait,
}

/// The mathematical value of an error.
pub enum ErrorModel {
    InvalidUserPath(Seq<char>),
    UnsupportedPlatform,
    NoMatchingAsset(Seq<char>),
    AcquisitionFailed(Seq<char>),
}

/// The mathematical value of a state.
pub enum StateModel {
    Idle,
    CheckingUserPath(Seq<char>),
    DetectingPlatform,
    ProbingCache(Seq<char>, Seq<char>),
    QueryingIndex(Seq<char>, Seq<char>),
    Downloading(Seq<char>),
    Resolved(Seq<char>),
    Failed(ErrorModel),
}

/// The mathematical value of an event.
pub enum EventModel {
    Begin(Option<Seq<char>>),
    UserPathChecked(bool),
    PlatformDetected(Os, Arch),
    CacheProbed(bool),
    AssetFound(Option<Seq<char>>),
    AssetLookupFailed(Seq<char>),
    DownloadFinished(Option<Seq<char>>),
}

/// The mathematical value of an action.
pub enum ActionModel {
    CheckExecutable(Seq<char>),
    DetectPlatform,
    ProbeCache(Seq<char>),
    QueryIndex(Seq<char>),
    DownloadAndInstall(Seq<char>, Seq<char>),
    Finish,
    Wait,
}

/// The model an error stands for.
pub open spec fn error_view(e: ResolverError) -> ErrorModel {
    match e {
        ResolverError::InvalidUserPath(p) => ErrorModel::InvalidUserPath(p@),
        ResolverError::UnsupportedPlatform => ErrorModel::UnsupportedPlatform,
        ResolverError::NoMatchingAsset(t) => ErrorModel::NoMatchingAsset(t@),
        ResolverError::AcquisitionFailed(c) => ErrorModel::AcquisitionFailed(c@),
    }
}

/// The model a state stands for.
pub open spec fn state_view(s: ResolverState) -> StateModel {
    match s {
        ResolverState::Idle => StateModel::Idle,
        ResolverState::CheckingUserPath(p) => StateModel::CheckingUserPath(p@),
        ResolverState::DetectingPlatform => StateModel::DetectingPlatform,
        ResolverState::ProbingCache(t, cp) => StateModel::ProbingCache(t@, cp@),
        ResolverState::QueryingIndex(t, cp) => StateModel::QueryingIndex(t@, cp@),
        ResolverState::Downloading(cp) => StateModel::Downloading(cp@),
        ResolverState::Resolved(p) => StateModel::Resolved(p@),
        ResolverState::Failed(e) => StateModel::Failed(error_view(e)),
    }
}

/// The model an event stands for.
pub open spec fn event_view(e: ResolverEvent) -> EventModel {
    match e {
        ResolverEvent::Begin(p) => EventModel::Begin(crate::config::opt_str_view(p)),
        ResolverEvent::UserPathChecked(b) => EventModel::UserPathChecked(b),
        ResolverEvent::PlatformDetected(os, arch) => EventModel::PlatformDetected(os, arch),
        ResolverEvent::CacheProbed(b) => EventModel::CacheProbed(b),
        ResolverEvent::AssetFound(u) => EventModel::AssetFound(crate::config::opt_str_view(u)),
        ResolverEvent::AssetLookupFailed(c) => EventModel::AssetLookupFailed(c@),
        ResolverEvent::DownloadFinished(c) => EventModel::DownloadFinished(
            crate::config::opt_str_view(c),
        ),
    }
}

/// The model an action stands for.
pub open spec fn action_view(a: ResolverAction) -> ActionModel {
    match a {
        ResolverAction::CheckExecutable(p) => ActionModel::CheckExecutable(p@),
        ResolverAction::DetectPlatform => ActionModel::DetectPlatform,
        ResolverAction::ProbeCache(cp) => ActionModel::ProbeCache(cp@),
        ResolverAction::QueryIndex(t) => ActionModel::QueryIndex(t@),
        ResolverAction::DownloadAndInstall(u, cp) => ActionModel::DownloadAndInstall(u@, cp@),
        ResolverAction::Finish => ActionModel::Finish,
        ResolverAction::Wait => ActionModel::Wait,
    }
}

/// The complete transition relation: given the cache root, the required
/// version, the current state and an event, the next state and the action
/// the driver must perform. The resolution order is: user override first
/// (never silently ignored once supplied), then the local cache, then the
/// network; an unsupported platform fails before any cache or network step.
/// An event that does not answer the current state changes nothing.
pub open spec fn next_spec(
    root: Seq<char>,
    version: Seq<char>,
    s: StateModel,
    e: EventModel,
) -> (StateModel, ActionModel) {
    match (s, e) {
        (StateModel::Idle, EventModel::Begin(Some(p))) => (
            StateModel::CheckingUserPath(p),
            ActionModel::CheckExecutable(p),
        ),
        (StateModel::Idle, EventModel::Begin(None)) => (
            StateModel::DetectingPlatform,
            ActionModel::DetectPlatform,
        ),
        (StateModel::CheckingUserPath(p), EventModel::UserPathChecked(ok)) => if ok {
            (StateModel::Resolved(p), ActionModel::Finish)
        } else {
            (StateModel::Failed(ErrorModel::InvalidUserPath(p)), ActionModel::Finish)
        },
        (StateModel::DetectingPlatform, EventModel::PlatformDetected(os, arch)) => match triple_of(
            os,
            arch,
        ) {
            Some(t) => (
                StateModel::ProbingCache(t, cache_path_spec(root, version, os, arch)),
                ActionModel::ProbeCache(cache_path_spec(root, version, os, arch)),
            ),
            None => (StateModel::Failed(ErrorModel::UnsupportedPlatform), ActionModel::Finish),
        },
        (StateModel::ProbingCache(t, cp), EventModel::CacheProbed(found)) => if found {
            (StateModel::Resolved(cp), ActionModel::Finish)
        } else {
            (StateModel::QueryingIndex(t, cp), ActionModel::QueryIndex(t))
        },
        (StateModel::QueryingIndex(t, cp), EventModel::AssetFound(Some(url))) => (
            StateModel::Downloading(cp),
            ActionModel::DownloadAndInstall(url, cp),
        ),
        (StateModel::QueryingIndex(t, cp), EventModel::AssetFound(None)) => (
            StateModel::Failed(ErrorModel::NoMatchingAsset(t)),
            ActionModel::Finish,
        ),
        (StateModel::QueryingIndex(t, cp), EventModel::AssetLookupFailed(cause)) => (
            StateModel::Failed(ErrorModel::AcquisitionFailed(cause)),
            ActionModel::Finish,
        ),
        (StateModel::Downloading(cp), EventModel::DownloadFinished(None)) => (
            StateModel::Resolved(cp),
            ActionModel::Finish,
        ),
        (StateModel::Downloading(cp), EventModel::DownloadFinished(Some(cause))) => (
            StateModel::Failed(ErrorModel::AcquisitionFailed(cause)),
            ActionModel::Finish,
        ),
        (s0, _) => (s0, ActionModel::Wait),
    }
}

/// Builds the version- and platform-qualified cache path.
fn build_cache_path(root: &str, version: &str, os: Os, arch: Arch) -> (r: String)
    requires
        triple_of(os, arch) is Some,
    ensures
        r@ == cache_path_spec(root@, version@, os, arch),
{
    let mut p = String::from_str(root);
    p.append("/");
    p.append(version);
    p.append("/");
    match platform_triple(os, arch) {
        Some(t) => p.append(t),
        None => {
        },
    }
    p.append("/");
    match os {
        Os::Windows => p.append("netcoredbg.exe"),
        _ => p.append("netcoredbg"),
    }
    proof {
        assert(p@ =~= cache_path_spec(root@, version@, os, arch));
    }
    p
}

/// One resolution of the adapter binary for a fixed version and cache root.
/// Created fresh per debug session; only the on-disk cache persists.
#[derive(Debug, Clone, PartialEq, Eq)]
pub struct BinaryResolver {
    pub version: String,
    pub cache_root: String,
    pub state: ResolverState,
}

impl BinaryResolver {
    /// A resolver for the given required version under the given cache root.
    pub fn new(version: String, cache_root: String) -> (r: BinaryResolver)
        ensures
            r.version@ == version@,
            r.cache_root@ == cache_root@,
            state_view(r.state) == StateModel::Idle,
    {
        BinaryResolver { version, cache_root, state: ResolverState::Idle }
    }

    /// Feeds one event into the machine and returns the next action to
    /// perform, exactly as the transition relation prescribes.
    pub fn step(self, event: ResolverEvent) -> (r: (BinaryResolver, ResolverAction))
        ensures
            r.0.version@ == self.version@,
            r.0.cache_root@ == self.cache_root@,
            state_view(r.0.state) == next_spec(
                self.cache_root@,
                self.version@,
                state_view(self.state),
                event_view(event),
            ).0,
            action_view(r.1) == next_spec(
                self.cache_root@,
                self.version@,
                state_view(self.state),
                event_view(event),
            ).1,
    {
        let BinaryResolver { version, cache_root, state } = self;
        match (state, event) {
            (ResolverState::Idle, ResolverEvent::Begin(Some(p))) => {
                let action = ResolverAction::CheckExecutable(p.clone());
                (
                    BinaryResolver {
                        version,
                        cache_root,
                        state: ResolverState::CheckingUserPath(p),
                    },
                    action,
                )
            },
            (ResolverState::Idle, ResolverEvent::Begin(None)) => (
                BinaryResolver { version, cache_root, state: ResolverState::DetectingPlatform },
                ResolverAction::DetectPlatform,
            ),
            (ResolverState::CheckingUserPath(p), ResolverEvent::UserPathChecked(ok)) => {
                if ok {
                    (
                        BinaryResolver {
                            version,
                            cache_root,
                            state: ResolverState::Resolved(p),
                        },
                        ResolverAction::Finish,
                    )
                } else {
                    (
                        BinaryResolver {
                            version,
                            cache_root,
                            state: ResolverState::Failed(ResolverError::InvalidUserPath(p)),
                        },
                        ResolverAction::Finish,
                    )
                }
            },
            (ResolverState::DetectingPlatform, ResolverEvent::PlatformDetected(os, arch)) => {
                match platform_triple(os, arch) {
                    Some(t) => {
                        let cp = build_cache_path(cache_root.as_str(), version.as_str(), os, arch);
                        let action = ResolverAction::ProbeCache(cp.clone());
                        (
                            BinaryResolver {
                                version,
                                cache_root,
                                state: ResolverState::ProbingCache(String::from_str(t), cp),
                            },
                            action,
                        )
                    },
                    None => (
                        BinaryResolver {
                            version,
                            cache_root,
                            state: ResolverState::Failed(ResolverError::UnsupportedPlatform),
                        },
                        ResolverAction::Finish,
                    ),
                }
            },
            (ResolverState::ProbingCache(t, cp), ResolverEvent::CacheProbed(found)) => {
                if found {
                    (
                        BinaryResolver {
                            version,
                            cache_root,
                            state: ResolverState::Resolved(cp),
                        },
                        ResolverAction::Finish,
                    )
                } else {
                    let action = ResolverAction::QueryIndex(t.clone());
                    (
                        BinaryResolver {
                            version,
                            cache_root,
                            state: ResolverState::QueryingIndex(t, cp),
                        },
                        action,
                    )
                }
            },
            (ResolverState::QueryingIndex(t, cp), ResolverEvent::AssetFound(Some(url))) => {
                let action = ResolverAction::DownloadAndInstall(url, cp.clone());
                (
                    BinaryResolver {
                        version,
                        cache_root,
                        state: ResolverState::Downloading(cp),
                    },
                    action,
                )
            },
            (ResolverState::QueryingIndex(t, cp), ResolverEvent::AssetFound(None)) => (
                BinaryResolver {
                    version,
                    cache_root,
                    state: ResolverState::Failed(ResolverError::NoMatchingAsset(t)),
                },
                ResolverAction::Finish,
            ),
            (ResolverState::QueryingIndex(t, cp), ResolverEvent::AssetLookupFailed(cause)) => (
                BinaryResolver {
                    version,
                    cache_root,
                    state: ResolverState::Failed(ResolverError::AcquisitionFailed(cause)),
                },
                ResolverAction::Finish,
            ),
            (ResolverState::Downloading(cp), ResolverEvent::DownloadFinished(None)) => (
                BinaryResolver { version, cache_root, state: ResolverState::Resolved(cp) },
                ResolverAction::Finish,
            ),
            (ResolverState::Downloading(cp), ResolverEvent::DownloadFinished(Some(cause))) => (
                BinaryResolver {
                    version,
                    cache_root,
                    state: ResolverState::Failed(ResolverError::AcquisitionFailed(cause)),
                },
                ResolverAction::Finish,
            ),
            (s0, _) => (BinaryResolver { version, cache_root, state: s0 }, ResolverAction::Wait),
        }
    }
}

/// An action that goes beyond the local machine's cache: querying the
/// release index or downloading an archive.
pub open spec fn is_network_action(a: ActionModel) -> bool {
    a is QueryIndex || a is DownloadAndInstall
}

/// Law: a finished resolution is final. Once the machine has resolved a path
/// or failed, every further event leaves it unchanged and asks for nothing:
/// no source is ever consulted again within one resolution.
pub proof fn lemma_final_states_absorb(
    root: Seq<char>,
    version: Seq<char>,
    s: StateModel,
    e: EventModel,
)
    requires
        s is Resolved || s is Failed,
    ensures
        next_spec(root, version, s, e) == (s, ActionModel::Wait),
{
}

/// Law: an explicitly supplied adapter path that fails validation is
/// reported as `InvalidUserPath`, and the resolution ends there: the user's
/// explicit choice is never silently ignored, so neither the cache is probed
/// nor the network touched.
pub proof fn lemma_user_path_no_fallthrough(root: Seq<char>, version: Seq<char>, p: Seq<char>)
    ensures
        ({
            let (s1, a1) = next_spec(root, version, StateModel::Idle, EventModel::Begin(Some(p)));
            let (s2, a2) = next_spec(root, version, s1, EventModel::UserPathChecked(false));
            &&& a1 == ActionModel::CheckExecutable(p)
            &&& s2 == StateModel::Failed(ErrorModel::InvalidUserPath(p))
            &&& a2 == ActionModel::Finish
            &&& !is_network_action(a1) && !(a1 is ProbeCache)
            &&& !is_network_action(a2) && !(a2 is ProbeCache)
        }),
{
}

/// Law: an unsupported platform fails fast. The machine is deterministic,
/// so every resolution on such a platform fails the same way, with
/// `UnsupportedPlatform`, before any index query or download — and so before
/// anything could create a temporary download directory.
pub proof fn lemma_unsupported_platform_fails_fast(
    root: Seq<char>,
    version: Seq<char>,
    os: Os,
    arch: Arch,
)
    requires
        triple_of(os, arch) is None,
    ensures
        ({
            let (s1, a1) = next_spec(root, version, StateModel::Idle, EventModel::Begin(None));
            let (s2, a2) = next_spec(root, version, s1, EventModel::PlatformDetected(os, arch));
            &&& a1 == ActionModel::DetectPlatform
            &&& s2 == StateModel::Failed(ErrorModel::UnsupportedPlatform)
            &&& a2 == ActionModel::Finish
            &&& !is_network_action(a1)
            &&& !is_network_action(a2)
        }),
{
}

/// Law: resolution is idempotent after a successful acquisition. The first
/// resolution downloads and installs the binary at the version- and
/// platform-qualified cache path; a second resolution for the same version
/// and platform whose cache probe finds the binary resolves to exactly the
/// same path and performs no network action at any of its steps.
pub proof fn lemma_resolution_idempotent(
    root: Seq<char>,
    version: Seq<char>,
    os: Os,
    arch: Arch,
    url: Seq<char>,
)
    requires
        triple_of(os, arch) is Some,
    ensures
        ({
            let (s1, a1) = next_spec(root, version, StateModel::Idle, EventModel::Begin(None));
            let (s2, a2) = next_spec(root, version, s1, EventModel::PlatformDetected(os, arch));
            let (s3, a3) = next_spec(root, version, s2, EventModel::CacheProbed(false));
            let (s4, a4) = next_spec(root, version, s3, EventModel::AssetFound(Some(url)));
            let (s5, a5) = next_spec(root, version, s4, EventModel::DownloadFinished(None));
            let (t1, b1) = next_spec(root, version, StateModel::Idle, EventModel::Begin(None));
            let (t2, b2) = next_spec(root, version, t1, EventModel::PlatformDetected(os, arch));
            let (t3, b3) = next_spec(root, version, t2, EventModel::CacheProbed(true));
            &&& s5 == StateModel::Resolved(cache_path_spec(root, version, os, arch))
            &&& t3 == s5
            &&& !is_network_action(b1)
            &&& !is_network_action(b2)
            &&& !is_network_action(b3)
            &&& b3 == ActionModel::Finish
        }),
{
}

} // verus!
