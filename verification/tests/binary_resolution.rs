use netcoredbg_adapter::resolver::{
    Arch, BinaryResolver, Os, ResolverAction, ResolverError, ResolverEvent, ResolverState,
};

fn fresh() -> BinaryResolver {
    BinaryResolver::new("1.2.3".to_string(), "/cache".to_string())
}

#[test]
fn valid_user_path_wins_immediately() {
    let r = fresh();
    let (r, a) = r.step(ResolverEvent::Begin(Some("/opt/dbg".to_string())));
    assert_eq!(a, ResolverAction::CheckExecutable("/opt/dbg".to_string()));
    let (r, a) = r.step(ResolverEvent::UserPathChecked(true));
    assert_eq!(a, ResolverAction::Finish);
    assert_eq!(r.state, ResolverState::Resolved("/opt/dbg".to_string()));
}

#[test]
fn invalid_user_path_fails_without_cache_or_network() {
    let r = fresh();
    let (r, a1) = r.step(ResolverEvent::Begin(Some("/not/executable".to_string())));
    assert_eq!(a1, ResolverAction::CheckExecutable("/not/executable".to_string()));
    let (r, a2) = r.step(ResolverEvent::UserPathChecked(false));
    assert_eq!(a2, ResolverAction::Finish);
    assert_eq!(
        r.state,
        ResolverState::Failed(ResolverError::InvalidUserPath("/not/executable".to_string()))
    );
    for a in [a1, a2] {
        assert!(!matches!(a, ResolverAction::ProbeCache(_)));
        assert!(!matches!(a, ResolverAction::QueryIndex(_)));
        assert!(!matches!(a, ResolverAction::DownloadAndInstall(_, _)));
    }
}

#[test]
fn unsupported_platform_fails_fast_on_both_attempts() {
    for _ in 0..2 {
        let r = fresh();
        let (r, a1) = r.step(ResolverEvent::Begin(None));
        assert_eq!(a1, ResolverAction::DetectPlatform);
        let (r, a2) = r.step(ResolverEvent::PlatformDetected(Os::Windows, Arch::Aarch64));
        assert_eq!(a2, ResolverAction::Finish);
        assert_eq!(r.state, ResolverState::Failed(ResolverError::UnsupportedPlatform));
        for a in [a1, a2] {
            assert!(!matches!(a, ResolverAction::QueryIndex(_)));
            assert!(!matches!(a, ResolverAction::DownloadAndInstall(_, _)));
        }
    }
}

#[test]
fn x86_is_unsupported_everywhere() {
    for os in [Os::Linux, Os::Mac, Os::Windows] {
        let r = fresh();
        let (r, _) = r.step(ResolverEvent::Begin(None));
        let (r, _) = r.step(ResolverEvent::PlatformDetected(os, Arch::X86));
        assert_eq!(r.state, ResolverState::Failed(ResolverError::UnsupportedPlatform));
    }
}

#[test]
fn cache_hit_resolves_without_network() {
    let r = fresh();
    let (r, _) = r.step(ResolverEvent::Begin(None));
    let (r, a) = r.step(ResolverEvent::PlatformDetected(Os::Linux, Arch::X8664));
    assert_eq!(
        a,
        ResolverAction::ProbeCache("/cache/1.2.3/linux-amd64/netcoredbg".to_string())
    );
    let (r, a) = r.step(ResolverEvent::CacheProbed(true));
    assert_eq!(a, ResolverAction::Finish);
    assert_eq!(
        r.state,
        ResolverState::Resolved("/cache/1.2.3/linux-amd64/netcoredbg".to_string())
    );
}

#[test]
fn windows_cache_path_names_the_exe() {
    let r = fresh();
    let (r, _) = r.step(ResolverEvent::Begin(None));
    let (_, a) = r.step(ResolverEvent::PlatformDetected(Os::Windows, Arch::X8664));
    assert_eq!(
        a,
        ResolverAction::ProbeCache("/cache/1.2.3/win64/netcoredbg.exe".to_string())
    );
}

#[test]
fn missing_asset_reports_the_triple() {
    let r = fresh();
    let (r, _) = r.step(ResolverEvent::Begin(None));
    let (r, _) = r.step(ResolverEvent::PlatformDetected(Os::Mac, Arch::Aarch64));
    let (r, a) = r.step(ResolverEvent::CacheProbed(false));
    assert_eq!(a, ResolverAction::QueryIndex("osx-arm64".to_string()));
    let (r, _) = r.step(ResolverEvent::AssetFound(None));
    assert_eq!(
        r.state,
        ResolverState::Failed(ResolverError::NoMatchingAsset("osx-arm64".to_string()))
    );
}

#[test]
fn transport_fault_is_acquisition_failed_and_not_retried() {
    let r = fresh();
    let (r, _) = r.step(ResolverEvent::Begin(None));
    let (r, _) = r.step(ResolverEvent::PlatformDetected(Os::Linux, Arch::Aarch64));
    let (r, _) = r.step(ResolverEvent::CacheProbed(false));
    let (r, a) = r.step(ResolverEvent::AssetFound(Some("https://host/a.tar.gz".to_string())));
    assert_eq!(
        a,
        ResolverAction::DownloadAndInstall(
            "https://host/a.tar.gz".to_string(),
            "/cache/1.2.3/linux-arm64/netcoredbg".to_string()
        )
    );
    let (r, a) = r.step(ResolverEvent::DownloadFinished(Some("connection reset".to_string())));
    assert_eq!(a, ResolverAction::Finish);
    assert_eq!(
        r.state,
        ResolverState::Failed(ResolverError::AcquisitionFailed("connection reset".to_string()))
    );
}

#[test]
fn second_resolution_after_download_hits_the_cache_on_the_same_path() {
    let url = "https://host/netcoredbg-linux-amd64.tar.gz".to_string();
    let r = fresh();
    let (r, _) = r.step(ResolverEvent::Begin(None));
    let (r, _) = r.step(ResolverEvent::PlatformDetected(Os::Linux, Arch::X8664));
    let (r, _) = r.step(ResolverEvent::CacheProbed(false));
    let (r, _) = r.step(ResolverEvent::AssetFound(Some(url)));
    let (r, _) = r.step(ResolverEvent::DownloadFinished(None));
    let first_path = match r.state {
        ResolverState::Resolved(p) => p,
        other => panic!("first resolution did not resolve: {:?}", other),
    };

    let r2 = fresh();
    let (r2, b1) = r2.step(ResolverEvent::Begin(None));
    let (r2, b2) = r2.step(ResolverEvent::PlatformDetected(Os::Linux, Arch::X8664));
    let (r2, b3) = r2.step(ResolverEvent::CacheProbed(true));
    for b in [&b1, &b2, &b3] {
        assert!(!matches!(b, ResolverAction::QueryIndex(_)));
        assert!(!matches!(b, ResolverAction::DownloadAndInstall(_, _)));
    }
    assert_eq!(r2.state, ResolverState::Resolved(first_path));
}
