use dtls_resolver::model::{Arch, Asset, Os, Release, ResolveError};
use dtls_resolver::resolver::{Action, Event, Resolver};

const TOOL: &str = "design-tokens-language-server";

fn env_of(pairs: &[(&str, &str)]) -> Vec<(String, String)> {
    pairs.iter().map(|(k, v)| (k.to_string(), v.to_string())).collect()
}

fn fresh(env: Vec<(String, String)>, cache: Option<String>) -> Resolver {
    Resolver::new(TOOL.to_string(), env, "/work/proj".to_string(), cache)
}

fn release_with(assets: Vec<Asset>) -> Release {
    Release { version: "1.2.3".to_string(), assets }
}

fn is_write_or_network(action: &Action) -> bool {
    matches!(
        action,
        Action::CopyTo { .. }
            | Action::EnsureDir(_)
            | Action::Download { .. }
            | Action::MakeExecutable(_)
            | Action::RemoveStale(_)
            | Action::FetchRelease
    )
}

/// Drives a fresh machine up to the point where the release has been
/// fetched and the platform has been asked for.
fn up_to_platform(release: Release) -> Resolver {
    let r = fresh(env_of(&[("HOME", "/home/u")]), None);
    let (r, a) = r.step(Event::Start);
    assert!(matches!(a, Action::QueryPath));
    let (r, a) = r.step(Event::PathFound(None));
    assert!(matches!(a, Action::ProbeFile(_)));
    let (r, a) = r.step(Event::FileProbe(false));
    assert!(matches!(a, Action::AnnounceCheckingForUpdate));
    let (r, a) = r.step(Event::Ack);
    assert!(matches!(a, Action::FetchRelease));
    let (r, a) = r.step(Event::ReleaseFetched(Ok(release)));
    assert!(matches!(a, Action::QueryPlatform));
    r
}

#[test]
fn path_hit_returns_path_without_write_or_network() {
    let r = fresh(env_of(&[("HOME", "/home/u")]), None);
    let (r, a) = r.step(Event::Start);
    assert!(matches!(a, Action::QueryPath));
    assert!(!is_write_or_network(&a));
    let (_, a) = r.step(Event::PathFound(Some("/usr/bin/dtls".to_string())));
    assert!(!is_write_or_network(&a));
    match a {
        Action::Finish(Ok(c)) => {
            assert_eq!(c.command, "/usr/bin/dtls");
            assert!(c.args.is_empty());
            assert!(c.env.is_empty());
        }
        _ => panic!("expected a successful finish"),
    }
}

#[test]
fn cache_hit_returns_identical_path_without_redownload() {
    let cached = "/cached/design-tokens-language-server".to_string();
    let r = fresh(env_of(&[("HOME", "/home/u")]), Some(cached.clone()));
    let (r, a) = r.step(Event::Start);
    assert!(!is_write_or_network(&a));
    let (r, a) = r.step(Event::PathFound(None));
    match &a {
        Action::ProbeFile(p) => assert_eq!(p, &cached),
        _ => panic!("expected a file probe of the cached path"),
    }
    assert!(!is_write_or_network(&a));
    let (r, a) = r.step(Event::FileProbe(true));
    assert!(!is_write_or_network(&a));
    match a {
        Action::Finish(Ok(c)) => assert_eq!(c.command, cached),
        _ => panic!("expected a successful finish"),
    }
    assert_eq!(r.cache, Some(cached));
}

#[test]
fn stale_cache_falls_through_to_local_probe() {
    let r = fresh(env_of(&[("HOME", "/home/u")]), Some("/gone".to_string()));
    let (r, _) = r.step(Event::Start);
    let (r, _) = r.step(Event::PathFound(None));
    let (_, a) = r.step(Event::FileProbe(false));
    match a {
        Action::ProbeFile(p) => {
            assert_eq!(p, "/work/proj/node_modules/.bin/design-tokens-language-server");
        }
        _ => panic!("expected a probe of the project-local binary"),
    }
}

#[test]
fn local_copy_returns_state_destination_and_caches_it() {
    let r = fresh(env_of(&[("HOME", "/home/u")]), None);
    let (r, _) = r.step(Event::Start);
    let (r, a) = r.step(Event::PathFound(None));
    match &a {
        Action::ProbeFile(p) => {
            assert_eq!(p, "/work/proj/node_modules/.bin/design-tokens-language-server");
        }
        _ => panic!("expected a probe of the project-local binary"),
    }
    let (r, a) = r.step(Event::FileProbe(true));
    match &a {
        Action::CopyTo { source, dest } => {
            assert_eq!(source, "/work/proj/node_modules/.bin/design-tokens-language-server");
            assert_eq!(dest, "/home/u/.local/bin/design-tokens-language-server");
        }
        _ => panic!("expected a copy into the state directory"),
    }
    let (r, a) = r.step(Event::Copied(Ok(())));
    match a {
        Action::Finish(Ok(c)) => {
            assert_eq!(c.command, "/home/u/.local/bin/design-tokens-language-server");
        }
        _ => panic!("expected a successful finish"),
    }
    assert_eq!(
        r.cache,
        Some("/home/u/.local/bin/design-tokens-language-server".to_string())
    );
}

#[test]
fn failed_copy_surfaces_io_error() {
    let r = fresh(env_of(&[("HOME", "/home/u")]), None);
    let (r, _) = r.step(Event::Start);
    let (r, _) = r.step(Event::PathFound(None));
    let (r, _) = r.step(Event::FileProbe(true));
    let (_, a) = r.step(Event::Copied(Err("permission denied".to_string())));
    match a {
        Action::Finish(Err(ResolveError::Io { message })) => {
            assert_eq!(message, "permission denied");
        }
        _ => panic!("expected an io error"),
    }
}

#[test]
fn missing_home_fails_deterministically() {
    let r = fresh(env_of(&[("XDG_STATE_HOME", "/state")]), None);
    let (r, _) = r.step(Event::Start);
    let (_, a) = r.step(Event::PathFound(None));
    assert!(matches!(a, Action::Finish(Err(ResolveError::MissingHome))));
}

#[test]
fn missing_asset_fails_without_download() {
    let release = release_with(vec![Asset {
        name: "design-tokens-language-server-win-x64.exe".to_string(),
        download_url: "https://example.invalid/win".to_string(),
    }]);
    let r = up_to_platform(release);
    let (_, a) = r.step(Event::Platform(Os::Linux, Arch::X8664));
    assert!(!is_write_or_network(&a));
    match a {
        Action::Finish(Err(ResolveError::AssetNotFound { asset_name })) => {
            assert_eq!(asset_name, "design-tokens-language-server-x86_64-unknown-linux-gnu");
        }
        _ => panic!("expected an asset-not-found error"),
    }
}

#[test]
fn unsupported_architecture_fails_resolution() {
    let release = release_with(Vec::new());
    let r = up_to_platform(release);
    let (_, a) = r.step(Event::Platform(Os::Linux, Arch::X86));
    assert!(matches!(
        a,
        Action::Finish(Err(ResolveError::UnsupportedPlatform))
    ));
}

#[test]
fn failed_release_fetch_surfaces_io_error() {
    let r = fresh(env_of(&[("HOME", "/home/u")]), None);
    let (r, _) = r.step(Event::Start);
    let (r, _) = r.step(Event::PathFound(None));
    let (r, _) = r.step(Event::FileProbe(false));
    let (r, _) = r.step(Event::Ack);
    let (_, a) = r.step(Event::ReleaseFetched(Err("rate limited".to_string())));
    match a {
        Action::Finish(Err(ResolveError::Io { message })) => assert_eq!(message, "rate limited"),
        _ => panic!("expected an io error"),
    }
}

#[test]
fn download_flow_prunes_stale_versions_and_keeps_current() {
    let release = release_with(vec![
        Asset {
            name: "design-tokens-language-server-x86_64-unknown-linux-gnu".to_string(),
            download_url: "https://example.invalid/linux".to_string(),
        },
        Asset {
            name: "design-tokens-language-server-win-x64.exe".to_string(),
            download_url: "https://example.invalid/win".to_string(),
        },
    ]);
    let r = up_to_platform(release);
    let (r, a) = r.step(Event::Platform(Os::Linux, Arch::X8664));
    match &a {
        Action::EnsureDir(d) => assert_eq!(d, "design-tokens-language-server-1.2.3"),
        _ => panic!("expected the version directory to be created"),
    }
    let (r, a) = r.step(Event::DirMade(Ok(())));
    let expected_path = "design-tokens-language-server-1.2.3/design-tokens-language-server-x86_64-unknown-linux-gnu";
    match &a {
        Action::ProbeFile(p) => assert_eq!(p, expected_path),
        _ => panic!("expected a probe of the install path"),
    }
    let (r, a) = r.step(Event::FileProbe(false));
    assert!(matches!(a, Action::AnnounceDownloading));
    let (r, a) = r.step(Event::Ack);
    match &a {
        Action::Download { url, dest } => {
            assert_eq!(url, "https://example.invalid/linux");
            assert_eq!(dest, expected_path);
        }
        _ => panic!("expected a download"),
    }
    let (r, a) = r.step(Event::Downloaded(Ok(())));
    match &a {
        Action::MakeExecutable(p) => assert_eq!(p, expected_path),
        _ => panic!("expected the executable bit to be set"),
    }
    let (r, a) = r.step(Event::ExecBitSet(Ok(())));
    assert!(matches!(a, Action::ListInstallRoot));
    let listing = vec![
        "design-tokens-language-server-1.0.0".to_string(),
        "design-tokens-language-server-1.2.3".to_string(),
        "unrelated".to_string(),
    ];
    let (r, a) = r.step(Event::Listed(Ok(listing)));
    match &a {
        Action::RemoveStale(dirs) => {
            assert_eq!(
                dirs,
                &vec![
                    "design-tokens-language-server-1.0.0".to_string(),
                    "unrelated".to_string(),
                ]
            );
            assert!(!dirs.contains(&"design-tokens-language-server-1.2.3".to_string()));
        }
        _ => panic!("expected the stale directories to be pruned"),
    }
    let (r, a) = r.step(Event::Ack);
    match a {
        Action::Finish(Ok(c)) => assert_eq!(c.command, expected_path),
        _ => panic!("expected a successful finish"),
    }
    assert_eq!(r.cache, Some(expected_path.to_string()));
}

#[test]
fn existing_install_is_reused_without_download() {
    let release = release_with(vec![Asset {
        name: "design-tokens-language-server-aarch64-apple-darwin".to_string(),
        download_url: "https://example.invalid/mac".to_string(),
    }]);
    let r = up_to_platform(release);
    let (r, _) = r.step(Event::Platform(Os::Mac, Arch::Aarch64));
    let (r, _) = r.step(Event::DirMade(Ok(())));
    let (r, a) = r.step(Event::FileProbe(true));
    let expected_path =
        "design-tokens-language-server-1.2.3/design-tokens-language-server-aarch64-apple-darwin";
    assert!(!is_write_or_network(&a));
    match a {
        Action::Finish(Ok(c)) => assert_eq!(c.command, expected_path),
        _ => panic!("expected a successful finish"),
    }
    assert_eq!(r.cache, Some(expected_path.to_string()));
}

#[test]
fn failed_directory_creation_surfaces_io_error() {
    let release = release_with(vec![Asset {
        name: "design-tokens-language-server-x86_64-apple-darwin".to_string(),
        download_url: "https://example.invalid/mac".to_string(),
    }]);
    let r = up_to_platform(release);
    let (r, _) = r.step(Event::Platform(Os::Mac, Arch::X8664));
    let (_, a) = r.step(Event::DirMade(Err("disk full".to_string())));
    match a {
        Action::Finish(Err(ResolveError::Io { message })) => assert_eq!(message, "disk full"),
        _ => panic!("expected an io error"),
    }
}

#[test]
fn failed_download_surfaces_io_error() {
    let release = release_with(vec![Asset {
        name: "design-tokens-language-server-aarch64-unknown-linux-gnu".to_string(),
        download_url: "https://example.invalid/linux-arm".to_string(),
    }]);
    let r = up_to_platform(release);
    let (r, _) = r.step(Event::Platform(Os::Linux, Arch::Aarch64));
    let (r, _) = r.step(Event::DirMade(Ok(())));
    let (r, _) = r.step(Event::FileProbe(false));
    let (r, _) = r.step(Event::Ack);
    let (_, a) = r.step(Event::Downloaded(Err("connection reset".to_string())));
    match a {
        Action::Finish(Err(ResolveError::Io { message })) => {
            assert_eq!(message, "connection reset");
        }
        _ => panic!("expected an io error"),
    }
}

#[test]
fn unexpected_event_ends_resolution_with_error() {
    let r = fresh(env_of(&[("HOME", "/home/u")]), None);
    let (r, _) = r.step(Event::Start);
    let (_, a) = r.step(Event::Ack);
    assert!(matches!(
        a,
        Action::Finish(Err(ResolveError::UnexpectedEvent))
    ));
}

#[test]
fn finished_machine_only_reports_errors() {
    let r = fresh(env_of(&[("HOME", "/home/u")]), None);
    let (r, _) = r.step(Event::Start);
    let (r, _) = r.step(Event::PathFound(Some("/usr/bin/dtls".to_string())));
    let (_, a) = r.step(Event::Start);
    assert!(!is_write_or_network(&a));
    assert!(matches!(
        a,
        Action::Finish(Err(ResolveError::UnexpectedEvent))
    ));
}
