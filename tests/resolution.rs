use odoo_ls_resolver::model::{InstallStatus, Phase};
use odoo_ls_resolver::platform::{Architecture, Os, Platform, PlatformTag};
use odoo_ls_resolver::resolver::{
    asset_name, aux_dir, binary_path, find_asset, stale_names, Action, Asset, Event, ResolveError,
    Resolver,
};

fn linux_x64() -> Platform {
    Platform { os: Os::Linux, arch: Architecture::X8664, minimal_libc: false }
}

fn asset(name: &str, url: &str) -> Asset {
    Asset { name: name.to_string(), download_url: url.to_string() }
}

fn release_assets() -> Vec<Asset> {
    vec![
        asset("odoo-win32-x64-1.0.0.zip", "https://example.org/win"),
        asset("odoo-linux-x64-1.0.0.zip", "https://example.org/linux"),
        asset("typeshed.zip", "https://example.org/typeshed"),
    ]
}

fn ok() -> Event {
    Event::Done(Ok(()))
}

/// Drives a resolver with no cache up to the point where the release arrived.
fn up_to_release(r: &mut Resolver, platform: Platform) {
    assert_eq!(r.step(Event::Start(platform)), Action::Notify(InstallStatus::CheckingForUpdate));
    assert_eq!(r.step(Event::Ack), Action::CreateDir("1.0.0".to_string()));
    assert_eq!(
        r.step(ok()),
        Action::FetchRelease { repository: "odoo/odoo-ls".to_string(), tag: "1.0.0".to_string() }
    );
}

#[test]
fn fresh_install_end_to_end() {
    let mut r = Resolver::new("1.0.0".to_string());
    up_to_release(&mut r, linux_x64());
    assert_eq!(
        r.step(Event::Release(Ok(release_assets()))),
        Action::CheckFile("1.0.0/odoo_ls_server".to_string())
    );
    assert_eq!(r.step(Event::FileStatus(false)), Action::RemoveDirIfExists("1.0.0/typeshed".to_string()));
    assert_eq!(r.step(ok()), Action::Notify(InstallStatus::Downloading));
    assert_eq!(
        r.step(Event::Ack),
        Action::Download { url: "https://example.org/linux".to_string(), dir: "1.0.0".to_string() }
    );
    assert_eq!(r.step(ok()), Action::Notify(InstallStatus::Downloading));
    assert_eq!(
        r.step(Event::Ack),
        Action::Download { url: "https://example.org/typeshed".to_string(), dir: "1.0.0".to_string() }
    );
    assert_eq!(r.step(ok()), Action::MakeExecutable("1.0.0/odoo_ls_server".to_string()));
    assert_eq!(r.step(ok()), Action::ListRoot);
    assert_eq!(
        r.step(Event::Entries(Ok(vec!["1.0.0".to_string()]))),
        Action::Finish(Ok("1.0.0/odoo_ls_server".to_string()))
    );
    assert_eq!(r.phase(), Phase::Idle);
    assert_eq!(r.cached_binary_path(), Some(&"1.0.0/odoo_ls_server".to_string()));
}

#[test]
fn binary_on_disk_skips_install() {
    let mut r = Resolver::new("1.0.0".to_string());
    up_to_release(&mut r, linux_x64());
    assert_eq!(
        r.step(Event::Release(Ok(release_assets()))),
        Action::CheckFile("1.0.0/odoo_ls_server".to_string())
    );
    assert_eq!(
        r.step(Event::FileStatus(true)),
        Action::Finish(Ok("1.0.0/odoo_ls_server".to_string()))
    );
    assert_eq!(r.cached_binary_path(), Some(&"1.0.0/odoo_ls_server".to_string()));
}

fn resolved() -> Resolver {
    let mut r = Resolver::new("1.0.0".to_string());
    up_to_release(&mut r, linux_x64());
    r.step(Event::Release(Ok(release_assets())));
    assert_eq!(
        r.step(Event::FileStatus(true)),
        Action::Finish(Ok("1.0.0/odoo_ls_server".to_string()))
    );
    r
}

#[test]
fn second_resolution_uses_cache() {
    let mut r = resolved();
    assert_eq!(
        r.step(Event::Start(linux_x64())),
        Action::CheckFile("1.0.0/odoo_ls_server".to_string())
    );
    assert_eq!(
        r.step(Event::FileStatus(true)),
        Action::Finish(Ok("1.0.0/odoo_ls_server".to_string()))
    );
}

#[test]
fn vanished_cached_binary_is_a_miss() {
    let mut r = resolved();
    assert_eq!(
        r.step(Event::Start(linux_x64())),
        Action::CheckFile("1.0.0/odoo_ls_server".to_string())
    );
    assert_eq!(r.step(Event::FileStatus(false)), Action::Notify(InstallStatus::CheckingForUpdate));
    assert_eq!(r.step(Event::Ack), Action::CreateDir("1.0.0".to_string()));
}

#[test]
fn missing_platform_asset_is_named() {
    let mut r = Resolver::new("1.0.0".to_string());
    up_to_release(&mut r, linux_x64());
    let assets = vec![asset("typeshed.zip", "https://example.org/typeshed")];
    let a = r.step(Event::Release(Ok(assets)));
    assert_eq!(
        a,
        Action::Finish(Err(ResolveError::AssetNotFound("odoo-linux-x64-1.0.0.zip".to_string())))
    );
    if let Action::Finish(Err(e)) = a {
        assert_eq!(e.message(), "Odoo: No asset found for asset name odoo-linux-x64-1.0.0.zip");
    }
    assert_eq!(r.cached_binary_path(), None);
}

#[test]
fn missing_aux_asset_is_named() {
    let mut r = Resolver::new("1.0.0".to_string());
    up_to_release(&mut r, linux_x64());
    let assets = vec![asset("odoo-linux-x64-1.0.0.zip", "https://example.org/linux")];
    assert_eq!(
        r.step(Event::Release(Ok(assets))),
        Action::Finish(Err(ResolveError::AssetNotFound("typeshed.zip".to_string())))
    );
}

#[test]
fn unsupported_platform_warns_then_fails_on_asset() {
    let mut r = Resolver::new("1.0.0".to_string());
    let p = Platform { os: Os::Linux, arch: Architecture::X86, minimal_libc: false };
    assert_eq!(r.step(Event::Start(p)), Action::WarnUnsupported(p));
    assert_eq!(r.step(Event::Ack), Action::Notify(InstallStatus::CheckingForUpdate));
    assert_eq!(r.step(Event::Ack), Action::CreateDir("1.0.0".to_string()));
    r.step(ok());
    assert_eq!(
        r.step(Event::Release(Ok(release_assets()))),
        Action::Finish(Err(ResolveError::AssetNotFound("odoo-unknown-1.0.0.zip".to_string())))
    );
}

#[test]
fn windows_binary_has_exe_suffix() {
    let mut r = Resolver::new("1.0.0".to_string());
    let p = Platform { os: Os::Windows, arch: Architecture::X8664, minimal_libc: false };
    up_to_release(&mut r, p);
    assert_eq!(
        r.step(Event::Release(Ok(release_assets()))),
        Action::CheckFile("1.0.0/odoo_ls_server.exe".to_string())
    );
}

/// Runs a fresh install up to the listing of the working root.
fn up_to_listing(r: &mut Resolver) {
    up_to_release(r, linux_x64());
    r.step(Event::Release(Ok(release_assets())));
    r.step(Event::FileStatus(false));
    r.step(ok());
    r.step(Event::Ack);
    r.step(ok());
    r.step(Event::Ack);
    r.step(ok());
    assert_eq!(r.step(ok()), Action::ListRoot);
}

#[test]
fn siblings_pruned_despite_failures() {
    let mut r = Resolver::new("1.0.0".to_string());
    up_to_listing(&mut r);
    let entries = vec!["0.9.0".to_string(), "1.0.0".to_string(), "0.8.0".to_string()];
    assert_eq!(r.step(Event::Entries(Ok(entries))), Action::RemoveDir("0.9.0".to_string()));
    assert_eq!(
        r.step(Event::Done(Err("directory is locked".to_string()))),
        Action::RemoveDir("0.8.0".to_string())
    );
    assert_eq!(r.step(ok()), Action::Finish(Ok("1.0.0/odoo_ls_server".to_string())));
}

#[test]
fn listing_failure_is_not_fatal() {
    let mut r = Resolver::new("1.0.0".to_string());
    up_to_listing(&mut r);
    assert_eq!(
        r.step(Event::Entries(Err("permission denied".to_string()))),
        Action::Finish(Ok("1.0.0/odoo_ls_server".to_string()))
    );
}

#[test]
fn create_dir_failure() {
    let mut r = Resolver::new("1.0.0".to_string());
    r.step(Event::Start(linux_x64()));
    r.step(Event::Ack);
    let a = r.step(Event::Done(Err("read-only file system".to_string())));
    assert_eq!(
        a,
        Action::Finish(Err(ResolveError::DirectoryProvisioning(
            "failed to create version directory: read-only file system".to_string()
        )))
    );
    if let Action::Finish(Err(e)) = a {
        assert_eq!(e.message(), "failed to create version directory: read-only file system");
    }
}

#[test]
fn metadata_failure_is_verbatim() {
    let mut r = Resolver::new("1.0.0".to_string());
    up_to_release(&mut r, linux_x64());
    let a = r.step(Event::Release(Err("release not found".to_string())));
    assert_eq!(a, Action::Finish(Err(ResolveError::Metadata("release not found".to_string()))));
    if let Action::Finish(Err(e)) = a {
        assert_eq!(e.message(), "release not found");
    }
}

#[test]
fn aux_clear_failure() {
    let mut r = Resolver::new("1.0.0".to_string());
    up_to_release(&mut r, linux_x64());
    r.step(Event::Release(Ok(release_assets())));
    assert_eq!(
        r.step(Event::FileStatus(false)),
        Action::RemoveDirIfExists("1.0.0/typeshed".to_string())
    );
    let a = r.step(Event::Done(Err("busy".to_string())));
    assert_eq!(a, Action::Finish(Err(ResolveError::DirectoryProvisioning("busy".to_string()))));
    if let Action::Finish(Err(e)) = a {
        assert_eq!(e.message(), "busy");
    }
}

#[test]
fn download_failures() {
    for ok_downloads in 0..2 {
        let mut r = Resolver::new("1.0.0".to_string());
        up_to_release(&mut r, linux_x64());
        r.step(Event::Release(Ok(release_assets())));
        r.step(Event::FileStatus(false));
        r.step(ok());
        r.step(Event::Ack);
        for _ in 0..ok_downloads {
            assert_eq!(r.step(ok()), Action::Notify(InstallStatus::Downloading));
            r.step(Event::Ack);
        }
        let a = r.step(Event::Done(Err("connection reset".to_string())));
        assert_eq!(a, Action::Finish(Err(ResolveError::Download("connection reset".to_string()))));
        if let Action::Finish(Err(e)) = a {
            assert_eq!(e.message(), "failed to download file: connection reset");
        }
        assert_eq!(r.cached_binary_path(), None);
    }
}

#[test]
fn permission_failure() {
    let mut r = Resolver::new("1.0.0".to_string());
    up_to_release(&mut r, linux_x64());
    r.step(Event::Release(Ok(release_assets())));
    r.step(Event::FileStatus(false));
    r.step(ok());
    r.step(Event::Ack);
    r.step(ok());
    r.step(Event::Ack);
    assert_eq!(r.step(ok()), Action::MakeExecutable("1.0.0/odoo_ls_server".to_string()));
    let a = r.step(Event::Done(Err("operation not permitted".to_string())));
    assert_eq!(a, Action::Finish(Err(ResolveError::Permission("operation not permitted".to_string()))));
    if let Action::Finish(Err(e)) = a {
        assert_eq!(e.message(), "operation not permitted");
    }
}

#[test]
fn out_of_order_event() {
    let mut r = Resolver::new("1.0.0".to_string());
    assert_eq!(r.step(Event::Ack), Action::Finish(Err(ResolveError::OutOfOrder)));
    assert_eq!(r.phase(), Phase::Idle);
    assert_eq!(
        ResolveError::OutOfOrder.message(),
        "resolver received an event it was not waiting for"
    );
}

#[test]
fn start_restarts_resolution() {
    let mut r = Resolver::new("1.0.0".to_string());
    up_to_release(&mut r, linux_x64());
    assert_eq!(r.step(Event::Start(linux_x64())), Action::Notify(InstallStatus::CheckingForUpdate));
    assert_eq!(r.version(), "1.0.0");
}

#[test]
fn names_and_paths() {
    assert_eq!(asset_name(PlatformTag::LinuxX64, "1.0.0"), "odoo-linux-x64-1.0.0.zip");
    assert_eq!(asset_name(PlatformTag::DarwinArm64, "0.2.3"), "odoo-darwin-arm64-0.2.3.zip");
    assert_eq!(binary_path("1.0.0", Os::Linux), "1.0.0/odoo_ls_server");
    assert_eq!(binary_path("1.0.0", Os::Mac), "1.0.0/odoo_ls_server");
    assert_eq!(binary_path("1.0.0", Os::Windows), "1.0.0/odoo_ls_server.exe");
    assert_eq!(aux_dir("1.0.0"), "1.0.0/typeshed");
}

#[test]
fn find_asset_takes_first_match() {
    let assets = vec![
        asset("a.zip", "u1"),
        asset("typeshed.zip", "u2"),
        asset("typeshed.zip", "u3"),
    ];
    assert_eq!(find_asset(&assets, &"typeshed.zip".to_string()), Some(1));
    assert_eq!(find_asset(&assets, &"b.zip".to_string()), None);
    assert_eq!(find_asset(&Vec::new(), &"a.zip".to_string()), None);
}

#[test]
fn stale_names_keep_order() {
    let entries = vec!["2.0".to_string(), "1.0.0".to_string(), "x".to_string()];
    assert_eq!(stale_names(&entries, &"1.0.0".to_string()), vec!["2.0".to_string(), "x".to_string()]);
    assert_eq!(stale_names(&Vec::new(), &"1.0.0".to_string()), Vec::<String>::new());
}
