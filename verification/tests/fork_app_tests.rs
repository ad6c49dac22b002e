use git_ai::fork_app::{ForkAppInstaller, ForkStore, PlannedChange, StoreWrite};
use git_ai::installer::{GitClientInstallerParams, HostPlatform};
use git_ai::json::parse_settings;
use git_ai::settings::SettingsDoc;

fn params(path: &str) -> GitClientInstallerParams {
    GitClientInstallerParams { git_shim_path: path.to_string() }
}

fn win_store(detected: bool, doc: Option<SettingsDoc>) -> ForkStore {
    ForkStore::WinSettings {
        detected,
        settings_path: r"C:\Users\x\AppData\Local\Fork\settings.json".to_string(),
        doc,
    }
}

fn doc_of(text: &str) -> SettingsDoc {
    parse_settings(text).unwrap_or_else(|e| panic!("parse failed: {}", e.message()))
}

fn applied_doc(change: PlannedChange) -> SettingsDoc {
    match change.write {
        Some(StoreWrite::WinWrite { doc }) => doc,
        _ => panic!("expected a Windows settings write"),
    }
}

#[test]
fn test_name_and_id() {
    let installer = ForkAppInstaller;
    assert_eq!(installer.name(), "Fork");
    assert_eq!(installer.id(), "fork");
}

#[test]
fn test_platform_support() {
    let installer = ForkAppInstaller;
    assert!(installer.is_platform_supported(HostPlatform::MacOs));
    assert!(installer.is_platform_supported(HostPlatform::Windows));
    assert!(!installer.is_platform_supported(HostPlatform::Other));
}

#[test]
fn test_prefs_domain() {
    assert_eq!(ForkAppInstaller::prefs(), "com.DanPristupov.Fork");
}

#[test]
fn test_settings_path_locations() {
    let from_lad = ForkAppInstaller::settings_path(Some(r"C:\Users\x\AppData\Local"), r"C:\Users\x");
    assert_eq!(from_lad, r"C:\Users\x\AppData\Local\Fork\settings.json");
    let from_home = ForkAppInstaller::settings_path(None, r"C:\Users\x");
    assert_eq!(from_home, r"C:\Users\x\AppData\Local\Fork\settings.json");
}

/// Detection false short-circuits `check` to all-false.
#[test]
fn test_check_not_installed_all_false() {
    let installer = ForkAppInstaller;
    let store = win_store(false, None);
    let r = installer.check_client(&store, &params(r"C:\new\git.exe"));
    assert!(!r.client_installed);
    assert!(!r.prefs_configured);
    assert!(!r.prefs_up_to_date);
}

/// An instance-type key of `Custom` with the path key absent is not
/// "configured".
#[test]
fn test_partial_state_custom_without_path_not_configured() {
    let installer = ForkAppInstaller;
    let store = win_store(true, Some(doc_of(r#"{"GitInstanceType":2}"#)));
    let r = installer.check_client(&store, &params(r"C:\new\git.exe"));
    assert!(r.client_installed);
    assert!(!r.prefs_configured);
    assert!(!r.prefs_up_to_date);
}

/// The same partial state on the macOS backend.
#[test]
fn test_partial_state_mac_custom_without_path() {
    let installer = ForkAppInstaller;
    let store = ForkStore::MacPrefs {
        app_found: true,
        git_instance_type: Some(2),
        custom_git_path: None,
    };
    let r = installer.check_client(&store, &params("/home/x/bin/git"));
    assert!(r.client_installed);
    assert!(!r.prefs_configured);
    assert!(!r.prefs_up_to_date);
}

/// An old custom path reads as configured but not up to date; a
/// non-dry-run install rewrites the two keys and preserves the rest of
/// the document.
#[test]
fn test_check_and_install_with_old_path() {
    let installer = ForkAppInstaller;
    let text = r#"{"GitInstanceType":2,"CustomGitInstancePath":"C:\\old\\git.exe"}"#;
    let store = win_store(true, Some(doc_of(text)));
    let p = params(r"C:\new\git.exe");

    let r = installer.check_client(&store, &p);
    assert!(r.client_installed);
    assert!(r.prefs_configured);
    assert!(!r.prefs_up_to_date);

    let change = installer.install_prefs(&store, &p, false).expect("a change is due");
    let new_doc = applied_doc(change);
    assert_eq!(new_doc.get_int("GitInstanceType"), Some(2));
    assert_eq!(new_doc.get_str("CustomGitInstancePath").as_deref(), Some("C:/new/git.exe"));
}

/// Unrelated keys in the settings document survive an install
/// untouched, and the written text carries the forward-slash path.
#[test]
fn test_install_preserves_unrelated_keys() {
    let installer = ForkAppInstaller;
    let text = r#"{"Theme":"dark","GitInstanceType":2,"CustomGitInstancePath":"C:\\old\\git.exe","Nested":{"a":[1,2,3]}}"#;
    let store = win_store(true, Some(doc_of(text)));
    let p = params(r"C:\new\git.exe");

    let change = installer.install_prefs(&store, &p, false).expect("a change is due");
    let new_doc = applied_doc(change);
    let rendered = git_ai::json::render_settings(&new_doc)
        .unwrap_or_else(|e| panic!("render failed: {}", e.message()));

    let value: serde_json::Value = serde_json::from_str(&rendered).expect("rendered text is JSON");
    assert_eq!(value["GitInstanceType"].as_i64(), Some(2));
    assert_eq!(value["CustomGitInstancePath"].as_str(), Some("C:/new/git.exe"));
    assert_eq!(value["Theme"].as_str(), Some("dark"));
    assert_eq!(value["Nested"]["a"][1].as_i64(), Some(2));
}

/// Installing twice: the first call yields a diff, the second yields
/// `None`, given no external change between the calls.
#[test]
fn test_install_idempotent() {
    let installer = ForkAppInstaller;
    let store = win_store(true, Some(doc_of(r#"{"GitInstanceType":0}"#)));
    let p = params(r"C:\Users\x\.bin\git.exe");

    let first = installer.install_prefs(&store, &p, false).expect("first install plans a change");
    let store_after = first.write.expect("a write is planned").apply_to_snapshot(store);
    let second = installer.install_prefs(&store_after, &p, false);
    assert!(second.is_none(), "second install must be a no-op");
}

/// Install followed by uninstall restores what `check` reported, with
/// `client_installed` unaffected by either.
#[test]
fn test_install_uninstall_round_trip() {
    let installer = ForkAppInstaller;
    let store = win_store(true, Some(doc_of(r#"{"Theme":"dark"}"#)));
    let p = params(r"C:\Users\x\.bin\git.exe");
    let before = installer.check_client(&store, &p);

    let installed = installer.install_prefs(&store, &p, false).expect("install plans a change");
    let store2 = installed.write.expect("a write is planned").apply_to_snapshot(store);
    let removed = installer.uninstall_prefs(&store2, &p, false).expect("uninstall plans a change");
    let store3 = removed.write.expect("a write is planned").apply_to_snapshot(store2);

    let after = installer.check_client(&store3, &p);
    assert_eq!(after.client_installed, before.client_installed);
    assert_eq!(after.prefs_configured, before.prefs_configured);
    assert_eq!(after.prefs_up_to_date, before.prefs_up_to_date);
}

/// The same round trip on the macOS backend.
#[test]
fn test_install_uninstall_round_trip_mac() {
    let installer = ForkAppInstaller;
    let store = ForkStore::MacPrefs {
        app_found: true,
        git_instance_type: Some(1),
        custom_git_path: None,
    };
    let p = params("/home/x/bin/git");
    let before = installer.check_client(&store, &p);

    let installed = installer.install_prefs(&store, &p, false).expect("install plans a change");
    let store2 = installed.write.expect("a write is planned").apply_to_snapshot(store);
    let mid = installer.check_client(&store2, &p);
    assert!(mid.prefs_configured && mid.prefs_up_to_date);

    let removed = installer.uninstall_prefs(&store2, &p, false).expect("uninstall plans a change");
    let store3 = removed.write.expect("a write is planned").apply_to_snapshot(store2);

    let after = installer.check_client(&store3, &p);
    assert_eq!(after.client_installed, before.client_installed);
    assert_eq!(after.prefs_configured, before.prefs_configured);
    assert_eq!(after.prefs_up_to_date, before.prefs_up_to_date);
}

/// A dry run plans no write and predicts exactly the diff the
/// non-dry-run call applies.
#[test]
fn test_dry_run_plans_no_write_and_same_diff() {
    let installer = ForkAppInstaller;
    let store = win_store(true, Some(doc_of(r#"{"GitInstanceType":1}"#)));
    let p = params(r"C:\Users\x\.bin\git.exe");

    let dry = installer.install_prefs(&store, &p, true).expect("a change is due");
    assert!(dry.write.is_none(), "a dry run must not plan a write");
    let wet = installer.install_prefs(&store, &p, false).expect("a change is due");
    assert!(wet.write.is_some());
    assert_eq!(dry.diff, wet.diff);

    let dry_un = installer.uninstall_prefs(
        &win_store(true, Some(doc_of(r#"{"GitInstanceType":2,"CustomGitInstancePath":"C:/a"}"#))),
        &p,
        true,
    )
    .expect("uninstall is due");
    assert!(dry_un.write.is_none());
}

/// The exact install diff text, on the Windows backend.
#[test]
fn test_install_diff_text_windows() {
    let installer = ForkAppInstaller;
    let store = win_store(true, None);
    let p = params(r"C:\new\git.exe");
    let change = installer.install_prefs(&store, &p, true).expect("a change is due");
    assert_eq!(
        change.diff,
        "+++ C:\\Users\\x\\AppData\\Local\\Fork\\settings.json\n+GitInstanceType = 2\n+CustomGitInstancePath = C:/new/git.exe\n"
    );
}

/// The exact uninstall diff text, on the macOS backend, reporting the
/// previous values.
#[test]
fn test_uninstall_diff_text_mac() {
    let installer = ForkAppInstaller;
    let store = ForkStore::MacPrefs {
        app_found: true,
        git_instance_type: Some(2),
        custom_git_path: Some("/old/git".to_string()),
    };
    let p = params("/new/git");
    let change = installer.uninstall_prefs(&store, &p, true).expect("uninstall is due");
    assert_eq!(
        change.diff,
        "--- com.DanPristupov.Fork\n-gitInstanceType = 2\n-customGitInstancePath = /old/git\n"
    );
}

/// A macOS install plans the two key writes with the normalized path.
#[test]
fn test_install_mac_write_shape() {
    let installer = ForkAppInstaller;
    let store = ForkStore::MacPrefs {
        app_found: true,
        git_instance_type: None,
        custom_git_path: None,
    };
    let p = params("/home/x/bin/git");
    let change = installer.install_prefs(&store, &p, false).expect("a change is due");
    match change.write {
        Some(StoreWrite::MacWrite { git_instance_type, custom_git_path, remove_custom_path }) => {
            assert_eq!(git_instance_type, 2);
            assert_eq!(custom_git_path.as_deref(), Some("/home/x/bin/git"));
            assert!(!remove_custom_path);
        },
        _ => panic!("expected a macOS preference write"),
    }
}

/// A macOS uninstall resets the type and deletes the path key.
#[test]
fn test_uninstall_mac_write_shape() {
    let installer = ForkAppInstaller;
    let store = ForkStore::MacPrefs {
        app_found: true,
        git_instance_type: Some(2),
        custom_git_path: Some("/old/git".to_string()),
    };
    let change = installer.uninstall_prefs(&store, &params("/new/git"), false)
        .expect("uninstall is due");
    match change.write {
        Some(StoreWrite::MacWrite { git_instance_type, custom_git_path, remove_custom_path }) => {
            assert_eq!(git_instance_type, 0);
            assert!(custom_git_path.is_none());
            assert!(remove_custom_path);
        },
        _ => panic!("expected a macOS preference write"),
    }
}

/// With no settings file, `check` reports the preference fields false
/// and `uninstall` is a no-op that creates nothing.
#[test]
fn test_no_settings_file_check_and_uninstall() {
    let installer = ForkAppInstaller;
    let store = win_store(true, None);
    let p = params(r"C:\new\git.exe");

    let r = installer.check_client(&store, &p);
    assert!(r.client_installed);
    assert!(!r.prefs_configured);
    assert!(!r.prefs_up_to_date);

    assert!(installer.uninstall_prefs(&store, &p, false).is_none());
}

/// The degraded variant for platforms without a backend: neutral
/// results, never errors.
#[test]
fn test_no_backend_neutral_results() {
    let installer = ForkAppInstaller;
    let store = ForkStore::NoBackend;
    let p = params("/home/x/bin/git");
    let r = installer.check_client(&store, &p);
    assert!(!r.client_installed && !r.prefs_configured && !r.prefs_up_to_date);
    assert!(installer.install_prefs(&store, &p, false).is_none());
    assert!(installer.uninstall_prefs(&store, &p, false).is_none());
}

/// An up-to-date store: `check` reports it and `install` is a no-op.
#[test]
fn test_up_to_date_install_noop() {
    let installer = ForkAppInstaller;
    let store = win_store(
        true,
        Some(doc_of(
            r#"{"GitInstanceType":2,"CustomGitInstancePath":"C:/Users/x/.bin/git.exe"}"#,
        )),
    );
    let p = params(r"C:\Users\x\.bin\git.exe");
    let r = installer.check_client(&store, &p);
    assert!(r.prefs_up_to_date);
    assert!(installer.install_prefs(&store, &p, false).is_none());
}

/// The exact install diff text, on the macOS backend.
#[test]
fn test_install_diff_text_mac() {
    let installer = ForkAppInstaller;
    let store = ForkStore::MacPrefs {
        app_found: true,
        git_instance_type: None,
        custom_git_path: None,
    };
    let change = installer.install_prefs(&store, &params("/home/x/bin/git"), true)
        .expect("a change is due");
    assert_eq!(
        change.diff,
        "+++ com.DanPristupov.Fork\n+gitInstanceType = 2\n+customGitInstancePath = /home/x/bin/git\n"
    );
}

/// The exact uninstall diff text, on the Windows backend.
#[test]
fn test_uninstall_diff_text_windows() {
    let installer = ForkAppInstaller;
    let store = win_store(
        true,
        Some(doc_of(r#"{"GitInstanceType":2,"CustomGitInstancePath":"C:/old/git.exe"}"#)),
    );
    let change = installer.uninstall_prefs(&store, &params(r"C:\new\git.exe"), true)
        .expect("uninstall is due");
    assert_eq!(
        change.diff,
        "--- C:\\Users\\x\\AppData\\Local\\Fork\\settings.json\n-GitInstanceType = 2\n-CustomGitInstancePath = C:/old/git.exe\n"
    );
}

/// An empty stored path is configured but its diff line is omitted.
#[test]
fn test_uninstall_diff_omits_empty_path() {
    let installer = ForkAppInstaller;
    let store = ForkStore::MacPrefs {
        app_found: true,
        git_instance_type: Some(2),
        custom_git_path: Some(String::new()),
    };
    let change = installer.uninstall_prefs(&store, &params("/new/git"), true)
        .expect("uninstall is due");
    assert_eq!(change.diff, "--- com.DanPristupov.Fork\n-gitInstanceType = 2\n");
}

/// The comparison in `check` uses the normalized path, so a stored
/// forward-slash value matches a desired backslash spelling.
#[test]
fn test_check_compares_normalized_path() {
    let installer = ForkAppInstaller;
    let store = win_store(
        true,
        Some(doc_of(
            r#"{"GitInstanceType":2,"CustomGitInstancePath":"C:/Users/x/.bin/git.exe"}"#,
        )),
    );
    let r = installer.check_client(&store, &params(r"\\?\C:\Users\x\.bin\git.exe"));
    assert!(r.prefs_up_to_date, "the extended prefix and separators must not matter");
}

/// The detection locations, from either source of the local
/// application data directory.
#[test]
fn test_detection_paths() {
    let (dir, exe) = ForkAppInstaller::detection_paths(
        Some(r"C:\Users\x\AppData\Local"),
        r"C:\Users\x",
        Some(r"D:\Programs"),
    );
    assert_eq!(dir, r"C:\Users\x\AppData\Local\Fork");
    assert_eq!(exe, r"D:\Programs\Fork\Fork.exe");

    let (dir, exe) = ForkAppInstaller::detection_paths(None, r"C:\Users\x", None);
    assert_eq!(dir, r"C:\Users\x\AppData\Local\Fork");
    assert_eq!(exe, r"C:\Program Files\Fork\Fork.exe");
}

/// Detection helpers mirror the snapshot.
#[test]
fn test_is_fork_installed() {
    assert!(ForkAppInstaller::is_fork_installed(&win_store(true, None)));
    assert!(!ForkAppInstaller::is_fork_installed(&win_store(false, None)));
    assert!(!ForkAppInstaller::is_fork_installed(&ForkStore::NoBackend));
}
