use git_ai::decimal::{i64_to_dec_string, u64_to_dec_string};
use git_ai::provision::{
    bash_candidates_for_root, parent_path, should_skip_symlink_provisioning, symlink_plan,
};

#[test]
fn test_skip_for_read_only_store_paths() {
    assert!(should_skip_symlink_provisioning("/nix/store/abc123-git-ai/bin/git"));
    assert!(!should_skip_symlink_provisioning("/home/x/.git-ai/bin/git"));
}

#[test]
fn test_parent_path_unix_and_windows() {
    assert_eq!(parent_path("/home/x/.git-ai/bin/git").as_deref(), Some("/home/x/.git-ai/bin"));
    assert_eq!(parent_path(r"C:\Users\x\bin\git.exe").as_deref(), Some(r"C:\Users\x\bin"));
    assert_eq!(parent_path("git"), None);
}

#[test]
fn test_symlink_plan_locations() {
    let (link, target) = symlink_plan("/home/x/.git-ai/bin/git-ai", "/usr/libexec/git-core")
        .expect("both paths are deep enough");
    assert_eq!(link, "/home/x/.git-ai/libexec");
    assert_eq!(target, "/usr/libexec");
}

#[test]
fn test_symlink_plan_too_shallow() {
    assert!(symlink_plan("git-ai", "/usr/libexec/git-core").is_none());
    assert!(symlink_plan("/home/x/.git-ai/bin/git-ai", "git-core").is_none());
}

/// The installation root sits three directories above the exec path.
#[test]
fn test_git_install_root() {
    assert_eq!(
        git_ai::provision::git_install_root(r"C:\Program Files\Git\mingw64\libexec\git-core")
            .as_deref(),
        Some(r"C:\Program Files\Git")
    );
    assert_eq!(
        git_ai::provision::git_install_root("/opt/git/mingw64/libexec/git-core").as_deref(),
        Some("/opt/git")
    );
    assert_eq!(git_ai::provision::git_install_root("libexec/git-core"), None);
}

#[test]
fn test_bash_candidates() {
    let v = bash_candidates_for_root(r"C:\Program Files\Git");
    assert_eq!(
        v,
        vec![
            r"C:\Program Files\Git\bin\bash.exe",
            r"C:\Program Files\Git\usr\bin\bash.exe"
        ]
    );
}

#[test]
fn test_decimal_rendering() {
    assert_eq!(u64_to_dec_string(0), "0");
    assert_eq!(u64_to_dec_string(907), "907");
    assert_eq!(i64_to_dec_string(2), "2");
    assert_eq!(i64_to_dec_string(-5), "-5");
    assert_eq!(i64_to_dec_string(i64::MAX), "9223372036854775807");
    assert_eq!(i64_to_dec_string(i64::MIN), "-9223372036854775808");
}
