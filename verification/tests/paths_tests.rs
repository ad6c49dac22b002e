use git_ai::paths::{clean_path, normalize_shim_path};

/// Fork on Windows should use forward slashes in the stored custom
/// instance path, consistent across installers.
#[test]
fn test_fork_windows_path_uses_forward_slashes() {
    let shim_path = r"C:\Users\marti\.git-ai\bin\git.exe";
    let normalized = normalize_shim_path(shim_path);
    assert_eq!(
        normalized, "C:/Users/marti/.git-ai/bin/git.exe",
        "Fork should store paths with forward slashes in settings JSON"
    );
}

/// Unix paths should pass through unchanged.
#[test]
fn test_fork_unix_path_preserved() {
    let shim_path = "/home/user/.local/bin/git";
    let normalized = normalize_shim_path(shim_path);
    assert_eq!(normalized, "/home/user/.local/bin/git", "Unix paths should be unchanged");
}

/// The Windows extended-length prefix should be handled.
#[test]
fn test_fork_windows_extended_path_prefix_cleaned() {
    let raw_path = r"\\?\C:\Users\marti\.git-ai\bin\git.exe";
    let cleaned = clean_path(raw_path);
    let normalized = cleaned.replace('\\', "/");

    assert!(!normalized.contains(r"\\?\"), "Extended path prefix should be stripped");
    assert_eq!(
        normalized, "C:/Users/marti/.git-ai/bin/git.exe",
        "Path should use forward slashes after cleaning"
    );
}

/// A path that carries no prefix is left alone by the cleaner.
#[test]
fn test_clean_path_without_prefix_unchanged() {
    assert_eq!(clean_path(r"C:\x\y.exe"), r"C:\x\y.exe");
    assert_eq!(clean_path("/usr/bin/git"), "/usr/bin/git");
}

/// Normalization strips the prefix and then replaces the separators,
/// so the prefixed and unprefixed spellings agree.
#[test]
fn test_normalize_strips_prefix_and_slashes() {
    let a = normalize_shim_path(r"\\?\C:\Users\x\.bin\git.exe");
    let b = normalize_shim_path(r"C:\Users\x\.bin\git.exe");
    assert_eq!(a, "C:/Users/x/.bin/git.exe");
    assert_eq!(a, b);
}
