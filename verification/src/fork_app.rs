//! The Fork client variant of the installer contract.
//!
//! Fork persists its Git instance choice in a per-application preference
//! domain on macOS and in a JSON settings document on Windows.  All I/O
//! stays with the caller: it hands in a [`ForkStore`] snapshot of the
//! persisted state and receives back the planned change, so every
//! decision in this module is verified over the snapshot.  On platforms
//! with no backend the same calls degrade to neutral, non-error results.

use vstd::prelude::*;
use vstd::string::StringExecFns;
use crate::decimal::{dec_int, i64_to_dec_string};
use crate::installer::{GitClientCheckResult, GitClientInstallerParams, GitInstanceType};
use crate::paths::{normalize_shim_path, normalized_path};
use crate::settings::{
    doc_get, doc_remove, doc_set, doc_wf, lemma_doc_get_remove_other, lemma_doc_get_remove_same,
    lemma_doc_get_set_other, lemma_doc_get_set_same, lemma_doc_remove_wf, lemma_doc_set_wf,
    DocModel, SettingsDoc, ValModel,
};
use crate::text::str_eq;

verus! {

/// The Fork application bundle identifier (macOS preference domain).
pub open spec fn fork_bundle_id() -> Seq<char> {
    "com.DanPristupov.Fork"@
}

/// The instance-type key in the macOS preference domain.
pub open spec fn mac_type_key() -> Seq<char> {
    "gitInstanceType"@
}

/// The custom-path key in the macOS preference domain.
pub open spec fn mac_path_key() -> Seq<char> {
    "customGitInstancePath"@
}

/// The instance-type key in the Windows settings document.
pub open spec fn win_type_key() -> Seq<char> {
    "GitInstanceType"@
}

/// The custom-path key in the Windows settings document.
pub open spec fn win_path_key() -> Seq<char> {
    "CustomGitInstancePath"@
}

/// The view of an optional string.
pub open spec fn opt_str_view(p: Option<String>) -> Option<Seq<char>> {
    match p {
        Some(s) => Some(s@),
        None => None,
    }
}

/// A snapshot of Fork's persisted configuration, read by the caller
/// immediately before a contract call.
pub enum ForkStore {
    /// macOS: whether the application bundle was found, and the two
    /// typed keys read from the preference domain (a missing key reads
    /// as `None`, not as an error).
    MacPrefs {
        app_found: bool,
        git_instance_type: Option<i64>,
        custom_git_path: Option<String>,
    },
    /// Windows: whether the client was detected, the settings file
    /// location, and the parsed settings document (`None` when the file
    /// does not exist).
    WinSettings { detected: bool, settings_path: String, doc: Option<SettingsDoc> },
    /// A platform where Fork has no preference backend.
    NoBackend,
}

/// The document model behind an optional settings document: a missing
/// file reads as the empty document.
pub open spec fn win_doc_model(doc: Option<SettingsDoc>) -> DocModel {
    match doc {
        Some(d) => d@,
        None => Seq::empty(),
    }
}

impl ForkStore {
    /// A Windows document snapshot binds each key at most once.
    pub open spec fn wf(self) -> bool {
        match self {
            ForkStore::WinSettings { doc, .. } => doc matches Some(d) ==> doc_wf(d@),
            _ => true,
        }
    }

    /// Whether the client application was detected on this machine.
    pub open spec fn detected_spec(self) -> bool {
        match self {
            ForkStore::MacPrefs { app_found, .. } => app_found,
            ForkStore::WinSettings { detected, .. } => detected,
            ForkStore::NoBackend => false,
        }
    }

    /// The instance type held by the store, where the corresponding key
    /// holds an integer.
    pub open spec fn stored_type_spec(self) -> Option<i64> {
        match self {
            ForkStore::MacPrefs { git_instance_type, .. } => git_instance_type,
            ForkStore::WinSettings { doc, .. } => match doc_get(win_doc_model(doc), win_type_key()) {
                Some(ValModel::Int(i)) => Some(i),
                _ => None,
            },
            ForkStore::NoBackend => None,
        }
    }

    /// The custom path held by the store, where the corresponding key
    /// holds a string.
    pub open spec fn stored_path_spec(self) -> Option<Seq<char>> {
        match self {
            ForkStore::MacPrefs { custom_git_path, .. } => opt_str_view(custom_git_path),
            ForkStore::WinSettings { doc, .. } => match doc_get(win_doc_model(doc), win_path_key()) {
                Some(ValModel::Str(s)) => Some(s),
                _ => None,
            },
            ForkStore::NoBackend => None,
        }
    }

    /// The location named in diffs: the preference domain on macOS, the
    /// settings file path on Windows.
    pub open spec fn location_spec(self) -> Seq<char> {
        match self {
            ForkStore::MacPrefs { .. } => fork_bundle_id(),
            ForkStore::WinSettings { settings_path, .. } => settings_path@,
            ForkStore::NoBackend => Seq::empty(),
        }
    }

    /// The instance-type key name of this store's backend.
    pub open spec fn type_key_spec(self) -> Seq<char> {
        match self {
            ForkStore::MacPrefs { .. } => mac_type_key(),
            ForkStore::WinSettings { .. } => win_type_key(),
            ForkStore::NoBackend => Seq::empty(),
        }
    }

    /// The custom-path key name of this store's backend.
    pub open spec fn path_key_spec(self) -> Seq<char> {
        match self {
            ForkStore::MacPrefs { .. } => mac_path_key(),
            ForkStore::WinSettings { .. } => win_path_key(),
            ForkStore::NoBackend => Seq::empty(),
        }
    }

    /// The client is set to use some custom Git instance: the instance
    /// type is `Custom` and a path value is present.
    pub open spec fn configured_spec(self) -> bool {
        &&& self.detected_spec()
        &&& self.stored_type_spec() == Some(GitInstanceType::Custom.code_spec())
        &&& self.stored_path_spec() is Some
    }

    /// The stored custom path equals the normalized desired shim path.
    pub open spec fn up_to_date_spec(self, shim: Seq<char>) -> bool {
        &&& self.detected_spec()
        &&& self.stored_type_spec() == Some(GitInstanceType::Custom.code_spec())
        &&& self.stored_path_spec() == Some(normalized_path(shim))
    }
}

/// A mutation of Fork's persisted store, planned by `install_prefs` or
/// `uninstall_prefs` and applied by the caller.
pub enum StoreWrite {
    /// macOS: write the instance-type key; write the path key where a
    /// value is given; delete the path key where asked.  Each key write
    /// is its own atomic unit at the OS level.
    MacWrite {
        git_instance_type: i64,
        custom_git_path: Option<String>,
        remove_custom_path: bool,
    },
    /// Windows: atomically replace the settings file content with this
    /// document (unrelated entries are already preserved inside it).
    WinWrite { doc: SettingsDoc },
}

/// A planned configuration change: the human-readable diff, and the
/// store mutation to apply (absent on a dry run).
pub struct PlannedChange {
    pub diff: String,
    pub write: Option<StoreWrite>,
}

/// The diff describing an installation of the shim path.
pub open spec fn added_diff_spec(
    loc: Seq<char>,
    type_key: Seq<char>,
    path_key: Seq<char>,
    path: Seq<char>,
) -> Seq<char> {
    "+++ "@ + loc + "\n+"@ + type_key + " = "@ + dec_int(
        GitInstanceType::Custom.code_spec() as int,
    ) + "\n+"@ + path_key + " = "@ + path + "\n"@
}

/// The diff describing a removal of the previous configuration.
pub open spec fn removed_diff_spec(
    loc: Seq<char>,
    type_key: Seq<char>,
    path_key: Seq<char>,
    old_type: i64,
    old_path: Seq<char>,
) -> Seq<char> {
    let head = "--- "@ + loc + "\n-"@ + type_key + " = "@ + dec_int(old_type as int) + "\n"@;
    if old_path.len() > 0 {
        head + "-"@ + path_key + " = "@ + old_path + "\n"@
    } else {
        head
    }
}

fn added_diff(loc: &str, type_key: &str, path_key: &str, path: &str) -> (r: String)
    ensures
        r@ == added_diff_spec(loc@, type_key@, path_key@, path@),
{
    let mut s = String::new();
    s.append("+++ ");
    s.append(loc);
    s.append("\n+");
    s.append(type_key);
    s.append(" = ");
    let code = i64_to_dec_string(GitInstanceType::Custom.code());
    s.append(code.as_str());
    s.append("\n+");
    s.append(path_key);
    s.append(" = ");
    s.append(path);
    s.append("\n");
    s
}

fn removed_diff(loc: &str, type_key: &str, path_key: &str, old_type: i64, old_path: &str) -> (r:
    String)
    ensures
        r@ == removed_diff_spec(loc@, type_key@, path_key@, old_type, old_path@),
{
    let mut s = String::new();
    s.append("--- ");
    s.append(loc);
    s.append("\n-");
    s.append(type_key);
    s.append(" = ");
    let code = i64_to_dec_string(old_type);
    s.append(code.as_str());
    s.append("\n");
    if !old_path.is_empty() {
        s.append("-");
        s.append(path_key);
        s.append(" = ");
        s.append(old_path);
        s.append("\n");
    }
    s
}

/// What an install writes: the instance type set to `Custom` and the
/// path key bound to the normalized shim path, with every other entry
/// of a Windows document preserved.
pub open spec fn install_write_shape(store: ForkStore, shim: Seq<char>, w: StoreWrite) -> bool {
    match store {
        ForkStore::MacPrefs { .. } => {
            &&& w matches StoreWrite::MacWrite {
                git_instance_type,
                custom_git_path,
                remove_custom_path,
            }
            &&& git_instance_type == GitInstanceType::Custom.code_spec()
            &&& custom_git_path matches Some(p) && p@ == normalized_path(shim)
            &&& !remove_custom_path
        },
        ForkStore::WinSettings { doc, .. } => {
            &&& w matches StoreWrite::WinWrite { doc: nd }
            &&& nd@ == doc_set(
                doc_set(
                    win_doc_model(doc),
                    win_type_key(),
                    ValModel::Int(GitInstanceType::Custom.code_spec()),
                ),
                win_path_key(),
                ValModel::Str(normalized_path(shim)),
            )
        },
        ForkStore::NoBackend => false,
    }
}

/// What an uninstall writes: the instance type reset to `System` and
/// the path key removed, with every other entry of a Windows document
/// preserved.
pub open spec fn uninstall_write_shape(store: ForkStore, w: StoreWrite) -> bool {
    match store {
        ForkStore::MacPrefs { .. } => {
            &&& w matches StoreWrite::MacWrite {
                git_instance_type,
                custom_git_path,
                remove_custom_path,
            }
            &&& git_instance_type == GitInstanceType::System.code_spec()
            &&& custom_git_path is None
            &&& remove_custom_path
        },
        ForkStore::WinSettings { doc, .. } => {
            &&& w matches StoreWrite::WinWrite { doc: nd }
            &&& nd@ == doc_remove(
                doc_set(
                    win_doc_model(doc),
                    win_type_key(),
                    ValModel::Int(GitInstanceType::System.code_spec()),
                ),
                win_path_key(),
            )
        },
        ForkStore::NoBackend => false,
    }
}

/// The store `after` is `before` with the write applied: same backend,
/// same detection, and the written keys holding what the write says.
pub open spec fn applies_to(w: StoreWrite, before: ForkStore, after: ForkStore) -> bool {
    match (before, after) {
        (
            ForkStore::MacPrefs { app_found: a1, git_instance_type: t1, custom_git_path: p1 },
            ForkStore::MacPrefs { app_found: a2, git_instance_type: t2, custom_git_path: p2 },
        ) => {
            &&& w matches StoreWrite::MacWrite {
                git_instance_type,
                custom_git_path,
                remove_custom_path,
            }
            &&& a2 == a1
            &&& t2 == Some(git_instance_type)
            &&& opt_str_view(p2) == (match custom_git_path {
                Some(np) => Some(np@),
                None => if remove_custom_path {
                    None
                } else {
                    opt_str_view(p1)
                },
            })
        },
        (
            ForkStore::WinSettings { detected: d1, settings_path: l1, doc: _ },
            ForkStore::WinSettings { detected: d2, settings_path: l2, doc: doc2 },
        ) => {
            &&& w matches StoreWrite::WinWrite { doc: wd }
            &&& d2 == d1
            &&& l2@ == l1@
            &&& doc2 matches Some(nd) && nd@ == wd@
        },
        _ => false,
    }
}

/// Whether the write addresses the store's backend.
pub open spec fn write_fits_backend(w: StoreWrite, store: ForkStore) -> bool {
    match (w, store) {
        (StoreWrite::MacWrite { .. }, ForkStore::MacPrefs { .. }) => true,
        (StoreWrite::WinWrite { .. }, ForkStore::WinSettings { .. }) => true,
        _ => false,
    }
}

impl StoreWrite {
    /// The snapshot after this write: what a fresh read of the store
    /// would see once the caller has applied the write.
    pub fn apply_to_snapshot(self, store: ForkStore) -> (r: ForkStore)
        requires
            write_fits_backend(self, store),
        ensures
            applies_to(self, store, r),
    {
        match (self, store) {
            (
                StoreWrite::MacWrite { git_instance_type, custom_git_path, remove_custom_path },
                ForkStore::MacPrefs { app_found, custom_git_path: old_path, .. },
            ) => ForkStore::MacPrefs {
                app_found,
                git_instance_type: Some(git_instance_type),
                custom_git_path: match custom_git_path {
                    Some(np) => Some(np),
                    None => if remove_custom_path {
                        None
                    } else {
                        old_path
                    },
                },
            },
            (
                StoreWrite::WinWrite { doc },
                ForkStore::WinSettings { detected, settings_path, .. },
            ) => ForkStore::WinSettings { detected, settings_path, doc: Some(doc) },
            (_, other) => other,
        }
    }
}

/// The Fork client variant of the installer contract.
pub struct ForkAppInstaller;

impl ForkAppInstaller {
    /// The display name of this client.
    pub fn name(&self) -> (r: &'static str)
        ensures
            r@ == "Fork"@,
    {
        "Fork"
    }

    /// The stable identifier of this client.
    pub fn id(&self) -> (r: &'static str)
        ensures
            r@ == "fork"@,
    {
        "fork"
    }

    /// Whether Fork has a preference backend on the host platform.
    pub fn is_platform_supported(&self, platform: crate::installer::HostPlatform) -> (r: bool)
        ensures
            r == (platform == crate::installer::HostPlatform::MacOs || platform
                == crate::installer::HostPlatform::Windows),
    {
        match platform {
            crate::installer::HostPlatform::MacOs => true,
            crate::installer::HostPlatform::Windows => true,
            crate::installer::HostPlatform::Other => false,
        }
    }

    /// The identifier of Fork's preference domain, read and written by
    /// the caller's preference backend.
    pub fn prefs() -> (r: String)
        ensures
            r@ == fork_bundle_id(),
    {
        String::from_str("com.DanPristupov.Fork")
    }

    /// Whether Fork was detected, as recorded in the store snapshot.
    pub fn is_fork_installed(store: &ForkStore) -> (r: bool)
        ensures
            r == store.detected_spec(),
    {
        match store {
            ForkStore::MacPrefs { app_found, .. } => *app_found,
            ForkStore::WinSettings { detected, .. } => *detected,
            ForkStore::NoBackend => false,
        }
    }

    /// The instance type held by a Windows settings document.
    pub fn read_git_instance_type(doc: &SettingsDoc) -> (r: Option<i64>)
        ensures
            r == (match doc_get(doc@, win_type_key()) {
                Some(ValModel::Int(i)) => Some(i),
                _ => None::<i64>,
            }),
    {
        doc.get_int("GitInstanceType")
    }

    /// The custom path held by a Windows settings document.
    pub fn read_custom_git_path(doc: &SettingsDoc) -> (r: Option<String>)
        ensures
            match r {
                Some(s) => doc_get(doc@, win_path_key()) == Some(ValModel::Str(s@)),
                None => !(doc_get(doc@, win_path_key()) matches Some(ValModel::Str(_))),
            },
    {
        doc.get_str("CustomGitInstancePath")
    }

    /// The per-user location of Fork's Windows settings file, from the
    /// local application data directory where the caller found one, and
    /// from the home directory otherwise.
    pub fn settings_path(local_app_data: Option<&str>, home_dir: &str) -> (r: String)
        ensures
            match local_app_data {
                Some(l) => r@ == l@ + "\\Fork\\settings.json"@,
                None => r@ == home_dir@ + "\\AppData\\Local\\Fork\\settings.json"@,
            },
    {
        match local_app_data {
            Some(l) => {
                let mut s = l.to_owned();
                s.append("\\Fork\\settings.json");
                s
            },
            None => {
                let mut s = home_dir.to_owned();
                s.append("\\AppData\\Local\\Fork\\settings.json");
                s
            },
        }
    }

    /// The two locations whose presence marks Fork as installed on
    /// Windows: its settings directory, and its executable under the
    /// program-files directory (the stock location where the caller
    /// found none named).  The caller probes both for existence.
    pub fn detection_paths(
        local_app_data: Option<&str>,
        home_dir: &str,
        program_files: Option<&str>,
    ) -> (r: (String, String))
        ensures
            (match local_app_data {
                Some(l) => r.0@ == l@ + "\\Fork"@,
                None => r.0@ == home_dir@ + "\\AppData\\Local\\Fork"@,
            }),
            (match program_files {
                Some(p) => r.1@ == p@ + "\\Fork\\Fork.exe"@,
                None => r.1@ == "C:\\Program Files\\Fork\\Fork.exe"@,
            }),
    {
        let settings_dir = match local_app_data {
            Some(l) => {
                let mut s = l.to_owned();
                s.append("\\Fork");
                s
            },
            None => {
                let mut s = home_dir.to_owned();
                s.append("\\AppData\\Local\\Fork");
                s
            },
        };
        let fork_exe = match program_files {
            Some(p) => {
                let mut s = p.to_owned();
                s.append("\\Fork\\Fork.exe");
                s
            },
            None => String::from_str("C:\\Program Files\\Fork\\Fork.exe"),
        };
        (settings_dir, fork_exe)
    }

    /// Inspect the current configuration without mutating it.  If the
    /// client is not detected, the result is all-false without
    /// consulting the stored keys.
    pub fn check_client(&self, store: &ForkStore, params: &GitClientInstallerParams) -> (r:
        GitClientCheckResult)
        ensures
            r.client_installed == store.detected_spec(),
            r.prefs_configured == store.configured_spec(),
            r.prefs_up_to_date == store.up_to_date_spec(params.git_shim_path@),
            r.wf(),
    {
        if !Self::is_fork_installed(store) {
            return GitClientCheckResult {
                client_installed: false,
                prefs_configured: false,
                prefs_up_to_date: false,
            };
        }
        let desired = normalize_shim_path(params.git_shim_path.as_str());
        let custom_code = GitInstanceType::Custom.code();
        match store {
            ForkStore::NoBackend => GitClientCheckResult {
                client_installed: false,
                prefs_configured: false,
                prefs_up_to_date: false,
            },
            ForkStore::MacPrefs { git_instance_type, custom_git_path, .. } => {
                let is_custom = match git_instance_type {
                    Some(t) => *t == custom_code,
                    None => false,
                };
                let path_present = custom_git_path.is_some();
                let path_matches = match custom_git_path {
                    Some(p) => str_eq(p.as_str(), desired.as_str()),
                    None => false,
                };
                GitClientCheckResult {
                    client_installed: true,
                    prefs_configured: is_custom && path_present,
                    prefs_up_to_date: is_custom && path_matches,
                }
            },
            ForkStore::WinSettings { doc, .. } => {
                let git_type: Option<i64> = match doc {
                    Some(d) => Self::read_git_instance_type(d),
                    None => None,
                };
                let custom_path: Option<String> = match doc {
                    Some(d) => Self::read_custom_git_path(d),
                    None => None,
                };
                let is_custom = match git_type {
                    Some(t) => t == custom_code,
                    None => false,
                };
                let path_present = custom_path.is_some();
                let path_matches = match &custom_path {
                    Some(p) => str_eq(p.as_str(), desired.as_str()),
                    None => false,
                };
                GitClientCheckResult {
                    client_installed: true,
                    prefs_configured: is_custom && path_present,
                    prefs_up_to_date: is_custom && path_matches,
                }
            },
        }
    }

    /// Plan the installation of the shim path.  Returns `None` if the
    /// client is not detected or the store already reports up to date
    /// (the idempotent no-op).  Otherwise the diff describes the change;
    /// the write is withheld on a dry run and is exactly the change the
    /// diff describes otherwise, so a dry run predicts precisely what a
    /// non-dry-run call on the same store applies.
    pub fn install_prefs(
        &self,
        store: &ForkStore,
        params: &GitClientInstallerParams,
        dry_run: bool,
    ) -> (r: Option<PlannedChange>)
        requires
            store.wf(),
        ensures
            r is Some <==> (store.detected_spec() && !store.up_to_date_spec(
                params.git_shim_path@,
            )),
            r matches Some(pc) ==> {
                &&& pc.diff@ == added_diff_spec(
                    store.location_spec(),
                    store.type_key_spec(),
                    store.path_key_spec(),
                    normalized_path(params.git_shim_path@),
                )
                &&& (dry_run ==> pc.write is None)
                &&& (!dry_run ==> (pc.write matches Some(w) && install_write_shape(
                    *store,
                    params.git_shim_path@,
                    w,
                )))
                &&& (pc.write matches Some(StoreWrite::WinWrite { doc }) ==> doc_wf(doc@))
            },
    {
        let check = self.check_client(store, params);
        if !check.client_installed || check.prefs_up_to_date {
            return None;
        }
        let desired = normalize_shim_path(params.git_shim_path.as_str());
        match store {
            ForkStore::NoBackend => None,
            ForkStore::MacPrefs { .. } => {
                let diff = added_diff(
                    "com.DanPristupov.Fork",
                    "gitInstanceType",
                    "customGitInstancePath",
                    desired.as_str(),
                );
                let write = if dry_run {
                    None
                } else {
                    Some(
                        StoreWrite::MacWrite {
                            git_instance_type: GitInstanceType::Custom.code(),
                            custom_git_path: Some(desired.clone()),
                            remove_custom_path: false,
                        },
                    )
                };
                Some(PlannedChange { diff, write })
            },
            ForkStore::WinSettings { settings_path, doc, .. } => {
                let diff = added_diff(
                    settings_path.as_str(),
                    "GitInstanceType",
                    "CustomGitInstancePath",
                    desired.as_str(),
                );
                let write = if dry_run {
                    None
                } else {
                    let mut nd = match doc {
                        Some(d) => d.duplicate(),
                        None => SettingsDoc::empty(),
                    };
                    proof {
                        assert(doc_wf(nd@));
                        lemma_doc_set_wf(
                            nd@,
                            win_type_key(),
                            ValModel::Int(GitInstanceType::Custom.code_spec()),
                        );
                    }
                    nd.set_int("GitInstanceType", GitInstanceType::Custom.code());
                    proof {
                        lemma_doc_set_wf(
                            nd@,
                            win_path_key(),
                            ValModel::Str(normalized_path(params.git_shim_path@)),
                        );
                    }
                    nd.set_str("CustomGitInstancePath", desired.clone());
                    Some(StoreWrite::WinWrite { doc: nd })
                };
                Some(PlannedChange { diff, write })
            },
        }
    }

    /// Plan the removal of the configuration, back to the system
    /// default.  Returns `None` if the client is not detected or no
    /// custom instance is configured.  The previous values are captured
    /// before mutation, so the diff reports what is removed; the write
    /// is withheld on a dry run, as in `install_prefs`.
    pub fn uninstall_prefs(
        &self,
        store: &ForkStore,
        params: &GitClientInstallerParams,
        dry_run: bool,
    ) -> (r: Option<PlannedChange>)
        requires
            store.wf(),
        ensures
            r is Some <==> store.configured_spec(),
            r matches Some(pc) ==> {
                &&& pc.diff@ == removed_diff_spec(
                    store.location_spec(),
                    store.type_key_spec(),
                    store.path_key_spec(),
                    (match store.stored_type_spec() {
                        Some(t) => t,
                        None => 0i64,
                    }),
                    (match store.stored_path_spec() {
                        Some(p) => p,
                        None => Seq::empty(),
                    }),
                )
                &&& (dry_run ==> pc.write is None)
                &&& (!dry_run ==> (pc.write matches Some(w) && uninstall_write_shape(
                    *store,
                    w,
                )))
                &&& (pc.write matches Some(StoreWrite::WinWrite { doc }) ==> doc_wf(doc@))
            },
    {
        let check = self.check_client(store, params);
        if !check.client_installed || !check.prefs_configured {
            return None;
        }
        match store {
            ForkStore::NoBackend => None,
            ForkStore::MacPrefs { git_instance_type, custom_git_path, .. } => {
                let old_type = match git_instance_type {
                    Some(t) => *t,
                    None => 0,
                };
                let old_path = match custom_git_path {
                    Some(p) => p.clone(),
                    None => String::new(),
                };
                let diff = removed_diff(
                    "com.DanPristupov.Fork",
                    "gitInstanceType",
                    "customGitInstancePath",
                    old_type,
                    old_path.as_str(),
                );
                let write = if dry_run {
                    None
                } else {
                    Some(
                        StoreWrite::MacWrite {
                            git_instance_type: GitInstanceType::System.code(),
                            custom_git_path: None,
                            remove_custom_path: true,
                        },
                    )
                };
                Some(PlannedChange { diff, write })
            },
            ForkStore::WinSettings { settings_path, doc, .. } => {
                match doc {
                    None => None,
                    Some(d) => {
                        let old_type = match Self::read_git_instance_type(d) {
                            Some(t) => t,
                            None => 0,
                        };
                        let old_path = match Self::read_custom_git_path(d) {
                            Some(p) => p,
                            None => String::new(),
                        };
                        let diff = removed_diff(
                            settings_path.as_str(),
                            "GitInstanceType",
                            "CustomGitInstancePath",
                            old_type,
                            old_path.as_str(),
                        );
                        let write = if dry_run {
                            None
                        } else {
                            let mut nd = d.duplicate();
                            proof {
                                lemma_doc_set_wf(
                                    nd@,
                                    win_type_key(),
                                    ValModel::Int(GitInstanceType::System.code_spec()),
                                );
                            }
                            nd.set_int("GitInstanceType", GitInstanceType::System.code());
                            proof {
                                lemma_doc_remove_wf(nd@, win_path_key());
                            }
                            nd.remove_key("CustomGitInstancePath");
                            Some(StoreWrite::WinWrite { doc: nd })
                        };
                        Some(PlannedChange { diff, write })
                    },
                }
            },
        }
    }
}

/// The two Windows key names differ.
proof fn lemma_win_keys_distinct()
    ensures
        win_type_key() != win_path_key(),
{
    reveal_strlit("GitInstanceType");
    reveal_strlit("CustomGitInstancePath");
    assert(win_type_key().len() == 15);
    assert(win_path_key().len() == 21);
}

/// Idempotency: applying the write an install plans makes the store
/// report up to date for that shim path, so a second `install_prefs`
/// with the same path returns `None` while the first returned a diff.
pub proof fn lemma_install_idempotent(
    before: ForkStore,
    shim: Seq<char>,
    w: StoreWrite,
    after: ForkStore,
)
    requires
        before.detected_spec(),
        install_write_shape(before, shim, w),
        applies_to(w, before, after),
    ensures
        after.up_to_date_spec(shim),
{
    match before {
        ForkStore::MacPrefs { .. } => {
        },
        ForkStore::WinSettings { doc, .. } => {
            let m = win_doc_model(doc);
            let t = ValModel::Int(GitInstanceType::Custom.code_spec());
            let p = ValModel::Str(normalized_path(shim));
            let d1 = doc_set(m, win_type_key(), t);
            let d2 = doc_set(d1, win_path_key(), p);
            lemma_win_keys_distinct();
            lemma_doc_get_set_other(d1, win_path_key(), p, win_type_key());
            lemma_doc_get_set_same(m, win_type_key(), t);
            lemma_doc_get_set_same(d1, win_path_key(), p);
        },
        ForkStore::NoBackend => {
        },
    }
}

/// Round trip: from a store with no custom instance configured,
/// applying an install's write and then an uninstall's write restores
/// every field `check_client` reports, and the detection flag is
/// unaffected throughout.
pub proof fn lemma_install_uninstall_round_trip(
    s1: ForkStore,
    shim: Seq<char>,
    w1: StoreWrite,
    s2: ForkStore,
    w2: StoreWrite,
    s3: ForkStore,
)
    requires
        s1.detected_spec(),
        !s1.configured_spec(),
        install_write_shape(s1, shim, w1),
        applies_to(w1, s1, s2),
        uninstall_write_shape(s2, w2),
        applies_to(w2, s2, s3),
    ensures
        s3.detected_spec() == s1.detected_spec(),
        s3.configured_spec() == s1.configured_spec(),
        forall|other: Seq<char>| s3.up_to_date_spec(other) == s1.up_to_date_spec(other),
{
    match s2 {
        ForkStore::MacPrefs { .. } => {
        },
        ForkStore::WinSettings { doc, .. } => {
            let m = win_doc_model(doc);
            let t = ValModel::Int(GitInstanceType::System.code_spec());
            let d1 = doc_set(m, win_type_key(), t);
            let d3 = doc_remove(d1, win_path_key());
            lemma_win_keys_distinct();
            lemma_doc_get_remove_other(d1, win_path_key(), win_type_key());
            lemma_doc_get_set_same(m, win_type_key(), t);
            lemma_doc_get_remove_same(d1, win_path_key());
        },
        ForkStore::NoBackend => {
        },
    }
}

} // verus!
