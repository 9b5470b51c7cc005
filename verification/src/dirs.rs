//! Directory layout for the Astrid home and workspace directories.
//!
//! Paths are held as strings and extended the way `Path::join` extends a
//! path with a relative component: one `/` between the parts, none added
//! when the base is empty or already ends with `/`.
//!
//! ```text
//! ~/.astrid/                  (AstridHome)
//! ├── etc/ {config,servers,gateway}.toml, hooks/
//! ├── var/state.db
//! ├── run/ system.sock, system.token, system.ready, deferred.db
//! ├── log/  keys/runtime.key  bin/  wit/  lib/
//! └── home/{principal}/       (PrincipalHome)
//!     ├── .local/{capsules,kv,log,audit,tokens,tmp}
//!     └── .config/env
//! <project>/.astrid/          (WorkspaceDir)
//! ├── capsules/  workspace-id  ASTRID.md
//! ```

use vstd::prelude::*;
use crate::principal::PrincipalId;
use crate::text::{cat, chars_eq, split_chars, split_on, str_to_chars, views, IntoText};

verus! {

/// Current layout version. Written to `etc/layout-version` on first boot.
pub const LAYOUT_VERSION: &'static str = "1";

/// `base` extended by the relative component `seg`.
pub open spec fn join_path(base: Seq<char>, seg: Seq<char>) -> Seq<char> {
    if base.len() == 0 {
        seg
    } else if base.last() == '/' {
        base + seg
    } else {
        base + "/"@ + seg
    }
}

/// Extend `base` by the relative component `seg`.
pub fn join(base: &str, seg: &str) -> (r: String)
    ensures
        r@ == join_path(base@, seg@),
{
    let b = str_to_chars(base);
    if b.len() == 0 {
        String::from_str(seg)
    } else if b[b.len() - 1] == '/' {
        cat(base, seg)
    } else {
        let mut r = cat(base, "/");
        r.append(seg);
        r
    }
}

/// `path` has a `..` component.
pub open spec fn has_parent_component(path: Seq<char>) -> bool {
    exists|i: int| 0 <= i < split_on(path, '/').len() && #[trigger] split_on(path, '/')[i] == ".."@
}

/// Why a home directory setting was refused.
#[derive(Debug, Clone, PartialEq, Eq)]
pub enum HomeDirError {
    /// The variable is not an absolute path.
    NotAbsolute { var_name: String },
    /// The variable holds a `..` component.
    ParentTraversal { var_name: String },
    /// Neither `ASTRID_HOME` nor `HOME` is set.
    NotSet,
}

impl HomeDirError {
    /// Human-readable description of the error.
    pub fn message(&self) -> (r: String)
        ensures
            r@ == match *self {
                HomeDirError::NotAbsolute { var_name } => var_name@ + " must be an absolute path"@,
                HomeDirError::ParentTraversal { var_name } => var_name@
                    + " must not contain '..' path components"@,
                HomeDirError::NotSet => "neither ASTRID_HOME nor HOME environment variable is set"@,
            },
    {
        match self {
            HomeDirError::NotAbsolute { var_name } => cat(var_name.as_str(), " must be an absolute path"),
            HomeDirError::ParentTraversal { var_name } => cat(
                var_name.as_str(),
                " must not contain '..' path components",
            ),
            HomeDirError::NotSet => String::from_str(
                "neither ASTRID_HOME nor HOME environment variable is set",
            ),
        }
    }

    /// Same as [`HomeDirError::message`].
    pub fn to_string(&self) -> (r: String)
        ensures
            r@ == match *self {
                HomeDirError::NotAbsolute { var_name } => var_name@ + " must be an absolute path"@,
                HomeDirError::ParentTraversal { var_name } => var_name@
                    + " must not contain '..' path components"@,
                HomeDirError::NotSet => "neither ASTRID_HOME nor HOME environment variable is set"@,
            },
    {
        self.message()
    }
}

/// Refuse paths holding a `..` component; `var_name` names the setting in
/// the error.
pub fn reject_parent_traversal(path: &str, var_name: &str) -> (r: Result<(), HomeDirError>)
    ensures
        r is Ok <==> !has_parent_component(path@),
        r matches Err(HomeDirError::ParentTraversal { var_name: v }) ==> v@ == var_name@,
        !(r matches Err(HomeDirError::NotAbsolute { .. })),
        !(r matches Err(HomeDirError::NotSet)),
{
    let parts = split_chars(&str_to_chars(path), '/');
    let ghost pv = views(parts@);
    let dots = str_to_chars("..");
    let mut i: usize = 0;
    while i < parts.len()
        invariant
            i <= parts@.len(),
            pv == views(parts@),
            pv == split_on(path@, '/'),
            dots@ == ".."@,
            forall|j: int| 0 <= j < i ==> #[trigger] pv[j] != ".."@,
        decreases parts@.len() - i,
    {
        if chars_eq(&parts[i], &dots) {
            assert(pv[i as int] == ".."@);
            return Err(HomeDirError::ParentTraversal { var_name: String::from_str(var_name) });
        }
        i = i + 1;
    }
    Ok(())
}

/// Global Astrid home directory (`~/.astrid/` or `$ASTRID_HOME`).
#[derive(Debug, Clone)]
pub struct AstridHome {
    root: String,
}

/// Absolute on Unix: starts at the root `/`.
pub open spec fn is_absolute_path(p: Seq<char>) -> bool {
    p.len() > 0 && p[0] == '/'
}

fn is_absolute(p: &str) -> (r: bool)
    ensures
        r == is_absolute_path(p@),
{
    let c = str_to_chars(p);
    c.len() > 0 && c[0] == '/'
}

impl AstridHome {
    pub closed spec fn root_spec(&self) -> Seq<char> {
        self.root@
    }

    /// Resolve the home directory from the values of `$ASTRID_HOME` and
    /// `$HOME`: `$ASTRID_HOME` itself when set, else `$HOME/.astrid`. The
    /// chosen value must be absolute and free of `..` components.
    pub fn resolve_with_env(astrid_home: Option<String>, home: Option<String>) -> (r: Result<
        Self,
        HomeDirError,
    >)
        ensures
            match astrid_home {
                Some(custom) => match r {
                    Ok(h) => h.root_spec() == custom@ && is_absolute_path(custom@)
                        && !has_parent_component(custom@),
                    Err(HomeDirError::NotAbsolute { var_name }) => !is_absolute_path(custom@)
                        && var_name@ == "ASTRID_HOME"@,
                    Err(HomeDirError::ParentTraversal { var_name }) => is_absolute_path(custom@)
                        && has_parent_component(custom@) && var_name@ == "ASTRID_HOME"@,
                    Err(HomeDirError::NotSet) => false,
                },
                None => match home {
                    None => r matches Err(HomeDirError::NotSet),
                    Some(h) => match r {
                        Ok(a) => a.root_spec() == join_path(h@, ".astrid"@) && is_absolute_path(h@)
                            && !has_parent_component(h@),
                        Err(HomeDirError::NotAbsolute { var_name }) => !is_absolute_path(h@)
                            && var_name@ == "HOME"@,
                        Err(HomeDirError::ParentTraversal { var_name }) => is_absolute_path(h@)
                            && has_parent_component(h@) && var_name@ == "HOME"@,
                        Err(HomeDirError::NotSet) => false,
                    },
                },
            },
    {
        match astrid_home {
            Some(custom) => {
                if !is_absolute(custom.as_str()) {
                    return Err(HomeDirError::NotAbsolute { var_name: String::from_str("ASTRID_HOME") });
                }
                match reject_parent_traversal(custom.as_str(), "ASTRID_HOME") {
                    Ok(()) => Ok(AstridHome { root: custom }),
                    Err(e) => Err(e),
                }
            },
            None => match home {
                None => Err(HomeDirError::NotSet),
                Some(h) => {
                    if !is_absolute(h.as_str()) {
                        return Err(HomeDirError::NotAbsolute { var_name: String::from_str("HOME") });
                    }
                    match reject_parent_traversal(h.as_str(), "HOME") {
                        Ok(()) => Ok(AstridHome { root: join(h.as_str(), ".astrid") }),
                        Err(e) => Err(e),
                    }
                },
            },
        }
    }

    /// Create from an explicit path.
    pub fn from_path<S: IntoText>(root: S) -> (r: Self)
        ensures
            r.root_spec() == root.text_view(),
    {
        AstridHome { root: root.into_text() }
    }

    /// Root directory path (`~/.astrid/`).
    pub fn root(&self) -> (r: &str)
        ensures
            r@ == self.root_spec(),
    {
        self.root.as_str()
    }

    /// Configuration directory (`etc/`).
    pub fn etc_dir(&self) -> (r: String)
        ensures
            r@ == join_path(self.root_spec(), "etc"@),
    {
        join(self.root.as_str(), "etc")
    }

    /// Global runtime configuration file (`etc/config.toml`).
    pub fn config_path(&self) -> (r: String)
        ensures
            r@ == join_path(join_path(self.root_spec(), "etc"@), "config.toml"@),
    {
        join(self.etc_dir().as_str(), "config.toml")
    }

    /// MCP servers configuration file (`etc/servers.toml`).
    pub fn servers_config_path(&self) -> (r: String)
        ensures
            r@ == join_path(join_path(self.root_spec(), "etc"@), "servers.toml"@),
    {
        join(self.etc_dir().as_str(), "servers.toml")
    }

    /// Gateway daemon configuration file (`etc/gateway.toml`).
    pub fn gateway_config_path(&self) -> (r: String)
        ensures
            r@ == join_path(join_path(self.root_spec(), "etc"@), "gateway.toml"@),
    {
        join(self.etc_dir().as_str(), "gateway.toml")
    }

    /// System hooks directory (`etc/hooks/`).
    pub fn hooks_dir(&self) -> (r: String)
        ensures
            r@ == join_path(join_path(self.root_spec(), "etc"@), "hooks"@),
    {
        join(self.etc_dir().as_str(), "hooks")
    }

    /// Persistent state directory (`var/`).
    pub fn var_dir(&self) -> (r: String)
        ensures
            r@ == join_path(self.root_spec(), "var"@),
    {
        join(self.root.as_str(), "var")
    }

    /// System KV database (`var/state.db/`).
    pub fn state_db_path(&self) -> (r: String)
        ensures
            r@ == join_path(join_path(self.root_spec(), "var"@), "state.db"@),
    {
        join(self.var_dir().as_str(), "state.db")
    }

    /// Ephemeral runtime directory (`run/`).
    pub fn run_dir(&self) -> (r: String)
        ensures
            r@ == join_path(self.root_spec(), "run"@),
    {
        join(self.root.as_str(), "run")
    }

    /// Kernel Unix domain socket (`run/system.sock`).
    pub fn socket_path(&self) -> (r: String)
        ensures
            r@ == join_path(join_path(self.root_spec(), "run"@), "system.sock"@),
    {
        join(self.run_dir().as_str(), "system.sock")
    }

    /// Session authentication token (`run/system.token`).
    pub fn token_path(&self) -> (r: String)
        ensures
            r@ == join_path(join_path(self.root_spec(), "run"@), "system.token"@),
    {
        join(self.run_dir().as_str(), "system.token")
    }

    /// Daemon readiness sentinel (`run/system.ready`).
    pub fn ready_path(&self) -> (r: String)
        ensures
            r@ == join_path(join_path(self.root_spec(), "run"@), "system.ready"@),
    {
        join(self.run_dir().as_str(), "system.ready")
    }

    /// Deferred queue database (`run/deferred.db/`).
    pub fn deferred_db_path(&self) -> (r: String)
        ensures
            r@ == join_path(join_path(self.root_spec(), "run"@), "deferred.db"@),
    {
        join(self.run_dir().as_str(), "deferred.db")
    }

    /// System log directory (`log/`).
    pub fn log_dir(&self) -> (r: String)
        ensures
            r@ == join_path(self.root_spec(), "log"@),
    {
        join(self.root.as_str(), "log")
    }

    /// Keys directory (`keys/`).
    pub fn keys_dir(&self) -> (r: String)
        ensures
            r@ == join_path(self.root_spec(), "keys"@),
    {
        join(self.root.as_str(), "keys")
    }

    /// Runtime signing key (`keys/runtime.key`).
    pub fn runtime_key_path(&self) -> (r: String)
        ensures
            r@ == join_path(join_path(self.root_spec(), "keys"@), "runtime.key"@),
    {
        join(self.keys_dir().as_str(), "runtime.key")
    }

    /// Content-addressed compiled WASM binaries (`bin/`).
    pub fn bin_dir(&self) -> (r: String)
        ensures
            r@ == join_path(self.root_spec(), "bin"@),
    {
        join(self.root.as_str(), "bin")
    }

    /// Content-addressed WIT interface definitions (`wit/`).
    pub fn wit_dir(&self) -> (r: String)
        ensures
            r@ == join_path(self.root_spec(), "wit"@),
    {
        join(self.root.as_str(), "wit")
    }

    /// Shared WASM component libraries (`lib/`).
    pub fn lib_dir(&self) -> (r: String)
        ensures
            r@ == join_path(self.root_spec(), "lib"@),
    {
        join(self.root.as_str(), "lib")
    }

    /// Principal home directories root (`home/`).
    pub fn home_dir(&self) -> (r: String)
        ensures
            r@ == join_path(self.root_spec(), "home"@),
    {
        join(self.root.as_str(), "home")
    }

    /// The home directory of a principal (`home/{principal}/`).
    pub fn principal_home(&self, id: &PrincipalId) -> (r: PrincipalHome)
        ensures
            r.root_spec() == join_path(join_path(self.root_spec(), "home"@), id@),
    {
        PrincipalHome { root: join(self.home_dir().as_str(), id.as_str()) }
    }
}

/// Per-principal home directory (`~/.astrid/home/{principal}/`).
#[derive(Debug, Clone)]
pub struct PrincipalHome {
    root: String,
}

impl PrincipalHome {
    pub closed spec fn root_spec(&self) -> Seq<char> {
        self.root@
    }

    /// `.local/{leaf}` under the principal home.
    pub open spec fn local_path(&self, leaf: Seq<char>) -> Seq<char> {
        join_path(join_path(self.root_spec(), ".local"@), leaf)
    }

    /// Create from an explicit path.
    pub fn from_path<S: IntoText>(root: S) -> (r: Self)
        ensures
            r.root_spec() == root.text_view(),
    {
        PrincipalHome { root: root.into_text() }
    }

    fn local(&self, leaf: &str) -> (r: String)
        ensures
            r@ == self.local_path(leaf@),
    {
        join(join(self.root.as_str(), ".local").as_str(), leaf)
    }

    /// Principal home root (`home/{principal}/`).
    pub fn root(&self) -> (r: &str)
        ensures
            r@ == self.root_spec(),
    {
        self.root.as_str()
    }

    /// User-installed capsules (`.local/capsules/`).
    pub fn capsules_dir(&self) -> (r: String)
        ensures
            r@ == self.local_path("capsules"@),
    {
        self.local("capsules")
    }

    /// Capsule KV data (`.local/kv/`).
    pub fn kv_dir(&self) -> (r: String)
        ensures
            r@ == self.local_path("kv"@),
    {
        self.local("kv")
    }

    /// Capsule logs (`.local/log/`).
    pub fn log_dir(&self) -> (r: String)
        ensures
            r@ == self.local_path("log"@),
    {
        self.local("log")
    }

    /// Audit chain (`.local/audit/`).
    pub fn audit_dir(&self) -> (r: String)
        ensures
            r@ == self.local_path("audit"@),
    {
        self.local("audit")
    }

    /// Capability tokens (`.local/tokens/`).
    pub fn tokens_dir(&self) -> (r: String)
        ensures
            r@ == self.local_path("tokens"@),
    {
        self.local("tokens")
    }

    /// Temporary files (`.local/tmp/`).
    pub fn tmp_dir(&self) -> (r: String)
        ensures
            r@ == self.local_path("tmp"@),
    {
        self.local("tmp")
    }

    /// Configuration directory (`.config/`).
    pub fn config_dir(&self) -> (r: String)
        ensures
            r@ == join_path(self.root_spec(), ".config"@),
    {
        join(self.root.as_str(), ".config")
    }

    /// Capsule environment config overrides (`.config/env/`).
    pub fn env_dir(&self) -> (r: String)
        ensures
            r@ == join_path(join_path(self.root_spec(), ".config"@), "env"@),
    {
        join(self.config_dir().as_str(), "env")
    }
}

/// Per-project workspace directory (`<project>/.astrid/`).
#[derive(Debug, Clone)]
pub struct WorkspaceDir {
    project_root: String,
}

impl WorkspaceDir {
    pub closed spec fn root_spec(&self) -> Seq<char> {
        self.project_root@
    }

    /// Create from an explicit project root.
    pub fn from_path<S: IntoText>(project_root: S) -> (r: Self)
        ensures
            r.root_spec() == project_root.text_view(),
    {
        WorkspaceDir { project_root: project_root.into_text() }
    }

    /// Project root directory (parent of `.astrid/`).
    pub fn root(&self) -> (r: &str)
        ensures
            r@ == self.root_spec(),
    {
        self.project_root.as_str()
    }

    /// The `.astrid/` directory itself.
    pub fn dot_astrid(&self) -> (r: String)
        ensures
            r@ == join_path(self.root_spec(), ".astrid"@),
    {
        join(self.project_root.as_str(), ".astrid")
    }

    /// Workspace capsules directory (`.astrid/capsules/`).
    pub fn capsules_dir(&self) -> (r: String)
        ensures
            r@ == join_path(join_path(self.root_spec(), ".astrid"@), "capsules"@),
    {
        join(self.dot_astrid().as_str(), "capsules")
    }

    /// The workspace-id file (`.astrid/workspace-id`).
    pub fn workspace_id_path(&self) -> (r: String)
        ensures
            r@ == join_path(join_path(self.root_spec(), ".astrid"@), "workspace-id"@),
    {
        join(self.dot_astrid().as_str(), "workspace-id")
    }

    /// The project-level instructions file (`.astrid/ASTRID.md`).
    pub fn instructions_path(&self) -> (r: String)
        ensures
            r@ == join_path(join_path(self.root_spec(), ".astrid"@), "ASTRID.md"@),
    {
        join(self.dot_astrid().as_str(), "ASTRID.md")
    }
}


/// What workspace detection does at one directory on its way up from the
/// start directory.
#[derive(Debug, Clone, Copy, PartialEq, Eq, Structural)]
pub enum DetectStep {
    /// This directory is the project root.
    Found,
    /// Look in the parent directory next.
    Ascend,
    /// The top was reached without a marker: the start directory is the
    /// project root.
    FallBack,
}

/// The detection decision at a directory: a `.astrid/` directory, a
/// `.git` entry or an `ASTRID.md` file marks the project root; otherwise
/// go up while there is a parent (a different directory), and fall back to
/// the start directory at the top.
pub fn detect_step(has_dot_astrid: bool, has_git: bool, has_astrid_md: bool, has_parent: bool) -> (r:
    DetectStep)
    ensures
        r == (if has_dot_astrid || has_git || has_astrid_md {
            DetectStep::Found
        } else if has_parent {
            DetectStep::Ascend
        } else {
            DetectStep::FallBack
        }),
{
    if has_dot_astrid || has_git || has_astrid_md {
        DetectStep::Found
    } else if has_parent {
        DetectStep::Ascend
    } else {
        DetectStep::FallBack
    }
}

} // verus!
