//! Setting up a bare repository for serving and pointing its default
//! branch.
//!
//! The functions here decide what is to be done; carrying it out on disk is
//! the caller's part.

use vstd::prelude::*;

verus! {

/// Who may read and write the files of a new repository.
#[derive(Clone, Copy, Debug, PartialEq, Eq, Structural)]
pub enum SharedMode {
    /// Whatever the process umask allows.
    Umask,
    /// Writable by the group.
    Group,
    /// Writable by the group and readable by everyone, so that several
    /// local users and processes can work on the objects.
    All,
}

/// One boolean setting of the repository configuration.
#[derive(Clone, Debug, PartialEq, Eq)]
pub struct ConfigFlag {
    /// The name of the setting, section and key joined by a dot.
    pub key: String,
    /// Whether the setting is switched on.
    pub value: bool,
}

/// Everything that creating a served repository consists of, in the order
/// in which it is carried out: the repository itself with its default
/// branch, the configuration flags, the hook.
#[derive(Clone, Debug, PartialEq, Eq)]
pub struct InitPlan {
    /// Where the repository is created.
    pub path: String,
    /// A served repository has no working tree.
    pub bare: bool,
    /// The permissions of its files.
    pub shared: SharedMode,
    /// The branch that HEAD names from the start.
    pub initial_head: String,
    /// The configuration flags to set, in order.
    pub config: Vec<ConfigFlag>,
    /// The hook file, relative to the repository.
    pub hook_path: String,
    /// The content of the hook file.
    pub hook_script: String,
    /// The permission bits of the hook file.
    pub hook_mode: u32,
}

/// The default branch of a repository that is created without naming one.
pub open spec fn default_branch() -> Seq<char> {
    "develop"@
}

/// The hook that git runs after a push has updated references.
pub open spec fn hook_path() -> Seq<char> {
    "hooks/post-update"@
}

/// The hook script: it refreshes the discovery files after every push that
/// git itself receives.
pub open spec fn hook_script() -> Seq<char> {
    "#!/bin/sh\nexec git update-server-info"@
}

/// Permission bits of an executable file: `rwxr-xr-x`.
pub const HOOK_MODE: u32 = 0o755;

/// The configuration of a served repository.  A plain file server cannot
/// run checks when a push arrives, so both transfer services are switched
/// on and the three protections against non-fast-forward updates, branch
/// deletion and pushes to the current branch are switched off.
pub open spec fn server_flags() -> Seq<(Seq<char>, bool)> {
    seq![
        ("receive.denyNonFastforwards"@, false),
        ("http.receivepack"@, true),
        ("http.uploadpack"@, true),
        ("receive.denyDeletes"@, false),
        ("receive.denyCurrentBranch"@, false),
    ]
}

/// The settings of a list of flags as pairs of key and value.
pub open spec fn flags_of(config: Seq<ConfigFlag>) -> Seq<(Seq<char>, bool)> {
    config.map_values(|f: ConfigFlag| (f.key@, f.value))
}

/// The full name of the reference of a branch.
pub open spec fn branch_ref(branch: Seq<char>) -> Seq<char> {
    "refs/heads/"@ + branch
}

/// Plans the creation of a bare repository at `path` whose default branch
/// is `head_branch`, or `develop` where none is given.
pub fn init_repo(path: &str, head_branch: Option<&str>) -> (plan: InitPlan)
    ensures
        plan.path@ == path@,
        plan.bare,
        plan.shared == SharedMode::All,
        plan.initial_head@ == match head_branch {
            Some(name) => name@,
            None => default_branch(),
        },
        flags_of(plan.config@) == server_flags(),
        plan.hook_path@ == hook_path(),
        plan.hook_script@ == hook_script(),
        plan.hook_mode == HOOK_MODE,
{
    let initial_head = match head_branch {
        Some(name) => name.to_owned(),
        None => "develop".to_owned(),
    };
    let mut config: Vec<ConfigFlag> = Vec::new();
    config.push(ConfigFlag { key: "receive.denyNonFastforwards".to_owned(), value: false });
    config.push(ConfigFlag { key: "http.receivepack".to_owned(), value: true });
    config.push(ConfigFlag { key: "http.uploadpack".to_owned(), value: true });
    config.push(ConfigFlag { key: "receive.denyDeletes".to_owned(), value: false });
    config.push(ConfigFlag { key: "receive.denyCurrentBranch".to_owned(), value: false });
    InitPlan {
        path: path.to_owned(),
        bare: true,
        shared: SharedMode::All,
        initial_head,
        config,
        hook_path: "hooks/post-update".to_owned(),
        hook_script: "#!/bin/sh\nexec git update-server-info".to_owned(),
        hook_mode: HOOK_MODE,
    }
}

/// Names the reference that HEAD is to point at for `branch`:
/// `refs/heads/<branch>`.  The branch need not exist, and its name is not
/// examined.
pub fn set_head(branch: &str) -> (new_head: String)
    ensures
        new_head@ == branch_ref(branch@),
{
    let mut new_head = "refs/heads/".to_owned();
    new_head.append(branch);
    new_head
}

} // verus!
