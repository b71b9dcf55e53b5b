//! The data model of the environment commands that surround the
//! coordination protocol.
//!
//! These types carry what a caller asks for — which environment, which
//! packages, which generation — as plain values. Argument parsing, terminal
//! handling and the work the commands perform against package stores and
//! remote services stay with the caller; the library only fixes the shape of
//! the requests and the few pure computations on them
//! ([`ShellType::exe_path`], [`environment_description`]).

use vstd::prelude::*;

verus! {

/// Which environment a command acts on: a directory, a remote environment
/// by owner and name, or whatever the caller's context selects.
#[derive(Clone, Debug)]
pub enum EnvironmentSelect {
    Dir(String),
    Remote(String),
    Unspecified,
}

impl Default for EnvironmentSelect {
    /// With nothing given, the caller's context selects the environment.
    fn default() -> (r: Self)
        ensures
            r is Unspecified,
    {
        EnvironmentSelect::Unspecified
    }
}

/// Options every environment command shares.
#[derive(Clone, Debug)]
pub struct EnvironmentArgs {
    pub system: Option<String>,
}

/// What `edit` does: replace the manifest, or rename the environment.
#[derive(Clone, Debug)]
pub enum EditAction {
    EditManifest { file: Option<String> },
    Rename { name: String },
}

/// Edit the declarative configuration of an environment.
#[derive(Clone, Debug)]
pub struct Edit {
    pub environment_args: EnvironmentArgs,
    pub environment: EnvironmentSelect,
    pub action: EditAction,
}

/// Delete an environment.
#[derive(Clone, Debug)]
pub struct Delete {
    pub force: bool,
    pub origin: bool,
    pub environment_args: EnvironmentArgs,
    pub environment: EnvironmentSelect,
}

/// Activate an environment: the command whose concurrent callers the
/// start-or-attach protocol coordinates.
#[derive(Clone, Debug)]
pub struct Activate {
    pub environment: EnvironmentSelect,
    pub trust: bool,
    pub run_args: Vec<String>,
}

/// Initialize a new environment in a directory.
#[derive(Clone, Debug)]
pub struct Init {
    pub environment_args: EnvironmentArgs,
    pub dir: Option<String>,
    pub env_name: Option<String>,
}

/// How `list` prints an environment's contents.
#[derive(Clone, Debug)]
pub enum ListMode {
    Config,
    NameOnly,
    Extended,
    All,
}

/// List the packages of an environment.
#[derive(Clone, Debug)]
pub struct List {
    pub environment: EnvironmentSelect,
    pub list_mode: ListMode,
}

/// A package to install under an explicit id.
#[derive(Clone, Debug)]
pub struct PkgWithIdOption {
    pub id: String,
    pub path: String,
}

/// Install packages into an environment.
#[derive(Clone, Debug)]
pub struct Install {
    pub environment_args: EnvironmentArgs,
    pub environment: EnvironmentSelect,
    pub id: Vec<PkgWithIdOption>,
    pub packages: Vec<String>,
}

/// Uninstall packages from an environment.
#[derive(Clone, Debug)]
pub struct Uninstall {
    pub environment: EnvironmentSelect,
    pub packages: Vec<String>,
}

/// Discard the history of an environment.
#[derive(Clone, Debug)]
pub struct WipeHistory {
    pub environment_args: EnvironmentArgs,
    pub environment: EnvironmentSelect,
}

/// List the generations of an environment.
#[derive(Clone, Debug)]
pub struct Generations {
    pub environment_args: EnvironmentArgs,
    pub json: bool,
    pub environment: EnvironmentSelect,
}

/// Show all versions of an environment.
#[derive(Clone, Debug)]
pub struct History {
    pub oneline: bool,
    pub environment_args: EnvironmentArgs,
    pub environment: EnvironmentSelect,
}

/// Send an environment to its remote counterpart.
#[derive(Clone, Debug)]
pub struct Push {
    pub dir: Option<String>,
    pub owner: Option<String>,
    pub force: bool,
}

/// What `pull` acts on: a new environment by its remote id, or an existing
/// managed environment in a directory.
#[derive(Clone, Debug)]
pub enum PullSelect {
    New { dir: Option<String>, remote: String },
    NewAbbreviated { dir: Option<String>, remote: String },
    Existing { dir: Option<String>, force: bool },
}

impl Default for PullSelect {
    /// With nothing given, `pull` refreshes the environment of the caller's
    /// directory.
    fn default() -> (r: Self)
        ensures
            r matches PullSelect::Existing { dir, force } && dir is None && !force,
    {
        PullSelect::Existing { dir: None, force: false }
    }
}

/// Fetch an environment from its remote counterpart.
#[derive(Clone, Debug)]
pub struct Pull {
    pub pull_select: PullSelect,
}

/// Roll an environment back to an earlier generation.
#[derive(Clone, Debug)]
pub struct Rollback {
    pub environment_args: EnvironmentArgs,
    pub environment: Option<String>,
    pub to: Option<u32>,
}

/// Switch an environment to a named generation.
#[derive(Clone, Debug)]
pub struct SwitchGeneration {
    pub environment_args: EnvironmentArgs,
    pub environment: EnvironmentSelect,
    pub generation: u32,
}

/// Whether `update` acts on one environment or on the caller's global
/// inputs.
#[derive(Clone, Debug)]
pub enum EnvironmentOrGlobalSelect {
    Environment(EnvironmentSelect),
    Global,
}

impl Default for EnvironmentOrGlobalSelect {
    /// With nothing given, `update` acts on the selected environment.
    fn default() -> (r: Self)
        ensures
            r matches EnvironmentOrGlobalSelect::Environment(e) && e is Unspecified,
    {
        EnvironmentOrGlobalSelect::Environment(EnvironmentSelect::Unspecified)
    }
}

/// Update the inputs of an environment.
#[derive(Clone, Debug)]
pub struct Update {
    pub environment_args: EnvironmentArgs,
    pub environment_or_global: EnvironmentOrGlobalSelect,
    pub inputs: Vec<String>,
}

/// Upgrade packages of an environment.
#[derive(Clone, Debug)]
pub struct Upgrade {
    pub environment_args: EnvironmentArgs,
    pub environment: EnvironmentSelect,
    pub groups_or_iids: Vec<String>,
}

/// Build a container image out of an environment.
#[derive(Clone, Debug)]
pub struct Containerize {
    pub environment: EnvironmentSelect,
    pub output: Option<String>,
}

/// List the packages of an environment, with store paths or as a machine
/// readable document.
#[derive(Clone, Debug)]
pub enum ListOutput {
    OutPath,
    Json,
}

/// Show the environment of the caller's directory.
#[derive(Clone, Debug)]
pub struct Envs;

/// Write the declarative manifest of an environment out.
#[derive(Clone, Debug)]
pub struct Export {
    pub environment_args: EnvironmentArgs,
    pub environment: Option<String>,
}

/// Run a version-control command against the metadata of an environment.
#[derive(Clone, Debug)]
pub struct Git {
    pub environment_args: EnvironmentArgs,
    pub environment: Option<String>,
    pub git_arguments: Vec<String>,
}

/// Where `import` reads a manifest from.
#[derive(Clone, Debug)]
pub enum ImportFile {
    Stdin,
    Path(String),
}

/// Read a declarative manifest in as a new generation.
#[derive(Clone, Debug)]
pub struct Import {
    pub environment_args: EnvironmentArgs,
    pub environment: Option<String>,
    pub file: ImportFile,
}

/// What `push` sends: the caller's configuration branch, or an environment.
#[derive(Clone, Debug)]
pub enum PushFloxmainOrEnv {
    Main,
    Env { env: Option<String> },
}

/// What `pull` fetches: the caller's configuration branch, or an
/// environment.
#[derive(Clone, Debug)]
pub enum PullFloxmainOrEnv {
    Main,
    Env { env: Option<String>, no_render: bool },
}

/// The shell a caller activates an environment into, with the path of its
/// executable.
#[derive(Clone, Debug)]
pub enum ShellType {
    Bash(String),
    Zsh(String),
}

impl ShellType {
    /// The path of the shell's executable, whichever shell it is.
    pub fn exe_path(&self) -> (r: &String)
        ensures
            (self matches ShellType::Bash(p) ==> r == p),
            (self matches ShellType::Zsh(p) ==> r == p),
    {
        match self {
            ShellType::Bash(path) => path,
            ShellType::Zsh(path) => path,
        }
    }
}

/// An environment a command acts on, resolved to one of its three concrete
/// kinds, with what a caller needs to name it.
#[derive(Clone, Debug)]
pub enum ConcreteEnvironment {
    Path { name: String },
    Managed { owner: String, name: String },
    Remote { owner: String, name: String },
}

/// How an environment is named towards the caller: a path environment by its
/// name, a managed or remote environment as `owner/name`.
pub open spec fn environment_description_spec(e: ConcreteEnvironment) -> Seq<char> {
    match e {
        ConcreteEnvironment::Path { name } => name@,
        ConcreteEnvironment::Managed { owner, name } => owner@ + "/"@ + name@,
        ConcreteEnvironment::Remote { owner, name } => owner@ + "/"@ + name@,
    }
}

/// The name under which messages show an environment to the caller.
pub fn environment_description(environment: &ConcreteEnvironment) -> (r: String)
    ensures
        r@ == environment_description_spec(*environment),
{
    match environment {
        ConcreteEnvironment::Path { name } => name.clone(),
        ConcreteEnvironment::Managed { owner, name } => {
            let mut d = owner.clone();
            d.append("/");
            d.append(name.as_str());
            proof {
                assert(d@ =~= environment_description_spec(*environment));
            }
            d
        },
        ConcreteEnvironment::Remote { owner, name } => {
            let mut d = owner.clone();
            d.append("/");
            d.append(name.as_str());
            proof {
                assert(d@ =~= environment_description_spec(*environment));
            }
            d
        },
    }
}

} // verus!
