//! The command line of the `fabricks` tool: its commands and their
//! arguments.

use vstd::prelude::*;

verus! {

/// Output format for command results.
#[derive(Debug, Clone, Copy, PartialEq, Eq, Structural)]
pub enum OutputFormat {
    /// Human-readable text output.
    Text,
    /// JSON output for programmatic consumption.
    Json,
}

impl Default for OutputFormat {
    fn default() -> (r: Self)
        ensures
            r == OutputFormat::Text,
    {
        OutputFormat::Text
    }
}

/// Type of configuration file.
#[derive(Debug, Clone, Copy, PartialEq, Eq, Structural)]
pub enum FileType {
    /// Fabrickfile (single service definition).
    Fabrickfile,
    /// fabricks-mortar.toml (multi-service composition).
    Mortar,
}

/// Arguments for the build command.
pub struct BuildArgs {
    /// Path to the Fabrickfile or directory containing one.
    pub path: String,
    /// Tag for the built module (e.g. "my-module:1.0.0").
    pub tag: Option<String>,
    /// Skip running the build command (use pre-built WASM).
    pub no_build: bool,
    /// Output format for build results.
    pub format: OutputFormat,
}

/// Arguments for the run command.
pub struct RunArgs {
    /// Module reference (local path, tag, or registry reference).
    pub module: String,
    /// Arguments to pass to the WASM module.
    pub args: Vec<String>,
    /// Environment variables to pass to the module (NAME=VALUE).
    pub envs: Vec<String>,
    /// Don't enforce capability restrictions.
    pub no_capabilities: bool,
}

/// Arguments for the push command.
pub struct PushArgs {
    /// Module reference to push (local tag).
    pub source: String,
    /// Registry reference to push to.
    pub destination: String,
    /// Accept invalid TLS certificates (for testing).
    pub insecure: bool,
}

/// Arguments for the pull command.
pub struct PullArgs {
    /// Registry reference to pull from.
    pub reference: String,
    /// Local tag to save as.
    pub tag: Option<String>,
    /// Accept invalid TLS certificates (for testing).
    pub insecure: bool,
}

/// Arguments for the inspect command.
pub struct InspectArgs {
    /// Module reference to inspect.
    pub module: String,
    /// Output format for inspection results.
    pub format: OutputFormat,
}

/// Arguments for the login command.
pub struct LoginArgs {
    /// Registry to authenticate with.
    pub registry: String,
    /// Username for authentication.
    pub username: Option<String>,
    /// Password for authentication.
    pub password: Option<String>,
    /// Read password from stdin.
    pub password_stdin: bool,
}

/// Arguments for the logout command.
pub struct LogoutArgs {
    /// Registry to log out from.
    pub registry: String,
}

/// Arguments for the validate command.
pub struct ValidateArgs {
    /// Path to the file or directory to validate.
    pub path: String,
    /// Type of file to validate; detected from the file name if absent.
    pub file_type: Option<FileType>,
    /// Output format for validation results.
    pub format: OutputFormat,
}

/// Daemon subcommands.
pub enum DaemonCommands {
    /// Show daemon information.
    Info {
        /// Output format.
        format: OutputFormat,
        /// Custom socket path.
        socket: Option<String>,
    },
    /// Stop the daemon.
    Stop {
        /// Custom socket path.
        socket: Option<String>,
    },
}

/// Arguments for daemon commands.
pub struct DaemonArgs {
    /// The daemon subcommand.
    pub command: DaemonCommands,
}

/// Service subcommands.
pub enum ServiceCommands {
    /// List all running services.
    List {
        /// Output format.
        format: OutputFormat,
    },
    /// Deploy and start a service from a Fabrickfile.
    Run {
        /// Path to the Fabrickfile or directory containing one.
        path: String,
        /// Path to a pre-built WASM module (skips the build step).
        wasm: Option<String>,
        /// Output format.
        format: OutputFormat,
    },
    /// Get detailed information about a service.
    Inspect {
        /// Service ID or name.
        id: String,
        /// Output format.
        format: OutputFormat,
    },
    /// Start a service.
    Start {
        /// Service ID.
        id: String,
    },
    /// Stop a service.
    Stop {
        /// Service ID.
        id: String,
    },
    /// Scale a service to a target number of replicas.
    Scale {
        /// Service ID.
        id: String,
        /// Target number of replicas.
        replicas: usize,
    },
    /// Remove (delete) a stopped service.
    Remove {
        /// Service ID.
        id: String,
        /// Force removal (stop first if running).
        force: bool,
    },
}

/// Arguments for service commands.
pub struct ServiceArgs {
    /// Custom socket path.
    pub socket: Option<String>,
    /// The service subcommand.
    pub command: ServiceCommands,
}

/// Mortar project subcommands.
pub enum MortarCommands {
    /// Deploy a mortar project.
    Up {
        /// Path to fabricks-mortar.toml or directory containing it.
        path: String,
        /// Output format.
        format: OutputFormat,
    },
    /// Tear down a mortar project.
    Down {
        /// Project name.
        project: String,
    },
    /// Show status of services in a project.
    Status {
        /// Project name.
        project: String,
        /// Output format.
        format: OutputFormat,
    },
    /// List all mortar projects.
    List {
        /// Output format.
        format: OutputFormat,
    },
}

/// Arguments for mortar commands.
pub struct MortarArgs {
    /// Custom socket path.
    pub socket: Option<String>,
    /// The mortar subcommand.
    pub command: MortarCommands,
}

/// Access mode requested for a new network.
#[derive(Debug, Clone, Copy, PartialEq, Eq, Structural)]
pub enum NetworkAccessArg {
    /// Services on the network may be reached from outside.
    External,
    /// Only services on the network may reach each other.
    Internal,
}

/// Isolation mode requested for a new network.
#[derive(Debug, Clone, Copy, PartialEq, Eq, Structural)]
pub enum NetworkIsolationArg {
    /// Members may reach each other.
    Connected,
    /// Members are isolated from each other.
    Isolated,
}

impl NetworkAccessArg {
    /// The access mode's name, as the daemon expects it.
    pub fn name(self) -> (r: &'static str)
        ensures
            r@ == (match self {
                NetworkAccessArg::External => "external"@,
                NetworkAccessArg::Internal => "internal"@,
            }),
    {
        match self {
            NetworkAccessArg::External => "external",
            NetworkAccessArg::Internal => "internal",
        }
    }
}

impl NetworkIsolationArg {
    /// The isolation mode's name, as the daemon expects it.
    pub fn name(self) -> (r: &'static str)
        ensures
            r@ == (match self {
                NetworkIsolationArg::Connected => "connected"@,
                NetworkIsolationArg::Isolated => "isolated"@,
            }),
    {
        match self {
            NetworkIsolationArg::Connected => "connected",
            NetworkIsolationArg::Isolated => "isolated",
        }
    }
}

/// Network subcommands.
pub enum NetworkCommands {
    /// Create a network.
    Create {
        /// Network name.
        name: String,
        /// Optional description.
        description: Option<String>,
        /// Access mode.
        access: NetworkAccessArg,
        /// Isolation mode.
        isolation: NetworkIsolationArg,
        /// Output format.
        format: OutputFormat,
    },
    /// List all networks.
    List {
        /// Output format.
        format: OutputFormat,
    },
    /// Show a network in full.
    Inspect {
        /// Network ID or name.
        network: String,
        /// Output format.
        format: OutputFormat,
    },
    /// Remove a network.
    Remove {
        /// Network ID or name.
        network: String,
    },
    /// Add a service to a network.
    Join {
        /// Network ID or name.
        network: String,
        /// Service ID or name.
        service: String,
    },
    /// Remove a service from a network.
    Leave {
        /// Network ID or name.
        network: String,
        /// Service ID or name.
        service: String,
    },
}

/// Arguments for network commands.
pub struct NetworkArgs {
    /// Custom socket path.
    pub socket: Option<String>,
    /// The network subcommand.
    pub command: NetworkCommands,
}

/// Volume subcommands.
pub enum VolumeCommands {
    /// Create a volume.
    Create {
        /// Volume name.
        name: String,
        /// Optional description.
        description: Option<String>,
        /// Optional size limit.
        size: Option<String>,
        /// Output format.
        format: OutputFormat,
    },
    /// List all volumes.
    List {
        /// Output format.
        format: OutputFormat,
    },
    /// Show a volume in full.
    Inspect {
        /// Volume ID or name.
        volume: String,
        /// Output format.
        format: OutputFormat,
    },
    /// Remove a volume.
    Remove {
        /// Volume ID or name.
        volume: String,
    },
}

/// Arguments for volume commands.
pub struct VolumeArgs {
    /// Custom socket path.
    pub socket: Option<String>,
    /// The volume subcommand.
    pub command: VolumeCommands,
}

/// Available CLI commands.
pub enum Commands {
    /// Build a WASM module from a Fabrickfile.
    Build(BuildArgs),
    /// Run a WASM module locally.
    Run(RunArgs),
    /// Push a module to an OCI registry.
    Push(PushArgs),
    /// Pull a module from an OCI registry.
    Pull(PullArgs),
    /// Inspect a WASM module.
    Inspect(InspectArgs),
    /// Validate configuration files.
    Validate(ValidateArgs),
    /// Log in to an OCI registry.
    Login(LoginArgs),
    /// Log out from an OCI registry.
    Logout(LogoutArgs),
    /// Show version information.
    Version,
    /// Daemon management commands.
    Daemon(DaemonArgs),
    /// Service management commands.
    Service(ServiceArgs),
    /// Mortar project commands.
    Mortar(MortarArgs),
    /// Network management commands.
    Network(NetworkArgs),
    /// Volume management commands.
    Volume(VolumeArgs),
}

/// The `fabricks` command line.
pub struct Cli {
    /// Enable verbose output.
    pub verbose: bool,
    /// The command to run.
    pub command: Commands,
}

} // verus!
