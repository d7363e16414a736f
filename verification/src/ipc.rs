//! IPC message types for communication between GUI and helper.

use vstd::prelude::*;

use crate::actions::opt_view;
use crate::config::SystemInfo;
use crate::text::views;

verus! {

/// Request from GUI to helper.
#[derive(Debug, Clone)]
pub enum HelperRequest {
    /// Check if helper has required permissions
    CheckPermissions,
    /// Get system information
    GetSystemInfo,
    /// Validate a configuration before applying
    Validate {
        selected_profile: Option<String>,
        enabled_bundles: Vec<String>,
        hostname: Option<String>,
    },
    /// Generate Nix configuration files (dry-run mode)
    Generate {
        selected_profile: Option<String>,
        enabled_bundles: Vec<String>,
        hostname: Option<String>,
        dry_run: bool,
    },
    /// Apply configuration with nixos-rebuild
    Apply {
        selected_profile: Option<String>,
        enabled_bundles: Vec<String>,
        hostname: Option<String>,
        rebuild_type: RebuildType,
    },
    /// Ensure directories exist
    EnsureDirectories,
    /// Read current state from state.json
    ReadState,
    /// Write state to state.json
    WriteState { state: AppState },
    /// List the system generations
    ListGenerations,
    /// Switch to a specific generation
    RollbackGeneration { generation: u32 },
    /// Delete specific generations
    DeleteGenerations { generations: Vec<u32> },
    /// Run one of the allowed maintenance commands
    RunMaintenance { command: String },
}

/// Type of nixos-rebuild to run.
#[derive(Debug, Clone, Copy, PartialEq, Eq, Structural)]
pub enum RebuildType {
    /// nixos-rebuild switch
    Switch,
    /// nixos-rebuild boot
    Boot,
    /// nixos-rebuild test
    Test,
    /// nixos-rebuild build (no activation)
    Build,
    /// nixos-rebuild dry-build
    DryBuild,
}

impl RebuildType {
    /// The `nixos-rebuild` subcommand.
    pub fn as_arg(&self) -> (r: &'static str)
        ensures
            r@ == self.spec_as_arg(),
    {
        match self {
            RebuildType::Switch => "switch",
            RebuildType::Boot => "boot",
            RebuildType::Test => "test",
            RebuildType::Build => "build",
            RebuildType::DryBuild => "dry-build",
        }
    }

    pub open spec fn spec_as_arg(self) -> Seq<char> {
        match self {
            RebuildType::Switch => "switch"@,
            RebuildType::Boot => "boot"@,
            RebuildType::Test => "test"@,
            RebuildType::Build => "build"@,
            RebuildType::DryBuild => "dry-build"@,
        }
    }

    pub fn display_name(&self) -> (r: &'static str)
        ensures
            r@ == self.spec_display_name(),
    {
        match self {
            RebuildType::Switch => "Switch (activate now)",
            RebuildType::Boot => "Boot (activate on reboot)",
            RebuildType::Test => "Test (temporary activation)",
            RebuildType::Build => "Build only",
            RebuildType::DryBuild => "Dry build (show what would build)",
        }
    }

    pub open spec fn spec_display_name(self) -> Seq<char> {
        match self {
            RebuildType::Switch => "Switch (activate now)"@,
            RebuildType::Boot => "Boot (activate on reboot)"@,
            RebuildType::Test => "Test (temporary activation)"@,
            RebuildType::Build => "Build only"@,
            RebuildType::DryBuild => "Dry build (show what would build)"@,
        }
    }
}

/// Response from helper to GUI.
#[derive(Debug, Clone)]
pub enum HelperResponse {
    /// Simple success
    Success,
    /// Operation failed
    Error { message: String, details: Option<String> },
    /// Permissions check result
    Permissions { can_read_config: bool, can_write_managed: bool, can_run_rebuild: bool },
    /// System information
    SystemInfo(SystemInfo),
    /// Validation result
    ValidationResult { valid: bool, errors: Vec<String>, warnings: Vec<String> },
    /// Generated files preview
    GenerationResult { files: Vec<GeneratedFile>, preview: String },
    /// Log output during apply
    Log { level: LogLevel, message: String },
    /// Apply completed
    ApplyComplete { success: bool, message: String },
    /// Current application state
    State(AppState),
    /// The system generations, newest first
    Generations(Vec<Generation>),
    /// Output of a maintenance command
    MaintenanceOutput { stdout: String, stderr: String, success: bool },
}

/// A file that will be/was generated.
#[derive(Debug, Clone)]
pub struct GeneratedFile {
    pub path: String,
    pub content: String,
}

/// The content of a [`GeneratedFile`].
pub struct GeneratedFileView {
    pub path: Seq<char>,
    pub content: Seq<char>,
}

impl View for GeneratedFile {
    type V = GeneratedFileView;

    open spec fn view(&self) -> GeneratedFileView {
        GeneratedFileView { path: self.path@, content: self.content@ }
    }
}

/// A NixOS system generation.
#[derive(Debug, Clone)]
pub struct Generation {
    pub number: u32,
    pub date: String,
    pub current: bool,
    pub nixos_version: Option<String>,
    pub kernel_version: Option<String>,
    pub config_rev: Option<String>,
}

/// The content of a [`Generation`].
pub struct GenerationView {
    pub number: u32,
    pub date: Seq<char>,
    pub current: bool,
    pub nixos_version: Option<Seq<char>>,
    pub kernel_version: Option<Seq<char>>,
    pub config_rev: Option<Seq<char>>,
}

impl View for Generation {
    type V = GenerationView;

    open spec fn view(&self) -> GenerationView {
        GenerationView {
            number: self.number,
            date: self.date@,
            current: self.current,
            nixos_version: opt_view(self.nixos_version),
            kernel_version: opt_view(self.kernel_version),
            config_rev: opt_view(self.config_rev),
        }
    }
}

/// Log level for streaming logs.
#[derive(Debug, Clone, Copy, PartialEq, Eq, Structural)]
pub enum LogLevel {
    Debug,
    Info,
    Warning,
    Error,
}

impl LogLevel {
    pub fn as_str(&self) -> (r: &'static str)
        ensures
            r@ == self.spec_as_str(),
    {
        match self {
            LogLevel::Debug => "DEBUG",
            LogLevel::Info => "INFO",
            LogLevel::Warning => "WARN",
            LogLevel::Error => "ERROR",
        }
    }

    pub open spec fn spec_as_str(self) -> Seq<char> {
        match self {
            LogLevel::Debug => "DEBUG"@,
            LogLevel::Info => "INFO"@,
            LogLevel::Warning => "WARN"@,
            LogLevel::Error => "ERROR"@,
        }
    }
}

/// Persisted application state.
#[derive(Debug, Clone)]
pub struct AppState {
    /// Selected profile ID (e.g., "gnome", "kde")
    pub selected_profile: Option<String>,
    /// Enabled bundle IDs
    pub enabled_bundles: Vec<String>,
    /// Custom hostname (if changed)
    pub hostname: Option<String>,
    /// Custom DNS servers
    pub dns_servers: Vec<String>,
    /// Groups to add the user to
    pub user_groups: Vec<String>,
    /// Username for group membership
    pub username: Option<String>,
    /// Last successful apply timestamp
    pub last_applied: Option<String>,
}

/// The content of an [`AppState`].
pub struct AppStateView {
    pub selected_profile: Option<Seq<char>>,
    pub enabled_bundles: Seq<Seq<char>>,
    pub hostname: Option<Seq<char>>,
    pub dns_servers: Seq<Seq<char>>,
    pub user_groups: Seq<Seq<char>>,
    pub username: Option<Seq<char>>,
    pub last_applied: Option<Seq<char>>,
}

impl View for AppState {
    type V = AppStateView;

    open spec fn view(&self) -> AppStateView {
        AppStateView {
            selected_profile: opt_view(self.selected_profile),
            enabled_bundles: views(self.enabled_bundles@),
            hostname: opt_view(self.hostname),
            dns_servers: views(self.dns_servers@),
            user_groups: views(self.user_groups@),
            username: opt_view(self.username),
            last_applied: opt_view(self.last_applied),
        }
    }
}

impl Default for AppState {
    fn default() -> (r: AppState)
        ensures
            r.selected_profile.is_none(),
            r.enabled_bundles@.len() == 0,
            r.hostname.is_none(),
            r.dns_servers@.len() == 0,
            r.user_groups@.len() == 0,
            r.username.is_none(),
            r.last_applied.is_none(),
    {
        AppState {
            selected_profile: None,
            enabled_bundles: Vec::new(),
            hostname: None,
            dns_servers: Vec::new(),
            user_groups: Vec::new(),
            username: None,
            last_applied: None,
        }
    }
}

} // verus!
