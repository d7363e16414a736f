//! System configuration types and paths.

use vstd::prelude::*;

pub mod paths;

verus! {

/// NixOS configuration mode.
#[derive(Debug, Clone, Copy, PartialEq, Eq, Structural)]
pub enum ConfigMode {
    /// Classic configuration.nix style
    Classic,
    /// Flake-based configuration
    Flake,
    /// Unknown or could not be detected
    Unknown,
}

impl ConfigMode {
    pub fn display_name(&self) -> (r: &'static str)
        ensures
            r@ == self.spec_display_name(),
    {
        match self {
            ConfigMode::Classic => "Classic (configuration.nix)",
            ConfigMode::Flake => "Flake-based",
            ConfigMode::Unknown => "Unknown",
        }
    }

    pub open spec fn spec_display_name(self) -> Seq<char> {
        match self {
            ConfigMode::Classic => "Classic (configuration.nix)"@,
            ConfigMode::Flake => "Flake-based"@,
            ConfigMode::Unknown => "Unknown"@,
        }
    }
}

/// Integration status with the toolkit.
#[derive(Debug, Clone, Copy, PartialEq, Eq, Structural)]
pub enum IntegrationStatus {
    /// User has added the import
    Integrated,
    /// Import not detected
    NotIntegrated,
    /// Could not determine (manual check needed)
    Unknown,
}

/// System information detected at runtime.
#[derive(Debug, Clone)]
pub struct SystemInfo {
    /// Whether the system is NixOS
    pub is_nixos: bool,
    /// NixOS version (e.g., "24.05")
    pub nixos_version: Option<String>,
    /// Configuration mode (classic vs flake)
    pub config_mode: ConfigMode,
    /// Path to the main configuration file
    pub config_path: Option<String>,
    /// Whether our module is imported
    pub integration_status: IntegrationStatus,
    /// Current hostname
    pub hostname: Option<String>,
    /// Current desktop environment
    pub current_desktop: Option<String>,
}

/// The content of a [`SystemInfo`].
pub struct SystemInfoView {
    pub is_nixos: bool,
    pub nixos_version: Option<Seq<char>>,
    pub config_mode: ConfigMode,
    pub config_path: Option<Seq<char>>,
    pub integration_status: IntegrationStatus,
    pub hostname: Option<Seq<char>>,
    pub current_desktop: Option<Seq<char>>,
}

impl View for SystemInfo {
    type V = SystemInfoView;

    open spec fn view(&self) -> SystemInfoView {
        SystemInfoView {
            is_nixos: self.is_nixos,
            nixos_version: crate::actions::opt_view(self.nixos_version),
            config_mode: self.config_mode,
            config_path: crate::actions::opt_view(self.config_path),
            integration_status: self.integration_status,
            hostname: crate::actions::opt_view(self.hostname),
            current_desktop: crate::actions::opt_view(self.current_desktop),
        }
    }
}

impl Default for SystemInfo {
    fn default() -> (r: SystemInfo)
        ensures
            !r.is_nixos,
            r.nixos_version.is_none(),
            r.config_mode == ConfigMode::Unknown,
            r.config_path.is_none(),
            r.integration_status == IntegrationStatus::Unknown,
            r.hostname.is_none(),
            r.current_desktop.is_none(),
    {
        SystemInfo {
            is_nixos: false,
            nixos_version: None,
            config_mode: ConfigMode::Unknown,
            config_path: None,
            integration_status: IntegrationStatus::Unknown,
            hostname: None,
            current_desktop: None,
        }
    }
}

} // verus!
