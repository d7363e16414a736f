use nixos_toolkit::actions::default_maintenance_actions;
use nixos_toolkit::commands::{
    apply, generate, generation_preview, maintenance_invocation, parse_generation_line,
    parse_generations, str_in, validate,
};
use nixos_toolkit::config::{ConfigMode, IntegrationStatus, SystemInfo};
use nixos_toolkit::integration::{
    classic_integration_snippet, detect_config_mode, detect_helper_integration,
    detect_integration, detect_system, find_config_path, flake_integration_snippet,
    get_system_info, hostname_from_file, parse_nixos_version, SystemProbe,
};
use nixos_toolkit::ipc::{GeneratedFile, HelperResponse, LogLevel, RebuildType};
use nixos_toolkit::nix::NixGenError;
use nixos_toolkit::rebuild::{
    classify_output_line, rebuild_args, rebuild_finished, running_message, RebuildExit,
};

fn strings(items: &[&str]) -> Vec<String> {
    items.iter().map(|s| s.to_string()).collect()
}

fn validation(r: HelperResponse) -> (bool, Vec<String>, Vec<String>) {
    match r {
        HelperResponse::ValidationResult { valid, errors, warnings } => (valid, errors, warnings),
        other => panic!("not a validation result: {:?}", other),
    }
}

fn error_of(r: &HelperResponse) -> (String, Option<String>) {
    match r {
        HelperResponse::Error { message, details } => (message.clone(), details.clone()),
        other => panic!("not an error: {:?}", other),
    }
}

#[test]
fn validate_accepts_a_known_configuration() {
    let (valid, errors, warnings) = validation(validate(
        Some("gnome".to_string()),
        strings(&["devtools", "gaming"]),
        Some("my-host".to_string()),
        true,
    ));
    assert!(valid);
    assert!(errors.is_empty());
    assert!(warnings.is_empty());
}

#[test]
fn validate_reports_errors_and_warnings() {
    let (valid, errors, warnings) = validation(validate(
        Some("windows".to_string()),
        strings(&["gaming", "nope", "fonts"]),
        Some("bad_host".to_string()),
        false,
    ));
    assert!(!valid);
    assert_eq!(errors, strings(&["Hostname contains invalid characters"]));
    assert_eq!(
        warnings,
        strings(&[
            "Unknown profile: windows",
            "Unknown bundle: nope",
            "Unknown bundle: fonts",
            "Managed directory does not exist yet"
        ])
    );
}

#[test]
fn validate_accepts_profiles_it_does_not_list_with_a_warning() {
    let (valid, errors, warnings) =
        validation(validate(Some("hyprland".to_string()), Vec::new(), None, true));
    assert!(valid);
    assert!(errors.is_empty());
    assert_eq!(warnings, strings(&["Unknown profile: hyprland"]));
}

#[test]
fn validate_hostname_rules() {
    let check = |h: &str| validation(validate(None, Vec::new(), Some(h.to_string()), true)).1;
    assert_eq!(check(""), strings(&["Hostname cannot be empty"]));
    assert_eq!(check("a b"), strings(&["Hostname contains invalid characters"]));
    assert_eq!(check(&"a".repeat(63)), Vec::<String>::new());
    assert_eq!(check(&"a".repeat(64)), strings(&["Hostname too long (max 63 characters)"]));
    // 32 two-byte characters: the limit counts bytes, 64 of them here
    assert_eq!(check(&"é".repeat(32)), strings(&["Hostname too long (max 63 characters)"]));
    assert_eq!(check("Über-Host9"), Vec::<String>::new());
}

#[test]
fn membership_in_a_list() {
    assert!(str_in("b", &["a", "b"]));
    assert!(!str_in("c", &["a", "b"]));
    assert!(!str_in("a", &[]));
}

#[test]
fn parse_one_generation_line() {
    let g = parse_generation_line("  42   2024-01-15 10:30:00   (current)").unwrap();
    assert_eq!(g.number, 42);
    assert_eq!(g.date, "2024-01-15 10:30:00");
    assert!(g.current);
    assert!(g.nixos_version.is_none());
    let g = parse_generation_line("7 2023-12-01 08:00:00").unwrap();
    assert_eq!(g.number, 7);
    assert!(!g.current);
    let g = parse_generation_line("3").unwrap();
    assert_eq!(g.date, "Unknown");
    let g = parse_generation_line("5 only").unwrap();
    assert_eq!(g.date, "Unknown");
    assert!(parse_generation_line("").is_none());
    assert!(parse_generation_line("   ").is_none());
    assert!(parse_generation_line("abc 2024-01-01 00:00:00").is_none());
    assert!(parse_generation_line("4294967296 2024-01-01 00:00:00").is_none());
    assert_eq!(parse_generation_line("4294967295 a b").unwrap().number, u32::MAX);
}

#[test]
fn parse_generations_newest_first() {
    let out = "   1   2024-01-01 10:00:00\n   3   2024-01-03 10:00:00   (current)\nnot a generation\n   2   2024-01-02 10:00:00\n";
    let gens = parse_generations(out);
    let numbers: Vec<u32> = gens.iter().map(|g| g.number).collect();
    assert_eq!(numbers, vec![3, 2, 1]);
    assert!(gens[0].current);
    assert!(parse_generations("").is_empty());
}

#[test]
fn parse_generations_keeps_order_of_equal_numbers() {
    let gens = parse_generations("5 a b\n5 c d\n9 e f");
    let dates: Vec<&str> = gens.iter().map(|g| g.date.as_str()).collect();
    assert_eq!(dates, vec!["e f", "a b", "c d"]);
}

#[test]
fn maintenance_commands_are_allowlisted() {
    assert_eq!(maintenance_invocation("nix-collect-garbage -d").unwrap(), strings(&["nix-collect-garbage", "-d"]));
    assert_eq!(
        maintenance_invocation("nix-store --verify --check-contents").unwrap(),
        strings(&["nix-store", "--verify", "--check-contents"])
    );
    let e = maintenance_invocation("rm -rf /").unwrap_err();
    let (message, details) = error_of(&e);
    assert_eq!(message, "Command not allowed");
    assert_eq!(
        details.unwrap(),
        format!(
            "Only these commands are allowed: {:?}",
            [
                "nix-collect-garbage",
                "nix-collect-garbage -d",
                "nix-store --optimise",
                "nix-store --verify --check-contents",
                "nix-channel --update"
            ]
        )
    );
    assert!(maintenance_invocation("nix-collect-garbage ").is_err());
}

#[test]
fn every_maintenance_action_is_allowed() {
    for a in default_maintenance_actions() {
        let parts = maintenance_invocation(&a.command).unwrap();
        assert_eq!(parts.join(" "), a.command);
    }
}

#[test]
fn generation_response_and_preview() {
    let files = vec![
        GeneratedFile { path: "/a".to_string(), content: "A".to_string() },
        GeneratedFile { path: "/b".to_string(), content: "B".to_string() },
    ];
    assert_eq!(generation_preview(&files), "=== /a ===\nA\n\n=== /b ===\nB\n");
    assert_eq!(generation_preview(&Vec::new()), "");
    match generate(Ok(files)) {
        HelperResponse::GenerationResult { files, preview } => {
            assert_eq!(files.len(), 2);
            assert_eq!(preview, "=== /a ===\nA\n\n=== /b ===\nB\n");
        }
        other => panic!("unexpected {:?}", other),
    }
    let r = generate(Err(NixGenError::InvalidConfig("Unknown bundle: x".to_string())));
    assert_eq!(
        error_of(&r),
        (
            "Failed to generate configuration".to_string(),
            Some("Invalid configuration: Unknown bundle: x".to_string())
        )
    );
}

#[test]
fn apply_chooses_the_config_mode() {
    assert_eq!(apply(Ok(Vec::new()), true).unwrap(), ConfigMode::Flake);
    assert_eq!(apply(Ok(Vec::new()), false).unwrap(), ConfigMode::Classic);
    let e = apply(Err(NixGenError::IoError("disk full".to_string())), true).unwrap_err();
    assert_eq!(
        error_of(&e),
        ("Failed to generate configuration".to_string(), Some("IO error: disk full".to_string()))
    );
}

#[test]
fn rebuild_output_levels() {
    assert_eq!(classify_output_line("error: attribute missing"), LogLevel::Error);
    assert_eq!(classify_output_line("Error: bad"), LogLevel::Error);
    assert_eq!(classify_output_line("warning: deprecated"), LogLevel::Warning);
    assert_eq!(classify_output_line("Warning: x"), LogLevel::Warning);
    assert_eq!(classify_output_line("building '/nix/store/...'"), LogLevel::Info);
    assert_eq!(classify_output_line("warning: and error: both"), LogLevel::Error);
}

#[test]
fn rebuild_arguments() {
    assert_eq!(rebuild_args(RebuildType::Switch, ConfigMode::Classic, &None), strings(&["switch"]));
    assert_eq!(rebuild_args(RebuildType::Boot, ConfigMode::Unknown, &None), strings(&["boot"]));
    assert_eq!(
        rebuild_args(RebuildType::DryBuild, ConfigMode::Flake, &Some("  box\n".to_string())),
        strings(&["dry-build", "--flake", "/etc/nixos#box"])
    );
    assert_eq!(
        rebuild_args(RebuildType::Test, ConfigMode::Flake, &None),
        strings(&["test", "--flake", "/etc/nixos#nixos"])
    );
    assert_eq!(running_message(RebuildType::Build), "Running: nixos-rebuild build");
}

#[test]
fn rebuild_outcomes() {
    let ok = rebuild_finished(RebuildType::Switch, RebuildExit::Finished { success: true, code: Some(0) });
    assert_eq!(ok.log_level, LogLevel::Info);
    assert_eq!(ok.log_message, "Build completed successfully!");
    match ok.response {
        HelperResponse::ApplyComplete { success, message } => {
            assert!(success);
            assert_eq!(message, "nixos-rebuild switch completed successfully");
        }
        other => panic!("unexpected {:?}", other),
    }
    let failed = rebuild_finished(RebuildType::Boot, RebuildExit::Finished { success: false, code: Some(2) });
    assert_eq!(failed.log_level, LogLevel::Error);
    assert_eq!(failed.log_message, "Build failed with exit code 2");
    match failed.response {
        HelperResponse::ApplyComplete { success, message } => {
            assert!(!success);
            assert_eq!(message, "nixos-rebuild boot failed with exit code 2");
        }
        other => panic!("unexpected {:?}", other),
    }
    let killed = rebuild_finished(RebuildType::Test, RebuildExit::Finished { success: false, code: None });
    assert_eq!(killed.log_message, "Build failed with exit code -1");
    let lost = rebuild_finished(RebuildType::Switch, RebuildExit::WaitFailed { error: "gone".to_string() });
    assert_eq!(lost.log_message, "Process error: gone");
    assert_eq!(
        error_of(&lost.response),
        ("Failed to wait for nixos-rebuild".to_string(), Some("gone".to_string()))
    );
}

#[test]
fn enum_texts() {
    assert_eq!(RebuildType::DryBuild.as_arg(), "dry-build");
    assert_eq!(RebuildType::Switch.display_name(), "Switch (activate now)");
    assert_eq!(RebuildType::Build.display_name(), "Build only");
    assert_eq!(LogLevel::Warning.as_str(), "WARN");
    assert_eq!(LogLevel::Debug.as_str(), "DEBUG");
    assert_eq!(ConfigMode::Classic.display_name(), "Classic (configuration.nix)");
    assert_eq!(ConfigMode::Flake.display_name(), "Flake-based");
}

fn probe() -> SystemProbe {
    SystemProbe {
        nixos_marker_exists: true,
        os_release: Some("NAME=NixOS\nID=nixos\nVERSION_ID=\"24.05\"\n".to_string()),
        flake_exists: false,
        classic_exists: true,
        configuration_nix: Some("imports = [ ./nixos-toolkit/state/selected.nix ];".to_string()),
        flake_nix: None,
        selected_nix_exists: true,
        managed_dir_exists: true,
        hostname_file: Some("  box \n".to_string()),
        hostname_command: Some("fallback\n".to_string()),
        current_desktop: Some("GNOME".to_string()),
    }
}

#[test]
fn detect_system_from_a_probe() {
    let info: SystemInfo = detect_system(&probe());
    assert!(info.is_nixos);
    assert_eq!(info.nixos_version.as_deref(), Some("24.05"));
    assert_eq!(info.config_mode, ConfigMode::Classic);
    assert_eq!(info.config_path.as_deref(), Some("/etc/nixos/configuration.nix"));
    assert_eq!(info.integration_status, IntegrationStatus::Integrated);
    assert_eq!(info.hostname.as_deref(), Some("box"));
    assert_eq!(info.current_desktop.as_deref(), Some("GNOME"));
    let mut p = probe();
    p.hostname_file = Some("   ".to_string());
    assert_eq!(detect_system(&p).hostname.as_deref(), Some("fallback"));
    p.hostname_file = None;
    p.hostname_command = None;
    assert_eq!(detect_system(&p).hostname, None);
    let mut flake = probe();
    flake.flake_exists = true;
    flake.configuration_nix = Some("{ }".to_string());
    flake.flake_nix = Some("modules = [ ./nixos-toolkit/state/selected.nix ];".to_string());
    let info = detect_system(&flake);
    assert_eq!(info.config_mode, ConfigMode::Flake);
    assert_eq!(info.integration_status, IntegrationStatus::Integrated);
}

#[test]
fn helper_system_info() {
    let mut p = probe();
    p.hostname_file = Some("   ".to_string());
    match get_system_info(&p) {
        HelperResponse::SystemInfo(info) => {
            assert_eq!(info.hostname.as_deref(), Some(""));
            assert_eq!(info.integration_status, IntegrationStatus::Integrated);
        }
        other => panic!("unexpected {:?}", other),
    }
    p.selected_nix_exists = false;
    match get_system_info(&p) {
        HelperResponse::SystemInfo(info) => {
            assert_eq!(info.integration_status, IntegrationStatus::NotIntegrated)
        }
        other => panic!("unexpected {:?}", other),
    }
}

#[test]
fn config_mode_and_path() {
    assert_eq!(detect_config_mode(true, true), ConfigMode::Flake);
    assert_eq!(detect_config_mode(false, true), ConfigMode::Classic);
    assert_eq!(detect_config_mode(false, false), ConfigMode::Unknown);
    assert_eq!(find_config_path(true, false).as_deref(), Some("/etc/nixos/flake.nix"));
    assert_eq!(find_config_path(false, false), None);
}

#[test]
fn integration_detection() {
    let mentions = Some("nixos-toolkit".to_string());
    let silent = Some("{ }".to_string());
    assert_eq!(detect_integration(&mentions, &None), IntegrationStatus::Integrated);
    let flake_import = Some("modules = [ ./nixos-toolkit/state/selected.nix ];".to_string());
    assert_eq!(detect_integration(&silent, &flake_import), IntegrationStatus::Integrated);
    assert_eq!(detect_integration(&silent, &silent), IntegrationStatus::NotIntegrated);
    assert_eq!(detect_integration(&None, &None), IntegrationStatus::NotIntegrated);
    assert_eq!(detect_helper_integration(false, &mentions, &mentions), IntegrationStatus::NotIntegrated);
    assert_eq!(detect_helper_integration(true, &silent, &mentions), IntegrationStatus::Integrated);
    assert_eq!(detect_helper_integration(true, &silent, &None), IntegrationStatus::NotIntegrated);
}

#[test]
fn nixos_version_from_os_release() {
    assert_eq!(parse_nixos_version("VERSION_ID=\"24.05\"").as_deref(), Some("24.05"));
    assert_eq!(parse_nixos_version("ID=nixos\nVERSION_ID=23.11\n").as_deref(), Some("23.11"));
    assert_eq!(parse_nixos_version("VERSION_ID=VERSION_ID=\"x\"\"").as_deref(), Some("x"));
    assert_eq!(parse_nixos_version("ID=nixos"), None);
    assert_eq!(parse_nixos_version(""), None);
    assert_eq!(hostname_from_file(&Some(" h \n".to_string())).as_deref(), Some("h"));
    assert_eq!(hostname_from_file(&Some("\n".to_string())), None);
}

#[test]
fn integration_snippets() {
    assert_eq!(
        classic_integration_snippet(),
        "# Add this line to your imports list in /etc/nixos/configuration.nix:\n\n./nixos-toolkit/state/selected.nix"
    );
    assert_eq!(
        flake_integration_snippet(),
        "# Add this line to your modules list in /etc/nixos/flake.nix:\n\n./nixos-toolkit/state/selected.nix"
    );
}
