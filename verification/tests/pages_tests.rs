use nixos_toolkit::actions::{default_bundles, default_profiles, ArmCompat};
use nixos_toolkit::config::{ConfigMode, IntegrationStatus, SystemInfo};
use nixos_toolkit::ipc::{Generation, HelperResponse, LogLevel};
use nixos_toolkit::pages::{
    apply_event, bundle_row, current_generation, default_service_groups, detect_gpu,
    directories_event, finish_apply_messages, generation_title, hostname_entry,
    integration_check_message, integration_snippet, maintenance_log, maintenance_step,
    onboarding_status, package_subtitle, parse_custom_ports, preview_selection,
    rollback_target, services_config, ssh_root_login, status_banner, toggle_port,
    delete_result_log, generation_row, generations_loaded_log, switch_invocation, switch_log_header,
    switch_result_log, ApplyEvent, BundleSelection, CommandOutcome, HostnameEntry,
    MaintenanceStep, StatusStyle, offers_nvidia_options, HardwareConfig, NetworkConfig,
    apply_step, ApplyInput, ApplyOutput, ApplyPhase,
};
use nixos_toolkit::ipc::{HelperRequest, RebuildType};
use nixos_toolkit::state::AppState;

fn strings(items: &[&str]) -> Vec<String> {
    items.iter().map(|s| s.to_string()).collect()
}

fn sorted(mut v: Vec<String>) -> Vec<String> {
    v.sort();
    v
}

fn info(is_nixos: bool, status: IntegrationStatus) -> SystemInfo {
    SystemInfo {
        is_nixos,
        nixos_version: Some("24.05".to_string()),
        config_mode: ConfigMode::Flake,
        config_path: None,
        integration_status: status,
        hostname: None,
        current_desktop: None,
    }
}

fn generation(number: u32, current: bool) -> Generation {
    Generation {
        number,
        date: "2024-01-01 00:00:00".to_string(),
        current,
        nixos_version: None,
        kernel_version: None,
        config_rev: None,
    }
}

#[test]
fn service_registry() {
    let groups = default_service_groups();
    assert_eq!(groups.len(), 6);
    let total: usize = groups.iter().map(|g| g.services.len()).sum();
    assert_eq!(total, 19);
    assert_eq!(groups[0].services[0].id, "printing");
    let last = groups.last().unwrap();
    assert_eq!(last.title, "System");
    assert_eq!(last.services.last().unwrap().nix_option, "nix.settings.auto-optimise-store");
}

#[test]
fn services_configuration() {
    let c = services_config(&strings(&["docker", "printing", "unknown"]));
    assert!(c.docker);
    assert!(c.printing);
    assert!(!c.avahi);
    assert!(!c.store_optimize);
    let all: Vec<String> = default_service_groups()
        .iter()
        .flat_map(|g| g.services.iter().map(|s| s.id.to_string()))
        .collect();
    let c = services_config(&all);
    assert!(c.printing && c.avahi && c.fwupd && c.upower && c.networkmanager && c.resolved);
    assert!(c.syncthing && c.locate && c.flatpak && c.gnome_keyring && c.dconf && c.docker);
    assert!(c.libvirtd && c.postgresql && c.redis && c.earlyoom && c.auto_upgrade);
    assert!(c.auto_gc && c.store_optimize);
}

#[test]
fn bundle_rows_on_arm_and_x86() {
    let bundles = default_bundles();
    let gaming = bundles.iter().find(|b| b.id == "gaming").unwrap();
    let row = bundle_row(gaming, true);
    assert_eq!(
        row.subtitle,
        format!("{} | \u{26a0}\u{fe0f} {}", gaming.description, gaming.arm_note.as_ref().unwrap())
    );
    assert_eq!(row.compat_icon, Some("action-unavailable-symbolic"));
    assert!(!row.sensitive);
    assert_eq!(row.package_count, "6 packages");
    let row = bundle_row(gaming, false);
    assert_eq!(row.subtitle, gaming.description);
    assert_eq!(row.compat_icon, None);
    assert!(row.sensitive);
    let fonts = bundles.iter().find(|b| b.id == "fonts").unwrap();
    assert_eq!(fonts.arm_compat, ArmCompat::Full);
    let row = bundle_row(fonts, true);
    assert_eq!(row.subtitle, fonts.description);
    assert!(row.sensitive);
    assert_eq!(package_subtitle("git"), "nixpkgs#git");
}

#[test]
fn firewall_ports_stay_sorted() {
    let mut ports: Vec<u16> = Vec::new();
    toggle_port(&mut ports, 443, true);
    toggle_port(&mut ports, 22, true);
    toggle_port(&mut ports, 80, true);
    toggle_port(&mut ports, 22, true);
    assert_eq!(ports, vec![22, 80, 443]);
    toggle_port(&mut ports, 80, false);
    toggle_port(&mut ports, 8080, false);
    assert_eq!(ports, vec![22, 443]);
    parse_custom_ports(&mut ports, "3000, 5432,abc, 70000 ,22,,+8");
    assert_eq!(ports, vec![8, 22, 443, 3000, 5432]);
}

#[test]
fn ssh_root_login_values() {
    assert_eq!(ssh_root_login(Some(0)), "no");
    assert_eq!(ssh_root_login(Some(1)), "prohibit-password");
    assert_eq!(ssh_root_login(Some(2)), "yes");
    assert_eq!(ssh_root_login(Some(7)), "no");
    assert_eq!(ssh_root_login(None), "no");
}

#[test]
fn gpu_detection_from_lspci() {
    let out = "00:00.0 Host bridge: Intel Corporation Device\n01:00.0 VGA compatible controller: NVIDIA Corporation GA104 [GeForce RTX 3070]\n";
    assert_eq!(
        detect_gpu(&Some(out.to_string())),
        "NVIDIA: NVIDIA Corporation GA104 [GeForce RTX 3070]"
    );
    let out = "00:02.0 VGA compatible controller: Intel Corporation UHD Graphics 620";
    assert_eq!(detect_gpu(&Some(out.to_string())), "Intel: Intel Corporation UHD Graphics 620");
    let out = "03:00.0 Display controller: Advanced Micro Devices, Inc. [AMD/ATI] Navi";
    assert_eq!(detect_gpu(&Some(out.to_string())), "AMD: Advanced Micro Devices, Inc. [AMD/ATI] Navi");
    assert_eq!(detect_gpu(&Some("nothing here".to_string())), "Unknown GPU (lspci not available)");
    assert_eq!(detect_gpu(&None), "Unknown GPU (lspci not available)");
}

#[test]
fn hostname_entries() {
    let current = Some("box".to_string());
    assert_eq!(hostname_entry("", &current), HostnameEntry::Empty);
    assert_eq!(hostname_entry("bad host", &current), HostnameEntry::InvalidCharacters);
    assert_eq!(hostname_entry("box", &current), HostnameEntry::Unchanged);
    assert_eq!(hostname_entry("new-box", &current), HostnameEntry::Change);
    assert_eq!(hostname_entry("box", &None), HostnameEntry::Change);
}

#[test]
fn generations_page_logic() {
    let gens = vec![generation(5, false), generation(4, true), generation(3, true)];
    assert_eq!(current_generation(&gens), Some(4));
    assert_eq!(current_generation(&vec![generation(2, false)]), None);
    assert_eq!(rollback_target(&gens, Some(4)), Ok(3));
    assert_eq!(
        rollback_target(&gens, Some(3)),
        Err("Cannot rollback: already at the first generation.\n")
    );
    assert_eq!(rollback_target(&gens, None), Err("Cannot rollback: current generation unknown.\n"));
    // generations 7 to 9 were deleted: the previous one is 6
    let gaps = vec![generation(11, false), generation(10, true), generation(6, false), generation(2, false)];
    assert_eq!(rollback_target(&gaps, Some(10)), Ok(6));
    assert_eq!(rollback_target(&gaps, Some(2)), Err("Cannot rollback: already at the first generation.\n"));
    let row = generation_row(&generation(10, true));
    assert_eq!(row.title, "Generation 10 (current)");
    assert_eq!(row.subtitle, "2024-01-01 00:00:00");
    assert_eq!(row.icon, "emblem-ok-symbolic");
    assert!(row.current_badge && !row.offers_switch && !row.offers_delete);
    let row = generation_row(&generation(6, false));
    assert_eq!(row.title, "Generation 6");
    assert_eq!(row.icon, "document-open-recent-symbolic");
    assert!(!row.current_badge && row.offers_switch && row.offers_delete);
    assert_eq!(generation_title(&generation(12, true)), "Generation 12 (current)");
    assert_eq!(generation_title(&generation(3, false)), "Generation 3");
}

#[test]
fn onboarding_status_rows() {
    let row = onboarding_status(&info(false, IntegrationStatus::Integrated));
    assert_eq!(row.title, "Not NixOS");
    assert_eq!(row.subtitle, "This tool only works on NixOS systems");
    assert_eq!(row.style, StatusStyle::Error);
    let row = onboarding_status(&info(true, IntegrationStatus::NotIntegrated));
    assert_eq!(row.title, "NixOS Detected (Flake-based)");
    assert_eq!(row.subtitle, "Integration: Not integrated | Version: 24.05");
    assert_eq!(row.style, StatusStyle::Warning);
    let mut i = info(true, IntegrationStatus::Integrated);
    i.nixos_version = None;
    let row = onboarding_status(&i);
    assert_eq!(row.subtitle, "Integration: Integrated | Version: unknown");
    assert_eq!(row.style, StatusStyle::Plain);
}

#[test]
fn integration_texts() {
    assert!(integration_snippet(ConfigMode::Flake).contains("flake.nix"));
    assert!(integration_snippet(ConfigMode::Unknown).contains("configuration.nix"));
    assert_eq!(
        integration_check_message(IntegrationStatus::Integrated),
        "Integration verified! You're ready to use the toolkit."
    );
    assert_eq!(
        integration_check_message(IntegrationStatus::Unknown),
        "Could not verify integration. Please check manually."
    );
}

#[test]
fn status_banners() {
    let b = status_banner(&info(false, IntegrationStatus::Integrated));
    assert!(b.revealed);
    assert_eq!(b.title, "Not running on NixOS");
    assert_eq!(b.style, StatusStyle::Error);
    let b = status_banner(&info(true, IntegrationStatus::Integrated));
    assert_eq!(b.title, "Integrated - Ready to apply changes");
    assert_eq!(b.style, StatusStyle::Success);
    let b = status_banner(&info(true, IntegrationStatus::NotIntegrated));
    assert_eq!(b.title, "Setup required - See Getting Started");
    let b = status_banner(&info(true, IntegrationStatus::Unknown));
    assert!(!b.revealed);
}

#[test]
fn maintenance_page_logic() {
    match maintenance_step(true, "Garbage Collect", None) {
        MaintenanceStep::Busy { message } => {
            assert_eq!(message, "Another action is already running. Please wait.\n")
        }
        _ => panic!("a running action must block another"),
    }
    match maintenance_step(false, "Delete Old Generations", Some("careful")) {
        MaintenanceStep::Confirm { heading, body } => {
            assert_eq!(heading, "Run Delete Old Generations?");
            assert_eq!(body, "careful");
        }
        _ => panic!("a warning asks for confirmation"),
    }
    assert!(matches!(maintenance_step(false, "Optimize Store", None), MaintenanceStep::Run));
    assert_eq!(
        maintenance_log("Optimize Store", "nix-store --optimise"),
        "\n--- Running: Optimize Store ---\n$ sudo nix-store --optimise\n\nNote: This action requires root privileges.\nTo run manually: sudo nix-store --optimise\n\nThe helper binary will execute this when fully integrated.\n"
    );
}

#[test]
fn apply_page_events() {
    match apply_event(&HelperResponse::Log { level: LogLevel::Warning, message: "hm".to_string() }) {
        ApplyEvent::Log { text } => assert_eq!(text, "[WARN] hm\n"),
        _ => panic!("a log line is logged"),
    }
    match apply_event(&HelperResponse::ApplyComplete { success: true, message: "done".to_string() }) {
        ApplyEvent::Finished { success, text } => {
            assert!(success);
            assert_eq!(text, "\ndone\n");
        }
        _ => panic!("completion finishes"),
    }
    match apply_event(&HelperResponse::Error { message: "bad".to_string(), details: Some("why".to_string()) }) {
        ApplyEvent::Finished { success, text } => {
            assert!(!success);
            assert_eq!(text, "\nError: bad\nDetails: why\n");
        }
        _ => panic!("an error finishes"),
    }
    assert!(matches!(apply_event(&HelperResponse::Success), ApplyEvent::Ignored));
    match directories_event(&Some(HelperResponse::Success)) {
        ApplyEvent::Log { text } => assert_eq!(text, "Directories ready.\n"),
        _ => panic!("ready directories go on"),
    }
    match directories_event(&Some(HelperResponse::Error { message: "no".to_string(), details: None })) {
        ApplyEvent::Finished { success, text } => {
            assert!(!success);
            assert_eq!(text, "Error: no\n");
        }
        _ => panic!("an error stops"),
    }
    match directories_event(&None) {
        ApplyEvent::Finished { success, text } => {
            assert!(!success);
            assert_eq!(text, "Unexpected response from helper\n");
        }
        _ => panic!("no answer stops"),
    }
    assert_eq!(
        finish_apply_messages(true),
        ("\u{2713} Complete", "\n\u{2713} Configuration applied successfully!\n")
    );
    assert_eq!(
        finish_apply_messages(false),
        ("\u{2717} Failed", "\n\u{2717} Apply failed. Check the log above for details.\n")
    );
}

#[test]
fn preview_selection_follows_the_registry_order() {
    let profiles = default_profiles();
    let bundles = default_bundles();
    let mut s = AppState::new();
    s.select_profile("xfce");
    s.enable_bundle("office");
    s.enable_bundle("devtools");
    s.enable_bundle("not-a-bundle");
    let (p, bs) = preview_selection(&s, &profiles, &bundles);
    assert_eq!(p.unwrap().id, "xfce");
    let ids: Vec<&str> = bs.iter().map(|b| b.id.as_str()).collect();
    assert_eq!(ids, vec!["devtools", "office"]);
    s.select_profile("none-such");
    let (p, _) = preview_selection(&s, &profiles, &bundles);
    assert!(p.is_none());
}

#[test]
fn bundle_package_selection() {
    let mut sel = BundleSelection::new();
    assert_eq!(sel.summary_text(), "No packages selected");
    sel.toggle_bundle("devtools", true, &strings(&["git", "neovim", "git"]));
    sel.toggle_package("gaming", "steam", true);
    sel.toggle_package("gaming", "lutris", true);
    sel.toggle_package("gaming", "lutris", false);
    assert_eq!(sorted(sel.enabled_bundles()), strings(&["devtools", "gaming"]));
    assert_eq!(sorted(sel.enabled_packages()), strings(&["git", "neovim", "steam"]));
    assert_eq!(sorted(sel.bundle_packages("devtools")), strings(&["git", "neovim"]));
    assert!(sel.bundle_packages("office").is_empty());
    assert_eq!(sel.summary_text(), "git, neovim, steam");
    sel.toggle_package("gaming", "steam", false);
    assert_eq!(sel.enabled_bundles(), strings(&["devtools"]));
    sel.toggle_bundle("devtools", false, &Vec::new());
    assert!(sel.enabled_bundles().is_empty());
    assert_eq!(sel.summary_text(), "No packages selected");
}

#[test]
fn shared_packages_are_listed_once() {
    let mut sel = BundleSelection::new();
    sel.toggle_bundle("devtools", true, &strings(&["git", "docker"]));
    sel.toggle_bundle("containers", true, &strings(&["docker", "podman"]));
    assert_eq!(sorted(sel.enabled_packages()), strings(&["docker", "git", "podman"]));
    assert_eq!(sel.summary_text(), "docker, git, podman");
}

#[test]
fn generation_switch_and_delete_texts() {
    assert_eq!(generations_loaded_log(0), "No generations found.\n");
    assert_eq!(generations_loaded_log(12), "Found 12 generations.\n");
    assert_eq!(switch_log_header(42, "boot"), "\n--- Switching to generation 42 (boot) ---\n");
    assert_eq!(
        switch_invocation(42, "switch"),
        strings(&["/nix/var/nix/profiles/system-42", "/bin/switch-to-configuration", "switch"])
    );
    assert_eq!(switch_result_log(&CommandOutcome::Succeeded, "switch"), "Switch successful!\n");
    assert_eq!(
        switch_result_log(&CommandOutcome::Succeeded, "boot"),
        "Switch successful!\nThe selected generation will be activated on next boot.\n"
    );
    assert_eq!(
        switch_result_log(&CommandOutcome::Failed { stderr: "denied".to_string() }, "switch"),
        "Switch failed:\ndenied\n"
    );
    assert_eq!(
        switch_result_log(&CommandOutcome::NotRun, "boot"),
        "Failed to execute switch command.\n"
    );
    assert_eq!(delete_result_log(7, &CommandOutcome::Succeeded), "Generation 7 deleted.\n");
    assert_eq!(
        delete_result_log(7, &CommandOutcome::Failed { stderr: "busy".to_string() }),
        "Delete failed:\nbusy\n"
    );
    assert_eq!(
        delete_result_log(7, &CommandOutcome::NotRun),
        "Failed to execute delete command.\n"
    );
}

#[test]
fn nvidia_options_and_initial_hardware_settings() {
    assert!(offers_nvidia_options("NVIDIA: NVIDIA Corporation GA104", false));
    assert!(offers_nvidia_options("nvidia: something", false));
    assert!(!offers_nvidia_options("NVIDIA: NVIDIA Corporation GA104", true));
    assert!(!offers_nvidia_options("AMD: Navi", false));
    let h = HardwareConfig::initial(true);
    assert_eq!(h.nvidia_driver, Some(0));
    assert!(h.nvidia_modesetting);
    assert!(!h.nvidia_open && !h.tlp_enabled && !h.bluetooth_enabled);
    let h = HardwareConfig::initial(false);
    assert_eq!(h.nvidia_driver, None);
    assert!(!h.nvidia_modesetting);
    assert_eq!(h.audio_server, 0);
    assert_eq!(h.power_profile, 0);
}

#[test]
fn initial_network_settings() {
    let n = NetworkConfig::initial();
    assert!(n.firewall_enabled);
    assert!(n.allowed_tcp_ports.is_empty() && n.allowed_udp_ports.is_empty());
    assert!(!n.ssh_enabled);
    assert_eq!(n.ssh_port, 22);
    assert!(!n.ssh_password_auth);
    assert_eq!(n.ssh_root_login, "no");
    assert!(!n.fail2ban_enabled && !n.tailscale_enabled);
}

#[test]
fn apply_flow_steps() {
    let mut s = AppState::new();
    s.select_profile("kde");
    s.enable_bundle("gaming");
    s.set_hostname("box");
    let (phase, out) = apply_step(ApplyPhase::Idle, ApplyInput::StartRequested, &s);
    assert_eq!(phase, ApplyPhase::AwaitingDirectories);
    assert!(matches!(out, ApplyOutput::SendEnsureDirectories));
    // a second start while one runs is ignored
    let (phase2, out) = apply_step(phase, ApplyInput::StartRequested, &s);
    assert_eq!(phase2, ApplyPhase::AwaitingDirectories);
    assert!(matches!(out, ApplyOutput::Nothing));
    // a helper message before the directories are ready does nothing
    let (p, out) = apply_step(
        phase,
        ApplyInput::HelperAnswered { response: HelperResponse::ApplyComplete { success: true, message: "x".to_string() } },
        &s,
    );
    assert_eq!(p, ApplyPhase::AwaitingDirectories);
    assert!(matches!(out, ApplyOutput::Nothing));
    let (phase, out) =
        apply_step(phase, ApplyInput::DirectoriesAnswered { response: Some(HelperResponse::Success) }, &s);
    assert_eq!(phase, ApplyPhase::Rebuilding);
    match out {
        ApplyOutput::SendApply { request, log } => {
            assert_eq!(log, "Directories ready.\nGenerating configuration and running nixos-rebuild switch...\n\n");
            match request {
                HelperRequest::Apply { selected_profile, enabled_bundles, hostname, rebuild_type } => {
                    assert_eq!(selected_profile.as_deref(), Some("kde"));
                    assert_eq!(enabled_bundles, strings(&["gaming"]));
                    assert_eq!(hostname.as_deref(), Some("box"));
                    assert_eq!(rebuild_type, RebuildType::Switch);
                }
                other => panic!("unexpected request {:?}", other),
            }
        }
        _ => panic!("the apply request follows ready directories"),
    }
    let (phase, out) = apply_step(
        phase,
        ApplyInput::HelperAnswered { response: HelperResponse::Log { level: LogLevel::Info, message: "building".to_string() } },
        &s,
    );
    assert_eq!(phase, ApplyPhase::Rebuilding);
    match out {
        ApplyOutput::Log { text } => assert_eq!(text, "[INFO] building\n"),
        _ => panic!("logs are passed on"),
    }
    let (phase, out) = apply_step(
        phase,
        ApplyInput::HelperAnswered { response: HelperResponse::ApplyComplete { success: true, message: "done".to_string() } },
        &s,
    );
    assert_eq!(phase, ApplyPhase::Idle);
    match out {
        ApplyOutput::Finished { success, text } => {
            assert!(success);
            assert_eq!(text, "\ndone\n");
        }
        _ => panic!("completion finishes"),
    }
}

#[test]
fn apply_flow_stops_without_directories() {
    let s = AppState::new();
    let (phase, out) = apply_step(
        ApplyPhase::AwaitingDirectories,
        ApplyInput::DirectoriesAnswered {
            response: Some(HelperResponse::Error { message: "denied".to_string(), details: Some("polkit".to_string()) }),
        },
        &s,
    );
    assert_eq!(phase, ApplyPhase::Idle);
    match out {
        ApplyOutput::Finished { success, text } => {
            assert!(!success);
            assert_eq!(text, "Error: denied\nDetails: polkit\n");
        }
        _ => panic!("an error stops"),
    }
    let (phase, out) =
        apply_step(ApplyPhase::AwaitingDirectories, ApplyInput::DirectoriesAnswered { response: None }, &s);
    assert_eq!(phase, ApplyPhase::Idle);
    match out {
        ApplyOutput::Finished { success, text } => {
            assert!(!success);
            assert_eq!(text, "Unexpected response from helper\n");
        }
        _ => panic!("no answer stops"),
    }
}
