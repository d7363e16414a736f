use nixos_toolkit::actions::{
    clone_opt, default_bundles, default_maintenance_actions, default_profiles,
    default_system_actions, lookup_bundle, lookup_profile, strings_of, ActionCategory, ActionId,
    ArmCompat, CpuArch, SystemActionType,
};

#[test]
fn cpu_arch_from_target_arch() {
    assert_eq!(CpuArch::from_target_arch("x86_64"), CpuArch::X86_64);
    assert_eq!(CpuArch::from_target_arch("aarch64"), CpuArch::Aarch64);
    assert_eq!(CpuArch::from_target_arch("riscv64"), CpuArch::Unknown);
    assert_eq!(CpuArch::from_target_arch(""), CpuArch::Unknown);
}

#[test]
fn cpu_arch_is_arm_and_names() {
    assert!(CpuArch::Aarch64.is_arm());
    assert!(!CpuArch::X86_64.is_arm());
    assert!(!CpuArch::Unknown.is_arm());
    assert_eq!(CpuArch::X86_64.display_name(), "x86_64");
    assert_eq!(CpuArch::Aarch64.display_name(), "ARM64 (aarch64)");
    assert_eq!(CpuArch::Unknown.display_name(), "Unknown");
}

#[test]
fn arm_compat_names_and_icons() {
    assert_eq!(ArmCompat::Full.display_name(), "Full ARM support");
    assert_eq!(ArmCompat::Partial.display_name(), "Partial ARM support");
    assert_eq!(ArmCompat::Limited.display_name(), "Limited ARM support");
    assert_eq!(ArmCompat::NotAvailable.display_name(), "x86_64 only");
    assert_eq!(ArmCompat::Full.icon_name(), "emblem-ok-symbolic");
    assert_eq!(ArmCompat::Partial.icon_name(), "dialog-warning-symbolic");
    assert_eq!(ArmCompat::Limited.icon_name(), "dialog-warning-symbolic");
    assert_eq!(ArmCompat::NotAvailable.icon_name(), "action-unavailable-symbolic");
}

#[test]
fn action_id_joins_category_and_name() {
    let id = ActionId::new("bundle", "gaming");
    assert_eq!(id.to_string(), "bundle.gaming");
    assert_eq!(id.0, "bundle.gaming");
    let id = ActionId::from_string("profile.kde".to_string());
    assert_eq!(id.to_string(), "profile.kde");
    assert_eq!(ActionId::new("", "").to_string(), ".");
}

#[test]
fn action_category_names_and_icons() {
    assert_eq!(ActionCategory::Desktop.display_name(), "Desktop Environments");
    assert_eq!(ActionCategory::Development.display_name(), "Development Tools");
    assert_eq!(ActionCategory::System.display_name(), "System Settings");
    assert_eq!(ActionCategory::Network.display_name(), "Networking");
    assert_eq!(ActionCategory::Office.display_name(), "Office & Productivity");
    assert_eq!(ActionCategory::Desktop.icon_name(), "user-desktop-symbolic");
    assert_eq!(ActionCategory::Virtualization.icon_name(), "computer-symbolic");
    assert_eq!(ActionCategory::Office.icon_name(), "x-office-document-symbolic");
}

#[test]
fn profiles_registry_lists_thirteen_desktops() {
    let profiles = default_profiles();
    let ids: Vec<&str> = profiles.iter().map(|p| p.id.as_str()).collect();
    assert_eq!(
        ids,
        vec![
            "gnome",
            "kde",
            "xfce",
            "mate",
            "cinnamon",
            "pantheon",
            "cosmic",
            "hyprland",
            "sway",
            "i3",
            "budgie",
            "lxqt",
            "enlightenment"
        ]
    );
    let gnome = &profiles[0];
    assert_eq!(gnome.name, "GNOME");
    assert_eq!(gnome.display_manager, "gdm");
    assert_eq!(gnome.arm_compat, ArmCompat::Full);
}

#[test]
fn profile_and_bundle_templates_follow_their_ids() {
    for p in default_profiles() {
        assert_eq!(p.template, format!("profiles/{}.nix", p.id));
    }
    for b in default_bundles() {
        assert_eq!(b.template, format!("bundles/{}.nix", b.id));
    }
}

#[test]
fn registry_ids_are_unique() {
    let profiles = default_profiles();
    for i in 0..profiles.len() {
        for j in (i + 1)..profiles.len() {
            assert_ne!(profiles[i].id, profiles[j].id);
        }
    }
    let bundles = default_bundles();
    for i in 0..bundles.len() {
        for j in (i + 1)..bundles.len() {
            assert_ne!(bundles[i].id, bundles[j].id);
        }
    }
}

#[test]
fn bundles_registry_contents() {
    let bundles = default_bundles();
    assert_eq!(bundles.len(), 15);
    assert_eq!(bundles[0].id, "devtools");
    assert_eq!(bundles[0].packages.len(), 14);
    assert_eq!(bundles[0].packages[0], "git");
    assert_eq!(bundles[0].arm_compat, ArmCompat::Partial);
    let gaming = &bundles[lookup_bundle(&bundles, "gaming").unwrap()];
    assert_eq!(gaming.category, ActionCategory::Gaming);
    assert_eq!(gaming.arm_compat, ArmCompat::NotAvailable);
    let fonts = &bundles[14];
    assert_eq!(fonts.id, "fonts");
    assert_eq!(
        fonts.packages,
        vec!["nerd-fonts", "fira-code", "jetbrains-mono", "inter", "noto-fonts"]
    );
    assert_eq!(fonts.arm_note, None);
}

#[test]
fn lookup_finds_registry_entries() {
    let profiles = default_profiles();
    assert_eq!(lookup_profile(&profiles, "gnome"), Some(0));
    assert_eq!(lookup_profile(&profiles, "enlightenment"), Some(12));
    assert_eq!(lookup_profile(&profiles, "windows"), None);
    let bundles = default_bundles();
    assert_eq!(lookup_bundle(&bundles, "devtools"), Some(0));
    assert_eq!(lookup_bundle(&bundles, "nope"), None);
}

#[test]
fn system_actions_registry() {
    let actions = default_system_actions();
    let ids: Vec<&str> = actions.iter().map(|a| a.id.as_str()).collect();
    assert_eq!(ids, vec!["hostname", "dns", "libvirtd_user", "docker_user", "vboxusers"]);
    match &actions[0].action_type {
        SystemActionType::TextInput { placeholder } => assert_eq!(placeholder, "nixos"),
        other => panic!("unexpected action type {:?}", other),
    }
    match &actions[3].action_type {
        SystemActionType::UserGroup { group } => assert_eq!(group, "docker"),
        other => panic!("unexpected action type {:?}", other),
    }
}

#[test]
fn maintenance_actions_registry() {
    let actions = default_maintenance_actions();
    let commands: Vec<&str> = actions.iter().map(|a| a.command.as_str()).collect();
    assert_eq!(
        commands,
        vec![
            "nix-collect-garbage",
            "nix-collect-garbage -d",
            "nix-store --optimise",
            "nix-store --verify --check-contents",
            "nix-channel --update"
        ]
    );
    assert!(actions[1].warning.is_some());
    assert!(actions[0].warning.is_none());
    assert_eq!(actions[1].name, "Delete Old Generations");
}

#[test]
fn copies_of_strings() {
    assert_eq!(strings_of(&["a", "b"]), vec!["a".to_string(), "b".to_string()]);
    assert_eq!(clone_opt(&Some("x".to_string())), Some("x".to_string()));
    assert_eq!(clone_opt(&None), None);
    let p = &default_profiles()[1];
    let q = p.dup();
    assert_eq!(q.id, "kde");
    assert_eq!(q.name, p.name);
}
