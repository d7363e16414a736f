use nixos_toolkit::actions::{default_bundles, default_profiles, BundleDef, ProfileDef};
use nixos_toolkit::config::paths;
use nixos_toolkit::nix::{
    generate_all_files, generate_dns_nix, generate_hostname_nix, generate_preview,
    generate_preview_full, generate_selected_nix, generate_selected_nix_full,
    generate_user_groups_nix, resolve_selection, wrap_strings, NixGenError, NixGenOptions,
    NixOutput, TemplateContents,
};

fn profile(id: &str) -> ProfileDef {
    let ps = default_profiles();
    ps.into_iter().find(|p| p.id == id).unwrap()
}

fn bundle(id: &str) -> BundleDef {
    let bs = default_bundles();
    bs.into_iter().find(|b| b.id == id).unwrap()
}

fn selected_text(
    profile: &str,
    bundles: &str,
    dns: &str,
    groups: &str,
    imports: &str,
) -> String {
    format!(
        "# NixOS Toolkit - Managed Configuration\n# DO NOT EDIT MANUALLY - Changes will be overwritten\n#\n# This file is managed by nixos-toolkit. To make changes,\n# use the GUI application and click \"Apply\".\n#\n# Selected profile: {}\n# Enabled bundles: {}\n# DNS servers: {}\n# User groups: {}\n\n{{ config, lib, pkgs, ... }}:\n\n{{\n  imports = [\n{}\n  ];\n}}\n",
        profile, bundles, dns, groups, imports
    )
}

fn no_templates(n: usize) -> TemplateContents {
    TemplateContents { profile: None, bundles: vec![None; n] }
}

#[test]
fn selected_nix_with_nothing_selected() {
    let options = NixGenOptions::default();
    assert_eq!(
        generate_selected_nix_full(&options),
        selected_text("None", "None", "None", "None", "    # No profiles or bundles selected")
    );
    assert_eq!(
        generate_selected_nix(None, &[], None),
        generate_selected_nix_full(&options)
    );
}

#[test]
fn selected_nix_with_full_options() {
    let gnome = profile("gnome");
    let dev = bundle("devtools");
    let gaming = bundle("gaming");
    let options = NixGenOptions {
        profile: Some(&gnome),
        bundles: vec![&dev, &gaming],
        hostname: Some("box"),
        dns_servers: vec!["1.1.1.1".to_string(), "8.8.8.8".to_string()],
        user_groups: vec!["docker".to_string(), "libvirtd".to_string()],
        username: Some("alice"),
    };
    let expected = selected_text(
        "GNOME",
        "Development Tools, Gaming",
        "1.1.1.1, 8.8.8.8",
        "docker, libvirtd",
        "    ../profiles/gnome.nix\n    ../bundles/devtools.nix\n    ../bundles/gaming.nix\n    ./hostname.nix\n    ./dns.nix\n    ./users.nix",
    );
    assert_eq!(generate_selected_nix_full(&options), expected);
}

#[test]
fn selected_nix_needs_a_username_for_users_import() {
    let options = NixGenOptions {
        user_groups: vec!["docker".to_string()],
        ..NixGenOptions::default()
    };
    assert_eq!(
        generate_selected_nix_full(&options),
        selected_text("None", "None", "None", "docker", "    # No profiles or bundles selected")
    );
}

#[test]
fn selected_nix_legacy_entry_point() {
    let kde = profile("kde");
    let office = bundle("office");
    assert_eq!(
        generate_selected_nix(Some(&kde), &[&office], Some("h")),
        selected_text(
            &kde.name,
            &office.name,
            "None",
            "None",
            "    ../profiles/kde.nix\n    ../bundles/office.nix\n    ./hostname.nix"
        )
    );
}

#[test]
fn hostname_snippet() {
    assert_eq!(
        generate_hostname_nix("my-box"),
        "# NixOS Toolkit - Hostname Configuration\n# DO NOT EDIT MANUALLY\n\n{ config, lib, pkgs, ... }:\n\n{\n  networking.hostName = \"my-box\";\n}\n"
    );
}

#[test]
fn dns_snippet() {
    assert_eq!(generate_dns_nix(&Vec::new()), "");
    assert_eq!(
        generate_dns_nix(&vec!["1.1.1.1".to_string(), "9.9.9.9".to_string()]),
        "# NixOS Toolkit - DNS Configuration\n# DO NOT EDIT MANUALLY\n\n{ config, lib, pkgs, ... }:\n\n{\n  networking.nameservers = [\n    \"1.1.1.1\"\n    \"9.9.9.9\"\n  ];\n}\n"
    );
}

#[test]
fn user_groups_snippet() {
    assert_eq!(generate_user_groups_nix("", &vec!["docker".to_string()]), "");
    assert_eq!(generate_user_groups_nix("bob", &Vec::new()), "");
    assert_eq!(
        generate_user_groups_nix("bob", &vec!["docker".to_string(), "wheel".to_string()]),
        "# NixOS Toolkit - User Groups Configuration\n# DO NOT EDIT MANUALLY\n\n{ config, lib, pkgs, ... }:\n\n{\n  users.users.bob = {\n    extraGroups = [ \"docker\" \"wheel\" ];\n  };\n}\n"
    );
}

#[test]
fn preview_without_templates() {
    let options = NixGenOptions { hostname: Some("h1"), ..NixGenOptions::default() };
    let expected = format!(
        "=== Files to be written ===\n\n--- {} ---\n{}\n\n--- {} ---\n{}",
        paths::SELECTED_NIX,
        generate_selected_nix_full(&options),
        paths::HOSTNAME_NIX,
        generate_hostname_nix("h1")
    );
    assert_eq!(generate_preview_full(&options, &no_templates(0)), expected);
    assert_eq!(generate_preview(None, &[], Some("h1"), &no_templates(0)), expected);
}

#[test]
fn preview_with_templates_and_snippets() {
    let gnome = profile("gnome");
    let dev = bundle("devtools");
    let gaming = bundle("gaming");
    let options = NixGenOptions {
        profile: Some(&gnome),
        bundles: vec![&dev, &gaming],
        hostname: None,
        dns_servers: vec!["1.1.1.1".to_string()],
        user_groups: vec!["docker".to_string()],
        username: Some("amy"),
    };
    let templates = TemplateContents {
        profile: Some("PROFILE".to_string()),
        bundles: vec![None, Some("GAMING".to_string())],
    };
    let expected = format!(
        "=== Files to be written ===\n\n--- {} ---\n{}\n\n--- {} ---\n{}\n--- {} ---\n{}\n--- /etc/nixos/nixos-toolkit/profiles/gnome.nix ---\nPROFILE\n--- /etc/nixos/nixos-toolkit/bundles/gaming.nix ---\nGAMING",
        paths::SELECTED_NIX,
        generate_selected_nix_full(&options),
        paths::DNS_NIX,
        generate_dns_nix(&options.dns_servers),
        paths::USERS_NIX,
        generate_user_groups_nix("amy", &options.user_groups)
    );
    assert_eq!(generate_preview_full(&options, &templates), expected);
}

#[test]
fn generated_files_follow_the_preview() {
    let gnome = profile("gnome");
    let dev = bundle("devtools");
    let gaming = bundle("gaming");
    let options = NixGenOptions {
        profile: Some(&gnome),
        bundles: vec![&dev, &gaming],
        hostname: Some("box"),
        dns_servers: Vec::new(),
        user_groups: vec!["docker".to_string()],
        username: None,
    };
    let templates = TemplateContents {
        profile: Some("P".to_string()),
        bundles: vec![Some("D".to_string()), None],
    };
    let files = generate_all_files(&options, &templates);
    let paths_written: Vec<&str> = files.iter().map(|f| f.path.as_str()).collect();
    assert_eq!(
        paths_written,
        vec![
            paths::SELECTED_NIX,
            paths::HOSTNAME_NIX,
            "/etc/nixos/nixos-toolkit/profiles/gnome.nix",
            "/etc/nixos/nixos-toolkit/bundles/devtools.nix"
        ]
    );
    assert_eq!(files[0].content, generate_selected_nix_full(&options));
    assert_eq!(files[1].content, generate_hostname_nix("box"));
    assert_eq!(files[2].content, "P");
    assert_eq!(files[3].content, "D");
    let mut preview = format!(
        "=== Files to be written ===\n\n--- {} ---\n{}\n",
        files[0].path, files[0].content
    );
    for f in &files[1..] {
        preview.push_str(&format!("\n--- {} ---\n{}", f.path, f.content));
    }
    assert_eq!(generate_preview_full(&options, &templates), preview);
    for f in &files {
        assert!(f.path.starts_with(paths::MANAGED_DIR));
    }
}

#[test]
fn generated_snippets_are_marked_managed() {
    let options = NixGenOptions {
        hostname: Some("box"),
        dns_servers: vec!["1.1.1.1".to_string()],
        user_groups: vec!["docker".to_string()],
        username: Some("amy"),
        ..NixGenOptions::default()
    };
    let files = generate_all_files(&options, &no_templates(0));
    assert_eq!(files.len(), 4);
    for f in &files {
        assert!(f.content.starts_with("# NixOS Toolkit - "));
        assert!(f.content.contains("DO NOT EDIT MANUALLY"));
    }
}

#[test]
fn resolving_a_selection() {
    let (p, bs) = resolve_selection(&Some("kde".to_string()), &vec!["gaming".to_string(), "office".to_string()])
        .unwrap();
    assert_eq!(p.unwrap().id, "kde");
    let ids: Vec<&str> = bs.iter().map(|b| b.id.as_str()).collect();
    assert_eq!(ids, vec!["gaming", "office"]);
    let (p, bs) = resolve_selection(&None, &Vec::new()).unwrap();
    assert!(p.is_none());
    assert!(bs.is_empty());
}

#[test]
fn resolving_unknown_ids_fails() {
    match resolve_selection(&Some("windows".to_string()), &vec!["nope".to_string()]) {
        Err(e) => assert_eq!(e.to_string(), "Invalid configuration: Unknown profile: windows"),
        Ok(_) => panic!("an unknown profile must be refused"),
    }
    match resolve_selection(&None, &vec!["gaming".to_string(), "nope".to_string(), "bad".to_string()]) {
        Err(NixGenError::InvalidConfig(m)) => assert_eq!(m, "Unknown bundle: nope"),
        other => panic!("unexpected {:?}", other.map(|_| ())),
    }
}

#[test]
fn error_messages() {
    assert_eq!(
        NixGenError::TemplateNotFound("x.nix".to_string()).to_string(),
        "Template not found: x.nix"
    );
    assert_eq!(NixGenError::ReadError("y".to_string()).to_string(), "Failed to read template: y");
    assert_eq!(NixGenError::InvalidConfig("z".to_string()).to_string(), "Invalid configuration: z");
    assert_eq!(NixGenError::IoError("denied".to_string()).to_string(), "IO error: denied");
}

#[test]
fn small_helpers() {
    let out = NixOutput::default();
    assert_eq!(out.content, "");
    assert_eq!(out.path, "");
    assert_eq!(
        wrap_strings(&vec!["a".to_string(), "b".to_string()], "<", ">"),
        vec!["<a>".to_string(), "<b>".to_string()]
    );
    assert_eq!(paths::managed_dir(), "/etc/nixos/nixos-toolkit");
    assert_eq!(paths::state_dir(), "/etc/nixos/nixos-toolkit/state");
    assert_eq!(paths::selected_nix(), "/etc/nixos/nixos-toolkit/state/selected.nix");
}

#[test]
fn every_imported_snippet_is_previewed() {
    let options = NixGenOptions {
        hostname: Some("box"),
        dns_servers: vec!["1.1.1.1".to_string()],
        user_groups: vec!["docker".to_string()],
        username: Some("amy"),
        ..NixGenOptions::default()
    };
    let selected = generate_selected_nix_full(&options);
    let preview = generate_preview_full(&options, &no_templates(0));
    for name in ["hostname", "dns", "users"] {
        assert!(selected.contains(&format!("    ./{}.nix", name)));
        assert!(preview.contains(&format!("--- /etc/nixos/nixos-toolkit/state/{}.nix ---", name)));
    }
    let bare = NixGenOptions { username: Some("amy"), ..NixGenOptions::default() };
    let selected = generate_selected_nix_full(&bare);
    let preview = generate_preview_full(&bare, &no_templates(0));
    for name in ["hostname", "dns", "users"] {
        assert!(!selected.contains(&format!("./{}.nix", name)));
        assert!(!preview.contains(&format!("/state/{}.nix ---", name)));
    }
}
