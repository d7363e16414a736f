use nixos_toolkit::ipc;
use nixos_toolkit::state::AppState;

fn strings(items: &[&str]) -> Vec<String> {
    items.iter().map(|s| s.to_string()).collect()
}

fn sorted(mut v: Vec<String>) -> Vec<String> {
    v.sort();
    v
}

#[test]
fn new_state_is_empty() {
    let s = AppState::new();
    assert!(s.selected_profile.is_none());
    assert!(s.enabled_bundles.is_empty());
    assert!(s.dns_servers.is_empty());
    assert!(!s.has_changes);
    assert_eq!(s.summary(), "No selections made");
}

#[test]
fn selecting_and_clearing_a_profile() {
    let mut s = AppState::new();
    s.select_profile("gnome");
    assert_eq!(s.selected_profile.as_deref(), Some("gnome"));
    assert!(s.has_changes);
    s.select_profile("kde");
    assert_eq!(s.selected_profile.as_deref(), Some("kde"));
    s.mark_applied();
    assert!(!s.has_changes);
    s.clear_profile();
    assert!(s.selected_profile.is_none());
    assert!(s.has_changes);
}

#[test]
fn toggling_a_bundle_twice_restores_it() {
    let mut s = AppState::new();
    s.enable_bundle("office");
    s.toggle_bundle("gaming");
    assert!(s.is_bundle_enabled("gaming"));
    s.toggle_bundle("gaming");
    assert!(!s.is_bundle_enabled("gaming"));
    assert!(s.is_bundle_enabled("office"));
    assert_eq!(s.enabled_bundles, strings(&["office"]));
}

#[test]
fn enabling_and_disabling_bundles() {
    let mut s = AppState::new();
    s.enable_bundle("gaming");
    s.enable_bundle("gaming");
    s.enable_bundle("office");
    assert_eq!(sorted(s.enabled_bundles.clone()), strings(&["gaming", "office"]));
    s.disable_bundle("gaming");
    assert!(!s.is_bundle_enabled("gaming"));
    assert!(s.is_bundle_enabled("office"));
    s.disable_bundle("not-there");
    assert_eq!(s.enabled_bundles, strings(&["office"]));
}

#[test]
fn hostname_and_username_clear_when_empty() {
    let mut s = AppState::new();
    s.set_hostname("box");
    assert_eq!(s.hostname.as_deref(), Some("box"));
    s.set_hostname("");
    assert!(s.hostname.is_none());
    s.set_username("amy");
    assert_eq!(s.username.as_deref(), Some("amy"));
    s.set_username("");
    assert!(s.username.is_none());
}

#[test]
fn dns_servers() {
    let mut s = AppState::new();
    s.set_dns_servers(strings(&["1.1.1.1", "", "8.8.8.8"]));
    assert_eq!(s.dns_servers, strings(&["1.1.1.1", "8.8.8.8"]));
    s.mark_applied();
    s.add_dns_server("1.1.1.1");
    assert!(!s.has_changes);
    s.add_dns_server("");
    assert_eq!(s.dns_servers.len(), 2);
    assert!(!s.has_changes);
    s.add_dns_server("9.9.9.9");
    assert_eq!(s.dns_servers, strings(&["1.1.1.1", "8.8.8.8", "9.9.9.9"]));
    assert!(s.has_changes);
    s.clear_dns_servers();
    assert!(s.dns_servers.is_empty());
    s.mark_applied();
    s.clear_dns_servers();
    assert!(!s.has_changes);
}

#[test]
fn user_groups() {
    let mut s = AppState::new();
    s.add_user_group("docker");
    s.add_user_group("docker");
    s.toggle_user_group("libvirtd");
    assert!(s.is_in_group("docker"));
    assert!(s.is_in_group("libvirtd"));
    assert_eq!(s.user_groups.len(), 2);
    s.toggle_user_group("libvirtd");
    assert!(!s.is_in_group("libvirtd"));
    s.remove_user_group("docker");
    assert!(!s.is_in_group("docker"));
    assert!(s.user_groups.is_empty());
}

#[test]
fn ipc_round_trip_keeps_selections() {
    let mut s = AppState::new();
    s.select_profile("kde");
    s.enable_bundle("gaming");
    s.enable_bundle("office");
    s.set_hostname("box");
    s.set_dns_servers(strings(&["1.1.1.1"]));
    s.add_user_group("docker");
    s.set_username("amy");
    let i = s.to_ipc_state();
    assert_eq!(i.selected_profile.as_deref(), Some("kde"));
    assert_eq!(sorted(i.enabled_bundles.clone()), strings(&["gaming", "office"]));
    assert_eq!(i.last_applied, None);
    let back = AppState::from_ipc_state(i);
    assert!(!back.has_changes);
    assert_eq!(back.selected_profile, s.selected_profile);
    assert_eq!(sorted(back.enabled_bundles.clone()), sorted(s.enabled_bundles.clone()));
    assert_eq!(back.hostname, s.hostname);
    assert_eq!(back.dns_servers, s.dns_servers);
    assert_eq!(back.user_groups, s.user_groups);
    assert_eq!(back.username, s.username);
}

#[test]
fn from_ipc_state_drops_duplicates() {
    let i = ipc::AppState {
        selected_profile: None,
        enabled_bundles: strings(&["a", "b", "a"]),
        hostname: None,
        dns_servers: Vec::new(),
        user_groups: strings(&["g", "g"]),
        username: None,
        last_applied: Some("yesterday".to_string()),
    };
    let s = AppState::from_ipc_state(i);
    assert_eq!(sorted(s.enabled_bundles.clone()), strings(&["a", "b"]));
    assert_eq!(s.user_groups, strings(&["g"]));
}

#[test]
fn summary_lists_each_selection() {
    let mut s = AppState::new();
    s.select_profile("gnome");
    s.enable_bundle("gaming");
    s.set_hostname("box");
    s.set_dns_servers(strings(&["1.1.1.1", "8.8.8.8"]));
    s.add_user_group("docker");
    assert_eq!(
        s.summary(),
        "Profile: gnome\nBundles: gaming\nHostname: box\nDNS: 1.1.1.1, 8.8.8.8\nUser groups: docker"
    );
    s.set_username("amy");
    assert_eq!(
        s.summary(),
        "Profile: gnome\nBundles: gaming\nHostname: box\nDNS: 1.1.1.1, 8.8.8.8\nUser amy in groups: docker"
    );
}

#[test]
fn ipc_state_default_is_empty() {
    let d = ipc::AppState::default();
    assert!(d.selected_profile.is_none());
    assert!(d.enabled_bundles.is_empty());
    assert!(d.last_applied.is_none());
}
