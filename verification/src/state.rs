//! The GUI's selection state: the profile, bundles, hostname, DNS servers
//! and user groups chosen so far.

use vstd::prelude::*;

use crate::actions::{clone_opt, opt_view};
use crate::ipc;
use crate::strset::{dedup, distinct, set_contains, set_insert, set_of, set_remove};
use crate::text::{clone_strings, join, join_strings, owned, push_str, views};

verus! {

/// Current application state.
#[derive(Debug, Clone)]
pub struct AppState {
    /// Currently selected profile ID
    pub selected_profile: Option<String>,
    /// Set of enabled bundle IDs, each once
    pub enabled_bundles: Vec<String>,
    /// Custom hostname (if changed from current)
    pub hostname: Option<String>,
    /// Custom DNS servers (e.g., ["1.1.1.1", "8.8.8.8"])
    pub dns_servers: Vec<String>,
    /// User groups to add the user to, each once
    pub user_groups: Vec<String>,
    /// Username for group membership
    pub username: Option<String>,
    /// Whether there are unsaved changes
    pub has_changes: bool,
}

/// The content of an [`AppState`]: the bundles and groups as sets.
pub struct AppStateView {
    pub selected_profile: Option<Seq<char>>,
    pub enabled_bundles: Set<Seq<char>>,
    pub hostname: Option<Seq<char>>,
    pub dns_servers: Seq<Seq<char>>,
    pub user_groups: Set<Seq<char>>,
    pub username: Option<Seq<char>>,
    pub has_changes: bool,
}

impl View for AppState {
    type V = AppStateView;

    open spec fn view(&self) -> AppStateView {
        AppStateView {
            selected_profile: opt_view(self.selected_profile),
            enabled_bundles: set_of(self.enabled_bundles@),
            hostname: opt_view(self.hostname),
            dns_servers: views(self.dns_servers@),
            user_groups: set_of(self.user_groups@),
            username: opt_view(self.username),
            has_changes: self.has_changes,
        }
    }
}

/// `s` with `x` taken out if it holds it, put in if it does not.
pub open spec fn toggled(s: Set<Seq<char>>, x: Seq<char>) -> Set<Seq<char>> {
    if s.contains(x) {
        s.remove(x)
    } else {
        s.insert(x)
    }
}

/// `None` for an empty text, the text otherwise.
pub open spec fn none_if_empty(s: Seq<char>) -> Option<Seq<char>> {
    if s.len() == 0 {
        None
    } else {
        Some(s)
    }
}

/// The non-empty strings of `s`, in order.
pub open spec fn non_empty(s: Seq<Seq<char>>) -> Seq<Seq<char>>
    decreases s.len(),
{
    if s.len() == 0 {
        Seq::empty()
    } else {
        non_empty(s.drop_last()) + if s.last().len() > 0 {
            seq![s.last()]
        } else {
            Seq::empty()
        }
    }
}

/// The state that an IPC state restores, with no unsaved changes.
pub open spec fn spec_from_ipc(i: ipc::AppStateView) -> AppStateView {
    AppStateView {
        selected_profile: i.selected_profile,
        enabled_bundles: i.enabled_bundles.to_set(),
        hostname: i.hostname,
        dns_servers: i.dns_servers,
        user_groups: i.user_groups.to_set(),
        username: i.username,
        has_changes: false,
    }
}

/// The IPC form of a state: the same selections, never applied.
pub open spec fn spec_to_ipc(s: AppState) -> ipc::AppStateView {
    ipc::AppStateView {
        selected_profile: opt_view(s.selected_profile),
        enabled_bundles: views(s.enabled_bundles@),
        hostname: opt_view(s.hostname),
        dns_servers: views(s.dns_servers@),
        user_groups: views(s.user_groups@),
        username: opt_view(s.username),
        last_applied: None,
    }
}

/// Toggling the same bundle (or group) twice gives back the set it started
/// from.
pub proof fn law_toggle_twice(s: Set<Seq<char>>, x: Seq<char>)
    ensures
        toggled(toggled(s, x), x) == s,
{
    if s.contains(x) {
        assert(s.remove(x).insert(x) =~= s);
    } else {
        assert(s.insert(x).remove(x) =~= s);
    }
}

/// After enabling a bundle it is enabled; after disabling it, it is not;
/// the other bundles stay as they were.
pub proof fn law_enable_disable(s: Set<Seq<char>>, x: Seq<char>, y: Seq<char>)
    requires
        x != y,
    ensures
        s.insert(x).contains(x),
        !s.remove(x).contains(x),
        s.insert(x).contains(y) == s.contains(y),
        s.remove(x).contains(y) == s.contains(y),
{
}

/// Converting a state to its IPC form and back keeps every selection and
/// leaves no unsaved change.
pub proof fn law_ipc_round_trip(s: AppState)
    ensures
        spec_from_ipc(spec_to_ipc(s)) == (AppStateView { has_changes: false, ..s@ }),
{
}

/// The lines of the summary of a state.
pub open spec fn summary_parts(s: AppState) -> Seq<Seq<char>> {
    (match opt_view(s.selected_profile) {
        Some(p) => seq!["Profile: "@ + p],
        None => Seq::empty(),
    }) + (if s.enabled_bundles@.len() > 0 {
        seq!["Bundles: "@ + join(views(s.enabled_bundles@), ", "@)]
    } else {
        Seq::empty()
    }) + (match opt_view(s.hostname) {
        Some(h) => seq!["Hostname: "@ + h],
        None => Seq::empty(),
    }) + (if s.dns_servers@.len() > 0 {
        seq!["DNS: "@ + join(views(s.dns_servers@), ", "@)]
    } else {
        Seq::empty()
    }) + (if s.user_groups@.len() > 0 {
        match opt_view(s.username) {
            Some(u) => seq!["User "@ + u + " in groups: "@ + join(views(s.user_groups@), ", "@)],
            None => seq!["User groups: "@ + join(views(s.user_groups@), ", "@)],
        }
    } else {
        Seq::empty()
    })
}

/// The summary of a state.
pub open spec fn spec_summary(s: AppState) -> Seq<char> {
    if summary_parts(s).len() == 0 {
        "No selections made"@
    } else {
        join(summary_parts(s), "\n"@)
    }
}

fn push_line(parts: &mut Vec<String>, line: String)
    ensures
        views(final(parts)@) == views(old(parts)@).push(line@),
{
    assert(views(parts@.push(line)) =~= views(parts@).push(line@));
    parts.push(line);
}

impl AppState {
    /// The bundles and groups hold each string once.
    pub open spec fn wf(&self) -> bool {
        &&& distinct(views(self.enabled_bundles@))
        &&& distinct(views(self.user_groups@))
    }

    /// An empty state with no unsaved changes.
    pub fn new() -> (r: AppState)
        ensures
            r.wf(),
            r@ == (AppStateView {
                selected_profile: None,
                enabled_bundles: Set::empty(),
                hostname: None,
                dns_servers: Seq::empty(),
                user_groups: Set::empty(),
                username: None,
                has_changes: false,
            }),
    {
        let r = AppState {
            selected_profile: None,
            enabled_bundles: Vec::new(),
            hostname: None,
            dns_servers: Vec::new(),
            user_groups: Vec::new(),
            username: None,
            has_changes: false,
        };
        assert(set_of(r.enabled_bundles@) =~= Set::empty());
        assert(set_of(r.user_groups@) =~= Set::empty());
        assert(views(r.dns_servers@) =~= Seq::empty());
        r
    }

    /// Select a profile (replaces any existing selection).
    pub fn select_profile(&mut self, profile_id: &str)
        requires
            old(self).wf(),
        ensures
            final(self).wf(),
            final(self)@ == (AppStateView {
                selected_profile: Some(profile_id@),
                has_changes: true,
                ..old(self)@
            }),
    {
        self.selected_profile = Some(owned(profile_id));
        self.has_changes = true;
    }

    /// Clear profile selection.
    pub fn clear_profile(&mut self)
        requires
            old(self).wf(),
        ensures
            final(self).wf(),
            final(self)@ == (AppStateView { selected_profile: None, has_changes: true, ..old(self)@ }),
    {
        self.selected_profile = None;
        self.has_changes = true;
    }

    /// Toggle a bundle on/off.
    pub fn toggle_bundle(&mut self, bundle_id: &str)
        requires
            old(self).wf(),
        ensures
            final(self).wf(),
            final(self)@ == (AppStateView {
                enabled_bundles: toggled(old(self)@.enabled_bundles, bundle_id@),
                has_changes: true,
                ..old(self)@
            }),
    {
        if set_contains(&self.enabled_bundles, bundle_id) {
            set_remove(&mut self.enabled_bundles, bundle_id);
        } else {
            set_insert(&mut self.enabled_bundles, bundle_id);
        }
        self.has_changes = true;
    }

    /// Enable a bundle.
    pub fn enable_bundle(&mut self, bundle_id: &str)
        requires
            old(self).wf(),
        ensures
            final(self).wf(),
            final(self)@ == (AppStateView {
                enabled_bundles: old(self)@.enabled_bundles.insert(bundle_id@),
                has_changes: true,
                ..old(self)@
            }),
    {
        set_insert(&mut self.enabled_bundles, bundle_id);
        self.has_changes = true;
    }

    /// Disable a bundle.
    pub fn disable_bundle(&mut self, bundle_id: &str)
        requires
            old(self).wf(),
        ensures
            final(self).wf(),
            final(self)@ == (AppStateView {
                enabled_bundles: old(self)@.enabled_bundles.remove(bundle_id@),
                has_changes: true,
                ..old(self)@
            }),
    {
        set_remove(&mut self.enabled_bundles, bundle_id);
        self.has_changes = true;
    }

    /// Check if a bundle is enabled.
    pub fn is_bundle_enabled(&self, bundle_id: &str) -> (r: bool)
        ensures
            r == self@.enabled_bundles.contains(bundle_id@),
    {
        set_contains(&self.enabled_bundles, bundle_id)
    }

    /// Set custom hostname; an empty one clears it.
    pub fn set_hostname(&mut self, hostname: &str)
        requires
            old(self).wf(),
        ensures
            final(self).wf(),
            final(self)@ == (AppStateView {
                hostname: none_if_empty(hostname@),
                has_changes: true,
                ..old(self)@
            }),
    {
        self.hostname = if hostname.is_empty() {
            None
        } else {
            Some(owned(hostname))
        };
        self.has_changes = true;
    }

    /// Set DNS servers, leaving out empty ones.
    pub fn set_dns_servers(&mut self, servers: Vec<String>)
        requires
            old(self).wf(),
        ensures
            final(self).wf(),
            final(self)@ == (AppStateView {
                dns_servers: non_empty(views(servers@)),
                has_changes: true,
                ..old(self)@
            }),
    {
        let mut kept: Vec<String> = Vec::new();
        let mut i: usize = 0;
        while i < servers.len()
            invariant
                i <= servers@.len(),
                views(kept@) == non_empty(views(servers@).take(i as int)),
            decreases servers@.len() - i,
        {
            assert(views(servers@).take(i + 1).drop_last() =~= views(servers@).take(i as int));
            if servers[i].as_str().is_empty() {
                assert(views(kept@) =~= views(kept@) + Seq::<Seq<char>>::empty());
            } else {
                let s = servers[i].clone();
                assert(views(kept@.push(s)) =~= views(kept@) + seq![s@]);
                kept.push(s);
            }
            i = i + 1;
        }
        assert(views(servers@).take(i as int) =~= views(servers@));
        self.dns_servers = kept;
        self.has_changes = true;
    }

    /// Add a DNS server unless it is empty or already listed.
    pub fn add_dns_server(&mut self, server: &str)
        requires
            old(self).wf(),
        ensures
            final(self).wf(),
            final(self)@ == (if server@.len() > 0 && !old(self)@.dns_servers.contains(server@) {
                AppStateView {
                    dns_servers: old(self)@.dns_servers.push(server@),
                    has_changes: true,
                    ..old(self)@
                }
            } else {
                old(self)@
            }),
    {
        if !server.is_empty() && !crate::strset::list_contains(&self.dns_servers, server) {
            let s = owned(server);
            assert(views(self.dns_servers@.push(s)) =~= views(self.dns_servers@).push(s@));
            self.dns_servers.push(s);
            self.has_changes = true;
        }
    }

    /// Clear DNS servers; a change only when there were some.
    pub fn clear_dns_servers(&mut self)
        requires
            old(self).wf(),
        ensures
            final(self).wf(),
            final(self)@ == (if old(self)@.dns_servers.len() > 0 {
                AppStateView { dns_servers: Seq::empty(), has_changes: true, ..old(self)@ }
            } else {
                old(self)@
            }),
    {
        if self.dns_servers.len() > 0 {
            self.dns_servers.clear();
            assert(views(self.dns_servers@) =~= Seq::empty());
            self.has_changes = true;
        }
    }

    /// Toggle a user group on/off.
    pub fn toggle_user_group(&mut self, group: &str)
        requires
            old(self).wf(),
        ensures
            final(self).wf(),
            final(self)@ == (AppStateView {
                user_groups: toggled(old(self)@.user_groups, group@),
                has_changes: true,
                ..old(self)@
            }),
    {
        if set_contains(&self.user_groups, group) {
            set_remove(&mut self.user_groups, group);
        } else {
            set_insert(&mut self.user_groups, group);
        }
        self.has_changes = true;
    }

    /// Add user to a group.
    pub fn add_user_group(&mut self, group: &str)
        requires
            old(self).wf(),
        ensures
            final(self).wf(),
            final(self)@ == (AppStateView {
                user_groups: old(self)@.user_groups.insert(group@),
                has_changes: true,
                ..old(self)@
            }),
    {
        set_insert(&mut self.user_groups, group);
        self.has_changes = true;
    }

    /// Remove user from a group.
    pub fn remove_user_group(&mut self, group: &str)
        requires
            old(self).wf(),
        ensures
            final(self).wf(),
            final(self)@ == (AppStateView {
                user_groups: old(self)@.user_groups.remove(group@),
                has_changes: true,
                ..old(self)@
            }),
    {
        set_remove(&mut self.user_groups, group);
        self.has_changes = true;
    }

    /// Check if user is in a group.
    pub fn is_in_group(&self, group: &str) -> (r: bool)
        ensures
            r == self@.user_groups.contains(group@),
    {
        set_contains(&self.user_groups, group)
    }

    /// Set the username for group membership; an empty one clears it.
    pub fn set_username(&mut self, username: &str)
        requires
            old(self).wf(),
        ensures
            final(self).wf(),
            final(self)@ == (AppStateView {
                username: none_if_empty(username@),
                has_changes: true,
                ..old(self)@
            }),
    {
        self.username = if username.is_empty() {
            None
        } else {
            Some(owned(username))
        };
        self.has_changes = true;
    }

    /// Mark changes as applied.
    pub fn mark_applied(&mut self)
        requires
            old(self).wf(),
        ensures
            final(self).wf(),
            final(self)@ == (AppStateView { has_changes: false, ..old(self)@ }),
    {
        self.has_changes = false;
    }

    /// Convert to IPC state format.
    pub fn to_ipc_state(&self) -> (r: ipc::AppState)
        ensures
            r@ == spec_to_ipc(*self),
    {
        ipc::AppState {
            selected_profile: clone_opt(&self.selected_profile),
            enabled_bundles: clone_strings(&self.enabled_bundles),
            hostname: clone_opt(&self.hostname),
            dns_servers: clone_strings(&self.dns_servers),
            user_groups: clone_strings(&self.user_groups),
            username: clone_opt(&self.username),
            last_applied: None,
        }
    }

    /// Create from IPC state format.
    pub fn from_ipc_state(ipc: ipc::AppState) -> (r: AppState)
        ensures
            r.wf(),
            r@ == spec_from_ipc(ipc@),
    {
        let bundles = dedup(&ipc.enabled_bundles);
        let groups = dedup(&ipc.user_groups);
        AppState {
            selected_profile: ipc.selected_profile,
            enabled_bundles: bundles,
            hostname: ipc.hostname,
            dns_servers: ipc.dns_servers,
            user_groups: groups,
            username: ipc.username,
            has_changes: false,
        }
    }

    /// Get a summary of current selections.
    pub fn summary(&self) -> (r: String)
        ensures
            r@ == spec_summary(*self),
    {
        let mut parts: Vec<String> = Vec::new();
        if let Some(profile) = &self.selected_profile {
            let mut s = owned("Profile: ");
            push_str(&mut s, profile.as_str());
            push_line(&mut parts, s);
        }
        if self.enabled_bundles.len() > 0 {
            let mut s = owned("Bundles: ");
            let j = join_strings(&self.enabled_bundles, ", ");
            push_str(&mut s, j.as_str());
            push_line(&mut parts, s);
        }
        if let Some(hostname) = &self.hostname {
            let mut s = owned("Hostname: ");
            push_str(&mut s, hostname.as_str());
            push_line(&mut parts, s);
        }
        if self.dns_servers.len() > 0 {
            let mut s = owned("DNS: ");
            let j = join_strings(&self.dns_servers, ", ");
            push_str(&mut s, j.as_str());
            push_line(&mut parts, s);
        }
        if self.user_groups.len() > 0 {
            let j = join_strings(&self.user_groups, ", ");
            if let Some(user) = &self.username {
                let mut s = owned("User ");
                push_str(&mut s, user.as_str());
                push_str(&mut s, " in groups: ");
                push_str(&mut s, j.as_str());
                push_line(&mut parts, s);
            } else {
                let mut s = owned("User groups: ");
                push_str(&mut s, j.as_str());
                push_line(&mut parts, s);
            }
        }
        assert(views(parts@) =~= summary_parts(*self));
        if parts.len() == 0 {
            owned("No selections made")
        } else {
            join_strings(&parts, "\n")
        }
    }
}

} // verus!
