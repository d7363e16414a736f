//! Nix code generation.

use vstd::prelude::*;

use crate::actions::{
    bundle_views, default_bundles, default_profiles, find_bundle, find_profile, lookup_bundle,
    lookup_profile, spec_default_bundles, spec_default_profiles, BundleDef, BundleView, ProfileDef,
    ProfileView,
};
use crate::ipc::{GeneratedFile, GeneratedFileView};
use crate::config::paths;
use crate::text::{join, join_strings, owned, push_str, views};

verus! {

/// Errors that can occur during Nix generation.
#[derive(Debug)]
pub enum NixGenError {
    TemplateNotFound(String),
    ReadError(String),
    InvalidConfig(String),
    IoError(String),
}

impl NixGenError {
    /// The error's message, as its `Display` form writes it.
    pub fn to_string(&self) -> (r: String)
        ensures
            r@ == self.spec_message(),
    {
        let (prefix, detail) = match self {
            NixGenError::TemplateNotFound(s) => ("Template not found: ", s),
            NixGenError::ReadError(s) => ("Failed to read template: ", s),
            NixGenError::InvalidConfig(s) => ("Invalid configuration: ", s),
            NixGenError::IoError(s) => ("IO error: ", s),
        };
        let mut r = owned(prefix);
        push_str(&mut r, detail.as_str());
        r
    }

    pub open spec fn spec_message(&self) -> Seq<char> {
        match self {
            NixGenError::TemplateNotFound(s) => "Template not found: "@ + s@,
            NixGenError::ReadError(s) => "Failed to read template: "@ + s@,
            NixGenError::InvalidConfig(s) => "Invalid configuration: "@ + s@,
            NixGenError::IoError(s) => "IO error: "@ + s@,
        }
    }
}

/// Output from Nix generation.
#[derive(Debug, Clone)]
pub struct NixOutput {
    /// The generated Nix code
    pub content: String,
    /// Path where this should be written
    pub path: String,
}

impl Default for NixOutput {
    fn default() -> (r: NixOutput)
        ensures
            r.content@.len() == 0,
            r.path@.len() == 0,
    {
        NixOutput { content: String::new(), path: String::new() }
    }
}

/// Configuration options for Nix generation.
#[derive(Debug, Clone)]
pub struct NixGenOptions<'a> {
    pub profile: Option<&'a ProfileDef>,
    pub bundles: Vec<&'a BundleDef>,
    pub hostname: Option<&'a str>,
    pub dns_servers: Vec<String>,
    pub user_groups: Vec<String>,
    pub username: Option<&'a str>,
}

/// The content of a [`NixGenOptions`].
pub struct NixGenOptionsView {
    pub profile: Option<ProfileView>,
    pub bundles: Seq<BundleView>,
    pub hostname: Option<Seq<char>>,
    pub dns_servers: Seq<Seq<char>>,
    pub user_groups: Seq<Seq<char>>,
    pub username: Option<Seq<char>>,
}

/// The characters of an optional string slice.
pub open spec fn opt_str_view(o: Option<&str>) -> Option<Seq<char>> {
    match o {
        Some(s) => Some(s@),
        None => None,
    }
}

impl<'a> View for NixGenOptions<'a> {
    type V = NixGenOptionsView;

    open spec fn view(&self) -> NixGenOptionsView {
        NixGenOptionsView {
            profile: match self.profile {
                Some(p) => Some(p@),
                None => None,
            },
            bundles: self.bundles@.map_values(|b: &BundleDef| b@),
            hostname: opt_str_view(self.hostname),
            dns_servers: views(self.dns_servers@),
            user_groups: views(self.user_groups@),
            username: opt_str_view(self.username),
        }
    }
}

impl<'a> Default for NixGenOptions<'a> {
    fn default() -> (r: NixGenOptions<'a>)
        ensures
            r.profile.is_none(),
            r.bundles@.len() == 0,
            r.hostname.is_none(),
            r.dns_servers@.len() == 0,
            r.user_groups@.len() == 0,
            r.username.is_none(),
    {
        NixGenOptions {
            profile: None,
            bundles: Vec::new(),
            hostname: None,
            dns_servers: Vec::new(),
            user_groups: Vec::new(),
            username: None,
        }
    }
}

/// `prefix + x + suffix` for each `x` of `items`.
pub open spec fn wrap_each(items: Seq<Seq<char>>, prefix: Seq<char>, suffix: Seq<char>) -> Seq<
    Seq<char>,
> {
    items.map_values(|x: Seq<char>| prefix + x + suffix)
}

/// The text of a list of items, or `"None"` when the list is empty.
pub open spec fn list_or_none(items: Seq<Seq<char>>, sep: Seq<char>) -> Seq<char> {
    if items.len() == 0 {
        "None"@
    } else {
        join(items, sep)
    }
}

/// The import lines of selected.nix.
pub open spec fn selected_imports(o: NixGenOptionsView) -> Seq<Seq<char>> {
    (match o.profile {
        Some(p) => seq!["    ../profiles/"@ + p.id + ".nix"@],
        None => Seq::empty(),
    }) + wrap_each(o.bundles.map_values(|b: BundleView| b.id), "    ../bundles/"@, ".nix"@) + (
    if o.hostname is Some {
        seq!["    ./hostname.nix"@]
    } else {
        Seq::empty()
    }) + (if o.dns_servers.len() > 0 {
        seq!["    ./dns.nix"@]
    } else {
        Seq::empty()
    }) + (if o.user_groups.len() > 0 && o.username is Some {
        seq!["    ./users.nix"@]
    } else {
        Seq::empty()
    })
}

/// The imports section of selected.nix.
pub open spec fn imports_text(imports: Seq<Seq<char>>) -> Seq<char> {
    if imports.len() == 0 {
        "    # No profiles or bundles selected"@
    } else {
        join(imports, "\n"@)
    }
}

/// The content of selected.nix for the given options.
#[verifier::opaque]
pub open spec fn spec_selected_nix(o: NixGenOptionsView) -> Seq<char> {
    "# NixOS Toolkit - Managed Configuration\n# DO NOT EDIT MANUALLY - Changes will be overwritten\n#\n# This file is managed by nixos-toolkit. To make changes,\n# use the GUI application and click \"Apply\".\n#\n# Selected profile: "@
        + (match o.profile {
        Some(p) => p.name,
        None => "None"@,
    }) + "\n# Enabled bundles: "@ + list_or_none(
        o.bundles.map_values(|b: BundleView| b.name),
        ", "@,
    ) + "\n# DNS servers: "@ + list_or_none(o.dns_servers, ", "@) + "\n# User groups: "@
        + list_or_none(o.user_groups, ", "@)
        + "\n\n{ config, lib, pkgs, ... }:\n\n{\n  imports = [\n"@ + imports_text(
        selected_imports(o),
    ) + "\n  ];\n}\n"@
}

proof fn lemma_wrap_each_push(items: Seq<Seq<char>>, x: Seq<char>, p: Seq<char>, s: Seq<char>)
    ensures
        wrap_each(items.push(x), p, s) == wrap_each(items, p, s).push(p + x + s),
{
    assert(wrap_each(items.push(x), p, s) =~= wrap_each(items, p, s).push(p + x + s));
}

/// `prefix + x + suffix` for each string `x` of `items`.
pub fn wrap_strings(items: &Vec<String>, prefix: &str, suffix: &str) -> (r: Vec<String>)
    ensures
        views(r@) == wrap_each(views(items@), prefix@, suffix@),
{
    let mut r: Vec<String> = Vec::new();
    let mut i: usize = 0;
    while i < items.len()
        invariant
            i <= items@.len(),
            views(r@) == wrap_each(views(items@).take(i as int), prefix@, suffix@),
        decreases items@.len() - i,
    {
        let mut s = owned(prefix);
        push_str(&mut s, items[i].as_str());
        push_str(&mut s, suffix);
        proof {
            assert(views(r@.push(s)) =~= views(r@).push(s@));
            assert(views(items@).take(i + 1) =~= views(items@).take(i as int).push(items@[i as int]@));
            lemma_wrap_each_push(views(items@).take(i as int), items@[i as int]@, prefix@, suffix@);
        }
        r.push(s);
        i = i + 1;
    }
    assert(views(items@).take(i as int) =~= views(items@));
    r
}

/// The ids of the given bundles, each between `prefix` and `suffix`.
fn wrap_bundle_ids(bundles: &Vec<&BundleDef>, prefix: &str, suffix: &str) -> (r: Vec<String>)
    ensures
        views(r@) == wrap_each(
            bundles@.map_values(|b: &BundleDef| b@).map_values(|b: BundleView| b.id),
            prefix@,
            suffix@,
        ),
{
    let ghost ids = bundles@.map_values(|b: &BundleDef| b@).map_values(|b: BundleView| b.id);
    let mut r: Vec<String> = Vec::new();
    let mut i: usize = 0;
    while i < bundles.len()
        invariant
            i <= bundles@.len(),
            ids == bundles@.map_values(|b: &BundleDef| b@).map_values(|b: BundleView| b.id),
            views(r@) == wrap_each(ids.take(i as int), prefix@, suffix@),
        decreases bundles@.len() - i,
    {
        let mut s = owned(prefix);
        push_str(&mut s, bundles[i].id.as_str());
        push_str(&mut s, suffix);
        proof {
            assert(views(r@.push(s)) =~= views(r@).push(s@));
            assert(ids.take(i + 1) =~= ids.take(i as int).push(bundles@[i as int].id@));
            lemma_wrap_each_push(ids.take(i as int), bundles@[i as int].id@, prefix@, suffix@);
        }
        r.push(s);
        i = i + 1;
    }
    assert(ids.take(i as int) =~= ids);
    r
}

/// The names of the given bundles.
fn bundle_names(bundles: &Vec<&BundleDef>) -> (r: Vec<String>)
    ensures
        views(r@) == bundles@.map_values(|b: &BundleDef| b@).map_values(|b: BundleView| b.name),
{
    let ghost names = bundles@.map_values(|b: &BundleDef| b@).map_values(|b: BundleView| b.name);
    let mut r: Vec<String> = Vec::new();
    let mut i: usize = 0;
    while i < bundles.len()
        invariant
            i <= bundles@.len(),
            names == bundles@.map_values(|b: &BundleDef| b@).map_values(|b: BundleView| b.name),
            views(r@) == names.take(i as int),
        decreases bundles@.len() - i,
    {
        let s = bundles[i].name.clone();
        proof {
            assert(views(r@.push(s)) =~= views(r@).push(s@));
            assert(names.take(i + 1) =~= names.take(i as int).push(bundles@[i as int].name@));
        }
        r.push(s);
        i = i + 1;
    }
    assert(names.take(i as int) =~= names);
    r
}

/// The text of a list of strings joined by `sep`, or `"None"` when empty.
fn text_or_none(items: &Vec<String>, sep: &str) -> (r: String)
    ensures
        r@ == list_or_none(views(items@), sep@),
{
    if items.len() == 0 {
        owned("None")
    } else {
        join_strings(items, sep)
    }
}

/// Generate the selected.nix file content with full options.
pub fn generate_selected_nix_full(options: &NixGenOptions) -> (r: String)
    ensures
        r@ == spec_selected_nix(options@),
{
    reveal(spec_selected_nix);
    let ghost o = options@;
    let mut imports: Vec<String> = Vec::new();
    if let Some(p) = options.profile {
        let mut s = owned("    ../profiles/");
        push_str(&mut s, p.id.as_str());
        push_str(&mut s, ".nix");
        imports.push(s);
    }
    let bundle_lines = wrap_bundle_ids(&options.bundles, "    ../bundles/", ".nix");
    let mut k: usize = 0;
    let ghost before = views(imports@);
    while k < bundle_lines.len()
        invariant
            k <= bundle_lines@.len(),
            views(imports@) == before + views(bundle_lines@).take(k as int),
        decreases bundle_lines@.len() - k,
    {
        let s = bundle_lines[k].clone();
        proof {
            assert(views(imports@.push(s)) =~= views(imports@).push(s@));
            assert(views(bundle_lines@).take(k + 1) =~= views(bundle_lines@).take(k as int).push(
                s@,
            ));
        }
        imports.push(s);
        k = k + 1;
    }
    assert(views(bundle_lines@).take(k as int) =~= views(bundle_lines@));
    if options.hostname.is_some() {
        let s = owned("    ./hostname.nix");
        proof {
            assert(views(imports@.push(s)) =~= views(imports@).push(s@));
        }
        imports.push(s);
    }
    if options.dns_servers.len() > 0 {
        let s = owned("    ./dns.nix");
        proof {
            assert(views(imports@.push(s)) =~= views(imports@).push(s@));
        }
        imports.push(s);
    }
    if options.user_groups.len() > 0 && options.username.is_some() {
        let s = owned("    ./users.nix");
        proof {
            assert(views(imports@.push(s)) =~= views(imports@).push(s@));
        }
        imports.push(s);
    }
    assert(views(imports@) =~= selected_imports(o));
    let imports_str = if imports.len() == 0 {
        owned("    # No profiles or bundles selected")
    } else {
        join_strings(&imports, "\n")
    };
    let names = bundle_names(&options.bundles);
    let mut r = owned(
        "# NixOS Toolkit - Managed Configuration\n# DO NOT EDIT MANUALLY - Changes will be overwritten\n#\n# This file is managed by nixos-toolkit. To make changes,\n# use the GUI application and click \"Apply\".\n#\n# Selected profile: ",
    );
    match options.profile {
        Some(p) => push_str(&mut r, p.name.as_str()),
        None => push_str(&mut r, "None"),
    }
    push_str(&mut r, "\n# Enabled bundles: ");
    let t = text_or_none(&names, ", ");
    push_str(&mut r, t.as_str());
    push_str(&mut r, "\n# DNS servers: ");
    let t = text_or_none(&options.dns_servers, ", ");
    push_str(&mut r, t.as_str());
    push_str(&mut r, "\n# User groups: ");
    let t = text_or_none(&options.user_groups, ", ");
    push_str(&mut r, t.as_str());
    push_str(&mut r, "\n\n{ config, lib, pkgs, ... }:\n\n{\n  imports = [\n");
    push_str(&mut r, imports_str.as_str());
    push_str(&mut r, "\n  ];\n}\n");
    r
}

/// The options that the legacy entry points stand for: a profile, bundles
/// and a hostname, nothing else.
pub open spec fn legacy_options(
    profile: Option<ProfileView>,
    bundles: Seq<BundleView>,
    hostname: Option<Seq<char>>,
) -> NixGenOptionsView {
    NixGenOptionsView {
        profile,
        bundles,
        hostname,
        dns_servers: Seq::empty(),
        user_groups: Seq::empty(),
        username: None,
    }
}

fn options_of<'a>(
    profile: Option<&'a ProfileDef>,
    bundles: &[&'a BundleDef],
    hostname: Option<&'a str>,
) -> (r: NixGenOptions<'a>)
    ensures
        r@ == legacy_options(
            match profile {
                Some(p) => Some(p@),
                None => None,
            },
            bundles@.map_values(|b: &BundleDef| b@),
            opt_str_view(hostname),
        ),
{
    let mut v: Vec<&'a BundleDef> = Vec::new();
    let mut i: usize = 0;
    while i < bundles.len()
        invariant
            i <= bundles@.len(),
            v@ == bundles@.take(i as int),
        decreases bundles@.len() - i,
    {
        v.push(bundles[i]);
        i = i + 1;
    }
    assert(bundles@.take(i as int) =~= bundles@);
    let r = NixGenOptions {
        profile,
        bundles: v,
        hostname,
        dns_servers: Vec::new(),
        user_groups: Vec::new(),
        username: None,
    };
    assert(views(r.dns_servers@) =~= Seq::<Seq<char>>::empty());
    assert(views(r.user_groups@) =~= Seq::<Seq<char>>::empty());
    r
}

/// Generate the selected.nix file content from a profile, bundles and a
/// hostname alone.
pub fn generate_selected_nix(
    profile: Option<&ProfileDef>,
    bundles: &[&BundleDef],
    hostname: Option<&str>,
) -> (r: String)
    ensures
        r@ == spec_selected_nix(
            legacy_options(
                match profile {
                    Some(p) => Some(p@),
                    None => None,
                },
                bundles@.map_values(|b: &BundleDef| b@),
                opt_str_view(hostname),
            ),
        ),
{
    let options = options_of(profile, bundles, hostname);
    generate_selected_nix_full(&options)
}

/// The content of hostname.nix.
#[verifier::opaque]
pub open spec fn spec_hostname_nix(hostname: Seq<char>) -> Seq<char> {
    "# NixOS Toolkit - Hostname Configuration\n# DO NOT EDIT MANUALLY\n\n{ config, lib, pkgs, ... }:\n\n{\n  networking.hostName = \""@
        + hostname + "\";\n}\n"@
}

/// Generate the hostname.nix file content.
pub fn generate_hostname_nix(hostname: &str) -> (r: String)
    ensures
        r@ == spec_hostname_nix(hostname@),
{
    reveal(spec_hostname_nix);
    let mut r = owned(
        "# NixOS Toolkit - Hostname Configuration\n# DO NOT EDIT MANUALLY\n\n{ config, lib, pkgs, ... }:\n\n{\n  networking.hostName = \"",
    );
    push_str(&mut r, hostname);
    push_str(&mut r, "\";\n}\n");
    r
}

/// The content of dns.nix: empty when there is no server.
#[verifier::opaque]
pub open spec fn spec_dns_nix(servers: Seq<Seq<char>>) -> Seq<char> {
    if servers.len() == 0 {
        Seq::empty()
    } else {
        "# NixOS Toolkit - DNS Configuration\n# DO NOT EDIT MANUALLY\n\n{ config, lib, pkgs, ... }:\n\n{\n  networking.nameservers = [\n"@
            + join(wrap_each(servers, "    \""@, "\""@), "\n"@) + "\n  ];\n}\n"@
    }
}

/// Generate the dns.nix file content for custom DNS configuration.
pub fn generate_dns_nix(servers: &Vec<String>) -> (r: String)
    ensures
        r@ == spec_dns_nix(views(servers@)),
{
    reveal(spec_dns_nix);
    if servers.len() == 0 {
        return String::new();
    }
    let lines = wrap_strings(servers, "    \"", "\"");
    let body = join_strings(&lines, "\n");
    let mut r = owned(
        "# NixOS Toolkit - DNS Configuration\n# DO NOT EDIT MANUALLY\n\n{ config, lib, pkgs, ... }:\n\n{\n  networking.nameservers = [\n",
    );
    push_str(&mut r, body.as_str());
    push_str(&mut r, "\n  ];\n}\n");
    r
}

/// The content of users.nix: empty when the username or the group list is
/// empty.
#[verifier::opaque]
pub open spec fn spec_user_groups_nix(username: Seq<char>, groups: Seq<Seq<char>>) -> Seq<char> {
    if username.len() == 0 || groups.len() == 0 {
        Seq::empty()
    } else {
        "# NixOS Toolkit - User Groups Configuration\n# DO NOT EDIT MANUALLY\n\n{ config, lib, pkgs, ... }:\n\n{\n  users.users."@
            + username + " = {\n    extraGroups = [ "@ + join(
            wrap_each(groups, "\""@, "\""@),
            " "@,
        ) + " ];\n  };\n}\n"@
    }
}

/// Generate the users.nix file content for user group membership.
pub fn generate_user_groups_nix(username: &str, groups: &Vec<String>) -> (r: String)
    ensures
        r@ == spec_user_groups_nix(username@, views(groups@)),
{
    reveal(spec_user_groups_nix);
    if username.is_empty() || groups.len() == 0 {
        return String::new();
    }
    let quoted = wrap_strings(groups, "\"", "\"");
    let body = join_strings(&quoted, " ");
    let mut r = owned(
        "# NixOS Toolkit - User Groups Configuration\n# DO NOT EDIT MANUALLY\n\n{ config, lib, pkgs, ... }:\n\n{\n  users.users.",
    );
    push_str(&mut r, username);
    push_str(&mut r, " = {\n    extraGroups = [ ");
    push_str(&mut r, body.as_str());
    push_str(&mut r, " ];\n  };\n}\n");
    r
}

/// The contents of the template files that a preview shows: that of the
/// profile's template and that of each bundle's template, in the order of
/// the bundles, each where the file exists and could be read.
#[derive(Debug, Clone)]
pub struct TemplateContents {
    pub profile: Option<String>,
    pub bundles: Vec<Option<String>>,
}

/// The content of a [`TemplateContents`].
pub struct TemplateContentsView {
    pub profile: Option<Seq<char>>,
    pub bundles: Seq<Option<Seq<char>>>,
}

impl View for TemplateContents {
    type V = TemplateContentsView;

    open spec fn view(&self) -> TemplateContentsView {
        TemplateContentsView {
            profile: crate::actions::opt_view(self.profile),
            bundles: self.bundles@.map_values(|o: Option<String>| crate::actions::opt_view(o)),
        }
    }
}

/// One file of a preview: a header line with its path, then its content.
pub open spec fn preview_section(path: Seq<char>, content: Seq<char>) -> Seq<char> {
    "\n--- "@ + path + " ---\n"@ + content
}

/// The template content of the `i`-th bundle, if there is one.
pub open spec fn template_at(t: Seq<Option<Seq<char>>>, i: int) -> Option<Seq<char>> {
    if 0 <= i < t.len() {
        t[i]
    } else {
        None
    }
}

/// The sections for the templates of the first `n` bundles.
pub open spec fn bundle_sections(bundles: Seq<BundleView>, t: Seq<Option<Seq<char>>>, n: nat) -> Seq<
    char,
>
    decreases n,
{
    if n == 0 {
        Seq::empty()
    } else {
        bundle_sections(bundles, t, (n - 1) as nat) + match template_at(t, n - 1) {
            Some(c) => preview_section(
                "/etc/nixos/nixos-toolkit/bundles/"@ + bundles[n - 1].id + ".nix"@,
                c,
            ),
            None => Seq::empty(),
        }
    }
}

/// The preview of every file that applying the options writes.
pub open spec fn spec_preview(o: NixGenOptionsView, t: TemplateContentsView) -> Seq<char> {
    "=== Files to be written ===\n\n"@ + "--- "@ + paths::SELECTED_NIX@ + " ---\n"@
        + spec_selected_nix(o) + "\n"@ + (match o.hostname {
        Some(h) => preview_section(paths::HOSTNAME_NIX@, spec_hostname_nix(h)),
        None => Seq::empty(),
    }) + (if o.dns_servers.len() > 0 {
        preview_section(paths::DNS_NIX@, spec_dns_nix(o.dns_servers))
    } else {
        Seq::empty()
    }) + (match o.username {
        Some(u) => if o.user_groups.len() > 0 {
            preview_section(paths::USERS_NIX@, spec_user_groups_nix(u, o.user_groups))
        } else {
            Seq::empty()
        },
        None => Seq::empty(),
    }) + (match (o.profile, t.profile) {
        (Some(p), Some(c)) => preview_section(
            "/etc/nixos/nixos-toolkit/profiles/"@ + p.id + ".nix"@,
            c,
        ),
        _ => Seq::empty(),
    }) + bundle_sections(o.bundles, t.bundles, o.bundles.len())
}

fn push_section(preview: &mut String, path: &str, content: &str)
    ensures
        final(preview)@ == old(preview)@ + preview_section(path@, content@),
{
    push_str(preview, "\n--- ");
    push_str(preview, path);
    push_str(preview, " ---\n");
    push_str(preview, content);
}

/// Generate a preview of what will be written with full options, given the
/// contents of the templates that exist.
pub fn generate_preview_full(options: &NixGenOptions, templates: &TemplateContents) -> (r: String)
    ensures
        r@ == spec_preview(options@, templates@),
{
    let ghost o = options@;
    let ghost t = templates@;
    let mut preview = String::new();
    push_str(&mut preview, "=== Files to be written ===\n\n");
    push_str(&mut preview, "--- ");
    push_str(&mut preview, paths::SELECTED_NIX);
    push_str(&mut preview, " ---\n");
    let selected = generate_selected_nix_full(options);
    push_str(&mut preview, selected.as_str());
    push_str(&mut preview, "\n");
    if let Some(h) = options.hostname {
        let c = generate_hostname_nix(h);
        push_section(&mut preview, paths::HOSTNAME_NIX, c.as_str());
    }
    if options.dns_servers.len() > 0 {
        let c = generate_dns_nix(&options.dns_servers);
        push_section(&mut preview, paths::DNS_NIX, c.as_str());
    }
    if options.user_groups.len() > 0 {
        if let Some(username) = options.username {
            let c = generate_user_groups_nix(username, &options.user_groups);
            push_section(&mut preview, paths::USERS_NIX, c.as_str());
        }
    }
    if let Some(p) = options.profile {
        if let Some(content) = &templates.profile {
            let mut path = owned("/etc/nixos/nixos-toolkit/profiles/");
            push_str(&mut path, p.id.as_str());
            push_str(&mut path, ".nix");
            push_section(&mut preview, path.as_str(), content.as_str());
        }
    }
    let ghost head = preview@;
    let mut i: usize = 0;
    while i < options.bundles.len()
        invariant
            i <= options.bundles@.len(),
            o == options@,
            t == templates@,
            preview@ == head + bundle_sections(o.bundles, t.bundles, i as nat),
        decreases options.bundles@.len() - i,
    {
        if i < templates.bundles.len() {
            if let Some(content) = &templates.bundles[i] {
                let mut path = owned("/etc/nixos/nixos-toolkit/bundles/");
                push_str(&mut path, options.bundles[i].id.as_str());
                push_str(&mut path, ".nix");
                push_section(&mut preview, path.as_str(), content.as_str());
            }
        }
        i = i + 1;
    }
    preview
}

/// Generate a preview of what will be written from a profile, bundles and a
/// hostname alone, given the contents of the templates that exist.
pub fn generate_preview(
    profile: Option<&ProfileDef>,
    bundles: &[&BundleDef],
    hostname: Option<&str>,
    templates: &TemplateContents,
) -> (r: String)
    ensures
        r@ == spec_preview(
            legacy_options(
                match profile {
                    Some(p) => Some(p@),
                    None => None,
                },
                bundles@.map_values(|b: &BundleDef| b@),
                opt_str_view(hostname),
            ),
            templates@,
        ),
{
    let options = options_of(profile, bundles, hostname);
    generate_preview_full(&options, templates)
}

/// The file that a template becomes once written.
pub open spec fn template_file(path: Seq<char>, content: Seq<char>) -> GeneratedFileView {
    GeneratedFileView { path, content }
}

/// The files for the templates of the first `n` bundles that have one.
pub open spec fn bundle_template_files(
    bundles: Seq<BundleView>,
    t: Seq<Option<Seq<char>>>,
    n: nat,
) -> Seq<GeneratedFileView>
    decreases n,
{
    if n == 0 {
        Seq::empty()
    } else {
        bundle_template_files(bundles, t, (n - 1) as nat) + match template_at(t, n - 1) {
            Some(c) => seq![
                template_file("/etc/nixos/nixos-toolkit/bundles/"@ + bundles[n - 1].id + ".nix"@, c),
            ],
            None => Seq::empty(),
        }
    }
}

/// Every file that applying the options writes, in the order of the
/// preview: selected.nix, the hostname, DNS and user-group snippets where
/// the options call for them, then the profile's and the bundles' templates
/// that exist.
pub open spec fn spec_generated_files(o: NixGenOptionsView, t: TemplateContentsView) -> Seq<
    GeneratedFileView,
> {
    seq![template_file(paths::SELECTED_NIX@, spec_selected_nix(o))] + (match o.hostname {
        Some(h) => seq![template_file(paths::HOSTNAME_NIX@, spec_hostname_nix(h))],
        None => Seq::empty(),
    }) + (if o.dns_servers.len() > 0 {
        seq![template_file(paths::DNS_NIX@, spec_dns_nix(o.dns_servers))]
    } else {
        Seq::empty()
    }) + (match o.username {
        Some(u) => if o.user_groups.len() > 0 {
            seq![template_file(paths::USERS_NIX@, spec_user_groups_nix(u, o.user_groups))]
        } else {
            Seq::empty()
        },
        None => Seq::empty(),
    }) + (match (o.profile, t.profile) {
        (Some(p), Some(c)) => seq![
            template_file("/etc/nixos/nixos-toolkit/profiles/"@ + p.id + ".nix"@, c),
        ],
        _ => Seq::empty(),
    }) + bundle_template_files(o.bundles, t.bundles, o.bundles.len())
}

fn push_file(files: &mut Vec<GeneratedFile>, path: String, content: String)
    ensures
        crate::commands::file_views(final(files)@) == crate::commands::file_views(old(files)@).push(
            template_file(path@, content@),
        ),
{
    let f = GeneratedFile { path, content };
    assert(crate::commands::file_views(files@.push(f)) =~= crate::commands::file_views(files@).push(
        f@,
    ));
    files.push(f);
}

/// Every file that applying the options writes, given the contents of the
/// templates that exist.
pub fn generate_all_files(options: &NixGenOptions, templates: &TemplateContents) -> (r: Vec<
    GeneratedFile,
>)
    ensures
        crate::commands::file_views(r@) == spec_generated_files(options@, templates@),
{
    let ghost o = options@;
    let ghost t = templates@;
    let mut files: Vec<GeneratedFile> = Vec::new();
    push_file(&mut files, owned(paths::SELECTED_NIX), generate_selected_nix_full(options));
    if let Some(h) = options.hostname {
        push_file(&mut files, owned(paths::HOSTNAME_NIX), generate_hostname_nix(h));
    }
    if options.dns_servers.len() > 0 {
        push_file(&mut files, owned(paths::DNS_NIX), generate_dns_nix(&options.dns_servers));
    }
    if let Some(u) = options.username {
        if options.user_groups.len() > 0 {
            push_file(
                &mut files,
                owned(paths::USERS_NIX),
                generate_user_groups_nix(u, &options.user_groups),
            );
        }
    }
    if let Some(p) = options.profile {
        if let Some(content) = &templates.profile {
            let mut path = owned("/etc/nixos/nixos-toolkit/profiles/");
            push_str(&mut path, p.id.as_str());
            push_str(&mut path, ".nix");
            push_file(&mut files, path, content.clone());
        }
    }
    let ghost head = crate::commands::file_views(files@);
    assert(head == spec_generated_files(o, t).take(head.len() as int)) by {
        assert(spec_generated_files(o, t) =~= head + bundle_template_files(
            o.bundles,
            t.bundles,
            o.bundles.len(),
        ));
    }
    let mut i: usize = 0;
    while i < options.bundles.len()
        invariant
            i <= options.bundles@.len(),
            o == options@,
            t == templates@,
            spec_generated_files(o, t) == head + bundle_template_files(
                o.bundles,
                t.bundles,
                o.bundles.len(),
            ),
            crate::commands::file_views(files@) == head + bundle_template_files(
                o.bundles,
                t.bundles,
                i as nat,
            ),
        decreases options.bundles@.len() - i,
    {
        if i < templates.bundles.len() {
            if let Some(content) = &templates.bundles[i] {
                let mut path = owned("/etc/nixos/nixos-toolkit/bundles/");
                push_str(&mut path, options.bundles[i].id.as_str());
                push_str(&mut path, ".nix");
                push_file(&mut files, path, content.clone());
            }
        }
        i = i + 1;
    }
    files
}

/// The sections of a preview that show the given files.
pub open spec fn file_sections(fs: Seq<GeneratedFileView>) -> Seq<char>
    decreases fs.len(),
{
    if fs.len() == 0 {
        Seq::empty()
    } else {
        file_sections(fs.drop_last()) + preview_section(fs.last().path, fs.last().content)
    }
}

/// The preview of a list of files: the header, the first file, then a
/// section for each other file.
pub open spec fn preview_of_files(fs: Seq<GeneratedFileView>) -> Seq<char> {
    "=== Files to be written ===\n\n"@ + "--- "@ + fs[0].path + " ---\n"@ + fs[0].content + "\n"@
        + file_sections(fs.drop_first())
}

proof fn lemma_file_sections_concat(a: Seq<GeneratedFileView>, b: Seq<GeneratedFileView>)
    ensures
        file_sections(a + b) == file_sections(a) + file_sections(b),
    decreases b.len(),
{
    if b.len() == 0 {
        assert(a + b =~= a);
        assert(file_sections(a) + file_sections(b) =~= file_sections(a));
    } else {
        assert((a + b).drop_last() =~= a + b.drop_last());
        lemma_file_sections_concat(a, b.drop_last());
        assert(file_sections(a + b) =~= file_sections(a) + file_sections(b));
    }
}

proof fn lemma_file_sections_one(f: GeneratedFileView)
    ensures
        file_sections(seq![f]) == preview_section(f.path, f.content),
{
    assert(seq![f].drop_last() =~= Seq::<GeneratedFileView>::empty());
    assert(file_sections(Seq::<GeneratedFileView>::empty()) == Seq::<char>::empty());
    assert(Seq::<char>::empty() + preview_section(f.path, f.content) =~= preview_section(
        f.path,
        f.content,
    ));
}

proof fn lemma_bundle_sections(bundles: Seq<BundleView>, t: Seq<Option<Seq<char>>>, n: nat)
    ensures
        file_sections(bundle_template_files(bundles, t, n)) == bundle_sections(bundles, t, n),
    decreases n,
{
    if n > 0 {
        lemma_bundle_sections(bundles, t, (n - 1) as nat);
        let prev = bundle_template_files(bundles, t, (n - 1) as nat);
        match template_at(t, n - 1) {
            Some(c) => {
                let f = template_file(
                    "/etc/nixos/nixos-toolkit/bundles/"@ + bundles[n - 1].id + ".nix"@,
                    c,
                );
                lemma_file_sections_concat(prev, seq![f]);
                lemma_file_sections_one(f);
            },
            None => {
                assert(prev + Seq::<GeneratedFileView>::empty() =~= prev);
                assert(bundle_sections(bundles, t, (n - 1) as nat) + Seq::<char>::empty()
                    =~= bundle_sections(bundles, t, (n - 1) as nat));
            },
        }
    }
}

proof fn lemma_preview_parts(
    first: GeneratedFileView,
    h: Seq<GeneratedFileView>,
    d: Seq<GeneratedFileView>,
    u: Seq<GeneratedFileView>,
    p: Seq<GeneratedFileView>,
    b: Seq<GeneratedFileView>,
)
    ensures
        preview_of_files(seq![first] + h + d + u + p + b) == "=== Files to be written ===\n\n"@
            + "--- "@ + first.path + " ---\n"@ + first.content + "\n"@ + file_sections(h)
            + file_sections(d) + file_sections(u) + file_sections(p) + file_sections(b),
{
    let all = seq![first] + h + d + u + p + b;
    assert(all[0] == first);
    assert(all.drop_first() =~= h + d + u + p + b);
    lemma_file_sections_concat(h, d);
    lemma_file_sections_concat(h + d, u);
    lemma_file_sections_concat(h + d + u, p);
    lemma_file_sections_concat(h + d + u + p, b);
    assert(preview_of_files(all) =~= "=== Files to be written ===\n\n"@ + "--- "@ + first.path
        + " ---\n"@ + first.content + "\n"@ + file_sections(h) + file_sections(d) + file_sections(
        u,
    ) + file_sections(p) + file_sections(b));
}

/// The preview shows exactly the files that generation writes: the preview
/// of the generated files is the preview of the options.
pub proof fn law_preview_lists_generated_files(o: NixGenOptionsView, t: TemplateContentsView)
    ensures
        spec_preview(o, t) == preview_of_files(spec_generated_files(o, t)),
{
    let first = template_file(paths::SELECTED_NIX@, spec_selected_nix(o));
    let h: Seq<GeneratedFileView> = match o.hostname {
        Some(x) => seq![template_file(paths::HOSTNAME_NIX@, spec_hostname_nix(x))],
        None => Seq::empty(),
    };
    let d: Seq<GeneratedFileView> = if o.dns_servers.len() > 0 {
        seq![template_file(paths::DNS_NIX@, spec_dns_nix(o.dns_servers))]
    } else {
        Seq::empty()
    };
    let u: Seq<GeneratedFileView> = match o.username {
        Some(x) => if o.user_groups.len() > 0 {
            seq![template_file(paths::USERS_NIX@, spec_user_groups_nix(x, o.user_groups))]
        } else {
            Seq::empty()
        },
        None => Seq::empty(),
    };
    let p: Seq<GeneratedFileView> = match (o.profile, t.profile) {
        (Some(pr), Some(c)) => seq![
            template_file("/etc/nixos/nixos-toolkit/profiles/"@ + pr.id + ".nix"@, c),
        ],
        _ => Seq::empty(),
    };
    let b = bundle_template_files(o.bundles, t.bundles, o.bundles.len());
    assert(spec_generated_files(o, t) == seq![first] + h + d + u + p + b);
    lemma_preview_parts(first, h, d, u, p, b);
    lemma_bundle_sections(o.bundles, t.bundles, o.bundles.len());
    match o.hostname {
        Some(x) => lemma_file_sections_one(h[0]),
        None => {},
    }
    if o.dns_servers.len() > 0 {
        lemma_file_sections_one(d[0]);
    }
    match o.username {
        Some(x) => if o.user_groups.len() > 0 {
            lemma_file_sections_one(u[0]);
        },
        None => {},
    }
    match (o.profile, t.profile) {
        (Some(pr), Some(c)) => lemma_file_sections_one(p[0]),
        _ => {},
    }
}

/// The registry's bundles with the given ids, or the first id that it does
/// not know.
pub open spec fn spec_resolve_bundles(ids: Seq<Seq<char>>) -> Result<Seq<BundleView>, Seq<char>>
    decreases ids.len(),
{
    if ids.len() == 0 {
        Ok(Seq::empty())
    } else {
        match spec_resolve_bundles(ids.drop_last()) {
            Err(e) => Err(e),
            Ok(bs) => match find_bundle(spec_default_bundles(), ids.last()) {
                Some(b) => Ok(bs.push(b)),
                None => Err(ids.last()),
            },
        }
    }
}

/// Whether `e` is the configuration error with this message.
pub open spec fn is_invalid_config(e: NixGenError, message: Seq<char>) -> bool {
    e matches NixGenError::InvalidConfig(m) && m@ == message
}

/// The registry's profile and bundles that a request names by id. An
/// unknown profile id is an error, and so is an unknown bundle id (the
/// first one).
pub fn resolve_selection(profile_id: &Option<String>, bundle_ids: &Vec<String>) -> (r: Result<
    (Option<ProfileDef>, Vec<BundleDef>),
    NixGenError,
>)
    ensures
        match crate::actions::opt_view(*profile_id) {
            Some(id) if find_profile(spec_default_profiles(), id) is None => r matches Err(e)
                && is_invalid_config(e, "Unknown profile: "@ + id),
            _ => match spec_resolve_bundles(views(bundle_ids@)) {
                Err(id) => r matches Err(e) && is_invalid_config(e, "Unknown bundle: "@ + id),
                Ok(bs) => r matches Ok((p, b)) && bundle_views(b@) == bs && match crate::actions::opt_view(
                    *profile_id,
                ) {
                    Some(id) => p matches Some(pd) && find_profile(spec_default_profiles(), id)
                        == Some(pd@),
                    None => p is None,
                },
            },
        },
{
    let profiles = default_profiles();
    let profile = match profile_id {
        Some(id) => match lookup_profile(&profiles, id.as_str()) {
            Some(i) => Some(profiles[i].dup()),
            None => {
                let mut m = owned("Unknown profile: ");
                push_str(&mut m, id.as_str());
                return Err(NixGenError::InvalidConfig(m));
            },
        },
        None => None,
    };
    let table = default_bundles();
    let mut bundles: Vec<BundleDef> = Vec::new();
    let mut i: usize = 0;
    assert(views(bundle_ids@).take(0) =~= Seq::<Seq<char>>::empty());
    assert(bundle_views(bundles@) =~= Seq::<BundleView>::empty());
    while i < bundle_ids.len()
        invariant
            i <= bundle_ids@.len(),
            bundle_views(table@) == spec_default_bundles(),
            match crate::actions::opt_view(*profile_id) {
                Some(id) => profile matches Some(pd) && find_profile(spec_default_profiles(), id)
                    == Some(pd@),
                None => profile is None,
            },
            spec_resolve_bundles(views(bundle_ids@).take(i as int)) == Ok::<
                Seq<BundleView>,
                Seq<char>,
            >(bundle_views(bundles@)),
        decreases bundle_ids@.len() - i,
    {
        assert(views(bundle_ids@).take(i + 1).drop_last() =~= views(bundle_ids@).take(i as int));
        assert(views(bundle_ids@).take(i + 1).last() == bundle_ids@[i as int]@);
        match lookup_bundle(&table, bundle_ids[i].as_str()) {
            Some(k) => {
                let b = table[k].dup();
                assert(bundle_views(bundles@.push(b)) =~= bundle_views(bundles@).push(b@));
                bundles.push(b);
            },
            None => {
                proof {
                    lemma_resolve_prefix_err(views(bundle_ids@), i as int);
                }
                let mut m = owned("Unknown bundle: ");
                push_str(&mut m, bundle_ids[i].as_str());
                return Err(NixGenError::InvalidConfig(m));
            },
        }
        i = i + 1;
    }
    assert(views(bundle_ids@).take(i as int) =~= views(bundle_ids@));
    Ok((profile, bundles))
}

/// Once a prefix of the ids fails to resolve with some id, every longer
/// prefix fails with the same id.
proof fn lemma_resolve_prefix_err(ids: Seq<Seq<char>>, i: int)
    requires
        0 <= i < ids.len(),
        spec_resolve_bundles(ids.take(i)) is Ok,
        find_bundle(spec_default_bundles(), ids[i]) is None,
    ensures
        spec_resolve_bundles(ids) == Err::<Seq<BundleView>, Seq<char>>(ids[i]),
    decreases ids.len() - i,
{
    assert(ids.take(i + 1).drop_last() =~= ids.take(i));
    if i + 1 == ids.len() {
        assert(ids.take(i + 1) =~= ids);
    } else {
        lemma_resolve_err_extends(ids, i + 1, ids[i]);
    }
}

proof fn lemma_resolve_err_extends(ids: Seq<Seq<char>>, k: int, e: Seq<char>)
    requires
        0 < k <= ids.len(),
        spec_resolve_bundles(ids.take(k)) == Err::<Seq<BundleView>, Seq<char>>(e),
    ensures
        spec_resolve_bundles(ids) == Err::<Seq<BundleView>, Seq<char>>(e),
    decreases ids.len() - k,
{
    if k == ids.len() {
        assert(ids.take(k) =~= ids);
    } else {
        assert(ids.take(k + 1).drop_last() =~= ids.take(k));
        lemma_resolve_err_extends(ids, k + 1, e);
    }
}

/// Whether a file's content marks it as written by the toolkit: it starts
/// with the toolkit's header and warns against manual edits.
pub open spec fn marked_generated(content: Seq<char>) -> bool {
    crate::text::starts_with(content, "# NixOS Toolkit - "@) && crate::text::contains(
        content,
        "# DO NOT EDIT MANUALLY"@,
    )
}

proof fn lemma_marked(lit: Seq<char>, rest: Seq<char>, k: int)
    requires
        crate::text::starts_with(lit, "# NixOS Toolkit - "@),
        crate::text::occurs_at(lit, "# DO NOT EDIT MANUALLY"@, k),
    ensures
        marked_generated(lit + rest),
{
    crate::text::lemma_starts_with_concat(lit, rest, "# NixOS Toolkit - "@);
    assert((lit + rest).subrange(k, k + "# DO NOT EDIT MANUALLY"@.len()) =~= lit.subrange(
        k,
        k + "# DO NOT EDIT MANUALLY"@.len(),
    ));
    assert(crate::text::occurs_at(lit + rest, "# DO NOT EDIT MANUALLY"@, k));
}

/// Every snippet that generation writes (selected.nix, and the hostname,
/// DNS and user-group files when they are not empty) is marked as written
/// by the toolkit.
pub proof fn law_snippets_marked(
    o: NixGenOptionsView,
    hostname: Seq<char>,
    servers: Seq<Seq<char>>,
    username: Seq<char>,
    groups: Seq<Seq<char>>,
)
    ensures
        marked_generated(spec_selected_nix(o)),
        marked_generated(spec_hostname_nix(hostname)),
        servers.len() > 0 ==> marked_generated(spec_dns_nix(servers)),
        username.len() > 0 && groups.len() > 0 ==> marked_generated(
            spec_user_groups_nix(username, groups),
        ),
{
    reveal(spec_selected_nix);
    reveal(spec_hostname_nix);
    reveal(spec_dns_nix);
    reveal(spec_user_groups_nix);
    reveal_strlit("# NixOS Toolkit - ");
    reveal_strlit("# DO NOT EDIT MANUALLY");
    reveal_strlit("# NixOS Toolkit - Managed Configuration\n# DO NOT EDIT MANUALLY - Changes will be overwritten\n#\n# This file is managed by nixos-toolkit. To make changes,\n# use the GUI application and click \"Apply\".\n#\n# Selected profile: ");
    reveal_strlit("# NixOS Toolkit - Hostname Configuration\n# DO NOT EDIT MANUALLY\n\n{ config, lib, pkgs, ... }:\n\n{\n  networking.hostName = \"");
    reveal_strlit("# NixOS Toolkit - DNS Configuration\n# DO NOT EDIT MANUALLY\n\n{ config, lib, pkgs, ... }:\n\n{\n  networking.nameservers = [\n");
    reveal_strlit("# NixOS Toolkit - User Groups Configuration\n# DO NOT EDIT MANUALLY\n\n{ config, lib, pkgs, ... }:\n\n{\n  users.users.");
    let m = "# NixOS Toolkit - "@;
    let d = "# DO NOT EDIT MANUALLY"@;
    let l1 = "# NixOS Toolkit - Managed Configuration\n# DO NOT EDIT MANUALLY - Changes will be overwritten\n#\n# This file is managed by nixos-toolkit. To make changes,\n# use the GUI application and click \"Apply\".\n#\n# Selected profile: "@;
    let l2 = "# NixOS Toolkit - Hostname Configuration\n# DO NOT EDIT MANUALLY\n\n{ config, lib, pkgs, ... }:\n\n{\n  networking.hostName = \""@;
    let l3 = "# NixOS Toolkit - DNS Configuration\n# DO NOT EDIT MANUALLY\n\n{ config, lib, pkgs, ... }:\n\n{\n  networking.nameservers = [\n"@;
    let l4 = "# NixOS Toolkit - User Groups Configuration\n# DO NOT EDIT MANUALLY\n\n{ config, lib, pkgs, ... }:\n\n{\n  users.users."@;
    assert(l1.subrange(0, m.len() as int) =~= m);
    assert(l2.subrange(0, m.len() as int) =~= m);
    assert(l3.subrange(0, m.len() as int) =~= m);
    assert(l4.subrange(0, m.len() as int) =~= m);
    assert(l1.subrange(40, 40 + d.len() as int) =~= d);
    assert(l2.subrange(41, 41 + d.len() as int) =~= d);
    assert(l3.subrange(36, 36 + d.len() as int) =~= d);
    assert(l4.subrange(44, 44 + d.len() as int) =~= d);
    let s = spec_selected_nix(o);
    assert(s =~= l1 + s.skip(l1.len() as int));
    lemma_marked(l1, s.skip(l1.len() as int), 40);
    let h = spec_hostname_nix(hostname);
    assert(h =~= l2 + h.skip(l2.len() as int));
    lemma_marked(l2, h.skip(l2.len() as int), 41);
    if servers.len() > 0 {
        let x = spec_dns_nix(servers);
        assert(x =~= l3 + x.skip(l3.len() as int));
        lemma_marked(l3, x.skip(l3.len() as int), 36);
    }
    if username.len() > 0 && groups.len() > 0 {
        let x = spec_user_groups_nix(username, groups);
        assert(x =~= l4 + x.skip(l4.len() as int));
        lemma_marked(l4, x.skip(l4.len() as int), 44);
    }
}

/// The prefix of every path in the managed directory.
pub open spec fn managed_prefix() -> Seq<char> {
    paths::MANAGED_DIR@ + "/"@
}

/// Every file of `fs` lies in the managed directory.
pub open spec fn all_in_managed_dir(fs: Seq<GeneratedFileView>) -> bool {
    forall|i: int| 0 <= i < fs.len() ==> crate::text::starts_with(#[trigger] fs[i].path, managed_prefix())
}

proof fn lemma_all_in_concat(a: Seq<GeneratedFileView>, b: Seq<GeneratedFileView>)
    requires
        all_in_managed_dir(a),
        all_in_managed_dir(b),
    ensures
        all_in_managed_dir(a + b),
{
    assert forall|i: int| 0 <= i < (a + b).len() implies crate::text::starts_with(
        #[trigger] (a + b)[i].path,
        managed_prefix(),
    ) by {
        if i < a.len() {
            assert((a + b)[i] == a[i]);
        } else {
            assert((a + b)[i] == b[i - a.len()]);
        }
    }
}

proof fn lemma_bundle_files_in_managed_dir(
    bundles: Seq<BundleView>,
    t: Seq<Option<Seq<char>>>,
    n: nat,
)
    requires
        crate::text::starts_with("/etc/nixos/nixos-toolkit/bundles/"@, managed_prefix()),
    ensures
        all_in_managed_dir(bundle_template_files(bundles, t, n)),
    decreases n,
{
    if n > 0 {
        lemma_bundle_files_in_managed_dir(bundles, t, (n - 1) as nat);
        let prev = bundle_template_files(bundles, t, (n - 1) as nat);
        match template_at(t, n - 1) {
            Some(c) => {
                let path = "/etc/nixos/nixos-toolkit/bundles/"@ + bundles[n - 1].id + ".nix"@;
                crate::text::lemma_starts_with_concat(
                    "/etc/nixos/nixos-toolkit/bundles/"@,
                    bundles[n - 1].id,
                    managed_prefix(),
                );
                crate::text::lemma_starts_with_concat(
                    "/etc/nixos/nixos-toolkit/bundles/"@ + bundles[n - 1].id,
                    ".nix"@,
                    managed_prefix(),
                );
                let f = seq![template_file(path, c)];
                assert(all_in_managed_dir(f));
                lemma_all_in_concat(prev, f);
            },
            None => {
                assert(prev + Seq::<GeneratedFileView>::empty() =~= prev);
            },
        }
    }
}

/// Every file that generation writes has a path that starts with the
/// managed directory `/etc/nixos/nixos-toolkit/`, so the toolkit never
/// writes over the user's own configuration files.
pub proof fn law_files_in_managed_dir(o: NixGenOptionsView, t: TemplateContentsView)
    ensures
        all_in_managed_dir(spec_generated_files(o, t)),
{
    reveal_strlit("/etc/nixos/nixos-toolkit");
    reveal_strlit("/");
    reveal_strlit("/etc/nixos/nixos-toolkit/state/selected.nix");
    reveal_strlit("/etc/nixos/nixos-toolkit/state/hostname.nix");
    reveal_strlit("/etc/nixos/nixos-toolkit/state/dns.nix");
    reveal_strlit("/etc/nixos/nixos-toolkit/state/users.nix");
    reveal_strlit("/etc/nixos/nixos-toolkit/profiles/");
    reveal_strlit("/etc/nixos/nixos-toolkit/bundles/");
    let m = managed_prefix();
    assert(m.len() == 25);
    assert(paths::SELECTED_NIX@.subrange(0, 25) =~= m);
    assert(paths::HOSTNAME_NIX@.subrange(0, 25) =~= m);
    assert(paths::DNS_NIX@.subrange(0, 25) =~= m);
    assert(paths::USERS_NIX@.subrange(0, 25) =~= m);
    assert("/etc/nixos/nixos-toolkit/profiles/"@.subrange(0, 25) =~= m);
    assert("/etc/nixos/nixos-toolkit/bundles/"@.subrange(0, 25) =~= m);
    let first = seq![template_file(paths::SELECTED_NIX@, spec_selected_nix(o))];
    let h: Seq<GeneratedFileView> = match o.hostname {
        Some(x) => seq![template_file(paths::HOSTNAME_NIX@, spec_hostname_nix(x))],
        None => Seq::empty(),
    };
    let d: Seq<GeneratedFileView> = if o.dns_servers.len() > 0 {
        seq![template_file(paths::DNS_NIX@, spec_dns_nix(o.dns_servers))]
    } else {
        Seq::empty()
    };
    let u: Seq<GeneratedFileView> = match o.username {
        Some(x) => if o.user_groups.len() > 0 {
            seq![template_file(paths::USERS_NIX@, spec_user_groups_nix(x, o.user_groups))]
        } else {
            Seq::empty()
        },
        None => Seq::empty(),
    };
    let p: Seq<GeneratedFileView> = match (o.profile, t.profile) {
        (Some(pr), Some(c)) => {
            crate::text::lemma_starts_with_concat("/etc/nixos/nixos-toolkit/profiles/"@, pr.id, m);
            crate::text::lemma_starts_with_concat(
                "/etc/nixos/nixos-toolkit/profiles/"@ + pr.id,
                ".nix"@,
                m,
            );
            seq![template_file("/etc/nixos/nixos-toolkit/profiles/"@ + pr.id + ".nix"@, c)]
        },
        _ => Seq::empty(),
    };
    let b = bundle_template_files(o.bundles, t.bundles, o.bundles.len());
    lemma_bundle_files_in_managed_dir(o.bundles, t.bundles, o.bundles.len());
    assert(all_in_managed_dir(first));
    assert(all_in_managed_dir(h));
    assert(all_in_managed_dir(d));
    assert(all_in_managed_dir(u));
    assert(all_in_managed_dir(p));
    lemma_all_in_concat(first, h);
    lemma_all_in_concat(first + h, d);
    lemma_all_in_concat(first + h + d, u);
    lemma_all_in_concat(first + h + d + u, p);
    lemma_all_in_concat(first + h + d + u + p, b);
    assert(spec_generated_files(o, t) == first + h + d + u + p + b);
}

/// The names of the snippet files that the options call for, in the order
/// in which selected.nix imports them.
pub open spec fn snippet_names(o: NixGenOptionsView) -> Seq<Seq<char>> {
    (if o.hostname is Some {
        seq!["hostname.nix"@]
    } else {
        Seq::empty()
    }) + (if o.dns_servers.len() > 0 {
        seq!["dns.nix"@]
    } else {
        Seq::empty()
    }) + (if o.user_groups.len() > 0 && o.username is Some {
        seq!["users.nix"@]
    } else {
        Seq::empty()
    })
}

/// The import lines of selected.nix for the profile and the bundles.
pub open spec fn module_imports(o: NixGenOptionsView) -> Seq<Seq<char>> {
    (match o.profile {
        Some(p) => seq!["    ../profiles/"@ + p.id + ".nix"@],
        None => Seq::empty(),
    }) + wrap_each(o.bundles.map_values(|b: BundleView| b.id), "    ../bundles/"@, ".nix"@)
}

/// Every snippet that selected.nix imports is generated, and so previewed
/// (see `law_preview_lists_generated_files`): selected.nix imports
/// `./<name>` for each snippet name, right after the profile and bundle
/// imports; the files that follow selected.nix in the generated list are
/// `<state dir>/<name>` for the same names in the same order; and each of
/// them has content, unless the username is empty.
pub proof fn law_imports_are_previewed(o: NixGenOptionsView, t: TemplateContentsView)
    ensures
        selected_imports(o) == module_imports(o) + snippet_names(o).map_values(
            |n: Seq<char>| "    ./"@ + n,
        ),
        1 + snippet_names(o).len() <= spec_generated_files(o, t).len(),
        spec_generated_files(o, t).subrange(1, 1 + snippet_names(o).len() as int).map_values(
            |f: GeneratedFileView| f.path,
        ) == snippet_names(o).map_values(|n: Seq<char>| paths::STATE_DIR@ + "/"@ + n),
        (match o.username {
            Some(u) => u.len() > 0,
            None => true,
        }) ==> forall|k: int|
            1 <= k < 1 + snippet_names(o).len() ==> (#[trigger] spec_generated_files(o, t)[k]).content.len()
                > 0,
{
    reveal_strlit("/etc/nixos/nixos-toolkit/state");
    reveal_strlit("/");
    reveal_strlit("hostname.nix");
    reveal_strlit("dns.nix");
    reveal_strlit("users.nix");
    reveal_strlit("/etc/nixos/nixos-toolkit/state/hostname.nix");
    reveal_strlit("/etc/nixos/nixos-toolkit/state/dns.nix");
    reveal_strlit("/etc/nixos/nixos-toolkit/state/users.nix");
    reveal_strlit("# NixOS Toolkit - ");
    reveal_strlit("    ./");
    reveal_strlit("    ./hostname.nix");
    reveal_strlit("    ./dns.nix");
    reveal_strlit("    ./users.nix");
    assert("    ./hostname.nix"@ =~= "    ./"@ + "hostname.nix"@);
    assert("    ./dns.nix"@ =~= "    ./"@ + "dns.nix"@);
    assert("    ./users.nix"@ =~= "    ./"@ + "users.nix"@);
    assert(paths::HOSTNAME_NIX@ =~= paths::STATE_DIR@ + "/"@ + "hostname.nix"@);
    assert(paths::DNS_NIX@ =~= paths::STATE_DIR@ + "/"@ + "dns.nix"@);
    assert(paths::USERS_NIX@ =~= paths::STATE_DIR@ + "/"@ + "users.nix"@);
    let hn: Seq<Seq<char>> = if o.hostname is Some {
        seq!["hostname.nix"@]
    } else {
        Seq::empty()
    };
    let dn: Seq<Seq<char>> = if o.dns_servers.len() > 0 {
        seq!["dns.nix"@]
    } else {
        Seq::empty()
    };
    let un: Seq<Seq<char>> = if o.user_groups.len() > 0 && o.username is Some {
        seq!["users.nix"@]
    } else {
        Seq::empty()
    };
    let imp = |n: Seq<char>| "    ./"@ + n;
    let at = |n: Seq<char>| paths::STATE_DIR@ + "/"@ + n;
    assert(snippet_names(o) == hn + dn + un);
    assert((hn + dn + un).map_values(imp) =~= hn.map_values(imp) + dn.map_values(imp) + un.map_values(imp));
    assert(hn.map_values(imp) =~= (if o.hostname is Some {
        seq!["    ./hostname.nix"@]
    } else {
        Seq::<Seq<char>>::empty()
    }));
    assert(dn.map_values(imp) =~= (if o.dns_servers.len() > 0 {
        seq!["    ./dns.nix"@]
    } else {
        Seq::<Seq<char>>::empty()
    }));
    assert(un.map_values(imp) =~= (if o.user_groups.len() > 0 && o.username is Some {
        seq!["    ./users.nix"@]
    } else {
        Seq::<Seq<char>>::empty()
    }));
    assert(selected_imports(o) =~= module_imports(o) + snippet_names(o).map_values(imp));
    let first = template_file(paths::SELECTED_NIX@, spec_selected_nix(o));
    let h: Seq<GeneratedFileView> = match o.hostname {
        Some(x) => seq![template_file(paths::HOSTNAME_NIX@, spec_hostname_nix(x))],
        None => Seq::empty(),
    };
    let d: Seq<GeneratedFileView> = if o.dns_servers.len() > 0 {
        seq![template_file(paths::DNS_NIX@, spec_dns_nix(o.dns_servers))]
    } else {
        Seq::empty()
    };
    let u: Seq<GeneratedFileView> = match o.username {
        Some(x) => if o.user_groups.len() > 0 {
            seq![template_file(paths::USERS_NIX@, spec_user_groups_nix(x, o.user_groups))]
        } else {
            Seq::empty()
        },
        None => Seq::empty(),
    };
    let p: Seq<GeneratedFileView> = match (o.profile, t.profile) {
        (Some(pr), Some(c)) => seq![
            template_file("/etc/nixos/nixos-toolkit/profiles/"@ + pr.id + ".nix"@, c),
        ],
        _ => Seq::empty(),
    };
    let b = bundle_template_files(o.bundles, t.bundles, o.bundles.len());
    let all = seq![first] + h + d + u + p + b;
    assert(spec_generated_files(o, t) == all);
    let snip = h + d + u;
    assert(snip.len() == snippet_names(o).len());
    assert(all.subrange(1, 1 + snip.len() as int) =~= snip);
    let path = |f: GeneratedFileView| f.path;
    assert(snip.map_values(path) =~= h.map_values(path) + d.map_values(path) + u.map_values(path));
    assert(h.map_values(path) =~= hn.map_values(at));
    assert(d.map_values(path) =~= dn.map_values(at));
    assert(u.map_values(path) =~= un.map_values(at));
    assert((hn + dn + un).map_values(at) =~= hn.map_values(at) + dn.map_values(at) + un.map_values(at));
    let username_ok = match o.username {
        Some(x) => x.len() > 0,
        None => true,
    };
    if username_ok {
        let hx = match o.hostname {
            Some(x) => x,
            None => Seq::empty(),
        };
        let ux = match o.username {
            Some(x) => x,
            None => Seq::empty(),
        };
        law_snippets_marked(o, hx, o.dns_servers, ux, o.user_groups);
        assert forall|k: int| 1 <= k < 1 + snippet_names(o).len() implies (
        #[trigger] spec_generated_files(o, t)[k]).content.len() > 0 by {
            assert(all[k] == snip[k - 1]);
            let f = snip[k - 1];
            assert(f == h[k - 1] || f == d[k - 1 - h.len()] || f == u[k - 1 - h.len() - d.len()]);
        }
    }
}

} // verus!
