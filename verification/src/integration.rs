//! System detection and integration checking, from what the filesystem and
//! the environment show.

use vstd::prelude::*;

use crate::actions::opt_view;
use crate::config::{ConfigMode, IntegrationStatus, SystemInfo, SystemInfoView};
use crate::ipc::HelperResponse;
use crate::text::{
    chars_of, contains, lines, lines_of, owned, starts_with, str_contains, str_starts_with,
    string_of_chars, trim, trim_str, views,
};

verus! {

/// What system detection reads from the filesystem and the environment.
#[derive(Debug, Clone)]
pub struct SystemProbe {
    /// Whether `/etc/NIXOS` exists
    pub nixos_marker_exists: bool,
    /// The content of `/etc/os-release`, if it could be read
    pub os_release: Option<String>,
    /// Whether `/etc/nixos/flake.nix` exists
    pub flake_exists: bool,
    /// Whether `/etc/nixos/configuration.nix` exists
    pub classic_exists: bool,
    /// The content of `/etc/nixos/configuration.nix`, if it could be read
    pub configuration_nix: Option<String>,
    /// The content of `/etc/nixos/flake.nix`, if it could be read
    pub flake_nix: Option<String>,
    /// Whether the managed selected.nix exists
    pub selected_nix_exists: bool,
    /// Whether the managed directory exists
    pub managed_dir_exists: bool,
    /// The content of `/etc/hostname`, if it could be read
    pub hostname_file: Option<String>,
    /// What the `hostname` command printed, when it succeeded
    pub hostname_command: Option<String>,
    /// The value of `XDG_CURRENT_DESKTOP`, if set
    pub current_desktop: Option<String>,
}

/// Whether `text` is there and mentions the toolkit.
pub open spec fn mentions_toolkit(text: Option<Seq<char>>) -> bool {
    match text {
        Some(t) => contains(t, "nixos-toolkit"@),
        None => false,
    }
}

fn opt_mentions_toolkit(text: &Option<String>) -> (r: bool)
    ensures
        r == mentions_toolkit(opt_view(*text)),
{
    match text {
        Some(t) => str_contains(t.as_str(), "nixos-toolkit"),
        None => false,
    }
}

/// The configuration mode: flake when flake.nix exists, classic when only
/// configuration.nix does.
pub open spec fn spec_config_mode(flake_exists: bool, classic_exists: bool) -> ConfigMode {
    if flake_exists {
        ConfigMode::Flake
    } else if classic_exists {
        ConfigMode::Classic
    } else {
        ConfigMode::Unknown
    }
}

/// Detect whether the system uses a classic or a flake configuration.
pub fn detect_config_mode(flake_exists: bool, classic_exists: bool) -> (r: ConfigMode)
    ensures
        r == spec_config_mode(flake_exists, classic_exists),
{
    if flake_exists {
        ConfigMode::Flake
    } else if classic_exists {
        ConfigMode::Classic
    } else {
        ConfigMode::Unknown
    }
}

/// The main configuration file: flake.nix before configuration.nix.
pub open spec fn spec_config_path(flake_exists: bool, classic_exists: bool) -> Option<Seq<char>> {
    if flake_exists {
        Some("/etc/nixos/flake.nix"@)
    } else if classic_exists {
        Some("/etc/nixos/configuration.nix"@)
    } else {
        None
    }
}

/// Find the main configuration file path.
pub fn find_config_path(flake_exists: bool, classic_exists: bool) -> (r: Option<String>)
    ensures
        opt_view(r) == spec_config_path(flake_exists, classic_exists),
{
    if flake_exists {
        Some(owned("/etc/nixos/flake.nix"))
    } else if classic_exists {
        Some(owned("/etc/nixos/configuration.nix"))
    } else {
        None
    }
}

/// The integration status that the GUI reports: integrated when
/// configuration.nix or flake.nix mentions the toolkit (the import that the
/// classic or the flake setup adds), not integrated otherwise.
pub open spec fn spec_gui_integration(
    configuration_nix: Option<Seq<char>>,
    flake_nix: Option<Seq<char>>,
) -> IntegrationStatus {
    if mentions_toolkit(configuration_nix) || mentions_toolkit(flake_nix) {
        IntegrationStatus::Integrated
    } else {
        IntegrationStatus::NotIntegrated
    }
}

/// Check if the nixos-toolkit module is imported (the GUI's check), from
/// the contents of configuration.nix and flake.nix where they could be read.
pub fn detect_integration(configuration_nix: &Option<String>, flake_nix: &Option<String>) -> (r:
    IntegrationStatus)
    ensures
        r == spec_gui_integration(opt_view(*configuration_nix), opt_view(*flake_nix)),
{
    if opt_mentions_toolkit(configuration_nix) || opt_mentions_toolkit(flake_nix) {
        IntegrationStatus::Integrated
    } else {
        IntegrationStatus::NotIntegrated
    }
}

/// The integration status that the helper reports: not integrated while the
/// managed selected.nix does not exist, otherwise integrated when
/// configuration.nix or flake.nix mentions the toolkit.
pub open spec fn spec_helper_integration(
    selected_nix_exists: bool,
    configuration_nix: Option<Seq<char>>,
    flake_nix: Option<Seq<char>>,
) -> IntegrationStatus {
    if selected_nix_exists && (mentions_toolkit(configuration_nix) || mentions_toolkit(flake_nix)) {
        IntegrationStatus::Integrated
    } else {
        IntegrationStatus::NotIntegrated
    }
}

/// Check if the nixos-toolkit module is imported (the helper's check).
pub fn detect_helper_integration(
    selected_nix_exists: bool,
    configuration_nix: &Option<String>,
    flake_nix: &Option<String>,
) -> (r: IntegrationStatus)
    ensures
        r == spec_helper_integration(selected_nix_exists, opt_view(*configuration_nix), opt_view(*flake_nix)),
{
    if !selected_nix_exists {
        return IntegrationStatus::NotIntegrated;
    }
    if opt_mentions_toolkit(configuration_nix) {
        return IntegrationStatus::Integrated;
    }
    if opt_mentions_toolkit(flake_nix) {
        return IntegrationStatus::Integrated;
    }
    IntegrationStatus::NotIntegrated
}

/// `s` with every leading repetition of `prefix` removed, as
/// `str::trim_start_matches` does with a non-empty string pattern.
pub open spec fn strip_prefixes(s: Seq<char>, prefix: Seq<char>) -> Seq<char>
    decreases s.len(),
{
    if prefix.len() > 0 && starts_with(s, prefix) {
        strip_prefixes(s.skip(prefix.len() as int), prefix)
    } else {
        s
    }
}

/// `s` without the leading and trailing characters equal to `c`, as
/// `str::trim_matches` does with a character pattern.
pub open spec fn trim_char(s: Seq<char>, c: char) -> Seq<char> {
    trim_char_end(trim_char_start(s, c), c)
}

pub open spec fn trim_char_start(s: Seq<char>, c: char) -> Seq<char>
    decreases s.len(),
{
    if s.len() > 0 && s[0] == c {
        trim_char_start(s.drop_first(), c)
    } else {
        s
    }
}

pub open spec fn trim_char_end(s: Seq<char>, c: char) -> Seq<char>
    decreases s.len(),
{
    if s.len() > 0 && s.last() == c {
        trim_char_end(s.drop_last(), c)
    } else {
        s
    }
}

/// The first line of `ls` that starts with `prefix`.
pub open spec fn first_line_with(ls: Seq<Seq<char>>, prefix: Seq<char>) -> Option<Seq<char>>
    decreases ls.len(),
{
    if ls.len() == 0 {
        None
    } else if starts_with(ls[0], prefix) {
        Some(ls[0])
    } else {
        first_line_with(ls.drop_first(), prefix)
    }
}

/// The NixOS version that os-release gives: the first `VERSION_ID=` line,
/// without that prefix and without surrounding double quotes.
pub open spec fn spec_nixos_version(os_release: Seq<char>) -> Option<Seq<char>> {
    match first_line_with(lines(os_release), "VERSION_ID="@) {
        Some(l) => Some(trim_char(strip_prefixes(l, "VERSION_ID="@), '"')),
        None => None,
    }
}

proof fn lemma_first_line_with(ls: Seq<Seq<char>>, prefix: Seq<char>, k: int)
    requires
        0 <= k <= ls.len(),
        forall|j: int| 0 <= j < k ==> !starts_with(#[trigger] ls[j], prefix),
    ensures
        k < ls.len() && starts_with(ls[k], prefix) ==> first_line_with(ls, prefix) == Some(ls[k]),
        k == ls.len() ==> first_line_with(ls, prefix) is None,
    decreases k,
{
    if k > 0 {
        assert forall|j: int| 0 <= j < k - 1 implies !starts_with(
            #[trigger] ls.drop_first()[j],
            prefix,
        ) by {
            assert(ls.drop_first()[j] == ls[j + 1]);
        }
        lemma_first_line_with(ls.drop_first(), prefix, k - 1);
    }
}

fn strip_prefixes_exec(s: &str, prefix: &str) -> (r: String)
    ensures
        r@ == strip_prefixes(s@, prefix@),
{
    let v = chars_of(s);
    let p = chars_of(prefix);
    if p.len() == 0 {
        return owned(s);
    }
    let mut i: usize = 0;
    assert(v@.skip(0) =~= v@);
    while p.len() <= v.len() - i && crate::text::occurs_at_vec(&v, &p, i)
        invariant
            i <= v@.len(),
            p@ == prefix@,
            p@.len() > 0,
            strip_prefixes(v@, p@) == strip_prefixes(v@.skip(i as int), p@),
            v@ == s@,
        decreases v@.len() - i,
    {
        assert(starts_with(v@.skip(i as int), p@)) by {
            assert(v@.skip(i as int).subrange(0, p@.len() as int) =~= v@.subrange(
                i as int,
                i + p@.len(),
            ));
        }
        assert(v@.skip(i as int).skip(p@.len() as int) =~= v@.skip(i + p@.len()));
        i = i + p.len();
    }
    assert(!starts_with(v@.skip(i as int), p@)) by {
        if i + p@.len() <= v@.len() {
            assert(v@.skip(i as int).subrange(0, p@.len() as int) =~= v@.subrange(
                i as int,
                i + p@.len(),
            ));
        }
    }
    string_of_chars(&v, i, v.len())
}

fn trim_char_exec(s: &String, c: char) -> (r: String)
    ensures
        r@ == trim_char(s@, c),
{
    let v = chars_of(s.as_str());
    let mut i: usize = 0;
    assert(v@.skip(0) == v@);
    while i < v.len() && v[i] == c
        invariant
            i <= v@.len(),
            trim_char_start(v@, c) == trim_char_start(v@.skip(i as int), c),
        decreases v@.len() - i,
    {
        assert(v@.skip(i as int).drop_first() == v@.skip(i + 1));
        i = i + 1;
    }
    assert(trim_char_start(v@, c) == v@.subrange(i as int, v@.len() as int));
    let mut j: usize = v.len();
    while j > i && v[j - 1] == c
        invariant
            i <= j <= v@.len(),
            trim_char(v@, c) == trim_char_end(v@.subrange(i as int, j as int), c),
        decreases j,
    {
        assert(v@.subrange(i as int, j as int).drop_last() == v@.subrange(i as int, j - 1));
        j = j - 1;
    }
    string_of_chars(&v, i, j)
}

/// Get the NixOS version from the content of `/etc/os-release`.
pub fn parse_nixos_version(os_release: &str) -> (r: Option<String>)
    ensures
        opt_view(r) == spec_nixos_version(os_release@),
{
    let ls = lines_of(os_release);
    let ghost lv = views(ls@);
    let mut i: usize = 0;
    while i < ls.len()
        invariant
            i <= ls@.len(),
            lv == views(ls@),
            lv == lines(os_release@),
            forall|j: int| 0 <= j < i ==> !starts_with(#[trigger] lv[j], "VERSION_ID="@),
        decreases ls@.len() - i,
    {
        if str_starts_with(ls[i].as_str(), "VERSION_ID=") {
            proof {
                lemma_first_line_with(lv, "VERSION_ID="@, i as int);
            }
            let stripped = strip_prefixes_exec(ls[i].as_str(), "VERSION_ID=");
            return Some(trim_char_exec(&stripped, '"'));
        }
        i = i + 1;
    }
    proof {
        lemma_first_line_with(lv, "VERSION_ID="@, i as int);
    }
    None
}

/// The NixOS version that an os-release content gives, if there is one.
pub open spec fn opt_nixos_version(os_release: Option<Seq<char>>) -> Option<Seq<char>> {
    match os_release {
        Some(c) => spec_nixos_version(c),
        None => None,
    }
}

fn opt_parse_nixos_version(os_release: &Option<String>) -> (r: Option<String>)
    ensures
        opt_view(r) == opt_nixos_version(opt_view(*os_release)),
{
    match os_release {
        Some(c) => parse_nixos_version(c.as_str()),
        None => None,
    }
}

/// The hostname that the GUI shows: `/etc/hostname` trimmed when that is
/// not blank, otherwise the trimmed output of the `hostname` command.
pub open spec fn spec_gui_hostname(file: Option<Seq<char>>, command: Option<Seq<char>>) -> Option<
    Seq<char>,
> {
    match file {
        Some(f) if trim(f).len() > 0 => Some(trim(f)),
        _ => match command {
            Some(c) => Some(trim(c)),
            None => None,
        },
    }
}

/// The hostname that `/etc/hostname` gives, when it is not blank.
pub fn hostname_from_file(file: &Option<String>) -> (r: Option<String>)
    ensures
        opt_view(r) == (match opt_view(*file) {
            Some(f) if trim(f).len() > 0 => Some(trim(f)),
            _ => None,
        }),
{
    match file {
        Some(f) => {
            let t = trim_str(f.as_str());
            if t.as_str().is_empty() {
                None
            } else {
                Some(t)
            }
        },
        None => None,
    }
}

fn get_hostname(file: &Option<String>, command: &Option<String>) -> (r: Option<String>)
    ensures
        opt_view(r) == spec_gui_hostname(opt_view(*file), opt_view(*command)),
{
    match hostname_from_file(file) {
        Some(h) => Some(h),
        None => match command {
            Some(c) => Some(trim_str(c.as_str())),
            None => None,
        },
    }
}

/// The system information that the GUI detects from a probe.
pub open spec fn spec_detect_system(p: SystemProbe) -> SystemInfoView {
    SystemInfoView {
        is_nixos: p.nixos_marker_exists,
        nixos_version: opt_nixos_version(opt_view(p.os_release)),
        config_mode: spec_config_mode(p.flake_exists, p.classic_exists),
        config_path: spec_config_path(p.flake_exists, p.classic_exists),
        integration_status: spec_gui_integration(opt_view(p.configuration_nix), opt_view(p.flake_nix)),
        hostname: spec_gui_hostname(opt_view(p.hostname_file), opt_view(p.hostname_command)),
        current_desktop: opt_view(p.current_desktop),
    }
}

/// Detect system configuration and integration status (the GUI's view).
pub fn detect_system(probe: &SystemProbe) -> (r: SystemInfo)
    ensures
        r@ == spec_detect_system(*probe),
{
    SystemInfo {
        is_nixos: probe.nixos_marker_exists,
        nixos_version: opt_parse_nixos_version(&probe.os_release),
        config_mode: detect_config_mode(probe.flake_exists, probe.classic_exists),
        config_path: find_config_path(probe.flake_exists, probe.classic_exists),
        integration_status: detect_integration(&probe.configuration_nix, &probe.flake_nix),
        hostname: get_hostname(&probe.hostname_file, &probe.hostname_command),
        current_desktop: crate::actions::clone_opt(&probe.current_desktop),
    }
}

/// The system information that the helper reports from a probe: its
/// integration check, and `/etc/hostname` trimmed with no fallback.
pub open spec fn spec_helper_system_info(p: SystemProbe) -> SystemInfoView {
    SystemInfoView {
        is_nixos: p.nixos_marker_exists,
        nixos_version: opt_nixos_version(opt_view(p.os_release)),
        config_mode: spec_config_mode(p.flake_exists, p.classic_exists),
        config_path: spec_config_path(p.flake_exists, p.classic_exists),
        integration_status: spec_helper_integration(
            p.selected_nix_exists,
            opt_view(p.configuration_nix),
            opt_view(p.flake_nix),
        ),
        hostname: match opt_view(p.hostname_file) {
            Some(f) => Some(trim(f)),
            None => None,
        },
        current_desktop: opt_view(p.current_desktop),
    }
}

/// Get system information (the helper's response).
pub fn get_system_info(probe: &SystemProbe) -> (r: HelperResponse)
    ensures
        r matches HelperResponse::SystemInfo(info) && info@ == spec_helper_system_info(*probe),
{
    let hostname = match &probe.hostname_file {
        Some(f) => Some(trim_str(f.as_str())),
        None => None,
    };
    HelperResponse::SystemInfo(
        SystemInfo {
            is_nixos: probe.nixos_marker_exists,
            nixos_version: opt_parse_nixos_version(&probe.os_release),
            config_mode: detect_config_mode(probe.flake_exists, probe.classic_exists),
            config_path: find_config_path(probe.flake_exists, probe.classic_exists),
            integration_status: detect_helper_integration(
                probe.selected_nix_exists,
                &probe.configuration_nix,
                &probe.flake_nix,
            ),
            hostname,
            current_desktop: crate::actions::clone_opt(&probe.current_desktop),
        },
    )
}

/// Integration snippet for a classic configuration.
pub fn classic_integration_snippet() -> (r: String)
    ensures
        r@ == "# Add this line to your imports list in /etc/nixos/configuration.nix:\n\n./nixos-toolkit/state/selected.nix"@,
{
    owned(
        "# Add this line to your imports list in /etc/nixos/configuration.nix:\n\n./nixos-toolkit/state/selected.nix",
    )
}

/// Integration snippet for a flake configuration.
pub fn flake_integration_snippet() -> (r: String)
    ensures
        r@ == "# Add this line to your modules list in /etc/nixos/flake.nix:\n\n./nixos-toolkit/state/selected.nix"@,
{
    owned(
        "# Add this line to your modules list in /etc/nixos/flake.nix:\n\n./nixos-toolkit/state/selected.nix",
    )
}

/// The GUI reports the toolkit as integrated as soon as either
/// configuration.nix or flake.nix mentions it, whatever the other file
/// holds or whether it exists, and as not integrated when neither does.
pub proof fn law_gui_integration_by_mention(configuration_nix: Option<Seq<char>>, flake_nix: Option<
    Seq<char>,
>)
    ensures
        (configuration_nix matches Some(c) && contains(c, "nixos-toolkit"@)) ==> spec_gui_integration(
            configuration_nix,
            flake_nix,
        ) == IntegrationStatus::Integrated,
        (flake_nix matches Some(f) && contains(f, "nixos-toolkit"@)) ==> spec_gui_integration(
            configuration_nix,
            flake_nix,
        ) == IntegrationStatus::Integrated,
        !(configuration_nix matches Some(c) && contains(c, "nixos-toolkit"@)) && !(flake_nix matches Some(
            f,
        ) && contains(f, "nixos-toolkit"@)) ==> spec_gui_integration(configuration_nix, flake_nix)
            == IntegrationStatus::NotIntegrated,
{
}

/// The helper reports the toolkit as integrated exactly when the managed
/// selected.nix exists and configuration.nix or flake.nix mentions the
/// toolkit: a mention in configuration.nix counts whatever flake.nix holds,
/// and without selected.nix nothing counts.
pub proof fn law_helper_integration_by_mention(
    selected_nix_exists: bool,
    configuration_nix: Option<Seq<char>>,
    flake_nix: Option<Seq<char>>,
)
    ensures
        selected_nix_exists && (configuration_nix matches Some(c) && contains(c, "nixos-toolkit"@))
            ==> spec_helper_integration(selected_nix_exists, configuration_nix, flake_nix)
            == IntegrationStatus::Integrated,
        selected_nix_exists && (flake_nix matches Some(f) && contains(f, "nixos-toolkit"@))
            ==> spec_helper_integration(selected_nix_exists, configuration_nix, flake_nix)
            == IntegrationStatus::Integrated,
        !selected_nix_exists ==> spec_helper_integration(
            selected_nix_exists,
            configuration_nix,
            flake_nix,
        ) == IntegrationStatus::NotIntegrated,
        !(configuration_nix matches Some(c) && contains(c, "nixos-toolkit"@)) && !(flake_nix matches Some(
            f,
        ) && contains(f, "nixos-toolkit"@)) ==> spec_helper_integration(
            selected_nix_exists,
            configuration_nix,
            flake_nix,
        ) == IntegrationStatus::NotIntegrated,
{
}

} // verus!
