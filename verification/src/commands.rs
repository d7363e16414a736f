//! The helper's request logic: validation, generation listing, maintenance
//! allowlisting and the assembly of responses.

use vstd::prelude::*;

use crate::actions::opt_view;
use crate::config::ConfigMode;
use crate::ipc::{GeneratedFile, GeneratedFileView, Generation, GenerationView, HelperResponse};
use crate::nix::NixGenError;
use crate::text::{
    contains, join, owned, push_str, split_whitespace, str_contains, str_eq, trim, trim_str, views,
    words,
};

verus! {

/// Whether `x` is one of `list`.
pub fn str_in(x: &str, list: &[&str]) -> (r: bool)
    ensures
        r == list@.map_values(|s: &str| s@).contains(x@),
{
    let ghost l = list@.map_values(|s: &str| s@);
    let mut i: usize = 0;
    while i < list.len()
        invariant
            i <= list@.len(),
            l == list@.map_values(|s: &str| s@),
            forall|k: int| 0 <= k < i ==> l[k] != x@,
        decreases list@.len() - i,
    {
        if str_eq(x, list[i]) {
            assert(l[i as int] == x@);
            return true;
        }
        i = i + 1;
    }
    false
}

/// The profile ids that validation knows.
pub open spec fn known_profiles() -> Seq<Seq<char>> {
    seq!["gnome"@, "kde"@, "xfce"@, "mate"@, "cinnamon"@, "pantheon"@, "cosmic"@]
}

/// The bundle ids that validation knows.
pub open spec fn known_bundles() -> Seq<Seq<char>> {
    seq![
        "devtools"@,
        "gaming"@,
        "virtualization"@,
        "virtualbox"@,
        "containers"@,
        "flatpak"@,
        "multimedia"@,
        "office"@,
    ]
}

/// The errors that validation reports: those of the hostname.
pub open spec fn validation_errors(hostname: Option<Seq<char>>) -> Seq<Seq<char>> {
    match hostname {
        Some(h) => if h.len() == 0 {
            seq!["Hostname cannot be empty"@]
        } else if !crate::text::hostname_chars_ok(h) {
            seq!["Hostname contains invalid characters"@]
        } else if (vstd::utf8::encode_utf8(h).len() as usize) > 63 {
            seq!["Hostname too long (max 63 characters)"@]
        } else {
            Seq::empty()
        },
        None => Seq::empty(),
    }
}

/// The warning for a profile that validation does not know: such a profile
/// may still be one of the registry's, so it does not make the
/// configuration invalid.
pub open spec fn unknown_profile_warnings(profile: Option<Seq<char>>) -> Seq<Seq<char>> {
    match profile {
        Some(p) => if known_profiles().contains(p) {
            Seq::empty()
        } else {
            seq!["Unknown profile: "@ + p]
        },
        None => Seq::empty(),
    }
}

/// A warning for each bundle that validation does not know, in order.
pub open spec fn unknown_bundle_warnings(bundles: Seq<Seq<char>>) -> Seq<Seq<char>>
    decreases bundles.len(),
{
    if bundles.len() == 0 {
        Seq::empty()
    } else {
        unknown_bundle_warnings(bundles.drop_last()) + if known_bundles().contains(bundles.last()) {
            Seq::<Seq<char>>::empty()
        } else {
            seq!["Unknown bundle: "@ + bundles.last()]
        }
    }
}

/// The warnings that validation reports: an unknown profile, then each
/// unknown bundle, then a missing managed directory.
pub open spec fn validation_warnings(
    profile: Option<Seq<char>>,
    bundles: Seq<Seq<char>>,
    managed_dir_exists: bool,
) -> Seq<Seq<char>> {
    unknown_profile_warnings(profile) + unknown_bundle_warnings(bundles) + if managed_dir_exists {
        Seq::<Seq<char>>::empty()
    } else {
        seq!["Managed directory does not exist yet"@]
    }
}

/// Validation knows the desktop profiles gnome, kde, xfce, mate, cinnamon,
/// pantheon and cosmic, the first seven of the registry: each of them
/// validates without any warning (given no bundle and an existing managed
/// directory), and any other profile draws exactly the warning
/// "Unknown profile: <id>" and no error.
pub proof fn law_listed_profiles_validate_cleanly(p: Seq<char>)
    ensures
        ({
            let listed = p == "gnome"@ || p == "kde"@ || p == "xfce"@ || p == "mate"@ || p
                == "cinnamon"@ || p == "pantheon"@ || p == "cosmic"@;
            &&& listed ==> validation_warnings(Some(p), Seq::empty(), true) == Seq::<
                Seq<char>,
            >::empty()
            &&& !listed ==> validation_warnings(Some(p), Seq::empty(), true) == seq![
                "Unknown profile: "@ + p,
            ]
        }),
        validation_errors(None) == Seq::<Seq<char>>::empty(),
        crate::actions::spec_default_profiles()[0].id == "gnome"@,
        crate::actions::spec_default_profiles()[1].id == "kde"@,
        crate::actions::spec_default_profiles()[2].id == "xfce"@,
        crate::actions::spec_default_profiles()[3].id == "mate"@,
        crate::actions::spec_default_profiles()[4].id == "cinnamon"@,
        crate::actions::spec_default_profiles()[5].id == "pantheon"@,
        crate::actions::spec_default_profiles()[6].id == "cosmic"@,
{
    let k = known_profiles();
    let listed = p == "gnome"@ || p == "kde"@ || p == "xfce"@ || p == "mate"@ || p == "cinnamon"@
        || p == "pantheon"@ || p == "cosmic"@;
    if listed {
        if p == "gnome"@ {
            assert(k[0] == p);
        } else if p == "kde"@ {
            assert(k[1] == p);
        } else if p == "xfce"@ {
            assert(k[2] == p);
        } else if p == "mate"@ {
            assert(k[3] == p);
        } else if p == "cinnamon"@ {
            assert(k[4] == p);
        } else if p == "pantheon"@ {
            assert(k[5] == p);
        } else {
            assert(k[6] == p);
        }
        assert(k.contains(p));
    } else {
        assert forall|i: int| 0 <= i < k.len() implies k[i] != p by {}
        assert(!k.contains(p));
    }
    assert(unknown_bundle_warnings(Seq::empty()) == Seq::<Seq<char>>::empty());
    let w = validation_warnings(Some(p), Seq::empty(), true);
    assert(w =~= unknown_profile_warnings(Some(p)));
}

/// Whether `r` is the validation result with these errors and warnings,
/// valid exactly when there is no error.
pub open spec fn is_validation_result(
    r: HelperResponse,
    errors: Seq<Seq<char>>,
    warnings: Seq<Seq<char>>,
) -> bool {
    match r {
        HelperResponse::ValidationResult { valid, errors: e, warnings: w } => {
            &&& views(e@) == errors
            &&& views(w@) == warnings
            &&& valid == (errors.len() == 0)
        },
        _ => false,
    }
}

fn prefixed(prefix: &str, s: &str) -> (r: String)
    ensures
        r@ == prefix@ + s@,
{
    let mut r = owned(prefix);
    push_str(&mut r, s);
    r
}

fn push_msg(v: &mut Vec<String>, s: String)
    ensures
        views(final(v)@) == views(old(v)@).push(s@),
{
    assert(views(v@.push(s)) =~= views(v@).push(s@));
    v.push(s);
}

/// Validate a configuration; `managed_dir_exists` tells whether the managed
/// directory is there.
pub fn validate(
    selected_profile: Option<String>,
    enabled_bundles: Vec<String>,
    hostname: Option<String>,
    managed_dir_exists: bool,
) -> (r: HelperResponse)
    ensures
        is_validation_result(
            r,
            validation_errors(opt_view(hostname)),
            validation_warnings(opt_view(selected_profile), views(enabled_bundles@), managed_dir_exists),
        ),
{
    let mut errors: Vec<String> = Vec::new();
    let mut warnings: Vec<String> = Vec::new();
    let valid_profiles: &[&str] = &["gnome", "kde", "xfce", "mate", "cinnamon", "pantheon", "cosmic"];
    assert(valid_profiles@.map_values(|s: &str| s@) =~= known_profiles());
    if let Some(profile) = &selected_profile {
        if !str_in(profile.as_str(), valid_profiles) {
            push_msg(&mut warnings, prefixed("Unknown profile: ", profile.as_str()));
        }
    }
    assert(views(warnings@) =~= unknown_profile_warnings(opt_view(selected_profile)));
    if let Some(h) = &hostname {
        if h.as_str().is_empty() {
            push_msg(&mut errors, owned("Hostname cannot be empty"));
        } else if !crate::text::all_hostname_chars(h.as_str()) {
            push_msg(&mut errors, owned("Hostname contains invalid characters"));
        } else if h.as_str().len() > 63 {
            push_msg(&mut errors, owned("Hostname too long (max 63 characters)"));
        }
    }
    assert(views(errors@) =~= validation_errors(opt_view(hostname)));
    let valid_bundles: &[&str] = &[
        "devtools",
        "gaming",
        "virtualization",
        "virtualbox",
        "containers",
        "flatpak",
        "multimedia",
        "office",
    ];
    assert(valid_bundles@.map_values(|s: &str| s@) =~= known_bundles());
    let mut i: usize = 0;
    assert(views(enabled_bundles@).take(0) =~= Seq::<Seq<char>>::empty());
    while i < enabled_bundles.len()
        invariant
            i <= enabled_bundles@.len(),
            valid_bundles@.map_values(|s: &str| s@) == known_bundles(),
            views(errors@) == validation_errors(opt_view(hostname)),
            views(warnings@) == unknown_profile_warnings(opt_view(selected_profile))
                + unknown_bundle_warnings(views(enabled_bundles@).take(i as int)),
        decreases enabled_bundles@.len() - i,
    {
        assert(views(enabled_bundles@).take(i + 1).drop_last() =~= views(enabled_bundles@).take(
            i as int,
        ));
        if !str_in(enabled_bundles[i].as_str(), valid_bundles) {
            push_msg(&mut warnings, prefixed("Unknown bundle: ", enabled_bundles[i].as_str()));
        } else {
            assert(views(warnings@) =~= views(warnings@) + Seq::<Seq<char>>::empty());
        }
        i = i + 1;
    }
    assert(views(enabled_bundles@).take(i as int) =~= views(enabled_bundles@));
    if !managed_dir_exists {
        push_msg(&mut warnings, owned("Managed directory does not exist yet"));
    } else {
        assert(views(warnings@) =~= views(warnings@) + Seq::<Seq<char>>::empty());
    }
    let valid = errors.len() == 0;
    HelperResponse::ValidationResult { valid, errors, warnings }
}

/// The generation that a line of `nix-env --list-generations` describes:
/// its number, the two words after it as the date (or `"Unknown"`), and
/// whether the line marks it `(current)`.
pub open spec fn spec_parse_generation(line: Seq<char>) -> Option<GenerationView> {
    let t = trim(line);
    let parts = words(t);
    if t.len() == 0 || parts.len() == 0 {
        None
    } else {
        match crate::text::parse_unsigned(parts[0], u32::MAX as int) {
            Some(n) => Some(
                GenerationView {
                    number: n as u32,
                    date: if parts.len() >= 3 {
                        parts[1] + " "@ + parts[2]
                    } else {
                        "Unknown"@
                    },
                    current: contains(t, "(current)"@),
                    nixos_version: None,
                    kernel_version: None,
                    config_rev: None,
                },
            ),
            None => None,
        }
    }
}

/// Parse one line of `nix-env --list-generations` output.
pub fn parse_generation_line(line: &str) -> (r: Option<Generation>)
    ensures
        match r {
            Some(g) => spec_parse_generation(line@) == Some(g@),
            None => spec_parse_generation(line@) is None,
        },
{
    let t = trim_str(line);
    if t.as_str().is_empty() {
        return None;
    }
    let parts = split_whitespace(t.as_str());
    if parts.len() == 0 {
        return None;
    }
    assert(views(parts@)[0] == parts@[0]@);
    let parsed = crate::text::parse_unsigned_bounded(parts[0].as_str(), 4294967295u64);
    let number = match parsed {
        Some(n) => {
            n as u32
        },
        None => {
            return None;
        },
    };
    let current = str_contains(t.as_str(), "(current)");
    let date = if parts.len() >= 3 {
        assert(views(parts@)[1] == parts@[1]@);
        assert(views(parts@)[2] == parts@[2]@);
        let mut d = parts[1].clone();
        push_str(&mut d, " ");
        push_str(&mut d, parts[2].as_str());
        d
    } else {
        owned("Unknown")
    };
    assert(date@ == (if parts@.len() >= 3 {
        parts@[1]@ + " "@ + parts@[2]@
    } else {
        "Unknown"@
    }));
    assert(words(trim(line@)) == views(parts@));
    Some(
        Generation {
            number,
            date,
            current,
            nixos_version: None,
            kernel_version: None,
            config_rev: None,
        },
    )
}

/// The contents of a sequence of generations.
pub open spec fn generation_views(v: Seq<Generation>) -> Seq<GenerationView> {
    v.map_values(|g: Generation| g@)
}

/// The generations that the lines describe, in the order of the lines.
pub open spec fn parsed_generations(ls: Seq<Seq<char>>) -> Seq<GenerationView>
    decreases ls.len(),
{
    if ls.len() == 0 {
        Seq::empty()
    } else {
        parsed_generations(ls.drop_last()) + match spec_parse_generation(ls.last()) {
            Some(g) => seq![g],
            None => Seq::empty(),
        }
    }
}

/// Where a generation numbered `n` goes in a list sorted newest first: after
/// every generation whose number is at least `n`.
pub open spec fn insert_pos(sorted: Seq<GenerationView>, n: u32) -> int
    decreases sorted.len(),
{
    if sorted.len() == 0 || sorted[0].number < n {
        0
    } else {
        1 + insert_pos(sorted.drop_first(), n)
    }
}

/// The generations sorted by number, newest first; generations with the
/// same number keep their order (a stable sort).
pub open spec fn sort_newest_first(s: Seq<GenerationView>) -> Seq<GenerationView>
    decreases s.len(),
{
    if s.len() == 0 {
        Seq::empty()
    } else {
        let sorted = sort_newest_first(s.drop_last());
        sorted.insert(insert_pos(sorted, s.last().number), s.last())
    }
}

/// The numbers never increase along `s`.
pub open spec fn newest_first(s: Seq<GenerationView>) -> bool {
    forall|i: int, j: int| 0 <= i < j < s.len() ==> s[i].number >= s[j].number
}

proof fn lemma_insert_pos(s: Seq<GenerationView>, n: u32, k: int)
    requires
        0 <= k <= s.len(),
        forall|j: int| 0 <= j < k ==> s[j].number >= n,
        k == s.len() || s[k].number < n,
    ensures
        insert_pos(s, n) == k,
    decreases k,
{
    if k > 0 {
        lemma_insert_pos(s.drop_first(), n, k - 1);
    }
}

proof fn lemma_insert_keeps_order(s: Seq<GenerationView>, g: GenerationView, k: int)
    requires
        newest_first(s),
        0 <= k <= s.len(),
        forall|j: int| 0 <= j < k ==> s[j].number >= g.number,
        k == s.len() || s[k].number < g.number,
    ensures
        newest_first(s.insert(k, g)),
{
    let t = s.insert(k, g);
    assert forall|i: int, j: int| 0 <= i < j < t.len() implies t[i].number >= t[j].number by {
        if i < k && j == k {
        } else if i == k && j > k {
            assert(t[j] == s[j - 1]);
            assert(s[k].number >= s[j - 1].number);
        } else if i < k && j > k {
            assert(t[j] == s[j - 1]);
        } else if i > k {
            assert(t[i] == s[i - 1] && t[j] == s[j - 1]);
        }
    }
}

proof fn lemma_insert_pos_bounds(s: Seq<GenerationView>, n: u32)
    ensures
        0 <= insert_pos(s, n) <= s.len(),
    decreases s.len(),
{
    if s.len() > 0 && s[0].number >= n {
        lemma_insert_pos_bounds(s.drop_first(), n);
    }
}

/// Sorting generations newest first loses none and adds none: the sorted
/// list holds each generation as often as the parsed lines do.
pub proof fn law_sort_keeps_generations(s: Seq<GenerationView>)
    ensures
        sort_newest_first(s).to_multiset() == s.to_multiset(),
    decreases s.len(),
{
    if s.len() > 0 {
        let rest = s.drop_last();
        law_sort_keeps_generations(rest);
        let sorted = sort_newest_first(rest);
        lemma_insert_pos_bounds(sorted, s.last().number);
        vstd::seq_lib::to_multiset_insert(sorted, insert_pos(sorted, s.last().number), s.last());
        vstd::seq_lib::to_multiset_build(rest, s.last());
        assert(rest.push(s.last()) =~= s);
        assert(sort_newest_first(s) == sorted.insert(insert_pos(sorted, s.last().number), s.last()));
    } else {
        assert(sort_newest_first(s) =~= s);
    }
}

/// Parse the output of `nix-env --list-generations`: every line that
/// describes a generation, newest first.
pub fn parse_generations(output: &str) -> (r: Vec<Generation>)
    ensures
        generation_views(r@) == sort_newest_first(parsed_generations(crate::text::lines(output@))),
        newest_first(generation_views(r@)),
{
    let ls = crate::text::lines_of(output);
    let ghost lv = views(ls@);
    let mut r: Vec<Generation> = Vec::new();
    let mut i: usize = 0;
    assert(lv.take(0) =~= Seq::<Seq<char>>::empty());
    assert(generation_views(r@) =~= Seq::<GenerationView>::empty());
    while i < ls.len()
        invariant
            i <= ls@.len(),
            lv == views(ls@),
            generation_views(r@) == sort_newest_first(parsed_generations(lv.take(i as int))),
            newest_first(generation_views(r@)),
        decreases ls@.len() - i,
    {
        assert(lv.take(i + 1).drop_last() =~= lv.take(i as int));
        assert(lv.take(i + 1).last() == ls@[i as int]@);
        let ghost before = parsed_generations(lv.take(i as int));
        match parse_generation_line(ls[i].as_str()) {
            Some(g) => {
                let ghost gv = g@;
                assert(parsed_generations(lv.take(i + 1)) =~= before.push(gv));
                assert(before.push(gv).drop_last() =~= before);
                let mut k: usize = 0;
                while k < r.len() && r[k].number >= g.number
                    invariant
                        k <= r@.len(),
                        forall|j: int| 0 <= j < k ==> r@[j].number >= g.number,
                    decreases r@.len() - k,
                {
                    k = k + 1;
                }
                proof {
                    let rv = generation_views(r@);
                    lemma_insert_pos(rv, gv.number, k as int);
                    lemma_insert_keeps_order(rv, gv, k as int);
                    assert(generation_views(r@.insert(k as int, g)) =~= rv.insert(k as int, gv));
                }
                r.insert(k, g);
            },
            None => {
                assert(parsed_generations(lv.take(i + 1)) =~= before);
            },
        }
        i = i + 1;
    }
    assert(lv.take(i as int) =~= lv);
    r
}

/// The maintenance commands that the helper runs.
pub open spec fn allowed_commands() -> Seq<Seq<char>> {
    seq![
        "nix-collect-garbage"@,
        "nix-collect-garbage -d"@,
        "nix-store --optimise"@,
        "nix-store --verify --check-contents"@,
        "nix-channel --update"@,
    ]
}

/// The message that lists the allowed commands.
pub open spec fn allowed_commands_detail() -> Seq<char> {
    "Only these commands are allowed: [\"nix-collect-garbage\", \"nix-collect-garbage -d\", \"nix-store --optimise\", \"nix-store --verify --check-contents\", \"nix-channel --update\"]"@
}

/// Whether `r` is the error response with this message and these details.
pub open spec fn is_error(r: HelperResponse, message: Seq<char>, details: Option<Seq<char>>) -> bool {
    match r {
        HelperResponse::Error { message: m, details: d } => m@ == message && opt_view(d) == details,
        _ => false,
    }
}

/// The program and arguments of an allowed maintenance command: the words
/// of the command. Any other command is refused.
pub fn maintenance_invocation(command: &str) -> (r: Result<Vec<String>, HelperResponse>)
    ensures
        !allowed_commands().contains(command@) ==> (r matches Err(e) && is_error(
            e,
            "Command not allowed"@,
            Some(allowed_commands_detail()),
        )),
        allowed_commands().contains(command@) && words(command@).len() == 0 ==> (r matches Err(e)
            && is_error(e, "Empty command"@, None)),
        allowed_commands().contains(command@) && words(command@).len() > 0 ==> (r matches Ok(
            parts,
        ) && views(parts@) == words(command@)),
{
    let allowed: &[&str] = &[
        "nix-collect-garbage",
        "nix-collect-garbage -d",
        "nix-store --optimise",
        "nix-store --verify --check-contents",
        "nix-channel --update",
    ];
    assert(allowed@.map_values(|s: &str| s@) =~= allowed_commands());
    if !str_in(command, allowed) {
        return Err(
            HelperResponse::Error {
                message: owned("Command not allowed"),
                details: Some(
                    owned(
                        "Only these commands are allowed: [\"nix-collect-garbage\", \"nix-collect-garbage -d\", \"nix-store --optimise\", \"nix-store --verify --check-contents\", \"nix-channel --update\"]",
                    ),
                ),
            },
        );
    }
    let parts = split_whitespace(command);
    if parts.len() == 0 {
        return Err(HelperResponse::Error { message: owned("Empty command"), details: None });
    }
    Ok(parts)
}

/// Every maintenance action that the registry offers runs a command that
/// the helper allows.
pub proof fn law_maintenance_actions_allowed()
    ensures
        forall|i: int|
            0 <= i < crate::actions::spec_default_maintenance_actions().len()
                ==> allowed_commands().contains(
                #[trigger] crate::actions::spec_default_maintenance_actions()[i].command,
            ),
{
    assert forall|i: int|
        0 <= i < crate::actions::spec_default_maintenance_actions().len() implies allowed_commands().contains(
        #[trigger] crate::actions::spec_default_maintenance_actions()[i].command,
    ) by {
        assert(allowed_commands()[i] == crate::actions::spec_default_maintenance_actions()[i].command);
    }
}

/// The contents of a sequence of generated files.
pub open spec fn file_views(v: Seq<GeneratedFile>) -> Seq<GeneratedFileView> {
    v.map_values(|f: GeneratedFile| f@)
}

/// The preview of generated files: each file's path between `===` marks,
/// then its content, the files separated by blank lines.
pub open spec fn spec_generation_preview(files: Seq<GeneratedFileView>) -> Seq<char> {
    join(
        files.map_values(|f: GeneratedFileView| "=== "@ + f.path + " ===\n"@ + f.content + "\n"@),
        "\n"@,
    )
}

/// The preview of generated files.
pub fn generation_preview(files: &Vec<GeneratedFile>) -> (r: String)
    ensures
        r@ == spec_generation_preview(file_views(files@)),
{
    let ghost blocks = file_views(files@).map_values(
        |f: GeneratedFileView| "=== "@ + f.path + " ===\n"@ + f.content + "\n"@,
    );
    let mut parts: Vec<String> = Vec::new();
    let mut i: usize = 0;
    while i < files.len()
        invariant
            i <= files@.len(),
            blocks == file_views(files@).map_values(
                |f: GeneratedFileView| "=== "@ + f.path + " ===\n"@ + f.content + "\n"@,
            ),
            views(parts@) == blocks.take(i as int),
        decreases files@.len() - i,
    {
        let mut s = owned("=== ");
        push_str(&mut s, files[i].path.as_str());
        push_str(&mut s, " ===\n");
        push_str(&mut s, files[i].content.as_str());
        push_str(&mut s, "\n");
        proof {
            assert(views(parts@.push(s)) =~= views(parts@).push(s@));
            assert(blocks.take(i + 1) =~= blocks.take(i as int).push(s@));
        }
        parts.push(s);
        i = i + 1;
    }
    assert(blocks.take(i as int) =~= blocks);
    crate::text::join_strings(&parts, "\n")
}

/// The response to a generation request, from the outcome of generating
/// the files: the files with their preview, or the error.
pub fn generate(outcome: Result<Vec<GeneratedFile>, NixGenError>) -> (r: HelperResponse)
    ensures
        match outcome {
            Ok(files) => match r {
                HelperResponse::GenerationResult { files: f, preview } => file_views(f@)
                    == file_views(files@) && preview@ == spec_generation_preview(file_views(files@)),
                _ => false,
            },
            Err(e) => is_error(r, "Failed to generate configuration"@, Some(e.spec_message())),
        },
{
    match outcome {
        Ok(files) => {
            let preview = generation_preview(&files);
            HelperResponse::GenerationResult { files, preview }
        },
        Err(e) => HelperResponse::Error {
            message: owned("Failed to generate configuration"),
            details: Some(e.to_string()),
        },
    }
}

/// What applying does after generating the files: the configuration mode
/// to rebuild with (flake when `flake_exists`, classic otherwise), or the
/// error response when generation failed.
pub fn apply(outcome: Result<Vec<GeneratedFile>, NixGenError>, flake_exists: bool) -> (r: Result<
    ConfigMode,
    HelperResponse,
>)
    ensures
        match outcome {
            Ok(_) => r == Ok::<ConfigMode, HelperResponse>(
                if flake_exists {
                    ConfigMode::Flake
                } else {
                    ConfigMode::Classic
                },
            ),
            Err(e) => r matches Err(resp) && is_error(
                resp,
                "Failed to generate configuration"@,
                Some(e.spec_message()),
            ),
        },
{
    match outcome {
        Ok(_) => {
            if flake_exists {
                Ok(ConfigMode::Flake)
            } else {
                Ok(ConfigMode::Classic)
            }
        },
        Err(e) => Err(
            HelperResponse::Error {
                message: owned("Failed to generate configuration"),
                details: Some(e.to_string()),
            },
        ),
    }
}

} // verus!
