use vstd::prelude::*;

use crate::text::{owned, push_str};

verus! {

/// CPU architecture of the running system.
#[derive(Debug, Clone, Copy, PartialEq, Eq, Structural)]
pub enum CpuArch {
    X86_64,
    Aarch64,
    Unknown,
}

impl CpuArch {
    /// The architecture that a target-architecture name (such as Rust's
    /// `target_arch`) denotes.
    pub fn from_target_arch(arch: &str) -> (r: CpuArch)
        ensures
            r == (if arch@ == "x86_64"@ {
                CpuArch::X86_64
            } else if arch@ == "aarch64"@ {
                CpuArch::Aarch64
            } else {
                CpuArch::Unknown
            }),
    {
        if crate::text::str_eq(arch, "x86_64") {
            CpuArch::X86_64
        } else if crate::text::str_eq(arch, "aarch64") {
            CpuArch::Aarch64
        } else {
            CpuArch::Unknown
        }
    }

    /// Whether this is an ARM architecture.
    pub fn is_arm(&self) -> (r: bool)
        ensures
            r <==> (*self == CpuArch::Aarch64),
    {
        match self {
            CpuArch::Aarch64 => true,
            _ => false,
        }
    }

    pub fn display_name(&self) -> (r: &'static str)
        ensures
            r@ == self.spec_display_name(),
    {
        match self {
            CpuArch::X86_64 => "x86_64",
            CpuArch::Aarch64 => "ARM64 (aarch64)",
            CpuArch::Unknown => "Unknown",
        }
    }

    pub open spec fn spec_display_name(self) -> Seq<char> {
        match self {
            CpuArch::X86_64 => "x86_64"@,
            CpuArch::Aarch64 => "ARM64 (aarch64)"@,
            CpuArch::Unknown => "Unknown"@,
        }
    }
}

/// ARM compatibility level of a bundle or profile.
#[derive(Debug, Clone, Copy, PartialEq, Eq, Structural)]
pub enum ArmCompat {
    /// Fully compatible with ARM
    Full,
    /// Mostly works, some packages unavailable
    Partial,
    /// Very limited ARM support
    Limited,
    /// Not available on ARM at all
    NotAvailable,
}

impl ArmCompat {
    pub fn display_name(&self) -> (r: &'static str)
        ensures
            r@ == self.spec_display_name(),
    {
        match self {
            ArmCompat::Full => "Full ARM support",
            ArmCompat::Partial => "Partial ARM support",
            ArmCompat::Limited => "Limited ARM support",
            ArmCompat::NotAvailable => "x86_64 only",
        }
    }

    pub open spec fn spec_display_name(self) -> Seq<char> {
        match self {
            ArmCompat::Full => "Full ARM support"@,
            ArmCompat::Partial => "Partial ARM support"@,
            ArmCompat::Limited => "Limited ARM support"@,
            ArmCompat::NotAvailable => "x86_64 only"@,
        }
    }

    pub fn icon_name(&self) -> (r: &'static str)
        ensures
            r@ == self.spec_icon_name(),
    {
        match self {
            ArmCompat::Full => "emblem-ok-symbolic",
            ArmCompat::Partial => "dialog-warning-symbolic",
            ArmCompat::Limited => "dialog-warning-symbolic",
            ArmCompat::NotAvailable => "action-unavailable-symbolic",
        }
    }

    pub open spec fn spec_icon_name(self) -> Seq<char> {
        match self {
            ArmCompat::Full => "emblem-ok-symbolic"@,
            ArmCompat::Partial => "dialog-warning-symbolic"@,
            ArmCompat::Limited => "dialog-warning-symbolic"@,
            ArmCompat::NotAvailable => "action-unavailable-symbolic"@,
        }
    }
}

/// Unique identifier for an action.
#[derive(Debug, Clone)]
pub struct ActionId(pub String);

impl View for ActionId {
    type V = Seq<char>;

    open spec fn view(&self) -> Seq<char> {
        self.0@
    }
}

impl ActionId {
    /// The identifier `"{category}.{name}"`.
    pub fn new(category: &str, name: &str) -> (r: ActionId)
        ensures
            r@ == category@ + "."@ + name@,
    {
        let mut s = owned(category);
        push_str(&mut s, ".");
        push_str(&mut s, name);
        ActionId(s)
    }

    pub fn from_string(s: String) -> (r: ActionId)
        ensures
            r@ == s@,
    {
        ActionId(s)
    }

    /// The identifier as text, as its `Display` form writes it.
    pub fn to_string(&self) -> (r: String)
        ensures
            r@ == self@,
    {
        self.0.clone()
    }
}

/// Categories for organizing actions.
#[derive(Debug, Clone, Copy, PartialEq, Eq, Structural)]
pub enum ActionCategory {
    Desktop,
    Development,
    Gaming,
    Multimedia,
    Virtualization,
    System,
    Network,
    Security,
    Office,
}

impl ActionCategory {
    pub fn display_name(&self) -> (r: &'static str)
        ensures
            r@ == self.spec_display_name(),
    {
        match self {
            ActionCategory::Desktop => "Desktop Environments",
            ActionCategory::Development => "Development Tools",
            ActionCategory::Gaming => "Gaming",
            ActionCategory::Multimedia => "Multimedia",
            ActionCategory::Virtualization => "Virtualization",
            ActionCategory::System => "System Settings",
            ActionCategory::Network => "Networking",
            ActionCategory::Security => "Security",
            ActionCategory::Office => "Office & Productivity",
        }
    }

    pub open spec fn spec_display_name(self) -> Seq<char> {
        match self {
            ActionCategory::Desktop => "Desktop Environments"@,
            ActionCategory::Development => "Development Tools"@,
            ActionCategory::Gaming => "Gaming"@,
            ActionCategory::Multimedia => "Multimedia"@,
            ActionCategory::Virtualization => "Virtualization"@,
            ActionCategory::System => "System Settings"@,
            ActionCategory::Network => "Networking"@,
            ActionCategory::Security => "Security"@,
            ActionCategory::Office => "Office & Productivity"@,
        }
    }

    pub fn icon_name(&self) -> (r: &'static str)
        ensures
            r@ == self.spec_icon_name(),
    {
        match self {
            ActionCategory::Desktop => "user-desktop-symbolic",
            ActionCategory::Development => "applications-engineering-symbolic",
            ActionCategory::Gaming => "applications-games-symbolic",
            ActionCategory::Multimedia => "applications-multimedia-symbolic",
            ActionCategory::Virtualization => "computer-symbolic",
            ActionCategory::System => "preferences-system-symbolic",
            ActionCategory::Network => "network-wired-symbolic",
            ActionCategory::Security => "security-high-symbolic",
            ActionCategory::Office => "x-office-document-symbolic",
        }
    }

    pub open spec fn spec_icon_name(self) -> Seq<char> {
        match self {
            ActionCategory::Desktop => "user-desktop-symbolic"@,
            ActionCategory::Development => "applications-engineering-symbolic"@,
            ActionCategory::Gaming => "applications-games-symbolic"@,
            ActionCategory::Multimedia => "applications-multimedia-symbolic"@,
            ActionCategory::Virtualization => "computer-symbolic"@,
            ActionCategory::System => "preferences-system-symbolic"@,
            ActionCategory::Network => "network-wired-symbolic"@,
            ActionCategory::Security => "security-high-symbolic"@,
            ActionCategory::Office => "x-office-document-symbolic"@,
        }
    }
}

/// Metadata describing an action for the UI.
#[derive(Debug, Clone)]
pub struct ActionMetadata {
    pub id: ActionId,
    pub name: String,
    pub description: String,
    pub category: ActionCategory,
    pub icon: Option<String>,
    pub template_path: Option<String>,
    pub conflicts: Vec<ActionId>,
    pub requires: Vec<ActionId>,
}

/// The characters of an optional string.
pub open spec fn opt_view(o: Option<String>) -> Option<Seq<char>> {
    match o {
        Some(s) => Some(s@),
        None => None,
    }
}

/// Copies an optional string.
pub fn clone_opt(o: &Option<String>) -> (r: Option<String>)
    ensures
        opt_view(r) == opt_view(*o),
{
    match o {
        Some(s) => Some(s.clone()),
        None => None,
    }
}

/// Definition of a desktop environment profile.
#[derive(Debug, Clone)]
pub struct ProfileDef {
    pub id: String,
    pub name: String,
    pub description: String,
    pub icon: String,
    pub template: String,
    pub display_manager: String,
    /// ARM compatibility level
    pub arm_compat: ArmCompat,
    /// Note about ARM compatibility (if any)
    pub arm_note: Option<String>,
}

/// The content of a [`ProfileDef`].
pub struct ProfileView {
    pub id: Seq<char>,
    pub name: Seq<char>,
    pub description: Seq<char>,
    pub icon: Seq<char>,
    pub template: Seq<char>,
    pub display_manager: Seq<char>,
    pub arm_compat: ArmCompat,
    pub arm_note: Option<Seq<char>>,
}

impl View for ProfileDef {
    type V = ProfileView;

    open spec fn view(&self) -> ProfileView {
        ProfileView {
            id: self.id@,
            name: self.name@,
            description: self.description@,
            icon: self.icon@,
            template: self.template@,
            display_manager: self.display_manager@,
            arm_compat: self.arm_compat,
            arm_note: opt_view(self.arm_note),
        }
    }
}

/// Definition of a software bundle.
#[derive(Debug, Clone)]
pub struct BundleDef {
    pub id: String,
    pub name: String,
    pub description: String,
    pub icon: String,
    pub category: ActionCategory,
    pub template: String,
    pub packages: Vec<String>,
    /// ARM compatibility level
    pub arm_compat: ArmCompat,
    /// Note about what's unavailable on ARM (if any)
    pub arm_note: Option<String>,
}

/// The content of a [`BundleDef`].
pub struct BundleView {
    pub id: Seq<char>,
    pub name: Seq<char>,
    pub description: Seq<char>,
    pub icon: Seq<char>,
    pub category: ActionCategory,
    pub template: Seq<char>,
    pub packages: Seq<Seq<char>>,
    pub arm_compat: ArmCompat,
    pub arm_note: Option<Seq<char>>,
}

impl View for BundleDef {
    type V = BundleView;

    open spec fn view(&self) -> BundleView {
        BundleView {
            id: self.id@,
            name: self.name@,
            description: self.description@,
            icon: self.icon@,
            category: self.category,
            template: self.template@,
            packages: crate::text::views(self.packages@),
            arm_compat: self.arm_compat,
            arm_note: opt_view(self.arm_note),
        }
    }
}

impl ProfileDef {
    /// A copy of this profile.
    pub fn dup(&self) -> (r: ProfileDef)
        ensures
            r@ == self@,
    {
        ProfileDef {
            id: self.id.clone(),
            name: self.name.clone(),
            description: self.description.clone(),
            icon: self.icon.clone(),
            template: self.template.clone(),
            display_manager: self.display_manager.clone(),
            arm_compat: self.arm_compat,
            arm_note: clone_opt(&self.arm_note),
        }
    }
}

impl BundleDef {
    /// A copy of this bundle.
    pub fn dup(&self) -> (r: BundleDef)
        ensures
            r@ == self@,
    {
        BundleDef {
            id: self.id.clone(),
            name: self.name.clone(),
            description: self.description.clone(),
            icon: self.icon.clone(),
            category: self.category,
            template: self.template.clone(),
            packages: crate::text::clone_strings(&self.packages),
            arm_compat: self.arm_compat,
            arm_note: clone_opt(&self.arm_note),
        }
    }
}

/// The first profile of `t` with the id `id`.
pub open spec fn find_profile(t: Seq<ProfileView>, id: Seq<char>) -> Option<ProfileView>
    decreases t.len(),
{
    if t.len() == 0 {
        None
    } else if t[0].id == id {
        Some(t[0])
    } else {
        find_profile(t.drop_first(), id)
    }
}

/// The first bundle of `t` with the id `id`.
pub open spec fn find_bundle(t: Seq<BundleView>, id: Seq<char>) -> Option<BundleView>
    decreases t.len(),
{
    if t.len() == 0 {
        None
    } else if t[0].id == id {
        Some(t[0])
    } else {
        find_bundle(t.drop_first(), id)
    }
}

proof fn lemma_find_profile(t: Seq<ProfileView>, id: Seq<char>, k: int)
    requires
        0 <= k <= t.len(),
        forall|j: int| 0 <= j < k ==> t[j].id != id,
    ensures
        k < t.len() && t[k].id == id ==> find_profile(t, id) == Some(t[k]),
        k == t.len() ==> find_profile(t, id) is None,
    decreases k,
{
    if k > 0 {
        lemma_find_profile(t.drop_first(), id, k - 1);
    }
}

proof fn lemma_find_bundle(t: Seq<BundleView>, id: Seq<char>, k: int)
    requires
        0 <= k <= t.len(),
        forall|j: int| 0 <= j < k ==> t[j].id != id,
    ensures
        k < t.len() && t[k].id == id ==> find_bundle(t, id) == Some(t[k]),
        k == t.len() ==> find_bundle(t, id) is None,
    decreases k,
{
    if k > 0 {
        lemma_find_bundle(t.drop_first(), id, k - 1);
    }
}

/// The first profile of `t` with the id `id`, as an index.
pub fn lookup_profile(t: &Vec<ProfileDef>, id: &str) -> (r: Option<usize>)
    ensures
        match r {
            Some(i) => i < t@.len() && find_profile(profile_views(t@), id@) == Some(t@[i as int]@),
            None => find_profile(profile_views(t@), id@) is None,
        },
{
    let ghost tv = profile_views(t@);
    let key = owned(id);
    let mut i: usize = 0;
    while i < t.len()
        invariant
            i <= t@.len(),
            key@ == id@,
            tv == profile_views(t@),
            forall|j: int| 0 <= j < i ==> tv[j].id != id@,
        decreases t@.len() - i,
    {
        if t[i].id == key {
            proof {
                lemma_find_profile(tv, id@, i as int);
            }
            return Some(i);
        }
        i = i + 1;
    }
    proof {
        lemma_find_profile(tv, id@, i as int);
    }
    None
}

/// The first bundle of `t` with the id `id`, as an index.
pub fn lookup_bundle(t: &Vec<BundleDef>, id: &str) -> (r: Option<usize>)
    ensures
        match r {
            Some(i) => i < t@.len() && find_bundle(bundle_views(t@), id@) == Some(t@[i as int]@),
            None => find_bundle(bundle_views(t@), id@) is None,
        },
{
    let ghost tv = bundle_views(t@);
    let key = owned(id);
    let mut i: usize = 0;
    while i < t.len()
        invariant
            i <= t@.len(),
            key@ == id@,
            tv == bundle_views(t@),
            forall|j: int| 0 <= j < i ==> tv[j].id != id@,
        decreases t@.len() - i,
    {
        if t[i].id == key {
            proof {
                lemma_find_bundle(tv, id@, i as int);
            }
            return Some(i);
        }
        i = i + 1;
    }
    proof {
        lemma_find_bundle(tv, id@, i as int);
    }
    None
}

/// The contents of a sequence of profiles.
pub open spec fn profile_views(v: Seq<ProfileDef>) -> Seq<ProfileView> {
    v.map_values(|p: ProfileDef| p@)
}

/// The contents of a sequence of bundles.
pub open spec fn bundle_views(v: Seq<BundleDef>) -> Seq<BundleView> {
    v.map_values(|b: BundleDef| b@)
}

/// Owned copies of the given string slices.
pub fn strings_of(items: &[&str]) -> (r: Vec<String>)
    ensures
        crate::text::views(r@) == items@.map_values(|s: &str| s@),
{
    let mut r: Vec<String> = Vec::new();
    let mut i: usize = 0;
    while i < items.len()
        invariant
            i <= items@.len(),
            crate::text::views(r@) == items@.take(i as int).map_values(|s: &str| s@),
        decreases items@.len() - i,
    {
        let s = owned(items[i]);
        proof {
            assert(crate::text::views(r@.push(s)) =~= crate::text::views(r@).push(s@));
            assert(items@.take(i + 1).map_values(|s: &str| s@) =~= items@.take(i as int).map_values(
                |s: &str| s@,
            ).push(items@[i as int]@));
        }
        r.push(s);
        i = i + 1;
    }
    assert(items@.take(i as int) =~= items@);
    r
}

fn profile(
    id: &str,
    name: &str,
    description: &str,
    template: &str,
    display_manager: &str,
) -> (r: ProfileDef)
    ensures
        r@ == (ProfileView {
            id: id@,
            name: name@,
            description: description@,
            icon: "desktop-symbolic"@,
            template: template@,
            display_manager: display_manager@,
            arm_compat: ArmCompat::Full,
            arm_note: None,
        }),
{
    ProfileDef {
        id: owned(id),
        name: owned(name),
        description: owned(description),
        icon: owned("desktop-symbolic"),
        template: owned(template),
        display_manager: owned(display_manager),
        arm_compat: ArmCompat::Full,
        arm_note: None,
    }
}

fn bundle(
    id: &str,
    name: &str,
    description: &str,
    icon: &str,
    category: ActionCategory,
    template: &str,
    packages: &[&str],
    arm_compat: ArmCompat,
    arm_note: Option<&str>,
) -> (r: BundleDef)
    ensures
        r@ == (BundleView {
            id: id@,
            name: name@,
            description: description@,
            icon: icon@,
            category: category,
            template: template@,
            packages: packages@.map_values(|s: &str| s@),
            arm_compat: arm_compat,
            arm_note: match arm_note {
                Some(n) => Some(n@),
                None => None,
            },
        }),
{
    BundleDef {
        id: owned(id),
        name: owned(name),
        description: owned(description),
        icon: owned(icon),
        category,
        template: owned(template),
        packages: strings_of(packages),
        arm_compat,
        arm_note: match arm_note {
            Some(n) => Some(owned(n)),
            None => None,
        },
    }
}

/// The desktop profiles that the toolkit offers.
pub open spec fn spec_default_profiles() -> Seq<ProfileView> {
    seq![
        ProfileView {
            id: "gnome"@,
            name: "GNOME"@,
            description: "Modern, elegant desktop environment with a focus on simplicity and productivity"@,
            icon: "desktop-symbolic"@,
            template: "profiles/gnome.nix"@,
            display_manager: "gdm"@,
            arm_compat: ArmCompat::Full,
            arm_note: None,
        },
        ProfileView {
            id: "kde"@,
            name: "KDE Plasma"@,
            description: "Feature-rich, highly customizable desktop environment"@,
            icon: "desktop-symbolic"@,
            template: "profiles/kde.nix"@,
            display_manager: "sddm"@,
            arm_compat: ArmCompat::Full,
            arm_note: None,
        },
        ProfileView {
            id: "xfce"@,
            name: "XFCE"@,
            description: "Lightweight, fast desktop environment with traditional desktop experience"@,
            icon: "desktop-symbolic"@,
            template: "profiles/xfce.nix"@,
            display_manager: "lightdm"@,
            arm_compat: ArmCompat::Full,
            arm_note: None,
        },
        ProfileView {
            id: "mate"@,
            name: "MATE"@,
            description: "Traditional desktop based on GNOME 2, intuitive and lightweight"@,
            icon: "desktop-symbolic"@,
            template: "profiles/mate.nix"@,
            display_manager: "lightdm"@,
            arm_compat: ArmCompat::Full,
            arm_note: None,
        },
        ProfileView {
            id: "cinnamon"@,
            name: "Cinnamon"@,
            description: "Modern desktop from Linux Mint with traditional layout"@,
            icon: "desktop-symbolic"@,
            template: "profiles/cinnamon.nix"@,
            display_manager: "lightdm"@,
            arm_compat: ArmCompat::Full,
            arm_note: None,
        },
        ProfileView {
            id: "pantheon"@,
            name: "Pantheon"@,
            description: "Beautiful, clean desktop from elementary OS"@,
            icon: "desktop-symbolic"@,
            template: "profiles/pantheon.nix"@,
            display_manager: "lightdm"@,
            arm_compat: ArmCompat::Full,
            arm_note: None,
        },
        ProfileView {
            id: "cosmic"@,
            name: "COSMIC"@,
            description: "System76's modern, Rust-based Wayland desktop (stable 1.0)"@,
            icon: "desktop-symbolic"@,
            template: "profiles/cosmic.nix"@,
            display_manager: "cosmic-greeter"@,
            arm_compat: ArmCompat::Full,
            arm_note: None,
        },
        ProfileView {
            id: "hyprland"@,
            name: "Hyprland"@,
            description: "Dynamic tiling Wayland compositor with smooth animations"@,
            icon: "desktop-symbolic"@,
            template: "profiles/hyprland.nix"@,
            display_manager: "sddm"@,
            arm_compat: ArmCompat::Full,
            arm_note: None,
        },
        ProfileView {
            id: "sway"@,
            name: "Sway"@,
            description: "i3-compatible tiling Wayland compositor"@,
            icon: "desktop-symbolic"@,
            template: "profiles/sway.nix"@,
            display_manager: "sddm"@,
            arm_compat: ArmCompat::Full,
            arm_note: None,
        },
        ProfileView {
            id: "i3"@,
            name: "i3"@,
            description: "Popular tiling window manager for X11, highly configurable"@,
            icon: "desktop-symbolic"@,
            template: "profiles/i3.nix"@,
            display_manager: "lightdm"@,
            arm_compat: ArmCompat::Full,
            arm_note: None,
        },
        ProfileView {
            id: "budgie"@,
            name: "Budgie"@,
            description: "Modern desktop focusing on simplicity and elegance"@,
            icon: "desktop-symbolic"@,
            template: "profiles/budgie.nix"@,
            display_manager: "lightdm"@,
            arm_compat: ArmCompat::Full,
            arm_note: None,
        },
        ProfileView {
            id: "lxqt"@,
            name: "LXQt"@,
            description: "Lightweight Qt-based desktop environment"@,
            icon: "desktop-symbolic"@,
            template: "profiles/lxqt.nix"@,
            display_manager: "sddm"@,
            arm_compat: ArmCompat::Full,
            arm_note: None,
        },
        ProfileView {
            id: "enlightenment"@,
            name: "Enlightenment"@,
            description: "Unique, visually stunning desktop with compositing effects"@,
            icon: "desktop-symbolic"@,
            template: "profiles/enlightenment.nix"@,
            display_manager: "lightdm"@,
            arm_compat: ArmCompat::Full,
            arm_note: None,
        },
    ]
}

/// Get all available profile definitions.
pub fn default_profiles() -> (r: Vec<ProfileDef>)
    ensures
        profile_views(r@) == spec_default_profiles(),
{
    let mut v: Vec<ProfileDef> = Vec::new();
    let p = profile(
        "gnome",
        "GNOME",
        "Modern, elegant desktop environment with a focus on simplicity and productivity",
        "profiles/gnome.nix",
        "gdm",
    );
    v.push(p);
    let p = profile(
        "kde",
        "KDE Plasma",
        "Feature-rich, highly customizable desktop environment",
        "profiles/kde.nix",
        "sddm",
    );
    v.push(p);
    let p = profile(
        "xfce",
        "XFCE",
        "Lightweight, fast desktop environment with traditional desktop experience",
        "profiles/xfce.nix",
        "lightdm",
    );
    v.push(p);
    let p = profile(
        "mate",
        "MATE",
        "Traditional desktop based on GNOME 2, intuitive and lightweight",
        "profiles/mate.nix",
        "lightdm",
    );
    v.push(p);
    let p = profile(
        "cinnamon",
        "Cinnamon",
        "Modern desktop from Linux Mint with traditional layout",
        "profiles/cinnamon.nix",
        "lightdm",
    );
    v.push(p);
    let p = profile(
        "pantheon",
        "Pantheon",
        "Beautiful, clean desktop from elementary OS",
        "profiles/pantheon.nix",
        "lightdm",
    );
    v.push(p);
    let p = profile(
        "cosmic",
        "COSMIC",
        "System76's modern, Rust-based Wayland desktop (stable 1.0)",
        "profiles/cosmic.nix",
        "cosmic-greeter",
    );
    v.push(p);
    let p = profile(
        "hyprland",
        "Hyprland",
        "Dynamic tiling Wayland compositor with smooth animations",
        "profiles/hyprland.nix",
        "sddm",
    );
    v.push(p);
    let p = profile(
        "sway",
        "Sway",
        "i3-compatible tiling Wayland compositor",
        "profiles/sway.nix",
        "sddm",
    );
    v.push(p);
    let p = profile(
        "i3",
        "i3",
        "Popular tiling window manager for X11, highly configurable",
        "profiles/i3.nix",
        "lightdm",
    );
    v.push(p);
    let p = profile(
        "budgie",
        "Budgie",
        "Modern desktop focusing on simplicity and elegance",
        "profiles/budgie.nix",
        "lightdm",
    );
    v.push(p);
    let p = profile(
        "lxqt",
        "LXQt",
        "Lightweight Qt-based desktop environment",
        "profiles/lxqt.nix",
        "sddm",
    );
    v.push(p);
    let p = profile(
        "enlightenment",
        "Enlightenment",
        "Unique, visually stunning desktop with compositing effects",
        "profiles/enlightenment.nix",
        "lightdm",
    );
    v.push(p);
    assert(profile_views(v@) =~= spec_default_profiles());
    v
}

/// The software bundles that the toolkit offers.
pub open spec fn spec_default_bundles() -> Seq<BundleView> {
    seq![
        BundleView {
            id: "devtools"@,
            name: "Development Tools"@,
            description: "Essential development tools: Git, editors, compilers, and containers"@,
            icon: "applications-engineering-symbolic"@,
            category: ActionCategory::Development,
            template: "bundles/devtools.nix"@,
            packages: seq!["git"@, "neovim"@, "emacs"@, "vscode"@, "vscodium"@, "zed-editor"@, "cursor"@, "windsurf"@, "warp-terminal"@, "github-desktop"@, "rustup"@, "nodejs"@, "python3"@, "docker"@],
            arm_compat: ArmCompat::Partial,
            arm_note: Some("VSCode, Cursor, Windsurf, Warp binaries not available on ARM"@),
        },
        BundleView {
            id: "gaming"@,
            name: "Gaming"@,
            description: "Steam, Lutris, and gaming utilities for Linux gaming"@,
            icon: "applications-games-symbolic"@,
            category: ActionCategory::Gaming,
            template: "bundles/gaming.nix"@,
            packages: seq!["steam"@, "lutris"@, "heroic"@, "bottles"@, "mangohud"@, "gamemode"@],
            arm_compat: ArmCompat::NotAvailable,
            arm_note: Some("Steam, Lutris, Heroic, Bottles, Wine are x86_64 only"@),
        },
        BundleView {
            id: "virtualization"@,
            name: "KVM/QEMU Virtualization"@,
            description: "Hardware-accelerated VMs with libvirt and virt-manager"@,
            icon: "computer-symbolic"@,
            category: ActionCategory::Virtualization,
            template: "bundles/virtualization.nix"@,
            packages: seq!["virt-manager"@, "qemu"@, "OVMF"@, "spice-gtk"@],
            arm_compat: ArmCompat::Limited,
            arm_note: Some("OVMF/UEFI firmware is x86_64 only; use AAVMF for ARM VMs"@),
        },
        BundleView {
            id: "virtualbox"@,
            name: "VirtualBox"@,
            description: "Oracle VirtualBox with Extension Pack (non-free)"@,
            icon: "computer-symbolic"@,
            category: ActionCategory::Virtualization,
            template: "bundles/virtualbox.nix"@,
            packages: seq!["virtualbox"@],
            arm_compat: ArmCompat::NotAvailable,
            arm_note: Some("VirtualBox is x86_64 only"@),
        },
        BundleView {
            id: "containers"@,
            name: "Container Runtime"@,
            description: "Podman/Docker container support with compose"@,
            icon: "package-x-generic-symbolic"@,
            category: ActionCategory::Virtualization,
            template: "bundles/containers.nix"@,
            packages: seq!["podman"@, "docker-compose"@, "buildah"@, "skopeo"@],
            arm_compat: ArmCompat::Full,
            arm_note: None,
        },
        BundleView {
            id: "flatpak"@,
            name: "Flatpak Support"@,
            description: "Enable Flatpak for sandboxed application installation"@,
            icon: "package-x-generic-symbolic"@,
            category: ActionCategory::System,
            template: "bundles/flatpak.nix"@,
            packages: seq!["flatpak"@],
            arm_compat: ArmCompat::Full,
            arm_note: None,
        },
        BundleView {
            id: "multimedia"@,
            name: "Multimedia"@,
            description: "Audio, video, and graphics applications with PipeWire"@,
            icon: "applications-multimedia-symbolic"@,
            category: ActionCategory::Multimedia,
            template: "bundles/multimedia.nix"@,
            packages: seq!["vlc"@, "mpv"@, "gimp"@, "inkscape"@, "obs-studio"@, "audacity"@],
            arm_compat: ArmCompat::Full,
            arm_note: None,
        },
        BundleView {
            id: "office"@,
            name: "Office & Productivity"@,
            description: "LibreOffice, PDF tools, email, and productivity apps"@,
            icon: "x-office-document-symbolic"@,
            category: ActionCategory::Office,
            template: "bundles/office.nix"@,
            packages: seq!["libreoffice"@, "onlyoffice-bin"@, "thunderbird"@, "evince"@, "obsidian"@],
            arm_compat: ArmCompat::Partial,
            arm_note: Some("Obsidian and OnlyOffice binaries not available on ARM"@),
        },
        BundleView {
            id: "security"@,
            name: "Security Tools"@,
            description: "Password managers, encryption, and security utilities"@,
            icon: "security-high-symbolic"@,
            category: ActionCategory::Security,
            template: "bundles/security.nix"@,
            packages: seq!["keepassxc"@, "bitwarden"@, "_1password-gui"@, "veracrypt"@, "gnupg"@, "age"@],
            arm_compat: ArmCompat::Partial,
            arm_note: Some("1Password binary not available on ARM"@),
        },
        BundleView {
            id: "communication"@,
            name: "Communication"@,
            description: "Chat, video calls, and messaging applications"@,
            icon: "user-available-symbolic"@,
            category: ActionCategory::Network,
            template: "bundles/communication.nix"@,
            packages: seq!["discord"@, "signal-desktop"@, "element-desktop"@, "slack"@, "zoom-us"@],
            arm_compat: ArmCompat::Partial,
            arm_note: Some("Slack and Zoom binaries are x86_64 only"@),
        },
        BundleView {
            id: "browsers"@,
            name: "Web Browsers"@,
            description: "Additional web browsers with different privacy/feature focuses"@,
            icon: "web-browser-symbolic"@,
            category: ActionCategory::Network,
            template: "bundles/browsers.nix"@,
            packages: seq!["firefox"@, "chromium"@, "google-chrome"@, "brave"@, "tor-browser"@],
            arm_compat: ArmCompat::Partial,
            arm_note: Some("Google Chrome binary not available on ARM"@),
        },
        BundleView {
            id: "science"@,
            name: "Science & Math"@,
            description: "Scientific computing, math tools, and LaTeX"@,
            icon: "accessories-calculator-symbolic"@,
            category: ActionCategory::Development,
            template: "bundles/science.nix"@,
            packages: seq!["octave"@, "julia"@, "R"@, "texlive"@, "gnuplot"@],
            arm_compat: ArmCompat::Partial,
            arm_note: Some("RStudio binary not available; Julia has limited ARM support"@),
        },
        BundleView {
            id: "cad"@,
            name: "3D & CAD"@,
            description: "3D modeling, CAD, and design software"@,
            icon: "applications-graphics-symbolic"@,
            category: ActionCategory::Multimedia,
            template: "bundles/cad.nix"@,
            packages: seq!["blender"@, "freecad"@, "openscad"@, "kicad"@],
            arm_compat: ArmCompat::Limited,
            arm_note: Some("Blender and FreeCAD have limited ARM support"@),
        },
        BundleView {
            id: "utilities"@,
            name: "System Utilities"@,
            description: "Helpful command-line and system tools"@,
            icon: "utilities-system-monitor-symbolic"@,
            category: ActionCategory::System,
            template: "bundles/utilities.nix"@,
            packages: seq!["htop"@, "btop"@, "neofetch"@, "tmux"@, "tree"@, "unzip"@, "wget"@, "curl"@, "appimage-run"@],
            arm_compat: ArmCompat::Full,
            arm_note: None,
        },
        BundleView {
            id: "fonts"@,
            name: "Fonts Collection"@,
            description: "Popular fonts for development, documents, and design"@,
            icon: "font-x-generic-symbolic"@,
            category: ActionCategory::System,
            template: "bundles/fonts.nix"@,
            packages: seq!["nerd-fonts"@, "fira-code"@, "jetbrains-mono"@, "inter"@, "noto-fonts"@],
            arm_compat: ArmCompat::Full,
            arm_note: None,
        },
    ]
}

/// Get all available bundle definitions.
pub fn default_bundles() -> (r: Vec<BundleDef>)
    ensures
        bundle_views(r@) == spec_default_bundles(),
{
    let mut v: Vec<BundleDef> = Vec::new();
    let b = bundle(
        "devtools",
        "Development Tools",
        "Essential development tools: Git, editors, compilers, and containers",
        "applications-engineering-symbolic",
        ActionCategory::Development,
        "bundles/devtools.nix",
        &["git", "neovim", "emacs", "vscode", "vscodium", "zed-editor", "cursor", "windsurf", "warp-terminal", "github-desktop", "rustup", "nodejs", "python3", "docker"],
        ArmCompat::Partial,
        Some("VSCode, Cursor, Windsurf, Warp binaries not available on ARM"),
    );
    assert(b@.packages =~= seq!["git"@, "neovim"@, "emacs"@, "vscode"@, "vscodium"@, "zed-editor"@, "cursor"@, "windsurf"@, "warp-terminal"@, "github-desktop"@, "rustup"@, "nodejs"@, "python3"@, "docker"@]);
    v.push(b);
    let b = bundle(
        "gaming",
        "Gaming",
        "Steam, Lutris, and gaming utilities for Linux gaming",
        "applications-games-symbolic",
        ActionCategory::Gaming,
        "bundles/gaming.nix",
        &["steam", "lutris", "heroic", "bottles", "mangohud", "gamemode"],
        ArmCompat::NotAvailable,
        Some("Steam, Lutris, Heroic, Bottles, Wine are x86_64 only"),
    );
    assert(b@.packages =~= seq!["steam"@, "lutris"@, "heroic"@, "bottles"@, "mangohud"@, "gamemode"@]);
    v.push(b);
    let b = bundle(
        "virtualization",
        "KVM/QEMU Virtualization",
        "Hardware-accelerated VMs with libvirt and virt-manager",
        "computer-symbolic",
        ActionCategory::Virtualization,
        "bundles/virtualization.nix",
        &["virt-manager", "qemu", "OVMF", "spice-gtk"],
        ArmCompat::Limited,
        Some("OVMF/UEFI firmware is x86_64 only; use AAVMF for ARM VMs"),
    );
    assert(b@.packages =~= seq!["virt-manager"@, "qemu"@, "OVMF"@, "spice-gtk"@]);
    v.push(b);
    let b = bundle(
        "virtualbox",
        "VirtualBox",
        "Oracle VirtualBox with Extension Pack (non-free)",
        "computer-symbolic",
        ActionCategory::Virtualization,
        "bundles/virtualbox.nix",
        &["virtualbox"],
        ArmCompat::NotAvailable,
        Some("VirtualBox is x86_64 only"),
    );
    assert(b@.packages =~= seq!["virtualbox"@]);
    v.push(b);
    let b = bundle(
        "containers",
        "Container Runtime",
        "Podman/Docker container support with compose",
        "package-x-generic-symbolic",
        ActionCategory::Virtualization,
        "bundles/containers.nix",
        &["podman", "docker-compose", "buildah", "skopeo"],
        ArmCompat::Full,
        None,
    );
    assert(b@.packages =~= seq!["podman"@, "docker-compose"@, "buildah"@, "skopeo"@]);
    v.push(b);
    let b = bundle(
        "flatpak",
        "Flatpak Support",
        "Enable Flatpak for sandboxed application installation",
        "package-x-generic-symbolic",
        ActionCategory::System,
        "bundles/flatpak.nix",
        &["flatpak"],
        ArmCompat::Full,
        None,
    );
    assert(b@.packages =~= seq!["flatpak"@]);
    v.push(b);
    let b = bundle(
        "multimedia",
        "Multimedia",
        "Audio, video, and graphics applications with PipeWire",
        "applications-multimedia-symbolic",
        ActionCategory::Multimedia,
        "bundles/multimedia.nix",
        &["vlc", "mpv", "gimp", "inkscape", "obs-studio", "audacity"],
        ArmCompat::Full,
        None,
    );
    assert(b@.packages =~= seq!["vlc"@, "mpv"@, "gimp"@, "inkscape"@, "obs-studio"@, "audacity"@]);
    v.push(b);
    let b = bundle(
        "office",
        "Office & Productivity",
        "LibreOffice, PDF tools, email, and productivity apps",
        "x-office-document-symbolic",
        ActionCategory::Office,
        "bundles/office.nix",
        &["libreoffice", "onlyoffice-bin", "thunderbird", "evince", "obsidian"],
        ArmCompat::Partial,
        Some("Obsidian and OnlyOffice binaries not available on ARM"),
    );
    assert(b@.packages =~= seq!["libreoffice"@, "onlyoffice-bin"@, "thunderbird"@, "evince"@, "obsidian"@]);
    v.push(b);
    let b = bundle(
        "security",
        "Security Tools",
        "Password managers, encryption, and security utilities",
        "security-high-symbolic",
        ActionCategory::Security,
        "bundles/security.nix",
        &["keepassxc", "bitwarden", "_1password-gui", "veracrypt", "gnupg", "age"],
        ArmCompat::Partial,
        Some("1Password binary not available on ARM"),
    );
    assert(b@.packages =~= seq!["keepassxc"@, "bitwarden"@, "_1password-gui"@, "veracrypt"@, "gnupg"@, "age"@]);
    v.push(b);
    let b = bundle(
        "communication",
        "Communication",
        "Chat, video calls, and messaging applications",
        "user-available-symbolic",
        ActionCategory::Network,
        "bundles/communication.nix",
        &["discord", "signal-desktop", "element-desktop", "slack", "zoom-us"],
        ArmCompat::Partial,
        Some("Slack and Zoom binaries are x86_64 only"),
    );
    assert(b@.packages =~= seq!["discord"@, "signal-desktop"@, "element-desktop"@, "slack"@, "zoom-us"@]);
    v.push(b);
    let b = bundle(
        "browsers",
        "Web Browsers",
        "Additional web browsers with different privacy/feature focuses",
        "web-browser-symbolic",
        ActionCategory::Network,
        "bundles/browsers.nix",
        &["firefox", "chromium", "google-chrome", "brave", "tor-browser"],
        ArmCompat::Partial,
        Some("Google Chrome binary not available on ARM"),
    );
    assert(b@.packages =~= seq!["firefox"@, "chromium"@, "google-chrome"@, "brave"@, "tor-browser"@]);
    v.push(b);
    let b = bundle(
        "science",
        "Science & Math",
        "Scientific computing, math tools, and LaTeX",
        "accessories-calculator-symbolic",
        ActionCategory::Development,
        "bundles/science.nix",
        &["octave", "julia", "R", "texlive", "gnuplot"],
        ArmCompat::Partial,
        Some("RStudio binary not available; Julia has limited ARM support"),
    );
    assert(b@.packages =~= seq!["octave"@, "julia"@, "R"@, "texlive"@, "gnuplot"@]);
    v.push(b);
    let b = bundle(
        "cad",
        "3D & CAD",
        "3D modeling, CAD, and design software",
        "applications-graphics-symbolic",
        ActionCategory::Multimedia,
        "bundles/cad.nix",
        &["blender", "freecad", "openscad", "kicad"],
        ArmCompat::Limited,
        Some("Blender and FreeCAD have limited ARM support"),
    );
    assert(b@.packages =~= seq!["blender"@, "freecad"@, "openscad"@, "kicad"@]);
    v.push(b);
    let b = bundle(
        "utilities",
        "System Utilities",
        "Helpful command-line and system tools",
        "utilities-system-monitor-symbolic",
        ActionCategory::System,
        "bundles/utilities.nix",
        &["htop", "btop", "neofetch", "tmux", "tree", "unzip", "wget", "curl", "appimage-run"],
        ArmCompat::Full,
        None,
    );
    assert(b@.packages =~= seq!["htop"@, "btop"@, "neofetch"@, "tmux"@, "tree"@, "unzip"@, "wget"@, "curl"@, "appimage-run"@]);
    v.push(b);
    let b = bundle(
        "fonts",
        "Fonts Collection",
        "Popular fonts for development, documents, and design",
        "font-x-generic-symbolic",
        ActionCategory::System,
        "bundles/fonts.nix",
        &["nerd-fonts", "fira-code", "jetbrains-mono", "inter", "noto-fonts"],
        ArmCompat::Full,
        None,
    );
    assert(b@.packages =~= seq!["nerd-fonts"@, "fira-code"@, "jetbrains-mono"@, "inter"@, "noto-fonts"@]);
    v.push(b);
    assert(bundle_views(v@) =~= spec_default_bundles());
    v
}

/// System action definition (hostname, etc.).
#[derive(Debug, Clone)]
pub struct SystemActionDef {
    pub id: String,
    pub name: String,
    pub description: String,
    pub icon: String,
    pub action_type: SystemActionType,
}

/// Type of system action.
#[derive(Debug, Clone)]
pub enum SystemActionType {
    /// Text input (hostname, DNS IP)
    TextInput { placeholder: String },
    /// Toggle on/off
    Toggle,
    /// Selection from options
    Select { options: Vec<String> },
    /// User selection for group membership
    UserGroup { group: String },
}

/// The content of a [`SystemActionType`].
pub enum SystemActionTypeView {
    TextInput { placeholder: Seq<char> },
    Toggle,
    Select { options: Seq<Seq<char>> },
    UserGroup { group: Seq<char> },
}

impl View for SystemActionType {
    type V = SystemActionTypeView;

    open spec fn view(&self) -> SystemActionTypeView {
        match self {
            SystemActionType::TextInput { placeholder } => SystemActionTypeView::TextInput {
                placeholder: placeholder@,
            },
            SystemActionType::Toggle => SystemActionTypeView::Toggle,
            SystemActionType::Select { options } => SystemActionTypeView::Select {
                options: crate::text::views(options@),
            },
            SystemActionType::UserGroup { group } => SystemActionTypeView::UserGroup { group: group@ },
        }
    }
}

/// The content of a [`SystemActionDef`].
pub struct SystemActionView {
    pub id: Seq<char>,
    pub name: Seq<char>,
    pub description: Seq<char>,
    pub icon: Seq<char>,
    pub action_type: SystemActionTypeView,
}

impl View for SystemActionDef {
    type V = SystemActionView;

    open spec fn view(&self) -> SystemActionView {
        SystemActionView {
            id: self.id@,
            name: self.name@,
            description: self.description@,
            icon: self.icon@,
            action_type: self.action_type@,
        }
    }
}

/// The system actions that the toolkit offers.
pub open spec fn spec_default_system_actions() -> Seq<SystemActionView> {
    seq![
        SystemActionView {
            id: "hostname"@,
            name: "Hostname"@,
            description: "Change the system hostname"@,
            icon: "computer-symbolic"@,
            action_type: SystemActionTypeView::TextInput { placeholder: "nixos"@ },
        },
        SystemActionView {
            id: "dns"@,
            name: "Custom DNS"@,
            description: "Set a custom DNS resolver (e.g., 1.1.1.1, 8.8.8.8)"@,
            icon: "network-server-symbolic"@,
            action_type: SystemActionTypeView::TextInput { placeholder: "1.1.1.1"@ },
        },
        SystemActionView {
            id: "libvirtd_user"@,
            name: "libvirtd Group"@,
            description: "Add user to libvirtd group for KVM access"@,
            icon: "system-users-symbolic"@,
            action_type: SystemActionTypeView::UserGroup { group: "libvirtd"@ },
        },
        SystemActionView {
            id: "docker_user"@,
            name: "Docker Group"@,
            description: "Add user to docker group for rootless Docker"@,
            icon: "system-users-symbolic"@,
            action_type: SystemActionTypeView::UserGroup { group: "docker"@ },
        },
        SystemActionView {
            id: "vboxusers"@,
            name: "VirtualBox Group"@,
            description: "Add user to vboxusers group for VirtualBox access"@,
            icon: "system-users-symbolic"@,
            action_type: SystemActionTypeView::UserGroup { group: "vboxusers"@ },
        },
    ]
}

/// Get available system actions.
pub fn default_system_actions() -> (r: Vec<SystemActionDef>)
    ensures
        r@.map_values(|a: SystemActionDef| a@) == spec_default_system_actions(),
{
    let mut v: Vec<SystemActionDef> = Vec::new();
    v.push(
        SystemActionDef {
            id: owned("hostname"),
            name: owned("Hostname"),
            description: owned("Change the system hostname"),
            icon: owned("computer-symbolic"),
            action_type: SystemActionType::TextInput { placeholder: owned("nixos") },
        },
    );
    v.push(
        SystemActionDef {
            id: owned("dns"),
            name: owned("Custom DNS"),
            description: owned("Set a custom DNS resolver (e.g., 1.1.1.1, 8.8.8.8)"),
            icon: owned("network-server-symbolic"),
            action_type: SystemActionType::TextInput { placeholder: owned("1.1.1.1") },
        },
    );
    v.push(
        SystemActionDef {
            id: owned("libvirtd_user"),
            name: owned("libvirtd Group"),
            description: owned("Add user to libvirtd group for KVM access"),
            icon: owned("system-users-symbolic"),
            action_type: SystemActionType::UserGroup { group: owned("libvirtd") },
        },
    );
    v.push(
        SystemActionDef {
            id: owned("docker_user"),
            name: owned("Docker Group"),
            description: owned("Add user to docker group for rootless Docker"),
            icon: owned("system-users-symbolic"),
            action_type: SystemActionType::UserGroup { group: owned("docker") },
        },
    );
    v.push(
        SystemActionDef {
            id: owned("vboxusers"),
            name: owned("VirtualBox Group"),
            description: owned("Add user to vboxusers group for VirtualBox access"),
            icon: owned("system-users-symbolic"),
            action_type: SystemActionType::UserGroup { group: owned("vboxusers") },
        },
    );
    assert(v@.map_values(|a: SystemActionDef| a@) =~= spec_default_system_actions());
    v
}

/// Maintenance action definition.
#[derive(Debug, Clone)]
pub struct MaintenanceActionDef {
    pub id: String,
    pub name: String,
    pub description: String,
    pub icon: String,
    pub warning: Option<String>,
    pub command: String,
}

/// The content of a [`MaintenanceActionDef`].
pub struct MaintenanceActionView {
    pub id: Seq<char>,
    pub name: Seq<char>,
    pub description: Seq<char>,
    pub icon: Seq<char>,
    pub warning: Option<Seq<char>>,
    pub command: Seq<char>,
}

impl View for MaintenanceActionDef {
    type V = MaintenanceActionView;

    open spec fn view(&self) -> MaintenanceActionView {
        MaintenanceActionView {
            id: self.id@,
            name: self.name@,
            description: self.description@,
            icon: self.icon@,
            warning: opt_view(self.warning),
            command: self.command@,
        }
    }
}

/// The maintenance actions that the toolkit offers.
pub open spec fn spec_default_maintenance_actions() -> Seq<MaintenanceActionView> {
    seq![
        MaintenanceActionView {
            id: "gc_unreachable"@,
            name: "Garbage Collect"@,
            description: "Delete unreachable store objects to free disk space"@,
            icon: "user-trash-symbolic"@,
            warning: None,
            command: "nix-collect-garbage"@,
        },
        MaintenanceActionView {
            id: "gc_all"@,
            name: "Delete Old Generations"@,
            description: "Delete all old system generations (keeps current only)"@,
            icon: "user-trash-full-symbolic"@,
            warning: Some("This will delete all old configurations. You won't be able to roll back to previous generations!"@),
            command: "nix-collect-garbage -d"@,
        },
        MaintenanceActionView {
            id: "optimize_store"@,
            name: "Optimize Store"@,
            description: "Deduplicate files in the Nix store to save space"@,
            icon: "drive-harddisk-symbolic"@,
            warning: None,
            command: "nix-store --optimise"@,
        },
        MaintenanceActionView {
            id: "verify_store"@,
            name: "Verify Store"@,
            description: "Check Nix store for integrity issues"@,
            icon: "security-high-symbolic"@,
            warning: None,
            command: "nix-store --verify --check-contents"@,
        },
        MaintenanceActionView {
            id: "update_channels"@,
            name: "Update Channels"@,
            description: "Update Nix channels to latest versions"@,
            icon: "software-update-available-symbolic"@,
            warning: None,
            command: "nix-channel --update"@,
        },
    ]
}

/// Get available maintenance actions.
pub fn default_maintenance_actions() -> (r: Vec<MaintenanceActionDef>)
    ensures
        r@.map_values(|a: MaintenanceActionDef| a@) == spec_default_maintenance_actions(),
{
    let mut v: Vec<MaintenanceActionDef> = Vec::new();
    v.push(
        MaintenanceActionDef {
            id: owned("gc_unreachable"),
            name: owned("Garbage Collect"),
            description: owned("Delete unreachable store objects to free disk space"),
            icon: owned("user-trash-symbolic"),
            warning: None,
            command: owned("nix-collect-garbage"),
        },
    );
    v.push(
        MaintenanceActionDef {
            id: owned("gc_all"),
            name: owned("Delete Old Generations"),
            description: owned("Delete all old system generations (keeps current only)"),
            icon: owned("user-trash-full-symbolic"),
            warning: Some(owned("This will delete all old configurations. You won't be able to roll back to previous generations!")),
            command: owned("nix-collect-garbage -d"),
        },
    );
    v.push(
        MaintenanceActionDef {
            id: owned("optimize_store"),
            name: owned("Optimize Store"),
            description: owned("Deduplicate files in the Nix store to save space"),
            icon: owned("drive-harddisk-symbolic"),
            warning: None,
            command: owned("nix-store --optimise"),
        },
    );
    v.push(
        MaintenanceActionDef {
            id: owned("verify_store"),
            name: owned("Verify Store"),
            description: owned("Check Nix store for integrity issues"),
            icon: owned("security-high-symbolic"),
            warning: None,
            command: owned("nix-store --verify --check-contents"),
        },
    );
    v.push(
        MaintenanceActionDef {
            id: owned("update_channels"),
            name: owned("Update Channels"),
            description: owned("Update Nix channels to latest versions"),
            icon: owned("software-update-available-symbolic"),
            warning: None,
            command: owned("nix-channel --update"),
        },
    );
    assert(v@.map_values(|a: MaintenanceActionDef| a@) =~= spec_default_maintenance_actions());
    v
}

/// Each profile's template is `profiles/<id>.nix` and each bundle's is
/// `bundles/<id>.nix`, so that a template is found from the id alone.
pub proof fn law_templates_follow_ids()
    ensures
        forall|i: int|
            0 <= i < spec_default_profiles().len() ==> #[trigger] spec_default_profiles()[i].template
                == "profiles/"@ + spec_default_profiles()[i].id + ".nix"@,
        forall|i: int|
            0 <= i < spec_default_bundles().len() ==> #[trigger] spec_default_bundles()[i].template
                == "bundles/"@ + spec_default_bundles()[i].id + ".nix"@,
{
    reveal_strlit("profiles/");
    reveal_strlit(".nix");
    reveal_strlit("bundles/");
    reveal_strlit("gnome");
    reveal_strlit("kde");
    reveal_strlit("xfce");
    reveal_strlit("mate");
    reveal_strlit("cinnamon");
    reveal_strlit("pantheon");
    reveal_strlit("cosmic");
    reveal_strlit("hyprland");
    reveal_strlit("sway");
    reveal_strlit("i3");
    reveal_strlit("budgie");
    reveal_strlit("lxqt");
    reveal_strlit("enlightenment");
    reveal_strlit("profiles/gnome.nix");
    reveal_strlit("profiles/kde.nix");
    reveal_strlit("profiles/xfce.nix");
    reveal_strlit("profiles/mate.nix");
    reveal_strlit("profiles/cinnamon.nix");
    reveal_strlit("profiles/pantheon.nix");
    reveal_strlit("profiles/cosmic.nix");
    reveal_strlit("profiles/hyprland.nix");
    reveal_strlit("profiles/sway.nix");
    reveal_strlit("profiles/i3.nix");
    reveal_strlit("profiles/budgie.nix");
    reveal_strlit("profiles/lxqt.nix");
    reveal_strlit("profiles/enlightenment.nix");
    reveal_strlit("devtools");
    reveal_strlit("gaming");
    reveal_strlit("virtualization");
    reveal_strlit("virtualbox");
    reveal_strlit("containers");
    reveal_strlit("flatpak");
    reveal_strlit("multimedia");
    reveal_strlit("office");
    reveal_strlit("security");
    reveal_strlit("communication");
    reveal_strlit("browsers");
    reveal_strlit("science");
    reveal_strlit("cad");
    reveal_strlit("utilities");
    reveal_strlit("fonts");
    reveal_strlit("bundles/devtools.nix");
    reveal_strlit("bundles/gaming.nix");
    reveal_strlit("bundles/virtualization.nix");
    reveal_strlit("bundles/virtualbox.nix");
    reveal_strlit("bundles/containers.nix");
    reveal_strlit("bundles/flatpak.nix");
    reveal_strlit("bundles/multimedia.nix");
    reveal_strlit("bundles/office.nix");
    reveal_strlit("bundles/security.nix");
    reveal_strlit("bundles/communication.nix");
    reveal_strlit("bundles/browsers.nix");
    reveal_strlit("bundles/science.nix");
    reveal_strlit("bundles/cad.nix");
    reveal_strlit("bundles/utilities.nix");
    reveal_strlit("bundles/fonts.nix");
    assert("profiles/gnome.nix"@ =~= "profiles/"@ + "gnome"@ + ".nix"@);
    assert("profiles/kde.nix"@ =~= "profiles/"@ + "kde"@ + ".nix"@);
    assert("profiles/xfce.nix"@ =~= "profiles/"@ + "xfce"@ + ".nix"@);
    assert("profiles/mate.nix"@ =~= "profiles/"@ + "mate"@ + ".nix"@);
    assert("profiles/cinnamon.nix"@ =~= "profiles/"@ + "cinnamon"@ + ".nix"@);
    assert("profiles/pantheon.nix"@ =~= "profiles/"@ + "pantheon"@ + ".nix"@);
    assert("profiles/cosmic.nix"@ =~= "profiles/"@ + "cosmic"@ + ".nix"@);
    assert("profiles/hyprland.nix"@ =~= "profiles/"@ + "hyprland"@ + ".nix"@);
    assert("profiles/sway.nix"@ =~= "profiles/"@ + "sway"@ + ".nix"@);
    assert("profiles/i3.nix"@ =~= "profiles/"@ + "i3"@ + ".nix"@);
    assert("profiles/budgie.nix"@ =~= "profiles/"@ + "budgie"@ + ".nix"@);
    assert("profiles/lxqt.nix"@ =~= "profiles/"@ + "lxqt"@ + ".nix"@);
    assert("profiles/enlightenment.nix"@ =~= "profiles/"@ + "enlightenment"@ + ".nix"@);
    assert("bundles/devtools.nix"@ =~= "bundles/"@ + "devtools"@ + ".nix"@);
    assert("bundles/gaming.nix"@ =~= "bundles/"@ + "gaming"@ + ".nix"@);
    assert("bundles/virtualization.nix"@ =~= "bundles/"@ + "virtualization"@ + ".nix"@);
    assert("bundles/virtualbox.nix"@ =~= "bundles/"@ + "virtualbox"@ + ".nix"@);
    assert("bundles/containers.nix"@ =~= "bundles/"@ + "containers"@ + ".nix"@);
    assert("bundles/flatpak.nix"@ =~= "bundles/"@ + "flatpak"@ + ".nix"@);
    assert("bundles/multimedia.nix"@ =~= "bundles/"@ + "multimedia"@ + ".nix"@);
    assert("bundles/office.nix"@ =~= "bundles/"@ + "office"@ + ".nix"@);
    assert("bundles/security.nix"@ =~= "bundles/"@ + "security"@ + ".nix"@);
    assert("bundles/communication.nix"@ =~= "bundles/"@ + "communication"@ + ".nix"@);
    assert("bundles/browsers.nix"@ =~= "bundles/"@ + "browsers"@ + ".nix"@);
    assert("bundles/science.nix"@ =~= "bundles/"@ + "science"@ + ".nix"@);
    assert("bundles/cad.nix"@ =~= "bundles/"@ + "cad"@ + ".nix"@);
    assert("bundles/utilities.nix"@ =~= "bundles/"@ + "utilities"@ + ".nix"@);
    assert("bundles/fonts.nix"@ =~= "bundles/"@ + "fonts"@ + ".nix"@);
}

/// The ids of the registry's profiles.
pub open spec fn profile_ids() -> Seq<Seq<char>> {
    spec_default_profiles().map_values(|p: ProfileView| p.id)
}

/// The ids of the registry's bundles.
pub open spec fn bundle_ids() -> Seq<Seq<char>> {
    spec_default_bundles().map_values(|b: BundleView| b.id)
}

/// No two profiles share an id, and no two bundles do: an id names one
/// definition.
pub proof fn law_ids_unique()
    ensures
        crate::strset::distinct(profile_ids()),
        crate::strset::distinct(bundle_ids()),
{
    reveal_strlit("gnome");
    reveal_strlit("kde");
    reveal_strlit("xfce");
    reveal_strlit("mate");
    reveal_strlit("cinnamon");
    reveal_strlit("pantheon");
    reveal_strlit("cosmic");
    reveal_strlit("hyprland");
    reveal_strlit("sway");
    reveal_strlit("i3");
    reveal_strlit("budgie");
    reveal_strlit("lxqt");
    reveal_strlit("enlightenment");
    reveal_strlit("devtools");
    reveal_strlit("gaming");
    reveal_strlit("virtualization");
    reveal_strlit("virtualbox");
    reveal_strlit("containers");
    reveal_strlit("flatpak");
    reveal_strlit("multimedia");
    reveal_strlit("office");
    reveal_strlit("security");
    reveal_strlit("communication");
    reveal_strlit("browsers");
    reveal_strlit("science");
    reveal_strlit("cad");
    reveal_strlit("utilities");
    reveal_strlit("fonts");
    assert(profile_ids() =~= seq!["gnome"@, "kde"@, "xfce"@, "mate"@, "cinnamon"@, "pantheon"@, "cosmic"@, "hyprland"@, "sway"@, "i3"@, "budgie"@, "lxqt"@, "enlightenment"@]);
    assert(bundle_ids() =~= seq!["devtools"@, "gaming"@, "virtualization"@, "virtualbox"@, "containers"@, "flatpak"@, "multimedia"@, "office"@, "security"@, "communication"@, "browsers"@, "science"@, "cad"@, "utilities"@, "fonts"@]);
    assert("gnome"@[0] != "kde"@[0]);
    assert("gnome"@[0] != "xfce"@[0]);
    assert("gnome"@[0] != "mate"@[0]);
    assert("gnome"@[0] != "cinnamon"@[0]);
    assert("gnome"@[0] != "pantheon"@[0]);
    assert("gnome"@[0] != "cosmic"@[0]);
    assert("gnome"@[0] != "hyprland"@[0]);
    assert("gnome"@[0] != "sway"@[0]);
    assert("gnome"@[0] != "i3"@[0]);
    assert("gnome"@[0] != "budgie"@[0]);
    assert("gnome"@[0] != "lxqt"@[0]);
    assert("gnome"@[0] != "enlightenment"@[0]);
    assert("kde"@[0] != "xfce"@[0]);
    assert("kde"@[0] != "mate"@[0]);
    assert("kde"@[0] != "cinnamon"@[0]);
    assert("kde"@[0] != "pantheon"@[0]);
    assert("kde"@[0] != "cosmic"@[0]);
    assert("kde"@[0] != "hyprland"@[0]);
    assert("kde"@[0] != "sway"@[0]);
    assert("kde"@[0] != "i3"@[0]);
    assert("kde"@[0] != "budgie"@[0]);
    assert("kde"@[0] != "lxqt"@[0]);
    assert("kde"@[0] != "enlightenment"@[0]);
    assert("xfce"@[0] != "mate"@[0]);
    assert("xfce"@[0] != "cinnamon"@[0]);
    assert("xfce"@[0] != "pantheon"@[0]);
    assert("xfce"@[0] != "cosmic"@[0]);
    assert("xfce"@[0] != "hyprland"@[0]);
    assert("xfce"@[0] != "sway"@[0]);
    assert("xfce"@[0] != "i3"@[0]);
    assert("xfce"@[0] != "budgie"@[0]);
    assert("xfce"@[0] != "lxqt"@[0]);
    assert("xfce"@[0] != "enlightenment"@[0]);
    assert("mate"@[0] != "cinnamon"@[0]);
    assert("mate"@[0] != "pantheon"@[0]);
    assert("mate"@[0] != "cosmic"@[0]);
    assert("mate"@[0] != "hyprland"@[0]);
    assert("mate"@[0] != "sway"@[0]);
    assert("mate"@[0] != "i3"@[0]);
    assert("mate"@[0] != "budgie"@[0]);
    assert("mate"@[0] != "lxqt"@[0]);
    assert("mate"@[0] != "enlightenment"@[0]);
    assert("cinnamon"@[0] != "pantheon"@[0]);
    assert("cinnamon"@[1] != "cosmic"@[1]);
    assert("cinnamon"@[0] != "hyprland"@[0]);
    assert("cinnamon"@[0] != "sway"@[0]);
    assert("cinnamon"@[0] != "i3"@[0]);
    assert("cinnamon"@[0] != "budgie"@[0]);
    assert("cinnamon"@[0] != "lxqt"@[0]);
    assert("cinnamon"@[0] != "enlightenment"@[0]);
    assert("pantheon"@[0] != "cosmic"@[0]);
    assert("pantheon"@[0] != "hyprland"@[0]);
    assert("pantheon"@[0] != "sway"@[0]);
    assert("pantheon"@[0] != "i3"@[0]);
    assert("pantheon"@[0] != "budgie"@[0]);
    assert("pantheon"@[0] != "lxqt"@[0]);
    assert("pantheon"@[0] != "enlightenment"@[0]);
    assert("cosmic"@[0] != "hyprland"@[0]);
    assert("cosmic"@[0] != "sway"@[0]);
    assert("cosmic"@[0] != "i3"@[0]);
    assert("cosmic"@[0] != "budgie"@[0]);
    assert("cosmic"@[0] != "lxqt"@[0]);
    assert("cosmic"@[0] != "enlightenment"@[0]);
    assert("hyprland"@[0] != "sway"@[0]);
    assert("hyprland"@[0] != "i3"@[0]);
    assert("hyprland"@[0] != "budgie"@[0]);
    assert("hyprland"@[0] != "lxqt"@[0]);
    assert("hyprland"@[0] != "enlightenment"@[0]);
    assert("sway"@[0] != "i3"@[0]);
    assert("sway"@[0] != "budgie"@[0]);
    assert("sway"@[0] != "lxqt"@[0]);
    assert("sway"@[0] != "enlightenment"@[0]);
    assert("i3"@[0] != "budgie"@[0]);
    assert("i3"@[0] != "lxqt"@[0]);
    assert("i3"@[0] != "enlightenment"@[0]);
    assert("budgie"@[0] != "lxqt"@[0]);
    assert("budgie"@[0] != "enlightenment"@[0]);
    assert("lxqt"@[0] != "enlightenment"@[0]);
    assert("devtools"@[0] != "gaming"@[0]);
    assert("devtools"@[0] != "virtualization"@[0]);
    assert("devtools"@[0] != "virtualbox"@[0]);
    assert("devtools"@[0] != "containers"@[0]);
    assert("devtools"@[0] != "flatpak"@[0]);
    assert("devtools"@[0] != "multimedia"@[0]);
    assert("devtools"@[0] != "office"@[0]);
    assert("devtools"@[0] != "security"@[0]);
    assert("devtools"@[0] != "communication"@[0]);
    assert("devtools"@[0] != "browsers"@[0]);
    assert("devtools"@[0] != "science"@[0]);
    assert("devtools"@[0] != "cad"@[0]);
    assert("devtools"@[0] != "utilities"@[0]);
    assert("devtools"@[0] != "fonts"@[0]);
    assert("gaming"@[0] != "virtualization"@[0]);
    assert("gaming"@[0] != "virtualbox"@[0]);
    assert("gaming"@[0] != "containers"@[0]);
    assert("gaming"@[0] != "flatpak"@[0]);
    assert("gaming"@[0] != "multimedia"@[0]);
    assert("gaming"@[0] != "office"@[0]);
    assert("gaming"@[0] != "security"@[0]);
    assert("gaming"@[0] != "communication"@[0]);
    assert("gaming"@[0] != "browsers"@[0]);
    assert("gaming"@[0] != "science"@[0]);
    assert("gaming"@[0] != "cad"@[0]);
    assert("gaming"@[0] != "utilities"@[0]);
    assert("gaming"@[0] != "fonts"@[0]);
    assert("virtualization"@[7] != "virtualbox"@[7]);
    assert("virtualization"@[0] != "containers"@[0]);
    assert("virtualization"@[0] != "flatpak"@[0]);
    assert("virtualization"@[0] != "multimedia"@[0]);
    assert("virtualization"@[0] != "office"@[0]);
    assert("virtualization"@[0] != "security"@[0]);
    assert("virtualization"@[0] != "communication"@[0]);
    assert("virtualization"@[0] != "browsers"@[0]);
    assert("virtualization"@[0] != "science"@[0]);
    assert("virtualization"@[0] != "cad"@[0]);
    assert("virtualization"@[0] != "utilities"@[0]);
    assert("virtualization"@[0] != "fonts"@[0]);
    assert("virtualbox"@[0] != "containers"@[0]);
    assert("virtualbox"@[0] != "flatpak"@[0]);
    assert("virtualbox"@[0] != "multimedia"@[0]);
    assert("virtualbox"@[0] != "office"@[0]);
    assert("virtualbox"@[0] != "security"@[0]);
    assert("virtualbox"@[0] != "communication"@[0]);
    assert("virtualbox"@[0] != "browsers"@[0]);
    assert("virtualbox"@[0] != "science"@[0]);
    assert("virtualbox"@[0] != "cad"@[0]);
    assert("virtualbox"@[0] != "utilities"@[0]);
    assert("virtualbox"@[0] != "fonts"@[0]);
    assert("containers"@[0] != "flatpak"@[0]);
    assert("containers"@[0] != "multimedia"@[0]);
    assert("containers"@[0] != "office"@[0]);
    assert("containers"@[0] != "security"@[0]);
    assert("containers"@[2] != "communication"@[2]);
    assert("containers"@[0] != "browsers"@[0]);
    assert("containers"@[0] != "science"@[0]);
    assert("containers"@[1] != "cad"@[1]);
    assert("containers"@[0] != "utilities"@[0]);
    assert("containers"@[0] != "fonts"@[0]);
    assert("flatpak"@[0] != "multimedia"@[0]);
    assert("flatpak"@[0] != "office"@[0]);
    assert("flatpak"@[0] != "security"@[0]);
    assert("flatpak"@[0] != "communication"@[0]);
    assert("flatpak"@[0] != "browsers"@[0]);
    assert("flatpak"@[0] != "science"@[0]);
    assert("flatpak"@[0] != "cad"@[0]);
    assert("flatpak"@[0] != "utilities"@[0]);
    assert("flatpak"@[1] != "fonts"@[1]);
    assert("multimedia"@[0] != "office"@[0]);
    assert("multimedia"@[0] != "security"@[0]);
    assert("multimedia"@[0] != "communication"@[0]);
    assert("multimedia"@[0] != "browsers"@[0]);
    assert("multimedia"@[0] != "science"@[0]);
    assert("multimedia"@[0] != "cad"@[0]);
    assert("multimedia"@[0] != "utilities"@[0]);
    assert("multimedia"@[0] != "fonts"@[0]);
    assert("office"@[0] != "security"@[0]);
    assert("office"@[0] != "communication"@[0]);
    assert("office"@[0] != "browsers"@[0]);
    assert("office"@[0] != "science"@[0]);
    assert("office"@[0] != "cad"@[0]);
    assert("office"@[0] != "utilities"@[0]);
    assert("office"@[0] != "fonts"@[0]);
    assert("security"@[0] != "communication"@[0]);
    assert("security"@[0] != "browsers"@[0]);
    assert("security"@[1] != "science"@[1]);
    assert("security"@[0] != "cad"@[0]);
    assert("security"@[0] != "utilities"@[0]);
    assert("security"@[0] != "fonts"@[0]);
    assert("communication"@[0] != "browsers"@[0]);
    assert("communication"@[0] != "science"@[0]);
    assert("communication"@[1] != "cad"@[1]);
    assert("communication"@[0] != "utilities"@[0]);
    assert("communication"@[0] != "fonts"@[0]);
    assert("browsers"@[0] != "science"@[0]);
    assert("browsers"@[0] != "cad"@[0]);
    assert("browsers"@[0] != "utilities"@[0]);
    assert("browsers"@[0] != "fonts"@[0]);
    assert("science"@[0] != "cad"@[0]);
    assert("science"@[0] != "utilities"@[0]);
    assert("science"@[0] != "fonts"@[0]);
    assert("cad"@[0] != "utilities"@[0]);
    assert("cad"@[0] != "fonts"@[0]);
    assert("utilities"@[0] != "fonts"@[0]);
    assert forall|i: int, j: int| 0 <= i < j < profile_ids().len() implies profile_ids()[i] != profile_ids()[j] by {
        if i == 0 {
            if j == 1 {
            } else if j == 2 {
            } else if j == 3 {
            } else if j == 4 {
            } else if j == 5 {
            } else if j == 6 {
            } else if j == 7 {
            } else if j == 8 {
            } else if j == 9 {
            } else if j == 10 {
            } else if j == 11 {
            } else if j == 12 {
            }
        } else if i == 1 {
            if j == 2 {
            } else if j == 3 {
            } else if j == 4 {
            } else if j == 5 {
            } else if j == 6 {
            } else if j == 7 {
            } else if j == 8 {
            } else if j == 9 {
            } else if j == 10 {
            } else if j == 11 {
            } else if j == 12 {
            }
        } else if i == 2 {
            if j == 3 {
            } else if j == 4 {
            } else if j == 5 {
            } else if j == 6 {
            } else if j == 7 {
            } else if j == 8 {
            } else if j == 9 {
            } else if j == 10 {
            } else if j == 11 {
            } else if j == 12 {
            }
        } else if i == 3 {
            if j == 4 {
            } else if j == 5 {
            } else if j == 6 {
            } else if j == 7 {
            } else if j == 8 {
            } else if j == 9 {
            } else if j == 10 {
            } else if j == 11 {
            } else if j == 12 {
            }
        } else if i == 4 {
            if j == 5 {
            } else if j == 6 {
            } else if j == 7 {
            } else if j == 8 {
            } else if j == 9 {
            } else if j == 10 {
            } else if j == 11 {
            } else if j == 12 {
            }
        } else if i == 5 {
            if j == 6 {
            } else if j == 7 {
            } else if j == 8 {
            } else if j == 9 {
            } else if j == 10 {
            } else if j == 11 {
            } else if j == 12 {
            }
        } else if i == 6 {
            if j == 7 {
            } else if j == 8 {
            } else if j == 9 {
            } else if j == 10 {
            } else if j == 11 {
            } else if j == 12 {
            }
        } else if i == 7 {
            if j == 8 {
            } else if j == 9 {
            } else if j == 10 {
            } else if j == 11 {
            } else if j == 12 {
            }
        } else if i == 8 {
            if j == 9 {
            } else if j == 10 {
            } else if j == 11 {
            } else if j == 12 {
            }
        } else if i == 9 {
            if j == 10 {
            } else if j == 11 {
            } else if j == 12 {
            }
        } else if i == 10 {
            if j == 11 {
            } else if j == 12 {
            }
        } else if i == 11 {
            if j == 12 {
            }
        } else if i == 12 {
        }
    }
    assert forall|i: int, j: int| 0 <= i < j < bundle_ids().len() implies bundle_ids()[i] != bundle_ids()[j] by {
        if i == 0 {
            if j == 1 {
            } else if j == 2 {
            } else if j == 3 {
            } else if j == 4 {
            } else if j == 5 {
            } else if j == 6 {
            } else if j == 7 {
            } else if j == 8 {
            } else if j == 9 {
            } else if j == 10 {
            } else if j == 11 {
            } else if j == 12 {
            } else if j == 13 {
            } else if j == 14 {
            } else if j == 15 {
            }
        } else if i == 1 {
            if j == 2 {
            } else if j == 3 {
            } else if j == 4 {
            } else if j == 5 {
            } else if j == 6 {
            } else if j == 7 {
            } else if j == 8 {
            } else if j == 9 {
            } else if j == 10 {
            } else if j == 11 {
            } else if j == 12 {
            } else if j == 13 {
            } else if j == 14 {
            } else if j == 15 {
            }
        } else if i == 2 {
            if j == 3 {
            } else if j == 4 {
            } else if j == 5 {
            } else if j == 6 {
            } else if j == 7 {
            } else if j == 8 {
            } else if j == 9 {
            } else if j == 10 {
            } else if j == 11 {
            } else if j == 12 {
            } else if j == 13 {
            } else if j == 14 {
            } else if j == 15 {
            }
        } else if i == 3 {
            if j == 4 {
            } else if j == 5 {
            } else if j == 6 {
            } else if j == 7 {
            } else if j == 8 {
            } else if j == 9 {
            } else if j == 10 {
            } else if j == 11 {
            } else if j == 12 {
            } else if j == 13 {
            } else if j == 14 {
            } else if j == 15 {
            }
        } else if i == 4 {
            if j == 5 {
            } else if j == 6 {
            } else if j == 7 {
            } else if j == 8 {
            } else if j == 9 {
            } else if j == 10 {
            } else if j == 11 {
            } else if j == 12 {
            } else if j == 13 {
            } else if j == 14 {
            } else if j == 15 {
            }
        } else if i == 5 {
            if j == 6 {
            } else if j == 7 {
            } else if j == 8 {
            } else if j == 9 {
            } else if j == 10 {
            } else if j == 11 {
            } else if j == 12 {
            } else if j == 13 {
            } else if j == 14 {
            } else if j == 15 {
            }
        } else if i == 6 {
            if j == 7 {
            } else if j == 8 {
            } else if j == 9 {
            } else if j == 10 {
            } else if j == 11 {
            } else if j == 12 {
            } else if j == 13 {
            } else if j == 14 {
            } else if j == 15 {
            }
        } else if i == 7 {
            if j == 8 {
            } else if j == 9 {
            } else if j == 10 {
            } else if j == 11 {
            } else if j == 12 {
            } else if j == 13 {
            } else if j == 14 {
            } else if j == 15 {
            }
        } else if i == 8 {
            if j == 9 {
            } else if j == 10 {
            } else if j == 11 {
            } else if j == 12 {
            } else if j == 13 {
            } else if j == 14 {
            } else if j == 15 {
            }
        } else if i == 9 {
            if j == 10 {
            } else if j == 11 {
            } else if j == 12 {
            } else if j == 13 {
            } else if j == 14 {
            } else if j == 15 {
            }
        } else if i == 10 {
            if j == 11 {
            } else if j == 12 {
            } else if j == 13 {
            } else if j == 14 {
            } else if j == 15 {
            }
        } else if i == 11 {
            if j == 12 {
            } else if j == 13 {
            } else if j == 14 {
            } else if j == 15 {
            }
        } else if i == 12 {
            if j == 13 {
            } else if j == 14 {
            } else if j == 15 {
            }
        } else if i == 13 {
            if j == 14 {
            } else if j == 15 {
            }
        } else if i == 14 {
            if j == 15 {
            }
        } else if i == 15 {
        }
    }
}

} // verus!
