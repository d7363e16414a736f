//! The logic of the GUI's pages: the service registry, bundle rows and
//! package selection, firewall ports, GPU detection, hostname entry, the
//! apply flow, status texts and maintenance actions.

use vstd::prelude::*;

use crate::actions::{opt_view, ArmCompat, BundleDef, BundleView};
use crate::config::{ConfigMode, IntegrationStatus, SystemInfo};
use crate::ipc::{Generation, GenerationView, HelperRequest, HelperResponse, RebuildType};
use crate::strset::{dedup, distinct, list_contains, set_insert, set_of, set_remove};
use crate::text::{owned, push_str, views};

verus! {

/// Definition of a service for the UI.
#[derive(Debug, Clone, Copy)]
pub struct ServiceDef {
    pub id: &'static str,
    pub name: &'static str,
    pub description: &'static str,
    pub icon: &'static str,
    pub nix_option: &'static str,
}

/// The content of a [`ServiceDef`].
pub struct ServiceView {
    pub id: Seq<char>,
    pub name: Seq<char>,
    pub description: Seq<char>,
    pub icon: Seq<char>,
    pub nix_option: Seq<char>,
}

impl View for ServiceDef {
    type V = ServiceView;

    open spec fn view(&self) -> ServiceView {
        ServiceView {
            id: self.id@,
            name: self.name@,
            description: self.description@,
            icon: self.icon@,
            nix_option: self.nix_option@,
        }
    }
}

/// A titled group of services, as the services page shows it.
#[derive(Debug, Clone)]
pub struct ServiceGroup {
    pub title: &'static str,
    pub description: &'static str,
    pub services: Vec<ServiceDef>,
}

/// The content of a [`ServiceGroup`].
pub struct ServiceGroupView {
    pub title: Seq<char>,
    pub description: Seq<char>,
    pub services: Seq<ServiceView>,
}

impl View for ServiceGroup {
    type V = ServiceGroupView;

    open spec fn view(&self) -> ServiceGroupView {
        ServiceGroupView {
            title: self.title@,
            description: self.description@,
            services: self.services@.map_values(|s: ServiceDef| s@),
        }
    }
}

/// The service groups that the services page offers.
pub open spec fn spec_default_service_groups() -> Seq<ServiceGroupView> {
    seq![
        ServiceGroupView {
            title: "Hardware Services"@,
            description: "Services for hardware support and drivers"@,
            services: seq![
                ServiceView {
                    id: "printing"@,
                    name: "Printing (CUPS)"@,
                    description: "Enable printing support via CUPS"@,
                    icon: "printer-symbolic"@,
                    nix_option: "services.printing.enable"@,
                },
                ServiceView {
                    id: "avahi"@,
                    name: "Avahi/mDNS"@,
                    description: "Enable network service discovery (Bonjour compatible)"@,
                    icon: "network-workgroup-symbolic"@,
                    nix_option: "services.avahi.enable"@,
                },
                ServiceView {
                    id: "fwupd"@,
                    name: "Firmware Updates"@,
                    description: "Enable fwupd for firmware updates (LVFS)"@,
                    icon: "software-update-available-symbolic"@,
                    nix_option: "services.fwupd.enable"@,
                },
                ServiceView {
                    id: "upower"@,
                    name: "UPower"@,
                    description: "Power management service for laptops"@,
                    icon: "battery-symbolic"@,
                    nix_option: "services.upower.enable"@,
                },
            ],
        },
        ServiceGroupView {
            title: "Network Services"@,
            description: "Networking and connectivity services"@,
            services: seq![
                ServiceView {
                    id: "networkmanager"@,
                    name: "NetworkManager"@,
                    description: "Modern network configuration manager"@,
                    icon: "network-wired-symbolic"@,
                    nix_option: "networking.networkmanager.enable"@,
                },
                ServiceView {
                    id: "resolved"@,
                    name: "systemd-resolved"@,
                    description: "System DNS resolver with caching"@,
                    icon: "network-server-symbolic"@,
                    nix_option: "services.resolved.enable"@,
                },
            ],
        },
        ServiceGroupView {
            title: "Sync & Backup"@,
            description: "File synchronization and backup services"@,
            services: seq![
                ServiceView {
                    id: "syncthing"@,
                    name: "Syncthing"@,
                    description: "Continuous file synchronization (runs as user service)"@,
                    icon: "emblem-synchronizing-symbolic"@,
                    nix_option: "services.syncthing.enable"@,
                },
                ServiceView {
                    id: "locate"@,
                    name: "Locate Database"@,
                    description: "Enable mlocate/plocate for fast file searching"@,
                    icon: "system-search-symbolic"@,
                    nix_option: "services.locate.enable"@,
                },
            ],
        },
        ServiceGroupView {
            title: "Desktop Services"@,
            description: "Services for desktop environments"@,
            services: seq![
                ServiceView {
                    id: "flatpak"@,
                    name: "Flatpak"@,
                    description: "Enable Flatpak application support"@,
                    icon: "package-x-generic-symbolic"@,
                    nix_option: "services.flatpak.enable"@,
                },
                ServiceView {
                    id: "gnome_keyring"@,
                    name: "GNOME Keyring"@,
                    description: "Secure storage for passwords and keys"@,
                    icon: "channel-secure-symbolic"@,
                    nix_option: "services.gnome.gnome-keyring.enable"@,
                },
                ServiceView {
                    id: "dconf"@,
                    name: "dconf"@,
                    description: "Configuration system for GNOME/GTK apps"@,
                    icon: "preferences-system-symbolic"@,
                    nix_option: "programs.dconf.enable"@,
                },
            ],
        },
        ServiceGroupView {
            title: "Development"@,
            description: "Services for software development"@,
            services: seq![
                ServiceView {
                    id: "docker"@,
                    name: "Docker"@,
                    description: "Container runtime daemon"@,
                    icon: "application-x-executable-symbolic"@,
                    nix_option: "virtualisation.docker.enable"@,
                },
                ServiceView {
                    id: "libvirtd"@,
                    name: "libvirtd"@,
                    description: "Virtualization management daemon for KVM/QEMU"@,
                    icon: "computer-symbolic"@,
                    nix_option: "virtualisation.libvirtd.enable"@,
                },
                ServiceView {
                    id: "postgresql"@,
                    name: "PostgreSQL"@,
                    description: "PostgreSQL database server"@,
                    icon: "drive-harddisk-symbolic"@,
                    nix_option: "services.postgresql.enable"@,
                },
                ServiceView {
                    id: "redis"@,
                    name: "Redis"@,
                    description: "In-memory data structure store"@,
                    icon: "drive-harddisk-symbolic"@,
                    nix_option: "services.redis.servers.\"\".enable"@,
                },
            ],
        },
        ServiceGroupView {
            title: "System"@,
            description: "Core system services"@,
            services: seq![
                ServiceView {
                    id: "earlyoom"@,
                    name: "Early OOM"@,
                    description: "Kill processes early when system runs low on memory"@,
                    icon: "dialog-warning-symbolic"@,
                    nix_option: "services.earlyoom.enable"@,
                },
                ServiceView {
                    id: "auto_upgrade"@,
                    name: "Auto Upgrade"@,
                    description: "Automatically upgrade NixOS (use with caution)"@,
                    icon: "software-update-available-symbolic"@,
                    nix_option: "system.autoUpgrade.enable"@,
                },
                ServiceView {
                    id: "auto_gc"@,
                    name: "Auto Garbage Collect"@,
                    description: "Automatically clean up old Nix store paths"@,
                    icon: "user-trash-symbolic"@,
                    nix_option: "nix.gc.automatic"@,
                },
                ServiceView {
                    id: "store_optimize"@,
                    name: "Store Optimization"@,
                    description: "Automatically optimize Nix store (deduplication)"@,
                    icon: "drive-harddisk-symbolic"@,
                    nix_option: "nix.settings.auto-optimise-store"@,
                },
            ],
        },
    ]
}

/// Get the service groups that the services page offers.
pub fn default_service_groups() -> (r: Vec<ServiceGroup>)
    ensures
        r@.map_values(|g: ServiceGroup| g@) == spec_default_service_groups(),
{
    let mut groups: Vec<ServiceGroup> = Vec::new();
    let mut services: Vec<ServiceDef> = Vec::new();
    services.push(ServiceDef {
        id: "printing",
        name: "Printing (CUPS)",
        description: "Enable printing support via CUPS",
        icon: "printer-symbolic",
        nix_option: "services.printing.enable",
    });
    services.push(ServiceDef {
        id: "avahi",
        name: "Avahi/mDNS",
        description: "Enable network service discovery (Bonjour compatible)",
        icon: "network-workgroup-symbolic",
        nix_option: "services.avahi.enable",
    });
    services.push(ServiceDef {
        id: "fwupd",
        name: "Firmware Updates",
        description: "Enable fwupd for firmware updates (LVFS)",
        icon: "software-update-available-symbolic",
        nix_option: "services.fwupd.enable",
    });
    services.push(ServiceDef {
        id: "upower",
        name: "UPower",
        description: "Power management service for laptops",
        icon: "battery-symbolic",
        nix_option: "services.upower.enable",
    });
    let g = ServiceGroup { title: "Hardware Services", description: "Services for hardware support and drivers", services };
    assert(g@.services =~= seq![services@[0]@, services@[1]@, services@[2]@, services@[3]@]);
    groups.push(g);
    let mut services: Vec<ServiceDef> = Vec::new();
    services.push(ServiceDef {
        id: "networkmanager",
        name: "NetworkManager",
        description: "Modern network configuration manager",
        icon: "network-wired-symbolic",
        nix_option: "networking.networkmanager.enable",
    });
    services.push(ServiceDef {
        id: "resolved",
        name: "systemd-resolved",
        description: "System DNS resolver with caching",
        icon: "network-server-symbolic",
        nix_option: "services.resolved.enable",
    });
    let g = ServiceGroup { title: "Network Services", description: "Networking and connectivity services", services };
    assert(g@.services =~= seq![services@[0]@, services@[1]@]);
    groups.push(g);
    let mut services: Vec<ServiceDef> = Vec::new();
    services.push(ServiceDef {
        id: "syncthing",
        name: "Syncthing",
        description: "Continuous file synchronization (runs as user service)",
        icon: "emblem-synchronizing-symbolic",
        nix_option: "services.syncthing.enable",
    });
    services.push(ServiceDef {
        id: "locate",
        name: "Locate Database",
        description: "Enable mlocate/plocate for fast file searching",
        icon: "system-search-symbolic",
        nix_option: "services.locate.enable",
    });
    let g = ServiceGroup { title: "Sync & Backup", description: "File synchronization and backup services", services };
    assert(g@.services =~= seq![services@[0]@, services@[1]@]);
    groups.push(g);
    let mut services: Vec<ServiceDef> = Vec::new();
    services.push(ServiceDef {
        id: "flatpak",
        name: "Flatpak",
        description: "Enable Flatpak application support",
        icon: "package-x-generic-symbolic",
        nix_option: "services.flatpak.enable",
    });
    services.push(ServiceDef {
        id: "gnome_keyring",
        name: "GNOME Keyring",
        description: "Secure storage for passwords and keys",
        icon: "channel-secure-symbolic",
        nix_option: "services.gnome.gnome-keyring.enable",
    });
    services.push(ServiceDef {
        id: "dconf",
        name: "dconf",
        description: "Configuration system for GNOME/GTK apps",
        icon: "preferences-system-symbolic",
        nix_option: "programs.dconf.enable",
    });
    let g = ServiceGroup { title: "Desktop Services", description: "Services for desktop environments", services };
    assert(g@.services =~= seq![services@[0]@, services@[1]@, services@[2]@]);
    groups.push(g);
    let mut services: Vec<ServiceDef> = Vec::new();
    services.push(ServiceDef {
        id: "docker",
        name: "Docker",
        description: "Container runtime daemon",
        icon: "application-x-executable-symbolic",
        nix_option: "virtualisation.docker.enable",
    });
    services.push(ServiceDef {
        id: "libvirtd",
        name: "libvirtd",
        description: "Virtualization management daemon for KVM/QEMU",
        icon: "computer-symbolic",
        nix_option: "virtualisation.libvirtd.enable",
    });
    services.push(ServiceDef {
        id: "postgresql",
        name: "PostgreSQL",
        description: "PostgreSQL database server",
        icon: "drive-harddisk-symbolic",
        nix_option: "services.postgresql.enable",
    });
    services.push(ServiceDef {
        id: "redis",
        name: "Redis",
        description: "In-memory data structure store",
        icon: "drive-harddisk-symbolic",
        nix_option: "services.redis.servers.\"\".enable",
    });
    let g = ServiceGroup { title: "Development", description: "Services for software development", services };
    assert(g@.services =~= seq![services@[0]@, services@[1]@, services@[2]@, services@[3]@]);
    groups.push(g);
    let mut services: Vec<ServiceDef> = Vec::new();
    services.push(ServiceDef {
        id: "earlyoom",
        name: "Early OOM",
        description: "Kill processes early when system runs low on memory",
        icon: "dialog-warning-symbolic",
        nix_option: "services.earlyoom.enable",
    });
    services.push(ServiceDef {
        id: "auto_upgrade",
        name: "Auto Upgrade",
        description: "Automatically upgrade NixOS (use with caution)",
        icon: "software-update-available-symbolic",
        nix_option: "system.autoUpgrade.enable",
    });
    services.push(ServiceDef {
        id: "auto_gc",
        name: "Auto Garbage Collect",
        description: "Automatically clean up old Nix store paths",
        icon: "user-trash-symbolic",
        nix_option: "nix.gc.automatic",
    });
    services.push(ServiceDef {
        id: "store_optimize",
        name: "Store Optimization",
        description: "Automatically optimize Nix store (deduplication)",
        icon: "drive-harddisk-symbolic",
        nix_option: "nix.settings.auto-optimise-store",
    });
    let g = ServiceGroup { title: "System", description: "Core system services", services };
    assert(g@.services =~= seq![services@[0]@, services@[1]@, services@[2]@, services@[3]@]);
    groups.push(g);
    assert(groups@.map_values(|g: ServiceGroup| g@) =~= spec_default_service_groups());
    groups
}

/// Which services are switched on.
#[derive(Debug, Clone, Copy, Default)]
pub struct ServicesConfig {
    pub printing: bool,
    pub avahi: bool,
    pub fwupd: bool,
    pub upower: bool,
    pub networkmanager: bool,
    pub resolved: bool,
    pub syncthing: bool,
    pub locate: bool,
    pub flatpak: bool,
    pub gnome_keyring: bool,
    pub dconf: bool,
    pub docker: bool,
    pub libvirtd: bool,
    pub postgresql: bool,
    pub redis: bool,
    pub earlyoom: bool,
    pub auto_upgrade: bool,
    pub auto_gc: bool,
    pub store_optimize: bool,
}

/// The services configuration in which exactly the services whose ids
/// `active` lists are on.
pub fn services_config(active: &Vec<String>) -> (r: ServicesConfig)
    ensures
        r.printing == views(active@).contains("printing"@),
        r.avahi == views(active@).contains("avahi"@),
        r.fwupd == views(active@).contains("fwupd"@),
        r.upower == views(active@).contains("upower"@),
        r.networkmanager == views(active@).contains("networkmanager"@),
        r.resolved == views(active@).contains("resolved"@),
        r.syncthing == views(active@).contains("syncthing"@),
        r.locate == views(active@).contains("locate"@),
        r.flatpak == views(active@).contains("flatpak"@),
        r.gnome_keyring == views(active@).contains("gnome_keyring"@),
        r.dconf == views(active@).contains("dconf"@),
        r.docker == views(active@).contains("docker"@),
        r.libvirtd == views(active@).contains("libvirtd"@),
        r.postgresql == views(active@).contains("postgresql"@),
        r.redis == views(active@).contains("redis"@),
        r.earlyoom == views(active@).contains("earlyoom"@),
        r.auto_upgrade == views(active@).contains("auto_upgrade"@),
        r.auto_gc == views(active@).contains("auto_gc"@),
        r.store_optimize == views(active@).contains("store_optimize"@),
{
    ServicesConfig {
        printing: list_contains(active, "printing"),
        avahi: list_contains(active, "avahi"),
        fwupd: list_contains(active, "fwupd"),
        upower: list_contains(active, "upower"),
        networkmanager: list_contains(active, "networkmanager"),
        resolved: list_contains(active, "resolved"),
        syncthing: list_contains(active, "syncthing"),
        locate: list_contains(active, "locate"),
        flatpak: list_contains(active, "flatpak"),
        gnome_keyring: list_contains(active, "gnome_keyring"),
        dconf: list_contains(active, "dconf"),
        docker: list_contains(active, "docker"),
        libvirtd: list_contains(active, "libvirtd"),
        postgresql: list_contains(active, "postgresql"),
        redis: list_contains(active, "redis"),
        earlyoom: list_contains(active, "earlyoom"),
        auto_upgrade: list_contains(active, "auto_upgrade"),
        auto_gc: list_contains(active, "auto_gc"),
        store_optimize: list_contains(active, "store_optimize"),
    }
}

/// How a bundle's row looks on a machine of the given architecture.
pub struct BundleRow {
    /// The subtitle: the description, with the ARM note on ARM machines
    pub subtitle: String,
    /// The icon that flags limited ARM support, if any
    pub compat_icon: Option<&'static str>,
    /// Whether the row can be used
    pub sensitive: bool,
    /// The package count label
    pub package_count: String,
}

/// The subtitle of a bundle's row: on ARM, a bundle without full ARM
/// support shows its note (or its compatibility level) after a warning.
pub open spec fn spec_bundle_subtitle(b: BundleView, is_arm: bool) -> Seq<char> {
    if is_arm && b.arm_compat != ArmCompat::Full {
        b.description + " | \u{26a0}\u{fe0f} "@ + match b.arm_note {
            Some(n) => n,
            None => b.arm_compat.spec_display_name(),
        }
    } else {
        b.description
    }
}

/// How a bundle's row looks: its subtitle, the ARM warning icon (only on
/// ARM, for bundles without full support), whether it is usable (not on ARM
/// when the bundle is x86_64 only) and its package count.
pub fn bundle_row(bundle: &BundleDef, is_arm: bool) -> (r: BundleRow)
    ensures
        r.subtitle@ == spec_bundle_subtitle(bundle@, is_arm),
        match r.compat_icon {
            Some(i) => is_arm && bundle.arm_compat != ArmCompat::Full && i@
                == bundle.arm_compat.spec_icon_name(),
            None => !(is_arm && bundle.arm_compat != ArmCompat::Full),
        },
        r.sensitive == !(is_arm && bundle.arm_compat == ArmCompat::NotAvailable),
        r.package_count@ == crate::text::decimal(bundle.packages@.len()) + " packages"@,
{
    let warn = is_arm && bundle.arm_compat != ArmCompat::Full;
    let subtitle = if warn {
        let mut t = bundle.description.clone();
        push_str(&mut t, " | \u{26a0}\u{fe0f} ");
        match &bundle.arm_note {
            Some(n) => push_str(&mut t, n.as_str()),
            None => push_str(&mut t, bundle.arm_compat.display_name()),
        }
        t
    } else {
        bundle.description.clone()
    };
    let compat_icon = if warn {
        Some(bundle.arm_compat.icon_name())
    } else {
        None
    };
    let mut package_count = crate::text::u64_to_string(bundle.packages.len() as u64);
    push_str(&mut package_count, " packages");
    BundleRow {
        subtitle,
        compat_icon,
        sensitive: !(is_arm && bundle.arm_compat == ArmCompat::NotAvailable),
        package_count,
    }
}

/// The subtitle of a package's row: its nixpkgs attribute.
pub fn package_subtitle(package: &str) -> (r: String)
    ensures
        r@ == "nixpkgs#"@ + package@,
{
    let mut r = owned("nixpkgs#");
    push_str(&mut r, package);
    r
}

/// The values of `s` are strictly increasing.
pub open spec fn strictly_increasing(s: Seq<u16>) -> bool {
    forall|i: int, j: int| 0 <= i < j < s.len() ==> s[i] < s[j]
}

/// Puts `port` into the sorted list `ports`, unless it is there.
fn insert_port(ports: &mut Vec<u16>, port: u16)
    requires
        strictly_increasing(old(ports)@),
    ensures
        strictly_increasing(final(ports)@),
        final(ports)@.to_set() == old(ports)@.to_set().insert(port),
{
    let mut k: usize = 0;
    while k < ports.len() && ports[k] < port
        invariant
            k <= ports@.len(),
            forall|j: int| 0 <= j < k ==> ports@[j] < port,
        decreases ports@.len() - k,
    {
        k = k + 1;
    }
    if k < ports.len() && ports[k] == port {
        assert(ports@.to_set().insert(port) =~= ports@.to_set());
        return;
    }
    let ghost old_ports = ports@;
    ports.insert(k, port);
    assert(ports@ == old_ports.insert(k as int, port));
    assert forall|i: int, j: int| 0 <= i < j < ports@.len() implies ports@[i] < ports@[j] by {
        if j < k {
        } else if i < k && j == k {
        } else if i < k && j > k {
            assert(ports@[j] == old_ports[j - 1]);
        } else if i == k {
            assert(ports@[j] == old_ports[j - 1]);
            assert(old_ports[k as int] > port);
            assert(old_ports[k as int] <= old_ports[j - 1]);
        } else {
            assert(ports@[i] == old_ports[i - 1] && ports@[j] == old_ports[j - 1]);
        }
    }
    assert(ports@.to_set() =~= old_ports.to_set().insert(port)) by {
        assert forall|x: u16| ports@.contains(x) <==> old_ports.to_set().insert(port).contains(x) by {
            if ports@.contains(x) {
                let i = choose|i: int| 0 <= i < ports@.len() && ports@[i] == x;
                if i < k {
                    assert(old_ports[i] == x);
                } else if i > k {
                    assert(old_ports[i - 1] == x);
                }
            }
            if old_ports.contains(x) {
                let i = choose|i: int| 0 <= i < old_ports.len() && old_ports[i] == x;
                if i < k {
                    assert(ports@[i] == x);
                } else {
                    assert(ports@[i + 1] == x);
                }
            }
            if x == port {
                assert(ports@[k as int] == x);
            }
        }
    }
}

/// Takes `port` out of the sorted list `ports`.
fn remove_port(ports: &mut Vec<u16>, port: u16)
    requires
        strictly_increasing(old(ports)@),
    ensures
        strictly_increasing(final(ports)@),
        final(ports)@.to_set() == old(ports)@.to_set().remove(port),
{
    let mut k: usize = 0;
    while k < ports.len() && ports[k] != port
        invariant
            k <= ports@.len(),
            forall|j: int| 0 <= j < k ==> ports@[j] != port,
        decreases ports@.len() - k,
    {
        k = k + 1;
    }
    if k == ports.len() {
        assert(ports@.to_set().remove(port) =~= ports@.to_set());
        return;
    }
    let ghost old_ports = ports@;
    ports.remove(k);
    assert forall|i: int, j: int| 0 <= i < j < ports@.len() implies ports@[i] < ports@[j] by {
        if j < k {
        } else if i < k {
            assert(ports@[j] == old_ports[j + 1]);
        } else {
            assert(ports@[i] == old_ports[i + 1] && ports@[j] == old_ports[j + 1]);
        }
    }
    assert(ports@.to_set() =~= old_ports.to_set().remove(port)) by {
        assert forall|x: u16| ports@.contains(x) <==> old_ports.to_set().remove(port).contains(x) by {
            if ports@.contains(x) {
                let i = choose|i: int| 0 <= i < ports@.len() && ports@[i] == x;
                if i < k {
                    assert(old_ports[i] == x);
                    assert(old_ports[i] < old_ports[k as int]);
                } else {
                    assert(old_ports[i + 1] == x);
                    assert(old_ports[k as int] < old_ports[i + 1]);
                }
            }
            if old_ports.contains(x) && x != port {
                let i = choose|i: int| 0 <= i < old_ports.len() && old_ports[i] == x;
                if i < k {
                    assert(ports@[i] == x);
                } else {
                    assert(i != k);
                    assert(ports@[i - 1] == x);
                }
            }
        }
    }
}

/// Open or close a firewall port; the list stays sorted, each port once.
pub fn toggle_port(ports: &mut Vec<u16>, port: u16, enabled: bool)
    requires
        strictly_increasing(old(ports)@),
    ensures
        strictly_increasing(final(ports)@),
        final(ports)@.to_set() == (if enabled {
            old(ports)@.to_set().insert(port)
        } else {
            old(ports)@.to_set().remove(port)
        }),
{
    if enabled {
        insert_port(ports, port);
    } else {
        remove_port(ports, port);
    }
}

/// The ports that a comma-separated text names: each piece, trimmed, that
/// parses as a port number.
pub open spec fn ports_in_text(pieces: Seq<Seq<char>>) -> Set<u16>
    decreases pieces.len(),
{
    if pieces.len() == 0 {
        Set::empty()
    } else {
        match crate::text::parse_unsigned(crate::text::trim(pieces.last()), 65535) {
            Some(n) => ports_in_text(pieces.drop_last()).insert(n as u16),
            None => ports_in_text(pieces.drop_last()),
        }
    }
}

/// Every port number can be opened by naming it: the text that is just
/// the decimal notation of a port (0 to 65535), alone or as the last piece
/// after others, names that port.
pub proof fn law_every_port_can_be_named(n: u16, earlier: Seq<Seq<char>>)
    ensures
        ports_in_text(crate::text::split(crate::text::decimal(n as nat), ',')).contains(n),
        ports_in_text(earlier.push(crate::text::decimal(n as nat))).contains(n),
{
    let d = crate::text::decimal(n as nat);
    crate::text::lemma_decimal_digits(n as nat, ',');
    crate::text::lemma_split_no_separator(d, ',');
    crate::text::lemma_trim_no_whitespace(d);
    crate::text::lemma_parse_decimal(n as nat, 65535);
    assert(seq![d].drop_last() =~= Seq::<Seq<char>>::empty());
    assert(seq![d].last() == d);
    assert(earlier.push(d).drop_last() =~= earlier);
    assert(earlier.push(d).last() == d);
}

/// Add the ports that a comma-separated text names (such as
/// `"3000, 5432"`); pieces that are not port numbers are skipped.
pub fn parse_custom_ports(ports: &mut Vec<u16>, text: &str)
    requires
        strictly_increasing(old(ports)@),
    ensures
        strictly_increasing(final(ports)@),
        final(ports)@.to_set() == old(ports)@.to_set().union(
            ports_in_text(crate::text::split(text@, ',')),
        ),
{
    let pieces = crate::text::split_by(text, ',');
    let ghost start = ports@.to_set();
    let mut i: usize = 0;
    assert(views(pieces@).take(0) =~= Seq::<Seq<char>>::empty());
    assert(start.union(Set::empty()) =~= start);
    while i < pieces.len()
        invariant
            i <= pieces@.len(),
            views(pieces@) == crate::text::split(text@, ','),
            strictly_increasing(ports@),
            ports@.to_set() == start.union(ports_in_text(views(pieces@).take(i as int))),
        decreases pieces@.len() - i,
    {
        assert(views(pieces@).take(i + 1).drop_last() =~= views(pieces@).take(i as int));
        assert(views(pieces@).take(i + 1).last() == pieces@[i as int]@);
        let t = crate::text::trim_str(pieces[i].as_str());
        match crate::text::parse_unsigned_bounded(t.as_str(), 65535) {
            Some(n) => {
                let ghost before = ports_in_text(views(pieces@).take(i as int));
                insert_port(ports, n as u16);
                assert(start.union(before.insert(n as u16)) =~= start.union(before).insert(
                    n as u16,
                ));
            },
            None => {},
        }
        i = i + 1;
    }
    assert(views(pieces@).take(i as int) =~= views(pieces@));
}

/// The value of the SSH root-login setting for the selected choice.
pub fn ssh_root_login(selected: Option<u32>) -> (r: &'static str)
    ensures
        r@ == (match selected {
            Some(1) => "prohibit-password"@,
            Some(2) => "yes"@,
            _ => "no"@,
        }),
{
    match selected {
        Some(0) => "no",
        Some(1) => "prohibit-password",
        Some(2) => "yes",
        _ => "no",
    }
}

/// The vendor label that a line of `lspci` output gives, if it describes a
/// display controller of a known vendor.
pub open spec fn gpu_line_label(line: Seq<char>) -> Option<Seq<char>> {
    let lower = crate::text::lowercase(line);
    let name = crate::text::trim(crate::text::split(line, ':').last());
    if crate::text::contains(lower, "vga"@) || crate::text::contains(lower, "3d"@)
        || crate::text::contains(lower, "display"@) {
        if crate::text::contains(lower, "nvidia"@) {
            Some("NVIDIA: "@ + name)
        } else if crate::text::contains(lower, "amd"@) || crate::text::contains(lower, "radeon"@) {
            Some("AMD: "@ + name)
        } else if crate::text::contains(lower, "intel"@) {
            Some("Intel: "@ + name)
        } else {
            None
        }
    } else {
        None
    }
}

/// The GPU that the first matching line of `lspci` output names.
pub open spec fn spec_detect_gpu(ls: Seq<Seq<char>>) -> Seq<char>
    decreases ls.len(),
{
    if ls.len() == 0 {
        "Unknown GPU (lspci not available)"@
    } else {
        match gpu_line_label(ls[0]) {
            Some(l) => l,
            None => spec_detect_gpu(ls.drop_first()),
        }
    }
}

/// What the first line of `lspci` output decides. A line is a display
/// controller when its lowercase form contains "vga", "3d" or "display";
/// such a line naming NVIDIA, else AMD or Radeon, else Intel gives that
/// vendor's label followed by the trimmed text after the line's last colon.
/// Any other line is skipped, and when no line is left the GPU is unknown.
pub proof fn law_gpu_from_first_line(line: Seq<char>, rest: Seq<Seq<char>>)
    ensures
        ({
            let lower = crate::text::lowercase(line);
            let name = crate::text::trim(crate::text::split(line, ':').last());
            let controller = crate::text::contains(lower, "vga"@) || crate::text::contains(
                lower,
                "3d"@,
            ) || crate::text::contains(lower, "display"@);
            let nvidia = crate::text::contains(lower, "nvidia"@);
            let amd = crate::text::contains(lower, "amd"@) || crate::text::contains(
                lower,
                "radeon"@,
            );
            let intel = crate::text::contains(lower, "intel"@);
            &&& controller && nvidia ==> spec_detect_gpu(seq![line] + rest) == "NVIDIA: "@ + name
            &&& controller && !nvidia && amd ==> spec_detect_gpu(seq![line] + rest) == "AMD: "@
                + name
            &&& controller && !nvidia && !amd && intel ==> spec_detect_gpu(seq![line] + rest)
                == "Intel: "@ + name
            &&& !(controller && (nvidia || amd || intel)) ==> spec_detect_gpu(seq![line] + rest)
                == spec_detect_gpu(rest)
        }),
        spec_detect_gpu(Seq::empty()) == "Unknown GPU (lspci not available)"@,
{
    let s = seq![line] + rest;
    assert(s[0] == line);
    assert(s.drop_first() =~= rest);
}

fn gpu_line(line: &str) -> (r: Option<String>)
    ensures
        opt_view(r) == gpu_line_label(line@),
{
    let lower = crate::text::to_lowercase(line);
    let l = lower.as_str();
    if crate::text::str_contains(l, "vga") || crate::text::str_contains(l, "3d")
        || crate::text::str_contains(l, "display") {
        let pieces = crate::text::split_by(line, ':');
        assert(views(pieces@).last() == pieces@[pieces@.len() - 1]@);
        let name = crate::text::trim_str(pieces[pieces.len() - 1].as_str());
        if crate::text::str_contains(l, "nvidia") {
            let mut r = owned("NVIDIA: ");
            push_str(&mut r, name.as_str());
            Some(r)
        } else if crate::text::str_contains(l, "amd") || crate::text::str_contains(l, "radeon") {
            let mut r = owned("AMD: ");
            push_str(&mut r, name.as_str());
            Some(r)
        } else if crate::text::str_contains(l, "intel") {
            let mut r = owned("Intel: ");
            push_str(&mut r, name.as_str());
            Some(r)
        } else {
            None
        }
    } else {
        None
    }
}

/// Detect the GPU from the output of `lspci` (`None` when it could not be
/// run): the vendor and device of the first display controller of a known
/// vendor.
pub fn detect_gpu(lspci_output: &Option<String>) -> (r: String)
    ensures
        r@ == (match opt_view(*lspci_output) {
            Some(out) => spec_detect_gpu(crate::text::lines(out)),
            None => "Unknown GPU (lspci not available)"@,
        }),
{
    match lspci_output {
        Some(out) => {
            let ls = crate::text::lines_of(out.as_str());
            let ghost lv = views(ls@);
            let mut i: usize = 0;
            assert(lv.skip(0) =~= lv);
            while i < ls.len()
                invariant
                    i <= ls@.len(),
                    lv == views(ls@),
                    lv == crate::text::lines(out@),
                    opt_view(*lspci_output) == Some(out@),
                    spec_detect_gpu(lv) == spec_detect_gpu(lv.skip(i as int)),
                decreases ls@.len() - i,
            {
                assert(lv.skip(i as int)[0] == ls@[i as int]@);
                match gpu_line(ls[i].as_str()) {
                    Some(l) => {
                        assert(lv.skip(i as int).len() > 0);
                        assert(spec_detect_gpu(lv.skip(i as int)) == l@);
                        return l;
                    },
                    None => {},
                }
                assert(lv.skip(i as int).drop_first() =~= lv.skip(i + 1));
                i = i + 1;
            }
            owned("Unknown GPU (lspci not available)")
        },
        None => owned("Unknown GPU (lspci not available)"),
    }
}

/// Whether the hardware page offers the NVIDIA driver options: the detected
/// GPU names NVIDIA (in any case) and the machine is not ARM.
pub fn offers_nvidia_options(gpu: &str, is_arm: bool) -> (r: bool)
    ensures
        r == (crate::text::contains(crate::text::lowercase(gpu@), "nvidia"@) && !is_arm),
{
    let lower = crate::text::to_lowercase(gpu);
    crate::text::str_contains(lower.as_str(), "nvidia") && !is_arm
}

/// The hardware settings that the hardware page gathers.
#[derive(Debug, Clone, Copy, PartialEq, Eq, Structural)]
pub struct HardwareConfig {
    /// The chosen NVIDIA driver (stable, beta, open), when the options are offered
    pub nvidia_driver: Option<u8>,
    pub nvidia_modesetting: bool,
    pub nvidia_powermanagement: bool,
    pub nvidia_open: bool,
    /// The audio server (PipeWire, PulseAudio)
    pub audio_server: u8,
    pub audio_lowlatency: bool,
    pub bluetooth_enabled: bool,
    pub bluetooth_autopower: bool,
    pub power_profile: u8,
    pub tlp_enabled: bool,
    pub thermald_enabled: bool,
}

impl HardwareConfig {
    /// The settings that the page starts with: the first choice of each
    /// list and every switch off, except modesetting, which is on when the
    /// NVIDIA options are offered; without them there is no driver choice.
    pub fn initial(nvidia_offered: bool) -> (r: HardwareConfig)
        ensures
            r.nvidia_driver == (if nvidia_offered {
                Some(0u8)
            } else {
                None::<u8>
            }),
            r.nvidia_modesetting == nvidia_offered,
            !r.nvidia_powermanagement,
            !r.nvidia_open,
            r.audio_server == 0,
            !r.audio_lowlatency,
            !r.bluetooth_enabled,
            !r.bluetooth_autopower,
            r.power_profile == 0,
            !r.tlp_enabled,
            !r.thermald_enabled,
    {
        HardwareConfig {
            nvidia_driver: if nvidia_offered {
                Some(0)
            } else {
                None
            },
            nvidia_modesetting: nvidia_offered,
            nvidia_powermanagement: false,
            nvidia_open: false,
            audio_server: 0,
            audio_lowlatency: false,
            bluetooth_enabled: false,
            bluetooth_autopower: false,
            power_profile: 0,
            tlp_enabled: false,
            thermald_enabled: false,
        }
    }
}

/// The network settings that the network page gathers.
#[derive(Debug, Clone)]
pub struct NetworkConfig {
    pub firewall_enabled: bool,
    pub allowed_tcp_ports: Vec<u16>,
    pub allowed_udp_ports: Vec<u16>,
    pub ssh_enabled: bool,
    pub ssh_port: u16,
    pub ssh_password_auth: bool,
    pub ssh_root_login: String,
    pub fail2ban_enabled: bool,
    pub tailscale_enabled: bool,
}

impl NetworkConfig {
    /// The settings that the page starts with: firewall on with no open
    /// port, SSH off on port 22 without password login or root login,
    /// Fail2Ban and Tailscale off.
    pub fn initial() -> (r: NetworkConfig)
        ensures
            r.firewall_enabled,
            r.allowed_tcp_ports@ == Seq::<u16>::empty(),
            r.allowed_udp_ports@ == Seq::<u16>::empty(),
            !r.ssh_enabled,
            r.ssh_port == 22,
            !r.ssh_password_auth,
            r.ssh_root_login@ == "no"@,
            !r.fail2ban_enabled,
            !r.tailscale_enabled,
    {
        NetworkConfig {
            firewall_enabled: true,
            allowed_tcp_ports: Vec::new(),
            allowed_udp_ports: Vec::new(),
            ssh_enabled: false,
            ssh_port: 22,
            ssh_password_auth: false,
            ssh_root_login: owned(ssh_root_login(Some(0))),
            fail2ban_enabled: false,
            tailscale_enabled: false,
        }
    }
}

/// What entering a hostname on the system page does.
#[derive(Debug, Clone, Copy, PartialEq, Eq, Structural)]
pub enum HostnameEntry {
    /// Refused: the hostname is empty
    Empty,
    /// Refused: a character is neither alphanumeric nor `-`
    InvalidCharacters,
    /// Nothing to do: it is the current hostname
    Unchanged,
    /// The state takes the new hostname
    Change,
}

/// What entering `hostname` does when the current hostname is `current`.
pub fn hostname_entry(hostname: &str, current: &Option<String>) -> (r: HostnameEntry)
    ensures
        r == (if hostname@.len() == 0 {
            HostnameEntry::Empty
        } else if !crate::text::hostname_chars_ok(hostname@) {
            HostnameEntry::InvalidCharacters
        } else if opt_view(*current) == Some(hostname@) {
            HostnameEntry::Unchanged
        } else {
            HostnameEntry::Change
        }),
{
    if hostname.is_empty() {
        return HostnameEntry::Empty;
    }
    if !crate::text::all_hostname_chars(hostname) {
        return HostnameEntry::InvalidCharacters;
    }
    match current {
        Some(c) => {
            if crate::text::str_eq(c.as_str(), hostname) {
                HostnameEntry::Unchanged
            } else {
                HostnameEntry::Change
            }
        },
        None => HostnameEntry::Change,
    }
}

/// The number of the first generation marked current.
pub open spec fn spec_current_generation(gens: Seq<GenerationView>) -> Option<u32>
    decreases gens.len(),
{
    if gens.len() == 0 {
        None
    } else if gens[0].current {
        Some(gens[0].number)
    } else {
        spec_current_generation(gens.drop_first())
    }
}

/// The current generation of a list: the first one marked current.
pub fn current_generation(gens: &Vec<Generation>) -> (r: Option<u32>)
    ensures
        r == spec_current_generation(crate::commands::generation_views(gens@)),
{
    let ghost gv = crate::commands::generation_views(gens@);
    let mut i: usize = 0;
    assert(gv.skip(0) =~= gv);
    while i < gens.len()
        invariant
            i <= gens@.len(),
            gv == crate::commands::generation_views(gens@),
            spec_current_generation(gv) == spec_current_generation(gv.skip(i as int)),
        decreases gens@.len() - i,
    {
        assert(gv.skip(i as int)[0] == gens@[i as int]@);
        if gens[i].current {
            return Some(gens[i].number);
        }
        assert(gv.skip(i as int).drop_first() =~= gv.skip(i + 1));
        i = i + 1;
    }
    None
}

/// The generation that rolling back switches to: the listed generation with
/// the greatest number below the current one (generations in between may
/// have been deleted), or the message that explains why there is none.
pub fn rollback_target(gens: &Vec<Generation>, current: Option<u32>) -> (r: Result<u32, &'static str>)
    ensures
        match current {
            Some(c) => match r {
                Ok(p) => {
                    &&& p < c
                    &&& exists|k: int| 0 <= k < gens@.len() && #[trigger] gens@[k].number == p
                    &&& forall|k: int|
                        0 <= k < gens@.len() && #[trigger] gens@[k].number < c ==> gens@[k].number
                            <= p
                },
                Err(m) => m@ == "Cannot rollback: already at the first generation.\n"@ && forall|k: int|
                    0 <= k < gens@.len() ==> #[trigger] gens@[k].number >= c,
            },
            None => r matches Err(m) && m@ == "Cannot rollback: current generation unknown.\n"@,
        },
{
    let c = match current {
        Some(c) => c,
        None => {
            return Err("Cannot rollback: current generation unknown.\n");
        },
    };
    let mut best: Option<u32> = None;
    let mut i: usize = 0;
    while i < gens.len()
        invariant
            i <= gens@.len(),
            match best {
                Some(p) => {
                    &&& p < c
                    &&& exists|k: int| 0 <= k < i && #[trigger] gens@[k].number == p
                    &&& forall|k: int| 0 <= k < i && #[trigger] gens@[k].number < c ==> gens@[k].number <= p
                },
                None => forall|k: int| 0 <= k < i ==> #[trigger] gens@[k].number >= c,
            },
        decreases gens@.len() - i,
    {
        let n = gens[i].number;
        if n < c {
            match best {
                Some(p) => {
                    if n > p {
                        best = Some(n);
                    }
                },
                None => {
                    best = Some(n);
                },
            }
        }
        i = i + 1;
    }
    match best {
        Some(p) => Ok(p),
        None => Err("Cannot rollback: already at the first generation.\n"),
    }
}

/// The title of a generation's row.
pub fn generation_title(g: &Generation) -> (r: String)
    ensures
        r@ == "Generation "@ + crate::text::decimal(g.number as nat) + if g.current {
            " (current)"@
        } else {
            Seq::empty()
        },
{
    let mut r = owned("Generation ");
    let n = crate::text::u64_to_string(g.number as u64);
    push_str(&mut r, n.as_str());
    if g.current {
        push_str(&mut r, " (current)");
    } else {
        assert(r@ + Seq::<char>::empty() =~= r@);
    }
    r
}

/// How a generation's row looks and what it offers.
pub struct GenerationRow {
    pub title: String,
    pub subtitle: String,
    pub icon: &'static str,
    /// The "Current" badge, shown on the current generation's row only
    pub current_badge: bool,
    /// Whether the row offers switching to this generation
    pub offers_switch: bool,
    /// Whether the row offers deleting this generation
    pub offers_delete: bool,
}

/// The row of a generation: its title and date; the current generation
/// carries a badge and offers neither switching nor deleting, every other
/// generation offers both.
pub fn generation_row(g: &Generation) -> (r: GenerationRow)
    ensures
        r.title@ == "Generation "@ + crate::text::decimal(g.number as nat) + if g.current {
            " (current)"@
        } else {
            Seq::empty()
        },
        r.subtitle@ == g.date@,
        r.icon@ == if g.current {
            "emblem-ok-symbolic"@
        } else {
            "document-open-recent-symbolic"@
        },
        r.current_badge == g.current,
        r.offers_switch == !g.current,
        r.offers_delete == !g.current,
{
    GenerationRow {
        title: generation_title(g),
        subtitle: g.date.clone(),
        icon: if g.current {
            "emblem-ok-symbolic"
        } else {
            "document-open-recent-symbolic"
        },
        current_badge: g.current,
        offers_switch: !g.current,
        offers_delete: !g.current,
    }
}

/// The log line after loading the generations.
pub fn generations_loaded_log(count: usize) -> (r: String)
    ensures
        r@ == if count == 0 {
            "No generations found.\n"@
        } else {
            "Found "@ + crate::text::decimal(count as nat) + " generations.\n"@
        },
{
    if count == 0 {
        owned("No generations found.\n")
    } else {
        let mut r = owned("Found ");
        let n = crate::text::u64_to_string(count as u64);
        push_str(&mut r, n.as_str());
        push_str(&mut r, " generations.\n");
        r
    }
}

/// The log line that announces switching to a generation in a mode
/// (`switch` or `boot`).
pub fn switch_log_header(generation: u32, mode: &str) -> (r: String)
    ensures
        r@ == "\n--- Switching to generation "@ + crate::text::decimal(generation as nat) + " ("@
            + mode@ + ") ---\n"@,
{
    let mut r = owned("\n--- Switching to generation ");
    let n = crate::text::u64_to_string(generation as u64);
    push_str(&mut r, n.as_str());
    push_str(&mut r, " (");
    push_str(&mut r, mode);
    push_str(&mut r, ") ---\n");
    r
}

/// The arguments handed to `pkexec` to switch to a generation: the
/// generation's profile path, the activation script and the mode.
pub fn switch_invocation(generation: u32, mode: &str) -> (r: Vec<String>)
    ensures
        views(r@) == seq![
            "/nix/var/nix/profiles/system-"@ + crate::text::decimal(generation as nat),
            "/bin/switch-to-configuration"@,
            mode@,
        ],
{
    let mut path = owned("/nix/var/nix/profiles/system-");
    let n = crate::text::u64_to_string(generation as u64);
    push_str(&mut path, n.as_str());
    let mut r: Vec<String> = Vec::new();
    r.push(path);
    r.push(owned("/bin/switch-to-configuration"));
    r.push(owned(mode));
    proof {
        assert(views(r@) =~= seq![r@[0]@, r@[1]@, r@[2]@]);
    }
    r
}

/// How a privileged command ended: it succeeded, it failed with this error
/// output, or it could not be run.
pub enum CommandOutcome {
    Succeeded,
    Failed { stderr: String },
    NotRun,
}

/// The log text after switching to a generation in a mode.
pub fn switch_result_log(outcome: &CommandOutcome, mode: &str) -> (r: String)
    ensures
        r@ == match outcome {
            CommandOutcome::Succeeded => "Switch successful!\n"@ + if mode@ == "boot"@ {
                "The selected generation will be activated on next boot.\n"@
            } else {
                Seq::empty()
            },
            CommandOutcome::Failed { stderr } => "Switch failed:\n"@ + stderr@ + "\n"@,
            CommandOutcome::NotRun => "Failed to execute switch command.\n"@,
        },
{
    match outcome {
        CommandOutcome::Succeeded => {
            let mut r = owned("Switch successful!\n");
            if crate::text::str_eq(mode, "boot") {
                push_str(&mut r, "The selected generation will be activated on next boot.\n");
            } else {
                assert(r@ =~= r@ + Seq::<char>::empty());
            }
            r
        },
        CommandOutcome::Failed { stderr } => {
            let mut r = owned("Switch failed:\n");
            push_str(&mut r, stderr.as_str());
            push_str(&mut r, "\n");
            r
        },
        CommandOutcome::NotRun => owned("Failed to execute switch command.\n"),
    }
}

/// The log text after deleting a generation.
pub fn delete_result_log(generation: u32, outcome: &CommandOutcome) -> (r: String)
    ensures
        r@ == match outcome {
            CommandOutcome::Succeeded => "Generation "@ + crate::text::decimal(generation as nat)
                + " deleted.\n"@,
            CommandOutcome::Failed { stderr } => "Delete failed:\n"@ + stderr@ + "\n"@,
            CommandOutcome::NotRun => "Failed to execute delete command.\n"@,
        },
{
    match outcome {
        CommandOutcome::Succeeded => {
            let mut r = owned("Generation ");
            let n = crate::text::u64_to_string(generation as u64);
            push_str(&mut r, n.as_str());
            push_str(&mut r, " deleted.\n");
            r
        },
        CommandOutcome::Failed { stderr } => {
            let mut r = owned("Delete failed:\n");
            push_str(&mut r, stderr.as_str());
            push_str(&mut r, "\n");
            r
        },
        CommandOutcome::NotRun => owned("Failed to execute delete command.\n"),
    }
}

/// How a status row or banner is styled.
#[derive(Debug, Clone, Copy, PartialEq, Eq, Structural)]
pub enum StatusStyle {
    /// Marked as an error
    Error,
    /// Marked as a warning
    Warning,
    /// Marked as a success
    Success,
    /// No mark
    Plain,
    /// Left as it was
    Unchanged,
}

/// The onboarding page's status row.
pub struct StatusRow {
    pub title: String,
    pub subtitle: String,
    pub style: StatusStyle,
}

/// The word for an integration status on the onboarding page.
pub open spec fn spec_integration_word(s: IntegrationStatus) -> Seq<char> {
    match s {
        IntegrationStatus::Integrated => "Integrated"@,
        IntegrationStatus::NotIntegrated => "Not integrated"@,
        IntegrationStatus::Unknown => "Unknown"@,
    }
}

/// The onboarding page's status row for the detected system.
pub fn onboarding_status(info: &SystemInfo) -> (r: StatusRow)
    ensures
        !info.is_nixos ==> r.title@ == "Not NixOS"@ && r.subtitle@
            == "This tool only works on NixOS systems"@ && r.style == StatusStyle::Error,
        info.is_nixos ==> {
            &&& r.title@ == "NixOS Detected ("@ + info.config_mode.spec_display_name() + ")"@
            &&& r.subtitle@ == "Integration: "@ + spec_integration_word(info.integration_status)
                + " | Version: "@ + match opt_view(info.nixos_version) {
                Some(v) => v,
                None => "unknown"@,
            }
            &&& r.style == match info.integration_status {
                IntegrationStatus::Integrated => StatusStyle::Plain,
                IntegrationStatus::NotIntegrated => StatusStyle::Warning,
                IntegrationStatus::Unknown => StatusStyle::Unchanged,
            }
        },
{
    if !info.is_nixos {
        return StatusRow {
            title: owned("Not NixOS"),
            subtitle: owned("This tool only works on NixOS systems"),
            style: StatusStyle::Error,
        };
    }
    let mut title = owned("NixOS Detected (");
    push_str(&mut title, info.config_mode.display_name());
    push_str(&mut title, ")");
    let word = match info.integration_status {
        IntegrationStatus::Integrated => "Integrated",
        IntegrationStatus::NotIntegrated => "Not integrated",
        IntegrationStatus::Unknown => "Unknown",
    };
    let mut subtitle = owned("Integration: ");
    push_str(&mut subtitle, word);
    push_str(&mut subtitle, " | Version: ");
    match &info.nixos_version {
        Some(v) => push_str(&mut subtitle, v.as_str()),
        None => push_str(&mut subtitle, "unknown"),
    }
    let style = match info.integration_status {
        IntegrationStatus::Integrated => StatusStyle::Plain,
        IntegrationStatus::NotIntegrated => StatusStyle::Warning,
        IntegrationStatus::Unknown => StatusStyle::Unchanged,
    };
    StatusRow { title, subtitle, style }
}

/// The integration snippet to show for a configuration mode: the flake
/// snippet for flakes, the classic one otherwise.
pub fn integration_snippet(mode: ConfigMode) -> (r: String)
    ensures
        r@ == if mode == ConfigMode::Flake {
            "# Add this line to your modules list in /etc/nixos/flake.nix:\n\n./nixos-toolkit/state/selected.nix"@
        } else {
            "# Add this line to your imports list in /etc/nixos/configuration.nix:\n\n./nixos-toolkit/state/selected.nix"@
        },
{
    match mode {
        ConfigMode::Flake => crate::integration::flake_integration_snippet(),
        _ => crate::integration::classic_integration_snippet(),
    }
}

/// The message that verifying the integration reports.
pub fn integration_check_message(status: IntegrationStatus) -> (r: &'static str)
    ensures
        r@ == match status {
            IntegrationStatus::Integrated => "Integration verified! You're ready to use the toolkit."@,
            IntegrationStatus::NotIntegrated => "Integration not detected. Please add the import and run 'nixos-rebuild switch'."@,
            IntegrationStatus::Unknown => "Could not verify integration. Please check manually."@,
        },
{
    match status {
        IntegrationStatus::Integrated => "Integration verified! You're ready to use the toolkit.",
        IntegrationStatus::NotIntegrated => "Integration not detected. Please add the import and run 'nixos-rebuild switch'.",
        IntegrationStatus::Unknown => "Could not verify integration. Please check manually.",
    }
}

/// The main window's status banner: its title, style, and whether it shows.
pub struct Banner {
    pub title: &'static str,
    pub style: StatusStyle,
    pub revealed: bool,
}

/// The banner for the detected system: not NixOS, integrated, setup
/// required, or hidden when the status is unknown.
pub fn status_banner(info: &SystemInfo) -> (r: Banner)
    ensures
        !info.is_nixos ==> r.revealed && r.style == StatusStyle::Error && r.title@
            == "Not running on NixOS"@,
        info.is_nixos ==> match info.integration_status {
            IntegrationStatus::Integrated => r.revealed && r.style == StatusStyle::Success
                && r.title@ == "Integrated - Ready to apply changes"@,
            IntegrationStatus::NotIntegrated => r.revealed && r.style == StatusStyle::Warning
                && r.title@ == "Setup required - See Getting Started"@,
            IntegrationStatus::Unknown => !r.revealed && r.style == StatusStyle::Unchanged,
        },
{
    if !info.is_nixos {
        return Banner { title: "Not running on NixOS", style: StatusStyle::Error, revealed: true };
    }
    match info.integration_status {
        IntegrationStatus::Integrated => Banner {
            title: "Integrated - Ready to apply changes",
            style: StatusStyle::Success,
            revealed: true,
        },
        IntegrationStatus::NotIntegrated => Banner {
            title: "Setup required - See Getting Started",
            style: StatusStyle::Warning,
            revealed: true,
        },
        IntegrationStatus::Unknown => Banner { title: "", style: StatusStyle::Unchanged, revealed: false },
    }
}

/// What asking to run a maintenance action does.
pub enum MaintenanceStep {
    /// Another action runs: log this message and do nothing
    Busy { message: &'static str },
    /// Ask for confirmation first, with this heading and body
    Confirm { heading: String, body: String },
    /// Run it now
    Run,
}

/// What asking to run the maintenance action `name` does: refused while
/// another runs, confirmed first when it carries a warning.
pub fn maintenance_step(is_running: bool, name: &str, warning: Option<&str>) -> (r: MaintenanceStep)
    ensures
        is_running ==> (r matches MaintenanceStep::Busy { message } && message@
            == "Another action is already running. Please wait.\n"@),
        !is_running ==> match warning {
            Some(w) => (r matches MaintenanceStep::Confirm { heading, body } && heading@ == "Run "@
                + name@ + "?"@ && body@ == w@),
            None => r is Run,
        },
{
    if is_running {
        return MaintenanceStep::Busy { message: "Another action is already running. Please wait.\n" };
    }
    match warning {
        Some(w) => {
            let mut heading = owned("Run ");
            push_str(&mut heading, name);
            push_str(&mut heading, "?");
            MaintenanceStep::Confirm { heading, body: owned(w) }
        },
        None => MaintenanceStep::Run,
    }
}

/// The log of running a maintenance action: what would run, and how to run
/// it by hand.
pub fn maintenance_log(name: &str, command: &str) -> (r: String)
    ensures
        r@ == "\n--- Running: "@ + name@ + " ---\n"@ + "$ sudo "@ + command@ + "\n\n"@
            + "Note: This action requires root privileges.\n"@ + "To run manually: sudo "@ + command@
            + "\n"@ + "\nThe helper binary will execute this when fully integrated.\n"@,
{
    let mut r = owned("\n--- Running: ");
    push_str(&mut r, name);
    push_str(&mut r, " ---\n");
    push_str(&mut r, "$ sudo ");
    push_str(&mut r, command);
    push_str(&mut r, "\n\n");
    push_str(&mut r, "Note: This action requires root privileges.\n");
    push_str(&mut r, "To run manually: sudo ");
    push_str(&mut r, command);
    push_str(&mut r, "\n");
    push_str(&mut r, "\nThe helper binary will execute this when fully integrated.\n");
    r
}

/// What the apply page does with a response from the helper.
pub enum ApplyEvent {
    /// Append this text to the log and keep waiting
    Log { text: String },
    /// Append this text to the log and finish, successfully or not
    Finished { success: bool, text: String },
    /// Not a response that the apply flow expects: keep waiting
    Ignored,
}

/// The log text of an error response: the message, then the details when
/// there are some.
pub open spec fn error_text(prefix: Seq<char>, message: Seq<char>, details: Option<Seq<char>>) -> Seq<
    char,
> {
    prefix + message + "\n"@ + match details {
        Some(d) => "Details: "@ + d + "\n"@,
        None => Seq::empty(),
    }
}

fn error_text_exec(prefix: &str, message: &String, details: &Option<String>) -> (r: String)
    ensures
        r@ == error_text(prefix@, message@, opt_view(*details)),
{
    let mut t = owned(prefix);
    push_str(&mut t, message.as_str());
    push_str(&mut t, "\n");
    match details {
        Some(d) => {
            push_str(&mut t, "Details: ");
            push_str(&mut t, d.as_str());
            push_str(&mut t, "\n");
        },
        None => {
            assert(t@ + Seq::<char>::empty() =~= t@);
        },
    }
    t
}

/// What the apply page does with a response while a rebuild runs: logs are
/// appended with their level, completion and errors end the flow.
pub fn apply_event(response: &HelperResponse) -> (r: ApplyEvent)
    ensures
        match response {
            HelperResponse::Log { level, message } => r matches ApplyEvent::Log { text }
                && text@ == "["@ + level.spec_as_str() + "] "@ + message@ + "\n"@,
            HelperResponse::ApplyComplete { success, message } => r matches ApplyEvent::Finished {
                success: s,
                text,
            } && s == success && text@ == "\n"@ + message@ + "\n"@,
            HelperResponse::Error { message, details } => r matches ApplyEvent::Finished {
                success: false,
                text,
            } && text@ == error_text("\nError: "@, message@, opt_view(*details)),
            _ => r is Ignored,
        },
{
    match response {
        HelperResponse::Log { level, message } => {
            let mut t = owned("[");
            push_str(&mut t, level.as_str());
            push_str(&mut t, "] ");
            push_str(&mut t, message.as_str());
            push_str(&mut t, "\n");
            ApplyEvent::Log { text: t }
        },
        HelperResponse::ApplyComplete { success, message } => {
            let mut t = owned("\n");
            push_str(&mut t, message.as_str());
            push_str(&mut t, "\n");
            ApplyEvent::Finished { success: *success, text: t }
        },
        HelperResponse::Error { message, details } => ApplyEvent::Finished {
            success: false,
            text: error_text_exec("\nError: ", message, details),
        },
        _ => ApplyEvent::Ignored,
    }
}

/// What the apply page does with the helper's answer to the request to
/// create the directories: go on when they are ready, stop otherwise.
pub fn directories_event(response: &Option<HelperResponse>) -> (r: ApplyEvent)
    ensures
        match response {
            Some(HelperResponse::Success) => r matches ApplyEvent::Log { text } && text@
                == "Directories ready.\n"@,
            Some(HelperResponse::Error { message, details }) => r matches ApplyEvent::Finished {
                success: false,
                text,
            } && text@ == error_text("Error: "@, message@, opt_view(*details)),
            _ => r matches ApplyEvent::Finished { success: false, text } && text@
                == "Unexpected response from helper\n"@,
        },
{
    match response {
        Some(HelperResponse::Success) => ApplyEvent::Log { text: owned("Directories ready.\n") },
        Some(HelperResponse::Error { message, details }) => ApplyEvent::Finished {
            success: false,
            text: error_text_exec("Error: ", message, details),
        },
        _ => ApplyEvent::Finished { success: false, text: owned("Unexpected response from helper\n") },
    }
}

/// Where the apply flow stands.
#[derive(Debug, Clone, Copy, PartialEq, Eq, Structural)]
pub enum ApplyPhase {
    /// Nothing runs
    Idle,
    /// The helper was asked to create the directories
    AwaitingDirectories,
    /// The helper was asked to apply, and rebuilds
    Rebuilding,
}

/// What happens to the apply flow.
pub enum ApplyInput {
    /// The user confirmed applying
    StartRequested,
    /// The helper answered the request to create the directories (`None`
    /// when no answer came in time)
    DirectoriesAnswered { response: Option<HelperResponse> },
    /// The helper sent a message while rebuilding
    HelperAnswered { response: HelperResponse },
}

/// What the apply flow does in answer.
pub enum ApplyOutput {
    /// Nothing
    Nothing,
    /// Ask the helper to create the directories
    SendEnsureDirectories,
    /// Log this text and send this request to the helper
    SendApply { request: HelperRequest, log: String },
    /// Append this text to the log
    Log { text: String },
    /// Append this text to the log and finish, successfully or not
    Finished { success: bool, text: String },
}

/// Whether `req` is the request to apply the state's selection with
/// `nixos-rebuild switch`.
pub open spec fn is_apply_request(req: HelperRequest, state: crate::state::AppState) -> bool {
    match req {
        HelperRequest::Apply { selected_profile, enabled_bundles, hostname, rebuild_type } => {
            &&& opt_view(selected_profile) == opt_view(state.selected_profile)
            &&& views(enabled_bundles@) == views(state.enabled_bundles@)
            &&& opt_view(hostname) == opt_view(state.hostname)
            &&& rebuild_type == RebuildType::Switch
        },
        _ => false,
    }
}

/// The log text when creating the directories did not succeed.
pub open spec fn directories_failure_text(response: Option<HelperResponse>) -> Seq<char> {
    match response {
        Some(HelperResponse::Error { message, details }) => error_text(
            "Error: "@,
            message@,
            opt_view(details),
        ),
        _ => "Unexpected response from helper\n"@,
    }
}

/// One step of the apply flow. A start while a run is under way is ignored;
/// a run first asks for the directories, sends the request to apply (built
/// from the state, with `Switch`) only once they are ready, and ends with
/// the helper's completion or error; logs are passed on meanwhile. Any other
/// input leaves the flow as it is.
pub fn apply_step(phase: ApplyPhase, input: ApplyInput, state: &crate::state::AppState) -> (r: (
    ApplyPhase,
    ApplyOutput,
))
    ensures
        match input {
            ApplyInput::StartRequested => if phase == ApplyPhase::Idle {
                r.0 == ApplyPhase::AwaitingDirectories && r.1 is SendEnsureDirectories
            } else {
                r.0 == phase && r.1 is Nothing
            },
            ApplyInput::DirectoriesAnswered { response } => if phase
                == ApplyPhase::AwaitingDirectories {
                match response {
                    Some(HelperResponse::Success) => r.0 == ApplyPhase::Rebuilding && (r.1 matches ApplyOutput::SendApply { request, log }
                        && is_apply_request(request, *state) && log@
                        == "Directories ready.\nGenerating configuration and running nixos-rebuild switch...\n\n"@),
                    _ => r.0 == ApplyPhase::Idle && (r.1 matches ApplyOutput::Finished { success, text }
                        && !success && text@ == directories_failure_text(response)),
                }
            } else {
                r.0 == phase && r.1 is Nothing
            },
            ApplyInput::HelperAnswered { response } => if phase == ApplyPhase::Rebuilding {
                match response {
                    HelperResponse::Log { level, message } => r.0 == ApplyPhase::Rebuilding && (
                    r.1 matches ApplyOutput::Log { text } && text@ == "["@ + level.spec_as_str()
                        + "] "@ + message@ + "\n"@),
                    HelperResponse::ApplyComplete { success, message } => r.0 == ApplyPhase::Idle
                        && (r.1 matches ApplyOutput::Finished { success: s, text } && s == success
                        && text@ == "\n"@ + message@ + "\n"@),
                    HelperResponse::Error { message, details } => r.0 == ApplyPhase::Idle && (
                    r.1 matches ApplyOutput::Finished { success, text } && !success && text@
                        == error_text("\nError: "@, message@, opt_view(details))),
                    _ => r.0 == ApplyPhase::Rebuilding && r.1 is Nothing,
                }
            } else {
                r.0 == phase && r.1 is Nothing
            },
        },
{
    match input {
        ApplyInput::StartRequested => {
            if phase == ApplyPhase::Idle {
                (ApplyPhase::AwaitingDirectories, ApplyOutput::SendEnsureDirectories)
            } else {
                (phase, ApplyOutput::Nothing)
            }
        },
        ApplyInput::DirectoriesAnswered { response } => {
            if phase != ApplyPhase::AwaitingDirectories {
                return (phase, ApplyOutput::Nothing);
            }
            match directories_event(&response) {
                ApplyEvent::Log { .. } => {
                    let log = owned(
                        "Directories ready.\nGenerating configuration and running nixos-rebuild switch...\n\n",
                    );
                    let request = HelperRequest::Apply {
                        selected_profile: crate::actions::clone_opt(&state.selected_profile),
                        enabled_bundles: crate::text::clone_strings(&state.enabled_bundles),
                        hostname: crate::actions::clone_opt(&state.hostname),
                        rebuild_type: RebuildType::Switch,
                    };
                    (ApplyPhase::Rebuilding, ApplyOutput::SendApply { request, log })
                },
                ApplyEvent::Finished { success, text } => (
                    ApplyPhase::Idle,
                    ApplyOutput::Finished { success, text },
                ),
                ApplyEvent::Ignored => (ApplyPhase::Idle, ApplyOutput::Nothing),
            }
        },
        ApplyInput::HelperAnswered { response } => {
            if phase != ApplyPhase::Rebuilding {
                return (phase, ApplyOutput::Nothing);
            }
            match apply_event(&response) {
                ApplyEvent::Log { text } => (ApplyPhase::Rebuilding, ApplyOutput::Log { text }),
                ApplyEvent::Finished { success, text } => (
                    ApplyPhase::Idle,
                    ApplyOutput::Finished { success, text },
                ),
                ApplyEvent::Ignored => (ApplyPhase::Rebuilding, ApplyOutput::Nothing),
            }
        },
    }
}

/// The status label and the closing log line of a finished apply.
pub fn finish_apply_messages(success: bool) -> (r: (&'static str, &'static str))
    ensures
        success ==> r.0@ == "\u{2713} Complete"@ && r.1@
            == "\n\u{2713} Configuration applied successfully!\n"@,
        !success ==> r.0@ == "\u{2717} Failed"@ && r.1@
            == "\n\u{2717} Apply failed. Check the log above for details.\n"@,
{
    if success {
        ("\u{2713} Complete", "\n\u{2713} Configuration applied successfully!\n")
    } else {
        ("\u{2717} Failed", "\n\u{2717} Apply failed. Check the log above for details.\n")
    }
}

/// The bundles of `table` that the state enables, in the table's order.
pub open spec fn enabled_in_table(table: Seq<BundleView>, enabled: Set<Seq<char>>) -> Seq<BundleView>
    decreases table.len(),
{
    if table.len() == 0 {
        Seq::empty()
    } else {
        enabled_in_table(table.drop_last(), enabled) + if enabled.contains(table.last().id) {
            seq![table.last()]
        } else {
            Seq::empty()
        }
    }
}

/// The profile and bundles of the registry that the state selects, for the
/// preview: the profile with the selected id, and the enabled bundles in
/// the registry's order.
pub fn preview_selection<'a>(
    state: &crate::state::AppState,
    profiles: &'a Vec<crate::actions::ProfileDef>,
    bundles: &'a Vec<BundleDef>,
) -> (r: (Option<&'a crate::actions::ProfileDef>, Vec<&'a BundleDef>))
    requires
        state.wf(),
    ensures
        match state@.selected_profile {
            Some(id) => match r.0 {
                Some(p) => crate::actions::find_profile(
                    crate::actions::profile_views(profiles@),
                    id,
                ) == Some(p@),
                None => crate::actions::find_profile(
                    crate::actions::profile_views(profiles@),
                    id,
                ) is None,
            },
            None => r.0 is None,
        },
        r.1@.map_values(|b: &BundleDef| b@) == enabled_in_table(
            crate::actions::bundle_views(bundles@),
            state@.enabled_bundles,
        ),
{
    let profile = match &state.selected_profile {
        Some(id) => match crate::actions::lookup_profile(profiles, id.as_str()) {
            Some(i) => Some(&profiles[i]),
            None => None,
        },
        None => None,
    };
    let ghost table = crate::actions::bundle_views(bundles@);
    let mut chosen: Vec<&'a BundleDef> = Vec::new();
    let mut i: usize = 0;
    assert(table.take(0) =~= Seq::<BundleView>::empty());
    assert(chosen@.map_values(|b: &BundleDef| b@) =~= Seq::<BundleView>::empty());
    while i < bundles.len()
        invariant
            i <= bundles@.len(),
            table == crate::actions::bundle_views(bundles@),
            chosen@.map_values(|b: &BundleDef| b@) == enabled_in_table(
                table.take(i as int),
                state@.enabled_bundles,
            ),
        decreases bundles@.len() - i,
    {
        assert(table.take(i + 1).drop_last() =~= table.take(i as int));
        assert(table.take(i + 1).last() == bundles@[i as int]@);
        if state.is_bundle_enabled(bundles[i].id.as_str()) {
            let b = &bundles[i];
            assert(chosen@.push(b).map_values(|b: &BundleDef| b@) =~= chosen@.map_values(
                |b: &BundleDef| b@,
            ) + seq![b@]);
            chosen.push(b);
        } else {
            assert(chosen@.map_values(|b: &BundleDef| b@) =~= chosen@.map_values(|b: &BundleDef| b@)
                + Seq::<BundleView>::empty());
        }
        i = i + 1;
    }
    assert(table.take(i as int) =~= table);
    (profile, chosen)
}

/// The packages chosen in one bundle.
#[derive(Debug, Clone)]
pub struct BundleChoice {
    pub bundle_id: String,
    pub packages: Vec<String>,
}

/// Which packages are enabled in which bundle, as the bundles page tracks
/// them.
#[derive(Debug, Clone)]
pub struct BundleSelection {
    pub entries: Vec<BundleChoice>,
}

/// The ids of the bundles of `e`.
pub open spec fn choice_ids(e: Seq<BundleChoice>) -> Seq<Seq<char>> {
    e.map_values(|c: BundleChoice| c.bundle_id@)
}

/// The package set of each bundle of `e`.
pub open spec fn choice_map(e: Seq<BundleChoice>) -> Map<Seq<char>, Set<Seq<char>>>
    decreases e.len(),
{
    if e.len() == 0 {
        Map::empty()
    } else {
        choice_map(e.drop_last()).insert(e.last().bundle_id@, set_of(e.last().packages@))
    }
}

/// Every package of every bundle.
pub open spec fn all_packages(m: Map<Seq<char>, Set<Seq<char>>>) -> Set<Seq<char>> {
    Set::new(|p: Seq<char>| exists|id: Seq<char>| m.dom().contains(id) && #[trigger] m[id].contains(p))
}

/// The bundles with at least one package.
pub open spec fn bundles_in_use(m: Map<Seq<char>, Set<Seq<char>>>) -> Set<Seq<char>> {
    Set::new(|id: Seq<char>| m.dom().contains(id) && m[id].len() > 0)
}

proof fn lemma_choice_dom(e: Seq<BundleChoice>)
    ensures
        choice_map(e).dom() == choice_ids(e).to_set(),
    decreases e.len(),
{
    if e.len() > 0 {
        lemma_choice_dom(e.drop_last());
        assert(choice_ids(e.drop_last()) =~= choice_ids(e).drop_last());
        assert(choice_map(e).dom() =~= choice_ids(e).to_set()) by {
            assert forall|x: Seq<char>| choice_map(e).dom().contains(x) <==> choice_ids(e).contains(x) by {
                if choice_ids(e).contains(x) {
                    let k = choose|k: int| 0 <= k < choice_ids(e).len() && choice_ids(e)[k] == x;
                    if k < e.len() - 1 {
                        assert(choice_ids(e.drop_last())[k] == x);
                    }
                }
                if choice_ids(e.drop_last()).contains(x) {
                    let k = choose|k: int| 0 <= k < choice_ids(e.drop_last()).len() && choice_ids(e.drop_last())[k] == x;
                    assert(choice_ids(e)[k] == x);
                }
                if x == e.last().bundle_id@ {
                    assert(choice_ids(e)[e.len() - 1] == x);
                }
            }
        }
    }
}

proof fn lemma_choice_update(e: Seq<BundleChoice>, i: int, c: BundleChoice)
    requires
        distinct(choice_ids(e)),
        0 <= i < e.len(),
        c.bundle_id@ == e[i].bundle_id@,
    ensures
        choice_map(e.update(i, c)) == choice_map(e).insert(c.bundle_id@, set_of(c.packages@)),
    decreases e.len(),
{
    let f = e.update(i, c);
    if i == e.len() - 1 {
        assert(f.drop_last() =~= e.drop_last());
        assert(choice_map(f) =~= choice_map(e).insert(c.bundle_id@, set_of(c.packages@)));
    } else {
        assert(f.drop_last() =~= e.drop_last().update(i, c));
        assert(distinct(choice_ids(e.drop_last()))) by {
            assert(choice_ids(e.drop_last()) =~= choice_ids(e).drop_last());
        }
        lemma_choice_update(e.drop_last(), i, c);
        assert(choice_ids(e)[i] != choice_ids(e)[e.len() - 1]);
        assert(choice_map(f) =~= choice_map(e).insert(c.bundle_id@, set_of(c.packages@)));
    }
}

proof fn lemma_choice_remove(e: Seq<BundleChoice>, i: int)
    requires
        distinct(choice_ids(e)),
        0 <= i < e.len(),
    ensures
        choice_map(e.remove(i)) == choice_map(e).remove(e[i].bundle_id@),
        distinct(choice_ids(e.remove(i))),
    decreases e.len(),
{
    let f = e.remove(i);
    assert(choice_ids(f) =~= choice_ids(e).remove(i));
    assert(choice_ids(e.drop_last()) =~= choice_ids(e).drop_last());
    if i == e.len() - 1 {
        assert(f =~= e.drop_last());
        lemma_choice_dom(e.drop_last());
        assert(!choice_ids(e.drop_last()).contains(e[i].bundle_id@)) by {
            if choice_ids(e.drop_last()).contains(e[i].bundle_id@) {
                let k = choose|k: int| 0 <= k < choice_ids(e.drop_last()).len() && choice_ids(e.drop_last())[k] == e[i].bundle_id@;
                assert(choice_ids(e)[k] != choice_ids(e)[i]);
            }
        }
        assert(choice_map(f) =~= choice_map(e).remove(e[i].bundle_id@));
    } else {
        assert(f.drop_last() =~= e.drop_last().remove(i));
        assert(f.last() == e.last());
        lemma_choice_remove(e.drop_last(), i);
        assert(choice_ids(e)[i] != choice_ids(e)[e.len() - 1]);
        assert(choice_map(f) =~= choice_map(e).remove(e[i].bundle_id@));
    }
    assert forall|a: int, b: int| 0 <= a < b < choice_ids(f).len() implies choice_ids(f)[a] != choice_ids(f)[b] by {
        if b < i {
        } else if a < i {
            assert(choice_ids(f)[b] == choice_ids(e)[b + 1]);
        } else {
            assert(choice_ids(f)[a] == choice_ids(e)[a + 1]);
            assert(choice_ids(f)[b] == choice_ids(e)[b + 1]);
        }
    }
}

/// Where the bundle `id` stands in `e`, if it does.
fn choice_position(e: &Vec<BundleChoice>, id: &str) -> (r: Option<usize>)
    ensures
        match r {
            Some(i) => i < e@.len() && e@[i as int].bundle_id@ == id@,
            None => !choice_ids(e@).contains(id@),
        },
{
    let key = owned(id);
    let mut i: usize = 0;
    while i < e.len()
        invariant
            i <= e@.len(),
            key@ == id@,
            forall|k: int| 0 <= k < i ==> e@[k].bundle_id@ != id@,
        decreases e@.len() - i,
    {
        if e[i].bundle_id == key {
            return Some(i);
        }
        i = i + 1;
    }
    assert forall|k: int| 0 <= k < choice_ids(e@).len() implies choice_ids(e@)[k] != id@ by {
        assert(choice_ids(e@)[k] == e@[k].bundle_id@);
    }
    None
}

impl BundleSelection {
    /// Each bundle appears once, each package once in its bundle.
    pub open spec fn wf(&self) -> bool {
        &&& distinct(choice_ids(self.entries@))
        &&& forall|i: int|
            0 <= i < self.entries@.len() ==> distinct(views(#[trigger] self.entries@[i].packages@))
    }

    /// The package set of each bundle that has an entry.
    pub open spec fn map(&self) -> Map<Seq<char>, Set<Seq<char>>> {
        choice_map(self.entries@)
    }

    /// No package chosen anywhere.
    pub fn new() -> (r: BundleSelection)
        ensures
            r.wf(),
            r.map() == Map::<Seq<char>, Set<Seq<char>>>::empty(),
    {
        let r = BundleSelection { entries: Vec::new() };
        assert(choice_ids(r.entries@) =~= Seq::<Seq<char>>::empty());
        r
    }

    /// Enable a bundle with all of its packages, or disable it.
    pub fn toggle_bundle(&mut self, bundle_id: &str, enabled: bool, packages: &Vec<String>)
        requires
            old(self).wf(),
        ensures
            final(self).wf(),
            final(self).map() == (if enabled {
                old(self).map().insert(bundle_id@, set_of(packages@))
            } else {
                old(self).map().remove(bundle_id@)
            }),
    {
        let ghost e0 = self.entries@;
        match choice_position(&self.entries, bundle_id) {
            Some(i) => {
                if enabled {
                    let c = BundleChoice { bundle_id: owned(bundle_id), packages: dedup(packages) };
                    proof {
                        lemma_choice_update(e0, i as int, c);
                    }
                    self.entries.set(i, c);
                    assert(self.entries@ == e0.update(i as int, c));
                    assert(choice_ids(self.entries@) =~= choice_ids(e0));
                    assert forall|k: int| 0 <= k < self.entries@.len() implies distinct(
                        views(#[trigger] self.entries@[k].packages@),
                    ) by {
                        if k != i {
                            assert(self.entries@[k] == e0[k]);
                        }
                    }
                } else {
                    proof {
                        lemma_choice_remove(e0, i as int);
                    }
                    self.entries.remove(i);
                    assert forall|k: int| 0 <= k < self.entries@.len() implies distinct(
                        views(#[trigger] self.entries@[k].packages@),
                    ) by {
                        if k < i {
                            assert(self.entries@[k] == e0[k]);
                        } else {
                            assert(self.entries@[k] == e0[k + 1]);
                        }
                    }
                }
            },
            None => {
                proof {
                    lemma_choice_dom(e0);
                }
                if enabled {
                    let c = BundleChoice { bundle_id: owned(bundle_id), packages: dedup(packages) };
                    self.entries.push(c);
                    assert(self.entries@.drop_last() =~= e0);
                    assert(choice_ids(self.entries@) =~= choice_ids(e0).push(bundle_id@));
                    assert forall|a: int, b: int|
                        0 <= a < b < choice_ids(self.entries@).len() implies choice_ids(
                        self.entries@,
                    )[a] != choice_ids(self.entries@)[b] by {
                        if b == e0.len() {
                            assert(choice_ids(e0)[a] != bundle_id@);
                        } else {
                            assert(choice_ids(e0)[a] != choice_ids(e0)[b]);
                        }
                    }
                    assert forall|k: int| 0 <= k < self.entries@.len() implies distinct(
                        views(#[trigger] self.entries@[k].packages@),
                    ) by {
                        if k < e0.len() {
                            assert(self.entries@[k] == e0[k]);
                        }
                    }
                } else {
                    assert(choice_map(e0).remove(bundle_id@) =~= choice_map(e0));
                }
            },
        }
    }

    /// Enable or disable one package of a bundle; the bundle gets an entry
    /// (empty at first) if it had none.
    pub fn toggle_package(&mut self, bundle_id: &str, package: &str, enabled: bool)
        requires
            old(self).wf(),
        ensures
            final(self).wf(),
            final(self).map() == old(self).map().insert(
                bundle_id@,
                if enabled {
                    (if old(self).map().dom().contains(bundle_id@) {
                        old(self).map()[bundle_id@]
                    } else {
                        Set::empty()
                    }).insert(package@)
                } else {
                    (if old(self).map().dom().contains(bundle_id@) {
                        old(self).map()[bundle_id@]
                    } else {
                        Set::empty()
                    }).remove(package@)
                },
            ),
    {
        let ghost e0 = self.entries@;
        proof {
            lemma_choice_dom(e0);
        }
        let i = match choice_position(&self.entries, bundle_id) {
            Some(i) => i,
            None => {
                let c = BundleChoice { bundle_id: owned(bundle_id), packages: Vec::new() };
                assert(views(c.packages@) =~= Seq::<Seq<char>>::empty());
                assert(set_of(c.packages@) =~= Set::<Seq<char>>::empty());
                self.entries.push(c);
                assert(self.entries@.drop_last() =~= e0);
                assert(choice_ids(self.entries@) =~= choice_ids(e0).push(bundle_id@));
                assert forall|a: int, b: int|
                    0 <= a < b < choice_ids(self.entries@).len() implies choice_ids(
                    self.entries@,
                )[a] != choice_ids(self.entries@)[b] by {
                    if b == e0.len() {
                        assert(choice_ids(e0)[a] != bundle_id@);
                    } else {
                        assert(choice_ids(e0)[a] != choice_ids(e0)[b]);
                    }
                }
                assert forall|k: int| 0 <= k < self.entries@.len() implies distinct(
                    views(#[trigger] self.entries@[k].packages@),
                ) by {
                    if k < e0.len() {
                        assert(self.entries@[k] == e0[k]);
                    }
                }
                self.entries.len() - 1
            },
        };
        let ghost e1 = self.entries@;
        assert(choice_map(e1).dom().contains(bundle_id@) && choice_map(e1)[bundle_id@] == (if choice_map(
            e0,
        ).dom().contains(bundle_id@) {
            choice_map(e0)[bundle_id@]
        } else {
            Set::empty()
        })) by {
            lemma_choice_update(e1, i as int, e1[i as int]);
            assert(e1.update(i as int, e1[i as int]) =~= e1);
        }
        assert(set_of(e1[i as int].packages@) == choice_map(e1)[bundle_id@]) by {
            lemma_choice_update(e1, i as int, e1[i as int]);
            assert(e1.update(i as int, e1[i as int]) =~= e1);
        }
        let mut c = self.entries.remove(i);
        if enabled {
            set_insert(&mut c.packages, package);
        } else {
            set_remove(&mut c.packages, package);
        }
        self.entries.insert(i, c);
        proof {
            assert(self.entries@ =~= e1.update(i as int, c));
            lemma_choice_update(e1, i as int, c);
            assert(choice_ids(self.entries@) =~= choice_ids(e1));
            assert forall|k: int| 0 <= k < self.entries@.len() implies distinct(
                views(#[trigger] self.entries@[k].packages@),
            ) by {
                if k != i {
                    assert(self.entries@[k] == e1[k]);
                }
            }
            assert(choice_map(e1).insert(bundle_id@, set_of(c.packages@)) =~= choice_map(e0).insert(
                bundle_id@,
                set_of(c.packages@),
            ));
        }
    }
}

/// The strings of `s` are in strictly increasing string order.
pub open spec fn sorted_strictly(s: Seq<Seq<char>>) -> bool {
    forall|i: int, j: int| 0 <= i < j < s.len() ==> crate::text::lex_lt(s[i], s[j])
}

/// A sorted list of strings is determined by its set: two strictly sorted
/// lists with the same strings are equal.
pub proof fn law_sorted_unique(a: Seq<Seq<char>>, b: Seq<Seq<char>>)
    requires
        sorted_strictly(a),
        sorted_strictly(b),
        a.to_set() == b.to_set(),
    ensures
        a == b,
    decreases a.len(),
{
    if a.len() == 0 {
        if b.len() > 0 {
            assert(b.to_set().contains(b[0]));
        }
        assert(a =~= b);
    } else if b.len() == 0 {
        assert(a.to_set().contains(a[0]));
    } else {
        assert(a.to_set().contains(a[0]));
        assert(b.to_set().contains(b[0]));
        let k = choose|k: int| 0 <= k < b.len() && b[k] == a[0];
        let m = choose|m: int| 0 <= m < a.len() && a[m] == b[0];
        if a[0] != b[0] {
            crate::text::lemma_lex_order(a[0], b[0], a[0]);
            assert(k > 0 && m > 0);
            assert(crate::text::lex_lt(b[0], b[k]));
            assert(crate::text::lex_lt(a[0], a[m]));
        }
        let a1 = a.drop_first();
        let b1 = b.drop_first();
        assert(a1.to_set() =~= b1.to_set()) by {
            assert forall|x: Seq<char>| a1.to_set().contains(x) <==> b1.to_set().contains(x) by {
                if a1.contains(x) {
                    let i = choose|i: int| 0 <= i < a1.len() && a1[i] == x;
                    assert(a[i + 1] == x);
                    assert(crate::text::lex_lt(a[0], a[i + 1]));
                    crate::text::lemma_lex_order(a[0], x, a[0]);
                    assert(b.to_set().contains(x));
                    let j = choose|j: int| 0 <= j < b.len() && b[j] == x;
                    assert(j != 0);
                    assert(b1[j - 1] == x);
                }
                if b1.contains(x) {
                    let i = choose|i: int| 0 <= i < b1.len() && b1[i] == x;
                    assert(b[i + 1] == x);
                    assert(crate::text::lex_lt(b[0], b[i + 1]));
                    crate::text::lemma_lex_order(b[0], x, b[0]);
                    assert(a.to_set().contains(x));
                    let j = choose|j: int| 0 <= j < a.len() && a[j] == x;
                    assert(j != 0);
                    assert(a1[j - 1] == x);
                }
            }
        }
        law_sorted_unique(a1, b1);
        assert(a =~= seq![a[0]] + a1);
        assert(b =~= seq![b[0]] + b1);
    }
}

/// Puts `x` into the sorted list `v`, unless it is there.
fn sorted_insert(v: &mut Vec<String>, x: &str)
    requires
        sorted_strictly(views(old(v)@)),
    ensures
        sorted_strictly(views(final(v)@)),
        set_of(final(v)@) == set_of(old(v)@).insert(x@),
{
    let ghost w = views(v@);
    let mut k: usize = 0;
    while k < v.len() && crate::text::str_lt(v[k].as_str(), x)
        invariant
            k <= v@.len(),
            w == views(v@),
            forall|j: int| 0 <= j < k ==> crate::text::lex_lt(w[j], x@),
        decreases v@.len() - k,
    {
        assert(w[k as int] == v@[k as int]@);
        k = k + 1;
    }
    if k < v.len() && crate::text::str_eq(v[k].as_str(), x) {
        assert(w[k as int] == x@);
        assert(set_of(v@).insert(x@) =~= set_of(v@));
        return;
    }
    if k < v.len() {
        proof {
            assert(w[k as int] == v@[k as int]@);
            crate::text::lemma_lex_order(x@, w[k as int], x@);
            assert(crate::text::lex_lt(x@, w[k as int]));
        }
    }
    let ghost old_v = v@;
    let sx = owned(x);
    v.insert(k, sx);
    let ghost nw = views(v@);
    assert(nw =~= w.insert(k as int, x@));
    assert forall|i: int, j: int| 0 <= i < j < nw.len() implies crate::text::lex_lt(nw[i], nw[j]) by {
        if j < k {
        } else if i < k && j == k {
        } else if i < k && j > k {
            assert(nw[j] == w[j - 1]);
            crate::text::lemma_lex_order(w[i], x@, w[j - 1]);
            if j - 1 > k {
                assert(crate::text::lex_lt(w[k as int], w[j - 1]));
                crate::text::lemma_lex_order(x@, w[k as int], w[j - 1]);
            }
        } else if i == k {
            assert(nw[j] == w[j - 1]);
            if j - 1 > k {
                assert(crate::text::lex_lt(w[k as int], w[j - 1]));
                crate::text::lemma_lex_order(x@, w[k as int], w[j - 1]);
            }
        } else {
            assert(nw[i] == w[i - 1] && nw[j] == w[j - 1]);
        }
    }
    assert(set_of(v@) =~= set_of(old_v).insert(x@)) by {
        assert forall|y: Seq<char>| nw.contains(y) <==> w.to_set().insert(x@).contains(y) by {
            if nw.contains(y) {
                let i = choose|i: int| 0 <= i < nw.len() && nw[i] == y;
                if i < k {
                    assert(w[i] == y);
                } else if i > k {
                    assert(w[i - 1] == y);
                }
            }
            if w.contains(y) {
                let i = choose|i: int| 0 <= i < w.len() && w[i] == y;
                if i < k {
                    assert(nw[i] == y);
                } else {
                    assert(nw[i + 1] == y);
                }
            }
            if y == x@ {
                assert(nw[k as int] == y);
            }
        }
    }
}

/// The packages of the first `n` entries of `e`.
pub open spec fn packages_upto(e: Seq<BundleChoice>, n: int) -> Set<Seq<char>>
    decreases n,
{
    if n <= 0 {
        Set::empty()
    } else {
        packages_upto(e, n - 1).union(set_of(e[n - 1].packages@))
    }
}

/// The bundles with at least one package among the first `n` entries of `e`.
pub open spec fn used_upto(e: Seq<BundleChoice>, n: int) -> Set<Seq<char>>
    decreases n,
{
    if n <= 0 {
        Set::empty()
    } else if e[n - 1].packages@.len() > 0 {
        used_upto(e, n - 1).insert(e[n - 1].bundle_id@)
    } else {
        used_upto(e, n - 1)
    }
}

proof fn lemma_packages_upto(e: Seq<BundleChoice>)
    requires
        distinct(choice_ids(e)),
    ensures
        packages_upto(e, e.len() as int) == all_packages(choice_map(e)),
        used_upto(e, e.len() as int) == bundles_in_use(choice_map(e)),
    decreases e.len(),
{
    if e.len() > 0 {
        let d = e.drop_last();
        assert(choice_ids(d) =~= choice_ids(e).drop_last());
        lemma_packages_upto(d);
        lemma_upto_prefix(e, e.len() - 1);
        lemma_choice_dom(d);
        let id = e.last().bundle_id@;
        assert(!choice_map(d).dom().contains(id)) by {
            if choice_ids(d).contains(id) {
                let k = choose|k: int| 0 <= k < choice_ids(d).len() && choice_ids(d)[k] == id;
                assert(choice_ids(e)[k] != choice_ids(e)[e.len() - 1]);
            }
        }
        let m = choice_map(e);
        assert(m == choice_map(d).insert(id, set_of(e.last().packages@)));
        assert(all_packages(m) =~= all_packages(choice_map(d)).union(set_of(e.last().packages@))) by {
            assert forall|p: Seq<char>| all_packages(m).contains(p) <==> all_packages(choice_map(d)).union(
                set_of(e.last().packages@),
            ).contains(p) by {
                if all_packages(m).contains(p) {
                    let k = choose|k: Seq<char>| m.dom().contains(k) && #[trigger] m[k].contains(p);
                    if k != id {
                        assert(choice_map(d).dom().contains(k) && choice_map(d)[k].contains(p));
                    }
                }
                if all_packages(choice_map(d)).contains(p) {
                    let k = choose|k: Seq<char>| choice_map(d).dom().contains(k) && #[trigger] choice_map(
                        d,
                    )[k].contains(p);
                    assert(k != id);
                    assert(m.dom().contains(k) && m[k].contains(p));
                }
                if set_of(e.last().packages@).contains(p) {
                    assert(m.dom().contains(id) && m[id].contains(p));
                }
            }
        }
        assert(bundles_in_use(m) =~= used_upto(e, e.len() as int)) by {
            assert(e[e.len() - 1] == e.last());
            if e.last().packages@.len() > 0 {
                assert(views(e.last().packages@)[0] == e.last().packages@[0]@);
                assert(set_of(e.last().packages@).contains(e.last().packages@[0]@));
                assert(set_of(e.last().packages@).len() > 0) by {
                    vstd::set_lib::lemma_set_empty_equivalency_len(set_of(e.last().packages@));
                }
            } else {
                assert(set_of(e.last().packages@) =~= Set::<Seq<char>>::empty());
            }
        }
    }
}

proof fn lemma_upto_prefix(e: Seq<BundleChoice>, n: int)
    requires
        0 <= n <= e.len(),
    ensures
        packages_upto(e, n) == packages_upto(e.take(n), n),
        used_upto(e, n) == used_upto(e.take(n), n),
    decreases n,
{
    if n > 0 {
        lemma_upto_prefix(e, n - 1);
        lemma_upto_prefix(e.take(n), n - 1);
        assert(e.take(n).take(n - 1) =~= e.take(n - 1));
        assert(e.take(n)[n - 1] == e[n - 1]);
    }
}

impl BundleSelection {
    /// Every enabled package, across all bundles, each once.
    pub fn enabled_packages(&self) -> (r: Vec<String>)
        requires
            self.wf(),
        ensures
            distinct(views(r@)),
            set_of(r@) == all_packages(self.map()),
    {
        let mut r: Vec<String> = Vec::new();
        let mut i: usize = 0;
        assert(set_of(r@) =~= Set::<Seq<char>>::empty());
        while i < self.entries.len()
            invariant
                i <= self.entries@.len(),
                distinct(views(r@)),
                set_of(r@) == packages_upto(self.entries@, i as int),
            decreases self.entries@.len() - i,
        {
            let ps = &self.entries[i].packages;
            let ghost before = set_of(r@);
            let mut j: usize = 0;
            assert(before.union(set_of(ps@.take(0))) =~= before);
            while j < ps.len()
                invariant
                    j <= ps@.len(),
                    distinct(views(r@)),
                    set_of(r@) == before.union(set_of(ps@.take(j as int))),
                decreases ps@.len() - j,
            {
                set_insert(&mut r, ps[j].as_str());
                assert(set_of(ps@.take(j + 1)) == set_of(ps@.take(j as int)).insert(ps@[j as int]@))
                    by {
                    assert(ps@.take(j + 1) =~= ps@.take(j as int).push(ps@[j as int]));
                    crate::strset::lemma_push(ps@.take(j as int), ps@[j as int]);
                }
                assert(before.union(set_of(ps@.take(j + 1))) =~= before.union(
                    set_of(ps@.take(j as int)),
                ).insert(ps@[j as int]@));
                j = j + 1;
            }
            assert(ps@.take(j as int) =~= ps@);
            i = i + 1;
        }
        proof {
            lemma_packages_upto(self.entries@);
        }
        r
    }

    /// The bundles with at least one enabled package.
    pub fn enabled_bundles(&self) -> (r: Vec<String>)
        requires
            self.wf(),
        ensures
            distinct(views(r@)),
            set_of(r@) == bundles_in_use(self.map()),
    {
        let mut r: Vec<String> = Vec::new();
        let mut i: usize = 0;
        assert(set_of(r@) =~= Set::<Seq<char>>::empty());
        while i < self.entries.len()
            invariant
                i <= self.entries@.len(),
                distinct(views(r@)),
                set_of(r@) == used_upto(self.entries@, i as int),
            decreases self.entries@.len() - i,
        {
            if self.entries[i].packages.len() > 0 {
                set_insert(&mut r, self.entries[i].bundle_id.as_str());
            }
            i = i + 1;
        }
        proof {
            lemma_packages_upto(self.entries@);
        }
        r
    }

    /// The enabled packages of one bundle (none when it has no entry).
    pub fn bundle_packages(&self, bundle_id: &str) -> (r: Vec<String>)
        requires
            self.wf(),
        ensures
            distinct(views(r@)),
            set_of(r@) == (if self.map().dom().contains(bundle_id@) {
                self.map()[bundle_id@]
            } else {
                Set::empty()
            }),
    {
        proof {
            lemma_choice_dom(self.entries@);
        }
        match choice_position(&self.entries, bundle_id) {
            Some(i) => {
                proof {
                    lemma_choice_update(self.entries@, i as int, self.entries@[i as int]);
                    assert(self.entries@.update(i as int, self.entries@[i as int]) =~= self.entries@);
                }
                dedup(&self.entries[i].packages)
            },
            None => {
                let r: Vec<String> = Vec::new();
                assert(set_of(r@) =~= Set::<Seq<char>>::empty());
                r
            },
        }
    }

    /// The summary of the selection: every enabled package once, in string
    /// order, separated by commas, or a note that there is none.
    pub fn summary_text(&self) -> (r: String)
        requires
            self.wf(),
        ensures
            exists|s: Seq<Seq<char>>|
                sorted_strictly(s) && s.to_set() == all_packages(self.map()) && r@ == (if s.len()
                    == 0 {
                    "No packages selected"@
                } else {
                    crate::text::join(s, ", "@)
                }),
    {
        let all = self.enabled_packages();
        let mut sorted: Vec<String> = Vec::new();
        let mut i: usize = 0;
        assert(set_of(sorted@) =~= set_of(all@.take(0)));
        while i < all.len()
            invariant
                i <= all@.len(),
                sorted_strictly(views(sorted@)),
                set_of(sorted@) == set_of(all@.take(i as int)),
            decreases all@.len() - i,
        {
            sorted_insert(&mut sorted, all[i].as_str());
            proof {
                assert(all@.take(i + 1) =~= all@.take(i as int).push(all@[i as int]));
                crate::strset::lemma_push(all@.take(i as int), all@[i as int]);
            }
            i = i + 1;
        }
        assert(all@.take(i as int) =~= all@);
        let r = if sorted.len() == 0 {
            owned("No packages selected")
        } else {
            crate::text::join_strings(&sorted, ", ")
        };
        assert(views(sorted@).len() == sorted@.len());
        r
    }
}

} // verus!
