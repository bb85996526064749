//! What the installation environment tells about itself, and the records
//! that are handed on to the installer proper.

use crate::options::{
    sort_disks, sorted_by_index, with_index, BtrfsBootdiskOptions, BtrfsCompressOption, Disk,
    ZfsBootdiskOptions, ZfsChecksumOption, ZfsCompressOption,
};
use crate::utils::{CidrAddress, IpAddr};
use std::collections::{BTreeMap, HashMap};
use std::path::PathBuf;
use vstd::prelude::*;
use vstd::std_specs::convert::FromSpecImpl;

verus! {

#[verifier::external_type_specification]
#[verifier::external_body]
pub struct ExPathBuf(std::path::PathBuf);

/// The product an installation medium was built for.
#[derive(Clone, Copy, Debug, PartialEq, Eq, Structural)]
pub enum ProxmoxProduct {
    PVE,
    PBS,
    PMG,
}

impl ProxmoxProduct {
    /// The product's short name, in lower case.
    pub open spec fn short_name(self) -> Seq<char> {
        match self {
            ProxmoxProduct::PVE => "pve"@,
            ProxmoxProduct::PMG => "pmg"@,
            ProxmoxProduct::PBS => "pbs"@,
        }
    }

    /// The host name proposed for a new installation: the product's short
    /// name.
    pub fn default_hostname(self) -> (name: &'static str)
        ensures
            name@ == self.short_name(),
    {
        match self {
            ProxmoxProduct::PVE => "pve",
            ProxmoxProduct::PMG => "pmg",
            ProxmoxProduct::PBS => "pbs",
        }
    }

    /// The product as text: its short name.
    pub fn to_string(&self) -> (name: String)
        ensures
            name@ == self.short_name(),
    {
        self.default_hostname().to_owned()
    }
}

#[derive(Clone, Debug, PartialEq, Eq)]
pub struct ProductConfig {
    pub fullname: String,
    pub product: ProxmoxProduct,
    pub enable_btrfs: bool,
}

impl ProductConfig {
    /// A mocked ProductConfig simulating a Proxmox VE environment.
    pub fn mocked() -> (config: ProductConfig)
        ensures
            config.fullname@ == "Proxmox VE (mocked)"@,
            config.product == ProxmoxProduct::PVE,
            config.enable_btrfs,
    {
        ProductConfig {
            fullname: "Proxmox VE (mocked)".to_owned(),
            product: ProxmoxProduct::PVE,
            enable_btrfs: true,
        }
    }
}

#[derive(Clone, Debug, PartialEq, Eq)]
pub struct IsoInfo {
    pub release: String,
    pub isorelease: String,
}

impl IsoInfo {
    /// A mocked IsoInfo with some edge case to convey that this is not necessarily purely numeric.
    pub fn mocked() -> (info: IsoInfo)
        ensures
            info.release@ == "42.1"@,
            info.isorelease@ == "mocked-1"@,
    {
        IsoInfo { release: "42.1".to_owned(), isorelease: "mocked-1".to_owned() }
    }
}

/// Calls `PathBuf::from` on a text.
#[verifier::external_body]
fn path_from(text: &str) -> PathBuf {
    PathBuf::from(text)
}

/// Calls `Path::join`: the directory followed by one more component.
#[verifier::external_body]
fn path_join(directory: &PathBuf, component: &str) -> PathBuf {
    directory.join(component)
}

/// Paths in the ISO environment containing installer data.
pub struct IsoLocations {
    pub iso: PathBuf,
    pub lib: PathBuf,
}

impl IsoLocations {
    /// Mocked locations below the working directory: the directory itself
    /// as the medium, its `run` directory as the library. Without a
    /// working directory both are `/dev/null`.
    pub fn mocked(working_directory: Option<PathBuf>) -> (locations: IsoLocations)
        ensures
            working_directory matches Some(directory) ==> locations.iso == directory,
    {
        match working_directory {
            Some(directory) => {
                let lib = path_join(&directory, "run");
                IsoLocations { iso: directory, lib }
            },
            None => IsoLocations { iso: path_from("/dev/null"), lib: path_from("/dev/null") },
        }
    }
}

pub struct SetupInfo {
    pub config: ProductConfig,
    pub iso_info: IsoInfo,
    pub locations: IsoLocations,
}

impl SetupInfo {
    /// A mocked setup that is close to a real one: the mocked product and
    /// release, at the mocked locations below the working directory.
    pub fn mocked(working_directory: Option<PathBuf>) -> (info: SetupInfo)
        ensures
            info.config.fullname@ == "Proxmox VE (mocked)"@,
            info.config.product == ProxmoxProduct::PVE,
            info.config.enable_btrfs,
            info.iso_info.release@ == "42.1"@,
            info.iso_info.isorelease@ == "mocked-1"@,
            working_directory matches Some(directory) ==> info.locations.iso == directory,
    {
        SetupInfo {
            config: ProductConfig::mocked(),
            iso_info: IsoInfo::mocked(),
            locations: IsoLocations::mocked(working_directory),
        }
    }
}

#[derive(Clone, Debug, PartialEq, Eq)]
pub struct CountryInfo {
    pub name: String,
    pub zone: String,
    pub kmap: String,
}

#[derive(Clone, Debug, PartialEq, Eq)]
pub struct KeyboardMapping {
    pub name: String,
    pub id: String,
    pub xkb_layout: String,
    pub xkb_variant: String,
}

#[derive(Clone)]
pub struct LocaleInfo {
    pub cczones: HashMap<String, Vec<String>>,
    pub countries: HashMap<String, CountryInfo>,
    pub kmap: HashMap<String, KeyboardMapping>,
}

/// The ZFS settings as the installer proper takes them.
#[derive(Clone, Copy, Debug, PartialEq, Eq, Structural)]
pub struct InstallZfsOption {
    pub ashift: usize,
    pub compress: ZfsCompressOption,
    pub checksum: ZfsChecksumOption,
    pub copies: usize,
    pub arc_max: usize,
}

impl FromSpecImpl<ZfsBootdiskOptions> for InstallZfsOption {
    open spec fn obeys_from_spec() -> bool {
        true
    }

    open spec fn from_spec(opts: ZfsBootdiskOptions) -> Self {
        InstallZfsOption {
            ashift: opts.ashift,
            compress: opts.compress,
            checksum: opts.checksum,
            copies: opts.copies,
            arc_max: opts.arc_max,
        }
    }
}

impl From<ZfsBootdiskOptions> for InstallZfsOption {
    /// Keeps the tunables of the pool and drops the choice of disks.
    fn from(opts: ZfsBootdiskOptions) -> (option: Self) {
        InstallZfsOption {
            ashift: opts.ashift,
            compress: opts.compress,
            checksum: opts.checksum,
            copies: opts.copies,
            arc_max: opts.arc_max,
        }
    }
}

/// The Btrfs settings as the installer proper takes them.
#[derive(Clone, Copy, Debug, PartialEq, Eq, Structural)]
pub struct InstallBtrfsOption {
    pub compress: BtrfsCompressOption,
}

impl FromSpecImpl<BtrfsBootdiskOptions> for InstallBtrfsOption {
    open spec fn obeys_from_spec() -> bool {
        true
    }

    open spec fn from_spec(opts: BtrfsBootdiskOptions) -> Self {
        InstallBtrfsOption { compress: opts.compress }
    }
}

impl From<BtrfsBootdiskOptions> for InstallBtrfsOption {
    /// Keeps the compression and drops the choice of disks.
    fn from(opts: BtrfsBootdiskOptions) -> (option: Self) {
        InstallBtrfsOption { compress: opts.compress }
    }
}

/// Whether the system was started by a BIOS or by UEFI firmware.
#[derive(Clone, Copy, Debug, PartialEq, Eq, Structural)]
pub enum BootType {
    Bios,
    Efi,
}

#[derive(Clone, Debug, PartialEq, Eq)]
pub struct Dns {
    pub domain: Option<String>,
    /// The name servers.
    pub dns: Vec<IpAddr>,
}

#[derive(Clone, Debug, PartialEq, Eq)]
pub struct Gateway {
    /// Outgoing network device.
    pub dev: String,
    /// The gateway's address.
    pub gateway: IpAddr,
}

#[derive(Clone, Debug, PartialEq, Eq)]
pub struct Routes {
    /// Ipv4 gateway.
    pub gateway4: Option<Gateway>,
    /// Ipv6 gateway.
    pub gateway6: Option<Gateway>,
}

#[derive(Clone, Copy, Debug, PartialEq, Eq, Structural)]
pub enum InterfaceState {
    Up,
    Down,
    Unknown,
}

impl InterfaceState {
    /// The mark shown for a state: a filled circle for an interface that
    /// is up, a blank for any other.
    pub open spec fn mark(self) -> Seq<char> {
        match self {
            InterfaceState::Up => "\u{25CF}"@,
            InterfaceState::Down | InterfaceState::Unknown => " "@,
        }
    }

    pub fn render(&self) -> (mark: String)
        ensures
            mark@ == self.mark(),
    {
        match self {
            InterfaceState::Up => "\u{25CF}".to_owned(),
            InterfaceState::Down | InterfaceState::Unknown => " ".to_owned(),
        }
    }
}

#[derive(Clone, Debug, PartialEq, Eq)]
pub struct Interface {
    pub name: String,
    pub index: usize,
    pub mac: String,
    pub state: InterfaceState,
    pub addresses: Option<Vec<CidrAddress>>,
}

impl Interface {
    /// The line shown for an interface: the mark of its state, a blank,
    /// its name.
    pub fn render(&self) -> (line: String)
        ensures
            line@ == self.state.mark() + " "@ + self.name@,
    {
        self.state.render().concat(" ").concat(self.name.as_str())
    }
}

#[derive(Clone, Debug)]
pub struct NetworkInfo {
    pub dns: Dns,
    pub routes: Option<Routes>,
    /// Maps devices to their configuration, if it has a usable configuration.
    /// (Contains no entries for devices with only link-local addresses.)
    pub interfaces: BTreeMap<String, Interface>,
    /// The hostname of this machine, if set by the DHCP server.
    pub hostname: Option<String>,
}

#[derive(Clone, Debug)]
pub struct RuntimeInfo {
    /// Whether is system was booted in (legacy) BIOS or UEFI mode.
    pub boot_type: BootType,
    /// Detected country if available.
    pub country: Option<String>,
    /// The disks of the machine.
    pub disks: Vec<Disk>,
    /// Network addresses, gateways and DNS info.
    pub network: NetworkInfo,
    /// Total memory of the system in MiB.
    pub total_memory: usize,
    /// Whether the CPU supports hardware-accelerated virtualization
    pub hvm_supported: bool,
    /// Whether the system was booted with SecureBoot enabled
    pub secure_boot: Option<bool>,
}

/// The root password as the installer proper takes it.
#[derive(Clone, Debug, PartialEq, Eq)]
pub struct InstallRootPassword {
    pub plain: Option<String>,
    pub hashed: Option<String>,
}

/// Whether a first-boot hook is set up, and the systemd target it is
/// ordered by.
#[derive(Clone, Debug, PartialEq, Eq)]
pub struct InstallFirstBootSetup {
    pub enabled: bool,
    pub ordering_target: Option<String>,
}

impl Default for InstallFirstBootSetup {
    fn default() -> (setup: InstallFirstBootSetup)
        ensures
            !setup.enabled,
            setup.ordering_target is None,
    {
        InstallFirstBootSetup { enabled: false, ordering_target: None }
    }
}

/// The directory in which the environment leaves its reports.
pub const RUNTIME_DIR: &'static str = "/run/proxmox-installer";

/// The directory below which a test run keeps its own copy of the
/// environment.
pub const TEST_DIR: &'static str = "./testdir/";

/// The directory to read the environment's reports from: the runtime
/// directory, and for a test run the same path below the test directory.
pub fn runtime_dir(in_test_mode: bool) -> (directory: String)
    ensures
        in_test_mode ==> directory@ == TEST_DIR@ + RUNTIME_DIR@,
        !in_test_mode ==> directory@ == RUNTIME_DIR@,
{
    if in_test_mode {
        TEST_DIR.to_owned().concat(RUNTIME_DIR)
    } else {
        RUNTIME_DIR.to_owned()
    }
}

pub const ERR_NO_DISKS: &'static str = "The installer could not find any supported hard disks.";

pub const ERR_NO_INTERFACES: &'static str =
    "The installer could not find any supported network interface cards.";

impl RuntimeInfo {
    /// Why the machine cannot be installed to, if it cannot: it has no
    /// disk, or, having one, no network interface.
    pub open spec fn shortcoming(self) -> Option<&'static str> {
        if self.disks@.len() == 0 {
            Some(ERR_NO_DISKS)
        } else if self.network.interfaces@.is_empty() {
            Some(ERR_NO_INTERFACES)
        } else {
            None
        }
    }

    /// Whether a list holds the disks of this report in order of their
    /// index: the same disks, each as often, sorted, and those of the same
    /// index in the order of the report.
    pub open spec fn disks_in_order(self, disks: Seq<Disk>) -> bool {
        &&& sorted_by_index(disks)
        &&& disks.to_multiset() == self.disks@.to_multiset()
        &&& forall|index: Seq<char>| #[trigger]
            with_index(disks, index) == with_index(self.disks@, index)
    }

    /// Takes in what the environment reports of the machine: puts the
    /// disks in order of their index, and refuses a machine without a disk
    /// or without a network interface. Nothing else of the report changes.
    pub fn checked(self) -> (info: Result<RuntimeInfo, &'static str>)
        ensures
            match self.shortcoming() {
                Some(message) => info == Err::<RuntimeInfo, &'static str>(message),
                None => info matches Ok(info) && self.disks_in_order(info.disks@) && info
                    == (RuntimeInfo { disks: info.disks, ..self }),
            },
    {
        let RuntimeInfo {
            boot_type,
            country,
            disks,
            network,
            total_memory,
            hvm_supported,
            secure_boot,
        } = self;
        let ghost reported = disks@;
        let disks = sort_disks(disks);
        proof {
            reported.to_multiset_ensures();
            disks@.to_multiset_ensures();
        }
        if disks.len() == 0 {
            Err(ERR_NO_DISKS)
        } else if network.interfaces.is_empty() {
            Err(ERR_NO_INTERFACES)
        } else {
            Ok(
                RuntimeInfo {
                    boot_type,
                    country,
                    disks,
                    network,
                    total_memory,
                    hvm_supported,
                    secure_boot,
                },
            )
        }
    }
}

/// How to start the installer proper: the program, its arguments, and what
/// is added to its environment. Its input and output are piped.
#[derive(Debug, PartialEq, Eq)]
pub struct InstallerCommand {
    pub program: &'static str,
    pub args: Vec<&'static str>,
    pub envs: Vec<(&'static str, &'static str)>,
}

impl InstallerCommand {
    /// The command of a real run: the installed program, told to start a
    /// session.
    pub open spec fn regular() -> (&'static str, Seq<&'static str>, Seq<(&'static str, &'static str)>) {
        ("proxmox-low-level-installer", seq!["start-session"], seq![])
    }

    /// The command of a test run: the program in the working directory,
    /// told to start a test session on no disk, with its modules looked up
    /// in the working directory.
    pub open spec fn test() -> (&'static str, Seq<&'static str>, Seq<(&'static str, &'static str)>) {
        (
            "./proxmox-low-level-installer",
            seq!["-t", "/dev/null", "start-session-test"],
            seq![("PERL5LIB", ".")],
        )
    }
}

/// Says how the installer proper is started, for a real run or a test run.
pub fn low_level_installer_command(test_mode: bool) -> (command: InstallerCommand)
    ensures
        (command.program, command.args@, command.envs@) == (if test_mode {
            InstallerCommand::test()
        } else {
            InstallerCommand::regular()
        }),
{
    if test_mode {
        let mut args: Vec<&'static str> = Vec::new();
        args.push("-t");
        args.push("/dev/null");
        args.push("start-session-test");
        let mut envs: Vec<(&'static str, &'static str)> = Vec::new();
        envs.push(("PERL5LIB", "."));
        assert(args@ =~= InstallerCommand::test().1);
        assert(envs@ =~= InstallerCommand::test().2);
        InstallerCommand { program: "./proxmox-low-level-installer", args, envs }
    } else {
        let mut args: Vec<&'static str> = Vec::new();
        args.push("start-session");
        assert(args@ =~= InstallerCommand::regular().1);
        InstallerCommand { program: "proxmox-low-level-installer", args, envs: Vec::new() }
    }
}

} // verus!
