//! The answer document: its sections as they are written down, and the
//! conversions that turn the loosely typed sections into configurations the
//! installer can act on.

use crate::options::{
    BtrfsCompressOption, BtrfsRaidLevel, FsType, SizeGb, ZfsChecksumOption, ZfsCompressOption,
    ZfsRaidLevel,
};
use crate::utils::{CidrAddress, IpAddr};
use std::collections::BTreeMap;
use vstd::prelude::*;
use vstd::std_specs::convert::TryFromSpecImpl;

verus! {

/// The keyboard layouts the installer knows.
#[derive(Clone, Copy, Debug, PartialEq, Eq, Structural)]
pub enum KeyboardLayout {
    De,
    DeCh,
    Dk,
    EnGb,
    EnUs,
    Es,
    Fi,
    Fr,
    FrBe,
    FrCa,
    FrCh,
    Hu,
    Is,
    It,
    Jp,
    Lt,
    Mk,
    Nl,
    No,
    Pl,
    Pt,
    PtBr,
    Se,
    Si,
    Tr,
}

impl KeyboardLayout {
    /// The name of the layout as answer documents and the installer write
    /// it: lower case, the parts joined by a hyphen.
    pub open spec fn name(self) -> Seq<char> {
        match self {
            KeyboardLayout::De => "de"@,
            KeyboardLayout::DeCh => "de-ch"@,
            KeyboardLayout::Dk => "dk"@,
            KeyboardLayout::EnGb => "en-gb"@,
            KeyboardLayout::EnUs => "en-us"@,
            KeyboardLayout::Es => "es"@,
            KeyboardLayout::Fi => "fi"@,
            KeyboardLayout::Fr => "fr"@,
            KeyboardLayout::FrBe => "fr-be"@,
            KeyboardLayout::FrCa => "fr-ca"@,
            KeyboardLayout::FrCh => "fr-ch"@,
            KeyboardLayout::Hu => "hu"@,
            KeyboardLayout::Is => "is"@,
            KeyboardLayout::It => "it"@,
            KeyboardLayout::Jp => "jp"@,
            KeyboardLayout::Lt => "lt"@,
            KeyboardLayout::Mk => "mk"@,
            KeyboardLayout::Nl => "nl"@,
            KeyboardLayout::No => "no"@,
            KeyboardLayout::Pl => "pl"@,
            KeyboardLayout::Pt => "pt"@,
            KeyboardLayout::PtBr => "pt-br"@,
            KeyboardLayout::Se => "se"@,
            KeyboardLayout::Si => "si"@,
            KeyboardLayout::Tr => "tr"@,
        }
    }

    /// The layout's name as text.
    pub fn to_string(&self) -> (name: String)
        ensures
            name@ == self.name(),
    {
        let name: &'static str = match self {
            KeyboardLayout::De => "de",
            KeyboardLayout::DeCh => "de-ch",
            KeyboardLayout::Dk => "dk",
            KeyboardLayout::EnGb => "en-gb",
            KeyboardLayout::EnUs => "en-us",
            KeyboardLayout::Es => "es",
            KeyboardLayout::Fi => "fi",
            KeyboardLayout::Fr => "fr",
            KeyboardLayout::FrBe => "fr-be",
            KeyboardLayout::FrCa => "fr-ca",
            KeyboardLayout::FrCh => "fr-ch",
            KeyboardLayout::Hu => "hu",
            KeyboardLayout::Is => "is",
            KeyboardLayout::It => "it",
            KeyboardLayout::Jp => "jp",
            KeyboardLayout::Lt => "lt",
            KeyboardLayout::Mk => "mk",
            KeyboardLayout::Nl => "nl",
            KeyboardLayout::No => "no",
            KeyboardLayout::Pl => "pl",
            KeyboardLayout::Pt => "pt",
            KeyboardLayout::PtBr => "pt-br",
            KeyboardLayout::Se => "se",
            KeyboardLayout::Si => "si",
            KeyboardLayout::Tr => "tr",
        };
        name.to_owned()
    }
}

/// The settings of the answer document that concern the system as a whole.
/// The root password may be given in plain text, hashed, or not at all.
#[derive(Clone, Debug, PartialEq, Eq)]
pub struct Global {
    pub country: String,
    pub fqdn: String,
    pub keyboard: KeyboardLayout,
    pub mailto: String,
    pub timezone: String,
    pub root_password: Option<String>,
    pub root_password_hashed: Option<String>,
    pub reboot_on_error: bool,
    pub root_ssh_keys: Vec<String>,
}

/// Where to report a finished installation to.
#[derive(Clone, Debug, PartialEq, Eq)]
pub struct PostNotificationHookInfo {
    /// URL to send a POST request to
    pub url: String,
    /// SHA256 cert fingerprint if certificate pinning should be used.
    pub cert_fingerprint: Option<String>,
}

/// Possible sources for the optional first-boot hook script/executable file.
#[derive(Clone, Copy, Debug, PartialEq, Eq, Structural)]
pub enum FirstBootHookSourceMode {
    /// Fetch the executable file from an URL, specified in the parent.
    FromUrl,
    /// The executable file has been baked into the ISO at a known location,
    /// and should be retrieved from there.
    FromIso,
}

/// When the first-boot hook runs, relative to the start of the system and
/// of its network.
#[derive(Clone, Copy, Debug, PartialEq, Eq, Structural)]
pub enum FirstBootHookServiceOrdering {
    /// Needed for bringing up the network itself, runs before any networking is attempted.
    BeforeNetwork,
    /// Network needs to be already online, runs after networking was brought up.
    NetworkOnline,
    /// Runs after the system has successfully booted up completely.
    FullyUp,
}

impl Default for FirstBootHookServiceOrdering {
    fn default() -> (ordering: FirstBootHookServiceOrdering)
        ensures
            ordering == FirstBootHookServiceOrdering::FullyUp,
    {
        FirstBootHookServiceOrdering::FullyUp
    }
}

impl FirstBootHookServiceOrdering {
    /// The systemd target that stands for an ordering, without the
    /// `.target` suffix.
    pub open spec fn target_name(self) -> Seq<char> {
        match self {
            FirstBootHookServiceOrdering::BeforeNetwork => "network-pre"@,
            FirstBootHookServiceOrdering::NetworkOnline => "network-online"@,
            FirstBootHookServiceOrdering::FullyUp => "multi-user"@,
        }
    }

    /// Maps the enum to the appropriate systemd target name, without the '.target' suffix.
    pub fn as_systemd_target_name(&self) -> (name: &str)
        ensures
            name@ == self.target_name(),
    {
        match self {
            FirstBootHookServiceOrdering::BeforeNetwork => "network-pre",
            FirstBootHookServiceOrdering::NetworkOnline => "network-online",
            FirstBootHookServiceOrdering::FullyUp => "multi-user",
        }
    }
}

/// Each ordering stands for a systemd target of its own: no two orderings
/// share a name.
pub proof fn orderings_have_their_own_targets(
    first: FirstBootHookServiceOrdering,
    second: FirstBootHookServiceOrdering,
)
    requires
        first != second,
    ensures
        first.target_name() != second.target_name(),
{
    reveal_strlit("network-pre");
    reveal_strlit("network-online");
    reveal_strlit("multi-user");
    assert("network-pre"@[8] != "network-online"@[8]);
    assert("network-pre"@[0] != "multi-user"@[0]);
    assert("network-online"@[0] != "multi-user"@[0]);
}

/// Describes from where to fetch the first-boot hook script, either being baked into the ISO or
/// from a URL.
#[derive(Clone, Debug, PartialEq, Eq)]
pub struct FirstBootHookInfo {
    /// Mode how to retrieve the first-boot executable file, either from an URL or from the ISO if
    /// it has been baked-in.
    pub source: FirstBootHookSourceMode,
    /// Determines the service order when the hook will run on first boot.
    pub ordering: FirstBootHookServiceOrdering,
    /// Retrieve the post-install script from a URL, if source == "from-url".
    pub url: Option<String>,
    /// SHA256 cert fingerprint if certificate pinning should be used, if source == "from-url".
    pub cert_fingerprint: Option<String>,
}

impl FirstBootHookInfo {
    /// A hook taken from a URL names that URL; a hook taken from the
    /// installation medium names neither a URL nor a fingerprint.
    pub open spec fn consistent(self) -> bool {
        match self.source {
            FirstBootHookSourceMode::FromUrl => self.url is Some,
            FirstBootHookSourceMode::FromIso => self.url is None && self.cert_fingerprint is None,
        }
    }

    /// Whether the hook holds the fields that go with its source, and no
    /// others.
    pub fn is_consistent(&self) -> (consistent: bool)
        ensures
            consistent == self.consistent(),
    {
        match self.source {
            FirstBootHookSourceMode::FromUrl => self.url.is_some(),
            FirstBootHookSourceMode::FromIso => self.url.is_none()
                && self.cert_fingerprint.is_none(),
        }
    }
}

/// Where the network configuration of the target comes from.
#[derive(Clone, Copy, Debug, PartialEq, Eq, Structural)]
pub enum NetworkConfigMode {
    FromDhcp,
    FromAnswer,
}

impl Default for NetworkConfigMode {
    fn default() -> (mode: NetworkConfigMode)
        ensures
            mode == NetworkConfigMode::FromDhcp,
    {
        NetworkConfigMode::FromDhcp
    }
}

/// The network section as the answer document holds it: the source, and
/// the settings that only a manual configuration has.
#[derive(Clone, Debug)]
pub struct NetworkInAnswer {
    pub source: NetworkConfigMode,
    pub cidr: Option<CidrAddress>,
    pub dns: Option<IpAddr>,
    pub gateway: Option<IpAddr>,
    pub filter: Option<BTreeMap<String, String>>,
}

/// The network section after validation.
#[derive(Clone, Debug, PartialEq, Eq)]
pub struct Network {
    pub network_settings: NetworkSettings,
}

#[derive(Clone, Debug, PartialEq, Eq)]
pub enum NetworkSettings {
    FromDhcp,
    Manual(NetworkManual),
}

/// A network configuration spelled out in the answer document. The filter
/// picks the interface to configure.
#[derive(Clone, Debug, PartialEq, Eq)]
pub struct NetworkManual {
    pub cidr: CidrAddress,
    pub dns: IpAddr,
    pub gateway: IpAddr,
    pub filter: BTreeMap<String, String>,
}

pub const ERR_CIDR_UNSET: &'static str = "Field 'cidr' must be set.";

pub const ERR_DNS_UNSET: &'static str = "Field 'dns' must be set.";

pub const ERR_GATEWAY_UNSET: &'static str = "Field 'gateway' must be set.";

pub const ERR_FILTER_UNSET: &'static str = "Field 'filter' must be set.";

pub const ERR_CIDR_WITH_DHCP: &'static str = "Field 'cidr' not supported for 'from-dhcp' config.";

pub const ERR_DNS_WITH_DHCP: &'static str = "Field 'dns' not supported for 'from-dhcp' config.";

pub const ERR_GATEWAY_WITH_DHCP: &'static str =
    "Field 'gateway' not supported for 'from-dhcp' config.";

pub const ERR_FILTER_WITH_DHCP: &'static str =
    "Field 'filter' not supported for 'from-dhcp' config.";

impl NetworkInAnswer {
    /// The first manual setting that a section is missing, in the order
    /// address, name server, gateway, filter.
    pub open spec fn missing_field(self) -> Option<&'static str> {
        if self.cidr is None {
            Some(ERR_CIDR_UNSET)
        } else if self.dns is None {
            Some(ERR_DNS_UNSET)
        } else if self.gateway is None {
            Some(ERR_GATEWAY_UNSET)
        } else if self.filter is None {
            Some(ERR_FILTER_UNSET)
        } else {
            None
        }
    }

    /// The first manual setting that a section holds, in the order address,
    /// name server, gateway, filter.
    pub open spec fn unsupported_field(self) -> Option<&'static str> {
        if self.cidr is Some {
            Some(ERR_CIDR_WITH_DHCP)
        } else if self.dns is Some {
            Some(ERR_DNS_WITH_DHCP)
        } else if self.gateway is Some {
            Some(ERR_GATEWAY_WITH_DHCP)
        } else if self.filter is Some {
            Some(ERR_FILTER_WITH_DHCP)
        } else {
            None
        }
    }

    /// The rule that a section breaks: a manual configuration has to give
    /// every manual setting, a DHCP configuration may give none.
    pub open spec fn violation(self) -> Option<&'static str> {
        match self.source {
            NetworkConfigMode::FromAnswer => self.missing_field(),
            NetworkConfigMode::FromDhcp => self.unsupported_field(),
        }
    }

    /// What the conversion makes of a section: the message of the rule it
    /// breaks, or what it resolves to.
    pub open spec fn converted(self) -> Result<Network, &'static str> {
        match self.violation() {
            Some(message) => Err(message),
            None => Ok(self.resolved()),
        }
    }

    /// Whether the conversion accepts a section and resolves it to the
    /// given settings.
    pub open spec fn accepted_as(self, settings: NetworkSettings) -> bool {
        self.converted() == Ok::<Network, &'static str>(Network { network_settings: settings })
    }

    /// What a section that breaks no rule is converted to.
    pub open spec fn resolved(self) -> Network {
        match self.source {
            NetworkConfigMode::FromAnswer => Network {
                network_settings: NetworkSettings::Manual(
                    NetworkManual {
                        cidr: self.cidr->0,
                        dns: self.dns->0,
                        gateway: self.gateway->0,
                        filter: self.filter->0,
                    },
                ),
            },
            NetworkConfigMode::FromDhcp => Network { network_settings: NetworkSettings::FromDhcp },
        }
    }
}

impl TryFromSpecImpl<NetworkInAnswer> for Network {
    open spec fn obeys_try_from_spec() -> bool {
        true
    }

    open spec fn try_from_spec(network: NetworkInAnswer) -> Result<Self, Self::Error> {
        network.converted()
    }
}

impl TryFrom<NetworkInAnswer> for Network {
    type Error = &'static str;

    /// Checks the network section and resolves it: a section that gives a
    /// setting its source does not allow, or lacks one its source needs, is
    /// turned down with a message that names the first such setting.
    fn try_from(network: NetworkInAnswer) -> (resolved: Result<Self, Self::Error>)
        ensures
            resolved == network.converted(),
    {
        match network.source {
            NetworkConfigMode::FromAnswer => {
                if network.cidr.is_none() {
                    return Err(ERR_CIDR_UNSET);
                }
                if network.dns.is_none() {
                    return Err(ERR_DNS_UNSET);
                }
                if network.gateway.is_none() {
                    return Err(ERR_GATEWAY_UNSET);
                }
                if network.filter.is_none() {
                    return Err(ERR_FILTER_UNSET);
                }
                Ok(
                    Network {
                        network_settings: NetworkSettings::Manual(
                            NetworkManual {
                                cidr: network.cidr.unwrap(),
                                dns: network.dns.unwrap(),
                                gateway: network.gateway.unwrap(),
                                filter: network.filter.unwrap(),
                            },
                        ),
                    },
                )
            },
            NetworkConfigMode::FromDhcp => {
                if network.cidr.is_some() {
                    return Err(ERR_CIDR_WITH_DHCP);
                }
                if network.dns.is_some() {
                    return Err(ERR_DNS_WITH_DHCP);
                }
                if network.gateway.is_some() {
                    return Err(ERR_GATEWAY_WITH_DHCP);
                }
                if network.filter.is_some() {
                    return Err(ERR_FILTER_WITH_DHCP);
                }
                Ok(Network { network_settings: NetworkSettings::FromDhcp })
            },
        }
    }
}

/// How several filter predicates combine.
#[derive(Clone, Copy, Debug, PartialEq, Eq, Structural)]
pub enum FilterMatch {
    Any,
    All,
}

/// The filesystem as the answer document names it.
#[derive(Clone, Copy, Debug, PartialEq, Eq, Structural)]
pub enum Filesystem {
    Ext4,
    Xfs,
    Zfs,
    Btrfs,
}

#[derive(Clone, Copy, Debug, PartialEq, Eq, Structural)]
pub struct ZfsOptions {
    pub raid: Option<ZfsRaidLevel>,
    pub ashift: Option<usize>,
    pub arc_max: Option<usize>,
    pub checksum: Option<ZfsChecksumOption>,
    pub compress: Option<ZfsCompressOption>,
    pub copies: Option<usize>,
    pub hdsize: Option<SizeGb>,
}

#[derive(Clone, Copy, Debug, PartialEq, Eq, Structural)]
pub struct LvmOptions {
    pub hdsize: Option<SizeGb>,
    pub swapsize: Option<SizeGb>,
    pub maxroot: Option<SizeGb>,
    pub maxvz: Option<SizeGb>,
    pub minfree: Option<SizeGb>,
}

#[derive(Clone, Copy, Debug, PartialEq, Eq, Structural)]
pub struct BtrfsOptions {
    pub hdsize: Option<SizeGb>,
    pub raid: Option<BtrfsRaidLevel>,
    pub compress: Option<BtrfsCompressOption>,
}

impl LvmOptions {
    /// The options block that sets nothing.
    pub open spec fn unset() -> LvmOptions {
        LvmOptions { hdsize: None, swapsize: None, maxroot: None, maxvz: None, minfree: None }
    }
}

impl Default for LvmOptions {
    fn default() -> (options: LvmOptions)
        ensures
            options == LvmOptions::unset(),
    {
        LvmOptions { hdsize: None, swapsize: None, maxroot: None, maxvz: None, minfree: None }
    }
}

impl ZfsOptions {
    /// The options block that sets nothing.
    pub open spec fn unset() -> ZfsOptions {
        ZfsOptions {
            raid: None,
            ashift: None,
            arc_max: None,
            checksum: None,
            compress: None,
            copies: None,
            hdsize: None,
        }
    }
}

impl Default for ZfsOptions {
    fn default() -> (options: ZfsOptions)
        ensures
            options == ZfsOptions::unset(),
    {
        ZfsOptions {
            raid: None,
            ashift: None,
            arc_max: None,
            checksum: None,
            compress: None,
            copies: None,
            hdsize: None,
        }
    }
}

impl BtrfsOptions {
    /// The options block that sets nothing.
    pub open spec fn unset() -> BtrfsOptions {
        BtrfsOptions { hdsize: None, raid: None, compress: None }
    }
}

impl Default for BtrfsOptions {
    fn default() -> (options: BtrfsOptions)
        ensures
            options == BtrfsOptions::unset(),
    {
        BtrfsOptions { hdsize: None, raid: None, compress: None }
    }
}

/// The options block that goes with the resolved filesystem.
#[derive(Clone, Copy, Debug, PartialEq, Eq, Structural)]
pub enum FsOptions {
    LVM(LvmOptions),
    ZFS(ZfsOptions),
    BTRFS(BtrfsOptions),
}

/// Which disks the installation goes to: named one by one, or chosen by
/// predicates on their properties.
#[derive(Clone, Debug, PartialEq, Eq)]
pub enum DiskSelection {
    Selection(Vec<String>),
    Filter(BTreeMap<String, String>),
}

/// The disk section as the answer document holds it.
#[derive(Clone, Debug)]
pub struct DiskSetup {
    pub filesystem: Filesystem,
    pub disk_list: Vec<String>,
    pub filter: Option<BTreeMap<String, String>>,
    pub filter_match: Option<FilterMatch>,
    pub zfs: Option<ZfsOptions>,
    pub lvm: Option<LvmOptions>,
    pub btrfs: Option<BtrfsOptions>,
}

/// The disk section after validation.
#[derive(Clone, Debug, PartialEq, Eq)]
pub struct Disks {
    pub fs_type: FsType,
    pub disk_selection: DiskSelection,
    pub filter_match: Option<FilterMatch>,
    pub fs_options: FsOptions,
}

pub const ERR_NO_DISK_SELECTION: &'static str = "Need either 'disk_list' or 'filter' set";

pub const ERR_TWO_DISK_SELECTIONS: &'static str = "Cannot use both, 'disk_list' and 'filter'";

pub const ERR_ONLY_LVM_OPTIONS: &'static str = "make sure only 'lvm' options are set";

pub const ERR_SINGLE_DISK: &'static str = "make sure to define only one disk for ext4 and xfs";

pub const ERR_ONLY_ZFS_OPTIONS: &'static str = "make sure only 'zfs' options are set";

pub const ERR_ZFS_RAID_UNSET: &'static str = "ZFS raid level 'zfs.raid' must be set";

pub const ERR_ONLY_BTRFS_OPTIONS: &'static str = "make sure only 'btrfs' options are set";

pub const ERR_BTRFS_RAID_UNSET: &'static str = "BTRFS raid level 'btrfs.raid' must be set";

impl DiskSetup {
    /// A device list is given when it names at least one device.
    pub open spec fn lists_devices(self) -> bool {
        self.disk_list@.len() > 0
    }

    /// A filter is given when the section holds one with at least one
    /// predicate.
    pub open spec fn gives_filter(self) -> bool {
        self.filter matches Some(filter) && !filter@.is_empty()
    }

    /// The RAID level of the ZFS block, if the block is there and sets one.
    pub open spec fn zfs_raid(self) -> Option<ZfsRaidLevel> {
        match self.zfs {
            Some(options) => options.raid,
            None => None,
        }
    }

    /// The RAID level of the Btrfs block, if the block is there and sets one.
    pub open spec fn btrfs_raid(self) -> Option<BtrfsRaidLevel> {
        match self.btrfs {
            Some(options) => options.raid,
            None => None,
        }
    }

    /// The first rule on the choice of disks that the section breaks.
    pub open spec fn selection_violation(self) -> Option<&'static str> {
        if !self.lists_devices() && !self.gives_filter() {
            Some(ERR_NO_DISK_SELECTION)
        } else if self.lists_devices() && self.gives_filter() {
            Some(ERR_TWO_DISK_SELECTIONS)
        } else {
            None
        }
    }

    /// The first rule of the chosen filesystem that the section breaks:
    /// option blocks of another filesystem come before the filesystem's own
    /// demand.
    pub open spec fn filesystem_violation(self) -> Option<&'static str> {
        match self.filesystem {
            Filesystem::Ext4 | Filesystem::Xfs => {
                if self.zfs is Some || self.btrfs is Some {
                    Some(ERR_ONLY_LVM_OPTIONS)
                } else if self.disk_list@.len() > 1 {
                    Some(ERR_SINGLE_DISK)
                } else {
                    None
                }
            },
            Filesystem::Zfs => {
                if self.lvm is Some || self.btrfs is Some {
                    Some(ERR_ONLY_ZFS_OPTIONS)
                } else if self.zfs_raid() is None {
                    Some(ERR_ZFS_RAID_UNSET)
                } else {
                    None
                }
            },
            Filesystem::Btrfs => {
                if self.zfs is Some || self.lvm is Some {
                    Some(ERR_ONLY_BTRFS_OPTIONS)
                } else if self.btrfs_raid() is None {
                    Some(ERR_BTRFS_RAID_UNSET)
                } else {
                    None
                }
            },
        }
    }

    /// The first rule that the section breaks, the rules on the choice of
    /// disks coming first; `None` for a section that breaks none.
    pub open spec fn violation(self) -> Option<&'static str> {
        if self.selection_violation() is Some {
            self.selection_violation()
        } else {
            self.filesystem_violation()
        }
    }

    /// The disks a section names: its device list if it has one, else its
    /// filter.
    pub open spec fn selection(self) -> DiskSelection {
        if self.lists_devices() {
            DiskSelection::Selection(self.disk_list)
        } else {
            DiskSelection::Filter(self.filter->0)
        }
    }

    /// The filesystem a section resolves to, with the RAID level of its own
    /// options block for ZFS and Btrfs.
    pub open spec fn fs_type(self) -> FsType {
        match self.filesystem {
            Filesystem::Ext4 => FsType::Ext4,
            Filesystem::Xfs => FsType::Xfs,
            Filesystem::Zfs => FsType::Zfs(self.zfs_raid()->0),
            Filesystem::Btrfs => FsType::Btrfs(self.btrfs_raid()->0),
        }
    }

    /// The options a section resolves to: the block of the chosen
    /// filesystem, where ext4 and XFS take the LVM block and fall back to
    /// the block that sets nothing.
    pub open spec fn fs_options(self) -> FsOptions {
        match self.filesystem {
            Filesystem::Ext4 | Filesystem::Xfs => FsOptions::LVM(
                match self.lvm {
                    Some(options) => options,
                    None => LvmOptions::unset(),
                },
            ),
            Filesystem::Zfs => FsOptions::ZFS(self.zfs->0),
            Filesystem::Btrfs => FsOptions::BTRFS(self.btrfs->0),
        }
    }

    /// What the conversion makes of a section: the message of the first
    /// rule it breaks, or what it resolves to.
    pub open spec fn converted(self) -> Result<Disks, &'static str> {
        match self.violation() {
            Some(message) => Err(message),
            None => Ok(self.resolved()),
        }
    }

    /// Whether the conversion turns a section down with the given message.
    pub open spec fn refused_with(self, message: &'static str) -> bool {
        self.converted() == Err::<Disks, &'static str>(message)
    }

    /// Whether the conversion accepts a section and resolves it to the
    /// given filesystem.
    pub open spec fn accepted_as(self, fs_type: FsType) -> bool {
        self.converted() matches Ok(disks) && disks.fs_type == fs_type
    }

    /// What a section that breaks no rule is converted to.
    pub open spec fn resolved(self) -> Disks {
        Disks {
            fs_type: self.fs_type(),
            disk_selection: self.selection(),
            filter_match: self.filter_match,
            fs_options: self.fs_options(),
        }
    }
}

impl TryFromSpecImpl<DiskSetup> for Disks {
    open spec fn obeys_try_from_spec() -> bool {
        true
    }

    open spec fn try_from_spec(source: DiskSetup) -> Result<Self, Self::Error> {
        source.converted()
    }
}

impl TryFrom<DiskSetup> for Disks {
    type Error = &'static str;

    /// Checks the disk section and resolves it: the section is turned down
    /// with the message of the first rule it breaks, and is otherwise
    /// converted to the resolved filesystem, disk selection and options.
    fn try_from(source: DiskSetup) -> (disks: Result<Self, Self::Error>)
        ensures
            disks == source.converted(),
    {
        let lists_devices = source.disk_list.len() > 0;
        let gives_filter = match &source.filter {
            Some(filter) => !filter.is_empty(),
            None => false,
        };
        if !lists_devices && !gives_filter {
            return Err(ERR_NO_DISK_SELECTION);
        }
        if lists_devices && gives_filter {
            return Err(ERR_TWO_DISK_SELECTIONS);
        }
        let (fs_type, fs_options) = match source.filesystem {
            Filesystem::Xfs => {
                match lvm_checks(&source) {
                    Err(message) => return Err(message),
                    Ok(options) => (FsType::Xfs, FsOptions::LVM(options)),
                }
            },
            Filesystem::Ext4 => {
                match lvm_checks(&source) {
                    Err(message) => return Err(message),
                    Ok(options) => (FsType::Ext4, FsOptions::LVM(options)),
                }
            },
            Filesystem::Zfs => {
                if source.lvm.is_some() || source.btrfs.is_some() {
                    return Err(ERR_ONLY_ZFS_OPTIONS);
                }
                match source.zfs {
                    Some(options) => match options.raid {
                        Some(level) => (FsType::Zfs(level), FsOptions::ZFS(options)),
                        None => return Err(ERR_ZFS_RAID_UNSET),
                    },
                    None => return Err(ERR_ZFS_RAID_UNSET),
                }
            },
            Filesystem::Btrfs => {
                if source.zfs.is_some() || source.lvm.is_some() {
                    return Err(ERR_ONLY_BTRFS_OPTIONS);
                }
                match source.btrfs {
                    Some(options) => match options.raid {
                        Some(level) => (FsType::Btrfs(level), FsOptions::BTRFS(options)),
                        None => return Err(ERR_BTRFS_RAID_UNSET),
                    },
                    None => return Err(ERR_BTRFS_RAID_UNSET),
                }
            },
        };
        let filter_match = source.filter_match;
        let disk_selection = if lists_devices {
            DiskSelection::Selection(source.disk_list)
        } else {
            DiskSelection::Filter(source.filter.unwrap())
        };
        Ok(Disks { fs_type, disk_selection, filter_match, fs_options })
    }
}

/// The checks shared by the filesystems that sit on LVM: no options block of
/// another filesystem, and at most one listed device. Hands back the LVM
/// options to install with.
fn lvm_checks(source: &DiskSetup) -> (options: Result<LvmOptions, &'static str>)
    requires
        source.filesystem is Ext4 || source.filesystem is Xfs,
    ensures
        match source.filesystem_violation() {
            Some(message) => options == Err::<LvmOptions, &'static str>(message),
            None => options matches Ok(lvm) && FsOptions::LVM(lvm) == source.fs_options(),
        },
{
    if source.zfs.is_some() || source.btrfs.is_some() {
        return Err(ERR_ONLY_LVM_OPTIONS);
    }
    if source.disk_list.len() > 1 {
        return Err(ERR_SINGLE_DISK);
    }
    match source.lvm {
        Some(options) => Ok(options),
        None => Ok(LvmOptions::default()),
    }
}

/// A validated answer document.
#[derive(Clone, Debug, PartialEq, Eq)]
pub struct Answer {
    pub global: Global,
    pub network: Network,
    pub disks: Disks,
    pub post_installation_webhook: Option<PostNotificationHookInfo>,
    pub first_boot: Option<FirstBootHookInfo>,
}

/// The top-level sections of an answer document as they were found in it,
/// the network and disk sections not yet validated. `global`, `network` and
/// `disk-setup` are required of every document, the two hooks are not.
#[derive(Clone, Debug)]
pub struct AnswerSections {
    pub global: Option<Global>,
    pub network: Option<NetworkInAnswer>,
    pub disks: Option<DiskSetup>,
    pub post_installation_webhook: Option<PostNotificationHookInfo>,
    pub first_boot: Option<FirstBootHookInfo>,
}

/// The sections that every answer document has to hold.
#[derive(Clone, Copy, Debug, PartialEq, Eq, Structural)]
pub enum RequiredSection {
    Global,
    Network,
    DiskSetup,
}

impl RequiredSection {
    /// The key under which the section stands in the document.
    pub open spec fn key(self) -> Seq<char> {
        match self {
            RequiredSection::Global => "global"@,
            RequiredSection::Network => "network"@,
            RequiredSection::DiskSetup => "disk-setup"@,
        }
    }

    pub fn as_str(&self) -> (key: &'static str)
        ensures
            key@ == self.key(),
    {
        match self {
            RequiredSection::Global => "global",
            RequiredSection::Network => "network",
            RequiredSection::DiskSetup => "disk-setup",
        }
    }
}

/// Why a set of sections is no answer.
#[derive(Clone, Copy, Debug, PartialEq, Eq)]
pub enum AnswerError {
    /// The document's structure is wrong: a required section is missing.
    MissingSection(RequiredSection),
    /// The network section breaks a rule; the message says which.
    Network(&'static str),
    /// The disk section breaks a rule; the message says which.
    Disks(&'static str),
}

impl AnswerError {
    /// The sentence shown to the operator.
    pub open spec fn text(self) -> Seq<char> {
        match self {
            AnswerError::MissingSection(section) => "missing field `"@ + section.key() + "`"@,
            AnswerError::Network(message) => message@,
            AnswerError::Disks(message) => message@,
        }
    }

    pub fn message(&self) -> (text: String)
        ensures
            text@ == self.text(),
    {
        match self {
            AnswerError::MissingSection(section) => {
                "missing field `".to_owned().concat(section.as_str()).concat("`")
            },
            AnswerError::Network(message) => (*message).to_owned(),
            AnswerError::Disks(message) => (*message).to_owned(),
        }
    }
}

impl AnswerSections {
    /// The first required section that is missing, in the order `global`,
    /// `network`, `disk-setup`.
    pub open spec fn missing_section(self) -> Option<RequiredSection> {
        if self.global is None {
            Some(RequiredSection::Global)
        } else if self.network is None {
            Some(RequiredSection::Network)
        } else if self.disks is None {
            Some(RequiredSection::DiskSetup)
        } else {
            None
        }
    }

    /// What the conversion makes of a set of sections. The structure comes
    /// first: a missing required section is reported before any section is
    /// validated. Then the network section is validated, then the disk
    /// section. Sections that pass are taken over as they are.
    pub open spec fn converted(self) -> Result<Answer, AnswerError> {
        match self.missing_section() {
            Some(section) => Err(AnswerError::MissingSection(section)),
            None => match self.network->0.converted() {
                Err(message) => Err(AnswerError::Network(message)),
                Ok(network) => match self.disks->0.converted() {
                    Err(message) => Err(AnswerError::Disks(message)),
                    Ok(disks) => Ok(
                        Answer {
                            global: self.global->0,
                            network,
                            disks,
                            post_installation_webhook: self.post_installation_webhook,
                            first_boot: self.first_boot,
                        },
                    ),
                },
            },
        }
    }
}

impl TryFromSpecImpl<AnswerSections> for Answer {
    open spec fn obeys_try_from_spec() -> bool {
        true
    }

    open spec fn try_from_spec(sections: AnswerSections) -> Result<Self, Self::Error> {
        sections.converted()
    }
}

impl TryFrom<AnswerSections> for Answer {
    type Error = AnswerError;

    /// Makes an answer of the sections of a document, or says why they are
    /// none: a required section is missing, or the network or the disk
    /// section breaks one of its rules.
    fn try_from(sections: AnswerSections) -> (answer: Result<Self, Self::Error>)
        ensures
            answer == sections.converted(),
    {
        let global = match sections.global {
            Some(global) => global,
            None => return Err(AnswerError::MissingSection(RequiredSection::Global)),
        };
        let network = match sections.network {
            Some(network) => network,
            None => return Err(AnswerError::MissingSection(RequiredSection::Network)),
        };
        let disks = match sections.disks {
            Some(disks) => disks,
            None => return Err(AnswerError::MissingSection(RequiredSection::DiskSetup)),
        };
        let network = match Network::try_from(network) {
            Ok(network) => network,
            Err(message) => return Err(AnswerError::Network(message)),
        };
        let disks = match Disks::try_from(disks) {
            Ok(disks) => disks,
            Err(message) => return Err(AnswerError::Disks(message)),
        };
        Ok(
            Answer {
                global,
                network,
                disks,
                post_installation_webhook: sections.post_installation_webhook,
                first_boot: sections.first_boot,
            },
        )
    }
}

/// A document that lacks one of the sections `global`, `network` and
/// `disk-setup` is turned down for its structure, whatever its other
/// sections hold.
pub proof fn required_sections_are_required(sections: AnswerSections)
    requires
        sections.global is None || sections.network is None || sections.disks is None,
    ensures
        sections.converted() matches Err(AnswerError::MissingSection(_)),
{
}

/// An accepted document keeps what it was given: the global settings and
/// the hooks as they stood in the sections, the network and the disks as
/// their sections resolve.
pub proof fn accepted_answer_keeps_its_sections(sections: AnswerSections)
    requires
        sections.converted() is Ok,
    ensures
        sections.global is Some && sections.network is Some && sections.disks is Some,
        sections.converted()->Ok_0.global == sections.global->0,
        sections.converted()->Ok_0.post_installation_webhook == sections.post_installation_webhook,
        sections.converted()->Ok_0.first_boot == sections.first_boot,
        sections.network->0.converted() == Ok::<Network, &'static str>(
            sections.converted()->Ok_0.network,
        ),
        sections.disks->0.converted() == Ok::<Disks, &'static str>(sections.converted()->Ok_0.disks),
{
}

/// A network section with the source `from-answer` is turned down as soon
/// as one of address, name server, gateway and filter is missing. With all
/// four it is accepted and resolves to the manual configuration that holds
/// exactly those four values.
pub proof fn manual_network_takes_all_four_settings(network: NetworkInAnswer)
    requires
        network.source == NetworkConfigMode::FromAnswer,
    ensures
        network.cidr is None || network.dns is None || network.gateway is None
            || network.filter is None ==> network.converted() is Err,
        network.cidr is Some && network.dns is Some && network.gateway is Some
            && network.filter is Some ==> network.accepted_as(
            NetworkSettings::Manual(
                NetworkManual {
                    cidr: network.cidr->0,
                    dns: network.dns->0,
                    gateway: network.gateway->0,
                    filter: network.filter->0,
                },
            ),
        ),
{
}

/// A network section with the source `from-dhcp` is turned down as soon as
/// it holds one of address, name server, gateway and filter. Without any of
/// them it is accepted and resolves to the DHCP configuration.
pub proof fn dhcp_network_takes_no_setting(network: NetworkInAnswer)
    requires
        network.source == NetworkConfigMode::FromDhcp,
    ensures
        network.cidr is Some || network.dns is Some || network.gateway is Some
            || network.filter is Some ==> network.converted() is Err,
        network.cidr is None && network.dns is None && network.gateway is None
            && network.filter is None ==> network.accepted_as(NetworkSettings::FromDhcp),
{
}

/// A disk section that gives both a device list and a filter is turned
/// down, and so is one that gives neither. One that gives exactly one of
/// them is never turned down for its choice of disks: if it also keeps the
/// rules of its filesystem it is accepted, and selects the disks by what it
/// gave.
pub proof fn disk_selection_is_one_of_two(source: DiskSetup)
    ensures
        source.lists_devices() && source.gives_filter() ==> source.refused_with(
            ERR_TWO_DISK_SELECTIONS,
        ),
        !source.lists_devices() && !source.gives_filter() ==> source.refused_with(
            ERR_NO_DISK_SELECTION,
        ),
        source.lists_devices() != source.gives_filter() ==> {
            &&& !source.refused_with(ERR_TWO_DISK_SELECTIONS)
            &&& !source.refused_with(ERR_NO_DISK_SELECTION)
            &&& source.filesystem_violation() is None ==> source.converted() is Ok
        },
        source.converted() matches Ok(disks) ==> disks.disk_selection == (if source.lists_devices() {
            DiskSelection::Selection(source.disk_list)
        } else {
            DiskSelection::Filter(source.filter->0)
        }),
{
}

/// A ZFS disk section whose RAID level is not set, because the `zfs` block
/// is missing or leaves it out, is always turned down; where the section
/// breaks no earlier rule, the message is the one that asks for the RAID
/// level. With the level set, and no earlier rule broken, the section is
/// accepted and resolves to ZFS at that level.
pub proof fn zfs_takes_a_raid_level(source: DiskSetup)
    requires
        source.filesystem == Filesystem::Zfs,
    ensures
        source.zfs_raid() is None ==> source.converted() is Err,
        source.zfs_raid() is None && source.selection_violation() is None && source.lvm is None
            && source.btrfs is None ==> source.refused_with(ERR_ZFS_RAID_UNSET),
        source.zfs_raid() is Some && source.selection_violation() is None && source.lvm is None
            && source.btrfs is None ==> source.accepted_as(FsType::Zfs(source.zfs_raid()->0)),
{
}

/// A Btrfs disk section whose RAID level is not set, because the `btrfs`
/// block is missing or leaves it out, is always turned down; where the
/// section breaks no earlier rule, the message is the one that asks for the
/// RAID level. With the level set, and no earlier rule broken, the section
/// is accepted and resolves to Btrfs at that level.
pub proof fn btrfs_takes_a_raid_level(source: DiskSetup)
    requires
        source.filesystem == Filesystem::Btrfs,
    ensures
        source.btrfs_raid() is None ==> source.converted() is Err,
        source.btrfs_raid() is None && source.selection_violation() is None && source.lvm is None
            && source.zfs is None ==> source.refused_with(ERR_BTRFS_RAID_UNSET),
        source.btrfs_raid() is Some && source.selection_violation() is None && source.lvm is None
            && source.zfs is None ==> source.accepted_as(FsType::Btrfs(source.btrfs_raid()->0)),
{
}

/// An ext4 or XFS disk section that lists two or more devices is always
/// turned down; where it breaks no earlier rule, the message is the one
/// that allows a single disk only. With exactly one device listed, and no
/// other rule broken, the section is accepted, resolves to the filesystem
/// it names and installs to that device.
pub proof fn lvm_filesystems_take_one_disk(source: DiskSetup)
    requires
        source.filesystem == Filesystem::Ext4 || source.filesystem == Filesystem::Xfs,
    ensures
        source.disk_list@.len() >= 2 ==> source.converted() is Err,
        source.disk_list@.len() >= 2 && !source.gives_filter() && source.zfs is None
            && source.btrfs is None ==> source.refused_with(ERR_SINGLE_DISK),
        source.disk_list@.len() == 1 && !source.gives_filter() && source.zfs is None
            && source.btrfs is None ==> {
            &&& source.filesystem == Filesystem::Ext4 ==> source.accepted_as(FsType::Ext4)
            &&& source.filesystem == Filesystem::Xfs ==> source.accepted_as(FsType::Xfs)
            &&& source.converted()->Ok_0.disk_selection == DiskSelection::Selection(
                source.disk_list,
            )
        },
{
}

} // verus!
