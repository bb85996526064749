use proxmox_auto_installer::answer::{
    Answer, AnswerError, AnswerSections, BtrfsOptions, DiskSelection, DiskSetup, Disks,
    Filesystem, FilterMatch, FirstBootHookInfo, FirstBootHookServiceOrdering,
    FirstBootHookSourceMode, FsOptions, Global, KeyboardLayout, LvmOptions, Network,
    NetworkConfigMode, NetworkInAnswer, NetworkManual, NetworkSettings,
    PostNotificationHookInfo, RequiredSection, ZfsOptions,
};
use proxmox_auto_installer::options::{
    BtrfsCompressOption, BtrfsRaidLevel, FsType, SizeGb, ZfsRaidLevel,
};
use proxmox_auto_installer::utils::{CidrAddress, IpAddr};
use std::collections::BTreeMap;

fn filter(pairs: &[(&str, &str)]) -> BTreeMap<String, String> {
    let mut map = BTreeMap::new();
    for (key, value) in pairs {
        map.insert(key.to_string(), value.to_string());
    }
    map
}

fn manual_network() -> NetworkInAnswer {
    NetworkInAnswer {
        source: NetworkConfigMode::FromAnswer,
        cidr: Some(CidrAddress::new(IpAddr::V4(0xc0a8_0a02), 24).unwrap()),
        dns: Some(IpAddr::V4(0xc0a8_0a01)),
        gateway: Some(IpAddr::V4(0xc0a8_0afe)),
        filter: Some(filter(&[("ID_NET_NAME", "eno1")])),
    }
}

fn dhcp_network() -> NetworkInAnswer {
    NetworkInAnswer {
        source: NetworkConfigMode::FromDhcp,
        cidr: None,
        dns: None,
        gateway: None,
        filter: None,
    }
}

fn disk_setup(filesystem: Filesystem, disks: &[&str]) -> DiskSetup {
    DiskSetup {
        filesystem,
        disk_list: disks.iter().map(|disk| disk.to_string()).collect(),
        filter: None,
        filter_match: None,
        zfs: None,
        lvm: None,
        btrfs: None,
    }
}

fn zfs_options(raid: Option<ZfsRaidLevel>) -> ZfsOptions {
    ZfsOptions { raid, ..ZfsOptions::default() }
}

fn btrfs_options(raid: Option<BtrfsRaidLevel>) -> BtrfsOptions {
    BtrfsOptions { raid, ..BtrfsOptions::default() }
}

fn global() -> Global {
    Global {
        country: "at".to_string(),
        fqdn: "pve.example.com".to_string(),
        keyboard: KeyboardLayout::DeCh,
        mailto: "admin@example.com".to_string(),
        timezone: "Europe/Vienna".to_string(),
        root_password: Some("123456".to_string()),
        root_password_hashed: None,
        reboot_on_error: false,
        root_ssh_keys: vec![],
    }
}

#[test]
fn ordering_maps_to_systemd_targets() {
    assert_eq!(FirstBootHookServiceOrdering::BeforeNetwork.as_systemd_target_name(), "network-pre");
    assert_eq!(
        FirstBootHookServiceOrdering::NetworkOnline.as_systemd_target_name(),
        "network-online"
    );
    assert_eq!(FirstBootHookServiceOrdering::FullyUp.as_systemd_target_name(), "multi-user");
}

#[test]
fn ordering_defaults_to_fully_up() {
    assert_eq!(FirstBootHookServiceOrdering::default(), FirstBootHookServiceOrdering::FullyUp);
    assert_eq!(NetworkConfigMode::default(), NetworkConfigMode::FromDhcp);
}

#[test]
fn keyboard_layouts_are_written_in_kebab_case() {
    assert_eq!(KeyboardLayout::De.to_string(), "de");
    assert_eq!(KeyboardLayout::DeCh.to_string(), "de-ch");
    assert_eq!(KeyboardLayout::EnGb.to_string(), "en-gb");
    assert_eq!(KeyboardLayout::EnUs.to_string(), "en-us");
    assert_eq!(KeyboardLayout::FrBe.to_string(), "fr-be");
    assert_eq!(KeyboardLayout::FrCa.to_string(), "fr-ca");
    assert_eq!(KeyboardLayout::FrCh.to_string(), "fr-ch");
    assert_eq!(KeyboardLayout::PtBr.to_string(), "pt-br");
    assert_eq!(KeyboardLayout::Tr.to_string(), "tr");
}

#[test]
fn manual_network_with_all_fields_is_accepted() {
    let raw = manual_network();
    let expected = NetworkManual {
        cidr: raw.cidr.unwrap(),
        dns: raw.dns.unwrap(),
        gateway: raw.gateway.unwrap(),
        filter: raw.filter.clone().unwrap(),
    };
    let network = Network::try_from(raw).unwrap();
    assert_eq!(network.network_settings, NetworkSettings::Manual(expected));
}

#[test]
fn manual_network_names_the_first_missing_field() {
    let mut raw = manual_network();
    raw.filter = None;
    assert_eq!(Network::try_from(raw.clone()), Err("Field 'filter' must be set."));
    raw.gateway = None;
    assert_eq!(Network::try_from(raw.clone()), Err("Field 'gateway' must be set."));
    raw.dns = None;
    assert_eq!(Network::try_from(raw.clone()), Err("Field 'dns' must be set."));
    raw.cidr = None;
    assert_eq!(Network::try_from(raw), Err("Field 'cidr' must be set."));
}

#[test]
fn manual_network_misses_a_single_field() {
    let mut raw = manual_network();
    raw.cidr = None;
    assert_eq!(Network::try_from(raw), Err("Field 'cidr' must be set."));
    let mut raw = manual_network();
    raw.dns = None;
    assert_eq!(Network::try_from(raw), Err("Field 'dns' must be set."));
    let mut raw = manual_network();
    raw.gateway = None;
    assert_eq!(Network::try_from(raw), Err("Field 'gateway' must be set."));
}

#[test]
fn dhcp_network_without_fields_is_accepted() {
    let network = Network::try_from(dhcp_network()).unwrap();
    assert_eq!(network.network_settings, NetworkSettings::FromDhcp);
}

#[test]
fn dhcp_network_names_the_first_field_it_may_not_have() {
    let manual = manual_network();
    let mut raw = dhcp_network();
    raw.filter = manual.filter.clone();
    assert_eq!(
        Network::try_from(raw.clone()),
        Err("Field 'filter' not supported for 'from-dhcp' config.")
    );
    raw.gateway = manual.gateway;
    assert_eq!(
        Network::try_from(raw.clone()),
        Err("Field 'gateway' not supported for 'from-dhcp' config.")
    );
    raw.dns = manual.dns;
    assert_eq!(
        Network::try_from(raw.clone()),
        Err("Field 'dns' not supported for 'from-dhcp' config.")
    );
    raw.cidr = manual.cidr;
    assert_eq!(Network::try_from(raw), Err("Field 'cidr' not supported for 'from-dhcp' config."));
}

#[test]
fn disks_need_a_selection() {
    let setup = disk_setup(Filesystem::Ext4, &[]);
    assert_eq!(Disks::try_from(setup), Err("Need either 'disk_list' or 'filter' set"));
}

#[test]
fn disks_with_an_empty_filter_have_no_selection() {
    let mut setup = disk_setup(Filesystem::Ext4, &[]);
    setup.filter = Some(BTreeMap::new());
    assert_eq!(Disks::try_from(setup), Err("Need either 'disk_list' or 'filter' set"));
}

#[test]
fn disks_take_one_selection_only() {
    let mut setup = disk_setup(Filesystem::Ext4, &["sda"]);
    setup.filter = Some(filter(&[("ID_SERIAL", "QEMU*")]));
    assert_eq!(Disks::try_from(setup), Err("Cannot use both, 'disk_list' and 'filter'"));
}

#[test]
fn ext4_with_one_disk_is_accepted() {
    let disks = Disks::try_from(disk_setup(Filesystem::Ext4, &["sda"])).unwrap();
    assert_eq!(disks.fs_type, FsType::Ext4);
    assert_eq!(disks.disk_selection, DiskSelection::Selection(vec!["sda".to_string()]));
    assert_eq!(disks.filter_match, None);
    assert_eq!(disks.fs_options, FsOptions::LVM(LvmOptions::default()));
}

#[test]
fn ext4_keeps_its_lvm_options() {
    let options = LvmOptions {
        hdsize: Some(SizeGb::from_bits(80.0f64.to_bits())),
        swapsize: Some(SizeGb::from_bits(8.0f64.to_bits())),
        maxroot: None,
        maxvz: None,
        minfree: Some(SizeGb::from_bits(0.5f64.to_bits())),
    };
    let mut setup = disk_setup(Filesystem::Ext4, &["sda"]);
    setup.lvm = Some(options);
    let disks = Disks::try_from(setup).unwrap();
    assert_eq!(disks.fs_options, FsOptions::LVM(options));
    match disks.fs_options {
        FsOptions::LVM(lvm) => {
            assert_eq!(f64::from_bits(lvm.hdsize.unwrap().to_bits()), 80.0);
            assert_eq!(f64::from_bits(lvm.minfree.unwrap().to_bits()), 0.5);
        }
        _ => panic!("ext4 resolves to LVM options"),
    }
}

#[test]
fn xfs_with_a_filter_is_accepted() {
    let mut setup = disk_setup(Filesystem::Xfs, &[]);
    setup.filter = Some(filter(&[("ID_SERIAL", "QEMU*")]));
    setup.filter_match = Some(FilterMatch::All);
    let disks = Disks::try_from(setup).unwrap();
    assert_eq!(disks.fs_type, FsType::Xfs);
    assert_eq!(disks.disk_selection, DiskSelection::Filter(filter(&[("ID_SERIAL", "QEMU*")])));
    assert_eq!(disks.filter_match, Some(FilterMatch::All));
    assert_eq!(disks.fs_options, FsOptions::LVM(LvmOptions::default()));
}

#[test]
fn ext4_and_xfs_take_a_single_disk() {
    let message = Err("make sure to define only one disk for ext4 and xfs");
    assert_eq!(Disks::try_from(disk_setup(Filesystem::Ext4, &["sda", "sdb"])), message);
    assert_eq!(Disks::try_from(disk_setup(Filesystem::Xfs, &["sda", "sdb", "sdc"])), message);
}

#[test]
fn ext4_and_xfs_take_lvm_options_only() {
    let mut setup = disk_setup(Filesystem::Ext4, &["sda", "sdb"]);
    setup.zfs = Some(zfs_options(Some(ZfsRaidLevel::Raid1)));
    assert_eq!(Disks::try_from(setup), Err("make sure only 'lvm' options are set"));
    let mut setup = disk_setup(Filesystem::Xfs, &["sda"]);
    setup.btrfs = Some(btrfs_options(None));
    assert_eq!(Disks::try_from(setup), Err("make sure only 'lvm' options are set"));
}

#[test]
fn zfs_needs_its_raid_level() {
    let setup = disk_setup(Filesystem::Zfs, &["sda", "sdb"]);
    assert_eq!(Disks::try_from(setup), Err("ZFS raid level 'zfs.raid' must be set"));
    let mut setup = disk_setup(Filesystem::Zfs, &["sda", "sdb"]);
    setup.zfs = Some(zfs_options(None));
    assert_eq!(Disks::try_from(setup), Err("ZFS raid level 'zfs.raid' must be set"));
}

#[test]
fn zfs_with_raid_level_is_accepted() {
    let options = ZfsOptions { ashift: Some(12), copies: Some(2), ..zfs_options(Some(ZfsRaidLevel::RaidZ2)) };
    let mut setup = disk_setup(Filesystem::Zfs, &["sda", "sdb", "sdc", "sdd"]);
    setup.zfs = Some(options);
    let disks = Disks::try_from(setup).unwrap();
    assert_eq!(disks.fs_type, FsType::Zfs(ZfsRaidLevel::RaidZ2));
    assert_eq!(disks.fs_options, FsOptions::ZFS(options));
    assert_eq!(
        disks.disk_selection,
        DiskSelection::Selection(vec![
            "sda".to_string(),
            "sdb".to_string(),
            "sdc".to_string(),
            "sdd".to_string()
        ])
    );
}

#[test]
fn zfs_takes_zfs_options_only() {
    let mut setup = disk_setup(Filesystem::Zfs, &["sda"]);
    setup.zfs = Some(zfs_options(Some(ZfsRaidLevel::Raid0)));
    setup.lvm = Some(LvmOptions::default());
    assert_eq!(Disks::try_from(setup), Err("make sure only 'zfs' options are set"));
    let mut setup = disk_setup(Filesystem::Zfs, &["sda"]);
    setup.btrfs = Some(btrfs_options(Some(BtrfsRaidLevel::Raid0)));
    assert_eq!(Disks::try_from(setup), Err("make sure only 'zfs' options are set"));
}

#[test]
fn btrfs_needs_its_raid_level() {
    let setup = disk_setup(Filesystem::Btrfs, &["sda"]);
    assert_eq!(Disks::try_from(setup), Err("BTRFS raid level 'btrfs.raid' must be set"));
    let mut setup = disk_setup(Filesystem::Btrfs, &["sda"]);
    setup.btrfs = Some(btrfs_options(None));
    assert_eq!(Disks::try_from(setup), Err("BTRFS raid level 'btrfs.raid' must be set"));
}

#[test]
fn btrfs_with_raid_level_is_accepted() {
    let options = BtrfsOptions {
        compress: Some(BtrfsCompressOption::Zstd),
        ..btrfs_options(Some(BtrfsRaidLevel::Raid10))
    };
    let mut setup = disk_setup(Filesystem::Btrfs, &["sda", "sdb"]);
    setup.btrfs = Some(options);
    let disks = Disks::try_from(setup).unwrap();
    assert_eq!(disks.fs_type, FsType::Btrfs(BtrfsRaidLevel::Raid10));
    assert_eq!(disks.fs_options, FsOptions::BTRFS(options));
}

#[test]
fn btrfs_takes_btrfs_options_only() {
    let mut setup = disk_setup(Filesystem::Btrfs, &["sda"]);
    setup.btrfs = Some(btrfs_options(Some(BtrfsRaidLevel::Raid1)));
    setup.zfs = Some(zfs_options(None));
    assert_eq!(Disks::try_from(setup), Err("make sure only 'btrfs' options are set"));
    let mut setup = disk_setup(Filesystem::Btrfs, &["sda"]);
    setup.lvm = Some(LvmOptions::default());
    assert_eq!(Disks::try_from(setup), Err("make sure only 'btrfs' options are set"));
}

#[test]
fn selection_is_checked_before_the_filesystem() {
    let mut setup = disk_setup(Filesystem::Zfs, &[]);
    setup.lvm = Some(LvmOptions::default());
    assert_eq!(Disks::try_from(setup), Err("Need either 'disk_list' or 'filter' set"));
}

#[test]
fn hooks_hold_the_fields_of_their_source() {
    let mut hook = FirstBootHookInfo {
        source: FirstBootHookSourceMode::FromUrl,
        ordering: FirstBootHookServiceOrdering::default(),
        url: Some("https://example.com/first-boot".to_string()),
        cert_fingerprint: None,
    };
    assert!(hook.is_consistent());
    hook.url = None;
    assert!(!hook.is_consistent());
    hook.source = FirstBootHookSourceMode::FromIso;
    assert!(hook.is_consistent());
    hook.cert_fingerprint = Some("aa:bb".to_string());
    assert!(!hook.is_consistent());
}

fn sections() -> AnswerSections {
    AnswerSections {
        global: Some(global()),
        network: Some(dhcp_network()),
        disks: Some(disk_setup(Filesystem::Ext4, &["sda"])),
        post_installation_webhook: None,
        first_boot: None,
    }
}

#[test]
fn answer_without_a_required_section_is_refused() {
    let mut incomplete = sections();
    incomplete.disks = None;
    assert_eq!(
        Answer::try_from(incomplete.clone()),
        Err(AnswerError::MissingSection(RequiredSection::DiskSetup))
    );
    incomplete.network = None;
    assert_eq!(
        Answer::try_from(incomplete.clone()),
        Err(AnswerError::MissingSection(RequiredSection::Network))
    );
    incomplete.global = None;
    assert_eq!(
        Answer::try_from(incomplete),
        Err(AnswerError::MissingSection(RequiredSection::Global))
    );
}

#[test]
fn missing_section_comes_before_a_broken_rule() {
    let mut broken = sections();
    broken.global = None;
    broken.disks = Some(disk_setup(Filesystem::Ext4, &[]));
    assert_eq!(
        Answer::try_from(broken),
        Err(AnswerError::MissingSection(RequiredSection::Global))
    );
}

#[test]
fn answer_reports_the_rule_a_section_breaks() {
    let mut broken = sections();
    broken.disks = Some(disk_setup(Filesystem::Ext4, &["sda", "sdb"]));
    assert_eq!(
        Answer::try_from(broken.clone()),
        Err(AnswerError::Disks("make sure to define only one disk for ext4 and xfs"))
    );
    let mut network = manual_network();
    network.dns = None;
    broken.network = Some(network);
    assert_eq!(
        Answer::try_from(broken),
        Err(AnswerError::Network("Field 'dns' must be set."))
    );
}

#[test]
fn answer_errors_read_as_sentences() {
    assert_eq!(
        AnswerError::MissingSection(RequiredSection::Global).message(),
        "missing field `global`"
    );
    assert_eq!(
        AnswerError::MissingSection(RequiredSection::Network).message(),
        "missing field `network`"
    );
    assert_eq!(
        AnswerError::MissingSection(RequiredSection::DiskSetup).message(),
        "missing field `disk-setup`"
    );
    assert_eq!(
        AnswerError::Network("Field 'dns' must be set.").message(),
        "Field 'dns' must be set."
    );
    assert_eq!(
        AnswerError::Disks("Need either 'disk_list' or 'filter' set").message(),
        "Need either 'disk_list' or 'filter' set"
    );
    assert_eq!(RequiredSection::DiskSetup.as_str(), "disk-setup");
}

#[test]
fn answer_keeps_the_sections_it_was_given() {
    let mut given = sections();
    given.post_installation_webhook = Some(PostNotificationHookInfo {
        url: "https://example.com/done".to_string(),
        cert_fingerprint: Some("aa:bb:cc".to_string()),
    });
    given.first_boot = Some(FirstBootHookInfo {
        source: FirstBootHookSourceMode::FromIso,
        ordering: FirstBootHookServiceOrdering::NetworkOnline,
        url: None,
        cert_fingerprint: None,
    });
    let answer = Answer::try_from(given.clone()).unwrap();
    assert_eq!(Some(answer.global), given.global);
    assert_eq!(answer.network.network_settings, NetworkSettings::FromDhcp);
    assert_eq!(answer.disks.fs_type, FsType::Ext4);
    assert_eq!(answer.post_installation_webhook, given.post_installation_webhook);
    assert_eq!(answer.first_boot, given.first_boot);
}
