use forge::device::{
    get_parent_device_path, get_removable_devices, is_removable, kernel_name, parse_u64,
    sector_count, system_disk_parent, BlockEntry, Device, DeviceError, MountedVolume,
};

fn entry(name: &str, removable: Option<&str>, size: Option<&str>) -> BlockEntry {
    BlockEntry {
        name: name.to_string(),
        removable: removable.map(|s| s.to_string()),
        size: size.map(|s| s.to_string()),
    }
}

fn volume(name: &str, mount_point: &str) -> MountedVolume {
    MountedVolume { name: name.to_string(), mount_point: mount_point.to_string() }
}

fn names(devices: &[Device]) -> Vec<String> {
    devices.iter().map(|d| d.name.clone()).collect()
}

#[test]
fn parent_of_sd_partition() {
    assert_eq!(get_parent_device_path("/dev/sda1"), "/dev/sda");
    assert_eq!(get_parent_device_path("/dev/sdb12"), "/dev/sdb");
    assert_eq!(get_parent_device_path("/dev/sdc"), "/dev/sdc");
}

#[test]
fn parent_of_nvme_and_mmc_partitions() {
    assert_eq!(get_parent_device_path("/dev/nvme0n1p2"), "/dev/nvme0n1");
    assert_eq!(get_parent_device_path("/dev/mmcblk0p1"), "/dev/mmcblk0");
    assert_eq!(get_parent_device_path("/dev/nvme0n1"), "/dev/nvme0n1");
}

#[test]
fn parent_of_other_paths_is_the_path() {
    assert_eq!(get_parent_device_path("/dev/vda1"), "/dev/vda1");
    assert_eq!(get_parent_device_path("/dev/mapper/root"), "/dev/mapper/root");
}

#[test]
fn parses_decimal_like_std() {
    assert_eq!(parse_u64("0"), Some(0));
    assert_eq!(parse_u64("31116288"), Some(31116288));
    assert_eq!(parse_u64("+7"), Some(7));
    assert_eq!(parse_u64("18446744073709551615"), Some(u64::MAX));
    assert_eq!(parse_u64("18446744073709551616"), None);
    assert_eq!(parse_u64(""), None);
    assert_eq!(parse_u64("+"), None);
    assert_eq!(parse_u64("-1"), None);
    assert_eq!(parse_u64("12a"), None);
    for s in ["0", "42", "+9", "99999999999999999999", "x", ""] {
        assert_eq!(parse_u64(s), s.parse::<u64>().ok());
    }
}

#[test]
fn attributes_decode() {
    assert!(is_removable(&Some("1".to_string())));
    assert!(!is_removable(&Some("0".to_string())));
    assert!(!is_removable(&None));
    assert_eq!(sector_count(&Some("2048".to_string())), 2048);
    assert_eq!(sector_count(&Some("junk".to_string())), 0);
    assert_eq!(sector_count(&None), 0);
}

#[test]
fn kernel_name_is_last_component() {
    assert_eq!(kernel_name("/dev/sdd1"), "sdd1");
    assert_eq!(kernel_name("sdd1"), "sdd1");
}

#[test]
fn system_disk_is_root_volume_parent() {
    let vols = vec![volume("/dev/sdd1", "/media/usb"), volume("/dev/nvme0n1p2", "/")];
    assert_eq!(system_disk_parent(&vols), Some("/dev/nvme0n1".to_string()));
    assert_eq!(system_disk_parent(&vec![volume("/dev/sdd1", "/media/usb")]), None);
}

#[test]
fn no_root_volume_refuses_a_list() {
    let entries = vec![entry("sdd", Some("1"), Some("1000"))];
    let vols = vec![volume("/dev/sdd1", "/media/usb")];
    assert_eq!(get_removable_devices(&entries, &vols).err(), Some(DeviceError::SystemDiskUnknown));
}

#[test]
fn fixed_devices_are_never_listed() {
    let entries = vec![
        entry("sda", Some("0"), Some("1000")),
        entry("sdb", None, Some("1000")),
        entry("sdd", Some("1"), Some("1000")),
    ];
    let vols = vec![volume("/dev/nvme0n1p2", "/")];
    let devices = get_removable_devices(&entries, &vols).unwrap();
    assert_eq!(names(&devices), vec!["sdd".to_string()]);
}

#[test]
fn empty_devices_are_never_listed() {
    let entries = vec![
        entry("sdb", Some("1"), Some("0")),
        entry("sdc", Some("1"), None),
        entry("sde", Some("0"), Some("0")),
        entry("sdd", Some("1"), Some("64")),
    ];
    let vols = vec![volume("/dev/nvme0n1p2", "/")];
    let devices = get_removable_devices(&entries, &vols).unwrap();
    assert_eq!(names(&devices), vec!["sdd".to_string()]);
}

#[test]
fn removable_system_disk_is_never_listed() {
    let entries = vec![
        entry("sda", Some("1"), Some("5000")),
        entry("loop0", Some("1"), Some("100")),
        entry("sdd", Some("1"), Some("1000")),
    ];
    let vols = vec![volume("/dev/sda2", "/")];
    let devices = get_removable_devices(&entries, &vols).unwrap();
    assert_eq!(names(&devices), vec!["sdd".to_string()]);
    assert!(devices.iter().all(|d| d.path != "/dev/sda"));
}

#[test]
fn listed_device_fields() {
    let entries = vec![entry("sdd", Some("1"), Some("31116288")), entry("sde", Some("1"), Some("8"))];
    let vols = vec![
        volume("/dev/nvme0n1p2", "/"),
        volume("/dev/sdd1", ""),
        volume("/dev/sdd2", "/media/card"),
        volume("/dev/sdd3", "/media/other"),
    ];
    let devices = get_removable_devices(&entries, &vols).unwrap();
    assert_eq!(devices.len(), 2);
    let d = &devices[0];
    assert_eq!(d.path, "/dev/sdd");
    assert_eq!(d.sectors, 31116288);
    assert_eq!(d.size_bytes(), 31116288u128 * 512);
    assert_eq!(d.mount_point, "/media/card");
    assert!(d.is_mounted());
    assert_eq!(d.mount_status(), "[Mounted at /media/card]");
    let e = &devices[1];
    assert_eq!(e.mount_point, "");
    assert_eq!(e.mount_status(), "[Not mounted]");
    assert_eq!(e.size_bytes(), 4096);
}

#[test]
fn largest_sector_count_fits() {
    let entries = vec![entry("sdz", Some("1"), Some("18446744073709551615"))];
    let vols = vec![volume("/dev/sda1", "/")];
    let devices = get_removable_devices(&entries, &vols).unwrap();
    assert_eq!(devices[0].size_bytes(), u64::MAX as u128 * 512);
}
