use sd_volume::common::{
    disk_type_from_flag, disk_type_from_rotational, is_read_only_options, is_virtual_filesystem,
    is_virtual_lowered, parse_size,
};
use sd_volume::menu::{library_locked_menu_ids, MenuEvent};
use sd_volume::os::{
    forced_unmount_result, graceful_unmount_succeeded, keep_disk, rotational_path,
    volume_from_disk, CommandOutcome, DiskInfo,
};
use sd_volume::theme::AppThemeType;
use sd_volume::types::{DiskType, FileSystem, MountType, VolumeError};

fn disk(fs: &str, removable: bool) -> DiskInfo {
    DiskInfo {
        name: "sdb1".to_string(),
        is_removable: removable,
        mount_point: "/media/usb".to_string(),
        file_system: fs.to_string(),
        total_space: 64_000,
        available_space: 32_000,
    }
}

#[test]
fn parse_size_reads_digits() {
    assert_eq!(parse_size("512000"), 512000);
    assert_eq!(parse_size("1,024 bytes"), 1024);
    assert_eq!(parse_size("  7G"), 7);
}

#[test]
fn parse_size_without_digits_is_zero() {
    assert_eq!(parse_size(""), 0);
    assert_eq!(parse_size("none"), 0);
}

#[test]
fn parse_size_at_the_limit() {
    assert_eq!(parse_size("18446744073709551615"), u64::MAX);
    assert_eq!(parse_size("18446744073709551616"), 0);
    assert_eq!(parse_size("99999999999999999999999"), 0);
}

#[test]
fn virtual_filesystems_in_any_case() {
    assert!(is_virtual_filesystem("tmpfs"));
    assert!(is_virtual_filesystem("TMPFS"));
    assert!(is_virtual_filesystem("DevTmpFs"));
    assert!(is_virtual_filesystem("proc"));
    assert!(!is_virtual_filesystem("ext4"));
    assert!(!is_virtual_filesystem(""));
}

#[test]
fn virtual_names_compare_exactly() {
    assert!(is_virtual_lowered("sysfs"));
    assert!(!is_virtual_lowered("SYSFS"));
    assert!(!is_virtual_lowered("sysfs2"));
}

#[test]
fn filesystem_names_are_classified() {
    assert!(FileSystem::from_string("EXT4") == FileSystem::Ext4);
    assert!(FileSystem::from_string("ntfs") == FileSystem::Ntfs);
    assert!(FileSystem::from_string("ExFAT") == FileSystem::ExFat);
    assert!(FileSystem::from_string("btrfs") == FileSystem::Btrfs);
    assert!(FileSystem::from_string("ZFS") == FileSystem::Other("ZFS".to_string()));
}

#[test]
fn filesystem_from_lowered_name() {
    assert!(FileSystem::from_lowered("apfs", "APFS") == FileSystem::Apfs);
    assert!(FileSystem::from_lowered("APFS", "APFS") == FileSystem::Other("APFS".to_string()));
    assert!(FileSystem::from_lowered("xfs", "XFS") == FileSystem::Other("XFS".to_string()));
}

#[test]
fn read_only_mount_options() {
    assert!(is_read_only_options("ro,relatime\n"));
    assert!(is_read_only_options("nosuid,ro"));
    assert!(is_read_only_options("ro \n"));
    assert!(!is_read_only_options("rw,relatime\n"));
    assert!(!is_read_only_options(""));
}

#[test]
fn rotational_flag_is_trimmed() {
    assert_eq!(disk_type_from_rotational("0\n"), DiskType::SSD);
    assert_eq!(disk_type_from_rotational(" 1 \n"), DiskType::HDD);
    assert_eq!(disk_type_from_rotational("2\n"), DiskType::Unknown);
    assert_eq!(disk_type_from_rotational(""), DiskType::Unknown);
}

#[test]
fn rotational_flag_untrimmed_is_unknown() {
    assert_eq!(disk_type_from_flag("0"), DiskType::SSD);
    assert_eq!(disk_type_from_flag("0\n"), DiskType::Unknown);
}

#[test]
fn rotational_path_strips_dev() {
    assert_eq!(rotational_path("/dev/sda"), "/sys/block/sda/queue/rotational");
    assert_eq!(rotational_path("/dev//dev/nvme0n1"), "/sys/block/nvme0n1/queue/rotational");
    assert_eq!(rotational_path("sdb"), "/sys/block/sdb/queue/rotational");
}

#[test]
fn virtual_or_vanished_disks_are_skipped() {
    assert!(keep_disk(&disk("ext4", false), true));
    assert!(!keep_disk(&disk("ext4", false), false));
    assert!(!keep_disk(&disk("tmpfs", false), true));
    assert!(!keep_disk(&disk("RAMFS", false), true));
}

#[test]
fn volume_built_from_disk() {
    let v = volume_from_disk(disk("vfat", true), DiskType::HDD, true);
    assert_eq!(v.name, "sdb1");
    assert_eq!(v.mount_type, MountType::External);
    assert_eq!(v.mount_point, "/media/usb");
    assert_eq!(v.mount_points, vec!["/media/usb".to_string()]);
    assert_eq!(v.disk_type, DiskType::HDD);
    assert!(v.file_system == FileSystem::Other("vfat".to_string()));
    assert_eq!(v.total_bytes_capacity, 64_000);
    assert_eq!(v.total_bytes_available, 32_000);
    assert!(v.read_only);
    let w = volume_from_disk(disk("ext4", false), DiskType::SSD, false);
    assert_eq!(w.mount_type, MountType::System);
    assert!(w.file_system == FileSystem::Ext4);
}

#[test]
fn graceful_unmount_success_needs_no_fallback() {
    let ok = CommandOutcome::Finished { success: true, stderr: String::new() };
    assert!(graceful_unmount_succeeded(&ok));
}

#[test]
fn busy_volume_falls_back_to_forced_unmount() {
    let busy = CommandOutcome::Finished { success: false, stderr: "target is busy".to_string() };
    assert!(!graceful_unmount_succeeded(&busy));
    let not_run = CommandOutcome::FailedToStart("no umount".to_string());
    assert!(!graceful_unmount_succeeded(&not_run));
    let forced = CommandOutcome::Finished { success: true, stderr: String::new() };
    assert!(forced_unmount_result(forced).is_ok());
}

#[test]
fn both_unmounts_failing_reports_the_forced_attempt() {
    let forced = CommandOutcome::Finished { success: false, stderr: "not mounted".to_string() };
    match forced_unmount_result(forced) {
        Err(VolumeError::Platform(m)) => assert_eq!(m, "Failed to unmount volume: not mounted"),
        _ => panic!("expected a platform error"),
    }
    match forced_unmount_result(CommandOutcome::FailedToStart("denied".to_string())) {
        Err(VolumeError::Platform(m)) => assert_eq!(m, "Lazy unmount failed: denied"),
        _ => panic!("expected a platform error"),
    }
}

#[test]
fn menu_names_round_trip() {
    assert_eq!(MenuEvent::from_name("NewLibrary"), Some(MenuEvent::NewLibrary));
    assert_eq!(MenuEvent::from_name("SelectAll"), Some(MenuEvent::SelectAll));
    assert_eq!(MenuEvent::from_name("selectall"), None);
    assert_eq!(MenuEvent::ReloadWebview.as_str(), "ReloadWebview");
    assert_eq!(MenuEvent::from_name(MenuEvent::Paste.as_str()), Some(MenuEvent::Paste));
}

#[test]
fn menu_keybinds() {
    assert_eq!(MenuEvent::OpenSearch.keybind(), Some("open_search"));
    assert_eq!(MenuEvent::SetLayoutMedia.keybind(), Some("set_layout_media"));
    assert_eq!(MenuEvent::NewWindow.keybind(), None);
    assert_eq!(MenuEvent::ToggleDeveloperTools.keybind(), None);
}

#[test]
fn library_locked_entries() {
    let ids = library_locked_menu_ids();
    assert_eq!(ids.len(), 12);
    assert_eq!(ids[0], MenuEvent::NewWindow);
    assert!(MenuEvent::OpenSettings.is_library_locked());
    assert!(!MenuEvent::Copy.is_library_locked());
}

#[test]
fn theme_codes() {
    assert_eq!(AppThemeType::Auto.code(), -1);
    assert_eq!(AppThemeType::Dark.code(), 1);
    assert_eq!(AppThemeType::from_code(0), Some(AppThemeType::Light));
    assert_eq!(AppThemeType::from_code(2), None);
}
