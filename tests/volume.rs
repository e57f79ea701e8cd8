use sd_volume::actor::VolumeManagerActor;
use sd_volume::types::{
    DevicePubId, DiskType, FileSystem, MountType, Volume, VolumeError, VolumeEvent,
    VolumeFingerprint,
};
use sd_volume::watcher::VolumeWatcher;

fn device() -> DevicePubId {
    DevicePubId { bytes: vec![1, 2, 3, 4] }
}

fn volume(name: &str, mount: &str, total: u64, available: u64) -> Volume {
    Volume::new(
        name.to_string(),
        MountType::External,
        mount.to_string(),
        vec![mount.to_string()],
        DiskType::SSD,
        FileSystem::Ext4,
        total,
        available,
        false,
    )
}

fn names(vs: &[Volume]) -> Vec<String> {
    vs.iter().map(|v| v.name.clone()).collect()
}

#[test]
fn fingerprint_stable_across_passes() {
    let d = device();
    let first = volume("DATA", "/mnt/data", 1000, 400);
    let mut second = volume("DATA", "/mnt/data", 2000, 100);
    second.mount_points = vec!["/mnt/other".to_string(), "/mnt/data".to_string()];
    assert!(VolumeFingerprint::new(&d, &first) == VolumeFingerprint::new(&d, &second));
}

#[test]
fn fingerprint_differs_by_mount_point() {
    let d = device();
    let a = volume("DATA", "/mnt/data", 1000, 400);
    let b = volume("DATA", "/mnt/backup", 1000, 400);
    assert!(VolumeFingerprint::new(&d, &a) != VolumeFingerprint::new(&d, &b));
}

#[test]
fn fingerprint_differs_by_device() {
    let a = volume("DATA", "/mnt/data", 1000, 400);
    let other = DevicePubId { bytes: vec![9] };
    assert!(VolumeFingerprint::new(&device(), &a) != VolumeFingerprint::new(&other, &a));
}

#[test]
fn adding_twice_keeps_one_entry() {
    let mut actor = VolumeManagerActor::new(device());
    let v = volume("DATA", "/mnt/data", 1000, 400);
    actor.apply(VolumeEvent::VolumeAdded(v.duplicate()));
    actor.apply(VolumeEvent::VolumeAdded(v.duplicate()));
    assert_eq!(actor.get_volumes().len(), 1);
    let f = VolumeFingerprint::new(&device(), &v);
    assert!(actor.volume_exists(f));
}

#[test]
fn adding_again_replaces_the_volume() {
    let mut actor = VolumeManagerActor::new(device());
    actor.apply(VolumeEvent::VolumeAdded(volume("DATA", "/mnt/data", 1000, 400)));
    actor.apply(VolumeEvent::VolumeAdded(volume("DATA", "/mnt/data", 1000, 10)));
    let vs = actor.get_volumes();
    assert_eq!(vs.len(), 1);
    assert_eq!(vs[0].total_bytes_available, 10);
}

#[test]
fn removing_an_unknown_volume_changes_nothing() {
    let mut actor = VolumeManagerActor::new(device());
    actor.apply(VolumeEvent::VolumeAdded(volume("DATA", "/mnt/data", 1000, 400)));
    actor.apply(VolumeEvent::VolumeRemoved(volume("USB", "/media/usb", 10, 1)));
    assert_eq!(names(&actor.get_volumes()), vec!["DATA".to_string()]);
}

#[test]
fn snapshot_is_a_copy() {
    let mut actor = VolumeManagerActor::new(device());
    actor.apply(VolumeEvent::VolumeAdded(volume("DATA", "/mnt/data", 1000, 400)));
    let mut snapshot = actor.get_volumes();
    snapshot.clear();
    assert_eq!(actor.get_volumes().len(), 1);
}

#[test]
fn new_volume_is_announced_and_applied() {
    let mut actor = VolumeManagerActor::new(device());
    let watcher = VolumeWatcher::new(0);
    let data = volume("DATA", "/mnt/data", 1000, 400);
    let events = watcher.diff(&vec![data.duplicate()], &actor);
    assert_eq!(events.len(), 1);
    match &events[0] {
        VolumeEvent::VolumeAdded(v) => assert_eq!(v.name, "DATA"),
        VolumeEvent::VolumeRemoved(_) => panic!("expected an addition"),
    }
    for e in events {
        actor.apply(e);
    }
    assert!(actor.volume_exists(VolumeFingerprint::new(&device(), &data)));
}

#[test]
fn unplugged_volume_is_removed() {
    let mut actor = VolumeManagerActor::new(device());
    actor.apply(VolumeEvent::VolumeAdded(volume("DATA", "/mnt/data", 1000, 400)));
    let watcher = VolumeWatcher::new(0);
    let events = watcher.diff(&Vec::new(), &actor);
    assert_eq!(events.len(), 1);
    match &events[0] {
        VolumeEvent::VolumeRemoved(v) => assert_eq!(v.name, "DATA"),
        VolumeEvent::VolumeAdded(_) => panic!("expected a removal"),
    }
    for e in events {
        actor.apply(e);
    }
    assert!(actor.get_volumes().is_empty());
}

#[test]
fn one_cycle_converges_to_the_enumeration() {
    let mut actor = VolumeManagerActor::new(device());
    actor.apply(VolumeEvent::VolumeAdded(volume("OLD", "/mnt/old", 1, 1)));
    actor.apply(VolumeEvent::VolumeAdded(volume("KEEP", "/mnt/keep", 1, 1)));
    let watcher = VolumeWatcher::new(0);
    let found = vec![
        volume("KEEP", "/mnt/keep", 5, 5),
        volume("NEW", "/mnt/new", 1, 1),
        volume("NEW", "/mnt/new", 2, 2),
    ];
    let events = watcher.diff(&found, &actor);
    for e in events {
        actor.apply(e);
    }
    let mut got = names(&actor.get_volumes());
    got.sort();
    assert_eq!(got, vec!["KEEP".to_string(), "NEW".to_string()]);
}

#[test]
fn no_events_when_nothing_changed() {
    let mut actor = VolumeManagerActor::new(device());
    actor.apply(VolumeEvent::VolumeAdded(volume("DATA", "/mnt/data", 1000, 400)));
    let watcher = VolumeWatcher::new(0);
    let events = watcher.diff(&vec![volume("DATA", "/mnt/data", 900, 300)], &actor);
    assert!(events.is_empty());
}

#[test]
fn ignored_path_suppresses_removal() {
    let mut actor = VolumeManagerActor::new(device());
    actor.apply(VolumeEvent::VolumeAdded(volume("DATA", "/mnt/data", 1000, 400)));
    let mut watcher = VolumeWatcher::new(0);
    watcher.ignore_path("/mnt/data".to_string());
    assert!(watcher.is_ignored("/mnt/data"));
    assert!(watcher.diff(&Vec::new(), &actor).is_empty());
    watcher.unignore_path(&"/mnt/data".to_string());
    assert!(!watcher.is_ignored("/mnt/data"));
    assert_eq!(watcher.diff(&Vec::new(), &actor).len(), 1);
}

#[test]
fn ignored_path_suppresses_addition() {
    let actor = VolumeManagerActor::new(device());
    let mut watcher = VolumeWatcher::new(0);
    watcher.ignore_path("/media/usb".to_string());
    watcher.ignore_path("/media/usb".to_string());
    let found = vec![volume("USB", "/media/usb", 1, 1), volume("DATA", "/mnt/data", 1, 1)];
    let events = watcher.diff(&found, &actor);
    assert_eq!(events.len(), 1);
    watcher.unignore_path(&"/media/usb".to_string());
    assert_eq!(watcher.diff(&found, &actor).len(), 2);
}

#[test]
fn triggers_ten_ms_apart_give_one_pass() {
    let mut watcher = VolumeWatcher::new(0);
    let passes = [watcher.on_trigger(1000), watcher.on_trigger(1010)];
    assert_eq!(passes.iter().filter(|p| **p).count(), 1);
}

#[test]
fn triggers_500_ms_apart_give_two_passes() {
    let mut watcher = VolumeWatcher::new(0);
    assert!(watcher.on_trigger(1000));
    assert!(watcher.on_trigger(1500));
}

#[test]
fn trigger_right_after_start_is_dropped() {
    let mut watcher = VolumeWatcher::new(1000);
    assert!(!watcher.on_trigger(1050));
    assert!(watcher.on_trigger(1100));
}

#[test]
fn trigger_from_an_earlier_clock_is_dropped() {
    let mut watcher = VolumeWatcher::new(1000);
    assert!(!watcher.on_trigger(10));
}

#[test]
fn stop_ends_running() {
    let mut watcher = VolumeWatcher::new(0);
    assert!(watcher.is_running());
    watcher.stop();
    assert!(!watcher.is_running());
}

#[test]
fn mount_point_lookup_by_fingerprint() {
    let mut actor = VolumeManagerActor::new(device());
    let v = volume("DATA", "/mnt/data", 1, 1);
    actor.apply(VolumeEvent::VolumeAdded(v.duplicate()));
    let f = VolumeFingerprint::new(&device(), &v);
    assert_eq!(actor.mount_point_of(&f), Some("/mnt/data".to_string()));
    let other = volume("USB", "/media/usb", 1, 1);
    assert_eq!(actor.mount_point_of(&VolumeFingerprint::new(&device(), &other)), None);
}

#[test]
fn mobile_platform_has_no_volumes() {
    let r = sd_volume::mobile::get_volumes();
    assert!(matches!(r, Ok(v) if v.is_empty()));
    assert!(matches!(sd_volume::mobile::unmount_volume("/mnt/data"), Err(VolumeError::Unsupported)));
}

#[test]
fn failed_enumeration_yields_no_events() {
    let mut actor = VolumeManagerActor::new(device());
    actor.apply(VolumeEvent::VolumeAdded(volume("DATA", "/mnt/data", 1000, 400)));
    let watcher = VolumeWatcher::new(0);
    let failed: Result<Vec<Volume>, VolumeError> = Err(VolumeError::Platform("boom".to_string()));
    assert!(watcher.events_for(&failed, &actor).is_empty());
    let empty: Result<Vec<Volume>, VolumeError> = Ok(Vec::new());
    assert_eq!(watcher.events_for(&empty, &actor).len(), 1);
}
