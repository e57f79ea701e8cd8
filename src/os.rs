//! What the platform layer decides from what the OS reports: which disks
//! become volumes, how a volume is built from a disk, and how the outcome of
//! the graceful and forced unmount commands settles an unmount.
use vstd::prelude::*;
use vstd::string::*;
use crate::common::{is_virtual_filesystem, is_virtual_name, lower_of};
use crate::text::{occurs_at, occurs_at_exec};
use crate::types::{
    file_system_of, string_views, DiskType, FileSystem, MountType, Volume, VolumeError,
};

verus! {

/// A disk as the OS lists it, before any probing.
#[derive(Debug, Clone)]
pub struct DiskInfo {
    pub name: String,
    pub is_removable: bool,
    pub mount_point: String,
    pub file_system: String,
    pub total_space: u64,
    pub available_space: u64,
}

/// Whether a listed disk becomes a volume: it holds a real filesystem and its
/// mount point still exists.
pub fn keep_disk(disk: &DiskInfo, mount_point_exists: bool) -> (r: bool)
    ensures
        r == (!is_virtual_name(lower_of(disk.file_system@)) && mount_point_exists),
{
    !is_virtual_filesystem(disk.file_system.as_str()) && mount_point_exists
}

/// The volume of a listed disk, with the media kind and read-only flag that
/// probing found. It is mounted at its mount point alone; a removable disk
/// is external.
pub fn volume_from_disk(disk: DiskInfo, disk_type: DiskType, read_only: bool) -> (r: Volume)
    ensures
        r@.name == disk.name@,
        r@.mount_type == (if disk.is_removable {
            MountType::External
        } else {
            MountType::System
        }),
        r@.mount_point == disk.mount_point@,
        r@.mount_points == seq![disk.mount_point@],
        r@.disk_type == disk_type,
        r@.file_system == file_system_of(disk.file_system@),
        r@.total_bytes_capacity == disk.total_space,
        r@.total_bytes_available == disk.available_space,
        r@.read_only == read_only,
{
    let file_system = FileSystem::from_string(disk.file_system.as_str());
    let mount_type = if disk.is_removable {
        MountType::External
    } else {
        MountType::System
    };
    let mut mount_points: Vec<String> = Vec::new();
    mount_points.push(disk.mount_point.clone());
    assert(string_views(mount_points@) =~= seq![disk.mount_point@]);
    Volume::new(
        disk.name,
        mount_type,
        disk.mount_point,
        mount_points,
        disk_type,
        file_system,
        disk.total_space,
        disk.available_space,
        read_only,
    )
}

/// How a run of an unmount command ended.
#[derive(Debug, Clone)]
pub enum CommandOutcome {
    /// The command ran; `stderr` is what it wrote as diagnostics.
    Finished { success: bool, stderr: String },
    /// The command could not be run; the text says why.
    FailedToStart(String),
}

/// Whether the graceful unmount settled the matter. Where it did not, the
/// forced unmount is to be tried.
pub fn graceful_unmount_succeeded(outcome: &CommandOutcome) -> (r: bool)
    ensures
        r == (*outcome matches CommandOutcome::Finished { success, .. } && success),
{
    match outcome {
        CommandOutcome::Finished { success, .. } => *success,
        CommandOutcome::FailedToStart(_) => false,
    }
}

/// The result of an unmount whose graceful attempt failed, from the outcome
/// of the forced attempt; an error carries that attempt's diagnostic.
pub fn forced_unmount_result(outcome: CommandOutcome) -> (r: Result<(), VolumeError>)
    ensures
        match outcome {
            CommandOutcome::Finished { success, stderr } => if success {
                r is Ok
            } else {
                r matches Err(VolumeError::Platform(m)) && m@ == "Failed to unmount volume: "@
                    + stderr@
            },
            CommandOutcome::FailedToStart(e) => r matches Err(VolumeError::Platform(m)) && m@
                == "Lazy unmount failed: "@ + e@,
        },
{
    match outcome {
        CommandOutcome::Finished { success, stderr } => {
            if success {
                Ok(())
            } else {
                let m = String::from_str("Failed to unmount volume: ").concat(stderr.as_str());
                Err(VolumeError::Platform(m))
            }
        },
        CommandOutcome::FailedToStart(e) => {
            let m = String::from_str("Lazy unmount failed: ").concat(e.as_str());
            Err(VolumeError::Platform(m))
        },
    }
}

/// A device name without any leading "/dev/" prefixes.
pub open spec fn without_dev_prefix(s: Seq<char>) -> Seq<char>
    decreases s.len(),
{
    if occurs_at(s, "/dev/"@, 0) && "/dev/"@.len() > 0 {
        without_dev_prefix(s.subrange("/dev/"@.len() as int, s.len() as int))
    } else {
        s
    }
}

/// The sysfs file that tells whether the block device `device_name` spins.
pub fn rotational_path(device_name: &str) -> (r: String)
    ensures
        r@ == "/sys/block/"@ + without_dev_prefix(device_name@) + "/queue/rotational"@,
{
    proof {
        reveal_strlit("/dev/");
    }
    let mut rest: &str = device_name;
    while occurs_at_exec(rest, "/dev/", 0)
        invariant
            "/dev/"@.len() == 5,
            without_dev_prefix(rest@) == without_dev_prefix(device_name@),
        decreases rest@.len(),
    {
        let n = rest.unicode_len();
        rest = rest.substring_char(5, n);
    }
    String::from_str("/sys/block/").concat(rest).concat("/queue/rotational")
}

} // verus!
