//! The volume data model: what a volume is, how it is identified, the events
//! that describe its lifecycle and the errors of the subsystem.
use vstd::prelude::*;
use vstd::string::*;
use crate::common::{lower_of, lowercase};
use crate::text::str_eq;

verus! {

/// Whether a volume belongs to the machine or was attached to it.
#[derive(Debug, Clone, Copy, PartialEq, Eq, Structural)]
pub enum MountType {
    System,
    External,
}

/// The kind of media under a volume.
#[derive(Debug, Clone, Copy, PartialEq, Eq, Structural)]
pub enum DiskType {
    SSD,
    HDD,
    Unknown,
}

/// The filesystem of a volume, as far as it is recognised.
#[derive(Debug)]
pub enum FileSystem {
    Ntfs,
    Fat32,
    Ext4,
    Apfs,
    ExFat,
    Btrfs,
    /// A filesystem name that is not recognised, as the OS reported it.
    Other(String),
}

/// Mathematical model of a [`FileSystem`].
pub enum FileSystemView {
    Ntfs,
    Fat32,
    Ext4,
    Apfs,
    ExFat,
    Btrfs,
    Other(Seq<char>),
}

impl View for FileSystem {
    type V = FileSystemView;

    open spec fn view(&self) -> FileSystemView {
        match self {
            FileSystem::Ntfs => FileSystemView::Ntfs,
            FileSystem::Fat32 => FileSystemView::Fat32,
            FileSystem::Ext4 => FileSystemView::Ext4,
            FileSystem::Apfs => FileSystemView::Apfs,
            FileSystem::ExFat => FileSystemView::ExFat,
            FileSystem::Btrfs => FileSystemView::Btrfs,
            FileSystem::Other(s) => FileSystemView::Other(s@),
        }
    }
}

/// The filesystem named by an OS-reported string: recognised names are
/// compared without regard to case; anything else is kept as reported.
pub open spec fn file_system_of(s: Seq<char>) -> FileSystemView {
    file_system_named(lower_of(s), s)
}

/// The filesystem whose lowercased name is `l`, reported as `s`.
pub open spec fn file_system_named(l: Seq<char>, s: Seq<char>) -> FileSystemView {
    if l == "ntfs"@ {
        FileSystemView::Ntfs
    } else if l == "fat32"@ {
        FileSystemView::Fat32
    } else if l == "ext4"@ {
        FileSystemView::Ext4
    } else if l == "apfs"@ {
        FileSystemView::Apfs
    } else if l == "exfat"@ {
        FileSystemView::ExFat
    } else if l == "btrfs"@ {
        FileSystemView::Btrfs
    } else {
        FileSystemView::Other(s)
    }
}

impl FileSystem {
    /// Classifies an OS-reported filesystem name.
    pub fn from_string(fs: &str) -> (r: FileSystem)
        ensures
            r@ == file_system_of(fs@),
    {
        let lowered = lowercase(fs);
        FileSystem::from_lowered(lowered.as_str(), fs)
    }

    /// Classifies a filesystem from its lowercased name `l`, keeping the
    /// name as reported, `reported`, where it is not recognised.
    pub fn from_lowered(l: &str, reported: &str) -> (r: FileSystem)
        ensures
            r@ == file_system_named(l@, reported@),
    {
        if str_eq(l, "ntfs") {
            FileSystem::Ntfs
        } else if str_eq(l, "fat32") {
            FileSystem::Fat32
        } else if str_eq(l, "ext4") {
            FileSystem::Ext4
        } else if str_eq(l, "apfs") {
            FileSystem::Apfs
        } else if str_eq(l, "exfat") {
            FileSystem::ExFat
        } else if str_eq(l, "btrfs") {
            FileSystem::Btrfs
        } else {
            FileSystem::Other(reported.to_owned())
        }
    }

    /// Whether two values have the same model.
    pub fn same_as(&self, o: &FileSystem) -> (r: bool)
        ensures
            r == (self@ == o@),
    {
        match self {
            FileSystem::Ntfs => match o {
                FileSystem::Ntfs => true,
                _ => false,
            },
            FileSystem::Fat32 => match o {
                FileSystem::Fat32 => true,
                _ => false,
            },
            FileSystem::Ext4 => match o {
                FileSystem::Ext4 => true,
                _ => false,
            },
            FileSystem::Apfs => match o {
                FileSystem::Apfs => true,
                _ => false,
            },
            FileSystem::ExFat => match o {
                FileSystem::ExFat => true,
                _ => false,
            },
            FileSystem::Btrfs => match o {
                FileSystem::Btrfs => true,
                _ => false,
            },
            FileSystem::Other(a) => match o {
                FileSystem::Other(b) => str_eq(a.as_str(), b.as_str()),
                _ => false,
            },
        }
    }

    /// A copy with the same model.
    pub fn duplicate(&self) -> (r: FileSystem)
        ensures
            r@ == self@,
    {
        match self {
            FileSystem::Ntfs => FileSystem::Ntfs,
            FileSystem::Fat32 => FileSystem::Fat32,
            FileSystem::Ext4 => FileSystem::Ext4,
            FileSystem::Apfs => FileSystem::Apfs,
            FileSystem::ExFat => FileSystem::ExFat,
            FileSystem::Btrfs => FileSystem::Btrfs,
            FileSystem::Other(s) => FileSystem::Other(s.clone()),
        }
    }
}

impl PartialEq for FileSystem {
    fn eq(&self, o: &FileSystem) -> (r: bool) {
        self.same_as(o)
    }
}

impl vstd::std_specs::cmp::PartialEqSpecImpl for FileSystem {
    open spec fn obeys_eq_spec() -> bool {
        true
    }

    open spec fn eq_spec(&self, o: &FileSystem) -> bool {
        self@ == o@
    }
}

/// The identifier of the device (host and session) that observes volumes.
#[derive(Debug, Clone)]
pub struct DevicePubId {
    pub bytes: Vec<u8>,
}

impl View for DevicePubId {
    type V = Seq<u8>;

    open spec fn view(&self) -> Seq<u8> {
        self.bytes@
    }
}

/// A storage volume as one enumeration pass saw it.
#[derive(Debug)]
pub struct Volume {
    pub name: String,
    pub mount_type: MountType,
    pub mount_point: String,
    pub mount_points: Vec<String>,
    pub disk_type: DiskType,
    pub file_system: FileSystem,
    pub total_bytes_capacity: u64,
    pub total_bytes_available: u64,
    pub read_only: bool,
}

/// Mathematical model of a [`Volume`].
pub struct VolumeView {
    pub name: Seq<char>,
    pub mount_type: MountType,
    pub mount_point: Seq<char>,
    pub mount_points: Seq<Seq<char>>,
    pub disk_type: DiskType,
    pub file_system: FileSystemView,
    pub total_bytes_capacity: u64,
    pub total_bytes_available: u64,
    pub read_only: bool,
}

/// The models of a sequence of strings.
pub open spec fn string_views(v: Seq<String>) -> Seq<Seq<char>> {
    v.map_values(|s: String| s@)
}

impl View for Volume {
    type V = VolumeView;

    open spec fn view(&self) -> VolumeView {
        VolumeView {
            name: self.name@,
            mount_type: self.mount_type,
            mount_point: self.mount_point@,
            mount_points: string_views(self.mount_points@),
            disk_type: self.disk_type,
            file_system: self.file_system@,
            total_bytes_capacity: self.total_bytes_capacity,
            total_bytes_available: self.total_bytes_available,
            read_only: self.read_only,
        }
    }
}

/// A copy of a list of strings with the same models.
pub fn copy_strings(v: &Vec<String>) -> (r: Vec<String>)
    ensures
        string_views(r@) == string_views(v@),
{
    let mut r: Vec<String> = Vec::new();
    let mut i: usize = 0;
    while i < v.len()
        invariant
            i <= v@.len(),
            r@.len() == i,
            forall|k: int| 0 <= k < i ==> r@[k]@ == v@[k]@,
        decreases v@.len() - i,
    {
        r.push(v[i].clone());
        i = i + 1;
    }
    assert(string_views(r@) =~= string_views(v@));
    r
}

impl Volume {
    /// Builds a volume from its attributes.
    pub fn new(
        name: String,
        mount_type: MountType,
        mount_point: String,
        mount_points: Vec<String>,
        disk_type: DiskType,
        file_system: FileSystem,
        total_bytes_capacity: u64,
        total_bytes_available: u64,
        read_only: bool,
    ) -> (r: Volume)
        ensures
            r.name == name,
            r.mount_type == mount_type,
            r.mount_point == mount_point,
            r.mount_points == mount_points,
            r.disk_type == disk_type,
            r.file_system == file_system,
            r.total_bytes_capacity == total_bytes_capacity,
            r.total_bytes_available == total_bytes_available,
            r.read_only == read_only,
    {
        Volume {
            name,
            mount_type,
            mount_point,
            mount_points,
            disk_type,
            file_system,
            total_bytes_capacity,
            total_bytes_available,
            read_only,
        }
    }

    /// A copy with the same model.
    pub fn duplicate(&self) -> (r: Volume)
        ensures
            r@ == self@,
    {
        Volume {
            name: self.name.clone(),
            mount_type: self.mount_type,
            mount_point: self.mount_point.clone(),
            mount_points: copy_strings(&self.mount_points),
            disk_type: self.disk_type,
            file_system: self.file_system.duplicate(),
            total_bytes_capacity: self.total_bytes_capacity,
            total_bytes_available: self.total_bytes_available,
            read_only: self.read_only,
        }
    }
}

/// The identity of a volume: the observing device together with the
/// volume's name, primary mount point and filesystem. Capacities and the
/// other mount points take no part in it.
#[derive(Debug)]
pub struct VolumeFingerprint {
    pub device: Vec<u8>,
    pub name: String,
    pub mount_point: String,
    pub file_system: FileSystem,
}

/// Mathematical model of a [`VolumeFingerprint`].
pub struct FingerprintView {
    pub device: Seq<u8>,
    pub name: Seq<char>,
    pub mount_point: Seq<char>,
    pub file_system: FileSystemView,
}

impl View for VolumeFingerprint {
    type V = FingerprintView;

    open spec fn view(&self) -> FingerprintView {
        FingerprintView {
            device: self.device@,
            name: self.name@,
            mount_point: self.mount_point@,
            file_system: self.file_system@,
        }
    }
}

/// The fingerprint of volume `v` as observed by device `device`.
pub open spec fn fingerprint_of(device: Seq<u8>, v: VolumeView) -> FingerprintView {
    FingerprintView {
        device: device,
        name: v.name,
        mount_point: v.mount_point,
        file_system: v.file_system,
    }
}

/// Two passes over the same volume, agreeing in name, primary mount point and
/// filesystem, give it the same fingerprint whatever its capacities or other
/// mount points.
pub proof fn lemma_fingerprint_stable(d: Seq<u8>, v1: VolumeView, v2: VolumeView)
    requires
        v1.name == v2.name,
        v1.mount_point == v2.mount_point,
        v1.file_system == v2.file_system,
    ensures
        fingerprint_of(d, v1) == fingerprint_of(d, v2),
{
}

/// Volumes at different mount points have different fingerprints.
pub proof fn lemma_fingerprint_distinct(d: Seq<u8>, v1: VolumeView, v2: VolumeView)
    requires
        v1.mount_point != v2.mount_point,
    ensures
        fingerprint_of(d, v1) != fingerprint_of(d, v2),
{
    assert(fingerprint_of(d, v1).mount_point != fingerprint_of(d, v2).mount_point);
}

/// Element-wise equality of two byte vectors.
fn bytes_eq(a: &Vec<u8>, b: &Vec<u8>) -> (r: bool)
    ensures
        r == (a@ == b@),
{
    if a.len() != b.len() {
        return false;
    }
    let mut i: usize = 0;
    while i < a.len()
        invariant
            a@.len() == b@.len(),
            i <= a@.len(),
            forall|k: int| 0 <= k < i ==> a@[k] == b@[k],
        decreases a@.len() - i,
    {
        if a[i] != b[i] {
            return false;
        }
        i = i + 1;
    }
    assert(a@ =~= b@);
    true
}

impl VolumeFingerprint {
    /// The fingerprint of `volume` as observed by `device_id`.
    pub fn new(device_id: &DevicePubId, volume: &Volume) -> (r: VolumeFingerprint)
        ensures
            r@ == fingerprint_of(device_id@, volume@),
    {
        VolumeFingerprint {
            device: device_id.bytes.clone(),
            name: volume.name.clone(),
            mount_point: volume.mount_point.clone(),
            file_system: volume.file_system.duplicate(),
        }
    }

    /// Whether two fingerprints have the same model.
    pub fn same_as(&self, o: &VolumeFingerprint) -> (r: bool)
        ensures
            r == (self@ == o@),
    {
        bytes_eq(&self.device, &o.device) && str_eq(self.name.as_str(), o.name.as_str())
            && str_eq(self.mount_point.as_str(), o.mount_point.as_str())
            && self.file_system.same_as(&o.file_system)
    }
}

impl PartialEq for VolumeFingerprint {
    fn eq(&self, o: &VolumeFingerprint) -> (r: bool) {
        self.same_as(o)
    }
}

impl vstd::std_specs::cmp::PartialEqSpecImpl for VolumeFingerprint {
    open spec fn obeys_eq_spec() -> bool {
        true
    }

    open spec fn eq_spec(&self, o: &VolumeFingerprint) -> bool {
        self@ == o@
    }
}

/// A change in the set of volumes.
#[derive(Debug)]
pub enum VolumeEvent {
    VolumeAdded(Volume),
    VolumeRemoved(Volume),
}

/// The errors of the volume subsystem.
#[derive(Debug, Clone)]
pub enum VolumeError {
    /// An OS call, process invocation or task failed; the text says how.
    Platform(String),
    /// The operation is not available on this platform.
    Unsupported,
}

} // verus!
