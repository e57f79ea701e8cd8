//! The authoritative set of known volumes, keyed by fingerprint.
use vstd::prelude::*;
use crate::types::{
    fingerprint_of, DevicePubId, FingerprintView, Volume, VolumeEvent, VolumeFingerprint,
    VolumeView,
};

verus! {

/// Mathematical model of a [`VolumeEvent`].
pub enum VolumeEventView {
    Added(VolumeView),
    Removed(VolumeView),
}

impl View for VolumeEvent {
    type V = VolumeEventView;

    open spec fn view(&self) -> VolumeEventView {
        match self {
            VolumeEvent::VolumeAdded(v) => VolumeEventView::Added(v@),
            VolumeEvent::VolumeRemoved(v) => VolumeEventView::Removed(v@),
        }
    }
}

/// Some volume of `s` has fingerprint `k`.
pub open spec fn has_fp(d: Seq<u8>, s: Seq<VolumeView>, k: FingerprintView) -> bool {
    exists|i: int| 0 <= i < s.len() && fingerprint_of(d, s[i]) == k
}

/// No two volumes of `s` share a fingerprint.
pub open spec fn unique_fps(d: Seq<u8>, s: Seq<VolumeView>) -> bool {
    forall|i: int, j: int|
        0 <= i < s.len() && 0 <= j < s.len() && fingerprint_of(d, s[i]) == fingerprint_of(
            d,
            s[j],
        ) ==> i == j
}

/// The fingerprints of the volumes of `s`.
pub open spec fn fps(d: Seq<u8>, s: Seq<VolumeView>) -> Set<FingerprintView> {
    Set::new(|k: FingerprintView| has_fp(d, s, k))
}

/// The position of the volume of `s` with fingerprint `k`.
pub open spec fn index_of(d: Seq<u8>, s: Seq<VolumeView>, k: FingerprintView) -> int {
    choose|i: int| 0 <= i < s.len() && fingerprint_of(d, s[i]) == k
}

/// `s` with `v` in place of the volume of the same fingerprint, or with `v`
/// appended where there is none.
pub open spec fn with_added(d: Seq<u8>, s: Seq<VolumeView>, v: VolumeView) -> Seq<VolumeView> {
    let k = fingerprint_of(d, v);
    if has_fp(d, s, k) {
        s.update(index_of(d, s, k), v)
    } else {
        s.push(v)
    }
}

/// `s` without the volume whose fingerprint is that of `v`.
pub open spec fn with_removed(d: Seq<u8>, s: Seq<VolumeView>, v: VolumeView) -> Seq<VolumeView> {
    let k = fingerprint_of(d, v);
    if has_fp(d, s, k) {
        s.remove(index_of(d, s, k))
    } else {
        s
    }
}

/// The state `s` after event `e`.
pub open spec fn applied(d: Seq<u8>, s: Seq<VolumeView>, e: VolumeEventView) -> Seq<VolumeView> {
    match e {
        VolumeEventView::Added(v) => with_added(d, s, v),
        VolumeEventView::Removed(v) => with_removed(d, s, v),
    }
}

/// The state `s` after the events `es`, in order.
pub open spec fn applied_all(d: Seq<u8>, s: Seq<VolumeView>, es: Seq<VolumeEventView>) -> Seq<
    VolumeView,
>
    decreases es.len(),
{
    if es.len() == 0 {
        s
    } else {
        applied(d, applied_all(d, s, es.drop_last()), es.last())
    }
}

/// The models of a sequence of volumes.
pub open spec fn volume_views(v: Seq<Volume>) -> Seq<VolumeView> {
    v.map_values(|x: Volume| x@)
}

/// The single owner of the known volumes. Every volume it holds has a
/// fingerprint of its own.
pub struct VolumeManagerActor {
    device_id: DevicePubId,
    volumes: Vec<Volume>,
}

impl VolumeManagerActor {
    /// The device under which fingerprints are taken.
    pub closed spec fn device(&self) -> Seq<u8> {
        self.device_id@
    }

    /// The known volumes.
    pub closed spec fn entries(&self) -> Seq<VolumeView> {
        volume_views(self.volumes@)
    }

    /// The actor's invariant: fingerprints are unique.
    pub open spec fn wf(&self) -> bool {
        unique_fps(self.device(), self.entries())
    }

    /// An actor that knows no volume yet.
    pub fn new(device_id: DevicePubId) -> (r: VolumeManagerActor)
        ensures
            r.wf(),
            r.device() == device_id@,
            r.entries() == Seq::<VolumeView>::empty(),
    {
        let r = VolumeManagerActor { device_id, volumes: Vec::new() };
        assert(r.entries() =~= Seq::<VolumeView>::empty());
        r
    }

    /// The device under which fingerprints are taken.
    pub fn device_id(&self) -> (r: &DevicePubId)
        ensures
            r@ == self.device(),
    {
        &self.device_id
    }

    /// The position of the volume with fingerprint `k`, if there is one.
    fn position(&self, k: &VolumeFingerprint) -> (r: Option<usize>)
        requires
            self.wf(),
        ensures
            r is None <==> !has_fp(self.device(), self.entries(), k@),
            r matches Some(i) ==> i < self.entries().len() && i as int == index_of(
                self.device(),
                self.entries(),
                k@,
            ),
    {
        let mut i: usize = 0;
        while i < self.volumes.len()
            invariant
                self.wf(),
                i <= self.volumes@.len(),
                forall|j: int|
                    0 <= j < i ==> fingerprint_of(self.device(), self.entries()[j]) != k@,
            decreases self.volumes@.len() - i,
        {
            let f = VolumeFingerprint::new(&self.device_id, &self.volumes[i]);
            if f.same_as(k) {
                let ghost d = self.device();
                let ghost s = self.entries();
                assert(fingerprint_of(d, s[i as int]) == k@);
                assert(has_fp(d, s, k@));
                let ghost c = index_of(d, s, k@);
                assert(fingerprint_of(d, s[c]) == k@);
                assert(c == i as int);
                return Some(i);
            }
            i = i + 1;
        }
        None
    }

    /// Whether a volume with this fingerprint is known.
    pub fn volume_exists(&self, fingerprint: VolumeFingerprint) -> (r: bool)
        requires
            self.wf(),
        ensures
            r == fps(self.device(), self.entries()).contains(fingerprint@),
    {
        self.position(&fingerprint).is_some()
    }

    /// A copy of the known volumes.
    pub fn get_volumes(&self) -> (r: Vec<Volume>)
        ensures
            volume_views(r@) == self.entries(),
    {
        let mut r: Vec<Volume> = Vec::new();
        let mut i: usize = 0;
        while i < self.volumes.len()
            invariant
                i <= self.volumes@.len(),
                r@.len() == i,
                forall|j: int| 0 <= j < i ==> r@[j]@ == self.volumes@[j]@,
            decreases self.volumes@.len() - i,
        {
            r.push(self.volumes[i].duplicate());
            i = i + 1;
        }
        assert(volume_views(r@) =~= self.entries());
        r
    }

    /// The primary mount point of the volume with this fingerprint.
    pub fn mount_point_of(&self, fingerprint: &VolumeFingerprint) -> (r: Option<String>)
        requires
            self.wf(),
        ensures
            r is Some <==> fps(self.device(), self.entries()).contains(fingerprint@),
            r matches Some(p) ==> exists|i: int|
                0 <= i < self.entries().len() && fingerprint_of(self.device(), self.entries()[i])
                    == fingerprint@ && p@ == self.entries()[i].mount_point,
    {
        match self.position(fingerprint) {
            Some(i) => Some(self.volumes[i].mount_point.clone()),
            None => None,
        }
    }

    /// Applies a lifecycle event: an added volume replaces the one of the
    /// same fingerprint or joins the state; a removed one leaves it.
    pub fn apply(&mut self, event: VolumeEvent)
        requires
            old(self).wf(),
        ensures
            final(self).wf(),
            final(self).device() == old(self).device(),
            final(self).entries() == applied(old(self).device(), old(self).entries(), event@),
    {
        let ghost d = self.device();
        let ghost s = self.entries();
        let ghost e = event@;
        proof {
            lemma_applied_unique(d, s, e);
        }
        match event {
            VolumeEvent::VolumeAdded(v) => {
                let k = VolumeFingerprint::new(&self.device_id, &v);
                match self.position(&k) {
                    Some(i) => {
                        self.volumes.set(i, v);
                        assert(self.entries() =~= s.update(i as int, e->Added_0));
                    },
                    None => {
                        self.volumes.push(v);
                        assert(self.entries() =~= s.push(e->Added_0));
                    },
                }
            },
            VolumeEvent::VolumeRemoved(v) => {
                let k = VolumeFingerprint::new(&self.device_id, &v);
                match self.position(&k) {
                    Some(i) => {
                        self.volumes.remove(i);
                        assert(self.entries() =~= s.remove(i as int));
                    },
                    None => {},
                }
            },
        }
    }
}

/// The fingerprints after an addition are those before, with the added one.
pub proof fn lemma_with_added(d: Seq<u8>, s: Seq<VolumeView>, v: VolumeView)
    requires
        unique_fps(d, s),
    ensures
        unique_fps(d, with_added(d, s, v)),
        fps(d, with_added(d, s, v)) == fps(d, s).insert(fingerprint_of(d, v)),
{
    let k = fingerprint_of(d, v);
    let t = with_added(d, s, v);
    if has_fp(d, s, k) {
        let c = index_of(d, s, k);
        assert forall|x: FingerprintView| has_fp(d, t, x) <==> (has_fp(d, s, x) || x == k) by {
            if has_fp(d, s, x) {
                let i = choose|i: int| 0 <= i < s.len() && fingerprint_of(d, s[i]) == x;
                if i == c {
                    assert(fingerprint_of(d, t[c]) == x);
                } else {
                    assert(fingerprint_of(d, t[i]) == x);
                }
            }
            if x == k {
                assert(fingerprint_of(d, t[c]) == x);
            }
        }
    } else {
        assert forall|x: FingerprintView| has_fp(d, t, x) <==> (has_fp(d, s, x) || x == k) by {
            if has_fp(d, s, x) {
                let i = choose|i: int| 0 <= i < s.len() && fingerprint_of(d, s[i]) == x;
                assert(fingerprint_of(d, t[i]) == x);
            }
            if x == k {
                assert(fingerprint_of(d, t[s.len() as int]) == x);
            }
            if has_fp(d, t, x) {
                let i = choose|i: int| 0 <= i < t.len() && fingerprint_of(d, t[i]) == x;
                if i < s.len() {
                    assert(fingerprint_of(d, s[i]) == x);
                }
            }
        }
    }
    assert(fps(d, t) =~= fps(d, s).insert(k));
}

/// The fingerprints after a removal are those before, without the removed one.
pub proof fn lemma_with_removed(d: Seq<u8>, s: Seq<VolumeView>, v: VolumeView)
    requires
        unique_fps(d, s),
    ensures
        unique_fps(d, with_removed(d, s, v)),
        fps(d, with_removed(d, s, v)) == fps(d, s).remove(fingerprint_of(d, v)),
{
    let k = fingerprint_of(d, v);
    let t = with_removed(d, s, v);
    if has_fp(d, s, k) {
        let c = index_of(d, s, k);
        assert forall|i: int, j: int|
            0 <= i < t.len() && 0 <= j < t.len() && fingerprint_of(d, t[i]) == fingerprint_of(
                d,
                t[j],
            ) implies i == j by {
            let i2 = if i < c { i } else { i + 1 };
            let j2 = if j < c { j } else { j + 1 };
            assert(t[i] == s[i2]);
            assert(t[j] == s[j2]);
        }
        assert forall|x: FingerprintView| has_fp(d, t, x) <==> (has_fp(d, s, x) && x != k) by {
            if has_fp(d, s, x) && x != k {
                let i = choose|i: int| 0 <= i < s.len() && fingerprint_of(d, s[i]) == x;
                if i < c {
                    assert(fingerprint_of(d, t[i]) == x);
                } else {
                    assert(i != c);
                    assert(fingerprint_of(d, t[i - 1]) == x);
                }
            }
            if has_fp(d, t, x) {
                let i = choose|i: int| 0 <= i < t.len() && fingerprint_of(d, t[i]) == x;
                let i2 = if i < c { i } else { i + 1 };
                assert(t[i] == s[i2]);
                assert(i2 != c);
            }
        }
    } else {
        assert forall|x: FingerprintView| has_fp(d, t, x) <==> (has_fp(d, s, x) && x != k) by {}
    }
    assert(fps(d, t) =~= fps(d, s).remove(k));
}

/// Applying an event keeps fingerprints unique.
pub proof fn lemma_applied_unique(d: Seq<u8>, s: Seq<VolumeView>, e: VolumeEventView)
    requires
        unique_fps(d, s),
    ensures
        unique_fps(d, applied(d, s, e)),
{
    match e {
        VolumeEventView::Added(v) => lemma_with_added(d, s, v),
        VolumeEventView::Removed(v) => lemma_with_removed(d, s, v),
    }
}

/// Adding the same volume twice in a row leaves the state as one addition
/// does, holding exactly one volume with its fingerprint, which is that volume.
pub proof fn lemma_add_idempotent(d: Seq<u8>, s: Seq<VolumeView>, v: VolumeView)
    requires
        unique_fps(d, s),
    ensures
        with_added(d, with_added(d, s, v), v) == with_added(d, s, v),
        exists|i: int|
            0 <= i < with_added(d, s, v).len() && with_added(d, s, v)[i] == v && forall|j: int|
                0 <= j < with_added(d, s, v).len() && fingerprint_of(d, with_added(d, s, v)[j])
                    == fingerprint_of(d, v) ==> j == i,
{
    let k = fingerprint_of(d, v);
    let t = with_added(d, s, v);
    lemma_with_added(d, s, v);
    let c = if has_fp(d, s, k) {
        index_of(d, s, k)
    } else {
        s.len() as int
    };
    assert(t[c] == v);
    assert(has_fp(d, t, k));
    let c2 = index_of(d, t, k);
    assert(c2 == c);
    assert(t.update(c, v) =~= t);
}

} // verus!
