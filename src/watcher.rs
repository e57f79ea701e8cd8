//! The decisions of change detection: whether the watcher runs, which mount
//! points are ignored, which triggers pass the debounce window, and which
//! lifecycle events a fresh enumeration calls for.
use vstd::prelude::*;
use crate::actor::{
    applied, applied_all, fps, has_fp, lemma_applied_unique, lemma_with_added, lemma_with_removed,
    unique_fps, volume_views, VolumeEventView, VolumeManagerActor,
};
use crate::text::str_eq;
use crate::types::{
    fingerprint_of, DevicePubId, FingerprintView, Volume, VolumeError, VolumeEvent,
    VolumeFingerprint, VolumeView,
};

verus! {

/// Triggers closer than this many milliseconds to the last processed one are
/// dropped.
pub const DEBOUNCE_MS: u64 = 100;

/// A trigger at `now` passes when at least the debounce window has gone by
/// since the last processed trigger at `last` (a clock that went backwards
/// counts as no time at all).
pub open spec fn debounce_passes(last: u64, now: u64) -> bool {
    now >= last && now - last >= DEBOUNCE_MS
}

/// The `Added` events for the volumes of `found` that are neither ignored
/// nor known, in the order of `found`.
pub open spec fn added_events(
    d: Seq<u8>,
    found: Seq<VolumeView>,
    known: Seq<VolumeView>,
    ignored: Set<Seq<char>>,
) -> Seq<VolumeEventView>
    decreases found.len(),
{
    if found.len() == 0 {
        Seq::empty()
    } else {
        let rest = added_events(d, found.drop_last(), known, ignored);
        let v = found.last();
        if !ignored.contains(v.mount_point) && !has_fp(d, known, fingerprint_of(d, v)) {
            rest.push(VolumeEventView::Added(v))
        } else {
            rest
        }
    }
}

/// The `Removed` events for the volumes of `known` that are not ignored and
/// whose fingerprint is not among those of `found`, in the order of `known`.
pub open spec fn removed_events(
    d: Seq<u8>,
    found: Seq<VolumeView>,
    known: Seq<VolumeView>,
    ignored: Set<Seq<char>>,
) -> Seq<VolumeEventView>
    decreases known.len(),
{
    if known.len() == 0 {
        Seq::empty()
    } else {
        let rest = removed_events(d, found, known.drop_last(), ignored);
        let v = known.last();
        if !ignored.contains(v.mount_point) && !has_fp(d, found, fingerprint_of(d, v)) {
            rest.push(VolumeEventView::Removed(v))
        } else {
            rest
        }
    }
}

/// The events of one detection cycle: additions, then removals.
pub open spec fn diff_events(
    d: Seq<u8>,
    found: Seq<VolumeView>,
    known: Seq<VolumeView>,
    ignored: Set<Seq<char>>,
) -> Seq<VolumeEventView> {
    added_events(d, found, known, ignored) + removed_events(d, found, known, ignored)
}

/// The models of a sequence of events.
pub open spec fn event_views(v: Seq<VolumeEvent>) -> Seq<VolumeEventView> {
    v.map_values(|e: VolumeEvent| e@)
}

/// The models of a sequence of strings, as a set.
pub open spec fn path_set(v: Seq<String>) -> Set<Seq<char>> {
    Set::new(|p: Seq<char>| exists|i: int| 0 <= i < v.len() && v[i]@ == p)
}

/// Whether some volume of `list` has fingerprint `k` under device `d`.
fn list_has_fp(list: &Vec<Volume>, d: &DevicePubId, k: &VolumeFingerprint) -> (r: bool)
    ensures
        r == has_fp(d@, volume_views(list@), k@),
{
    let ghost s = volume_views(list@);
    let mut i: usize = 0;
    while i < list.len()
        invariant
            s == volume_views(list@),
            i <= list@.len(),
            forall|j: int| 0 <= j < i ==> fingerprint_of(d@, s[j]) != k@,
        decreases list@.len() - i,
    {
        let f = VolumeFingerprint::new(d, &list[i]);
        assert(s[i as int] == list@[i as int]@);
        if f.same_as(k) {
            assert(fingerprint_of(d@, s[i as int]) == k@);
            return true;
        }
        i = i + 1;
    }
    false
}

/// The state of change detection: whether it runs, the mount points whose
/// events are suppressed, and when the last trigger was processed.
pub struct VolumeWatcher {
    running: bool,
    ignored_paths: Vec<String>,
    last_check_ms: u64,
}

impl VolumeWatcher {
    /// Whether the detection loop is to go on.
    pub closed spec fn running(&self) -> bool {
        self.running
    }

    /// The ignored mount points.
    pub closed spec fn ignored(&self) -> Set<Seq<char>> {
        path_set(self.ignored_paths@)
    }

    /// When the last trigger was processed, in milliseconds.
    pub closed spec fn last_check(&self) -> u64 {
        self.last_check_ms
    }

    /// A running watcher with nothing ignored, started at `now_ms`.
    pub fn new(now_ms: u64) -> (r: VolumeWatcher)
        ensures
            r.running(),
            r.ignored() == Set::<Seq<char>>::empty(),
            r.last_check() == now_ms,
    {
        let r = VolumeWatcher { running: true, ignored_paths: Vec::new(), last_check_ms: now_ms };
        assert(r.ignored() =~= Set::<Seq<char>>::empty());
        r
    }

    /// Whether the detection loop is to go on.
    pub fn is_running(&self) -> (r: bool)
        ensures
            r == self.running(),
    {
        self.running
    }

    /// Asks the detection loop to end.
    pub fn stop(&mut self)
        ensures
            !final(self).running(),
            final(self).ignored() == old(self).ignored(),
            final(self).last_check() == old(self).last_check(),
    {
        self.running = false;
    }

    /// Whether events for volumes mounted at `path` are suppressed.
    pub fn is_ignored(&self, path: &str) -> (r: bool)
        ensures
            r == self.ignored().contains(path@),
    {
        let mut i: usize = 0;
        while i < self.ignored_paths.len()
            invariant
                i <= self.ignored_paths@.len(),
                forall|j: int| 0 <= j < i ==> self.ignored_paths@[j]@ != path@,
            decreases self.ignored_paths@.len() - i,
        {
            if str_eq(self.ignored_paths[i].as_str(), path) {
                return true;
            }
            i = i + 1;
        }
        false
    }

    /// Suppresses events for volumes mounted at `path` until it is unignored.
    pub fn ignore_path(&mut self, path: String)
        ensures
            final(self).ignored() == old(self).ignored().insert(path@),
            final(self).running() == old(self).running(),
            final(self).last_check() == old(self).last_check(),
    {
        let ghost p = path@;
        if !self.is_ignored(path.as_str()) {
            self.ignored_paths.push(path);
            assert forall|x: Seq<char>| #[trigger]
                self.ignored().contains(x) <==> old(self).ignored().contains(x) || x == p by {
                if old(self).ignored().contains(x) {
                    let i = choose|i: int|
                        0 <= i < old(self).ignored_paths@.len() && old(self).ignored_paths@[i]@
                            == x;
                    assert(self.ignored_paths@[i]@ == x);
                }
                if x == p {
                    assert(self.ignored_paths@[old(self).ignored_paths@.len() as int]@ == x);
                }
            }
        }
        assert(self.ignored() =~= old(self).ignored().insert(p));
    }

    /// Lets events for volumes mounted at `path` through again.
    pub fn unignore_path(&mut self, path: &String)
        ensures
            final(self).ignored() == old(self).ignored().remove(path@),
            final(self).running() == old(self).running(),
            final(self).last_check() == old(self).last_check(),
    {
        let mut kept: Vec<String> = Vec::new();
        let mut i: usize = 0;
        while i < self.ignored_paths.len()
            invariant
                i <= self.ignored_paths@.len(),
                forall|x: Seq<char>| #[trigger]
                    path_set(kept@).contains(x) <==> (x != path@ && exists|j: int|
                        0 <= j < i && self.ignored_paths@[j]@ == x),
            decreases self.ignored_paths@.len() - i,
        {
            let ghost before = kept@;
            if !str_eq(self.ignored_paths[i].as_str(), path.as_str()) {
                kept.push(self.ignored_paths[i].clone());
                assert forall|x: Seq<char>| #[trigger]
                    path_set(kept@).contains(x) <==> (path_set(before).contains(x)
                        || x == self.ignored_paths@[i as int]@) by {
                    if path_set(before).contains(x) {
                        let j = choose|j: int| 0 <= j < before.len() && before[j]@ == x;
                        assert(kept@[j]@ == x);
                    }
                    if x == self.ignored_paths@[i as int]@ {
                        assert(kept@[before.len() as int]@ == x);
                    }
                    if path_set(kept@).contains(x) {
                        let j = choose|j: int| 0 <= j < kept@.len() && kept@[j]@ == x;
                        if j < before.len() {
                            assert(before[j]@ == x);
                        }
                    }
                }
            }
            i = i + 1;
        }
        self.ignored_paths = kept;
        assert(self.ignored() =~= old(self).ignored().remove(path@));
    }

    /// The lifecycle events that a fresh enumeration `discovered` calls for
    /// against the actor's state: an addition for each discovered volume whose
    /// fingerprint the actor does not know, then a removal for each known
    /// volume whose fingerprint was not discovered; volumes mounted at an
    /// ignored path get neither. The actor is only read.
    pub fn diff(&self, discovered: &Vec<Volume>, actor: &VolumeManagerActor) -> (r: Vec<
        VolumeEvent,
    >)
        requires
            actor.wf(),
        ensures
            event_views(r@) == diff_events(
                actor.device(),
                volume_views(discovered@),
                actor.entries(),
                self.ignored(),
            ),
    {
        let device = actor.device_id();
        let ghost d = actor.device();
        let ghost found = volume_views(discovered@);
        let ghost known = actor.entries();
        let ghost ig = self.ignored();
        let mut events: Vec<VolumeEvent> = Vec::new();
        let mut i: usize = 0;
        while i < discovered.len()
            invariant
                actor.wf(),
                d == actor.device(),
                device@ == d,
                found == volume_views(discovered@),
                known == actor.entries(),
                ig == self.ignored(),
                i <= discovered@.len(),
                event_views(events@) == added_events(d, found.subrange(0, i as int), known, ig),
            decreases discovered@.len() - i,
        {
            let v = &discovered[i];
            let f = VolumeFingerprint::new(device, v);
            let ghost prev = events@;
            assert(found.subrange(0, i + 1).drop_last() =~= found.subrange(0, i as int));
            if !self.is_ignored(v.mount_point.as_str()) && !actor.volume_exists(f) {
                events.push(VolumeEvent::VolumeAdded(v.duplicate()));
                assert(event_views(events@) =~= event_views(prev).push(
                    VolumeEventView::Added(found[i as int]),
                ));
            }
            i = i + 1;
        }
        assert(found.subrange(0, found.len() as int) =~= found);
        let ghost added = event_views(events@);
        let known_list = actor.get_volumes();
        let mut j: usize = 0;
        while j < known_list.len()
            invariant
                d == actor.device(),
                device@ == d,
                found == volume_views(discovered@),
                known == volume_views(known_list@),
                ig == self.ignored(),
                j <= known_list@.len(),
                event_views(events@) == added + removed_events(
                    d,
                    found,
                    known.subrange(0, j as int),
                    ig,
                ),
            decreases known_list@.len() - j,
        {
            let v = &known_list[j];
            let f = VolumeFingerprint::new(device, v);
            let ghost prev = events@;
            assert(known.subrange(0, j + 1).drop_last() =~= known.subrange(0, j as int));
            if !self.is_ignored(v.mount_point.as_str()) && !list_has_fp(discovered, device, &f) {
                events.push(VolumeEvent::VolumeRemoved(v.duplicate()));
                assert(event_views(events@) =~= event_views(prev).push(
                    VolumeEventView::Removed(known[j as int]),
                ));
            }
            j = j + 1;
        }
        assert(known.subrange(0, known.len() as int) =~= known);
        events
    }

    /// The events of a detection cycle from the outcome of its enumeration.
    /// A failed enumeration is taken as no news: it yields no event, so that
    /// it never reads as the loss of every volume.
    pub fn events_for(
        &self,
        enumerated: &Result<Vec<Volume>, VolumeError>,
        actor: &VolumeManagerActor,
    ) -> (r: Vec<VolumeEvent>)
        requires
            actor.wf(),
        ensures
            enumerated is Err ==> r@.len() == 0,
            enumerated matches Ok(found) ==> event_views(r@) == diff_events(
                actor.device(),
                volume_views(found@),
                actor.entries(),
                self.ignored(),
            ),
    {
        match enumerated {
            Ok(found) => self.diff(found, actor),
            Err(_) => Vec::new(),
        }
    }

    /// Decides whether a trigger at `now_ms` starts an enumeration pass, and
    /// records it as the last processed one if it does.
    pub fn on_trigger(&mut self, now_ms: u64) -> (r: bool)
        ensures
            r == debounce_passes(old(self).last_check(), now_ms),
            final(self).last_check() == (if r {
                now_ms
            } else {
                old(self).last_check()
            }),
            final(self).running() == old(self).running(),
            final(self).ignored() == old(self).ignored(),
    {
        if now_ms >= self.last_check_ms && now_ms - self.last_check_ms >= DEBOUNCE_MS {
            self.last_check_ms = now_ms;
            true
        } else {
            false
        }
    }
}

/// The fingerprints that the additions of a cycle bring.
pub open spec fn added_fps(
    d: Seq<u8>,
    found: Seq<VolumeView>,
    known: Seq<VolumeView>,
    ignored: Set<Seq<char>>,
) -> Set<FingerprintView> {
    Set::new(
        |k: FingerprintView|
            exists|i: int|
                0 <= i < found.len() && !ignored.contains(found[i].mount_point) && !has_fp(
                    d,
                    known,
                    fingerprint_of(d, found[i]),
                ) && fingerprint_of(d, found[i]) == k,
    )
}

/// The fingerprints that the removals of a cycle take away.
pub open spec fn removed_fps(
    d: Seq<u8>,
    found: Seq<VolumeView>,
    known: Seq<VolumeView>,
    ignored: Set<Seq<char>>,
) -> Set<FingerprintView> {
    Set::new(
        |k: FingerprintView|
            exists|i: int|
                0 <= i < known.len() && !ignored.contains(known[i].mount_point) && !has_fp(
                    d,
                    found,
                    fingerprint_of(d, known[i]),
                ) && fingerprint_of(d, known[i]) == k,
    )
}

/// Applying one event after a sequence of them is applying the longer
/// sequence.
proof fn lemma_applied_all_push(d: Seq<u8>, s: Seq<VolumeView>, es: Seq<VolumeEventView>, e: VolumeEventView)
    ensures
        applied_all(d, s, es.push(e)) == applied(d, applied_all(d, s, es), e),
{
    assert(es.push(e).drop_last() =~= es);
}

/// Applying events keeps fingerprints unique.
proof fn lemma_applied_all_unique(d: Seq<u8>, s: Seq<VolumeView>, es: Seq<VolumeEventView>)
    requires
        unique_fps(d, s),
    ensures
        unique_fps(d, applied_all(d, s, es)),
    decreases es.len(),
{
    if es.len() > 0 {
        lemma_applied_all_unique(d, s, es.drop_last());
        lemma_applied_unique(d, applied_all(d, s, es.drop_last()), es.last());
    }
}

/// Applying two sequences of events one after the other is applying their
/// concatenation.
proof fn lemma_applied_all_concat(
    d: Seq<u8>,
    s: Seq<VolumeView>,
    a: Seq<VolumeEventView>,
    b: Seq<VolumeEventView>,
)
    ensures
        applied_all(d, s, a + b) == applied_all(d, applied_all(d, s, a), b),
    decreases b.len(),
{
    if b.len() == 0 {
        assert(a + b =~= a);
    } else {
        lemma_applied_all_concat(d, s, a, b.drop_last());
        assert((a + b).drop_last() =~= a + b.drop_last());
        assert((a + b).last() == b.last());
    }
}

/// The additions of a cycle add their fingerprints.
proof fn lemma_added_fps(
    d: Seq<u8>,
    s: Seq<VolumeView>,
    found: Seq<VolumeView>,
    known: Seq<VolumeView>,
    ignored: Set<Seq<char>>,
)
    requires
        unique_fps(d, s),
    ensures
        fps(d, applied_all(d, s, added_events(d, found, known, ignored))) == fps(d, s).union(
            added_fps(d, found, known, ignored),
        ),
    decreases found.len(),
{
    if found.len() == 0 {
        assert(added_fps(d, found, known, ignored) =~= Set::empty());
        assert(fps(d, s).union(Set::empty()) =~= fps(d, s));
    } else {
        let prev = found.drop_last();
        let v = found.last();
        let es = added_events(d, prev, known, ignored);
        lemma_added_fps(d, s, prev, known, ignored);
        lemma_applied_all_unique(d, s, es);
        let keep = !ignored.contains(v.mount_point) && !has_fp(d, known, fingerprint_of(d, v));
        let k = fingerprint_of(d, v);
        assert forall|x: FingerprintView| #[trigger]
            added_fps(d, found, known, ignored).contains(x) <==> (added_fps(
                d,
                prev,
                known,
                ignored,
            ).contains(x) || (keep && x == k)) by {
            if added_fps(d, prev, known, ignored).contains(x) {
                let i = choose|i: int|
                    0 <= i < prev.len() && !ignored.contains(prev[i].mount_point) && !has_fp(
                        d,
                        known,
                        fingerprint_of(d, prev[i]),
                    ) && fingerprint_of(d, prev[i]) == x;
                assert(found[i] == prev[i]);
            }
            if keep && x == k {
                assert(found[found.len() - 1] == v);
            }
            if added_fps(d, found, known, ignored).contains(x) {
                let i = choose|i: int|
                    0 <= i < found.len() && !ignored.contains(found[i].mount_point) && !has_fp(
                        d,
                        known,
                        fingerprint_of(d, found[i]),
                    ) && fingerprint_of(d, found[i]) == x;
                if i < prev.len() {
                    assert(found[i] == prev[i]);
                }
            }
        }
        if keep {
            lemma_applied_all_push(d, s, es, VolumeEventView::Added(v));
            lemma_with_added(d, applied_all(d, s, es), v);
        }
        assert(fps(d, applied_all(d, s, added_events(d, found, known, ignored))) =~= fps(
            d,
            s,
        ).union(added_fps(d, found, known, ignored)));
    }
}

/// The removals of a cycle take their fingerprints away.
proof fn lemma_removed_fps(
    d: Seq<u8>,
    s: Seq<VolumeView>,
    found: Seq<VolumeView>,
    known: Seq<VolumeView>,
    ignored: Set<Seq<char>>,
)
    requires
        unique_fps(d, s),
    ensures
        fps(d, applied_all(d, s, removed_events(d, found, known, ignored))) == fps(
            d,
            s,
        ).difference(removed_fps(d, found, known, ignored)),
    decreases known.len(),
{
    if known.len() == 0 {
        assert(removed_fps(d, found, known, ignored) =~= Set::empty());
        assert(fps(d, s).difference(Set::empty()) =~= fps(d, s));
    } else {
        let prev = known.drop_last();
        let v = known.last();
        let es = removed_events(d, found, prev, ignored);
        lemma_removed_fps(d, s, found, prev, ignored);
        lemma_applied_all_unique(d, s, es);
        let keep = !ignored.contains(v.mount_point) && !has_fp(d, found, fingerprint_of(d, v));
        let k = fingerprint_of(d, v);
        assert forall|x: FingerprintView| #[trigger]
            removed_fps(d, found, known, ignored).contains(x) <==> (removed_fps(
                d,
                found,
                prev,
                ignored,
            ).contains(x) || (keep && x == k)) by {
            if removed_fps(d, found, prev, ignored).contains(x) {
                let i = choose|i: int|
                    0 <= i < prev.len() && !ignored.contains(prev[i].mount_point) && !has_fp(
                        d,
                        found,
                        fingerprint_of(d, prev[i]),
                    ) && fingerprint_of(d, prev[i]) == x;
                assert(known[i] == prev[i]);
            }
            if keep && x == k {
                assert(known[known.len() - 1] == v);
            }
            if removed_fps(d, found, known, ignored).contains(x) {
                let i = choose|i: int|
                    0 <= i < known.len() && !ignored.contains(known[i].mount_point) && !has_fp(
                        d,
                        found,
                        fingerprint_of(d, known[i]),
                    ) && fingerprint_of(d, known[i]) == x;
                if i < prev.len() {
                    assert(known[i] == prev[i]);
                }
            }
        }
        if keep {
            lemma_applied_all_push(d, s, es, VolumeEventView::Removed(v));
            lemma_with_removed(d, applied_all(d, s, es), v);
        }
        assert(fps(d, applied_all(d, s, removed_events(d, found, known, ignored))) =~= fps(
            d,
            s,
        ).difference(removed_fps(d, found, known, ignored)));
    }
}

/// Convergence: when nothing is ignored, applying all the events of one
/// detection cycle to the state that the cycle was computed against leaves
/// exactly the fingerprints of the enumerated volumes.
pub proof fn lemma_diff_converges(d: Seq<u8>, found: Seq<VolumeView>, known: Seq<VolumeView>)
    requires
        unique_fps(d, known),
    ensures
        fps(d, applied_all(d, known, diff_events(d, found, known, Set::empty()))) == fps(
            d,
            found,
        ),
{
    let ig = Set::<Seq<char>>::empty();
    let a = added_events(d, found, known, ig);
    let r = removed_events(d, found, known, ig);
    lemma_applied_all_concat(d, known, a, r);
    lemma_added_fps(d, known, found, known, ig);
    lemma_applied_all_unique(d, known, a);
    lemma_removed_fps(d, applied_all(d, known, a), found, known, ig);
    let result = fps(d, applied_all(d, known, a + r));
    assert forall|k: FingerprintView| result.contains(k) <==> fps(d, found).contains(k) by {
        if has_fp(d, found, k) {
            let i = choose|i: int| 0 <= i < found.len() && fingerprint_of(d, found[i]) == k;
            if !has_fp(d, known, k) {
                assert(added_fps(d, found, known, ig).contains(k));
            }
            if removed_fps(d, found, known, ig).contains(k) {
                let j = choose|j: int|
                    0 <= j < known.len() && !ig.contains(known[j].mount_point) && !has_fp(
                        d,
                        found,
                        fingerprint_of(d, known[j]),
                    ) && fingerprint_of(d, known[j]) == k;
            }
        } else {
            if added_fps(d, found, known, ig).contains(k) {
                let i = choose|i: int|
                    0 <= i < found.len() && !ig.contains(found[i].mount_point) && !has_fp(
                        d,
                        known,
                        fingerprint_of(d, found[i]),
                    ) && fingerprint_of(d, found[i]) == k;
            }
            if has_fp(d, known, k) {
                let j = choose|j: int| 0 <= j < known.len() && fingerprint_of(d, known[j]) == k;
                assert(removed_fps(d, found, known, ig).contains(k));
            }
        }
    }
    assert(result =~= fps(d, found));
}

/// Ignore suppression: no event of a detection cycle concerns a volume
/// mounted at an ignored path; in particular none removes one.
pub proof fn lemma_ignored_paths_suppressed(
    d: Seq<u8>,
    found: Seq<VolumeView>,
    known: Seq<VolumeView>,
    ignored: Set<Seq<char>>,
)
    ensures
        forall|i: int|
            0 <= i < diff_events(d, found, known, ignored).len() ==> match #[trigger] diff_events(
                d,
                found,
                known,
                ignored,
            )[i] {
                VolumeEventView::Added(v) => !ignored.contains(v.mount_point),
                VolumeEventView::Removed(v) => !ignored.contains(v.mount_point),
            },
{
    lemma_added_not_ignored(d, found, known, ignored);
    lemma_removed_not_ignored(d, found, known, ignored);
    let a = added_events(d, found, known, ignored);
    let r = removed_events(d, found, known, ignored);
    assert forall|i: int| 0 <= i < (a + r).len() implies match #[trigger] (a + r)[i] {
        VolumeEventView::Added(v) => !ignored.contains(v.mount_point),
        VolumeEventView::Removed(v) => !ignored.contains(v.mount_point),
    } by {
        if i < a.len() {
            assert((a + r)[i] == a[i]);
        } else {
            assert((a + r)[i] == r[i - a.len()]);
        }
    }
}

proof fn lemma_added_not_ignored(
    d: Seq<u8>,
    found: Seq<VolumeView>,
    known: Seq<VolumeView>,
    ignored: Set<Seq<char>>,
)
    ensures
        forall|i: int|
            0 <= i < added_events(d, found, known, ignored).len() ==> match #[trigger] added_events(
                d,
                found,
                known,
                ignored,
            )[i] {
                VolumeEventView::Added(v) => !ignored.contains(v.mount_point),
                VolumeEventView::Removed(v) => false,
            },
    decreases found.len(),
{
    if found.len() > 0 {
        lemma_added_not_ignored(d, found.drop_last(), known, ignored);
    }
}

proof fn lemma_removed_not_ignored(
    d: Seq<u8>,
    found: Seq<VolumeView>,
    known: Seq<VolumeView>,
    ignored: Set<Seq<char>>,
)
    ensures
        forall|i: int|
            0 <= i < removed_events(d, found, known, ignored).len() ==> match #[trigger] removed_events(
                d,
                found,
                known,
                ignored,
            )[i] {
                VolumeEventView::Added(v) => false,
                VolumeEventView::Removed(v) => !ignored.contains(v.mount_point),
            },
    decreases known.len(),
{
    if known.len() > 0 {
        lemma_removed_not_ignored(d, found, known.drop_last(), ignored);
    }
}

/// Debounce: once a trigger at `t1` has been processed, a later trigger at
/// `t2` is processed again exactly when the debounce window has gone by in
/// between.
pub proof fn lemma_debounce(last: u64, t1: u64, t2: u64)
    requires
        debounce_passes(last, t1),
        t1 <= t2,
    ensures
        debounce_passes(t1, t2) <==> t2 - t1 >= DEBOUNCE_MS,
{
}

} // verus!
