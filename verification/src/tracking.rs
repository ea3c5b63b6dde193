//! What the VMC stream describes beside the pose: the blendshapes and the
//! auxiliary devices, each of the two tables in the order in which its names
//! were first seen, the time tag and the tracking flag.

use vstd::prelude::*;

use crate::index::{index_entries, NameIndex};
use crate::transform::TrackingPoint;

verus! {

/// The kinds of auxiliary device that the stream knows.
#[derive(Clone, Copy, Debug, PartialEq, Eq, Structural, PartialOrd, Ord, Hash)]
pub enum DeviceKind {
    Hmd,
    Controller,
    Tracker,
}

/// A blendshape: a named weight. The weight is carried as the OSC value it
/// arrived in.
pub struct Blendshape {
    pub name: String,
    pub value: rosc::OscType,
}

/// An auxiliary device: a kind, a name and where the device is.
pub struct AuxDevice {
    pub kind: DeviceKind,
    pub name: String,
    pub point: TrackingPoint,
}

/// The slot of `key` in `keys`: a position at which `keys` holds it.
pub open spec fn slot_of<K>(keys: Seq<K>, key: K) -> Option<int> {
    if exists|i: int| 0 <= i < keys.len() && keys[i] == key {
        Some(choose|i: int| 0 <= i < keys.len() && keys[i] == key)
    } else {
        None
    }
}

/// Whether no key stands at two positions.
pub open spec fn distinct<K>(keys: Seq<K>) -> bool {
    forall|i: int, j: int| 0 <= i < keys.len() && 0 <= j < keys.len() && keys[i] == keys[j] ==> i == j
}

/// Where the keys are distinct, the slot of a key is the one position that
/// holds it.
pub proof fn lemma_slot_of<K>(keys: Seq<K>, key: K, i: int)
    requires
        distinct(keys),
        0 <= i < keys.len(),
        keys[i] == key,
    ensures
        slot_of(keys, key) == Some(i),
{
}

/// Whether `index` maps each name in `names` to its position there, and
/// nothing else to anything.
spec fn index_matches(index: Map<Seq<char>, usize>, names: Seq<Option<Seq<char>>>) -> bool {
    &&& forall|i: int|
        0 <= i < names.len() && (#[trigger] names[i]).is_some() ==> index.dom().contains(
            names[i].unwrap(),
        ) && index[names[i].unwrap()] == i
    &&& forall|n: Seq<char>| #[trigger]
        index.dom().contains(n) ==> index[n] < names.len() && names[index[n] as int] == Some(n)
}

/// The scene.
pub struct TrackingData {
    time: rosc::OscType,
    tracking: bool,
    blendshapes: Vec<Blendshape>,
    blend_index: NameIndex,
    devices: Vec<AuxDevice>,
    hmd_index: NameIndex,
    controller_index: NameIndex,
    tracker_index: NameIndex,
}

impl TrackingData {
    /// The time tag received last; before the first one, the tag that the
    /// scene was made with.
    pub closed spec fn spec_time(self) -> rosc::OscType {
        self.time
    }

    /// Whether the sender said it is tracking.
    pub closed spec fn spec_tracking(self) -> bool {
        self.tracking
    }

    /// The blendshapes by slot: each a name and its current value.
    pub closed spec fn spec_blendshapes(self) -> Seq<(Seq<char>, rosc::OscType)> {
        Seq::new(
            self.blendshapes@.len(),
            |i: int| (self.blendshapes@[i].name@, self.blendshapes@[i].value),
        )
    }

    /// The auxiliary devices by slot: each a kind, a name and a position.
    pub closed spec fn spec_devices(self) -> Seq<(DeviceKind, Seq<char>, TrackingPoint)> {
        Seq::new(
            self.devices@.len(),
            |i: int| (self.devices@[i].kind, self.devices@[i].name@, self.devices@[i].point),
        )
    }

    /// The names of the blendshapes by slot.
    pub open spec fn spec_blend_names(self) -> Seq<Seq<char>> {
        Seq::new(self.spec_blendshapes().len(), |i: int| self.spec_blendshapes()[i].0)
    }

    /// The kinds and names of the auxiliary devices by slot.
    pub open spec fn spec_device_keys(self) -> Seq<(DeviceKind, Seq<char>)> {
        Seq::new(
            self.spec_devices().len(),
            |i: int| (self.spec_devices()[i].0, self.spec_devices()[i].1),
        )
    }

    spec fn names_of_kind(self, kind: DeviceKind) -> Seq<Option<Seq<char>>> {
        Seq::new(
            self.devices@.len(),
            |i: int|
                if self.devices@[i].kind == kind {
                    Some(self.devices@[i].name@)
                } else {
                    None
                },
        )
    }

    spec fn index_of_kind(self, kind: DeviceKind) -> Map<Seq<char>, usize> {
        match kind {
            DeviceKind::Hmd => index_entries(self.hmd_index),
            DeviceKind::Controller => index_entries(self.controller_index),
            DeviceKind::Tracker => index_entries(self.tracker_index),
        }
    }

    /// The scene is well formed: each index knows exactly the names of its
    /// table, each with its slot.
    pub closed spec fn wf(self) -> bool {
        &&& index_matches(
            index_entries(self.blend_index),
            Seq::new(self.blendshapes@.len(), |i: int| Some(self.blendshapes@[i].name@)),
        )
        &&& forall|kind: DeviceKind| #[trigger]
            index_matches(self.index_of_kind(kind), self.names_of_kind(kind))
    }

    /// In a well-formed scene no name has two slots in either table.
    pub proof fn lemma_slots_distinct(self)
        requires
            self.wf(),
        ensures
            distinct(self.spec_blend_names()),
            distinct(self.spec_device_keys()),
    {
        let names = Seq::new(self.blendshapes@.len(), |i: int| Some(self.blendshapes@[i].name@));
        assert forall|i: int, j: int|
            0 <= i < self.spec_blend_names().len() && 0 <= j < self.spec_blend_names().len()
                && self.spec_blend_names()[i] == self.spec_blend_names()[j] implies i == j by {
            assert(names[i].is_some() && names[j].is_some());
        }
        assert forall|i: int, j: int|
            0 <= i < self.spec_device_keys().len() && 0 <= j < self.spec_device_keys().len()
                && self.spec_device_keys()[i] == self.spec_device_keys()[j] implies i == j by {
            let kind = self.spec_device_keys()[i].0;
            assert(index_matches(self.index_of_kind(kind), self.names_of_kind(kind)));
            assert(self.names_of_kind(kind)[i].is_some() && self.names_of_kind(kind)[j].is_some());
        }
    }

    /// The scene before anything was received: no blendshape, no device,
    /// not tracking, and `initial_time` for a time tag.
    pub fn new(initial_time: rosc::OscType) -> (r: TrackingData)
        ensures
            r.wf(),
            r.spec_blendshapes().len() == 0,
            r.spec_devices().len() == 0,
            r.spec_time() == initial_time,
            !r.spec_tracking(),
    {
        let r = TrackingData {
            time: initial_time,
            tracking: false,
            blendshapes: Vec::new(),
            blend_index: NameIndex::new(),
            devices: Vec::new(),
            hmd_index: NameIndex::new(),
            controller_index: NameIndex::new(),
            tracker_index: NameIndex::new(),
        };
        proof {
            assert forall|kind: DeviceKind| #[trigger]
                index_matches(r.index_of_kind(kind), r.names_of_kind(kind)) by {}
        }
        r
    }

    /// The blendshapes, by slot.
    pub fn blendshapes(&self) -> (r: &Vec<Blendshape>)
        ensures
            r@.len() == self.spec_blendshapes().len(),
            forall|i: int|
                0 <= i < r@.len() ==> ((#[trigger] r@[i]).name@, r@[i].value)
                    == self.spec_blendshapes()[i],
    {
        &self.blendshapes
    }

    /// The auxiliary devices, by slot.
    pub fn devices(&self) -> (r: &Vec<AuxDevice>)
        ensures
            r@.len() == self.spec_devices().len(),
            forall|i: int|
                0 <= i < r@.len() ==> ((#[trigger] r@[i]).kind, r@[i].name@, r@[i].point)
                    == self.spec_devices()[i],
    {
        &self.devices
    }

    /// The slot of the blendshape called `name`, if there is one.
    pub fn blendshape_slot(&self, name: &str) -> (r: Option<usize>)
        requires
            self.wf(),
        ensures
            match r {
                Some(i) => slot_of(self.spec_blend_names(), name@) == Some(i as int),
                None => slot_of(self.spec_blend_names(), name@).is_none(),
            },
    {
        let r = self.blend_index.get(name);
        proof {
            self.lemma_blend_lookup(name@);
        }
        r
    }

    proof fn lemma_blend_lookup(self, name: Seq<char>)
        requires
            self.wf(),
        ensures
            match slot_of(self.spec_blend_names(), name) {
                Some(i) => index_entries(self.blend_index).dom().contains(name) && index_entries(
                    self.blend_index,
                )[name] == i && 0 <= i < self.blendshapes@.len(),
                None => !index_entries(self.blend_index).dom().contains(name),
            },
    {
        let names = Seq::new(self.blendshapes@.len(), |i: int| Some(self.blendshapes@[i].name@));
        let index = index_entries(self.blend_index);
        if index.dom().contains(name) {
            let i = index[name] as int;
            assert(names[i] == Some(name));
            assert(self.spec_blend_names()[i] == name);
        }
        match slot_of(self.spec_blend_names(), name) {
            Some(i) => {
                assert(names[i].is_some());
            },
            None => {},
        }
    }

    proof fn lemma_device_lookup(self, kind: DeviceKind, name: Seq<char>)
        requires
            self.wf(),
        ensures
            match slot_of(self.spec_device_keys(), (kind, name)) {
                Some(i) => self.index_of_kind(kind).dom().contains(name) && self.index_of_kind(
                    kind,
                )[name] == i && 0 <= i < self.devices@.len(),
                None => !self.index_of_kind(kind).dom().contains(name),
            },
    {
        let names = self.names_of_kind(kind);
        let index = self.index_of_kind(kind);
        assert(index_matches(index, names));
        if index.dom().contains(name) {
            let i = index[name] as int;
            assert(names[i] == Some(name));
            assert(self.spec_device_keys()[i] == (kind, name));
        }
        match slot_of(self.spec_device_keys(), (kind, name)) {
            Some(i) => {
                assert(names[i].is_some());
            },
            None => {},
        }
    }

    /// Sets the value of the blendshape called `name`. A name seen before
    /// keeps its slot; a new name gets the next slot. No slot is ever given
    /// up or moved.
    pub fn update_blendshape(&mut self, name: &str, value: rosc::OscType)
        requires
            old(self).wf(),
        ensures
            final(self).wf(),
            final(self).spec_time() == old(self).spec_time(),
            final(self).spec_tracking() == old(self).spec_tracking(),
            final(self).spec_devices() == old(self).spec_devices(),
            final(self).spec_blendshapes() == match slot_of(old(self).spec_blend_names(), name@) {
                Some(i) => old(self).spec_blendshapes().update(i, (name@, value)),
                None => old(self).spec_blendshapes().push((name@, value)),
            },
            old(self).spec_blend_names().is_prefix_of(final(self).spec_blend_names()),
    {
        proof {
            self.lemma_blend_lookup(name@);
        }
        match self.blend_index.get(name) {
            Some(slot) => {
                self.blendshapes.set(slot, Blendshape { name: name.to_owned(), value });
                proof {
                    assert(self.spec_blendshapes() =~= old(self).spec_blendshapes().update(
                        slot as int,
                        (name@, value),
                    ));
                    assert(self.spec_blend_names() =~= old(self).spec_blend_names());
                    let names = Seq::new(
                        self.blendshapes@.len(),
                        |i: int| Some(self.blendshapes@[i].name@),
                    );
                    let before = Seq::new(
                        old(self).blendshapes@.len(),
                        |i: int| Some(old(self).blendshapes@[i].name@),
                    );
                    assert(names =~= before);
                    assert forall|kind: DeviceKind| #[trigger]
                        index_matches(self.index_of_kind(kind), self.names_of_kind(kind)) by {
                        assert(index_matches(
                            old(self).index_of_kind(kind),
                            old(self).names_of_kind(kind),
                        ));
                    }
                }
            },
            None => {
                let slot = self.blendshapes.len();
                self.blendshapes.push(Blendshape { name: name.to_owned(), value });
                self.blend_index.insert(name, slot);
                proof {
                    assert(self.spec_blendshapes() =~= old(self).spec_blendshapes().push(
                        (name@, value),
                    ));
                    assert(self.spec_blend_names() =~= old(self).spec_blend_names().push(name@));
                    let names = Seq::new(
                        self.blendshapes@.len(),
                        |i: int| Some(self.blendshapes@[i].name@),
                    );
                    let before = Seq::new(
                        old(self).blendshapes@.len(),
                        |i: int| Some(old(self).blendshapes@[i].name@),
                    );
                    assert(names =~= before.push(Some(name@)));
                    lemma_index_grows(index_entries(old(self).blend_index), before, name@);
                    assert forall|kind: DeviceKind| #[trigger]
                        index_matches(self.index_of_kind(kind), self.names_of_kind(kind)) by {
                        assert(index_matches(
                            old(self).index_of_kind(kind),
                            old(self).names_of_kind(kind),
                        ));
                    }
                }
            },
        }
    }

    /// Sets the position of the auxiliary device of the given kind and name.
    /// A device seen before keeps its slot; a new one gets the next slot. No
    /// slot is ever given up or moved.
    pub fn update_device(&mut self, kind: DeviceKind, name: &str, point: &TrackingPoint)
        requires
            old(self).wf(),
        ensures
            final(self).wf(),
            final(self).spec_time() == old(self).spec_time(),
            final(self).spec_tracking() == old(self).spec_tracking(),
            final(self).spec_blendshapes() == old(self).spec_blendshapes(),
            final(self).spec_devices() == match slot_of(
                old(self).spec_device_keys(),
                (kind, name@),
            ) {
                Some(i) => old(self).spec_devices().update(i, (kind, name@, *point)),
                None => old(self).spec_devices().push((kind, name@, *point)),
            },
            old(self).spec_device_keys().is_prefix_of(final(self).spec_device_keys()),
    {
        proof {
            self.lemma_device_lookup(kind, name@);
        }
        let found = match kind {
            DeviceKind::Hmd => self.hmd_index.get(name),
            DeviceKind::Controller => self.controller_index.get(name),
            DeviceKind::Tracker => self.tracker_index.get(name),
        };
        let ghost blend_names = Seq::new(
            self.blendshapes@.len(),
            |i: int| Some(self.blendshapes@[i].name@),
        );
        match found {
            Some(slot) => {
                self.devices.set(slot, AuxDevice { kind, name: name.to_owned(), point: *point });
                proof {
                    assert(self.spec_devices() =~= old(self).spec_devices().update(
                        slot as int,
                        (kind, name@, *point),
                    ));
                    assert(self.spec_device_keys() =~= old(self).spec_device_keys());
                    assert(self.spec_blendshapes() =~= old(self).spec_blendshapes());
                    assert(Seq::new(
                        self.blendshapes@.len(),
                        |i: int| Some(self.blendshapes@[i].name@),
                    ) =~= blend_names);
                    assert forall|k: DeviceKind| #[trigger]
                        index_matches(self.index_of_kind(k), self.names_of_kind(k)) by {
                        assert(index_matches(old(self).index_of_kind(k), old(self).names_of_kind(k)));
                        assert(self.names_of_kind(k) =~= old(self).names_of_kind(k));
                    }
                }
            },
            None => {
                let slot = self.devices.len();
                self.devices.push(AuxDevice { kind, name: name.to_owned(), point: *point });
                match kind {
                    DeviceKind::Hmd => self.hmd_index.insert(name, slot),
                    DeviceKind::Controller => self.controller_index.insert(name, slot),
                    DeviceKind::Tracker => self.tracker_index.insert(name, slot),
                }
                proof {
                    assert(self.spec_devices() =~= old(self).spec_devices().push(
                        (kind, name@, *point),
                    ));
                    assert(self.spec_device_keys() =~= old(self).spec_device_keys().push(
                        (kind, name@),
                    ));
                    assert(self.spec_blendshapes() =~= old(self).spec_blendshapes());
                    assert(Seq::new(
                        self.blendshapes@.len(),
                        |i: int| Some(self.blendshapes@[i].name@),
                    ) =~= blend_names);
                    assert forall|k: DeviceKind| #[trigger]
                        index_matches(self.index_of_kind(k), self.names_of_kind(k)) by {
                        assert(index_matches(old(self).index_of_kind(k), old(self).names_of_kind(k)));
                        if k == kind {
                            assert(self.names_of_kind(k) =~= old(self).names_of_kind(k).push(
                                Some(name@),
                            ));
                            lemma_index_grows(
                                old(self).index_of_kind(k),
                                old(self).names_of_kind(k),
                                name@,
                            );
                        } else {
                            assert(self.names_of_kind(k) =~= old(self).names_of_kind(k).push(None));
                            lemma_index_skips(
                                old(self).index_of_kind(k),
                                old(self).names_of_kind(k),
                            );
                        }
                    }
                }
            },
        }
    }

    /// The time tag received last.
    pub fn time(&self) -> (r: &rosc::OscType)
        ensures
            *r == self.spec_time(),
    {
        &self.time
    }

    /// Whether the sender said it is tracking.
    pub fn tracking(&self) -> (r: bool)
        ensures
            r == self.spec_tracking(),
    {
        self.tracking
    }

    /// Takes the tracking flag as it came: the sender is tracking exactly
    /// when the flag is one.
    pub fn set_tracking(&mut self, flag: i32)
        ensures
            final(self).spec_tracking() == (flag == 1),
            final(self).spec_time() == old(self).spec_time(),
            final(self).spec_blendshapes() == old(self).spec_blendshapes(),
            final(self).spec_devices() == old(self).spec_devices(),
            old(self).wf() ==> final(self).wf(),
    {
        self.tracking = flag == 1;
        proof {
            if old(self).wf() {
                self.lemma_tables_untouched(*old(self));
            }
        }
    }

    /// Takes a time tag.
    pub fn set_time(&mut self, value: rosc::OscType)
        ensures
            final(self).spec_time() == value,
            final(self).spec_tracking() == old(self).spec_tracking(),
            final(self).spec_blendshapes() == old(self).spec_blendshapes(),
            final(self).spec_devices() == old(self).spec_devices(),
            old(self).wf() ==> final(self).wf(),
    {
        self.time = value;
        proof {
            if old(self).wf() {
                self.lemma_tables_untouched(*old(self));
            }
        }
    }

    proof fn lemma_tables_untouched(self, before: TrackingData)
        requires
            before.wf(),
            self.blendshapes == before.blendshapes,
            self.blend_index == before.blend_index,
            self.devices == before.devices,
            self.hmd_index == before.hmd_index,
            self.controller_index == before.controller_index,
            self.tracker_index == before.tracker_index,
        ensures
            self.wf(),
            self.spec_blendshapes() == before.spec_blendshapes(),
            self.spec_devices() == before.spec_devices(),
    {
        assert forall|kind: DeviceKind| #[trigger]
            index_matches(self.index_of_kind(kind), self.names_of_kind(kind)) by {
            assert(index_matches(before.index_of_kind(kind), before.names_of_kind(kind)));
            assert(self.names_of_kind(kind) =~= before.names_of_kind(kind));
        }
    }
}

/// An index that matches a table still matches it after the table got a new
/// name at its end and the index that name with the new slot.
proof fn lemma_index_grows(index: Map<Seq<char>, usize>, names: Seq<Option<Seq<char>>>, name: Seq<char>)
    requires
        index_matches(index, names),
        !index.dom().contains(name),
        names.len() <= usize::MAX,
    ensures
        index_matches(index.insert(name, names.len() as usize), names.push(Some(name))),
{
    let grown = index.insert(name, names.len() as usize);
    let longer = names.push(Some(name));
    assert forall|i: int| 0 <= i < longer.len() && (#[trigger] longer[i]).is_some() implies grown.dom().contains(
        longer[i].unwrap(),
    ) && grown[longer[i].unwrap()] == i by {
        if i < names.len() {
            assert(names[i].is_some());
        }
    }
    assert forall|n: Seq<char>| #[trigger] grown.dom().contains(n) implies grown[n] < longer.len()
        && longer[grown[n] as int] == Some(n) by {
        if n != name {
            assert(index.dom().contains(n));
        }
    }
}

/// An index that matches a table still matches it after the table got an
/// entry at its end that belongs to another index.
proof fn lemma_index_skips(index: Map<Seq<char>, usize>, names: Seq<Option<Seq<char>>>)
    requires
        index_matches(index, names),
    ensures
        index_matches(index, names.push(None)),
{
    let longer = names.push(None);
    assert forall|i: int| 0 <= i < longer.len() && (#[trigger] longer[i]).is_some() implies index.dom().contains(
        longer[i].unwrap(),
    ) && index[longer[i].unwrap()] == i by {
        if i < names.len() {
            assert(names[i].is_some());
        }
    }
    assert forall|n: Seq<char>| #[trigger] index.dom().contains(n) implies index[n] < longer.len()
        && longer[index[n] as int] == Some(n) by {
        assert(names[index[n] as int] == Some(n));
    }
}

} // verus!
