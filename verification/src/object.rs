//! Reference-counted kernel objects and their store.
//!
//! Every object the broker hands out lives in one [`ObjectStore`] slot,
//! with a reference count and a payload: the descriptor and size of a
//! shared-memory mapping, or a directory of named entries.  Handles,
//! explicit grabs and permanence each own one count; a directory entry
//! does not, so a named object vanishes from the namespace the moment its
//! last reference drops.  The store's model is a map from object id to
//! reference count and payload, and every operation says exactly what it
//! does to that map.

use vstd::prelude::*;
use vstd::map::*;

verus! {

/// Stride between handle values; the low bits are reserved tag space.
pub const HANDLE_STRIDE: u32 = 4;

/// A process-local reference to one kernel object: `(slot + 1)` times
/// [`HANDLE_STRIDE`], so no valid handle is below the stride or off it.
pub struct Handle(pub u32);

/// The payload of a shared-memory mapping object: the descriptor of the
/// anonymous file backing it, and the mapping's size in bytes.
#[derive(Clone, Copy, PartialEq, Eq, Structural, Debug)]
pub struct Mapping {
    pub fd: i32,
    pub size: u64,
}

/// One name in a directory and the object it names.  An entry does not
/// own a reference: it is swept away when its object is destroyed.
pub struct DirEntry {
    pub name: Vec<u16>,
    pub obj: usize,
}

/// The payload of a directory object: named entries, names unique.
pub struct Directory {
    pub entries: Vec<DirEntry>,
}

/// The payload of a kernel object.
pub enum ObjectKind {
    Mapping(Mapping),
    Directory(Directory),
}

/// What a payload holds, as the contracts see it: a directory is the map
/// from entry name to object id.
#[verifier::ext_equal]
pub enum ObjectKindView {
    Mapping(Mapping),
    Directory(Map<Seq<u16>, int>),
}

/// One object as the contracts see it: its reference count and payload.
#[verifier::ext_equal]
pub struct ObjectModel {
    pub refs: nat,
    pub kind: ObjectKindView,
}

/// The map a directory's entry list denotes.
pub open spec fn dir_map(s: Seq<DirEntry>) -> Map<Seq<u16>, int>
    decreases s.len(),
{
    if s.len() == 0 {
        Map::empty()
    } else {
        dir_map(s.drop_last()).insert(s.last().name@, s.last().obj as int)
    }
}

/// Names in a directory's entry list are pairwise distinct.
pub open spec fn unique_names(s: Seq<DirEntry>) -> bool {
    forall|j: int, k: int| 0 <= j < k < s.len() ==> (#[trigger] s[j]).name@ != (#[trigger] s[k]).name@
}

/// With unique names, the map a directory denotes binds exactly the
/// entries' names, each to its entry's object.
pub proof fn lemma_dir_map_props(s: Seq<DirEntry>)
    requires
        unique_names(s),
    ensures
        forall|j: int|
            0 <= j < s.len() ==> dir_map(s).contains_key((#[trigger] s[j]).name@) && dir_map(s)[s[j].name@]
                == s[j].obj as int,
        forall|n: Seq<u16>| #[trigger]
            dir_map(s).contains_key(n) ==> exists|j: int| 0 <= j < s.len() && (#[trigger] s[j]).name@ == n,
    decreases s.len(),
{
    if s.len() > 0 {
        let sd = s.drop_last();
        assert(forall|j: int| 0 <= j < sd.len() ==> #[trigger] sd[j] == s[j]);
        lemma_dir_map_props(sd);
        assert forall|j: int| 0 <= j < s.len() implies dir_map(s).contains_key(
            (#[trigger] s[j]).name@,
        ) && dir_map(s)[s[j].name@] == s[j].obj as int by {
            if j < s.len() - 1 {
                assert(sd[j] == s[j]);
                assert(s[j].name@ != s[s.len() - 1].name@);
            }
        }
        assert forall|n: Seq<u16>| #[trigger] dir_map(s).contains_key(n) implies exists|j: int|
            0 <= j < s.len() && (#[trigger] s[j]).name@ == n by {
            if n == s.last().name@ {
                assert((s[s.len() - 1]).name@ == n);
            } else {
                assert(dir_map(sd).contains_key(n));
                let j = choose|j: int| 0 <= j < sd.len() && (#[trigger] sd[j]).name@ == n;
                assert((s[j]).name@ == n);
            }
        }
    }
}

/// What a payload denotes.
pub open spec fn kind_view(k: ObjectKind) -> ObjectKindView {
    match k {
        ObjectKind::Mapping(m) => ObjectKindView::Mapping(m),
        ObjectKind::Directory(d) => ObjectKindView::Directory(dir_map(d.entries@)),
    }
}

struct ObjectEntry {
    refs: u64,
    kind: ObjectKind,
}

/// The store of every live kernel object, indexed by object id.
pub struct ObjectStore {
    slots: Vec<Option<ObjectEntry>>,
}

impl View for ObjectStore {
    type V = Map<int, ObjectModel>;

    closed spec fn view(&self) -> Map<int, ObjectModel> {
        Map::new(
            |id: int| 0 <= id < self.slots@.len() && self.slots@[id] is Some,
            |id: int|
                ObjectModel {
                    refs: self.slots@[id]->Some_0.refs as nat,
                    kind: kind_view(self.slots@[id]->Some_0.kind),
                },
        )
    }
}

/// What well-formedness gives every client: counts are positive and every
/// id a directory names is itself live.
pub open spec fn store_inv(m: Map<int, ObjectModel>) -> bool {
    forall|id: int| #[trigger]
        m.dom().contains(id) ==> m[id].refs >= 1 && match m[id].kind {
            ObjectKindView::Directory(d) => forall|n: Seq<u16>| #[trigger]
                d.contains_key(n) ==> m.dom().contains(d[n]),
            ObjectKindView::Mapping(_) => true,
        }
}

impl ObjectStore {
    spec fn dir_repr_inv(d: Directory, s: Seq<Option<ObjectEntry>>) -> bool {
        &&& unique_names(d.entries@)
        &&& forall|j: int|
            0 <= j < d.entries@.len() ==> (#[trigger] d.entries@[j].obj as int) < s.len()
                && s[d.entries@[j].obj as int] is Some
    }

    /// The store's internal invariant; constructors establish it and every
    /// operation preserves it.
    pub closed spec fn wf(&self) -> bool {
        forall|i: int| #![trigger self.slots@[i]]
            0 <= i < self.slots@.len() && self.slots@[i] is Some ==> {
                let e = self.slots@[i]->Some_0;
                e.refs >= 1 && match e.kind {
                    ObjectKind::Directory(d) => Self::dir_repr_inv(d, self.slots@),
                    ObjectKind::Mapping(_) => true,
                }
            }
    }

    /// A well-formed store's model keeps counts positive and directory
    /// targets live.
    pub proof fn lemma_wf_model(&self)
        requires
            self.wf(),
        ensures
            store_inv(self@),
    {
        assert forall|id: int| #[trigger] self@.dom().contains(id) implies self@[id].refs >= 1
            && match self@[id].kind {
            ObjectKindView::Directory(d) => forall|n: Seq<u16>| #[trigger]
                d.contains_key(n) ==> self@.dom().contains(d[n]),
            ObjectKindView::Mapping(_) => true,
        } by {
            let e = self.slots@[id]->Some_0;
            match e.kind {
                ObjectKind::Directory(d) => {
                    lemma_dir_map_props(d.entries@);
                    assert forall|n: Seq<u16>| #[trigger]
                        dir_map(d.entries@).contains_key(n) implies self@.dom().contains(
                        dir_map(d.entries@)[n],
                    ) by {
                        let j = choose|j: int|
                            0 <= j < d.entries@.len() && (#[trigger] d.entries@[j]).name@ == n;
                        assert(dir_map(d.entries@)[n] == d.entries@[j].obj as int);
                        assert(self.slots@[d.entries@[j].obj as int] is Some);
                    }
                },
                ObjectKind::Mapping(_) => {},
            }
        }
    }

    /// An empty store.
    pub fn new() -> (s: ObjectStore)
        ensures
            s.wf(),
            s@ == Map::<int, ObjectModel>::empty(),
    {
        let s = ObjectStore { slots: Vec::new() };
        proof {
            assert(s@ =~= Map::<int, ObjectModel>::empty());
        }
        s
    }

    /// Whether `id` is a live object.
    pub fn contains(&self, id: usize) -> (r: bool)
        ensures
            r == self@.dom().contains(id as int),
    {
        id < self.slots.len() && self.slots[id].is_some()
    }

    /// The reference count of a live object.
    pub fn ref_count(&self, id: usize) -> (r: u64)
        requires
            self@.dom().contains(id as int),
        ensures
            r == self@[id as int].refs,
    {
        match &self.slots[id] {
            Some(e) => e.refs,
            None => 0,
        }
    }

    fn place(&mut self, entry: ObjectEntry) -> (id: usize)
        requires
            old(self).wf(),
            entry.refs == 1,
            entry.kind is Mapping || (entry.kind matches ObjectKind::Directory(d)
                && d.entries@.len() == 0),
        ensures
            final(self).wf(),
            !old(self)@.dom().contains(id as int),
            final(self)@ == old(self)@.insert(
                id as int,
                ObjectModel { refs: 1, kind: kind_view(entry.kind) },
            ),
    {
        let ghost m = kind_view(entry.kind);
        let n = self.slots.len();
        let mut i: usize = 0;
        while i < n
            invariant
                self.slots@ == old(self).slots@,
                n == self.slots@.len(),
                0 <= i <= n,
                forall|j: int| 0 <= j < i ==> self.slots@[j] is Some,
            decreases n - i,
        {
            if self.slots[i].is_none() {
                self.slots[i] = Some(entry);
                proof {
                    assert(self@ =~= old(self)@.insert(i as int, ObjectModel { refs: 1, kind: m }));
                }
                return i;
            }
            i = i + 1;
        }
        self.slots.push(Some(entry));
        proof {
            assert(self@ =~= old(self)@.insert(n as int, ObjectModel { refs: 1, kind: m }));
        }
        n
    }

    /// Create a mapping object with one owning reference.
    pub fn add_mapping(&mut self, fd: i32, size: u64) -> (id: usize)
        requires
            old(self).wf(),
        ensures
            final(self).wf(),
            !old(self)@.dom().contains(id as int),
            final(self)@ == old(self)@.insert(
                id as int,
                ObjectModel { refs: 1, kind: ObjectKindView::Mapping(Mapping { fd, size }) },
            ),
    {
        self.place(ObjectEntry { refs: 1, kind: ObjectKind::Mapping(Mapping { fd, size }) })
    }

    /// Create an empty directory object with one owning reference.
    pub fn add_directory(&mut self) -> (id: usize)
        requires
            old(self).wf(),
        ensures
            final(self).wf(),
            !old(self)@.dom().contains(id as int),
            final(self)@ == old(self)@.insert(
                id as int,
                ObjectModel { refs: 1, kind: ObjectKindView::Directory(Map::empty()) },
            ),
    {
        self.place(ObjectEntry { refs: 1, kind: ObjectKind::Directory(Directory { entries: Vec::new() }) })
    }

    /// The model after one more owning reference to `id` is manufactured.
    pub open spec fn spec_grab(m: Map<int, ObjectModel>, id: int) -> Map<int, ObjectModel> {
        m.insert(id, ObjectModel { refs: (m[id].refs + 1) as nat, kind: m[id].kind })
    }

    /// Manufacture a new owning reference to a live object, as a borrowed
    /// caller must to hand out an owned one.
    pub fn grab(&mut self, id: usize)
        requires
            old(self).wf(),
            old(self)@.dom().contains(id as int),
            old(self)@[id as int].refs < u64::MAX,
        ensures
            final(self).wf(),
            final(self)@ == Self::spec_grab(old(self)@, id as int),
    {
        let mut slot: Option<ObjectEntry> = None;
        core::mem::swap(&mut slot, &mut self.slots[id]);
        let mut e = slot.unwrap();
        e.refs = e.refs + 1;
        self.slots[id] = Some(e);
        proof {
            assert(self@ =~= Self::spec_grab(old(self)@, id as int));
        }
    }

    /// Add the reference that keeps an object alive past its last handle.
    pub fn make_permanent(&mut self, id: usize)
        requires
            old(self).wf(),
            old(self)@.dom().contains(id as int),
            old(self)@[id as int].refs < u64::MAX,
        ensures
            final(self).wf(),
            final(self)@ == Self::spec_grab(old(self)@, id as int),
    {
        self.grab(id);
    }

    /// A directory's map after every binding to `id` is swept out.
    pub open spec fn spec_dir_drop(d: Map<Seq<u16>, int>, id: int) -> Map<Seq<u16>, int> {
        Map::new(|n: Seq<u16>| d.contains_key(n) && d[n] != id, |n: Seq<u16>| d[n])
    }

    /// A payload after every directory binding to `id` is swept out.
    pub open spec fn spec_kind_drop(k: ObjectKindView, id: int) -> ObjectKindView {
        match k {
            ObjectKindView::Directory(d) => ObjectKindView::Directory(Self::spec_dir_drop(d, id)),
            ObjectKindView::Mapping(_) => k,
        }
    }

    /// The model after object `id` is destroyed: its slot is gone and every
    /// directory binding naming it is swept out.
    pub open spec fn spec_sweep(m: Map<int, ObjectModel>, id: int) -> Map<int, ObjectModel> {
        Map::new(
            |j: int| m.dom().contains(j) && j != id,
            |j: int| ObjectModel { refs: m[j].refs, kind: Self::spec_kind_drop(m[j].kind, id) },
        )
    }

    /// The model after one owning reference to `id` drops: one count less,
    /// or destruction when that was the last count.
    pub open spec fn spec_release(m: Map<int, ObjectModel>, id: int) -> Map<int, ObjectModel> {
        if m[id].refs > 1 {
            m.insert(id, ObjectModel { refs: (m[id].refs - 1) as nat, kind: m[id].kind })
        } else {
            Self::spec_sweep(m, id)
        }
    }

    /// Drop one owning reference.  When the last count drops the object is
    /// destroyed: its slot is freed, every directory entry naming it is
    /// swept out, and a destroyed mapping hands back the descriptor the
    /// caller must close.
    pub fn release(&mut self, id: usize) -> (freed: Option<i32>)
        requires
            old(self).wf(),
            old(self)@.dom().contains(id as int),
        ensures
            final(self).wf(),
            final(self)@ == Self::spec_release(old(self)@, id as int),
            freed == (if old(self)@[id as int].refs == 1 {
                match old(self)@[id as int].kind {
                    ObjectKindView::Mapping(mp) => Some(mp.fd),
                    ObjectKindView::Directory(_) => None::<i32>,
                }
            } else {
                None::<i32>
            }),
    {
        let mut slot: Option<ObjectEntry> = None;
        core::mem::swap(&mut slot, &mut self.slots[id]);
        let mut e = slot.unwrap();
        if e.refs > 1 {
            e.refs = e.refs - 1;
            self.slots[id] = Some(e);
            proof {
                assert(self@ =~~= Self::spec_release(old(self)@, id as int));
            }
            return None;
        }
        let freed = match &e.kind {
            ObjectKind::Mapping(mp) => Some(mp.fd),
            ObjectKind::Directory(_) => None,
        };
        let n = self.slots.len();
        let mut i: usize = 0;
        while i < n
            invariant
                n == self.slots@.len(),
                old(self).slots@.len() == n,
                0 <= i <= n,
                self.slots@[id as int] is None,
                forall|j: int|
                    0 <= j < n && j != id ==> (#[trigger] self.slots@[j]) is Some
                        == old(self).slots@[j] is Some,
                forall|j: int|
                    i <= j < n && j != id ==> #[trigger] self.slots@[j] == old(self).slots@[j],
                forall|j: int|
                    0 <= j < i && j != id && old(self).slots@[j] is Some ==> Self::swept_entry(
                        old(self).slots@[j]->Some_0,
                        (#[trigger] self.slots@[j])->Some_0,
                        id as int,
                    ),
            decreases n - i,
        {
            if i != id {
                let mut s: Option<ObjectEntry> = None;
                core::mem::swap(&mut s, &mut self.slots[i]);
                match s {
                    Some(se) => {
                        let kept = match se.kind {
                            ObjectKind::Directory(d) => ObjectKind::Directory(
                                Directory { entries: swept_entries(&d.entries, id) },
                            ),
                            ObjectKind::Mapping(mp) => ObjectKind::Mapping(mp),
                        };
                        self.slots[i] = Some(ObjectEntry { refs: se.refs, kind: kept });
                    },
                    None => {},
                }
            }
            i = i + 1;
        }
        proof {
            self.lemma_sweep_view(*old(self), id as int);
        }
        freed
    }

    /// How a slot's entry looks after a sweep of `id`.
    spec fn swept_entry(olde: ObjectEntry, newe: ObjectEntry, id: int) -> bool {
        &&& newe.refs == olde.refs
        &&& match olde.kind {
            ObjectKind::Directory(d) => match newe.kind {
                ObjectKind::Directory(d2) => {
                    &&& unique_names(d2.entries@)
                    &&& dir_map(d2.entries@) == Self::spec_dir_drop(dir_map(d.entries@), id)
                    &&& forall|a: int|
                        0 <= a < d2.entries@.len() ==> (#[trigger] d2.entries@[a]).obj != id
                            && exists|k: int|
                            0 <= k < d.entries@.len() && (#[trigger] d.entries@[k]).obj
                                == d2.entries@[a].obj
                },
                ObjectKind::Mapping(_) => false,
            },
            ObjectKind::Mapping(mp) => match newe.kind {
                ObjectKind::Mapping(mp2) => mp2 == mp,
                ObjectKind::Directory(_) => false,
            },
        }
    }

    /// After the sweep loop the store's model is exactly `spec_sweep`.
    proof fn lemma_sweep_view(&self, pre: ObjectStore, id: int)
        requires
            pre.wf(),
            pre@.dom().contains(id),
            self.slots@.len() == pre.slots@.len(),
            self.slots@[id] is None,
            forall|j: int|
                0 <= j < self.slots@.len() && j != id ==> (#[trigger] self.slots@[j]) is Some
                    == pre.slots@[j] is Some,
            forall|j: int|
                0 <= j < self.slots@.len() && j != id && pre.slots@[j] is Some
                    ==> Self::swept_entry(
                    pre.slots@[j]->Some_0,
                    (#[trigger] self.slots@[j])->Some_0,
                    id,
                ),
        ensures
            self.wf(),
            self@ == Self::spec_sweep(pre@, id),
    {
        assert forall|j: int| #[trigger]
            self@.dom().contains(j) implies Self::spec_sweep(pre@, id).dom().contains(j)
            && self@[j] =~~= Self::spec_sweep(pre@, id)[j] by {
            let olde = pre.slots@[j]->Some_0;
            let newe = self.slots@[j]->Some_0;
            match olde.kind {
                ObjectKind::Directory(d) => {
                    assert(kind_view(newe.kind) =~~= Self::spec_kind_drop(kind_view(olde.kind), id));
                },
                ObjectKind::Mapping(_) => {},
            }
        }
        assert(self@ =~~= Self::spec_sweep(pre@, id));
        assert forall|i: int| #![trigger self.slots@[i]]
            0 <= i < self.slots@.len() && self.slots@[i] is Some implies {
            let e = self.slots@[i]->Some_0;
            e.refs >= 1 && match e.kind {
                ObjectKind::Directory(d) => Self::dir_repr_inv(d, self.slots@),
                ObjectKind::Mapping(_) => true,
            }
        } by {
            let olde = pre.slots@[i]->Some_0;
            let e = self.slots@[i]->Some_0;
            match e.kind {
                ObjectKind::Directory(d2) => {
                    match olde.kind {
                        ObjectKind::Directory(d) => {
                            assert forall|a: int|
                                0 <= a < d2.entries@.len() implies (#[trigger] d2.entries@[a].obj
                                as int) < self.slots@.len() && self.slots@[d2.entries@[a].obj as int]
                                is Some by {
                                let k = choose|k: int|
                                    0 <= k < d.entries@.len() && (#[trigger] d.entries@[k]).obj
                                        == d2.entries@[a].obj;
                                assert(pre.slots@[d.entries@[k].obj as int] is Some);
                            }
                        },
                        ObjectKind::Mapping(_) => {},
                    }
                },
                ObjectKind::Mapping(_) => {},
            }
        }
    }

    /// Open a live object into a handle table: the new handle owns a
    /// reference of its own, manufactured on the object's behalf, and
    /// fills the table's smallest free slot.
    pub fn open(&mut self, handles: &mut HandleTable, id: usize) -> (h: Handle)
        requires
            old(self).wf(),
            old(self)@.dom().contains(id as int),
            old(self)@[id as int].refs < u64::MAX,
            old(handles).wf(),
            old(handles).size() < 0x3FFF_FFFE,
        ensures
            final(self).wf(),
            final(self)@ == Self::spec_grab(old(self)@, id as int),
            final(handles).wf(),
            final(handles).size() == old(handles).size() + 1,
            spec_valid_handle(h.0),
            ({
                let s = spec_handle_slot(h.0);
                &&& !old(handles)@.contains_key(s)
                &&& forall|t: int| 0 <= t < s ==> old(handles)@.contains_key(t)
                &&& final(handles)@ == old(handles)@.insert(s, id as int)
            }),
    {
        self.grab(id);
        handles.allocate(id)
    }

    /// Drop the reference that `make_permanent` added; the object dies the
    /// moment no handle or grab holds it either.
    pub fn make_temporary(&mut self, id: usize) -> (freed: Option<i32>)
        requires
            old(self).wf(),
            old(self)@.dom().contains(id as int),
        ensures
            final(self).wf(),
            final(self)@ == Self::spec_release(old(self)@, id as int),
            freed == (if old(self)@[id as int].refs == 1 {
                match old(self)@[id as int].kind {
                    ObjectKindView::Mapping(mp) => Some(mp.fd),
                    ObjectKindView::Directory(_) => None::<i32>,
                }
            } else {
                None::<i32>
            }),
    {
        self.release(id)
    }

    /// The descriptor backing an object, `-1` for one backed by none.
    pub fn get_unix_fd(&self, id: usize) -> (r: i32)
        requires
            self@.dom().contains(id as int),
        ensures
            r == match self@[id as int].kind {
                ObjectKindView::Mapping(mp) => mp.fd,
                ObjectKindView::Directory(_) => -1i32,
            },
    {
        match &self.slots[id] {
            Some(e) => match &e.kind {
                ObjectKind::Mapping(mp) => mp.fd,
                ObjectKind::Directory(_) => -1,
            },
            None => -1,
        }
    }

    /// Narrow a live object back to its mapping payload, if it is one.
    pub fn as_mapping(&self, id: usize) -> (r: Option<Mapping>)
        requires
            self@.dom().contains(id as int),
        ensures
            r == match self@[id as int].kind {
                ObjectKindView::Mapping(mp) => Some(mp),
                ObjectKindView::Directory(_) => None::<Mapping>,
            },
    {
        match &self.slots[id] {
            Some(e) => match &e.kind {
                ObjectKind::Mapping(mp) => Some(*mp),
                ObjectKind::Directory(_) => None,
            },
            None => None,
        }
    }

    /// Whether a live object is a directory.
    pub fn is_directory(&self, id: usize) -> (r: bool)
        requires
            self@.dom().contains(id as int),
        ensures
            r == (self@[id as int].kind is Directory),
    {
        match &self.slots[id] {
            Some(e) => match &e.kind {
                ObjectKind::Directory(_) => true,
                ObjectKind::Mapping(_) => false,
            },
            None => false,
        }
    }
}

/// What looking a name up in a directory yields: nothing when `dir` is
/// not a live directory or the name is unbound.
pub open spec fn spec_dir_lookup(m: Map<int, ObjectModel>, dir: int, name: Seq<u16>) -> Option<
    int,
> {
    if m.dom().contains(dir) && m[dir].kind is Directory {
        let d = m[dir].kind->Directory_0;
        if d.contains_key(name) {
            Some(d[name])
        } else {
            None
        }
    } else {
        None
    }
}

/// The model after `name` in `dir` is bound to `obj`, replacing any
/// earlier binding of that name.
pub open spec fn spec_dir_insert(
    m: Map<int, ObjectModel>,
    dir: int,
    name: Seq<u16>,
    obj: int,
) -> Map<int, ObjectModel> {
    m.insert(
        dir,
        ObjectModel {
            refs: m[dir].refs,
            kind: ObjectKindView::Directory(m[dir].kind->Directory_0.insert(name, obj)),
        },
    )
}

/// Code-unit equality of two names.
fn names_equal(a: &[u16], b: &[u16]) -> (r: bool)
    ensures
        r == (a@ == b@),
{
    if a.len() != b.len() {
        proof {
            assert(a@ != b@);
        }
        return false;
    }
    let n = a.len();
    let mut i: usize = 0;
    while i < n
        invariant
            n == a@.len() == b@.len(),
            0 <= i <= n,
            forall|j: int| 0 <= j < i ==> a@[j] == b@[j],
        decreases n - i,
    {
        if a[i] != b[i] {
            return false;
        }
        i = i + 1;
    }
    proof {
        assert(a@ =~= b@);
    }
    true
}

impl ObjectStore {
    /// Look one name up in one directory; fails closed when `dir` is not
    /// a live directory.
    pub fn lookup(&self, dir: usize, name: &[u16]) -> (r: Option<usize>)
        requires
            self.wf(),
        ensures
            match r {
                Some(o) => spec_dir_lookup(self@, dir as int, name@) == Some(o as int),
                None => spec_dir_lookup(self@, dir as int, name@) is None,
            },
    {
        if !self.contains(dir) {
            return None;
        }
        let entries = match &self.slots[dir] {
            Some(e) => match &e.kind {
                ObjectKind::Directory(d) => &d.entries,
                ObjectKind::Mapping(_) => {
                    return None;
                },
            },
            None => {
                return None;
            },
        };
        proof {
            lemma_dir_map_props(entries@);
        }
        let n = entries.len();
        let mut j: usize = 0;
        while j < n
            invariant
                n == entries@.len(),
                0 <= j <= n,
                forall|k: int| 0 <= k < j ==> (#[trigger] entries@[k]).name@ != name@,
            decreases n - j,
        {
            if names_equal(entries[j].name.as_slice(), name) {
                return Some(entries[j].obj);
            }
            j = j + 1;
        }
        proof {
            if dir_map(entries@).contains_key(name@) {
                let k = choose|k: int|
                    0 <= k < entries@.len() && (#[trigger] entries@[k]).name@ == name@;
                assert(false);
            }
        }
        None
    }

    /// Bind `name` in `dir` to the live object `obj`, replacing any
    /// earlier binding of the name.  The binding owns no reference.
    pub fn insert(&mut self, dir: usize, name: &[u16], obj: usize)
        requires
            old(self).wf(),
            old(self)@.dom().contains(dir as int),
            old(self)@[dir as int].kind is Directory,
            old(self)@.dom().contains(obj as int),
        ensures
            final(self).wf(),
            final(self)@ == spec_dir_insert(old(self)@, dir as int, name@, obj as int),
    {
        let mut slot: Option<ObjectEntry> = None;
        core::mem::swap(&mut slot, &mut self.slots[dir]);
        let e = slot.unwrap();
        let refs = e.refs;
        let mut d = match e.kind {
            ObjectKind::Directory(d) => d,
            ObjectKind::Mapping(mp) => {
                proof {
                    assert(false);
                }
                Directory { entries: Vec::new() }
            },
        };
        proof {
            lemma_dir_map_props(d.entries@);
        }
        let ghost pre = d.entries@;
        let n = d.entries.len();
        let mut j: usize = 0;
        let mut found = false;
        while j < n && !found
            invariant
                n == d.entries@.len(),
                0 <= j <= n,
                d.entries@ == pre,
                !found ==> forall|k: int| 0 <= k < j ==> (#[trigger] pre[k]).name@ != name@,
                found ==> j < n && pre[j as int].name@ == name@,
            decreases n - j + (if found { 0int } else { 1int }),
        {
            if names_equal(d.entries[j].name.as_slice(), name) {
                found = true;
            } else {
                j = j + 1;
            }
        }
        if found {
            d.entries[j] = DirEntry { name: slice_to_vec_u16(name), obj };
            proof {
                assert(forall|k: int|
                    0 <= k < pre.len() && k != j ==> #[trigger] d.entries@[k] == pre[k]);
                lemma_dir_map_props(d.entries@);
                assert_maps_equal!(dir_map(d.entries@), dir_map(pre).insert(name@, obj as int), nm => {
                    if dir_map(d.entries@).contains_key(nm) {
                        let k = choose|k: int|
                            0 <= k < d.entries@.len() && (#[trigger] d.entries@[k]).name@ == nm;
                        if k != j {
                            assert(pre[k].name@ == nm);
                        }
                    }
                    if dir_map(pre).insert(name@, obj as int).contains_key(nm) {
                        if nm != name@ {
                            let k = choose|k: int|
                                0 <= k < pre.len() && (#[trigger] pre[k]).name@ == nm;
                            assert(k != j);
                            assert(d.entries@[k].name@ == nm);
                        } else {
                            assert(d.entries@[j as int].name@ == nm);
                        }
                    }
                });
            }
        } else {
            let ghost r0 = d.entries@;
            d.entries.push(DirEntry { name: slice_to_vec_u16(name), obj });
            proof {
                assert(d.entries@.drop_last() =~= r0);
            }
        }
        self.slots[dir] = Some(ObjectEntry { refs, kind: ObjectKind::Directory(d) });
        proof {
            assert(self@ =~~= spec_dir_insert(old(self)@, dir as int, name@, obj as int));
        }
    }

    /// The child directory `name` names in `dir`: the existing object if
    /// the name is bound, else a fresh empty directory bound under the
    /// name, kept alive by the one reference its creation owns.
    pub fn insert_dir(&mut self, dir: usize, name: &[u16]) -> (r: usize)
        requires
            old(self).wf(),
            old(self)@.dom().contains(dir as int),
            old(self)@[dir as int].kind is Directory,
        ensures
            final(self).wf(),
            match spec_dir_lookup(old(self)@, dir as int, name@) {
                Some(id) => r as int == id && final(self)@ == old(self)@,
                None => {
                    &&& !old(self)@.dom().contains(r as int)
                    &&& final(self)@ == spec_dir_insert(
                        old(self)@.insert(
                            r as int,
                            ObjectModel { refs: 1, kind: ObjectKindView::Directory(Map::empty()) },
                        ),
                        dir as int,
                        name@,
                        r as int,
                    )
                },
            },
    {
        match self.lookup(dir, name) {
            Some(id) => id,
            None => {
                let child = self.add_directory();
                self.insert(dir, name, child);
                child
            },
        }
    }
}

/// Copy a name out of a borrowed slice.
fn slice_to_vec_u16(s: &[u16]) -> (r: Vec<u16>)
    ensures
        r@ == s@,
{
    vstd::slice::slice_to_vec(s)
}

/// The map a handle table's occupied-slot list denotes: slot index to
/// object id.
pub open spec fn slot_map(s: Seq<(u32, usize)>) -> Map<int, int>
    decreases s.len(),
{
    if s.len() == 0 {
        Map::empty()
    } else {
        slot_map(s.drop_last()).insert(s.last().0 as int, s.last().1 as int)
    }
}

/// With distinct slots, the map an occupied-slot list denotes binds
/// exactly the listed slots, each to its entry's object.
pub proof fn lemma_slot_map_props(s: Seq<(u32, usize)>)
    requires
        forall|j: int, k: int| 0 <= j < k < s.len() ==> (#[trigger] s[j]).0 != (#[trigger] s[k]).0,
    ensures
        forall|j: int|
            0 <= j < s.len() ==> slot_map(s).contains_key(((#[trigger] s[j]).0) as int)
                && slot_map(s)[s[j].0 as int] == s[j].1 as int,
        forall|k: int| #[trigger]
            slot_map(s).contains_key(k) ==> exists|j: int|
                0 <= j < s.len() && ((#[trigger] s[j]).0 as int) == k,
    decreases s.len(),
{
    if s.len() > 0 {
        let sd = s.drop_last();
        assert(forall|j: int| 0 <= j < sd.len() ==> #[trigger] sd[j] == s[j]);
        lemma_slot_map_props(sd);
        assert forall|j: int| 0 <= j < s.len() implies slot_map(s).contains_key(
            ((#[trigger] s[j]).0) as int,
        ) && slot_map(s)[s[j].0 as int] == s[j].1 as int by {
            if j < s.len() - 1 {
                assert(sd[j] == s[j]);
                assert(s[j].0 != s[s.len() - 1].0);
            }
        }
        assert forall|k: int| #[trigger] slot_map(s).contains_key(k) implies exists|j: int|
            0 <= j < s.len() && ((#[trigger] s[j]).0 as int) == k by {
            if k != s.last().0 as int {
                assert(slot_map(sd).contains_key(k));
                let j = choose|j: int| 0 <= j < sd.len() && ((#[trigger] sd[j]).0 as int) == k;
                assert((s[j].0 as int) == k);
            } else {
                assert((s[s.len() - 1].0 as int) == k);
            }
        }
    }
}

/// Whether a handle value can refer to a slot at all: at least the stride
/// and a multiple of it.
pub open spec fn spec_valid_handle(h: u32) -> bool {
    h >= HANDLE_STRIDE && h % HANDLE_STRIDE == 0
}

/// The slot index a handle value encodes.
pub open spec fn spec_handle_slot(h: u32) -> int {
    h as int / HANDLE_STRIDE as int - 1
}

/// A process's table from handle values to object ids.  Slot `s` is
/// handed out as handle `(s + 1) * HANDLE_STRIDE`; the allocator always
/// fills the smallest free slot, and the occupied-slot list stays sorted
/// by slot index so lookup and free can binary-search it.
pub struct HandleTable {
    used: Vec<(u32, usize)>,
}

impl View for HandleTable {
    type V = Map<int, int>;

    closed spec fn view(&self) -> Map<int, int> {
        slot_map(self.used@)
    }
}

impl HandleTable {
    /// Slots strictly increase along the occupied list.
    pub closed spec fn wf(&self) -> bool {
        forall|j: int, k: int|
            0 <= j < k < self.used@.len() ==> (#[trigger] self.used@[j]).0 < (#[trigger] self.used@[k]).0
    }

    /// How many handles the table holds.
    pub closed spec fn size(&self) -> nat {
        self.used@.len()
    }

    /// An empty table.
    pub fn new() -> (t: HandleTable)
        ensures
            t.wf(),
            t@ == Map::<int, int>::empty(),
            t.size() == 0,
    {
        HandleTable { used: Vec::new() }
    }

    /// How many handles the table holds.
    pub fn count(&self) -> (n: usize)
        ensures
            n == self.size(),
    {
        self.used.len()
    }

    /// Put `obj` in the smallest free slot and hand back its handle.
    pub fn allocate(&mut self, obj: usize) -> (h: Handle)
        requires
            old(self).wf(),
            old(self).size() < 0x3FFF_FFFE,
        ensures
            final(self).wf(),
            final(self).size() == old(self).size() + 1,
            spec_valid_handle(h.0),
            ({
                let s = spec_handle_slot(h.0);
                &&& !old(self)@.contains_key(s)
                &&& forall|t: int| 0 <= t < s ==> old(self)@.contains_key(t)
                &&& final(self)@ == old(self)@.insert(s, obj as int)
            }),
    {
        proof {
            lemma_slot_map_props(self.used@);
        }
        let n = self.used.len();
        let mut i: usize = 0;
        while i < n && self.used[i].0 == i as u32
            invariant
                self.used@ == old(self).used@,
                n == self.used@.len(),
                0 <= i <= n,
                forall|j: int| 0 <= j < i ==> ((#[trigger] self.used@[j]).0 as int) == j,
            decreases n - i,
        {
            i = i + 1;
        }
        // `i` is the smallest free slot: every smaller slot is occupied,
        // and every entry from position `i` on names a larger slot.
        proof {
            assert forall|t: int| 0 <= t < i implies old(self)@.contains_key(t) by {
                assert(self.used@[t].0 as int == t);
            }
            if self@.contains_key(i as int) {
                assert(slot_map(self.used@).contains_key(i as int));
                let j = choose|j: int|
                    0 <= j < self.used@.len() && ((#[trigger] self.used@[j]).0 as int) == i as int;
                if j < i as int {
                    assert(self.used@[j].0 as int == j);
                } else if j == i as int {
                    assert(self.used@[i as int].0 == i as u32);
                } else {
                    assert(self.used@[i as int].0 < self.used@[j].0);
                    let t = self.used@[i as int].0 as int;
                    assert(t < i as int);
                    assert(self.used@[t].0 as int == t);
                    assert(self.used@[t].0 < self.used@[i as int].0);
                }
                assert(false);
            }
        }
        let ghost pre = self.used@;
        self.used.insert(i, (i as u32, obj));
        proof {
            assert(forall|j: int| 0 <= j < i ==> self.used@[j] == pre[j]);
            assert(forall|j: int| i < j < self.used@.len() ==> self.used@[j] == pre[j - 1]);
            assert forall|j: int, k: int|
                0 <= j < k < self.used@.len() implies (#[trigger] self.used@[j]).0 < (
            #[trigger] self.used@[k]).0 by {
                if j < i as int && k == i as int {
                    assert(pre[j].0 as int == j);
                } else if j == i as int && k > i as int {
                    assert((pre[k - 1].0 as int) > i as int || (pre[k - 1].0 as int) < i as int);
                    if (pre[k - 1].0 as int) < i as int {
                        let t = pre[k - 1].0 as int;
                        assert(pre[t].0 as int == t);
                        if t < k - 1 {
                            assert(pre[t].0 < pre[k - 1].0);
                        }
                        assert(false);
                    }
                }
            }
            lemma_slot_map_props(self.used@);
            lemma_slot_map_props(pre);
            assert_maps_equal!(self@, old(self)@.insert(i as int, obj as int), k => {
                if slot_map(self.used@).contains_key(k) {
                    let j = choose|j: int|
                        0 <= j < self.used@.len() && ((#[trigger] self.used@[j]).0 as int) == k;
                    if j < i as int {
                        assert(pre[j].0 as int == k);
                    } else if j > i as int {
                        assert(pre[j - 1].0 as int == k);
                    }
                }
                if old(self)@.insert(i as int, obj as int).contains_key(k) {
                    if k == i as int {
                        assert(self.used@[i as int].0 as int == k);
                    } else {
                        assert(old(self)@.contains_key(k));
                        let j = choose|j: int| 0 <= j < pre.len() && ((#[trigger] pre[j]).0 as int) == k;
                        if j < i as int {
                            assert(self.used@[j].0 as int == k);
                        } else {
                            assert(self.used@[j + 1].0 as int == k);
                        }
                    }
                }
            });
        }
        Handle((i as u32 + 1) * HANDLE_STRIDE)
    }

    /// Handle density: the allocator fills the smallest free slot, so on
    /// a table with every handle freed the next allocation fills slot
    /// zero again — the value the very first allocation returned.
    pub proof fn lemma_empty_table_fills_first_slot(m: Map<int, int>, s: int)
        requires
            m == Map::<int, int>::empty(),
            s >= 0,
            !m.contains_key(s),
            forall|t: int| 0 <= t < s ==> m.contains_key(t),
        ensures
            s == 0,
    {
        if s > 0 {
            assert(m.contains_key(0));
        }
    }

    /// The position of the entry for slot `s`, by binary search.
    fn find(&self, s: u32) -> (r: Option<usize>)
        requires
            self.wf(),
        ensures
            match r {
                Some(p) => p < self.used@.len() && self.used@[p as int].0 == s,
                None => !self@.contains_key(s as int),
            },
    {
        proof {
            lemma_slot_map_props(self.used@);
        }
        let mut lo: usize = 0;
        let mut hi: usize = self.used.len();
        while lo < hi
            invariant
                0 <= lo <= hi <= self.used@.len(),
                forall|j: int| 0 <= j < lo ==> (#[trigger] self.used@[j]).0 < s,
                forall|j: int| hi <= j < self.used@.len() ==> (#[trigger] self.used@[j]).0 > s,
            decreases hi - lo,
        {
            let mid = lo + (hi - lo) / 2;
            if self.used[mid].0 == s {
                return Some(mid);
            } else if self.used[mid].0 < s {
                lo = mid + 1;
            } else {
                hi = mid;
            }
        }
        proof {
            if self@.contains_key(s as int) {
                let j = choose|j: int|
                    0 <= j < self.used@.len() && ((#[trigger] self.used@[j]).0 as int) == s as int;
                assert(false);
            }
        }
        None
    }

    /// What looking a handle value up in the table yields.
    pub open spec fn spec_get(m: Map<int, int>, h: u32) -> Option<int> {
        if spec_valid_handle(h) && m.contains_key(spec_handle_slot(h)) {
            Some(m[spec_handle_slot(h)])
        } else {
            None
        }
    }

    /// Look a handle up; an off-stride, below-stride or unallocated handle
    /// yields nothing.
    pub fn get(&self, handle: &Handle) -> (r: Option<usize>)
        requires
            self.wf(),
        ensures
            match r {
                Some(obj) => Self::spec_get(self@, handle.0) == Some(obj as int),
                None => Self::spec_get(self@, handle.0) is None,
            },
    {
        if handle.0 < HANDLE_STRIDE || handle.0 % HANDLE_STRIDE != 0 {
            return None;
        }
        let s = handle.0 / HANDLE_STRIDE - 1;
        match self.find(s) {
            Some(p) => {
                proof {
                    lemma_slot_map_props(self.used@);
                }
                Some(self.used[p].1)
            },
            None => None,
        }
    }

    /// Remove an allocated handle's slot.
    pub fn free(&mut self, handle: &Handle)
        requires
            old(self).wf(),
            spec_valid_handle(handle.0),
            old(self)@.contains_key(spec_handle_slot(handle.0)),
        ensures
            final(self).wf(),
            final(self).size() + 1 == old(self).size(),
            final(self)@ == old(self)@.remove(spec_handle_slot(handle.0)),
    {
        let s = handle.0 / HANDLE_STRIDE - 1;
        proof {
            lemma_slot_map_props(self.used@);
        }
        let p = match self.find(s) {
            Some(p) => p,
            None => {
                proof {
                    assert(false);
                }
                0
            },
        };
        let ghost pre = self.used@;
        self.used.remove(p);
        proof {
            assert(forall|j: int| 0 <= j < p ==> self.used@[j] == pre[j]);
            assert(forall|j: int| p <= j < self.used@.len() ==> self.used@[j] == pre[j + 1]);
            lemma_slot_map_props(self.used@);
            lemma_slot_map_props(pre);
            assert_maps_equal!(self@, old(self)@.remove(s as int), k => {
                if slot_map(self.used@).contains_key(k) {
                    let j = choose|j: int|
                        0 <= j < self.used@.len() && ((#[trigger] self.used@[j]).0 as int) == k;
                    if j < p as int {
                        assert(pre[j].0 as int == k);
                        assert(pre[j].0 != pre[p as int].0);
                    } else {
                        assert(pre[j + 1].0 as int == k);
                        assert(pre[j + 1].0 != pre[p as int].0);
                    }
                }
                if old(self)@.remove(s as int).contains_key(k) {
                    assert(old(self)@.contains_key(k));
                    let j = choose|j: int| 0 <= j < pre.len() && ((#[trigger] pre[j]).0 as int) == k;
                    assert(j != p as int);
                    if j < p as int {
                        assert(self.used@[j].0 as int == k);
                    } else {
                        assert(self.used@[j - 1].0 as int == k);
                    }
                }
            });
        }
    }
}

/// The entry list with every entry naming `id` swept out.
fn swept_entries(entries: &Vec<DirEntry>, id: usize) -> (r: Vec<DirEntry>)
    requires
        unique_names(entries@),
    ensures
        unique_names(r@),
        dir_map(r@) == ObjectStore::spec_dir_drop(dir_map(entries@), id as int),
        forall|a: int|
            0 <= a < r@.len() ==> (#[trigger] r@[a]).obj != id && exists|k: int|
                0 <= k < entries@.len() && (#[trigger] entries@[k]).obj == r@[a].obj,
{
    let ghost id_ = id as int;
    let n = entries.len();
    let mut r: Vec<DirEntry> = Vec::new();
    let mut j: usize = 0;
    while j < n
        invariant
            n == entries@.len(),
            0 <= j <= n,
            unique_names(r@),
            dir_map(r@) == ObjectStore::spec_dir_drop(dir_map(entries@.subrange(0, j as int)), id_),
            forall|a: int|
                0 <= a < r@.len() ==> (#[trigger] r@[a]).obj != id && exists|k: int|
                    0 <= k < j && (#[trigger] entries@[k]).obj == r@[a].obj && entries@[k].name@
                        == r@[a].name@,
        decreases n - j,
    {
        let ghost pre = entries@.subrange(0, j as int);
        let ghost post = entries@.subrange(0, j as int + 1);
        proof {
            assert(post.drop_last() =~= pre);
            assert(post.last() == entries@[j as int]);
            lemma_dir_map_props(pre);
        }
        if entries[j].obj != id {
            let kept = DirEntry { name: entries[j].name.clone(), obj: entries[j].obj };
            proof {
                // the new name is fresh among the kept ones
                assert forall|a: int| 0 <= a < r@.len() implies (#[trigger] r@[a]).name@
                    != kept.name@ by {
                    let k = choose|k: int|
                        0 <= k < j && (#[trigger] entries@[k]).obj == r@[a].obj && entries@[k].name@
                            == r@[a].name@;
                    assert(entries@[k].name@ != entries@[j as int].name@);
                }
            }
            let ghost r0 = r@;
            r.push(kept);
            proof {
                assert(r@.drop_last() =~= r0);
                assert(dir_map(r@) == dir_map(r0).insert(kept.name@, kept.obj as int));
                assert(dir_map(r@) =~~= ObjectStore::spec_dir_drop(dir_map(post), id_));
            }
        } else {
            proof {
                if dir_map(pre).contains_key(entries@[j as int].name@) {
                    let k = choose|k: int|
                        0 <= k < pre.len() && (#[trigger] pre[k]).name@ == entries@[j as int].name@;
                    assert(entries@[k].name@ != entries@[j as int].name@);
                }
                assert(dir_map(r@) =~~= ObjectStore::spec_dir_drop(dir_map(post), id_));
            }
        }
        j = j + 1;
    }
    proof {
        assert(entries@.subrange(0, n as int) =~= entries@);
    }
    r
}

} // verus!
