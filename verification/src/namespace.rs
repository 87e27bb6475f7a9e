//! The hierarchical object namespace.
//!
//! A path such as `\A\B\C` is a sequence of UTF-16 code units split on
//! the backslash; empty segments are skipped.  Walking a path descends
//! one directory per component and fails closed — a missing or
//! non-directory intermediate yields "not found", never an error.
//! Planting a path creates the missing intermediate directories on
//! demand and binds the last component to the object.

use vstd::prelude::*;
use crate::object::{spec_dir_lookup, store_inv, ObjectKindView, ObjectModel, ObjectStore};

verus! {

/// The code unit that separates path components.
pub const PATH_SEPARATOR: u16 = 92;

/// Split `p` on the separator, `cur` being the partial component read so
/// far and `acc` the components already read; empty components vanish.
pub open spec fn split_acc(p: Seq<u16>, cur: Seq<u16>, acc: Seq<Seq<u16>>) -> Seq<Seq<u16>>
    decreases p.len(),
{
    if p.len() == 0 {
        if cur.len() == 0 {
            acc
        } else {
            acc.push(cur)
        }
    } else if p[0] == PATH_SEPARATOR {
        split_acc(
            p.subrange(1, p.len() as int),
            Seq::empty(),
            if cur.len() == 0 {
                acc
            } else {
                acc.push(cur)
            },
        )
    } else {
        split_acc(p.subrange(1, p.len() as int), cur.push(p[0]), acc)
    }
}

/// The non-empty components of a path.
pub open spec fn path_components(p: Seq<u16>) -> Seq<Seq<u16>> {
    split_acc(p, Seq::empty(), Seq::empty())
}

/// The views of a list of component names.
pub open spec fn comp_views(s: Seq<Vec<u16>>) -> Seq<Seq<u16>> {
    s.map_values(|v: Vec<u16>| v@)
}

/// Descend one directory per component; `None` as soon as a component is
/// unbound or the object to descend into is not a directory.
pub open spec fn spec_walk(m: Map<int, ObjectModel>, dir: int, c: Seq<Seq<u16>>) -> Option<int>
    decreases c.len(),
{
    if c.len() == 0 {
        Some(dir)
    } else {
        match spec_dir_lookup(m, dir, c[0]) {
            Some(next) => spec_walk(m, next, c.subrange(1, c.len() as int)),
            None => None,
        }
    }
}

/// What looking a whole path up yields; a path without components names
/// nothing.
pub open spec fn spec_lookup_path(m: Map<int, ObjectModel>, root: int, p: Seq<u16>) -> Option<
    int,
> {
    let c = path_components(p);
    if c.len() == 0 {
        None
    } else {
        spec_walk(m, root, c)
    }
}

/// Whether planting the components `c` under `dir` can succeed: every
/// intermediate that already exists must be a directory, and there must
/// be a last component to bind.
pub open spec fn spec_can_insert(m: Map<int, ObjectModel>, dir: int, c: Seq<Seq<u16>>) -> bool
    decreases c.len(),
{
    if !(m.dom().contains(dir) && m[dir].kind is Directory) {
        false
    } else if c.len() <= 1 {
        c.len() == 1
    } else {
        match spec_dir_lookup(m, dir, c[0]) {
            Some(id) => spec_can_insert(m, id, c.subrange(1, c.len() as int)),
            None => true,
        }
    }
}

/// Pairwise distinct component names.
pub open spec fn distinct_components(c: Seq<Seq<u16>>) -> bool {
    forall|i: int, j: int| 0 <= i < j < c.len() ==> c[i] != c[j]
}

/// One old store is preserved inside a new one: every old object is
/// still live with the same count, a mapping unchanged and a directory
/// still a directory.
pub open spec fn preserves_objects(m0: Map<int, ObjectModel>, m1: Map<int, ObjectModel>) -> bool {
    forall|id: int| #[trigger]
        m0.dom().contains(id) ==> m1.dom().contains(id) && m1[id].refs == m0[id].refs && match m0[id].kind {
            ObjectKindView::Mapping(_) => m1[id].kind == m0[id].kind,
            ObjectKindView::Directory(_) => m1[id].kind is Directory,
        }
}

/// Every directory binding of the old store survives in the new one;
/// at most, a binding may now name `obj` instead.
pub open spec fn preserves_bindings(
    m0: Map<int, ObjectModel>,
    m1: Map<int, ObjectModel>,
    obj: int,
) -> bool {
    forall|d: int, nm: Seq<u16>| #[trigger]
        spec_dir_lookup(m0, d, nm) is Some ==> spec_dir_lookup(m1, d, nm) == spec_dir_lookup(
            m0,
            d,
            nm,
        ) || spec_dir_lookup(m1, d, nm) == Some(obj)
}

/// Split a path into its non-empty components.
pub fn split_path(path: &[u16]) -> (r: Vec<Vec<u16>>)
    ensures
        comp_views(r@) == path_components(path@),
{
    let n = path.len();
    let mut acc: Vec<Vec<u16>> = Vec::new();
    let mut cur: Vec<u16> = Vec::new();
    let mut i: usize = 0;
    proof {
        assert(path@.subrange(0, n as int) =~= path@);
        assert(comp_views(acc@) =~= Seq::<Seq<u16>>::empty());
    }
    while i < n
        invariant
            n == path@.len(),
            0 <= i <= n,
            split_acc(path@.subrange(i as int, n as int), cur@, comp_views(acc@))
                == path_components(path@),
        decreases n - i,
    {
        let ghost rest = path@.subrange(i as int, n as int);
        proof {
            reveal_with_fuel(split_acc, 2);
            assert(rest[0] == path@[i as int]);
            assert(rest.subrange(1, rest.len() as int) =~= path@.subrange(i as int + 1, n as int));
        }
        if path[i] == PATH_SEPARATOR {
            if cur.len() > 0 {
                let ghost a0 = acc@;
                let ghost c0 = cur@;
                let done = cur;
                acc.push(done);
                cur = Vec::new();
                proof {
                    assert(comp_views(acc@) =~= comp_views(a0).push(c0));
                    assert(split_acc(rest, c0, comp_views(a0)) == split_acc(
                        rest.subrange(1, rest.len() as int),
                        Seq::<u16>::empty(),
                        comp_views(a0).push(c0),
                    ));
                    assert(split_acc(path@.subrange(i as int + 1, n as int), cur@, comp_views(acc@))
                        == path_components(path@));
                }
            } else {
                proof {
                    assert(split_acc(rest, cur@, comp_views(acc@)) == split_acc(
                        rest.subrange(1, rest.len() as int),
                        Seq::<u16>::empty(),
                        comp_views(acc@),
                    ));
                    assert(cur@ =~= Seq::<u16>::empty());
                    assert(split_acc(path@.subrange(i as int + 1, n as int), cur@, comp_views(acc@))
                        == path_components(path@));
                }
            }
        } else {
            let u = path[i];
            let ghost c0 = cur@;
            cur.push(u);
            proof {
                assert(split_acc(rest, c0, comp_views(acc@)) == split_acc(
                    rest.subrange(1, rest.len() as int),
                    c0.push(rest[0]),
                    comp_views(acc@),
                ));
                assert(cur@ == c0.push(u));
                assert(split_acc(path@.subrange(i as int + 1, n as int), cur@, comp_views(acc@))
                    == path_components(path@));
            }
        }
        i = i + 1;
    }
    if cur.len() > 0 {
        let ghost a0 = acc@;
        let ghost c0 = cur@;
        acc.push(cur);
        proof {
            assert(comp_views(acc@) =~= comp_views(a0).push(c0));
        }
    }
    acc
}

impl ObjectStore {
    /// Look a whole path up from `root`; "not found" when any segment is
    /// missing or a traversed object is not a directory.
    pub fn lookup_path(&self, root: usize, path: &[u16]) -> (r: Option<usize>)
        requires
            self.wf(),
        ensures
            match r {
                Some(o) => spec_lookup_path(self@, root as int, path@) == Some(o as int),
                None => spec_lookup_path(self@, root as int, path@) is None,
            },
    {
        let comps = split_path(path);
        let n = comps.len();
        if n == 0 {
            return None;
        }
        let ghost cv = comp_views(comps@);
        let mut cur = root;
        let mut i: usize = 0;
        proof {
            assert(cv.subrange(0, n as int) =~= cv);
        }
        while i < n
            invariant
                self.wf(),
                n == comps@.len(),
                0 <= i <= n,
                spec_walk(self@, root as int, cv) == spec_walk(
                    self@,
                    cur as int,
                    cv.subrange(i as int, n as int),
                ),
            decreases n - i,
        {
            let ghost rest = cv.subrange(i as int, n as int);
            proof {
                assert(rest[0] == cv[i as int]);
                assert(rest.subrange(1, rest.len() as int) =~= cv.subrange(i as int + 1, n as int));
            }
            match self.lookup(cur, comps[i].as_slice()) {
                Some(next) => {
                    cur = next;
                },
                None => {
                    return None;
                },
            }
            i = i + 1;
        }
        proof {
            assert(cv.subrange(n as int, n as int) =~= Seq::<Seq<u16>>::empty());
        }
        Some(cur)
    }

    /// Plant a path from `root`: create the missing intermediate
    /// directories and bind the last component to the live object `obj`,
    /// replacing an earlier binding of that name.  Fails exactly when the
    /// path has no components, the root is no directory, or an existing
    /// intermediate is not a directory.  Looking the same path up again
    /// finds `obj`, as long as no two of the path's components are equal:
    /// with a repeated component the final binding may redirect one of
    /// the walk's own earlier steps.
    pub fn insert_path(&mut self, root: usize, path: &[u16], obj: usize) -> (r: Option<usize>)
        requires
            old(self).wf(),
            old(self)@.dom().contains(obj as int),
        ensures
            final(self).wf(),
            preserves_objects(old(self)@, final(self)@),
            preserves_bindings(old(self)@, final(self)@, obj as int),
            r matches Some(o) ==> o == obj,
            r is Some <==> spec_can_insert(old(self)@, root as int, path_components(path@)),
            (r is Some && distinct_components(path_components(path@))) ==> spec_lookup_path(
                final(self)@,
                root as int,
                path@,
            ) == Some(obj as int),
    {
        let ghost m0 = self@;
        let comps = split_path(path);
        let n = comps.len();
        let ghost cv = comp_views(comps@);
        if n == 0 {
            return None;
        }
        if !self.contains(root) {
            return None;
        }
        if !self.is_directory(root) {
            return None;
        }
        let mut cur = root;
        let ghost mut chain: Seq<int> = seq![root as int];
        let mut i: usize = 0;
        proof {
            assert(cv.subrange(0, n as int) =~= cv);
        }
        while i < n - 1
            invariant
                self.wf(),
                n == comps@.len(),
                n >= 1,
                cv == comp_views(comps@),
                0 <= i <= n - 1,
                self@.dom().contains(obj as int),
                self@.dom().contains(cur as int),
                self@[cur as int].kind is Directory,
                preserves_objects(m0, self@),
                forall|d: int, nm: Seq<u16>| #[trigger]
                    spec_dir_lookup(m0, d, nm) is Some ==> spec_dir_lookup(self@, d, nm)
                        == spec_dir_lookup(m0, d, nm),
                spec_can_insert(m0, root as int, cv) == spec_can_insert(
                    self@,
                    cur as int,
                    cv.subrange(i as int, n as int),
                ),
                chain.len() == i + 1,
                chain[0] == root as int,
                chain[i as int] == cur as int,
                forall|k: int|
                    0 <= k < i ==> #[trigger] spec_dir_lookup(self@, chain[k], cv[k]) == Some(chain[k + 1]),
                forall|k: int|
                    0 <= k <= i ==> self@.dom().contains(#[trigger] chain[k]) && self@[chain[k]].kind
                        is Directory,
            decreases n - 1 - i,
        {
            let ghost rest = cv.subrange(i as int, n as int);
            let ghost mpre = self@;
            proof {
                assert(rest[0] == cv[i as int]);
                assert(rest.subrange(1, rest.len() as int) =~= cv.subrange(i as int + 1, n as int));
                self.lemma_wf_model();
            }
            let ghost prelookup = spec_dir_lookup(self@, cur as int, cv[i as int]);
            let next = self.insert_dir(cur, comps[i].as_slice());
            proof {
                if prelookup is Some {
                    assert(self@ == mpre);
                    assert(mpre[cur as int].kind->Directory_0.contains_key(cv[i as int]));
                    assert(mpre.dom().contains(next as int));
                } else {
                    assert(next as int != cur as int);
                    assert(self@[next as int].kind is Directory);
                }
            }
            if !self.is_directory(next) {
                proof {
                    assert(prelookup is Some);
                    assert(self@ == mpre);
                    assert(!spec_can_insert(mpre, next as int, cv.subrange(i as int + 1, n as int)));
                    assert(!spec_can_insert(mpre, cur as int, rest));
                }
                return None;
            }
            proof {
                let rest2 = cv.subrange(i as int + 1, n as int);
                if prelookup is Some {
                    assert(spec_can_insert(mpre, cur as int, rest) == spec_can_insert(
                        self@,
                        next as int,
                        rest2,
                    ));
                } else {
                    // the whole remaining path grows under a fresh empty directory
                    assert(spec_can_insert(mpre, cur as int, rest));
                    assert(self@[next as int].kind == ObjectKindView::Directory(
                        Map::<Seq<u16>, int>::empty(),
                    ));
                    if rest2.len() > 1 {
                        assert(spec_dir_lookup(self@, next as int, rest2[0]) is None);
                    }
                    assert(spec_can_insert(self@, next as int, rest2));
                }
                if prelookup is None {
                    // the one name written was unbound, so every old binding survives
                    assert forall|d: int, nm: Seq<u16>| #[trigger]
                        spec_dir_lookup(m0, d, nm) is Some implies spec_dir_lookup(self@, d, nm)
                        == spec_dir_lookup(m0, d, nm) by {
                        assert(spec_dir_lookup(mpre, d, nm) == spec_dir_lookup(m0, d, nm));
                        if d == cur as int && nm == cv[i as int] {
                            assert(spec_dir_lookup(mpre, d, nm) is None);
                        }
                    }
                }
                // earlier chain bindings survive: the one name written was unbound
                assert forall|k: int|
                    0 <= k < i implies #[trigger] spec_dir_lookup(self@, chain[k], cv[k]) == Some(
                    chain[k + 1],
                ) by {
                    if prelookup is None {
                        if chain[k] == cur as int && cv[k] == cv[i as int] {
                            assert(spec_dir_lookup(mpre, chain[k], cv[k]) == Some(chain[k + 1]));
                            assert(false);
                        }
                    }
                }
            }
            cur = next;
            proof {
                chain = chain.push(next as int);
            }
            i = i + 1;
        }
        let ghost rest = cv.subrange(i as int, n as int);
        let ghost mpre = self@;
        proof {
            assert(rest.len() == 1);
            assert(rest[0] == cv[i as int]);
            assert(spec_can_insert(self@, cur as int, rest));
        }
        self.insert(cur, comps[n - 1].as_slice(), obj);
        proof {
            assert forall|id: int| #[trigger] m0.dom().contains(id) implies self@.dom().contains(id)
                && self@[id].refs == m0[id].refs && match m0[id].kind {
                ObjectKindView::Mapping(_) => self@[id].kind == m0[id].kind,
                ObjectKindView::Directory(_) => self@[id].kind is Directory,
            } by {
                assert(mpre.dom().contains(id));
            }
            assert forall|d: int, nm: Seq<u16>| #[trigger]
                spec_dir_lookup(m0, d, nm) is Some implies spec_dir_lookup(self@, d, nm)
                == spec_dir_lookup(m0, d, nm) || spec_dir_lookup(self@, d, nm) == Some(
                obj as int,
            ) by {
                assert(spec_dir_lookup(mpre, d, nm) == spec_dir_lookup(m0, d, nm));
            }
            if distinct_components(cv) {
                assert forall|k: int|
                    0 <= k < n - 1 implies #[trigger] spec_dir_lookup(self@, chain[k], cv[k]) == Some(
                    chain[k + 1],
                ) by {
                    assert(cv[k] != cv[n - 1]);
                    assert(spec_dir_lookup(mpre, chain[k], cv[k]) == Some(chain[k + 1]));
                }
                assert(spec_dir_lookup(self@, cur as int, cv[n - 1]) == Some(obj as int));
                lemma_walk_chain(self@, chain, cv, obj as int);
            }
        }
        Some(obj)
    }
}

/// Two stores with the same live objects and the same payloads resolve
/// every walk alike, whatever the reference counts.
proof fn lemma_walk_same_kinds(
    m1: Map<int, ObjectModel>,
    m2: Map<int, ObjectModel>,
    dir: int,
    c: Seq<Seq<u16>>,
)
    requires
        forall|x: int| #[trigger] m1.dom().contains(x) == m2.dom().contains(x),
        forall|x: int| #[trigger] m1.dom().contains(x) ==> m1[x].kind == m2[x].kind,
    ensures
        spec_walk(m1, dir, c) == spec_walk(m2, dir, c),
    decreases c.len(),
{
    if c.len() > 0 {
        assert(m1.dom().contains(dir) == m2.dom().contains(dir));
        if m1.dom().contains(dir) {
            assert(m1[dir].kind == m2[dir].kind);
        }
        assert(spec_dir_lookup(m1, dir, c[0]) == spec_dir_lookup(m2, dir, c[0]));
        match spec_dir_lookup(m1, dir, c[0]) {
            Some(next) => {
                lemma_walk_same_kinds(m1, m2, next, c.subrange(1, c.len() as int));
            },
            None => {},
        }
    }
}

/// After the object a walk resolved to is destroyed and its bindings
/// swept, the same walk finds nothing.
proof fn lemma_walk_after_sweep(m: Map<int, ObjectModel>, dir: int, c: Seq<Seq<u16>>, id: int)
    requires
        spec_walk(m, dir, c) == Some(id),
        c.len() >= 1,
    ensures
        spec_walk(ObjectStore::spec_sweep(m, id), dir, c) is None,
    decreases c.len(),
{
    let m2 = ObjectStore::spec_sweep(m, id);
    if dir == id {
        assert(spec_dir_lookup(m2, dir, c[0]) is None);
    } else {
        let next = spec_dir_lookup(m, dir, c[0])->Some_0;
        if next == id {
            assert(spec_dir_lookup(m2, dir, c[0]) is None);
        } else {
            assert(spec_dir_lookup(m2, dir, c[0]) == Some(next));
            lemma_walk_after_sweep(m, next, c.subrange(1, c.len() as int), id);
        }
    }
}

/// Object permanence.  An object named in the namespace and held by one
/// handle and one permanence reference survives the handle: after the
/// handle's reference drops, the same path still finds it.  Dropping
/// the permanence reference too destroys it and sweeps its name, and the
/// path then finds nothing.
pub proof fn lemma_object_permanence(m: Map<int, ObjectModel>, root: int, p: Seq<u16>, id: int)
    requires
        store_inv(m),
        spec_lookup_path(m, root, p) == Some(id),
        m.dom().contains(id),
        m[id].refs == 2,
    ensures
        spec_lookup_path(ObjectStore::spec_release(m, id), root, p) == Some(id),
        spec_lookup_path(
            ObjectStore::spec_release(ObjectStore::spec_release(m, id), id),
            root,
            p,
        ) is None,
{
    let c = path_components(p);
    let m1 = ObjectStore::spec_release(m, id);
    assert(forall|x: int| #[trigger] m1.dom().contains(x) == m.dom().contains(x));
    assert(forall|x: int| #[trigger] m1.dom().contains(x) ==> m1[x].kind == m[x].kind);
    lemma_walk_same_kinds(m, m1, root, c);
    assert(m1[id].refs == 1);
    lemma_walk_after_sweep(m1, root, c, id);
}

/// In a store whose directories point only at live objects, whatever a
/// walk over at least one component resolves to is live.
pub proof fn lemma_walk_live(m: Map<int, ObjectModel>, dir: int, c: Seq<Seq<u16>>, x: int)
    requires
        crate::object::store_inv(m),
        c.len() >= 1,
        spec_walk(m, dir, c) == Some(x),
    ensures
        m.dom().contains(x),
    decreases c.len(),
{
    let next = spec_dir_lookup(m, dir, c[0])->Some_0;
    assert(m.dom().contains(next)) by {
        let d = m[dir].kind->Directory_0;
        assert(d.contains_key(c[0]) && d[c[0]] == next);
    }
    if c.len() > 1 {
        lemma_walk_live(m, next, c.subrange(1, c.len() as int), x);
    } else {
        assert(c.subrange(1, c.len() as int) =~= Seq::<Seq<u16>>::empty());
    }
}

/// Following a chain of bindings component by component resolves the
/// whole walk to the object the last binding names.
proof fn lemma_walk_chain(m: Map<int, ObjectModel>, chain: Seq<int>, c: Seq<Seq<u16>>, obj: int)
    requires
        chain.len() == c.len(),
        c.len() >= 1,
        forall|k: int|
            0 <= k < c.len() - 1 ==> #[trigger] spec_dir_lookup(m, chain[k], c[k]) == Some(chain[k + 1]),
        spec_dir_lookup(m, chain[c.len() - 1], c[c.len() - 1]) == Some(obj),
    ensures
        spec_walk(m, chain[0], c) == Some(obj),
    decreases c.len(),
{
    reveal_with_fuel(spec_walk, 2);
    if c.len() == 1 {
        assert(c.subrange(1, 1) =~= Seq::<Seq<u16>>::empty());
        assert(spec_walk(m, obj, c.subrange(1, c.len() as int)) == Some(obj));
    } else {
        let chain2 = chain.subrange(1, chain.len() as int);
        let c2 = c.subrange(1, c.len() as int);
        assert forall|k: int|
            0 <= k < c2.len() - 1 implies #[trigger] spec_dir_lookup(m, chain2[k], c2[k]) == Some(
            chain2[k + 1],
        ) by {
            assert(chain2[k] == chain[k + 1] && c2[k] == c[k + 1] && chain2[k + 1] == chain[k + 2]);
        }
        assert(chain2[c2.len() - 1] == chain[c.len() - 1] && c2[c2.len() - 1] == c[c.len() - 1]);
        lemma_walk_chain(m, chain2, c2, obj);
        assert(spec_dir_lookup(m, chain[0], c[0]) == Some(chain[1]));
        assert(chain2[0] == chain[1]);
    }
}

} // verus!
