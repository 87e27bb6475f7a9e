use sommelier::object::{HandleTable, ObjectStore};

fn path(s: &str) -> Vec<u16> {
    s.encode_utf16().collect()
}

#[test]
fn object_permanence() {
    let mut store = ObjectStore::new();
    let root = store.add_directory();
    // creation hands the one reference a handle would hold
    let mapping = store.add_mapping(42, 0x1000);
    let p = path("\\KernelObjects\\Shared");
    assert_eq!(store.insert_path(root, &p, mapping), Some(mapping));

    // permanence adds a reference of its own
    store.make_permanent(mapping);
    assert_eq!(store.ref_count(mapping), 2);

    // the last handle closes: the object stays in the namespace
    assert_eq!(store.release(mapping), None);
    assert_eq!(store.lookup_path(root, &p), Some(mapping));

    // a matching make_temporary drops the last reference: the object is
    // destroyed, its descriptor handed back, and its name swept out
    assert_eq!(store.make_temporary(mapping), Some(42));
    assert!(!store.contains(mapping));
    assert_eq!(store.lookup_path(root, &p), None);
}

#[test]
fn temporary_object_dies_with_its_last_handle() {
    let mut store = ObjectStore::new();
    let root = store.add_directory();
    let mapping = store.add_mapping(5, 64);
    let p = path("\\Gone");
    assert_eq!(store.insert_path(root, &p, mapping), Some(mapping));
    // no permanence: closing the only handle destroys the object
    assert_eq!(store.release(mapping), Some(5));
    assert_eq!(store.lookup_path(root, &p), None);
}

#[test]
fn grab_and_release_count() {
    let mut store = ObjectStore::new();
    let mapping = store.add_mapping(8, 16);
    assert_eq!(store.ref_count(mapping), 1);
    store.grab(mapping);
    store.grab(mapping);
    assert_eq!(store.ref_count(mapping), 3);
    assert_eq!(store.release(mapping), None);
    assert_eq!(store.release(mapping), None);
    assert_eq!(store.ref_count(mapping), 1);
    assert_eq!(store.release(mapping), Some(8));
}

#[test]
fn destroying_a_directory_sweeps_it_everywhere() {
    let mut store = ObjectStore::new();
    let root = store.add_directory();
    let child = store.add_directory();
    store.insert(root, &path("A"), child);
    store.insert(root, &path("Alias"), child);
    assert_eq!(store.lookup(root, &path("A")), Some(child));
    assert_eq!(store.lookup(root, &path("Alias")), Some(child));
    assert_eq!(store.release(child), None);
    assert!(!store.contains(child));
    assert_eq!(store.lookup(root, &path("A")), None);
    assert_eq!(store.lookup(root, &path("Alias")), None);
}

#[test]
fn open_grants_a_counted_handle() {
    let mut store = ObjectStore::new();
    let mut table = HandleTable::new();
    let mapping = store.add_mapping(6, 32);
    let h = store.open(&mut table, mapping);
    assert_eq!(h.0, 4);
    assert_eq!(table.get(&h), Some(mapping));
    // the handle owns one reference beside the creator's
    assert_eq!(store.ref_count(mapping), 2);
    table.free(&h);
    assert_eq!(store.release(mapping), None);
    assert_eq!(store.release(mapping), Some(6));
}
