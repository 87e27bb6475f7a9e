use sommelier::object::ObjectStore;

fn path(s: &str) -> Vec<u16> {
    s.encode_utf16().collect()
}

#[test]
fn insert_then_lookup_path_round_trip() {
    let mut store = ObjectStore::new();
    let root = store.add_directory();
    let mapping = store.add_mapping(7, 0x1000);
    let p = path("\\A\\B\\C");
    assert_eq!(store.insert_path(root, &p, mapping), Some(mapping));
    // the object found is identity-equal: same id, same backing descriptor
    assert_eq!(store.lookup_path(root, &p), Some(mapping));
    assert_eq!(store.get_unix_fd(mapping), 7);
}

#[test]
fn lookup_missing_intermediate_is_not_found() {
    let mut store = ObjectStore::new();
    let root = store.add_directory();
    let mapping = store.add_mapping(3, 64);
    assert_eq!(store.insert_path(root, &path("\\A\\B\\C"), mapping), Some(mapping));
    assert_eq!(store.lookup_path(root, &path("\\A\\X\\C")), None);
    assert_eq!(store.lookup_path(root, &path("\\Z")), None);
}

#[test]
fn lookup_through_non_directory_is_not_found() {
    let mut store = ObjectStore::new();
    let root = store.add_directory();
    let mapping = store.add_mapping(3, 64);
    assert_eq!(store.insert_path(root, &path("\\A\\M"), mapping), Some(mapping));
    // descending through a mapping fails closed
    assert_eq!(store.lookup_path(root, &path("\\A\\M\\Z")), None);
    // planting under a mapping is refused
    let other = store.add_mapping(4, 64);
    assert_eq!(store.insert_path(root, &path("\\A\\M\\Z"), other), None);
}

#[test]
fn insert_path_without_components_is_refused() {
    let mut store = ObjectStore::new();
    let root = store.add_directory();
    let mapping = store.add_mapping(3, 64);
    assert_eq!(store.insert_path(root, &path(""), mapping), None);
    assert_eq!(store.insert_path(root, &path("\\\\"), mapping), None);
    assert_eq!(store.lookup_path(root, &path("")), None);
}

#[test]
fn empty_segments_are_skipped() {
    let mut store = ObjectStore::new();
    let root = store.add_directory();
    let mapping = store.add_mapping(9, 64);
    assert_eq!(store.insert_path(root, &path("\\A\\B"), mapping), Some(mapping));
    assert_eq!(store.lookup_path(root, &path("A\\\\B")), Some(mapping));
}

#[test]
fn single_level_insert_replaces_binding() {
    let mut store = ObjectStore::new();
    let root = store.add_directory();
    let first = store.add_mapping(1, 16);
    let second = store.add_mapping(2, 16);
    let name = path("Session");
    store.insert(root, &name, first);
    assert_eq!(store.lookup(root, &name), Some(first));
    store.insert(root, &name, second);
    assert_eq!(store.lookup(root, &name), Some(second));
}

#[test]
fn insert_dir_returns_existing_child() {
    let mut store = ObjectStore::new();
    let root = store.add_directory();
    let a = store.insert_dir(root, &path("Registry"));
    let again = store.insert_dir(root, &path("Registry"));
    assert_eq!(a, again);
    let b = store.insert_dir(root, &path("KernelObjects"));
    assert_ne!(a, b);
}

#[test]
fn deep_path_creates_intermediates_on_demand() {
    let mut store = ObjectStore::new();
    let root = store.add_directory();
    let dir = store.add_directory();
    let p = path("\\Registry\\Machine\\System\\CurrentControlSet\\Control\\Session Manager\\Environment");
    assert_eq!(store.insert_path(root, &p, dir), Some(dir));
    assert_eq!(store.lookup_path(root, &p), Some(dir));
    // the intermediate directories exist and can take siblings
    let sibling = store.add_mapping(5, 32);
    assert_eq!(
        store.insert_path(root, &path("\\Registry\\Machine\\Sibling"), sibling),
        Some(sibling)
    );
    assert_eq!(store.lookup_path(root, &path("\\Registry\\Machine\\Sibling")), Some(sibling));
    assert_eq!(store.lookup_path(root, &p), Some(dir));
}
