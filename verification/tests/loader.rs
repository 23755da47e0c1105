use reload::loader::LibLoader;

#[test]
fn retained_after_n_opens() {
    let mut loader = LibLoader::new();
    assert_eq!(loader.module_count(), 0);
    let g0 = loader.record_open(String::from("/tmp/a.dll"));
    let g1 = loader.record_open(String::from("/tmp/b.dll"));
    let g2 = loader.record_open(String::from("/tmp/c.dll"));
    // Three successful opens leave exactly three retained modules, with
    // distinct, increasing generations; none was removed along the way.
    assert_eq!(loader.module_count(), 3);
    assert_eq!((g0, g1, g2), (0, 1, 2));
    assert_eq!(loader.current_generation(), Some(2));
}

#[test]
fn extraction_without_any_module() {
    let loader = LibLoader::new();
    assert!(loader.extract_processing_object(true).is_none());
}

#[test]
fn extraction_with_unresolved_factory() {
    let mut loader = LibLoader::new();
    loader.record_open(String::from("/tmp/a.dll"));
    assert!(loader.extract_processing_object(false).is_none());
}

#[test]
fn extraction_addresses_most_recent_module() {
    let mut loader = LibLoader::new();
    loader.record_open(String::from("/tmp/a.dll"));
    let last = loader.record_open(String::from("/tmp/b.dll"));
    let obj = loader.extract_processing_object(true).expect("a module is open");
    assert_eq!(obj.module_gen, last);
}
