use libfoo::binder::symbol_name;

#[test]
fn symbol_name_is_zero_terminated() {
    assert_eq!(symbol_name("sum"), b"sum\0".to_vec());
}

#[test]
fn empty_symbol_name() {
    assert_eq!(symbol_name(""), vec![0u8]);
}
