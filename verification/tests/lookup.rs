use vtable::report::{FunctionPtr, Style};
use vtable::symbol::{keep_first, lookup_address_of, resolve_symbol, SymbolInfo};

#[test]
fn the_address_looked_up_is_one_byte_further() {
    assert_eq!(lookup_address_of(0), Some(1));
    assert_eq!(lookup_address_of(0x55d0), Some(0x55d1));
    assert_eq!(lookup_address_of(usize::MAX - 1), Some(usize::MAX));
}

#[test]
fn the_last_address_is_not_looked_up() {
    assert_eq!(lookup_address_of(usize::MAX), None);
    assert_eq!(resolve_symbol(usize::MAX), None);
    assert_eq!(FunctionPtr::resolve(usize::MAX), FunctionPtr { ptr: usize::MAX, symbol: None });
}

#[test]
fn resolving_keeps_the_address_whatever_is_found() {
    for ptr in [0usize, 1, 8, usize::MAX / 2] {
        let record = FunctionPtr::resolve(ptr);
        assert_eq!(record.ptr, ptr);
        let text = record.render(Style::Compact);
        assert!(text.starts_with(&format!("FunctionPtr {{ ptr: {:#x}", ptr)));
        assert!(text.ends_with(" }"));
    }
}

fn first_landmark() -> &'static str {
    "first"
}

fn second_landmark() -> &'static str {
    "second"
}

#[test]
fn a_function_pointer_resolves_to_its_own_function() {
    let first: fn() -> &'static str = first_landmark;
    let second: fn() -> &'static str = second_landmark;
    let found = resolve_symbol(first as usize).expect("a symbol for the first function");
    assert!(found.name.expect("a name").contains("first_landmark"));
    let found = resolve_symbol(second as usize).expect("a symbol for the second function");
    assert!(found.name.expect("a name").contains("second_landmark"));
    assert_eq!(first(), "first");
    assert_eq!(second(), "second");
}

#[test]
fn resolving_twice_gives_the_same_record() {
    let f: fn() -> &'static str = first_landmark;
    assert_eq!(FunctionPtr::resolve(f as usize), FunctionPtr::resolve(f as usize));
}

fn named(name: &str) -> SymbolInfo {
    SymbolInfo {
        relative_addr: None,
        name: Some(name.to_string()),
        filename: None,
        lineno: None,
        colno: None,
    }
}

#[test]
fn only_the_first_candidate_is_kept() {
    let mut first = None;
    keep_first(&mut first, named("inner"));
    assert_eq!(first, Some(named("inner")));
    keep_first(&mut first, named("outer"));
    assert_eq!(first, Some(named("inner")));
    keep_first(&mut first, named("outermost"));
    assert_eq!(first, Some(named("inner")));
}
