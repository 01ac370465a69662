use std::fmt::Debug;

use vtable::report::{FunctionPtr, Style};
use vtable::{Dyn, VTable};

/// The address of the code that destructs a `T` in place.
fn destructor_of<T>() -> usize {
    std::ptr::drop_in_place::<T> as usize
}

fn test_vtable_size_and_align<T: Dyn>(v: &T) {
    let erased: &dyn Dyn = v;
    let vtable = VTable::<0>::for_value(erased, destructor_of::<T>(), []);
    assert_eq!(vtable.size, std::mem::size_of::<T>());
    assert_eq!(vtable.align, std::mem::align_of::<T>());
    assert!(vtable.has_layout_of::<T>());
}

#[allow(dead_code)]
#[derive(Debug, Clone)]
struct Test(u16, u8);

#[derive(Default)]
struct Align1 {
    _a: [u8; 8],
}
#[derive(Default)]
struct Align2 {
    _a: [u16; 4],
}
#[derive(Default)]
struct Align4 {
    _a: [u32; 2],
}

#[test]
fn vtable_sizes() {
    test_vtable_size_and_align(&0u8);
    test_vtable_size_and_align(&0u16);
    test_vtable_size_and_align(&0u32);
    test_vtable_size_and_align(&0u64);
    test_vtable_size_and_align(&"foo".to_string());
    test_vtable_size_and_align(&Test(1, 2));

    assert_eq!(std::mem::align_of::<Align1>(), 1);
    assert_eq!(std::mem::align_of::<Align2>(), 2);
    assert_eq!(std::mem::align_of::<Align4>(), 4);
    test_vtable_size_and_align(&Align1::default());
    test_vtable_size_and_align(&Align2::default());
    test_vtable_size_and_align(&Align4::default());
}

trait TestTrait {
    fn as_ptr(&self) -> usize;
}

impl<T: Debug> TestTrait for T {
    fn as_ptr(&self) -> usize {
        std::ptr::from_ref(self).addr()
    }
}

#[test]
fn test_virutal_function() {
    let test = Test(3, 4);
    let slots: [fn(&Test) -> usize; 1] = [<Test as TestTrait>::as_ptr];
    let erased: &dyn TestTrait = &test;
    let vtable = VTable::<1>::for_value(erased, destructor_of::<Test>(), slots.map(|f| f as usize));
    println!("{}", vtable.describe().render(Style::Pretty));

    let as_ptr_f = vtable.functions[0];
    let f = slots[0];
    assert_eq!(f as usize, as_ptr_f);

    let ptr = f(&test);
    assert_eq!(ptr, std::ptr::from_ref(&test).addr());
    assert_eq!(ptr, erased.as_ptr());
}

trait ManyFunctions {
    fn c(&self) -> &str {
        "c"
    }
    fn e(&self) -> &str {
        "e"
    }
    fn a(&self) -> &str {
        "a"
    }
    fn b(&self) -> &str {
        "b"
    }
    fn d(&self) -> &str {
        "d"
    }
}

impl ManyFunctions for Test {}

#[test]
fn test_multiple_virtual_functions() {
    let v = Test(1, 2);
    let slots: [fn(&Test) -> &str; 5] = [
        <Test as ManyFunctions>::c,
        <Test as ManyFunctions>::e,
        <Test as ManyFunctions>::a,
        <Test as ManyFunctions>::b,
        <Test as ManyFunctions>::d,
    ];
    let erased: &dyn ManyFunctions = &v;
    let vtable = VTable::<5>::for_value(erased, destructor_of::<Test>(), slots.map(|f| f as usize));
    let report = vtable.describe();
    println!("{}", report.render(Style::Pretty));

    assert_eq!(report.functions.len(), 5);
    for ((f, record), expected) in slots.into_iter().zip(&report.functions).zip(["c", "e", "a", "b", "d"]) {
        println!("{}", expected);
        assert_eq!(record.ptr, f as usize);
        assert_eq!(f(&v), expected);
        if let Some(name) = record.symbol.as_ref().and_then(|symbol| symbol.name.as_ref()) {
            assert!(name.contains(&format!("ManyFunctions::{}", expected)));
        }
    }
}

fn landmark() -> u32 {
    7
}

#[test]
fn resolving_finds_the_function_behind_an_address() {
    let f: fn() -> u32 = landmark;
    let record = FunctionPtr::resolve(f as usize);
    println!("{}", record.render(Style::Compact));
    assert_eq!(record.ptr, f as usize);
    let symbol = record.symbol.expect("symbol");
    assert!(symbol.name.expect("name").contains("landmark"));
    assert_eq!(f(), 7);
}

struct Loud;

impl ManyFunctions for Loud {
    fn a(&self) -> &str {
        "A"
    }
}

#[test]
fn a_method_that_is_not_overridden_runs_the_default_body() {
    let quiet = Test(1, 2);
    let quiet_slots: [fn(&Test) -> &str; 5] = [
        <Test as ManyFunctions>::c,
        <Test as ManyFunctions>::e,
        <Test as ManyFunctions>::a,
        <Test as ManyFunctions>::b,
        <Test as ManyFunctions>::d,
    ];
    let loud = Loud;
    let loud_slots: [fn(&Loud) -> &str; 5] = [
        <Loud as ManyFunctions>::c,
        <Loud as ManyFunctions>::e,
        <Loud as ManyFunctions>::a,
        <Loud as ManyFunctions>::b,
        <Loud as ManyFunctions>::d,
    ];
    assert_eq!(quiet_slots.map(|f| f(&quiet)), ["c", "e", "a", "b", "d"]);
    assert_eq!(loud_slots.map(|f| f(&loud)), ["c", "e", "A", "b", "d"]);

    let erased: &dyn ManyFunctions = &loud;
    assert_eq!(erased.a(), "A");
    assert_eq!(erased.b(), "b");
    let erased: &dyn ManyFunctions = &quiet;
    assert_eq!(erased.a(), "a");

    let table =
        VTable::<5>::for_value(&loud, destructor_of::<Loud>(), loud_slots.map(|f| f as usize));
    let report = table.describe();
    for (i, record) in report.functions.iter().enumerate() {
        assert_eq!(record.ptr, table.functions[i]);
        if let Some(name) = record.symbol.as_ref().and_then(|symbol| symbol.name.as_ref()) {
            assert_eq!(name.contains("Loud"), i == 2, "{}", name);
        }
    }
}

#[test]
fn size_and_alignment_are_the_same_through_every_interface() {
    let v = Test(1, 2);
    let slots: [fn(&Test) -> &str; 5] = [
        <Test as ManyFunctions>::c,
        <Test as ManyFunctions>::e,
        <Test as ManyFunctions>::a,
        <Test as ManyFunctions>::b,
        <Test as ManyFunctions>::d,
    ];
    let marker: &dyn Dyn = &v;
    let bare = VTable::<0>::for_value(marker, destructor_of::<Test>(), []);
    let erased: &dyn ManyFunctions = &v;
    let rich = VTable::<5>::for_value(erased, destructor_of::<Test>(), slots.map(|f| f as usize));
    let known = VTable::<0>::for_value(&v, destructor_of::<Test>(), []);
    assert_eq!((bare.size, bare.align), (rich.size, rich.align));
    assert_eq!((bare.size, bare.align), (known.size, known.align));
    assert_eq!((bare.size, bare.align), (4, 2));
    assert_eq!(bare.drop_in_place, rich.drop_in_place);
}

#[test]
fn a_table_keeps_the_addresses_it_is_given() {
    let table = VTable::<3>::for_value(&7u64, 0x10, [0x30, 0x20, 0x25]);
    assert_eq!(table.drop_in_place, 0x10);
    assert_eq!(table.size, 8);
    assert_eq!(table.align, std::mem::align_of::<u64>());
    assert_eq!(table.functions, [0x30, 0x20, 0x25]);
    let unsized_value: &[u16] = &[1, 2, 3];
    let table = VTable::<0>::for_value(unsized_value, 0, []);
    assert_eq!((table.size, table.align), (6, 2));
}

#[test]
fn a_table_tells_whether_it_has_the_layout_of_a_type() {
    let table = VTable::<0> { drop_in_place: 0, size: 4, align: 4, functions: [] };
    assert!(table.has_layout_of::<u32>());
    assert!(table.has_layout_of::<i32>());
    assert!(!table.has_layout_of::<u64>());
    assert!(!table.has_layout_of::<[u8; 4]>());
    assert!(!table.has_layout_of::<[u32; 2]>());
    let table = VTable::<0> { drop_in_place: 0, size: 0, align: 1, functions: [] };
    assert!(table.has_layout_of::<()>());
    assert!(!table.has_layout_of::<u8>());
}
