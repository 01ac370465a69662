//! The dispatch table that a type-erased reference carries beside its data
//! pointer, as plain values.

use crate::report::{FunctionPtr, Style, VTableReport};
use crate::symbol::lookup_address;
use vstd::layout::{align_of, size_of, spec_align_of_val, spec_size_of_val};
use vstd::prelude::*;

verus! {

/// The interface without methods. Every type has it, so every value can be
/// seen through it, and the table behind that view holds the destructor, the
/// size and the alignment and nothing else.
pub trait Dyn {}

impl<T: ?Sized> Dyn for T {}

/// The dispatch table of one pairing of a type and an interface with `N`
/// methods. Code addresses are held as numbers: this type describes a table,
/// it cannot be used to call anything.
///
/// `functions` holds one address per method, in the order in which the
/// interface declares them. `N` is the caller's statement of how many
/// methods there are; nothing in a table says so.
#[derive(Clone, Copy)]
pub struct VTable<const N: usize> {
    /// The address of the code that destructs a value in place.
    pub drop_in_place: usize,
    /// The size of the type in bytes.
    pub size: usize,
    /// The alignment of the type in bytes.
    pub align: usize,
    /// The addresses of the methods, in declaration order.
    pub functions: [usize; N],
}

impl<const N: usize> VTable<N> {
    /// The table of `value` as far as it can be had without reinterpreting
    /// memory: size and alignment are the ones that the host reports for
    /// `value` (for a type-erased `value` it reads them from the table), the
    /// code addresses are the caller's.
    pub fn for_value<V: ?Sized>(
        value: &V,
        drop_in_place: usize,
        functions: [usize; N],
    ) -> (table: Self)
        ensures
            table.drop_in_place == drop_in_place,
            table.size as nat == spec_size_of_val::<V>(value),
            table.align as nat == spec_align_of_val::<V>(value),
            table.functions == functions,
    {
        VTable {
            drop_in_place,
            size: core::mem::size_of_val(value),
            align: core::mem::align_of_val(value),
            functions,
        }
    }

    /// Whether the size and the alignment in this table are those of `T`. A
    /// table that was read for a value of type `T` and fails this was read
    /// wrongly.
    pub fn has_layout_of<T>(&self) -> (ok: bool)
        ensures
            ok == (self.size as nat == size_of::<T>() && self.align as nat == align_of::<T>()),
    {
        self.size == core::mem::size_of::<T>() && self.align == core::mem::align_of::<T>()
    }

    /// Whether `record` is a record of the code pointer `ptr`: it holds the
    /// address, and it holds no symbol where there is no address to look up.
    pub open spec fn records(ptr: usize, record: FunctionPtr) -> bool {
        &&& record.ptr == ptr
        &&& lookup_address(ptr) is None ==> record.symbol is None
    }

    /// Whether `report` is a record of this table: the same size and
    /// alignment, and a record for the destructor and for every slot, in the
    /// order of the slots.
    pub open spec fn described_by(&self, report: VTableReport) -> bool {
        &&& Self::records(self.drop_in_place, report.drop_in_place)
        &&& report.size == self.size
        &&& report.align == self.align
        &&& report.functions@.len() == N
        &&& forall|i: int|
            0 <= i < N ==> Self::records(self.functions@[i], #[trigger] report.functions@[i])
    }

    /// Resolves the destructor and every slot, and puts the records together.
    /// Which symbols are found is up to the resolver; the addresses, their
    /// order, the size and the alignment are those of the table.
    pub fn describe(&self) -> (report: VTableReport)
        ensures
            self.described_by(report),
    {
        let drop_in_place = FunctionPtr::resolve(self.drop_in_place);
        let mut functions: Vec<FunctionPtr> = Vec::new();
        let mut i: usize = 0;
        while i < N
            invariant
                i <= N,
                functions@.len() == i,
                forall|j: int|
                    0 <= j < i ==> Self::records(self.functions@[j], #[trigger] functions@[j]),
            decreases N - i,
        {
            functions.push(FunctionPtr::resolve(self.functions[i]));
            i = i + 1;
        }
        VTableReport { drop_in_place, size: self.size, align: self.align, functions }
    }

    /// The text of the table's record in the given style: [`VTable::describe`],
    /// then [`VTableReport::render`].
    pub fn render(&self, style: Style) -> (text: String)
        ensures
            exists|report: VTableReport|
                self.described_by(report) && text@ == #[trigger] report.text(style),
    {
        self.describe().render(style)
    }
}

} // verus!
