//! The diagnostic record of a dispatch table, and its text.
//!
//! A record has two texts. The compact one stands on one line:
//!
//! ```text
//! VTable { drop_in_place: FunctionPtr { ptr: 0x55d0, name: drop }, size: 4, align: 2, functions: [FunctionPtr { ptr: 0x5600 }] }
//! ```
//!
//! The pretty one gives every field a line of its own, indented by four
//! blanks for each level, and ends every field with a comma:
//!
//! ```text
//! VTable {
//!     drop_in_place: FunctionPtr {
//!         ptr: 0x55d0,
//!         name: drop,
//!     },
//!     size: 4,
//!     align: 2,
//!     functions: [
//!         FunctionPtr {
//!             ptr: 0x5600,
//!         },
//!     ],
//! }
//! ```
//!
//! Producing either only reads the record. No slot is ever called: a slot is
//! a number here.

use crate::symbol::{lookup_address, resolve_symbol, SymbolInfo};
use crate::text::{
    address_text, decimal_text, indent, lemma_indent_step, push_address, push_decimal,
    push_indent, push_quoted, quoted_text,
};
use vstd::prelude::*;

verus! {

/// A code pointer and what the resolver found for it.
#[derive(Clone, Debug, PartialEq, Eq)]
pub struct FunctionPtr {
    /// The address that the slot holds.
    pub ptr: usize,
    /// The symbol that the address lies in; `None` where the resolver found
    /// nothing.
    pub symbol: Option<SymbolInfo>,
}

/// The record of a whole table: its destructor, the size and alignment of the
/// type behind it, and its method slots in the order of the table.
#[derive(Clone, Debug, PartialEq, Eq)]
pub struct VTableReport {
    pub drop_in_place: FunctionPtr,
    pub size: usize,
    pub align: usize,
    pub functions: Vec<FunctionPtr>,
}

/// The two ways to lay a record out as text.
#[derive(Clone, Copy, Debug, PartialEq, Eq)]
pub enum Style {
    /// Everything on one line.
    Compact,
    /// One field per line.
    Pretty,
}

impl Style {
    /// What stands between the name of a record and its first field. `level`
    /// is the depth of the line that the record's closing brace stands on;
    /// the fields stand one level deeper.
    pub open spec fn struct_open(self, level: nat) -> Seq<char> {
        match self {
            Style::Compact => " { "@,
            Style::Pretty => " {\n"@ + indent(level + 1),
        }
    }

    /// What stands in front of the first item of a list that is not empty.
    pub open spec fn list_open(self, level: nat) -> Seq<char> {
        match self {
            Style::Compact => "["@,
            Style::Pretty => "[\n"@ + indent(level + 1),
        }
    }

    /// What stands between two fields of a record, or two items of a list.
    pub open spec fn between(self, level: nat) -> Seq<char> {
        match self {
            Style::Compact => ", "@,
            Style::Pretty => ",\n"@ + indent(level + 1),
        }
    }

    /// What stands behind the last field of a record.
    pub open spec fn struct_close(self, level: nat) -> Seq<char> {
        match self {
            Style::Compact => " }"@,
            Style::Pretty => ",\n"@ + indent(level) + "}"@,
        }
    }

    /// What stands behind the last item of a list that is not empty.
    pub open spec fn list_close(self, level: nat) -> Seq<char> {
        match self {
            Style::Compact => "]"@,
            Style::Pretty => ",\n"@ + indent(level) + "]"@,
        }
    }

    /// Appends `compact` in the compact style; in the pretty style `pretty`
    /// and the indentation of a line one level below `level`.
    fn push_break(self, out: &mut String, compact: &str, pretty: &str, level: usize)
        ensures
            final(out)@ == old(out)@ + (match self {
                Style::Compact => compact@,
                Style::Pretty => pretty@ + indent(level as nat + 1),
            }),
    {
        match self {
            Style::Compact => {
                out.append(compact);
            },
            Style::Pretty => {
                out.append(pretty);
                push_indent(out, level);
                out.append("    ");
                proof {
                    reveal_strlit("    ");
                    lemma_indent_step(level as nat);
                    assert("    "@ =~= seq![' ', ' ', ' ', ' ']);
                    assert(out@ =~= old(out)@ + (pretty@ + indent(level as nat + 1)));
                }
            },
        }
    }

    /// Appends [`Style::struct_open`] to `out`.
    pub fn push_struct_open(self, out: &mut String, level: usize)
        ensures
            final(out)@ == old(out)@ + self.struct_open(level as nat),
    {
        self.push_break(out, " { ", " {\n", level);
    }

    /// Appends [`Style::list_open`] to `out`.
    pub fn push_list_open(self, out: &mut String, level: usize)
        ensures
            final(out)@ == old(out)@ + self.list_open(level as nat),
    {
        self.push_break(out, "[", "[\n", level);
    }

    /// Appends [`Style::between`] to `out`.
    pub fn push_between(self, out: &mut String, level: usize)
        ensures
            final(out)@ == old(out)@ + self.between(level as nat),
    {
        self.push_break(out, ", ", ",\n", level);
    }

    /// Appends `compact` in the compact style; in the pretty style a comma,
    /// a line break, the indentation of `level` and `bracket`.
    fn push_end(self, out: &mut String, compact: &str, bracket: &str, level: usize)
        ensures
            final(out)@ == old(out)@ + (match self {
                Style::Compact => compact@,
                Style::Pretty => ",\n"@ + indent(level as nat) + bracket@,
            }),
    {
        match self {
            Style::Compact => {
                out.append(compact);
            },
            Style::Pretty => {
                out.append(",\n");
                push_indent(out, level);
                out.append(bracket);
                assert(out@ =~= old(out)@ + (",\n"@ + indent(level as nat) + bracket@));
            },
        }
    }

    /// Appends [`Style::struct_close`] to `out`.
    pub fn push_struct_close(self, out: &mut String, level: usize)
        ensures
            final(out)@ == old(out)@ + self.struct_close(level as nat),
    {
        self.push_end(out, " }", "}", level);
    }

    /// Appends [`Style::list_close`] to `out`.
    pub fn push_list_close(self, out: &mut String, level: usize)
        ensures
            final(out)@ == old(out)@ + self.list_close(level as nat),
    {
        self.push_end(out, "]", "]", level);
    }
}

/// The text of an address field that may be missing: what leads it in and
/// the address, or nothing.
pub open spec fn address_field(lead: Seq<char>, value: Option<usize>) -> Seq<char> {
    match value {
        Some(addr) => lead + address_text(addr as nat),
        None => Seq::empty(),
    }
}

/// The text of a number field that may be missing.
pub open spec fn number_field(lead: Seq<char>, value: Option<u32>) -> Seq<char> {
    match value {
        Some(n) => lead + decimal_text(n as nat),
        None => Seq::empty(),
    }
}

/// The text of a name field that may be missing. The name stands as it is.
pub open spec fn name_field(lead: Seq<char>, value: Option<String>) -> Seq<char> {
    match value {
        Some(name) => lead + name@,
        None => Seq::empty(),
    }
}

/// The text of a path field that may be missing. The path stands in quotes.
pub open spec fn path_field(lead: Seq<char>, value: Option<String>) -> Seq<char> {
    match value {
        Some(path) => lead + quoted_text(path@),
        None => Seq::empty(),
    }
}

/// Appends [`address_field`] to `out`, led in by `sep` and `label`.
pub fn push_address_field(out: &mut String, sep: &str, label: &str, value: Option<usize>)
    ensures
        final(out)@ == old(out)@ + address_field(sep@ + label@, value),
{
    match value {
        Some(addr) => {
            out.append(sep);
            out.append(label);
            push_address(out, addr as u64);
        },
        None => {},
    }
    assert(out@ =~= old(out)@ + address_field(sep@ + label@, value));
}

/// Appends [`number_field`] to `out`, led in by `sep` and `label`.
pub fn push_number_field(out: &mut String, sep: &str, label: &str, value: Option<u32>)
    ensures
        final(out)@ == old(out)@ + number_field(sep@ + label@, value),
{
    match value {
        Some(n) => {
            out.append(sep);
            out.append(label);
            push_decimal(out, n as u64);
        },
        None => {},
    }
    assert(out@ =~= old(out)@ + number_field(sep@ + label@, value));
}

/// Appends [`name_field`] to `out`, led in by `sep` and `label`.
pub fn push_name_field(out: &mut String, sep: &str, label: &str, value: &Option<String>)
    ensures
        final(out)@ == old(out)@ + name_field(sep@ + label@, *value),
{
    match value {
        Some(name) => {
            out.append(sep);
            out.append(label);
            out.append(name.as_str());
        },
        None => {},
    }
    assert(out@ =~= old(out)@ + name_field(sep@ + label@, *value));
}

/// Appends [`path_field`] to `out`, led in by `sep` and `label`.
pub fn push_path_field(out: &mut String, sep: &str, label: &str, value: &Option<String>)
    ensures
        final(out)@ == old(out)@ + path_field(sep@ + label@, *value),
{
    match value {
        Some(path) => {
            out.append(sep);
            out.append(label);
            push_quoted(out, path.as_str());
        },
        None => {},
    }
    assert(out@ =~= old(out)@ + path_field(sep@ + label@, *value));
}

impl SymbolInfo {
    /// The fields that a symbol adds to the record of a code pointer, each
    /// one only if the resolver gave it, in this order. Every field is led in
    /// by `sep`, which separates it from the field before.
    pub open spec fn text(&self, sep: Seq<char>) -> Seq<char> {
        address_field(sep + "relative_addr: "@, self.relative_addr)
            + name_field(sep + "name: "@, self.name)
            + path_field(sep + "filename: "@, self.filename)
            + number_field(sep + "lineno: "@, self.lineno)
            + number_field(sep + "colno: "@, self.colno)
    }

    /// Appends [`SymbolInfo::text`] to `out`.
    pub fn push_text(&self, out: &mut String, sep: &str)
        ensures
            final(out)@ == old(out)@ + self.text(sep@),
    {
        push_address_field(out, sep, "relative_addr: ", self.relative_addr);
        push_name_field(out, sep, "name: ", &self.name);
        push_path_field(out, sep, "filename: ", &self.filename);
        push_number_field(out, sep, "lineno: ", self.lineno);
        push_number_field(out, sep, "colno: ", self.colno);
        assert(out@ =~= old(out)@ + self.text(sep@));
    }
}

impl FunctionPtr {
    /// The record of a code pointer as text: its address, then the fields of
    /// its symbol. Without a symbol the address is all there is. `level` is
    /// the depth of the line that the closing brace stands on.
    pub open spec fn text(&self, style: Style, level: nat) -> Seq<char> {
        let symbol_text = match self.symbol {
            Some(symbol) => symbol.text(style.between(level)),
            None => Seq::empty(),
        };
        "FunctionPtr"@ + style.struct_open(level) + "ptr: "@ + address_text(self.ptr as nat)
            + symbol_text + style.struct_close(level)
    }

    /// The record of the code pointer `ptr`, with the symbol that the
    /// resolver finds for it. The address is kept whatever the resolver says.
    pub fn resolve(ptr: usize) -> (record: FunctionPtr)
        ensures
            record.ptr == ptr,
            lookup_address(ptr) is None ==> record.symbol is None,
    {
        FunctionPtr { ptr, symbol: resolve_symbol(ptr) }
    }

    /// Appends [`FunctionPtr::text`] to `out`.
    pub fn push_text(&self, out: &mut String, style: Style, level: usize)
        ensures
            final(out)@ == old(out)@ + self.text(style, level as nat),
    {
        out.append("FunctionPtr");
        style.push_struct_open(out, level);
        out.append("ptr: ");
        push_address(out, self.ptr as u64);
        match &self.symbol {
            Some(symbol) => {
                let mut sep = String::new();
                style.push_between(&mut sep, level);
                assert(sep@ =~= style.between(level as nat));
                symbol.push_text(out, sep.as_str());
            },
            None => {},
        }
        style.push_struct_close(out, level);
        assert(out@ =~= old(out)@ + self.text(style, level as nat));
    }

    /// The record as text, in the given style.
    pub fn render(&self, style: Style) -> (text: String)
        ensures
            text@ == self.text(style, 0),
    {
        let mut text = String::new();
        self.push_text(&mut text, style, 0);
        text
    }
}

/// The records of `items`, each one at depth `level + 1`, separated as the
/// style separates the items of a list at depth `level`. `items` is not
/// empty.
pub open spec fn items_text(items: Seq<FunctionPtr>, style: Style, level: nat) -> Seq<char>
    recommends
        items.len() > 0,
    decreases items.len(),
{
    if items.len() <= 1 {
        items[0].text(style, level + 1)
    } else {
        items_text(items.drop_last(), style, level) + style.between(level)
            + items.last().text(style, level + 1)
    }
}

/// A list of records as text. The empty list is a pair of brackets in either
/// style.
pub open spec fn list_text(items: Seq<FunctionPtr>, style: Style, level: nat) -> Seq<char> {
    if items.len() == 0 {
        "[]"@
    } else {
        style.list_open(level) + items_text(items, style, level) + style.list_close(level)
    }
}

/// Appends [`list_text`] to `out`.
fn push_list_text(out: &mut String, items: &Vec<FunctionPtr>, style: Style, level: usize)
    requires
        level < usize::MAX,
    ensures
        final(out)@ == old(out)@ + list_text(items@, style, level as nat),
{
    if items.len() == 0 {
        out.append("[]");
        return ;
    }
    style.push_list_open(out, level);
    items[0].push_text(out, style, level + 1);
    let ghost start = old(out)@ + style.list_open(level as nat);
    assert(items@.take(1).len() == 1);
    assert(items@.take(1)[0] == items@[0]);
    assert(out@ =~= start + items_text(items@.take(1), style, level as nat));
    let mut i: usize = 1;
    while i < items.len()
        invariant
            1 <= i <= items.len(),
            level < usize::MAX,
            out@ == start + items_text(items@.take(i as int), style, level as nat),
        decreases items.len() - i,
    {
        style.push_between(out, level);
        items[i].push_text(out, style, level + 1);
        assert(items@.take(i + 1).drop_last() =~= items@.take(i as int));
        assert(items@.take(i + 1).last() == items@[i as int]);
        assert(out@ =~= start + items_text(items@.take(i + 1), style, level as nat));
        i = i + 1;
    }
    assert(items@.take(i as int) =~= items@);
    style.push_list_close(out, level);
    assert(out@ =~= old(out)@ + list_text(items@, style, level as nat));
}

impl VTableReport {
    /// What stands in front of the list of slots: the destructor, the size
    /// and the alignment, each with its name.
    pub open spec fn head_text(&self, style: Style) -> Seq<char> {
        "VTable"@ + style.struct_open(0) + "drop_in_place: "@ + self.drop_in_place.text(style, 1)
            + style.between(0) + "size: "@ + decimal_text(self.size as nat) + style.between(0)
            + "align: "@ + decimal_text(self.align as nat) + style.between(0)
    }

    /// The record of a table as text.
    pub open spec fn text(&self, style: Style) -> Seq<char> {
        self.head_text(style) + "functions: "@ + list_text(self.functions@, style, 1)
            + style.struct_close(0)
    }

    /// Appends [`VTableReport::head_text`] to `out`.
    fn push_head_text(&self, out: &mut String, style: Style)
        ensures
            final(out)@ == old(out)@ + self.head_text(style),
    {
        out.append("VTable");
        style.push_struct_open(out, 0);
        out.append("drop_in_place: ");
        self.drop_in_place.push_text(out, style, 1);
        style.push_between(out, 0);
        out.append("size: ");
        push_decimal(out, self.size as u64);
        style.push_between(out, 0);
        out.append("align: ");
        push_decimal(out, self.align as u64);
        style.push_between(out, 0);
        assert(out@ =~= old(out)@ + self.head_text(style));
    }

    /// Appends [`VTableReport::text`] to `out`.
    pub fn push_text(&self, out: &mut String, style: Style)
        ensures
            final(out)@ == old(out)@ + self.text(style),
    {
        self.push_head_text(out, style);
        out.append("functions: ");
        push_list_text(out, &self.functions, style, 1);
        style.push_struct_close(out, 0);
        assert(out@ =~= old(out)@ + self.text(style));
    }

    /// The record as text, in the given style.
    pub fn render(&self, style: Style) -> (text: String)
        ensures
            text@ == self.text(style),
    {
        let mut text = String::new();
        self.push_text(&mut text, style);
        text
    }
}

/// A code pointer that the resolver found nothing for is rendered all the
/// same, with its address alone.
pub proof fn lemma_unresolved_renders_address_only(record: FunctionPtr, style: Style, level: nat)
    requires
        record.symbol is None,
    ensures
        record.text(style, level) == "FunctionPtr"@ + style.struct_open(level) + "ptr: "@
            + address_text(record.ptr as nat) + style.struct_close(level),
{
    assert(record.text(style, level) =~= "FunctionPtr"@ + style.struct_open(level) + "ptr: "@
        + address_text(record.ptr as nat) + style.struct_close(level));
}

/// A symbol of which the resolver knows nothing adds nothing to the text: a
/// field appears only if the resolver gave it.
pub proof fn lemma_empty_symbol_adds_nothing(symbol: SymbolInfo, sep: Seq<char>)
    requires
        symbol.relative_addr is None,
        symbol.name is None,
        symbol.filename is None,
        symbol.lineno is None,
        symbol.colno is None,
    ensures
        symbol.text(sep) == Seq::<char>::empty(),
{
    assert(symbol.text(sep) =~= Seq::<char>::empty());
}

/// The text of a list grows at its end: the record of a further slot comes
/// after those of the slots before it, so the text keeps the order of the
/// table.
pub proof fn lemma_items_text_push(
    items: Seq<FunctionPtr>,
    next: FunctionPtr,
    style: Style,
    level: nat,
)
    requires
        items.len() > 0,
    ensures
        items_text(items.push(next), style, level) == items_text(items, style, level)
            + style.between(level) + next.text(style, level + 1),
{
    assert(items.push(next).drop_last() =~= items);
}

} // verus!
