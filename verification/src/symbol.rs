//! Looking a code address up in the symbol tables of the running program.

use std::fmt::Write;
use vstd::prelude::*;

verus! {

/// The resolver's own record of one candidate. Nothing in it is visible to
/// the verifier; the accessors below read it out into plain values.
#[verifier::external_type_specification]
#[verifier::external_body]
pub struct ExSymbol(backtrace::Symbol);

/// What the resolver knows of the function that an address lies in. Every
/// part is optional: a stripped binary has names but no source positions.
#[derive(Clone, Debug, PartialEq, Eq)]
pub struct SymbolInfo {
    /// Where the function starts.
    pub relative_addr: Option<usize>,
    /// The function's name, demangled.
    pub name: Option<String>,
    /// The source file that the address was compiled from.
    pub filename: Option<String>,
    /// The line in that file.
    pub lineno: Option<u32>,
    /// The column in that line.
    pub colno: Option<u32>,
}

/// The address that is looked up for a code pointer: one byte further. The
/// resolver steps one byte back before it searches, as is right for a return
/// address; a pointer to the first instruction of a function would then be
/// taken for the end of the function before it. The last address of all has
/// no successor and is not looked up.
pub open spec fn lookup_address(ptr: usize) -> Option<usize> {
    if ptr < usize::MAX {
        Some((ptr + 1) as usize)
    } else {
        None
    }
}

/// Computes [`lookup_address`].
pub fn lookup_address_of(ptr: usize) -> (addr: Option<usize>)
    ensures
        addr == lookup_address(ptr),
{
    ptr.checked_add(1)
}

/// `backtrace::Symbol::addr`: the start of the function, if the resolver has
/// it, as a number. Nothing is claimed of the value.
#[verifier::external_body]
fn symbol_addr(symbol: &backtrace::Symbol) -> (addr: Option<usize>) {
    symbol.addr().map(|start| start.addr())
}

/// `backtrace::Symbol::name`: the name of the function, if the resolver has
/// it, in the demangled form that the name displays as. Nothing is claimed
/// of the text. A name that fails to display is cut off where it failed.
#[verifier::external_body]
fn symbol_name(symbol: &backtrace::Symbol) -> (name: Option<String>) {
    symbol.name().map(|name| {
        let mut text = String::new();
        let _ = write!(text, "{}", name);
        text
    })
}

/// `backtrace::Symbol::filename`: the path of the source file, if the
/// resolver has it, as text; what is not Unicode in it is replaced. Nothing
/// is claimed of the text.
#[verifier::external_body]
fn symbol_filename(symbol: &backtrace::Symbol) -> (filename: Option<String>) {
    symbol.filename().map(|path| path.to_string_lossy().into_owned())
}

/// `backtrace::Symbol::lineno`: the source line, if the resolver has it.
/// Nothing is claimed of the number.
pub assume_specification[ backtrace::Symbol::lineno ](
    symbol: &backtrace::Symbol,
) -> (lineno: Option<u32>)
;

/// `backtrace::Symbol::colno`: the source column, if the resolver has it.
/// Nothing is claimed of the number.
pub assume_specification[ backtrace::Symbol::colno ](
    symbol: &backtrace::Symbol,
) -> (colno: Option<u32>)
;

/// Reads a candidate out into plain values.
fn read_symbol(symbol: &backtrace::Symbol) -> SymbolInfo {
    SymbolInfo {
        relative_addr: symbol_addr(symbol),
        name: symbol_name(symbol),
        filename: symbol_filename(symbol),
        lineno: symbol.lineno(),
        colno: symbol.colno(),
    }
}

/// What is kept when `candidate` comes in and `first` was kept so far: the
/// candidate only if nothing was.
pub open spec fn kept(first: Option<SymbolInfo>, candidate: SymbolInfo) -> Option<SymbolInfo> {
    if first is Some {
        first
    } else {
        Some(candidate)
    }
}

/// What is kept of a run of candidates that come in one after the other.
pub open spec fn kept_of(candidates: Seq<SymbolInfo>) -> Option<SymbolInfo>
    decreases candidates.len(),
{
    if candidates.len() == 0 {
        None
    } else {
        kept(kept_of(candidates.drop_last()), candidates.last())
    }
}

/// Of the candidates that the resolver yields for one address only the first
/// is kept, however many follow; of none, nothing.
pub proof fn lemma_first_candidate_is_kept(candidates: Seq<SymbolInfo>)
    ensures
        kept_of(candidates) == if candidates.len() > 0 {
            Some(candidates[0])
        } else {
            None
        },
    decreases candidates.len(),
{
    if candidates.len() > 1 {
        lemma_first_candidate_is_kept(candidates.drop_last());
    } else if candidates.len() == 1 {
        assert(kept_of(candidates.drop_last()) is None);
    }
}

/// Keeps `candidate` if nothing was kept before.
pub fn keep_first(first: &mut Option<SymbolInfo>, candidate: SymbolInfo)
    ensures
        *final(first) == kept(*old(first), candidate),
{
    if first.is_none() {
        *first = Some(candidate);
    }
}

/// Takes note of one candidate that the resolver yields. Once `first` is
/// filled, later candidates are not even read.
fn note_candidate(first: &mut Option<SymbolInfo>, symbol: &backtrace::Symbol)
    ensures
        *old(first) is Some ==> *final(first) == *old(first),
        *old(first) is None ==> *final(first) is Some,
{
    if first.is_none() {
        keep_first(first, read_symbol(symbol));
    }
}

/// `backtrace::resolve`: looks `addr` up and hands every candidate it finds
/// to [`note_candidate`], in the order in which they are found. What comes
/// back depends on the running program and its debug information, so nothing
/// is claimed of it: no candidate at all is an ordinary outcome.
#[verifier::external_body]
fn resolve_first(addr: usize) -> (first: Option<SymbolInfo>) {
    let mut first: Option<SymbolInfo> = None;
    backtrace::resolve(std::ptr::without_provenance_mut(addr), |symbol| {
        note_candidate(&mut first, symbol)
    });
    first
}

/// Looks the code pointer `ptr` up. The result is the first candidate that
/// the resolver finds for [`lookup_address`] of `ptr`, if it finds any.
pub fn resolve_symbol(ptr: usize) -> (symbol: Option<SymbolInfo>)
    ensures
        lookup_address(ptr) is None ==> symbol is None,
{
    match lookup_address_of(ptr) {
        Some(addr) => resolve_first(addr),
        None => None,
    }
}

} // verus!
