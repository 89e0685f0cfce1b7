//! The link step of a freestanding skeleton.
//!
//! A freestanding image links only if the loader can find its entry point
//! under the platform's fixed start symbol, exactly one fault handler is
//! registered, and the image references no symbol of the standard startup
//! runtime that the build excludes. The linker model here checks those three
//! conditions and reports the first one that fails.

use crate::lifecycle::State;
use vstd::prelude::*;

verus! {

/// A program image as it is handed to the linker: the facts the link-time
/// contracts are about, before any of them has been checked.
pub struct Image {
    /// The symbol under which the entry point is exported, unmangled.
    pub entry_symbol: Vec<u8>,
    /// How many fault handlers this build registers with the runtime.
    pub fault_handlers: usize,
    /// The symbols the image references and expects the environment to
    /// provide at load time.
    pub referenced: Vec<Vec<u8>>,
}

/// What the target platform's loader and linker expect of an image.
pub struct Platform {
    /// The default start symbol: the one name the loader invokes directly.
    pub start_symbol: Vec<u8>,
    /// Symbols of the standard startup runtime that a freestanding build
    /// must not reference, since nothing will provide them.
    pub runtime_symbols: Vec<Vec<u8>>,
}

/// Why an image failed to link, one variant per link-time contract.
#[derive(Clone, Copy, Debug, PartialEq, Eq, Structural)]
pub enum LinkError {
    /// The entry point is not exported under the platform's start symbol.
    EntrySymbolMismatch,
    /// No fault handler is registered; the runtime has no fault path.
    MissingFaultHandler,
    /// More than one fault handler is registered; the registrations
    /// conflict.
    DuplicateFaultHandler,
    /// The image references a symbol of the excluded startup runtime.
    RuntimeSymbolReferenced,
}

/// `s` occurs among the symbols `syms`, byte for byte.
pub open spec fn has_symbol(syms: Seq<Vec<u8>>, s: Seq<u8>) -> bool {
    exists|i: int| 0 <= i < syms.len() && syms[i]@ == s
}

/// The image references no symbol of the platform's excluded runtime.
pub open spec fn runtime_free(im: &Image, pl: &Platform) -> bool {
    forall|i: int|
        0 <= i < im.referenced@.len() ==> !has_symbol(
            pl.runtime_symbols@,
            im.referenced@[i]@,
        )
}

/// All three link-time contracts at once: this is exactly when `link`
/// succeeds.
pub open spec fn link_ok(im: &Image, pl: &Platform) -> bool {
    &&& im.entry_symbol@ == pl.start_symbol@
    &&& im.fault_handlers == 1
    &&& runtime_free(im, pl)
}

/// The error `link` reports for an image that does not satisfy `link_ok`,
/// in the order the checks run: entry symbol first, then the handler
/// registrations, then the referenced symbols.
pub open spec fn link_err(im: &Image, pl: &Platform) -> LinkError {
    if im.entry_symbol@ != pl.start_symbol@ {
        LinkError::EntrySymbolMismatch
    } else if im.fault_handlers == 0 {
        LinkError::MissingFaultHandler
    } else if im.fault_handlers > 1 {
        LinkError::DuplicateFaultHandler
    } else {
        LinkError::RuntimeSymbolReferenced
    }
}

/// An image that passed every link-time check. A value of this type exists
/// only as the result of a successful `link`.
pub struct LinkedProgram {
    /// The symbol the entry point is exported under; `link` guarantees it
    /// equals the platform's start symbol.
    pub entry_symbol: Vec<u8>,
}

impl LinkedProgram {
    /// A freshly linked program has not been entered yet: execution begins
    /// in the Unstarted state, before the loader invokes the entry point.
    pub fn initial_state(&self) -> (s: State)
        ensures
            s == State::Unstarted,
    {
        State::Unstarted
    }
}

/// Byte-for-byte equality of two symbol names.
pub fn symbols_equal(a: &Vec<u8>, b: &Vec<u8>) -> (r: bool)
    ensures
        r == (a@ == b@),
{
    if a.len() != b.len() {
        return false;
    }
    let mut i: usize = 0;
    while i < a.len()
        invariant
            a@.len() == b@.len(),
            0 <= i <= a@.len(),
            forall|j: int| 0 <= j < i ==> a@[j] == b@[j],
        decreases a@.len() - i,
    {
        if a[i] != b[i] {
            return false;
        }
        i = i + 1;
    }
    proof {
        assert(a@ =~= b@);
    }
    true
}

/// Whether the symbol `s` occurs in the list `syms`.
pub fn contains_symbol(syms: &Vec<Vec<u8>>, s: &Vec<u8>) -> (r: bool)
    ensures
        r == has_symbol(syms@, s@),
{
    let mut i: usize = 0;
    while i < syms.len()
        invariant
            0 <= i <= syms@.len(),
            forall|j: int| 0 <= j < i ==> syms@[j]@ != s@,
        decreases syms@.len() - i,
    {
        if symbols_equal(&syms[i], s) {
            return true;
        }
        i = i + 1;
    }
    false
}

/// Whether the image references any symbol of the excluded runtime.
fn references_runtime(im: &Image, pl: &Platform) -> (r: bool)
    ensures
        r == !runtime_free(im, pl),
{
    let mut i: usize = 0;
    while i < im.referenced.len()
        invariant
            0 <= i <= im.referenced@.len(),
            forall|j: int|
                0 <= j < i ==> !has_symbol(pl.runtime_symbols@, im.referenced@[j]@),
        decreases im.referenced@.len() - i,
    {
        if contains_symbol(&pl.runtime_symbols, &im.referenced[i]) {
            return true;
        }
        i = i + 1;
    }
    false
}

/// The link step. It succeeds exactly when all three link-time contracts
/// hold of the image, and otherwise reports the first check that failed.
pub fn link(im: Image, pl: &Platform) -> (r: Result<LinkedProgram, LinkError>)
    ensures
        r is Ok <==> link_ok(&im, pl),
        r matches Ok(p) ==> p.entry_symbol@ == pl.start_symbol@,
        r matches Err(e) ==> e == link_err(&im, pl),
{
    if !symbols_equal(&im.entry_symbol, &pl.start_symbol) {
        return Err(LinkError::EntrySymbolMismatch);
    }
    if im.fault_handlers == 0 {
        return Err(LinkError::MissingFaultHandler);
    }
    if im.fault_handlers > 1 {
        return Err(LinkError::DuplicateFaultHandler);
    }
    if references_runtime(&im, pl) {
        return Err(LinkError::RuntimeSymbolReferenced);
    }
    Ok(LinkedProgram { entry_symbol: im.entry_symbol })
}

/// Single registration: an image that registers no fault handler, or more
/// than one, never links. Exactly one handler is registered per linked
/// program.
pub proof fn lemma_single_registration(im: &Image, pl: &Platform)
    requires
        im.fault_handlers != 1,
    ensures
        !link_ok(im, pl),
{
}

/// Symbol name: a linked image exports its entry point under exactly the
/// platform's start symbol, so the loader finds it without any renaming.
pub proof fn lemma_symbol_name(im: &Image, pl: &Platform)
    requires
        link_ok(im, pl),
    ensures
        im.entry_symbol@ == pl.start_symbol@,
{
}

/// No implicit runtime: a linked image references none of the startup
/// runtime symbols the platform excludes, whichever reference is inspected.
pub proof fn lemma_no_runtime(im: &Image, pl: &Platform, i: int)
    requires
        link_ok(im, pl),
        0 <= i < im.referenced@.len(),
    ensures
        !has_symbol(pl.runtime_symbols@, im.referenced@[i]@),
{
}

} // verus!
