//! The per-declaration entry dispatcher.
//!
//! Receives one declaration-shaped item at a time from the host toolchain
//! and routes it: function declarations go to the signature builder, data
//! structure declarations are accepted as a no-op, and any other item kind
//! is rejected with a diagnostic carrying its source location. Failure is
//! strictly local to the one offending item.
use crate::builder::{build, spec_build};
use crate::expr::{Item, UnsupportedItemKind};
use vstd::prelude::*;

verus! {

/// Dispatches one item. A function declaration has its signature line
/// appended to `sink`; a data-structure declaration succeeds with no text
/// emitted; any other item kind fails with `UnsupportedItemKind` carrying
/// the item's source location. The sink is only ever appended to.
pub fn dispatch(item: &Item, sink: &mut Vec<String>) -> (r: Result<(), UnsupportedItemKind>)
    ensures
        *item is Function ==> {
            &&& r is Ok
            &&& final(sink)@.len() == old(sink)@.len() + 1
            &&& final(sink)@[old(sink)@.len() as int]@ == spec_build(item->Function_decl)
            &&& forall|j: int| 0 <= j < old(sink)@.len() ==> final(sink)@[j] == old(sink)@[j]
        },
        *item is DataStructure ==> r is Ok && final(sink)@ == old(sink)@,
        *item is Other ==> {
            &&& r matches Err(e) && e.span == item->Other_span
            &&& final(sink)@ == old(sink)@
        },
{
    match item {
        Item::Function { decl } => {
            build(decl, sink);
            Ok(())
        },
        Item::DataStructure => Ok(()),
        Item::Other { span } => Err(UnsupportedItemKind { span: *span }),
    }
}

} // verus!
