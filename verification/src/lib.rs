//! Renders parsed type annotations and function declarations into canonical
//! textual signatures for a cross-language type-export consumer.
//!
//! The library is split into the recursive type-expression model ([`expr`]),
//! the renderer and name resolver ([`render`]), the declaration signature
//! builder ([`builder`]) and the per-declaration entry dispatcher
//! ([`dispatch`]).
use vstd::prelude::*;

pub mod builder;
pub mod dispatch;
pub mod expr;
pub mod render;

verus! {

/// A greeting hook that generated trait impls outside this library provide.
pub trait HelloMacro {
    fn hello_macro();
}

/// Sample annotated function whose declaration exercises the signature
/// builder; it collects its arguments in declared order.
pub fn foo(x: u8, aaa: (u8, u8)) -> (r: Vec<u8>)
    ensures
        r@ == seq![x, aaa.0, aaa.1],
{
    let mut v: Vec<u8> = Vec::new();
    v.push(x);
    v.push(aaa.0);
    v.push(aaa.1);
    proof {
        assert(v@ =~= seq![x, aaa.0, aaa.1]);
    }
    v
}

} // verus!
