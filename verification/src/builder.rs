//! The declaration signature builder.
//!
//! Assembles a full function signature line of the shape
//! `function <name>(<binding>:<type>,...):<returnType>` and emits it to an
//! explicit output sink: the line is a report, not an expression value
//! returned to the caller.
use crate::expr::{Declaration, Param};
use crate::render::{render, spec_render};
use vstd::prelude::*;

verus! {

/// The text of one parameter: its binding name and, when a type is
/// declared, a colon and that type's rendering. An implicit receiver
/// parameter (no declared type) stands as its bare binding name, with no
/// colon.
pub open spec fn spec_param_text(p: Param) -> Seq<char> {
    match p.ty {
        Some(t) => p.binding@ + ":"@ + spec_render(t),
        None => p.binding@,
    }
}

/// The comma-join of the texts of the first `i` parameters.
pub open spec fn spec_params_text(params: Vec<Param>, i: int) -> Seq<char>
    decreases i,
{
    if i <= 0 || i > params@.len() {
        Seq::empty()
    } else if i == 1 {
        spec_param_text(params[0])
    } else {
        spec_params_text(params, i - 1) + ","@ + spec_param_text(params[i - 1])
    }
}

/// The full signature line of a function declaration. The `:<returnType>`
/// suffix is omitted entirely — no stray colon — when no return type is
/// declared.
pub open spec fn spec_build(d: Declaration) -> Seq<char> {
    let head = "function "@ + d.name@ + "("@ + spec_params_text(
        d.params,
        d.params@.len() as int,
    ) + ")"@;
    match d.ret {
        Some(t) => head + ":"@ + spec_render(t),
        None => head,
    }
}

/// Renders one parameter to its text.
fn param_text(p: &Param) -> (r: String)
    ensures
        r@ == spec_param_text(*p),
{
    match &p.ty {
        Some(t) => {
            let mut s = p.binding.clone();
            s.append(":");
            let rendered = render(t);
            s.append(rendered.as_str());
            s
        },
        None => p.binding.clone(),
    }
}

/// Renders the full signature line of a function declaration.
pub fn signature(d: &Declaration) -> (r: String)
    ensures
        r@ == spec_build(*d),
{
    let mut s = String::from_str("function ");
    s.append(d.name.as_str());
    s.append("(");
    let mut i: usize = 0;
    #[verifier::loop_isolation(false)]
    while i < d.params.len()
        invariant
            i <= d.params@.len(),
            s@ == "function "@ + d.name@ + "("@ + spec_params_text(d.params, i as int),
        decreases d.params@.len() - i,
    {
        if i > 0 {
            s.append(",");
        }
        let piece = param_text(&d.params[i]);
        s.append(piece.as_str());
        proof {
            assert(s@ =~= "function "@ + d.name@ + "("@ + spec_params_text(
                d.params,
                i as int + 1,
            ));
        }
        i += 1;
    }
    s.append(")");
    match &d.ret {
        Some(t) => {
            s.append(":");
            let rendered = render(t);
            s.append(rendered.as_str());
        },
        None => {},
    }
    s
}

/// Builds the signature line of one function declaration and appends it to
/// the output sink; everything already in the sink stays unchanged.
pub fn build(d: &Declaration, sink: &mut Vec<String>)
    ensures
        final(sink)@.len() == old(sink)@.len() + 1,
        final(sink)@[old(sink)@.len() as int]@ == spec_build(*d),
        forall|j: int| 0 <= j < old(sink)@.len() ==> final(sink)@[j] == old(sink)@[j],
{
    let line = signature(d);
    sink.push(line);
}

} // verus!
