//! The type-signature renderer and the path/generic resolver.
//!
//! `spec_render` is the mathematical definition of the signature grammar;
//! the executable [`render`] and [`resolve`] are proved to produce exactly
//! that text. Rendering is total: every variant has a defined output.
use crate::expr::TypeExpr;
use vstd::prelude::*;

verus! {

/// The closed list of numeric identifiers that alias to `number`.
pub open spec fn is_numeric_name(name: Seq<char>) -> bool {
    ||| name == "u8"@
    ||| name == "u16"@
    ||| name == "u32"@
    ||| name == "u64"@
    ||| name == "u128"@
    ||| name == "usize"@
    ||| name == "i8"@
    ||| name == "i16"@
    ||| name == "i32"@
    ||| name == "i64"@
    ||| name == "i128"@
    ||| name == "isize"@
    ||| name == "f32"@
    ||| name == "f64"@
}

/// The closed list of sequence and set container identifiers that alias to
/// `Array`.
pub open spec fn is_sequence_name(name: Seq<char>) -> bool {
    ||| name == "Vec"@
    ||| name == "HashSet"@
    ||| name == "BTreeSet"@
}

/// The closed list of string identifiers that alias to `string`.
pub open spec fn is_string_name(name: Seq<char>) -> bool {
    ||| name == "String"@
    ||| name == "str"@
}

/// The closed list of key-value map identifiers that alias to `Record`.
pub open spec fn is_map_name(name: Seq<char>) -> bool {
    ||| name == "HashMap"@
    ||| name == "BTreeMap"@
}

/// A name is aliased exactly when it stands, letter for letter, in one of
/// the four closed lists.
pub open spec fn is_aliased_name(name: Seq<char>) -> bool {
    ||| is_numeric_name(name)
    ||| is_sequence_name(name)
    ||| is_string_name(name)
    ||| is_map_name(name)
}

/// The canonical alias of a type identifier. Matching is exact and
/// case-sensitive; any identifier outside the closed table passes through
/// verbatim.
pub open spec fn spec_alias(name: Seq<char>) -> Seq<char> {
    if is_numeric_name(name) {
        "number"@
    } else if is_sequence_name(name) {
        "Array"@
    } else if is_string_name(name) {
        "string"@
    } else if is_map_name(name) {
        "Record"@
    } else {
        name
    }
}

/// The canonical text of a type expression.
pub open spec fn spec_render(t: TypeExpr) -> Seq<char>
    decreases t, 1int, 0int,
{
    match t {
        TypeExpr::Array { elem } => "Array<"@ + spec_render(*elem) + ">"@,
        TypeExpr::Tuple { elems } => "["@ + spec_args_text(elems, elems@.len() as int) + "]"@,
        TypeExpr::Slice { elem } => spec_render(*elem) + "[]"@,
        TypeExpr::Pointer { elem } => spec_render(*elem),
        TypeExpr::Reference { elem } => spec_render(*elem),
        TypeExpr::Group { elem } => spec_render(*elem),
        TypeExpr::Parenthesized { elem } => spec_render(*elem),
        TypeExpr::Never => "never"@,
        TypeExpr::NamedPath { name, args } => spec_resolve(name@, args),
        TypeExpr::Unsupported => Seq::empty(),
    }
}

/// The comma-join of the renderings of the first `i` expressions of `args`.
pub open spec fn spec_args_text(args: Vec<TypeExpr>, i: int) -> Seq<char>
    decreases args, 0int, i,
{
    if i <= 0 || i > args@.len() {
        Seq::empty()
    } else if i == 1 {
        spec_render(args[0])
    } else {
        spec_args_text(args, i - 1) + ","@ + spec_render(args[i - 1])
    }
}

/// Whether each of the first `i` expressions of `args` renders to the empty
/// string.
pub open spec fn spec_all_args_empty(args: Vec<TypeExpr>, i: int) -> bool
    decreases args, 1int, i,
{
    if i <= 0 || i > args@.len() {
        true
    } else {
        spec_all_args_empty(args, i - 1) && spec_render(args[i - 1]).len() == 0
    }
}

/// The canonical text of a named path: the aliased identifier, and, when at
/// least one generic argument renders non-empty, the comma-joined argument
/// renderings in angle brackets. When every argument renders empty (or there
/// are none) the bare identifier stands alone: no dangling separator and no
/// empty angle brackets are ever emitted.
pub open spec fn spec_resolve(name: Seq<char>, args: Vec<TypeExpr>) -> Seq<char>
    decreases args, 2int, 0int,
{
    if args@.len() == 0 || spec_all_args_empty(args, args@.len() as int) {
        spec_alias(name)
    } else {
        spec_alias(name) + "<"@ + spec_args_text(args, args@.len() as int) + ">"@
    }
}

/// Exact equality of an identifier against one table entry.
fn name_is(name: &String, lit: &str) -> (b: bool)
    ensures
        b == (name@ == lit@),
{
    let entry = String::from_str(lit);
    *name == entry
}

/// The executable aliasing table; exact, case-sensitive matching only.
fn alias(name: &String) -> (r: String)
    ensures
        r@ == spec_alias(name@),
{
    if name_is(name, "u8") || name_is(name, "u16") || name_is(name, "u32")
        || name_is(name, "u64") || name_is(name, "u128") || name_is(name, "usize")
        || name_is(name, "i8") || name_is(name, "i16") || name_is(name, "i32")
        || name_is(name, "i64") || name_is(name, "i128") || name_is(name, "isize")
        || name_is(name, "f32") || name_is(name, "f64") {
        String::from_str("number")
    } else if name_is(name, "Vec") || name_is(name, "HashSet") || name_is(name, "BTreeSet") {
        String::from_str("Array")
    } else if name_is(name, "String") || name_is(name, "str") {
        String::from_str("string")
    } else if name_is(name, "HashMap") || name_is(name, "BTreeMap") {
        String::from_str("Record")
    } else {
        name.clone()
    }
}

/// Renders one type expression to its canonical text. Total: every variant
/// has a defined output, and the result is a pure function of the input.
pub fn render(t: &TypeExpr) -> (r: String)
    ensures
        r@ == spec_render(*t),
    decreases *t, 1int,
{
    match t {
        TypeExpr::Array { elem } => {
            let mut s = String::from_str("Array<");
            let inner = render(&**elem);
            s.append(inner.as_str());
            s.append(">");
            s
        },
        TypeExpr::Tuple { elems } => {
            let mut s = String::from_str("[");
            let mut i: usize = 0;
            #[verifier::loop_isolation(false)]
            while i < elems.len()
                invariant
                    i <= elems@.len(),
                    s@ == "["@ + spec_args_text(*elems, i as int),
                decreases elems@.len() - i,
            {
                if i > 0 {
                    s.append(",");
                }
                proof {
                    assert(decreases_to!(*t => t->Tuple_elems));
                    assert(decreases_to!(t->Tuple_elems => t->Tuple_elems[i as int]));
                }
                let piece = render(&elems[i]);
                s.append(piece.as_str());
                proof {
                    assert(s@ =~= "["@ + spec_args_text(*elems, i as int + 1));
                }
                i += 1;
            }
            s.append("]");
            s
        },
        TypeExpr::Slice { elem } => {
            let mut s = render(&**elem);
            s.append("[]");
            s
        },
        TypeExpr::Pointer { elem } => render(&**elem),
        TypeExpr::Reference { elem } => render(&**elem),
        TypeExpr::Group { elem } => render(&**elem),
        TypeExpr::Parenthesized { elem } => render(&**elem),
        TypeExpr::Never => String::from_str("never"),
        TypeExpr::NamedPath { name, args } => resolve(name, args),
        TypeExpr::Unsupported => String::new(),
    }
}

/// Resolves a named path: aliases the identifier and composes the generic
/// arguments, guarding the all-empty-arguments edge so that no dangling
/// comma and no empty angle brackets are emitted.
pub fn resolve(name: &String, args: &Vec<TypeExpr>) -> (r: String)
    ensures
        r@ == spec_resolve(name@, *args),
    decreases *args, 2int,
{
    let ident = alias(name);
    if args.len() == 0 {
        return ident;
    }
    let mut joined = String::new();
    let mut any_rendered = false;
    let mut i: usize = 0;
    while i < args.len()
        invariant
            i <= args@.len(),
            joined@ == spec_args_text(*args, i as int),
            any_rendered == !spec_all_args_empty(*args, i as int),
        decreases args@.len() - i,
    {
        if i > 0 {
            joined.append(",");
        }
        let piece = render(&args[i]);
        if !piece.as_str().is_empty() {
            any_rendered = true;
        }
        joined.append(piece.as_str());
        proof {
            assert(joined@ =~= spec_args_text(*args, i as int + 1));
        }
        i += 1;
    }
    if any_rendered {
        let mut s = ident;
        s.append("<");
        s.append(joined.as_str());
        s.append(">");
        s
    } else {
        ident
    }
}

/// Strips every transparent wrapper (pointer, reference, group,
/// parentheses) from around a type expression.
pub open spec fn strip_wrappers(t: TypeExpr) -> TypeExpr
    decreases t,
{
    match t {
        TypeExpr::Pointer { elem } => strip_wrappers(*elem),
        TypeExpr::Reference { elem } => strip_wrappers(*elem),
        TypeExpr::Group { elem } => strip_wrappers(*elem),
        TypeExpr::Parenthesized { elem } => strip_wrappers(*elem),
        _ => t,
    }
}

/// Any nesting of transparent wrappers around a type renders identically to
/// the wrapped type alone, for arbitrary nesting depth.
pub proof fn lemma_transparent_wrappers(t: TypeExpr)
    ensures
        spec_render(t) == spec_render(strip_wrappers(t)),
    decreases t,
{
    match t {
        TypeExpr::Pointer { elem } => lemma_transparent_wrappers(*elem),
        TypeExpr::Reference { elem } => lemma_transparent_wrappers(*elem),
        TypeExpr::Group { elem } => lemma_transparent_wrappers(*elem),
        TypeExpr::Parenthesized { elem } => lemma_transparent_wrappers(*elem),
        _ => {},
    }
}

/// Rendering is deterministic: identical inputs yield identical text.
pub proof fn lemma_render_deterministic(t1: TypeExpr, t2: TypeExpr)
    requires
        t1 == t2,
    ensures
        spec_render(t1) == spec_render(t2),
{
}

/// Aliasing is exact-match only: a name outside the closed table — one that
/// differs from an entry by case, by surrounding whitespace, or in any other
/// way — is never aliased and passes through verbatim.
pub proof fn lemma_alias_exact(name: Seq<char>)
    requires
        !is_aliased_name(name),
    ensures
        spec_alias(name) == name,
{
}

/// An empty tuple renders exactly as the two bracket characters.
pub proof fn lemma_empty_tuple(t: TypeExpr)
    requires
        t matches TypeExpr::Tuple { elems } && elems@.len() == 0,
    ensures
        spec_render(t) == "[]"@,
{
    reveal_strlit("[");
    reveal_strlit("]");
    reveal_strlit("[]");
    match t {
        TypeExpr::Tuple { elems } => {
            assert(spec_args_text(elems, 0) == Seq::<char>::empty());
            assert(spec_render(t) =~= "[]"@);
        },
        _ => {},
    }
}

} // verus!
