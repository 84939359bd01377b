//! The mapping from a type descriptor to F# type syntax.

use vstd::prelude::*;
use crate::model::{Context, Diagnostic, DiagnosticKind, Field, Primitive, TypeDescriptor};
use crate::text::{owned, push_str, same_text};

verus! {

/// The visible stand-in for a shape that has no rendering.
pub open spec fn placeholder(reason: Seq<char>) -> Seq<char> {
    "(* unsupported: "@ + reason + " *)"@
}

pub open spec fn primitive_text(p: Primitive) -> Seq<char> {
    match p {
        Primitive::U8 | Primitive::Int => "int64"@,
        Primitive::Float => "float"@,
        Primitive::Bool => "bool"@,
        Primitive::Text => "string"@,
        Primitive::Duration => "{ secs: int64; nanos: int64 }"@,
        Primitive::SystemTime => "{ secs_since_epoch: int64; nanos_since_epoch: int64 }"@,
    }
}

/// Whether `path` is exactly the two elements `a` and `b`.
pub open spec fn is_path(path: Seq<String>, a: Seq<char>, b: Seq<char>) -> bool {
    path.len() == 2 && path[0]@ == a && path[1]@ == b
}

pub open spec fn is_json_value(path: Seq<String>) -> bool {
    is_path(path, "serde_json"@, "Value"@)
}

pub open spec fn is_date_time(path: Seq<String>) -> bool {
    is_path(path, "chrono"@, "DateTime"@)
}

/// The first `n` elements of `path`, joined by `::`.
pub open spec fn path_text(path: Seq<String>, n: int) -> Seq<char>
    decreases n,
{
    if n <= 0 || n > path.len() {
        Seq::empty()
    } else if n == 1 {
        path[0]@
    } else {
        path_text(path, n - 1) + "::"@ + path[n - 1]@
    }
}

/// The rendering of a named type with `nargs` generic arguments.
pub open spec fn named_text(path: Seq<String>, nargs: nat) -> Seq<char> {
    if is_json_value(path) {
        "obj"@
    } else if is_date_time(path) {
        "string"@
    } else if path.len() == 0 {
        placeholder("empty type path"@)
    } else if nargs > 0 {
        placeholder("generic "@ + path_text(path, path.len() as int))
    } else {
        path.last()@
    }
}

/// The diagnostics that a named type with `nargs` generic arguments records.
pub open spec fn named_diags(path: Seq<String>, nargs: nat, ctx: Context, site: String) -> Seq<
    Diagnostic,
> {
    if is_json_value(path) || is_date_time(path) {
        Seq::empty()
    } else if path.len() == 0 {
        seq![Diagnostic {
            container: ctx.container,
            variant: ctx.variant,
            field: Some(site),
            kind: DiagnosticKind::EmptyPath,
        }]
    } else if nargs > 0 {
        seq![
            Diagnostic {
                container: ctx.container,
                variant: ctx.variant,
                field: Some(site),
                kind: DiagnosticKind::GenericInstantiation(path.last()),
            },
        ]
    } else {
        Seq::empty()
    }
}

/// Whether a list of `elem` collapses to a string in a byte-buffer field.
pub open spec fn is_byte_list(elem: TypeDescriptor, bytes: bool) -> bool {
    bytes && elem == TypeDescriptor::Primitive(Primitive::U8)
}

/// The F# type for `t`; `bytes` says whether the field is a byte buffer.
pub open spec fn type_text(t: TypeDescriptor, bytes: bool) -> Seq<char>
    decreases t, 0int,
{
    match t {
        TypeDescriptor::Primitive(p) => primitive_text(p),
        TypeDescriptor::Named { path, args } => named_text(path@, args@.len()),
        TypeDescriptor::ListLike(e) => if is_byte_list(*e, bytes) {
            "string"@
        } else {
            type_text(*e, bytes) + " list"@
        },
        TypeDescriptor::MapLike(k, v) => "Map<"@ + type_text(*k, bytes) + ", "@ + type_text(
            *v,
            bytes,
        ) + ">"@,
        TypeDescriptor::SetLike(e) => "Set<"@ + type_text(*e, bytes) + ">"@,
        TypeDescriptor::Optional(e) => type_text(*e, bytes) + " option"@,
        TypeDescriptor::ResultLike(o, e) => "Result<"@ + type_text(*o, bytes) + ", "@ + type_text(
            *e,
            bytes,
        ) + ">"@,
        TypeDescriptor::Tuple(es) => if es@.len() == 0 {
            "unit"@
        } else {
            "("@ + tuple_text(es@, es@.len() as int, bytes) + ")"@
        },
        TypeDescriptor::Reference(e) => type_text(*e, bytes),
        TypeDescriptor::Unsupported(r) => placeholder(r@),
    }
}

/// The renderings of the first `n` of `es`, joined by the product sign.
pub open spec fn tuple_text(es: Seq<TypeDescriptor>, n: int, bytes: bool) -> Seq<char>
    decreases es, n,
{
    if n <= 0 || n > es.len() {
        Seq::empty()
    } else if n == 1 {
        type_text(es[0], bytes)
    } else {
        tuple_text(es, n - 1, bytes) + " * "@ + type_text(es[n - 1], bytes)
    }
}

/// The diagnostics that mapping `t` records, in field `site` at `ctx`.
pub open spec fn type_diags(t: TypeDescriptor, ctx: Context, site: String) -> Seq<Diagnostic>
    decreases t, 0int,
{
    match t {
        TypeDescriptor::Primitive(_) => Seq::empty(),
        TypeDescriptor::Named { path, args } => named_diags(path@, args@.len(), ctx, site),
        TypeDescriptor::ListLike(e) => type_diags(*e, ctx, site),
        TypeDescriptor::MapLike(k, v) => type_diags(*k, ctx, site) + type_diags(
            *v,
            ctx,
            site,
        ),
        TypeDescriptor::SetLike(e) => type_diags(*e, ctx, site),
        TypeDescriptor::Optional(e) => type_diags(*e, ctx, site),
        TypeDescriptor::ResultLike(o, e) => type_diags(*o, ctx, site) + type_diags(
            *e,
            ctx,
            site,
        ),
        TypeDescriptor::Tuple(es) => tuple_diags(es@, es@.len() as int, ctx, site),
        TypeDescriptor::Reference(e) => type_diags(*e, ctx, site),
        TypeDescriptor::Unsupported(r) => seq![
            Diagnostic {
                container: ctx.container,
                variant: ctx.variant,
                field: Some(site),
                kind: DiagnosticKind::Unsupported(r),
            },
        ],
    }
}

/// The diagnostics of the first `n` of `es`, in order.
pub open spec fn tuple_diags(es: Seq<TypeDescriptor>, n: int, ctx: Context, site: String) -> Seq<
    Diagnostic,
>
    decreases es, n,
{
    if n <= 0 || n > es.len() {
        Seq::empty()
    } else {
        tuple_diags(es, n - 1, ctx, site) + type_diags(es[n - 1], ctx, site)
    }
}

/// The F# type of a field: its override verbatim, else the mapping of its type.
pub open spec fn field_text(f: Field) -> Seq<char> {
    match f.type_override {
        Some(s) => s@,
        None => type_text(f.ty, f.is_byte_buffer),
    }
}

/// The diagnostic of a flattened field, if `f` is one.
pub open spec fn flatten_diags(f: Field, ctx: Context) -> Seq<Diagnostic> {
    if f.flatten {
        seq![
            Diagnostic {
                container: ctx.container,
                variant: ctx.variant,
                field: Some(f.name),
                kind: DiagnosticKind::Flatten,
            },
        ]
    } else {
        Seq::empty()
    }
}

/// The diagnostics that rendering field `f` records: flattening, then its type.
pub open spec fn field_diags(f: Field, ctx: Context) -> Seq<Diagnostic> {
    flatten_diags(f, ctx) + match f.type_override {
        Some(_) => Seq::empty(),
        None => type_diags(f.ty, ctx, f.name),
    }
}

/// Records `d` in `diags`.
fn record(diags: &mut Vec<Diagnostic>, d: Diagnostic)
    ensures
        final(diags)@ == old(diags)@.push(d),
{
    diags.push(d);
}

/// Renders a named type by its path, and records a diagnostic where it has no rendering.
pub fn generic_to_fs(
    path: &Vec<String>,
    nargs: usize,
    ctx: &Context,
    site: &String,
    diags: &mut Vec<Diagnostic>,
) -> (r: String)
    ensures
        r@ == named_text(path@, nargs as nat),
        final(diags)@ == old(diags)@ + named_diags(path@, nargs as nat, *ctx, *site),
{
    let n = path.len();
    if n == 2 && same_text(path[0].as_str(), "serde_json") && same_text(path[1].as_str(), "Value") {
        assert(diags@ =~= old(diags)@ + named_diags(path@, nargs as nat, *ctx, *site));
        return owned("obj");
    }
    if n == 2 && same_text(path[0].as_str(), "chrono") && same_text(path[1].as_str(), "DateTime") {
        assert(diags@ =~= old(diags)@ + named_diags(path@, nargs as nat, *ctx, *site));
        return owned("string");
    }
    if n == 0 {
        record(
            diags,
            ctx.diagnostic(site, DiagnosticKind::EmptyPath),
        );
        assert(diags@ =~= old(diags)@ + named_diags(path@, nargs as nat, *ctx, *site));
        let mut out = owned("(* unsupported: ");
        push_str(&mut out, "empty type path");
        push_str(&mut out, " *)");
        return out;
    }
    let last = &path[n - 1];
    if nargs > 0 {
        record(
            diags,
            ctx.diagnostic(site, DiagnosticKind::GenericInstantiation(last.clone())),
        );
        assert(diags@ =~= old(diags)@ + named_diags(path@, nargs as nat, *ctx, *site));
        let mut out = owned("(* unsupported: ");
        push_str(&mut out, "generic ");
        let ghost start = out@;
        let mut i: usize = 0;
        while i < n
            invariant
                n == path@.len(),
                i <= n,
                out@ == start + path_text(path@, i as int),
            decreases n - i,
        {
            if i > 0 {
                push_str(&mut out, "::");
            }
            push_str(&mut out, path[i].as_str());
            proof {
                if i == 0 {
                    assert(out@ =~= start + path_text(path@, 1));
                } else {
                    assert(out@ =~= start + path_text(path@, i + 1));
                }
            }
            i = i + 1;
        }
        push_str(&mut out, " *)");
        assert(out@ =~= placeholder("generic "@ + path_text(path@, n as int)));
        return out;
    }
    assert(diags@ =~= old(diags)@ + named_diags(path@, nargs as nat, *ctx, *site));
    last.clone()
}

/// Renders a list of `elem`: a string in a byte-buffer field whose elements are bytes.
pub fn type_to_array(
    elem: &TypeDescriptor,
    bytes: bool,
    ctx: &Context,
    site: &String,
    diags: &mut Vec<Diagnostic>,
) -> (r: String)
    ensures
        r@ == (if is_byte_list(*elem, bytes) {
            "string"@
        } else {
            type_text(*elem, bytes) + " list"@
        }),
        final(diags)@ == old(diags)@ + type_diags(*elem, *ctx, *site),
    decreases elem, 1int,
{
    if bytes {
        if let TypeDescriptor::Primitive(Primitive::U8) = elem {
            assert(diags@ =~= old(diags)@ + type_diags(*elem, *ctx, *site));
            return owned("string");
        }
    }
    let mut out = type_to_fs(elem, bytes, ctx, site, diags);
    push_str(&mut out, " list");
    out
}

/// Renders `ty` as an F# type, and records a diagnostic for each shape that has none.
pub fn type_to_fs(
    ty: &TypeDescriptor,
    bytes: bool,
    ctx: &Context,
    site: &String,
    diags: &mut Vec<Diagnostic>,
) -> (r: String)
    ensures
        r@ == type_text(*ty, bytes),
        final(diags)@ == old(diags)@ + type_diags(*ty, *ctx, *site),
    decreases ty, 0int,
{
    match ty {
        TypeDescriptor::Primitive(p) => {
            assert(diags@ =~= old(diags)@ + type_diags(*ty, *ctx, *site));
            match p {
                Primitive::U8 | Primitive::Int => owned("int64"),
                Primitive::Float => owned("float"),
                Primitive::Bool => owned("bool"),
                Primitive::Text => owned("string"),
                Primitive::Duration => owned("{ secs: int64; nanos: int64 }"),
                Primitive::SystemTime => owned(
                    "{ secs_since_epoch: int64; nanos_since_epoch: int64 }",
                ),
            }
        },
        TypeDescriptor::Named { path, args } => generic_to_fs(path, args.len(), ctx, site, diags),
        TypeDescriptor::ListLike(e) => type_to_array(e, bytes, ctx, site, diags),
        TypeDescriptor::MapLike(k, v) => {
            let mut out = owned("Map<");
            let kt = type_to_fs(k, bytes, ctx, site, diags);
            push_str(&mut out, kt.as_str());
            push_str(&mut out, ", ");
            let vt = type_to_fs(v, bytes, ctx, site, diags);
            push_str(&mut out, vt.as_str());
            push_str(&mut out, ">");
            assert(diags@ =~= old(diags)@ + type_diags(*ty, *ctx, *site));
            out
        },
        TypeDescriptor::SetLike(e) => {
            let mut out = owned("Set<");
            let et = type_to_fs(e, bytes, ctx, site, diags);
            push_str(&mut out, et.as_str());
            push_str(&mut out, ">");
            out
        },
        TypeDescriptor::Optional(e) => {
            let mut out = type_to_fs(e, bytes, ctx, site, diags);
            push_str(&mut out, " option");
            out
        },
        TypeDescriptor::ResultLike(o, e) => {
            let mut out = owned("Result<");
            let ot = type_to_fs(o, bytes, ctx, site, diags);
            push_str(&mut out, ot.as_str());
            push_str(&mut out, ", ");
            let et = type_to_fs(e, bytes, ctx, site, diags);
            push_str(&mut out, et.as_str());
            push_str(&mut out, ">");
            assert(diags@ =~= old(diags)@ + type_diags(*ty, *ctx, *site));
            out
        },
        TypeDescriptor::Tuple(es) => {
            if es.len() == 0 {
                assert(tuple_diags(es@, 0, *ctx, *site) =~= Seq::empty());
                assert(diags@ =~= old(diags)@ + type_diags(*ty, *ctx, *site));
                return owned("unit");
            }
            let mut out = owned("(");
            let ghost start = diags@;
            let mut i: usize = 0;
            while i < es.len()
                invariant
                    *ty == TypeDescriptor::Tuple(*es),
                    i <= es@.len(),
                    es@.len() > 0,
                    out@ == "("@ + tuple_text(es@, i as int, bytes),
                    diags@ == start + tuple_diags(es@, i as int, *ctx, *site),
                decreases es@.len() - i,
            {
                proof {
                    assert(*es == ty->Tuple_0);
                    assert(decreases_to!(*ty => ty->Tuple_0));
                    assert(decreases_to!(*es => es@));
                    assert(decreases_to!(es@ => es@[i as int]));
                }
                let t = type_to_fs(&es[i], bytes, ctx, site, diags);
                if i > 0 {
                    push_str(&mut out, " * ");
                }
                push_str(&mut out, t.as_str());
                proof {
                    if i == 0 {
                        assert(out@ =~= "("@ + tuple_text(es@, 1, bytes));
                    } else {
                        assert(out@ =~= "("@ + tuple_text(es@, i + 1, bytes));
                    }
                    assert(diags@ =~= start + tuple_diags(es@, i + 1, *ctx, *site));
                }
                i = i + 1;
            }
            push_str(&mut out, ")");
            out
        },
        TypeDescriptor::Reference(e) => type_to_fs(e, bytes, ctx, site, diags),
        TypeDescriptor::Unsupported(reason) => {
            record(
                diags,
                ctx.diagnostic(site, DiagnosticKind::Unsupported(reason.clone())),
            );
            assert(diags@ =~= old(diags)@ + type_diags(*ty, *ctx, *site));
            let mut out = owned("(* unsupported: ");
            push_str(&mut out, reason.as_str());
            push_str(&mut out, " *)");
            out
        },
    }
}

/// Renders the F# type of field `f`: its override verbatim, else the mapping of its type.
pub fn field_to_fs(f: &Field, ctx: &Context, diags: &mut Vec<Diagnostic>) -> (r: String)
    ensures
        r@ == field_text(*f),
        final(diags)@ == old(diags)@ + field_diags(*f, *ctx),
{
    if f.flatten {
        record(
            diags,
            ctx.diagnostic(&f.name, DiagnosticKind::Flatten),
        );
    }
    let ghost mid = diags@;
    assert(mid =~= old(diags)@ + flatten_diags(*f, *ctx));
    match &f.type_override {
        Some(s) => {
            assert(diags@ =~= old(diags)@ + field_diags(*f, *ctx));
            s.clone()
        },
        None => {
            let r = type_to_fs(&f.ty, f.is_byte_buffer, ctx, &f.name, diags);
            assert(diags@ =~= old(diags)@ + field_diags(*f, *ctx));
            r
        },
    }
}

} // verus!
