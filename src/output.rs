//! The assembly of one container's declaration, and of the helpers that go with a union.

use vstd::prelude::*;
use vstd::string::*;
use crate::helpers::{factory_text, handler_text};
use crate::mapping::{field_diags, field_text, field_to_fs};
use crate::model::{Body, Container, Context, Diagnostic, DiagnosticKind, Field, Style};
use crate::patch::{patch, patched};
use crate::records::{
    derive_field_tuple, derive_fields, fields_diags, fields_of, filter_visible, record_text,
    retained_fields, tuple_fields_text,
};
use crate::tagging::{is_plain_enum, strategy_of, TagStrategy};
use crate::text::{nl, owned, push_reindented, push_str, reindent};
use crate::variants::{
    derive_enum_cases, derive_union, enum_cases, filter_variants, retained_variants, union_aliases,
    union_cases, union_diags, variants_of,
};

verus! {

/// Which value-level helpers to emit beside a union.
pub struct Options {
    pub enable_factory: bool,
    pub enable_handler: bool,
}

/// The doc comment of a container, one line each, then the start of its declaration.
pub open spec fn header(name: Seq<char>, doc: Seq<char>) -> Seq<char> {
    (if doc.len() == 0 {
        Seq::empty()
    } else {
        "/// "@ + reindent(doc, "/// "@) + nl()
    }) + "type "@ + name
}

/// The body of a record-like container of style `style` with fields `fs`.
pub open spec fn struct_body(style: Style, fs: Seq<Field>, transparent: bool) -> Seq<char> {
    let rf = retained_fields(fs);
    if style == Style::Unit || rf.len() == 0 {
        "unit"@
    } else if style == Style::Newtype || (rf.len() == 1 && transparent) {
        field_text(rf[0])
    } else if style == Style::Tuple {
        tuple_fields_text(rf, rf.len() as int)
    } else {
        record_text(rf)
    }
}

/// The diagnostics of rendering a record-like container.
pub open spec fn struct_diags(style: Style, fs: Seq<Field>, transparent: bool, container: String) -> Seq<
    Diagnostic,
> {
    let rf = retained_fields(fs);
    let ctx = Context { container, variant: None };
    if style == Style::Unit || rf.len() == 0 {
        Seq::empty()
    } else if style == Style::Newtype || (rf.len() == 1 && transparent) {
        field_diags(rf[0], ctx)
    } else {
        fields_diags(rf, rf.len() as int, ctx)
    }
}

/// Every diagnostic that rendering `c` records; an impossible tagging is the only one then.
pub open spec fn container_diags(c: Container) -> Seq<Diagnostic> {
    match c.body {
        Body::Struct { style, fields, transparent } => struct_diags(
            style,
            fields@,
            transparent,
            c.name,
        ),
        Body::Enum { variants, tagging } => match strategy_of(tagging) {
            None => seq![
                Diagnostic {
                    container: c.name,
                    variant: None,
                    field: None,
                    kind: DiagnosticKind::Configuration,
                },
            ],
            Some(s) => {
                let vs = retained_variants(variants@);
                if is_plain_enum(s, vs) {
                    Seq::empty()
                } else {
                    union_diags(vs, vs.len() as int, c.name)
                }
            },
        },
    }
}

/// Whether `c` renders as a union with helpers, rather than as a record or an enumeration.
pub open spec fn is_general_union(c: Container) -> bool {
    match c.body {
        Body::Struct { .. } => false,
        Body::Enum { variants, tagging } => match strategy_of(tagging) {
            None => false,
            Some(s) => !is_plain_enum(s, retained_variants(variants@)),
        },
    }
}

/// The declaration of `c`, before normalization; hoisted aliases come first.
pub open spec fn declaration_text(c: Container) -> Seq<char> {
    let head = header(c.name@, c.doc@);
    match c.body {
        Body::Struct { style, fields, transparent } => head + " = "@ + struct_body(
            style,
            fields@,
            transparent,
        ),
        Body::Enum { variants, tagging } => {
            let vs = retained_variants(variants@);
            let n = vs.len() as int;
            if is_general_union(c) {
                union_aliases(c.name@, vs, n) + head + " ="@ + union_cases(c.name@, vs, n)
            } else {
                head + " ="@ + enum_cases(vs, n)
            }
        },
    }
}

/// The helpers that follow a union's declaration, as `opts` asks for them.
pub open spec fn helpers_text(c: Container, opts: Options) -> Seq<char> {
    match c.body {
        Body::Enum { variants, .. } => if is_general_union(c) {
            let vs = retained_variants(variants@);
            (if opts.enable_factory {
                factory_text(c.name@, vs)
            } else {
                Seq::empty()
            }) + if opts.enable_handler {
                handler_text(c.name@, vs)
            } else {
                Seq::empty()
            }
        } else {
            Seq::empty()
        },
        _ => Seq::empty(),
    }
}

/// The text rendered for `c`: its normalized declaration, then its helpers.
pub open spec fn output_text(c: Container, opts: Options) -> Seq<char> {
    patched(declaration_text(c)) + helpers_text(c, opts)
}

/// Appends the doc comment and the start of the declaration of `name`.
fn push_header(out: &mut String, name: &String, doc: &String)
    ensures
        final(out)@ == old(out)@ + header(name@, doc@),
{
    if doc.unicode_len() > 0 {
        push_str(out, "/// ");
        push_reindented(out, doc.as_str(), "/// ");
        push_str(out, "\n");
        proof {
            reveal_strlit("\n");
        }
    }
    push_str(out, "type ");
    push_str(out, name.as_str());
    assert(out@ =~= old(out)@ + header(name@, doc@));
}

/// Renders the body of a record-like container, and records its diagnostics.
pub fn derive_struct(
    style: Style,
    fields: &Vec<Field>,
    transparent: bool,
    container: &String,
    diags: &mut Vec<Diagnostic>,
) -> (r: String)
    ensures
        r@ == struct_body(style, fields@, transparent),
        final(diags)@ == old(diags)@ + struct_diags(style, fields@, transparent, *container),
{
    let rf = filter_visible(fields);
    let ghost kept = fields_of(rf@);
    assert(kept.len() == rf@.len());
    if style == Style::Unit || rf.len() == 0 {
        assert(diags@ =~= old(diags)@ + struct_diags(style, fields@, transparent, *container));
        return owned("unit");
    }
    let ctx = Context { container: container.clone(), variant: None };
    if style == Style::Newtype || (rf.len() == 1 && transparent) {
        return field_to_fs(rf[0], &ctx, diags);
    }
    if style == Style::Tuple {
        derive_field_tuple(&rf, &ctx, diags)
    } else {
        derive_fields(&rf, &ctx, diags)
    }
}

/// Renders `c` as an F# declaration, followed by the helpers that `opts` asks for where `c`
/// is a union. Fails with every diagnostic that the rendering recorded, if there is one.
pub fn render(c: &Container, opts: &Options) -> (r: Result<String, Vec<Diagnostic>>)
    ensures
        r is Ok <==> container_diags(*c).len() == 0,
        r matches Ok(t) ==> t@ == output_text(*c, *opts),
        r matches Err(d) ==> d@ == container_diags(*c),
{
    let mut diags: Vec<Diagnostic> = Vec::new();
    let mut decl = String::new();
    let mut helpers = String::new();
    match &c.body {
        Body::Struct { style, fields, transparent } => {
            push_header(&mut decl, &c.name, &c.doc);
            push_str(&mut decl, " = ");
            let body = derive_struct(*style, fields, *transparent, &c.name, &mut diags);
            push_str(&mut decl, body.as_str());
            assert(diags@ =~= container_diags(*c));
        },
        Body::Enum { variants, tagging } => {
            let strategy = match TagStrategy::resolve(tagging) {
                Some(s) => s,
                None => {
                    diags.push(
                        Diagnostic {
                            container: c.name.clone(),
                            variant: None,
                            field: None,
                            kind: DiagnosticKind::Configuration,
                        },
                    );
                    assert(diags@ =~= container_diags(*c));
                    return Err(diags);
                },
            };
            let vs = filter_variants(variants);
            let ghost kept = variants_of(vs@);
            assert(kept.len() == vs@.len());
            if strategy.is_plain_enum(&vs) {
                push_header(&mut decl, &c.name, &c.doc);
                push_str(&mut decl, " =");
                let cases = derive_enum_cases(&vs);
                let cases = cases.finish();
                push_str(&mut decl, cases.as_str());
                assert(diags@ =~= container_diags(*c));
            } else {
                let parts = derive_union(&c.name, &vs, &mut diags);
                push_str(&mut decl, parts.aliases.as_str());
                push_header(&mut decl, &c.name, &c.doc);
                push_str(&mut decl, " =");
                let cases = parts.cases.finish();
                push_str(&mut decl, cases.as_str());
                if opts.enable_factory {
                    push_str(&mut helpers, "\ntype ");
                    push_str(&mut helpers, c.name.as_str());
                    push_str(&mut helpers, "Factory<'R>(f: ");
                    push_str(&mut helpers, c.name.as_str());
                    push_str(&mut helpers, " -> 'R) =");
                    push_str(&mut helpers, parts.factory_members.as_str());
                }
                let ghost mid = helpers@;
                if opts.enable_handler {
                    push_str(&mut helpers, "\ntype ");
                    push_str(&mut helpers, c.name.as_str());
                    push_str(&mut helpers, "Handler<'R> =");
                    push_str(&mut helpers, parts.handler_members.as_str());
                    push_str(&mut helpers, "\nlet apply");
                    push_str(&mut helpers, c.name.as_str());
                    push_str(&mut helpers, " (handler: ");
                    push_str(&mut helpers, c.name.as_str());
                    push_str(&mut helpers, "Handler<'R>) (value: ");
                    push_str(&mut helpers, c.name.as_str());
                    push_str(&mut helpers, ") : 'R =\n  match value with");
                    push_str(&mut helpers, parts.apply_arms.as_str());
                }
                assert(diags@ =~= container_diags(*c));
                assert(helpers@ =~= helpers_text(*c, *opts));
            }
        },
    }
    assert(decl@ =~= declaration_text(*c));
    if diags.len() > 0 {
        return Err(diags);
    }
    let mut out = patch(decl.as_str());
    push_str(&mut out, helpers.as_str());
    assert(helpers@ =~= helpers_text(*c, *opts));
    Ok(out)
}

} // verus!
