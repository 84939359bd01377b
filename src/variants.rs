//! The rendering of union variants: their clauses, hoisted payloads and enumeration cases.

use vstd::prelude::*;
use vstd::string::*;
use crate::mapping::{field_diags, field_text, field_to_fs};
use crate::model::{Context, Diagnostic, Style, Variant};
use crate::records::{
    derive_field_tuple, derive_fields, fields_diags, fields_of, filter_visible, record_text,
    retained_fields, tuple_fields_text,
};
use crate::source_builder::{default_indent, SourceBuilder};
use crate::helpers::{apply_arms, factory_members, handler_members, helper_parts};
use crate::text::{decimal_text, nl, owned, push_str, reindent};

verus! {

/// The variants that `s` refers to.
pub open spec fn variants_of(s: Seq<&Variant>) -> Seq<Variant> {
    s.map_values(|v: &Variant| *v)
}

/// The variants of `vs` that are not skipped, in order.
pub open spec fn retained_variants(vs: Seq<Variant>) -> Seq<Variant>
    decreases vs.len(),
{
    if vs.len() == 0 {
        Seq::empty()
    } else if vs.last().skip {
        retained_variants(vs.drop_last())
    } else {
        retained_variants(vs.drop_last()).push(vs.last())
    }
}

/// Doc-comment lines for `doc`, each after a line break; nothing for an empty doc.
pub open spec fn doc_lines(doc: Seq<char>) -> Seq<char> {
    if doc.len() == 0 {
        Seq::empty()
    } else {
        nl() + "/// "@ + reindent(doc, "/// "@)
    }
}

/// Whether variant `v` carries a payload: it is not unit-style and keeps a field.
pub open spec fn has_payload(v: Variant) -> bool {
    v.style != Style::Unit && retained_fields(v.fields@).len() > 0
}

/// Whether the payload of `v` is hoisted into an alias of its own (tuples and records).
pub open spec fn is_hoisted(v: Variant) -> bool {
    has_payload(v) && v.style != Style::Newtype
}

/// The payload type of `v`, where it has one.
pub open spec fn payload_text(v: Variant) -> Seq<char> {
    let rf = retained_fields(v.fields@);
    if v.style == Style::Newtype {
        field_text(rf[0])
    } else if v.style == Style::Tuple {
        tuple_fields_text(rf, rf.len() as int)
    } else {
        record_text(rf)
    }
}

/// The context of the fields of variant `v` of `container`.
pub open spec fn variant_context(container: String, v: Variant) -> Context {
    Context { container, variant: Some(v.name) }
}

/// The diagnostics of rendering the payload of `v`.
pub open spec fn payload_diags(v: Variant, container: String) -> Seq<Diagnostic> {
    let rf = retained_fields(v.fields@);
    let ctx = variant_context(container, v);
    if !has_payload(v) {
        Seq::empty()
    } else if v.style == Style::Newtype {
        field_diags(rf[0], ctx)
    } else {
        fields_diags(rf, rf.len() as int, ctx)
    }
}

/// The type that the clause of `v` names: its alias where hoisted, else the payload itself.
pub open spec fn payload_name(container: Seq<char>, v: Variant) -> Seq<char> {
    if is_hoisted(v) {
        container + v.name@
    } else {
        payload_text(v)
    }
}

/// The clause of `v` in the union declaration.
pub open spec fn clause_text(container: Seq<char>, v: Variant) -> Seq<char> {
    doc_lines(v.doc@) + nl() + "| "@ + v.name@ + if has_payload(v) {
        " of "@ + payload_name(container, v)
    } else {
        Seq::empty()
    }
}

/// The alias declaration that `v` hoists, or nothing.
pub open spec fn alias_text(container: Seq<char>, v: Variant) -> Seq<char> {
    if is_hoisted(v) {
        "type "@ + container + v.name@ + " = "@ + payload_text(v) + nl()
    } else {
        Seq::empty()
    }
}

/// The alias declarations of the first `n` of `vs`.
pub open spec fn union_aliases(container: Seq<char>, vs: Seq<Variant>, n: int) -> Seq<char>
    decreases n,
{
    if n <= 0 || n > vs.len() {
        Seq::empty()
    } else {
        union_aliases(container, vs, n - 1) + alias_text(container, vs[n - 1])
    }
}

/// The clauses of the first `n` of `vs`, one indentation level in.
pub open spec fn union_cases(container: Seq<char>, vs: Seq<Variant>, n: int) -> Seq<char>
    decreases n,
{
    if n <= 0 || n > vs.len() {
        Seq::empty()
    } else {
        union_cases(container, vs, n - 1) + reindent(
            clause_text(container, vs[n - 1]),
            default_indent(),
        )
    }
}

/// The diagnostics of the payloads of the first `n` of `vs`.
pub open spec fn union_diags(vs: Seq<Variant>, n: int, container: String) -> Seq<Diagnostic>
    decreases n,
{
    if n <= 0 || n > vs.len() {
        Seq::empty()
    } else {
        union_diags(vs, n - 1, container) + payload_diags(vs[n - 1], container)
    }
}

/// The case of `v` in a plain enumeration, with ordinal value `i`.
pub open spec fn enum_case_text(v: Variant, i: nat) -> Seq<char> {
    doc_lines(v.doc@) + nl() + "| "@ + v.name@ + " = "@ + decimal_text(i)
}

/// The cases of the first `n` of `vs`, each valued by its position, one indentation level in.
pub open spec fn enum_cases(vs: Seq<Variant>, n: int) -> Seq<char>
    decreases n,
{
    if n <= 0 || n > vs.len() {
        Seq::empty()
    } else {
        enum_cases(vs, n - 1) + reindent(
            enum_case_text(vs[n - 1], (n - 1) as nat),
            default_indent(),
        )
    }
}

/// The rendered pieces of a union.
pub struct UnionParts {
    /// The hoisted alias declarations.
    pub aliases: String,
    /// The clauses, one indentation level in.
    pub cases: SourceBuilder,
    pub handler_members: String,
    pub apply_arms: String,
    pub factory_members: String,
}

/// The variants of `vs` that are not skipped, in order.
pub fn filter_variants(vs: &Vec<Variant>) -> (r: Vec<&Variant>)
    ensures
        variants_of(r@) == retained_variants(vs@),
{
    let mut r: Vec<&Variant> = Vec::new();
    let mut i: usize = 0;
    while i < vs.len()
        invariant
            i <= vs@.len(),
            variants_of(r@) == retained_variants(vs@.subrange(0, i as int)),
        decreases vs@.len() - i,
    {
        assert(vs@.subrange(0, i + 1).drop_last() =~= vs@.subrange(0, i as int));
        let ghost before = r@;
        if !vs[i].skip {
            r.push(&vs[i]);
            assert(variants_of(r@) =~= variants_of(before).push(vs@[i as int]));
        }
        i = i + 1;
    }
    assert(vs@.subrange(0, vs@.len() as int) =~= vs@);
    r
}

/// Appends the doc-comment lines of `doc` to `src`.
pub fn push_doc(src: &mut SourceBuilder, doc: &String)
    ensures
        final(src)@ == (old(src)@.0, old(src)@.1 + doc_lines(doc@)),
{
    if doc.unicode_len() == 0 {
        assert(src@.1 =~= old(src)@.1 + doc_lines(doc@));
        return;
    }
    let mut lines = SourceBuilder::new(owned("/// "));
    lines.ln_push("/// ");
    let mut body = lines.new_with_same_settings();
    body.push(doc.as_str());
    lines.push_source_1(body);
    src.push_source(lines);
    assert(src@.1 =~= old(src)@.1 + doc_lines(doc@));
}

/// Renders the payload type of `v`, if it has one, and records its diagnostics.
pub fn derive_payload(v: &Variant, container: &String, diags: &mut Vec<Diagnostic>) -> (r: Option<
    String,
>)
    ensures
        r is Some <==> has_payload(*v),
        r matches Some(t) ==> t@ == payload_text(*v),
        final(diags)@ == old(diags)@ + payload_diags(*v, *container),
{
    if v.style == Style::Unit {
        assert(diags@ =~= old(diags)@ + payload_diags(*v, *container));
        return None;
    }
    let rf = filter_visible(&v.fields);
    if rf.len() == 0 {
        assert(diags@ =~= old(diags)@ + payload_diags(*v, *container));
        return None;
    }
    let ghost kept = fields_of(rf@);
    assert(rf@.len() == kept.len());
    let ctx = Context { container: container.clone(), variant: Some(v.name.clone()) };
    match v.style {
        Style::Newtype => {
            let t = field_to_fs(rf[0], &ctx, diags);
            Some(t)
        },
        Style::Tuple => {
            let t = derive_field_tuple(&rf, &ctx, diags);
            Some(t)
        },
        _ => {
            let t = derive_fields(&rf, &ctx, diags);
            Some(t)
        },
    }
}

/// Renders variant `v` of union `container`: its clause, the alias that it hoists, and the
/// name of its payload type where it has one.
pub fn derive_variant(container: &String, v: &Variant, diags: &mut Vec<Diagnostic>) -> (r: (
    SourceBuilder,
    String,
    Option<String>,
))
    ensures
        r.0@ == (default_indent(), clause_text(container@, *v)),
        r.1@ == alias_text(container@, *v),
        r.2 is Some <==> has_payload(*v),
        r.2 matches Some(t) ==> t@ == payload_name(container@, *v),
        final(diags)@ == old(diags)@ + payload_diags(*v, *container),
{
    let payload = derive_payload(v, container, diags);
    let mut src = SourceBuilder::default();
    push_doc(&mut src, &v.doc);
    src.ln_push("| ");
    src.push(v.name.as_str());
    let mut alias = String::new();
    let mut name: Option<String> = None;
    match payload {
        Some(t) => {
            src.push(" of ");
            if v.style == Style::Newtype {
                src.push(t.as_str());
                name = Some(t);
            } else {
                let mut hoisted = container.clone();
                push_str(&mut hoisted, v.name.as_str());
                src.push(hoisted.as_str());
                name = Some(hoisted);
                push_str(&mut alias, "type ");
                push_str(&mut alias, container.as_str());
                push_str(&mut alias, v.name.as_str());
                push_str(&mut alias, " = ");
                push_str(&mut alias, t.as_str());
                push_str(&mut alias, "\n");
                proof {
                    reveal_strlit("\n");
                }
            }
        },
        None => {},
    }
    assert(src@.1 =~= clause_text(container@, *v));
    assert(alias@ =~= alias_text(container@, *v));
    (src, alias, name)
}

/// Renders the kept variants `vs` of union `container`: the hoisted aliases, and the clauses.
pub fn derive_union(container: &String, vs: &Vec<&Variant>, diags: &mut Vec<Diagnostic>) -> (r:
    UnionParts)
    ensures
        r.aliases@ == union_aliases(container@, variants_of(vs@), vs@.len() as int),
        r.cases@ == (default_indent(), union_cases(container@, variants_of(vs@), vs@.len() as int)),
        r.handler_members@ == handler_members(container@, variants_of(vs@), vs@.len() as int),
        r.apply_arms@ == apply_arms(variants_of(vs@), vs@.len() as int),
        r.factory_members@ == factory_members(container@, variants_of(vs@), vs@.len() as int),
        final(diags)@ == old(diags)@ + union_diags(variants_of(vs@), vs@.len() as int, *container),
{
    let ghost all = variants_of(vs@);
    let mut aliases = String::new();
    let mut cases = SourceBuilder::default();
    let mut members = String::new();
    let mut arms = String::new();
    let mut factory = String::new();
    let mut i: usize = 0;
    while i < vs.len()
        invariant
            i <= vs@.len(),
            all == variants_of(vs@),
            members@ == handler_members(container@, all, i as int),
            arms@ == apply_arms(all, i as int),
            factory@ == factory_members(container@, all, i as int),
            aliases@ == union_aliases(container@, all, i as int),
            cases@ == (default_indent(), union_cases(container@, all, i as int)),
            diags@ == old(diags)@ + union_diags(all, i as int, *container),
        decreases vs@.len() - i,
    {
        let (clause, alias, name) = derive_variant(container, vs[i], diags);
        cases.push_source_1(clause);
        push_str(&mut aliases, alias.as_str());
        let (member, arm, make) = helper_parts(container, vs[i], &name);
        push_str(&mut members, member.as_str());
        push_str(&mut arms, arm.as_str());
        push_str(&mut factory, make.as_str());
        proof {
            assert(members@ =~= handler_members(container@, all, i + 1));
            assert(arms@ =~= apply_arms(all, i + 1));
            assert(factory@ =~= factory_members(container@, all, i + 1));
            assert(aliases@ =~= union_aliases(container@, all, i + 1));
            assert(cases@.1 =~= union_cases(container@, all, i + 1));
            assert(diags@ =~= old(diags)@ + union_diags(all, i + 1, *container));
        }
        i = i + 1;
    }
    UnionParts {
        aliases,
        cases,
        handler_members: members,
        apply_arms: arms,
        factory_members: factory,
    }
}

/// Renders the kept variants `vs` as the cases of a plain enumeration, valued by position.
pub fn derive_enum_cases(vs: &Vec<&Variant>) -> (r: SourceBuilder)
    ensures
        r@ == (default_indent(), enum_cases(variants_of(vs@), vs@.len() as int)),
{
    let ghost all = variants_of(vs@);
    let mut cases = SourceBuilder::default();
    let mut i: usize = 0;
    while i < vs.len()
        invariant
            i <= vs@.len(),
            all == variants_of(vs@),
            cases@ == (default_indent(), enum_cases(all, i as int)),
        decreases vs@.len() - i,
    {
        let mut case = SourceBuilder::default();
        push_doc(&mut case, &vs[i].doc);
        case.ln_push("| ");
        case.push(vs[i].name.as_str());
        case.push(" = ");
        let mut value = String::new();
        crate::text::push_decimal(&mut value, i);
        case.push(value.as_str());
        assert(case@.1 =~= enum_case_text(all[i as int], i as nat));
        cases.push_source_1(case);
        assert(cases@.1 =~= enum_cases(all, i + 1));
        i = i + 1;
    }
    cases
}

} // verus!
