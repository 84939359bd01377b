//! Properties that hold of every rendering.

use vstd::prelude::*;
use crate::helpers::{apply_arm, factory_member, handler_member};
use crate::mapping::field_text;
use crate::model::{Body, Container, Diagnostic, DiagnosticKind, Field, Primitive, Style, TypeDescriptor, Variant};
use crate::output::{container_diags, header, output_text, Options, struct_body};
use crate::patch::patched;
use crate::records::{entry_text, retained_fields};
use crate::tagging::{all_unit, strategy_of, TagStrategy};
use crate::variants::{alias_text, clause_text, enum_cases, payload_diags, retained_variants};

verus! {

/// Inserting a skipped field anywhere leaves the kept fields as they were.
pub proof fn skipped_field_is_dropped(fs: Seq<Field>, k: int, f: Field)
    requires
        0 <= k <= fs.len(),
        f.skip,
    ensures
        retained_fields(fs.insert(k, f)) == retained_fields(fs),
    decreases fs.len(),
{
    if k == fs.len() {
        assert(fs.insert(k, f).drop_last() =~= fs);
    } else {
        let g = fs.insert(k, f);
        assert(g.drop_last() =~= fs.drop_last().insert(k, f));
        assert(g.last() == fs.last());
        skipped_field_is_dropped(fs.drop_last(), k, f);
    }
}

/// Inserting a skipped variant anywhere leaves the kept variants as they were.
pub proof fn skipped_variant_is_dropped(vs: Seq<Variant>, k: int, v: Variant)
    requires
        0 <= k <= vs.len(),
        v.skip,
    ensures
        retained_variants(vs.insert(k, v)) == retained_variants(vs),
    decreases vs.len(),
{
    if k == vs.len() {
        assert(vs.insert(k, v).drop_last() =~= vs);
    } else {
        let g = vs.insert(k, v);
        assert(g.drop_last() =~= vs.drop_last().insert(k, v));
        assert(g.last() == vs.last());
        skipped_variant_is_dropped(vs.drop_last(), k, v);
    }
}

/// A skipped variant is absent from the rendering of a union: the declaration, the factory,
/// the handler, and the ordinals of an enumeration are those of the union without it.
pub proof fn skipped_variant_is_invisible(c1: Container, c2: Container, k: int, v: Variant, opts: Options)
    requires
        c1.name == c2.name,
        c1.doc == c2.doc,
        c1.body matches Body::Enum { variants: v1, tagging: t1 } && c2.body matches Body::Enum {
            variants: v2,
            tagging: t2,
        } && t1 == t2 && 0 <= k <= v1@.len() && v2@ == v1@.insert(k, v),
        v.skip,
    ensures
        output_text(c1, opts) == output_text(c2, opts),
        container_diags(c1) == container_diags(c2),
{
    skipped_variant_is_dropped(c1.body->Enum_variants@, k, v);
}

/// A skipped field is absent from the rendering of a record-like container.
pub proof fn skipped_field_is_invisible(c1: Container, c2: Container, k: int, f: Field, opts: Options)
    requires
        c1.name == c2.name,
        c1.doc == c2.doc,
        c1.body matches Body::Struct { style: s1, fields: f1, transparent: t1 }
            && c2.body matches Body::Struct { style: s2, fields: f2, transparent: t2 } && s1 == s2
            && t1 == t2 && 0 <= k <= f1@.len() && f2@ == f1@.insert(k, f),
        f.skip,
    ensures
        output_text(c1, opts) == output_text(c2, opts),
        container_diags(c1) == container_diags(c2),
{
    skipped_field_is_dropped(c1.body->Struct_fields@, k, f);
}

/// A skipped field of a variant is absent from the variant's clause, its hoisted alias,
/// its factory member and its handler method.
pub proof fn skipped_variant_field_is_invisible(
    container: Seq<char>,
    name: String,
    v1: Variant,
    v2: Variant,
    k: int,
    f: Field,
)
    requires
        v1.name == v2.name,
        v1.doc == v2.doc,
        v1.skip == v2.skip,
        v1.style == v2.style,
        0 <= k <= v1.fields@.len(),
        v2.fields@ == v1.fields@.insert(k, f),
        f.skip,
    ensures
        clause_text(container, v1) == clause_text(container, v2),
        alias_text(container, v1) == alias_text(container, v2),
        payload_diags(v1, name) == payload_diags(v2, name),
        handler_member(container, v1) == handler_member(container, v2),
        apply_arm(v1) == apply_arm(v2),
        factory_member(container, v1) == factory_member(container, v2),
{
    skipped_field_is_dropped(v1.fields@, k, f);
}

/// An untagged or externally tagged union whose kept variants are all unit-style renders as
/// a plain enumeration: its cases are the kept variants in source order, the one at position
/// `i` valued `i`, and no helpers follow it.
pub proof fn plain_enumeration_ordinals(c: Container, opts: Options)
    requires
        c.body matches Body::Enum { variants, tagging } && (strategy_of(tagging) == Some(
            TagStrategy::External,
        ) || strategy_of(tagging) == Some(TagStrategy::Untagged)) && all_unit(
            retained_variants(variants@),
        ),
    ensures
        container_diags(c).len() == 0,
        ({
            let vs = retained_variants(c.body->Enum_variants@);
            output_text(c, opts) == patched(
                header(c.name@, c.doc@) + " ="@ + enum_cases(vs, vs.len() as int),
            )
        }),
{
    let vs = retained_variants(c.body->Enum_variants@);
    assert(output_text(c, opts) =~= patched(
        header(c.name@, c.doc@) + " ="@ + enum_cases(vs, vs.len() as int),
    ));
}

/// A record with exactly one kept field, marked transparent, renders as a newtype over that
/// field does.
pub proof fn transparent_record_is_newtype(c1: Container, c2: Container, opts: Options)
    requires
        c1.name == c2.name,
        c1.doc == c2.doc,
        c1.body matches Body::Struct { style: s1, fields: f1, transparent: t1 } && (s1
            == Style::Struct || s1 == Style::Tuple) && t1 && retained_fields(f1@).len() == 1,
        c2.body matches Body::Struct { style: s2, fields: f2, .. } && s2 == Style::Newtype
            && retained_fields(f2@) == retained_fields(c1.body->Struct_fields@),
    ensures
        output_text(c1, opts) == output_text(c2, opts),
        container_diags(c1) == container_diags(c2),
{
}

/// A list of bytes in a byte-buffer field renders as a string, in a record entry, a tuple
/// element, a newtype and a union payload alike, since all of them render the field by
/// `field_text`.
pub proof fn byte_buffer_is_string(f: Field)
    requires
        f.is_byte_buffer,
        f.type_override is None,
        f.ty == TypeDescriptor::ListLike(Box::new(TypeDescriptor::Primitive(Primitive::U8))),
    ensures
        field_text(f) == "string"@,
        entry_text(f) == f.name@ + ": "@ + "string"@,
        !f.skip ==> struct_body(Style::Newtype, seq![f], false) == "string"@,
{
    if !f.skip {
        let one = seq![f];
        assert(one.drop_last() =~= Seq::<Field>::empty());
        assert(one.last() == f);
        assert(retained_fields(one.drop_last()) == Seq::<Field>::empty());
        assert(retained_fields(one) =~= one);
    }
}

/// The text rendered for one container is one value: two renderings of the same container
/// with the same options agree, in their text or in their diagnostics.
pub proof fn rendering_is_deterministic(
    c: Container,
    opts: Options,
    r1: Result<String, Vec<Diagnostic>>,
    r2: Result<String, Vec<Diagnostic>>,
)
    requires
        r1 is Ok <==> container_diags(c).len() == 0,
        r1 matches Ok(t) ==> t@ == output_text(c, opts),
        r1 matches Err(d) ==> d@ == container_diags(c),
        r2 is Ok <==> container_diags(c).len() == 0,
        r2 matches Ok(t) ==> t@ == output_text(c, opts),
        r2 matches Err(d) ==> d@ == container_diags(c),
    ensures
        r1 is Ok <==> r2 is Ok,
        r1 matches Ok(t1) ==> r2 matches Ok(t2) && t1@ == t2@,
        r1 matches Err(d1) ==> r2 matches Err(d2) && d1@ == d2@,
{
}

/// A union whose configuration sets a content key but no tag is refused with one
/// configuration diagnostic naming it, and no text.
pub proof fn content_without_tag_is_refused(c: Container)
    requires
        c.body matches Body::Enum { tagging, .. } && tagging.tag is None && tagging.content is Some,
    ensures
        container_diags(c) == seq![
            Diagnostic {
                container: c.name,
                variant: None,
                field: None,
                kind: DiagnosticKind::Configuration,
            },
        ],
{
}

} // verus!
