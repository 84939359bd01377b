//! Field lists: which fields are kept, and their renderings as records and tuples.

use vstd::prelude::*;
use crate::mapping::{field_diags, field_text, field_to_fs};
use crate::model::{Context, Diagnostic, Field};
use crate::text::{owned, push_str};

verus! {

/// The fields that `s` refers to.
pub open spec fn fields_of(s: Seq<&Field>) -> Seq<Field> {
    s.map_values(|f: &Field| *f)
}

/// The fields of `fs` that are not skipped, in order.
pub open spec fn retained_fields(fs: Seq<Field>) -> Seq<Field>
    decreases fs.len(),
{
    if fs.len() == 0 {
        Seq::empty()
    } else if fs.last().skip {
        retained_fields(fs.drop_last())
    } else {
        retained_fields(fs.drop_last()).push(fs.last())
    }
}

/// The renderings of the first `n` of `fs`, joined by the product sign.
pub open spec fn tuple_fields_text(fs: Seq<Field>, n: int) -> Seq<char>
    decreases n,
{
    if n <= 0 || n > fs.len() {
        Seq::empty()
    } else if n == 1 {
        field_text(fs[0])
    } else {
        tuple_fields_text(fs, n - 1) + " * "@ + field_text(fs[n - 1])
    }
}

/// One entry of a record literal.
pub open spec fn entry_text(f: Field) -> Seq<char> {
    f.name@ + ": "@ + field_text(f)
}

/// The entries of the first `n` of `fs`, joined by semicolons.
pub open spec fn record_entries(fs: Seq<Field>, n: int) -> Seq<char>
    decreases n,
{
    if n <= 0 || n > fs.len() {
        Seq::empty()
    } else if n == 1 {
        entry_text(fs[0])
    } else {
        record_entries(fs, n - 1) + "; "@ + entry_text(fs[n - 1])
    }
}

/// The record literal of the fields `fs`.
pub open spec fn record_text(fs: Seq<Field>) -> Seq<char> {
    "{ "@ + record_entries(fs, fs.len() as int) + " }"@
}

/// The diagnostics of rendering the first `n` of `fs`, in order.
pub open spec fn fields_diags(fs: Seq<Field>, n: int, ctx: Context) -> Seq<Diagnostic>
    decreases n,
{
    if n <= 0 || n > fs.len() {
        Seq::empty()
    } else {
        fields_diags(fs, n - 1, ctx) + field_diags(fs[n - 1], ctx)
    }
}

/// The fields of `fs` that are not skipped, in order.
pub fn filter_visible(fs: &Vec<Field>) -> (r: Vec<&Field>)
    ensures
        fields_of(r@) == retained_fields(fs@),
{
    let mut r: Vec<&Field> = Vec::new();
    let mut i: usize = 0;
    while i < fs.len()
        invariant
            i <= fs@.len(),
            fields_of(r@) == retained_fields(fs@.subrange(0, i as int)),
        decreases fs@.len() - i,
    {
        assert(fs@.subrange(0, i + 1).drop_last() =~= fs@.subrange(0, i as int));
        let ghost before = r@;
        if !fs[i].skip {
            r.push(&fs[i]);
            assert(fields_of(r@) =~= fields_of(before).push(fs@[i as int]));
        }
        i = i + 1;
    }
    assert(fs@.subrange(0, fs@.len() as int) =~= fs@);
    r
}

/// Renders the fields `fs` as a product type, and records their diagnostics.
pub fn derive_field_tuple(fs: &Vec<&Field>, ctx: &Context, diags: &mut Vec<Diagnostic>) -> (r:
    String)
    ensures
        r@ == tuple_fields_text(fields_of(fs@), fs@.len() as int),
        final(diags)@ == old(diags)@ + fields_diags(fields_of(fs@), fs@.len() as int, *ctx),
{
    let mut out = String::new();
    let mut i: usize = 0;
    while i < fs.len()
        invariant
            i <= fs@.len(),
            out@ == tuple_fields_text(fields_of(fs@), i as int),
            diags@ == old(diags)@ + fields_diags(fields_of(fs@), i as int, *ctx),
        decreases fs@.len() - i,
    {
        let t = field_to_fs(fs[i], ctx, diags);
        if i > 0 {
            push_str(&mut out, " * ");
        }
        push_str(&mut out, t.as_str());
        proof {
            if i == 0 {
                assert(out@ =~= tuple_fields_text(fields_of(fs@), 1));
            } else {
                assert(out@ =~= tuple_fields_text(fields_of(fs@), i + 1));
            }
            assert(diags@ =~= old(diags)@ + fields_diags(fields_of(fs@), i + 1, *ctx));
        }
        i = i + 1;
    }
    out
}

/// Renders the fields `fs` as a record literal, and records their diagnostics.
pub fn derive_fields(fs: &Vec<&Field>, ctx: &Context, diags: &mut Vec<Diagnostic>) -> (r:
    String)
    ensures
        r@ == record_text(fields_of(fs@)),
        final(diags)@ == old(diags)@ + fields_diags(fields_of(fs@), fs@.len() as int, *ctx),
{
    let mut out = owned("{ ");
    let mut i: usize = 0;
    while i < fs.len()
        invariant
            i <= fs@.len(),
            out@ == "{ "@ + record_entries(fields_of(fs@), i as int),
            diags@ == old(diags)@ + fields_diags(fields_of(fs@), i as int, *ctx),
        decreases fs@.len() - i,
    {
        let t = field_to_fs(fs[i], ctx, diags);
        if i > 0 {
            push_str(&mut out, "; ");
        }
        push_str(&mut out, fs[i].name.as_str());
        push_str(&mut out, ": ");
        push_str(&mut out, t.as_str());
        proof {
            if i == 0 {
                assert(out@ =~= "{ "@ + record_entries(fields_of(fs@), 1));
            } else {
                assert(out@ =~= "{ "@ + record_entries(fields_of(fs@), i + 1));
            }
            assert(diags@ =~= old(diags)@ + fields_diags(fields_of(fs@), i + 1, *ctx));
        }
        i = i + 1;
    }
    push_str(&mut out, " }");
    out
}

} // verus!
