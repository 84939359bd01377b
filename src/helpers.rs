//! Value-level helpers for unions: a factory over a callback, and a handler interface with
//! the function that applies it.

use vstd::prelude::*;
use crate::model::Variant;
use crate::text::{owned, push_str};
use crate::variants::{has_payload, payload_name};

verus! {

/// The handler method for `v`.
pub open spec fn handler_member(container: Seq<char>, v: Variant) -> Seq<char> {
    "\n  abstract "@ + v.name@ + ": "@ + (if has_payload(v) {
        payload_name(container, v)
    } else {
        "unit"@
    }) + " -> 'R"@
}

/// The arm of the apply function that routes `v` to its handler method.
pub open spec fn apply_arm(v: Variant) -> Seq<char> {
    "\n  | "@ + v.name@ + if has_payload(v) {
        " content -> handler."@ + v.name@ + " content"@
    } else {
        " -> handler."@ + v.name@ + " ()"@
    }
}

/// The factory member that builds `v` and hands it to the callback.
pub open spec fn factory_member(container: Seq<char>, v: Variant) -> Seq<char> {
    "\n  member _."@ + v.name@ + if has_payload(v) {
        "(content: "@ + payload_name(container, v) + ") = f ("@ + v.name@ + " content)"@
    } else {
        "() = f "@ + v.name@
    }
}

/// The handler methods of the first `n` of `vs`.
pub open spec fn handler_members(container: Seq<char>, vs: Seq<Variant>, n: int) -> Seq<char>
    decreases n,
{
    if n <= 0 || n > vs.len() {
        Seq::empty()
    } else {
        handler_members(container, vs, n - 1) + handler_member(container, vs[n - 1])
    }
}

/// The apply arms of the first `n` of `vs`.
pub open spec fn apply_arms(vs: Seq<Variant>, n: int) -> Seq<char>
    decreases n,
{
    if n <= 0 || n > vs.len() {
        Seq::empty()
    } else {
        apply_arms(vs, n - 1) + apply_arm(vs[n - 1])
    }
}

/// The factory members of the first `n` of `vs`.
pub open spec fn factory_members(container: Seq<char>, vs: Seq<Variant>, n: int) -> Seq<char>
    decreases n,
{
    if n <= 0 || n > vs.len() {
        Seq::empty()
    } else {
        factory_members(container, vs, n - 1) + factory_member(container, vs[n - 1])
    }
}

/// The factory of union `container` with kept variants `vs`.
pub open spec fn factory_text(container: Seq<char>, vs: Seq<Variant>) -> Seq<char> {
    "\ntype "@ + container + "Factory<'R>(f: "@ + container + " -> 'R) ="@ + factory_members(
        container,
        vs,
        vs.len() as int,
    )
}

/// The handler interface of union `container` with kept variants `vs`, and its apply function.
pub open spec fn handler_text(container: Seq<char>, vs: Seq<Variant>) -> Seq<char> {
    "\ntype "@ + container + "Handler<'R> ="@ + handler_members(container, vs, vs.len() as int)
        + "\nlet apply"@ + container + " (handler: "@ + container + "Handler<'R>) (value: "@
        + container + ") : 'R =\n  match value with"@ + apply_arms(vs, vs.len() as int)
}

/// The helper pieces of variant `v`, given the name of its payload type where it has one.
pub fn helper_parts(container: &String, v: &Variant, payload: &Option<String>) -> (r: (
    String,
    String,
    String,
))
    requires
        payload is Some <==> has_payload(*v),
        payload matches Some(t) ==> t@ == payload_name(container@, *v),
    ensures
        r.0@ == handler_member(container@, *v),
        r.1@ == apply_arm(*v),
        r.2@ == factory_member(container@, *v),
{
    let name = v.name.as_str();
    let mut member = owned("\n  abstract ");
    push_str(&mut member, name);
    push_str(&mut member, ": ");
    let mut arm = owned("\n  | ");
    push_str(&mut arm, name);
    let mut factory = owned("\n  member _.");
    push_str(&mut factory, name);
    match payload {
        Some(t) => {
            push_str(&mut member, t.as_str());
            push_str(&mut arm, " content -> handler.");
            push_str(&mut arm, name);
            push_str(&mut arm, " content");
            push_str(&mut factory, "(content: ");
            push_str(&mut factory, t.as_str());
            push_str(&mut factory, ") = f (");
            push_str(&mut factory, name);
            push_str(&mut factory, " content)");
        },
        None => {
            push_str(&mut member, "unit");
            push_str(&mut arm, " -> handler.");
            push_str(&mut arm, name);
            push_str(&mut arm, " ()");
            push_str(&mut factory, "() = f ");
            push_str(&mut factory, name);
        },
    }
    push_str(&mut member, " -> 'R");
    assert(member@ =~= handler_member(container@, *v));
    assert(arm@ =~= apply_arm(*v));
    assert(factory@ =~= factory_member(container@, *v));
    (member, arm, factory)
}

} // verus!
