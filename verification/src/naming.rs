//! Marker recognition and qualified-name composition.
//!
//! An attribute opts a node out of instrumentation when its path is one of
//! the recognized marker names, written bare or qualified by this tool's own
//! name.  Qualified names are built by joining the name stack's components
//! with `::`.

use vstd::prelude::*;
use vstd::string::StringExecFns;

use crate::ast::{Attr, AttrModel, PathModel, SelfType, SelfTypeModel, view_attrs};

verus! {

/// Holds exactly when `p` is the path of a recognized marker attribute:
/// `timing` or `notiming`, bare or prefixed with `screeps_timing_annotate`.
pub open spec fn spec_marker_path(p: PathModel) -> bool {
    ||| (p.len() == 1 && (p[0] == "timing"@ || p[0] == "notiming"@))
    ||| (p.len() == 2 && p[0] == "screeps_timing_annotate"@ && (p[1] == "timing"@ || p[1]
        == "notiming"@))
}

/// Holds exactly when some attribute in the list is a recognized marker.
pub open spec fn spec_has_marker(attrs: Seq<AttrModel>) -> bool {
    exists|k: int| 0 <= k < attrs.len() && spec_marker_path(#[trigger] attrs[k].path)
}

/// The components of `parts` joined with `::`; empty when `parts` is empty.
pub open spec fn spec_join(parts: Seq<Seq<char>>) -> Seq<char>
    decreases parts.len(),
{
    if parts.len() == 0 {
        Seq::empty()
    } else if parts.len() == 1 {
        parts[0]
    } else {
        spec_join(parts.drop_last()) + "::"@ + parts.last()
    }
}

/// The single name-stack component an implementation block contributes:
/// the self type's path for an inherent implementation, and
/// `<type-path> as <trait-path>` for a trait implementation.
pub open spec fn spec_impl_component(type_path: PathModel, trait_path: Option<PathModel>) -> Seq<
    char,
> {
    match trait_path {
        Some(tp) => spec_join(type_path) + " as "@ + spec_join(tp),
        None => spec_join(type_path),
    }
}

fn str_eq(s: &String, lit: &str) -> (r: bool)
    ensures
        r == (s@ == lit@),
{
    let owned: String = lit.to_owned();
    *s == owned
}

/// Decides whether one attribute is a recognized marker.
pub fn is_marker_attr(a: &Attr) -> (r: bool)
    ensures
        r == spec_marker_path(a@.path),
{
    proof {
        assert(a@.path.len() == a.path@.len());
        assert(forall|k: int|
            0 <= k < a.path@.len() ==> a@.path[k] == #[trigger] a.path@[k]@);
    }
    if a.path.len() == 1 {
        str_eq(&a.path[0], "timing") || str_eq(&a.path[0], "notiming")
    } else if a.path.len() == 2 {
        str_eq(&a.path[0], "screeps_timing_annotate") && (str_eq(&a.path[1], "timing") || str_eq(
            &a.path[1],
            "notiming",
        ))
    } else {
        false
    }
}

/// Decides whether the attribute list carries a recognized marker.
#[verifier::loop_isolation(false)]
pub fn has_marker(attrs: &Vec<Attr>) -> (r: bool)
    ensures
        r == spec_has_marker(view_attrs(attrs@)),
{
    let ghost model = view_attrs(attrs@);
    proof {
        assert(model.len() == attrs@.len());
        assert(forall|k: int| 0 <= k < attrs@.len() ==> #[trigger] model[k] == attrs@[k]@);
    }
    let mut k: usize = 0;
    while k < attrs.len()
        invariant
            k <= attrs.len(),
            forall|j: int| 0 <= j < k ==> !spec_marker_path(#[trigger] model[j].path),
        decreases attrs.len() - k,
    {
        if is_marker_attr(&attrs[k]) {
            proof {
                assert(spec_marker_path(model[k as int].path));
            }
            return true;
        }
        k += 1;
    }
    false
}

/// Joins path components with `::`.
#[verifier::loop_isolation(false)]
pub fn join_components(parts: &Vec<String>) -> (r: String)
    ensures
        r@ == spec_join(parts.deep_view()),
{
    let ghost model = parts.deep_view();
    proof {
        assert(model.len() == parts@.len());
        assert(forall|k: int| 0 <= k < parts@.len() ==> #[trigger] model[k] == parts@[k]@);
    }
    let mut out = String::new();
    let mut k: usize = 0;
    while k < parts.len()
        invariant
            k <= parts.len(),
            out@ == spec_join(model.subrange(0, k as int)),
        decreases parts.len() - k,
    {
        let ghost pre = model.subrange(0, k as int);
        if k > 0 {
            out.append("::");
        }
        out.append(parts[k].as_str());
        proof {
            let post = model.subrange(0, k as int + 1);
            assert(post.drop_last() =~= pre);
            assert(post.last() == model[k as int]);
            if k == 0 {
                assert(out@ =~= model[0]);
                assert(post =~= seq![model[0]]);
            }
        }
        k += 1;
    }
    proof {
        assert(model.subrange(0, model.len() as int) =~= model);
    }
    out
}

/// Renders an implementation block's self type as a joined path, for the
/// path-shaped subset of type syntax only; every other shape yields `None`.
pub fn render_path(t: &SelfType) -> (r: Option<String>)
    ensures
        match t@ {
            SelfTypeModel::Path { segments } => r is Some && r->0@ == spec_join(segments),
            SelfTypeModel::Opaque { .. } => r is None,
        },
{
    match t {
        SelfType::Path(segments) => Some(join_components(segments)),
        SelfType::Opaque(_) => None,
    }
}

} // verus!
