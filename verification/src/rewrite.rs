//! The mathematical definition of the rewrite.
//!
//! Each function here says, over the ghost model, what the traversal
//! produces for one node kind: a marked node is returned untouched, a
//! scope pushes its name component around its children, and a function-like
//! leaf gets one guard statement, named after the whole stack, prepended to
//! its body.  The executable rewriter is proved against these functions
//! clause for clause.

use vstd::prelude::*;

use crate::ast::{
    FnModel, ImplItemModel, ImplModel, ItemModel, MethodModel, ModModel, SelfTypeModel, StmtModel,
    TraitItemModel, TraitMethodModel, TraitModel,
};
use crate::naming::{spec_has_marker, spec_impl_component, spec_join};

verus! {

/// The body of an instrumented function: one guard statement carrying the
/// qualified name `stack` + `ident`, then the body's statements, themselves
/// rewritten under `stack` (without `ident`: a nested item is named from
/// the scope around the function, not from the function itself).
pub open spec fn rw_body(stack: Seq<Seq<char>>, ident: Seq<char>, stmts: Seq<StmtModel>) -> Seq<
    StmtModel,
>
    decreases stmts, 1int,
{
    seq![StmtModel::Guard { name: spec_join(stack.push(ident)) }] + rw_stmts(stack, stmts)
}

pub open spec fn rw_stmt(stack: Seq<Seq<char>>, s: StmtModel) -> StmtModel
    decreases s,
{
    match s {
        StmtModel::Guard { .. } => s,
        StmtModel::Nested { item } => StmtModel::Nested { item: rw_item(stack, item) },
        StmtModel::Plain { .. } => s,
    }
}

pub open spec fn rw_stmts(stack: Seq<Seq<char>>, ss: Seq<StmtModel>) -> Seq<StmtModel>
    decreases ss, 0int,
{
    if ss.len() == 0 {
        Seq::empty()
    } else {
        rw_stmts(stack, ss.drop_last()).push(rw_stmt(stack, ss.last()))
    }
}

pub open spec fn rw_fn(stack: Seq<Seq<char>>, f: FnModel) -> FnModel
    decreases f,
{
    if spec_has_marker(f.attrs) {
        f
    } else {
        FnModel { stmts: rw_body(stack, f.ident, f.stmts), ..f }
    }
}

pub open spec fn rw_method(stack: Seq<Seq<char>>, m: MethodModel) -> MethodModel
    decreases m,
{
    if spec_has_marker(m.attrs) {
        m
    } else {
        MethodModel { stmts: rw_body(stack, m.ident, m.stmts), ..m }
    }
}

pub open spec fn rw_impl_item(stack: Seq<Seq<char>>, it: ImplItemModel) -> ImplItemModel
    decreases it,
{
    match it {
        ImplItemModel::Method { method } => ImplItemModel::Method {
            method: rw_method(stack, method),
        },
        ImplItemModel::Opaque { .. } => it,
    }
}

pub open spec fn rw_impl_items(stack: Seq<Seq<char>>, its: Seq<ImplItemModel>) -> Seq<
    ImplItemModel,
>
    decreases its,
{
    if its.len() == 0 {
        Seq::empty()
    } else {
        rw_impl_items(stack, its.drop_last()).push(rw_impl_item(stack, its.last()))
    }
}

/// The stack under which an implementation block's members are rewritten:
/// a path-shaped self type pushes the block's combined component, any other
/// self type leaves the stack as it is.
pub open spec fn impl_stack(stack: Seq<Seq<char>>, im: ImplModel) -> Seq<Seq<char>> {
    match im.self_ty {
        SelfTypeModel::Path { segments } => stack.push(
            spec_impl_component(segments, im.trait_path),
        ),
        SelfTypeModel::Opaque { .. } => stack,
    }
}

pub open spec fn rw_impl(stack: Seq<Seq<char>>, im: ImplModel) -> ImplModel
    decreases im,
{
    if spec_has_marker(im.attrs) {
        im
    } else {
        ImplModel { items: rw_impl_items(impl_stack(stack, im), im.items), ..im }
    }
}

pub open spec fn rw_trait_method(stack: Seq<Seq<char>>, m: TraitMethodModel) -> TraitMethodModel
    decreases m,
{
    if spec_has_marker(m.attrs) {
        m
    } else {
        TraitMethodModel {
            default_body: match m.default_body {
                Some(ss) => Some(rw_stmts(stack.push(m.ident), ss)),
                None => None,
            },
            ..m
        }
    }
}

pub open spec fn rw_trait_item(stack: Seq<Seq<char>>, it: TraitItemModel) -> TraitItemModel
    decreases it,
{
    match it {
        TraitItemModel::Method { method } => TraitItemModel::Method {
            method: rw_trait_method(stack, method),
        },
        TraitItemModel::Opaque { .. } => it,
    }
}

pub open spec fn rw_trait_items(stack: Seq<Seq<char>>, its: Seq<TraitItemModel>) -> Seq<
    TraitItemModel,
>
    decreases its,
{
    if its.len() == 0 {
        Seq::empty()
    } else {
        rw_trait_items(stack, its.drop_last()).push(rw_trait_item(stack, its.last()))
    }
}

pub open spec fn rw_trait(stack: Seq<Seq<char>>, t: TraitModel) -> TraitModel
    decreases t,
{
    if spec_has_marker(t.attrs) {
        t
    } else {
        TraitModel { items: rw_trait_items(stack.push(t.ident), t.items), ..t }
    }
}

pub open spec fn rw_mod(stack: Seq<Seq<char>>, m: ModModel) -> ModModel
    decreases m,
{
    if spec_has_marker(m.attrs) {
        m
    } else {
        ModModel { items: rw_items(stack.push(m.ident), m.items), ..m }
    }
}

/// Whether an item carries a recognized marker attribute on itself.
pub open spec fn marked_item(i: ItemModel) -> bool {
    match i {
        ItemModel::Mod { m } => spec_has_marker(m.attrs),
        ItemModel::Trait { t } => spec_has_marker(t.attrs),
        ItemModel::Impl { im } => spec_has_marker(im.attrs),
        ItemModel::Fn { f } => spec_has_marker(f.attrs),
        ItemModel::Opaque { .. } => false,
    }
}

pub open spec fn rw_item(stack: Seq<Seq<char>>, i: ItemModel) -> ItemModel
    decreases i,
{
    match i {
        ItemModel::Mod { m } => ItemModel::Mod { m: rw_mod(stack, m) },
        ItemModel::Trait { t } => ItemModel::Trait { t: rw_trait(stack, t) },
        ItemModel::Impl { im } => ItemModel::Impl { im: rw_impl(stack, im) },
        ItemModel::Fn { f } => ItemModel::Fn { f: rw_fn(stack, f) },
        ItemModel::Opaque { .. } => i,
    }
}

pub open spec fn rw_items(stack: Seq<Seq<char>>, is: Seq<ItemModel>) -> Seq<ItemModel>
    decreases is,
{
    if is.len() == 0 {
        Seq::empty()
    } else {
        rw_items(stack, is.drop_last()).push(rw_item(stack, is.last()))
    }
}

} // verus!
