//! The properties the rewrite keeps, stated and proved over the model.

use vstd::prelude::*;

use crate::ast::{
    FnModel, ImplItemModel, ImplModel, ItemModel, MethodModel, ModModel, PathModel, SelfTypeModel,
    StmtModel, TraitItemModel,
};
use crate::naming::{spec_has_marker, spec_join};
use crate::rewrite::{
    impl_stack, marked_item, rw_fn, rw_impl, rw_impl_item, rw_impl_items, rw_item, rw_items,
    rw_method, rw_mod, rw_stmt, rw_stmts,
};

verus! {

/// A node carrying a recognized marker is returned completely unchanged,
/// whatever the stack holds and however deep the node's own children go.
pub proof fn lemma_marked_item_unchanged(stack: Seq<Seq<char>>, i: ItemModel)
    requires
        marked_item(i),
    ensures
        rw_item(stack, i) == i,
{
}

/// Whether a guard statement occurs anywhere in a statement.
pub open spec fn guard_in_stmt(s: StmtModel) -> bool
    decreases s,
{
    match s {
        StmtModel::Guard { .. } => true,
        StmtModel::Nested { item } => guard_in_item(item),
        StmtModel::Plain { .. } => false,
    }
}

pub open spec fn guard_in_stmts(ss: Seq<StmtModel>) -> bool
    decreases ss,
{
    if ss.len() == 0 {
        false
    } else {
        guard_in_stmts(ss.drop_last()) || guard_in_stmt(ss.last())
    }
}

pub open spec fn guard_in_trait_item(it: TraitItemModel) -> bool
    decreases it,
{
    match it {
        TraitItemModel::Method { method } => match method.default_body {
            Some(ss) => guard_in_stmts(ss),
            None => false,
        },
        TraitItemModel::Opaque { .. } => false,
    }
}

pub open spec fn guard_in_trait_items(its: Seq<TraitItemModel>) -> bool
    decreases its,
{
    if its.len() == 0 {
        false
    } else {
        guard_in_trait_items(its.drop_last()) || guard_in_trait_item(its.last())
    }
}

pub open spec fn guard_in_impl_item(it: ImplItemModel) -> bool
    decreases it,
{
    match it {
        ImplItemModel::Method { method } => guard_in_stmts(method.stmts),
        ImplItemModel::Opaque { .. } => false,
    }
}

pub open spec fn guard_in_impl_items(its: Seq<ImplItemModel>) -> bool
    decreases its,
{
    if its.len() == 0 {
        false
    } else {
        guard_in_impl_items(its.drop_last()) || guard_in_impl_item(its.last())
    }
}

/// Whether a guard statement occurs anywhere inside an item.
pub open spec fn guard_in_item(i: ItemModel) -> bool
    decreases i,
{
    match i {
        ItemModel::Mod { m } => guard_in_items(m.items),
        ItemModel::Trait { t } => guard_in_trait_items(t.items),
        ItemModel::Impl { im } => guard_in_impl_items(im.items),
        ItemModel::Fn { f } => guard_in_stmts(f.stmts),
        ItemModel::Opaque { .. } => false,
    }
}

pub open spec fn guard_in_items(is: Seq<ItemModel>) -> bool
    decreases is,
{
    if is.len() == 0 {
        false
    } else {
        guard_in_items(is.drop_last()) || guard_in_item(is.last())
    }
}

/// A marked node suppresses instrumentation of its whole subtree: if no
/// guard stood anywhere inside it before, none stands inside afterwards.
pub proof fn lemma_marked_item_suppresses_subtree(stack: Seq<Seq<char>>, i: ItemModel)
    requires
        marked_item(i),
        !guard_in_item(i),
    ensures
        !guard_in_item(rw_item(stack, i)),
{
    lemma_marked_item_unchanged(stack, i);
}

/// Rewriting a statement list changes no length and touches each position
/// independently, in place: no reordering, no loss, no duplication.
pub proof fn lemma_rw_stmts_elementwise(stack: Seq<Seq<char>>, ss: Seq<StmtModel>)
    ensures
        rw_stmts(stack, ss).len() == ss.len(),
        forall|k: int|
            0 <= k < ss.len() ==> rw_stmts(stack, ss)[k] == rw_stmt(stack, #[trigger] ss[k]),
    decreases ss,
{
    if ss.len() > 0 {
        lemma_rw_stmts_elementwise(stack, ss.drop_last());
        assert forall|k: int| 0 <= k < ss.len() implies rw_stmts(stack, ss)[k] == rw_stmt(
            stack,
            #[trigger] ss[k],
        ) by {
            if k < ss.len() - 1 {
                assert(ss.drop_last()[k] == ss[k]);
                assert(rw_stmts(stack, ss)[k] == rw_stmts(stack, ss.drop_last())[k]);
            } else {
                assert(ss.last() == ss[k]);
            }
        }
    }
}

/// A statement that is not a nested item is left exactly as it was.
pub proof fn lemma_rw_stmt_plain_unchanged(stack: Seq<Seq<char>>, s: StmtModel)
    requires
        !(s is Nested),
    ensures
        rw_stmt(stack, s) == s,
{
}

/// The body of an instrumented function is exactly the guard statement,
/// named after the stack plus the function's identifier, followed by the
/// original statements in their original order; statements that are not
/// nested items are kept verbatim.
pub proof fn lemma_statement_order(stack: Seq<Seq<char>>, f: FnModel)
    requires
        !spec_has_marker(f.attrs),
    ensures
        ({
            let b = rw_fn(stack, f).stmts;
            &&& b.len() == f.stmts.len() + 1
            &&& b[0] == (StmtModel::Guard { name: spec_join(stack.push(f.ident)) })
            &&& forall|k: int|
                0 <= k < f.stmts.len() ==> b[k + 1] == rw_stmt(stack, #[trigger] f.stmts[k])
            &&& forall|k: int|
                0 <= k < f.stmts.len() && !(#[trigger] f.stmts[k] is Nested) ==> b[k + 1]
                    == f.stmts[k]
        }),
{
    lemma_rw_stmts_elementwise(stack, f.stmts);
    let b = rw_fn(stack, f).stmts;
    assert(b == seq![StmtModel::Guard { name: spec_join(stack.push(f.ident)) }] + rw_stmts(
        stack,
        f.stmts,
    ));
    assert forall|k: int|
        0 <= k < f.stmts.len() && !(#[trigger] f.stmts[k] is Nested) implies b[k + 1]
        == f.stmts[k] by {
        lemma_rw_stmt_plain_unchanged(stack, f.stmts[k]);
    }
}

/// A function nested in two modules is named seed components first, then
/// the outer module, the inner module, and the function's own identifier,
/// all joined with `::`.
pub proof fn lemma_qualified_name_nested(
    seeds: Seq<Seq<char>>,
    outer: ModModel,
    inner: ModModel,
    f: FnModel,
)
    requires
        outer.attrs.len() == 0,
        inner.attrs.len() == 0,
        f.attrs.len() == 0,
        outer.items == seq![ItemModel::Mod { m: inner }],
        inner.items == seq![ItemModel::Fn { f }],
    ensures
        ({
            let r = rw_item(seeds, ItemModel::Mod { m: outer });
            &&& r is Mod
            &&& r->m.items == seq![
                ItemModel::Mod { m: rw_mod(seeds.push(outer.ident), inner) },
            ]
            &&& rw_mod(seeds.push(outer.ident), inner).items == seq![
                ItemModel::Fn { f: rw_fn(seeds.push(outer.ident).push(inner.ident), f) },
            ]
            &&& rw_fn(seeds.push(outer.ident).push(inner.ident), f).stmts[0]
                == (StmtModel::Guard {
                name: spec_join(seeds.push(outer.ident).push(inner.ident).push(f.ident)),
            })
        }),
{
    let s1 = seeds.push(outer.ident);
    let s2 = s1.push(inner.ident);
    assert(!spec_has_marker(outer.attrs));
    assert(!spec_has_marker(inner.attrs));
    assert(!spec_has_marker(f.attrs));
    lemma_rw_items_singleton(s1, ItemModel::Mod { m: inner });
    lemma_rw_items_singleton(s2, ItemModel::Fn { f });
    assert(rw_item(seeds, ItemModel::Mod { m: outer })->m.items =~= seq![
        ItemModel::Mod { m: rw_mod(s1, inner) },
    ]);
    assert(rw_mod(s1, inner).items =~= seq![ItemModel::Fn { f: rw_fn(s2, f) }]);
}

/// Rewriting a one-item list rewrites that one item.
pub proof fn lemma_rw_items_singleton(stack: Seq<Seq<char>>, i: ItemModel)
    ensures
        rw_items(stack, seq![i]) == seq![rw_item(stack, i)],
{
    assert(seq![i].drop_last() =~= Seq::<ItemModel>::empty());
    assert(rw_items(stack, Seq::<ItemModel>::empty()) == Seq::<ItemModel>::empty());
    assert(Seq::<ItemModel>::empty().push(rw_item(stack, i)) =~= seq![rw_item(stack, i)]);
}

/// Rewriting a one-member implementation block rewrites that one member.
pub proof fn lemma_rw_impl_items_singleton(stack: Seq<Seq<char>>, it: ImplItemModel)
    ensures
        rw_impl_items(stack, seq![it]) == seq![rw_impl_item(stack, it)],
{
    assert(seq![it].drop_last() =~= Seq::<ImplItemModel>::empty());
    assert(rw_impl_items(stack, Seq::<ImplItemModel>::empty()) == Seq::<ImplItemModel>::empty());
    assert(Seq::<ImplItemModel>::empty().push(rw_impl_item(stack, it)) =~= seq![
        rw_impl_item(stack, it),
    ]);
}

/// A trait implementation whose self type is a plain path names its
/// methods `<type-path> as <trait-path>`, then the method: the block
/// contributes exactly one combined component.
pub proof fn lemma_impl_naming_trait_case(
    stack: Seq<Seq<char>>,
    im: ImplModel,
    method: MethodModel,
    type_segments: PathModel,
    trait_segments: PathModel,
)
    requires
        im.attrs.len() == 0,
        method.attrs.len() == 0,
        im.self_ty == (SelfTypeModel::Path { segments: type_segments }),
        im.trait_path == Some(trait_segments),
        im.items == seq![ImplItemModel::Method { method }],
    ensures
        ({
            let r = rw_impl(stack, im);
            &&& r.items == seq![
                ImplItemModel::Method {
                    method: rw_method(
                        stack.push(spec_join(type_segments) + " as "@ + spec_join(trait_segments)),
                        method,
                    ),
                },
            ]
            &&& rw_method(
                stack.push(spec_join(type_segments) + " as "@ + spec_join(trait_segments)),
                method,
            ).stmts[0] == (StmtModel::Guard {
                name: spec_join(
                    stack.push(
                        spec_join(type_segments) + " as "@ + spec_join(trait_segments),
                    ).push(method.ident),
                ),
            })
        }),
{
    assert(!spec_has_marker(im.attrs));
    assert(!spec_has_marker(method.attrs));
    lemma_rw_impl_items_singleton(impl_stack(stack, im), ImplItemModel::Method { method });
}

/// An inherent implementation whose self type is a plain path names its
/// methods by the type's path alone, then the method.
pub proof fn lemma_impl_naming_inherent_case(
    stack: Seq<Seq<char>>,
    im: ImplModel,
    method: MethodModel,
    type_segments: PathModel,
)
    requires
        im.attrs.len() == 0,
        method.attrs.len() == 0,
        im.self_ty == (SelfTypeModel::Path { segments: type_segments }),
        im.trait_path is None,
        im.items == seq![ImplItemModel::Method { method }],
    ensures
        ({
            let r = rw_impl(stack, im);
            &&& r.items == seq![
                ImplItemModel::Method {
                    method: rw_method(stack.push(spec_join(type_segments)), method),
                },
            ]
            &&& rw_method(stack.push(spec_join(type_segments)), method).stmts[0]
                == (StmtModel::Guard {
                name: spec_join(stack.push(spec_join(type_segments)).push(method.ident)),
            })
        }),
{
    assert(!spec_has_marker(im.attrs));
    assert(!spec_has_marker(method.attrs));
    lemma_rw_impl_items_singleton(impl_stack(stack, im), ImplItemModel::Method { method });
}

/// An implementation block whose self type is not a plain path still has
/// its methods instrumented, but contributes no name component of its own:
/// the method's qualified name is built from the surrounding stack alone.
pub proof fn lemma_impl_naming_non_path_self_type(
    stack: Seq<Seq<char>>,
    im: ImplModel,
    method: MethodModel,
)
    requires
        im.attrs.len() == 0,
        method.attrs.len() == 0,
        im.self_ty is Opaque,
        im.items == seq![ImplItemModel::Method { method }],
    ensures
        ({
            let r = rw_impl(stack, im);
            &&& r.items == seq![ImplItemModel::Method { method: rw_method(stack, method) }]
            &&& rw_method(stack, method).stmts[0] == (StmtModel::Guard {
                name: spec_join(stack.push(method.ident)),
            })
        }),
{
    assert(!spec_has_marker(im.attrs));
    assert(!spec_has_marker(method.attrs));
    lemma_rw_impl_items_singleton(impl_stack(stack, im), ImplItemModel::Method { method });
}

} // verus!
