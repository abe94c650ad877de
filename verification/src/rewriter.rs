//! The traversal itself: a stateful rewriter holding the name stack.
//!
//! Each `fold_*` method takes one node, returns its replacement, and leaves
//! the stack exactly as it found it; its contract ties the result to the
//! corresponding model-level rewrite function.  A node carrying a recognized
//! marker attribute is returned untouched, children and all.

use vstd::prelude::*;
use vstd::string::StringExecFns;

use crate::ast::{
    Attr, Item, ItemFn, ItemImpl, ItemMod, ItemTrait, ImplItem, ImplItemMethod, Stmt, StmtModel, TraitItem, TraitItemMethod, lemma_view_stmts_concat, view_attrs, view_fn, view_impl,
    view_impl_item, view_impl_items, view_item, view_items, view_method, view_mod, view_stmt,
    view_stmts, view_trait, view_trait_item, view_trait_items, view_trait_method,
};
use crate::naming::{has_marker, join_components, render_path, spec_has_marker, spec_join};
use crate::rewrite::{
    impl_stack, marked_item, rw_body, rw_fn, rw_impl, rw_impl_item, rw_impl_items, rw_item, rw_items, rw_method,
    rw_mod, rw_stmt, rw_stmts, rw_trait, rw_trait_item, rw_trait_items, rw_trait_method,
};

verus! {

/// The rewriter: its one piece of state is the stack of qualified-name
/// components, seeded by the caller and otherwise pushed and popped strictly
/// around each recursive descent.
pub struct Timing {
    pub id_stack: Vec<String>,
}

impl View for Timing {
    type V = Seq<Seq<char>>;

    open spec fn view(&self) -> Seq<Seq<char>> {
        self.id_stack.deep_view()
    }
}

impl Timing {
    /// Enters a named scope.
    pub fn push(&mut self, ident: String)
        ensures
            final(self)@ == old(self)@.push(ident@),
    {
        self.id_stack.push(ident);
        proof {
            assert(self.id_stack.deep_view() =~= old(self).id_stack.deep_view().push(ident@));
        }
    }

    /// Leaves the innermost scope; on an empty stack this does nothing.
    pub fn pop(&mut self)
        ensures
            old(self)@.len() == 0 ==> final(self)@ == old(self)@,
            old(self)@.len() > 0 ==> final(self)@ == old(self)@.drop_last(),
    {
        let popped = self.id_stack.pop();
        proof {
            if old(self).id_stack@.len() > 0 {
                assert(self.id_stack.deep_view() =~= old(self).id_stack.deep_view().drop_last());
            }
        }
    }

    /// The fully qualified name at this point of the traversal: the stack's
    /// components joined with `::`.
    pub fn name(&self) -> (r: String)
        ensures
            r@ == spec_join(self@),
    {
        join_components(&self.id_stack)
    }

    /// Whether the attribute list opts this node out of the traversal.
    fn is_notiming(&self, attrs: &Vec<Attr>) -> (r: bool)
        ensures
            r == spec_has_marker(view_attrs(attrs@)),
    {
        has_marker(attrs)
    }

    /// Rewrites one item, dispatching on its kind.
    pub fn fold_item(&mut self, i: Item) -> (r: Item)
        ensures
            final(self)@ == old(self)@,
            view_item(r) == rw_item(old(self)@, view_item(i)),
            marked_item(view_item(i)) ==> r == i,
        decreases i,
    {
        match i {
            Item::Mod(m) => Item::Mod(self.fold_item_mod(m)),
            Item::Trait(t) => Item::Trait(self.fold_item_trait(t)),
            Item::Impl(im) => Item::Impl(self.fold_item_impl(im)),
            Item::Fn(f) => Item::Fn(self.fold_item_fn(f)),
            Item::Opaque(tag) => Item::Opaque(tag),
        }
    }

    /// Rewrites a module: pushes its name around the rewrite of its items.
    pub fn fold_item_mod(&mut self, i: ItemMod) -> (r: ItemMod)
        ensures
            final(self)@ == old(self)@,
            view_mod(r) == rw_mod(old(self)@, view_mod(i)),
            spec_has_marker(view_attrs(i.attrs@)) ==> r == i,
        decreases i,
    {
        if self.is_notiming(&i.attrs) {
            return i;
        }
        let ghost i0 = i;
        let ghost stack0 = self@;
        let ItemMod { attrs, ident, items, rest } = i;
        proof {
            assert(decreases_to!(i0 => i0.items));
            assert(decreases_to!(i0.items => i0.items@));
        }
        let ident2 = ident.clone();
        self.push(ident2);
        let new_items = self.fold_items(items);
        self.pop();
        proof {
            assert(stack0.push(ident@).drop_last() =~= stack0);
        }
        ItemMod { attrs, ident, items: new_items, rest }
    }

    /// Rewrites a trait: pushes its name around the rewrite of its members.
    pub fn fold_item_trait(&mut self, i: ItemTrait) -> (r: ItemTrait)
        ensures
            final(self)@ == old(self)@,
            view_trait(r) == rw_trait(old(self)@, view_trait(i)),
            spec_has_marker(view_attrs(i.attrs@)) ==> r == i,
        decreases i,
    {
        if self.is_notiming(&i.attrs) {
            return i;
        }
        let ghost i0 = i;
        let ghost stack0 = self@;
        let ItemTrait { attrs, ident, items, rest } = i;
        proof {
            assert(decreases_to!(i0 => i0.items));
            assert(decreases_to!(i0.items => i0.items@));
        }
        let ident2 = ident.clone();
        self.push(ident2);
        let new_items = self.fold_trait_items(items);
        self.pop();
        proof {
            assert(stack0.push(ident@).drop_last() =~= stack0);
        }
        ItemTrait { attrs, ident, items: new_items, rest }
    }

    /// Rewrites a trait method: pushes its name around the rewrite of its
    /// default body, if it has one.  No guard is inserted here; a default
    /// body only has its nested items rewritten.
    pub fn fold_trait_item_method(&mut self, i: TraitItemMethod) -> (r: TraitItemMethod)
        ensures
            final(self)@ == old(self)@,
            view_trait_method(r) == rw_trait_method(old(self)@, view_trait_method(i)),
            spec_has_marker(view_attrs(i.attrs@)) ==> r == i,
        decreases i,
    {
        if self.is_notiming(&i.attrs) {
            return i;
        }
        let ghost i0 = i;
        let ghost stack0 = self@;
        let TraitItemMethod { attrs, ident, default_body, rest } = i;
        let ident2 = ident.clone();
        self.push(ident2);
        let new_body = match default_body {
            Some(ss) => {
                proof {
                    assert(decreases_to!(i0 => i0.default_body));
                    assert(decreases_to!(i0.default_body => i0.default_body->0));
                    assert(decreases_to!(i0.default_body->0 => i0.default_body->0@));
                }
                Some(self.fold_stmts(ss))
            },
            None => None,
        };
        self.pop();
        proof {
            assert(stack0.push(ident@).drop_last() =~= stack0);
        }
        TraitItemMethod { attrs, ident, default_body: new_body, rest }
    }

    /// Rewrites an implementation block.  A path-shaped self type pushes one
    /// combined component (`Type` or `Type as Trait`) around the members;
    /// any other self type leaves the stack alone.
    pub fn fold_item_impl(&mut self, i: ItemImpl) -> (r: ItemImpl)
        ensures
            final(self)@ == old(self)@,
            view_impl(r) == rw_impl(old(self)@, view_impl(i)),
            spec_has_marker(view_attrs(i.attrs@)) ==> r == i,
        decreases i,
    {
        if self.is_notiming(&i.attrs) {
            return i;
        }
        let ghost i0 = i;
        let ghost stack0 = self@;
        let ItemImpl { attrs, self_ty, trait_path, items, rest } = i;
        proof {
            assert(decreases_to!(i0 => i0.items));
            assert(decreases_to!(i0.items => i0.items@));
        }
        let rendered = render_path(&self_ty);
        let pushed = match rendered {
            Some(ty_name) => {
                let component = match &trait_path {
                    Some(tp) => {
                        let trait_name = join_components(tp);
                        let with_as = ty_name.concat(" as ");
                        with_as.concat(trait_name.as_str())
                    },
                    None => ty_name,
                };
                proof {
                    assert(component@ =~= impl_stack(stack0, view_impl(i0)).last());
                }
                self.push(component);
                true
            },
            None => false,
        };
        proof {
            assert(self@ == impl_stack(stack0, view_impl(i0)));
        }
        let new_items = self.fold_impl_items(items);
        if pushed {
            self.pop();
            proof {
                assert(impl_stack(stack0, view_impl(i0)).drop_last() =~= stack0);
            }
        }
        ItemImpl { attrs, self_ty, trait_path, items: new_items, rest }
    }

    /// Rewrites a method of an implementation block: rewrites the body's
    /// nested items first, then prepends the guard statement named after the
    /// stack plus the method's own identifier.
    pub fn fold_impl_item_method(&mut self, i: ImplItemMethod) -> (r: ImplItemMethod)
        ensures
            final(self)@ == old(self)@,
            view_method(r) == rw_method(old(self)@, view_method(i)),
            spec_has_marker(view_attrs(i.attrs@)) ==> r == i,
        decreases i,
    {
        if self.is_notiming(&i.attrs) {
            return i;
        }
        let ghost i0 = i;
        let ghost stack0 = self@;
        let ImplItemMethod { attrs, ident, stmts, rest } = i;
        proof {
            assert(decreases_to!(i0 => i0.stmts));
            assert(decreases_to!(i0.stmts => i0.stmts@));
        }
        let folded = self.fold_stmts(stmts);
        let ident2 = ident.clone();
        self.push(ident2);
        let guard_name = self.name();
        self.pop();
        proof {
            assert(stack0.push(ident@).drop_last() =~= stack0);
        }
        let ghost folded0 = folded@;
        let mut new_stmts: Vec<Stmt> = Vec::new();
        new_stmts.push(Stmt::Guard(guard_name));
        let mut tail = folded;
        new_stmts.append(&mut tail);
        proof {
            assert(new_stmts@ =~= seq![Stmt::Guard(guard_name)] + folded0);
            lemma_view_stmts_concat(seq![Stmt::Guard(guard_name)], folded0);
            assert(seq![Stmt::Guard(guard_name)].drop_last() =~= Seq::<Stmt>::empty());
            assert(view_stmts(Seq::<Stmt>::empty()) == Seq::<StmtModel>::empty());
            assert(view_stmts(seq![Stmt::Guard(guard_name)]) == Seq::<StmtModel>::empty().push(
                view_stmt(Stmt::Guard(guard_name)),
            ));
            assert(Seq::<StmtModel>::empty().push(view_stmt(Stmt::Guard(guard_name))) =~= seq![
                view_stmt(Stmt::Guard(guard_name)),
            ]);
            assert(view_stmts(new_stmts@) =~= rw_body(stack0, i0.ident@, view_stmts(i0.stmts@)));
        }
        ImplItemMethod { attrs, ident, stmts: new_stmts, rest }
    }

    /// Rewrites a free function, exactly as an implementation method.
    pub fn fold_item_fn(&mut self, i: ItemFn) -> (r: ItemFn)
        ensures
            final(self)@ == old(self)@,
            view_fn(r) == rw_fn(old(self)@, view_fn(i)),
            spec_has_marker(view_attrs(i.attrs@)) ==> r == i,
        decreases i,
    {
        if self.is_notiming(&i.attrs) {
            return i;
        }
        let ghost i0 = i;
        let ghost stack0 = self@;
        let ItemFn { attrs, ident, stmts, rest } = i;
        proof {
            assert(decreases_to!(i0 => i0.stmts));
            assert(decreases_to!(i0.stmts => i0.stmts@));
        }
        let folded = self.fold_stmts(stmts);
        let ident2 = ident.clone();
        self.push(ident2);
        let guard_name = self.name();
        self.pop();
        proof {
            assert(stack0.push(ident@).drop_last() =~= stack0);
        }
        let ghost folded0 = folded@;
        let mut new_stmts: Vec<Stmt> = Vec::new();
        new_stmts.push(Stmt::Guard(guard_name));
        let mut tail = folded;
        new_stmts.append(&mut tail);
        proof {
            assert(new_stmts@ =~= seq![Stmt::Guard(guard_name)] + folded0);
            lemma_view_stmts_concat(seq![Stmt::Guard(guard_name)], folded0);
            assert(seq![Stmt::Guard(guard_name)].drop_last() =~= Seq::<Stmt>::empty());
            assert(view_stmts(Seq::<Stmt>::empty()) == Seq::<StmtModel>::empty());
            assert(view_stmts(seq![Stmt::Guard(guard_name)]) == Seq::<StmtModel>::empty().push(
                view_stmt(Stmt::Guard(guard_name)),
            ));
            assert(Seq::<StmtModel>::empty().push(view_stmt(Stmt::Guard(guard_name))) =~= seq![
                view_stmt(Stmt::Guard(guard_name)),
            ]);
            assert(view_stmts(new_stmts@) =~= rw_body(stack0, i0.ident@, view_stmts(i0.stmts@)));
        }
        ItemFn { attrs, ident, stmts: new_stmts, rest }
    }

    /// Rewrites one statement: only a nested item changes.
    fn fold_stmt(&mut self, s: Stmt) -> (r: Stmt)
        ensures
            final(self)@ == old(self)@,
            view_stmt(r) == rw_stmt(old(self)@, view_stmt(s)),
        decreases s,
    {
        match s {
            Stmt::Guard(name) => Stmt::Guard(name),
            Stmt::Nested(item) => {
                let inner: Item = *item;
                let folded = self.fold_item(inner);
                Stmt::Nested(Box::new(folded))
            },
            Stmt::Plain(tag) => Stmt::Plain(tag),
        }
    }

    /// Rewrites an item list, keeping order and length.
    #[verifier::loop_isolation(false)]
    fn fold_items(&mut self, items: Vec<Item>) -> (r: Vec<Item>)
        ensures
            final(self)@ == old(self)@,
            view_items(r@) == rw_items(old(self)@, view_items(items@)),
        decreases items@,
    {
        let ghost items0 = items@;
        let ghost stack0 = self@;
        let mut rest = items;
        let mut out: Vec<Item> = Vec::new();
        while rest.len() > 0
            invariant
                self@ == stack0,
                out@.len() <= items0.len(),
                rest@ == items0.subrange(out@.len() as int, items0.len() as int),
                view_items(out@) == rw_items(
                    stack0,
                    view_items(items0.subrange(0, out@.len() as int)),
                ),
            decreases rest.len(),
        {
            let ghost k = out@.len() as int;
            let ghost old_out = out@;
            let it = rest.remove(0);
            proof {
                assert(it == items0[k]);
                assert(rest@ =~= items0.subrange(k + 1, items0.len() as int));
                assert(decreases_to!(items0 => items0[k]));
            }
            let folded = self.fold_item(it);
            out.push(folded);
            proof {
                assert(out@.drop_last() =~= old_out);
                let q = view_items(items0.subrange(0, k));
                let x = view_item(items0[k]);
                assert(items0.subrange(0, k + 1).drop_last() =~= items0.subrange(0, k));
                assert(items0.subrange(0, k + 1).last() == items0[k]);
                assert(view_items(items0.subrange(0, k + 1)) == q.push(x));
                assert(q.push(x).drop_last() =~= q);
                assert(rw_items(stack0, q.push(x)) == rw_items(stack0, q).push(
                    rw_item(stack0, x),
                ));
                assert(view_items(out@) == view_items(old_out).push(view_item(folded)));
            }
        }
        proof {
            assert(items0.subrange(0, items0.len() as int) =~= items0);
        }
        out
    }

    /// Rewrites one trait member.
    fn fold_trait_item(&mut self, it: TraitItem) -> (r: TraitItem)
        ensures
            final(self)@ == old(self)@,
            view_trait_item(r) == rw_trait_item(old(self)@, view_trait_item(it)),
        decreases it,
    {
        match it {
            TraitItem::Method(m) => TraitItem::Method(self.fold_trait_item_method(m)),
            TraitItem::Opaque(tag) => TraitItem::Opaque(tag),
        }
    }

    /// Rewrites a trait's member list, keeping order and length.
    #[verifier::loop_isolation(false)]
    fn fold_trait_items(&mut self, items: Vec<TraitItem>) -> (r: Vec<TraitItem>)
        ensures
            final(self)@ == old(self)@,
            view_trait_items(r@) == rw_trait_items(old(self)@, view_trait_items(items@)),
        decreases items@,
    {
        let ghost items0 = items@;
        let ghost stack0 = self@;
        let mut rest = items;
        let mut out: Vec<TraitItem> = Vec::new();
        while rest.len() > 0
            invariant
                self@ == stack0,
                out@.len() <= items0.len(),
                rest@ == items0.subrange(out@.len() as int, items0.len() as int),
                view_trait_items(out@) == rw_trait_items(
                    stack0,
                    view_trait_items(items0.subrange(0, out@.len() as int)),
                ),
            decreases rest.len(),
        {
            let ghost k = out@.len() as int;
            let ghost old_out = out@;
            let it = rest.remove(0);
            proof {
                assert(it == items0[k]);
                assert(rest@ =~= items0.subrange(k + 1, items0.len() as int));
                assert(decreases_to!(items0 => items0[k]));
            }
            let folded = self.fold_trait_item(it);
            out.push(folded);
            proof {
                assert(out@.drop_last() =~= old_out);
                let q = view_trait_items(items0.subrange(0, k));
                let x = view_trait_item(items0[k]);
                assert(items0.subrange(0, k + 1).drop_last() =~= items0.subrange(0, k));
                assert(items0.subrange(0, k + 1).last() == items0[k]);
                assert(view_trait_items(items0.subrange(0, k + 1)) == q.push(x));
                assert(q.push(x).drop_last() =~= q);
                assert(rw_trait_items(stack0, q.push(x)) == rw_trait_items(stack0, q).push(
                    rw_trait_item(stack0, x),
                ));
                assert(view_trait_items(out@) == view_trait_items(old_out).push(
                    view_trait_item(folded),
                ));
            }
        }
        proof {
            assert(items0.subrange(0, items0.len() as int) =~= items0);
        }
        out
    }

    /// Rewrites one member of an implementation block.
    fn fold_impl_item(&mut self, it: ImplItem) -> (r: ImplItem)
        ensures
            final(self)@ == old(self)@,
            view_impl_item(r) == rw_impl_item(old(self)@, view_impl_item(it)),
        decreases it,
    {
        match it {
            ImplItem::Method(m) => ImplItem::Method(self.fold_impl_item_method(m)),
            ImplItem::Opaque(tag) => ImplItem::Opaque(tag),
        }
    }

    /// Rewrites an implementation block's member list, keeping order and
    /// length.
    #[verifier::loop_isolation(false)]
    fn fold_impl_items(&mut self, items: Vec<ImplItem>) -> (r: Vec<ImplItem>)
        ensures
            final(self)@ == old(self)@,
            view_impl_items(r@) == rw_impl_items(old(self)@, view_impl_items(items@)),
        decreases items@,
    {
        let ghost items0 = items@;
        let ghost stack0 = self@;
        let mut rest = items;
        let mut out: Vec<ImplItem> = Vec::new();
        while rest.len() > 0
            invariant
                self@ == stack0,
                out@.len() <= items0.len(),
                rest@ == items0.subrange(out@.len() as int, items0.len() as int),
                view_impl_items(out@) == rw_impl_items(
                    stack0,
                    view_impl_items(items0.subrange(0, out@.len() as int)),
                ),
            decreases rest.len(),
        {
            let ghost k = out@.len() as int;
            let ghost old_out = out@;
            let it = rest.remove(0);
            proof {
                assert(it == items0[k]);
                assert(rest@ =~= items0.subrange(k + 1, items0.len() as int));
                assert(decreases_to!(items0 => items0[k]));
            }
            let folded = self.fold_impl_item(it);
            out.push(folded);
            proof {
                assert(out@.drop_last() =~= old_out);
                let q = view_impl_items(items0.subrange(0, k));
                let x = view_impl_item(items0[k]);
                assert(items0.subrange(0, k + 1).drop_last() =~= items0.subrange(0, k));
                assert(items0.subrange(0, k + 1).last() == items0[k]);
                assert(view_impl_items(items0.subrange(0, k + 1)) == q.push(x));
                assert(q.push(x).drop_last() =~= q);
                assert(rw_impl_items(stack0, q.push(x)) == rw_impl_items(stack0, q).push(
                    rw_impl_item(stack0, x),
                ));
                assert(view_impl_items(out@) == view_impl_items(old_out).push(
                    view_impl_item(folded),
                ));
            }
        }
        proof {
            assert(items0.subrange(0, items0.len() as int) =~= items0);
        }
        out
    }

    /// Rewrites a statement list, keeping order and length.
    #[verifier::loop_isolation(false)]
    fn fold_stmts(&mut self, stmts: Vec<Stmt>) -> (r: Vec<Stmt>)
        ensures
            final(self)@ == old(self)@,
            view_stmts(r@) == rw_stmts(old(self)@, view_stmts(stmts@)),
        decreases stmts@,
    {
        let ghost stmts0 = stmts@;
        let ghost stack0 = self@;
        let mut rest = stmts;
        let mut out: Vec<Stmt> = Vec::new();
        while rest.len() > 0
            invariant
                self@ == stack0,
                out@.len() <= stmts0.len(),
                rest@ == stmts0.subrange(out@.len() as int, stmts0.len() as int),
                view_stmts(out@) == rw_stmts(
                    stack0,
                    view_stmts(stmts0.subrange(0, out@.len() as int)),
                ),
            decreases rest.len(),
        {
            let ghost k = out@.len() as int;
            let ghost old_out = out@;
            let it = rest.remove(0);
            proof {
                assert(it == stmts0[k]);
                assert(rest@ =~= stmts0.subrange(k + 1, stmts0.len() as int));
                assert(decreases_to!(stmts0 => stmts0[k]));
            }
            let folded = self.fold_stmt(it);
            out.push(folded);
            proof {
                assert(out@.drop_last() =~= old_out);
                let q = view_stmts(stmts0.subrange(0, k));
                let x = view_stmt(stmts0[k]);
                assert(stmts0.subrange(0, k + 1).drop_last() =~= stmts0.subrange(0, k));
                assert(stmts0.subrange(0, k + 1).last() == stmts0[k]);
                assert(view_stmts(stmts0.subrange(0, k + 1)) == q.push(x));
                assert(q.push(x).drop_last() =~= q);
                assert(rw_stmts(stack0, q.push(x)) == rw_stmts(stack0, q).push(
                    rw_stmt(stack0, x),
                ));
                assert(view_stmts(out@) == view_stmts(old_out).push(view_stmt(folded)));
            }
        }
        proof {
            assert(stmts0.subrange(0, stmts0.len() as int) =~= stmts0);
        }
        out
    }
}

/// Rewrites one item under the given seed components: every function-like
/// leaf not opted out gains a guard statement named after its full lexical
/// path, and nothing else changes.
pub fn timing(code: Item, seed_names: Vec<String>) -> (r: Item)
    ensures
        view_item(r) == rw_item(seed_names.deep_view(), view_item(code)),
        marked_item(view_item(code)) ==> r == code,
{
    let mut folder = Timing { id_stack: seed_names };
    folder.fold_item(code)
}

/// The opt-out companion: returns the item completely unchanged.
pub fn notiming(code: Item) -> (r: Item)
    ensures
        r == code,
{
    code
}

} // verus!
