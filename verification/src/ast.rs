//! The syntax tree that the rewriter walks, together with its ghost model.
//!
//! The executable types hold, as plain values, exactly what the traversal
//! reads: attribute paths, identifiers, the shape of an implementation
//! block's self type, and statement lists.  Everything the host syntax
//! carries beyond that (visibility, tokens, spans, generics, the text of a
//! plain statement) is opaque to the rewriter; each node keeps it behind a
//! numeric handle (`rest`, or the payload of an `Opaque`/`Plain` variant)
//! that the caller may use to recover it, and that the rewriter only carries
//! through unchanged.
//!
//! The ghost model mirrors the executable tree value for value; contracts
//! and laws are stated over it.

use vstd::prelude::*;

verus! {

/// One attribute attached to a node: its path, as the list of its segment
/// identifiers, plus an opaque handle to the rest of the attribute.
#[derive(Debug, PartialEq, Eq)]
pub struct Attr {
    pub path: Vec<String>,
    pub rest: u64,
}

/// The self type of an implementation block, as far as the rewriter reads
/// it: either a plain path (a `::`-joined chain of identifiers, nothing
/// else), or any other shape of type, kept opaque.
#[derive(Debug, PartialEq, Eq)]
pub enum SelfType {
    Path(Vec<String>),
    Opaque(u64),
}

/// One statement of a function body.  A `Guard` is the instrumentation
/// statement this tool inserts, carrying the fully qualified name it was
/// built from.  A `Nested` statement is an item declared inside the body;
/// the traversal descends into it.  Every other statement is `Plain` and
/// passes through untouched.
#[derive(Debug, PartialEq, Eq)]
pub enum Stmt {
    Guard(String),
    Nested(Box<Item>),
    Plain(u64),
}

/// A free function.
#[derive(Debug, PartialEq, Eq)]
pub struct ItemFn {
    pub attrs: Vec<Attr>,
    pub ident: String,
    pub stmts: Vec<Stmt>,
    pub rest: u64,
}

/// A method of an implementation block.
#[derive(Debug, PartialEq, Eq)]
pub struct ImplItemMethod {
    pub attrs: Vec<Attr>,
    pub ident: String,
    pub stmts: Vec<Stmt>,
    pub rest: u64,
}

/// One member of an implementation block.
#[derive(Debug, PartialEq, Eq)]
pub enum ImplItem {
    Method(ImplItemMethod),
    Opaque(u64),
}

/// An implementation block, inherent (`trait_path` is `None`) or of a trait.
#[derive(Debug, PartialEq, Eq)]
pub struct ItemImpl {
    pub attrs: Vec<Attr>,
    pub self_ty: SelfType,
    pub trait_path: Option<Vec<String>>,
    pub items: Vec<ImplItem>,
    pub rest: u64,
}

/// A method declared in a trait, with or without a default body.
#[derive(Debug, PartialEq, Eq)]
pub struct TraitItemMethod {
    pub attrs: Vec<Attr>,
    pub ident: String,
    pub default_body: Option<Vec<Stmt>>,
    pub rest: u64,
}

/// One member of a trait.
#[derive(Debug, PartialEq, Eq)]
pub enum TraitItem {
    Method(TraitItemMethod),
    Opaque(u64),
}

/// A trait declaration.
#[derive(Debug, PartialEq, Eq)]
pub struct ItemTrait {
    pub attrs: Vec<Attr>,
    pub ident: String,
    pub items: Vec<TraitItem>,
    pub rest: u64,
}

/// A module with a body.
#[derive(Debug, PartialEq, Eq)]
pub struct ItemMod {
    pub attrs: Vec<Attr>,
    pub ident: String,
    pub items: Vec<Item>,
    pub rest: u64,
}

/// One item.  The traversal handles the four kinds it knows; every other
/// kind of item is `Opaque` and passes through untouched.
#[derive(Debug, PartialEq, Eq)]
pub enum Item {
    Mod(ItemMod),
    Trait(ItemTrait),
    Impl(ItemImpl),
    Fn(ItemFn),
    Opaque(u64),
}

/// A path in the ghost model: the sequence of its segment identifiers.
pub type PathModel = Seq<Seq<char>>;

pub ghost struct AttrModel {
    pub path: PathModel,
    pub rest: int,
}

pub ghost enum SelfTypeModel {
    Path { segments: PathModel },
    Opaque { rest: int },
}

pub ghost enum StmtModel {
    Guard { name: Seq<char> },
    Nested { item: ItemModel },
    Plain { rest: int },
}

pub ghost struct FnModel {
    pub attrs: Seq<AttrModel>,
    pub ident: Seq<char>,
    pub stmts: Seq<StmtModel>,
    pub rest: int,
}

pub ghost struct MethodModel {
    pub attrs: Seq<AttrModel>,
    pub ident: Seq<char>,
    pub stmts: Seq<StmtModel>,
    pub rest: int,
}

pub ghost enum ImplItemModel {
    Method { method: MethodModel },
    Opaque { rest: int },
}

pub ghost struct ImplModel {
    pub attrs: Seq<AttrModel>,
    pub self_ty: SelfTypeModel,
    pub trait_path: Option<PathModel>,
    pub items: Seq<ImplItemModel>,
    pub rest: int,
}

pub ghost struct TraitMethodModel {
    pub attrs: Seq<AttrModel>,
    pub ident: Seq<char>,
    pub default_body: Option<Seq<StmtModel>>,
    pub rest: int,
}

pub ghost enum TraitItemModel {
    Method { method: TraitMethodModel },
    Opaque { rest: int },
}

pub ghost struct TraitModel {
    pub attrs: Seq<AttrModel>,
    pub ident: Seq<char>,
    pub items: Seq<TraitItemModel>,
    pub rest: int,
}

pub ghost struct ModModel {
    pub attrs: Seq<AttrModel>,
    pub ident: Seq<char>,
    pub items: Seq<ItemModel>,
    pub rest: int,
}

pub ghost enum ItemModel {
    Mod { m: ModModel },
    Trait { t: TraitModel },
    Impl { im: ImplModel },
    Fn { f: FnModel },
    Opaque { rest: int },
}

impl View for Attr {
    type V = AttrModel;

    open spec fn view(&self) -> AttrModel {
        AttrModel { path: self.path.deep_view(), rest: self.rest as int }
    }
}

impl View for SelfType {
    type V = SelfTypeModel;

    open spec fn view(&self) -> SelfTypeModel {
        match self {
            SelfType::Path(segments) => SelfTypeModel::Path { segments: segments.deep_view() },
            SelfType::Opaque(rest) => SelfTypeModel::Opaque { rest: *rest as int },
        }
    }
}

pub open spec fn view_attrs(attrs: Seq<Attr>) -> Seq<AttrModel> {
    attrs.map_values(|a: Attr| a@)
}

pub open spec fn view_trait_path(p: Option<Vec<String>>) -> Option<PathModel> {
    match p {
        Some(segments) => Some(segments.deep_view()),
        None => None,
    }
}

pub open spec fn view_stmt(s: Stmt) -> StmtModel
    decreases s,
{
    match s {
        Stmt::Guard(name) => StmtModel::Guard { name: name@ },
        Stmt::Nested(item) => StmtModel::Nested { item: view_item(*item) },
        Stmt::Plain(rest) => StmtModel::Plain { rest: rest as int },
    }
}

pub open spec fn view_stmts(ss: Seq<Stmt>) -> Seq<StmtModel>
    decreases ss,
{
    if ss.len() == 0 {
        Seq::empty()
    } else {
        view_stmts(ss.drop_last()).push(view_stmt(ss.last()))
    }
}

pub open spec fn view_opt_stmts(body: Option<Vec<Stmt>>) -> Option<Seq<StmtModel>>
    decreases body,
{
    match body {
        Some(ss) => Some(view_stmts(ss@)),
        None => None,
    }
}

pub open spec fn view_fn(f: ItemFn) -> FnModel
    decreases f,
{
    FnModel {
        attrs: view_attrs(f.attrs@),
        ident: f.ident@,
        stmts: view_stmts(f.stmts@),
        rest: f.rest as int,
    }
}

pub open spec fn view_method(m: ImplItemMethod) -> MethodModel
    decreases m,
{
    MethodModel {
        attrs: view_attrs(m.attrs@),
        ident: m.ident@,
        stmts: view_stmts(m.stmts@),
        rest: m.rest as int,
    }
}

pub open spec fn view_impl_item(it: ImplItem) -> ImplItemModel
    decreases it,
{
    match it {
        ImplItem::Method(m) => ImplItemModel::Method { method: view_method(m) },
        ImplItem::Opaque(rest) => ImplItemModel::Opaque { rest: rest as int },
    }
}

pub open spec fn view_impl_items(its: Seq<ImplItem>) -> Seq<ImplItemModel>
    decreases its,
{
    if its.len() == 0 {
        Seq::empty()
    } else {
        view_impl_items(its.drop_last()).push(view_impl_item(its.last()))
    }
}

pub open spec fn view_impl(im: ItemImpl) -> ImplModel
    decreases im,
{
    ImplModel {
        attrs: view_attrs(im.attrs@),
        self_ty: im.self_ty@,
        trait_path: view_trait_path(im.trait_path),
        items: view_impl_items(im.items@),
        rest: im.rest as int,
    }
}

pub open spec fn view_trait_method(m: TraitItemMethod) -> TraitMethodModel
    decreases m,
{
    TraitMethodModel {
        attrs: view_attrs(m.attrs@),
        ident: m.ident@,
        default_body: view_opt_stmts(m.default_body),
        rest: m.rest as int,
    }
}

pub open spec fn view_trait_item(it: TraitItem) -> TraitItemModel
    decreases it,
{
    match it {
        TraitItem::Method(m) => TraitItemModel::Method { method: view_trait_method(m) },
        TraitItem::Opaque(rest) => TraitItemModel::Opaque { rest: rest as int },
    }
}

pub open spec fn view_trait_items(its: Seq<TraitItem>) -> Seq<TraitItemModel>
    decreases its,
{
    if its.len() == 0 {
        Seq::empty()
    } else {
        view_trait_items(its.drop_last()).push(view_trait_item(its.last()))
    }
}

pub open spec fn view_trait(t: ItemTrait) -> TraitModel
    decreases t,
{
    TraitModel {
        attrs: view_attrs(t.attrs@),
        ident: t.ident@,
        items: view_trait_items(t.items@),
        rest: t.rest as int,
    }
}

pub open spec fn view_mod(m: ItemMod) -> ModModel
    decreases m,
{
    ModModel {
        attrs: view_attrs(m.attrs@),
        ident: m.ident@,
        items: view_items(m.items@),
        rest: m.rest as int,
    }
}

pub open spec fn view_item(i: Item) -> ItemModel
    decreases i,
{
    match i {
        Item::Mod(m) => ItemModel::Mod { m: view_mod(m) },
        Item::Trait(t) => ItemModel::Trait { t: view_trait(t) },
        Item::Impl(im) => ItemModel::Impl { im: view_impl(im) },
        Item::Fn(f) => ItemModel::Fn { f: view_fn(f) },
        Item::Opaque(rest) => ItemModel::Opaque { rest: rest as int },
    }
}

pub open spec fn view_items(is: Seq<Item>) -> Seq<ItemModel>
    decreases is,
{
    if is.len() == 0 {
        Seq::empty()
    } else {
        view_items(is.drop_last()).push(view_item(is.last()))
    }
}

impl View for Item {
    type V = ItemModel;

    open spec fn view(&self) -> ItemModel {
        view_item(*self)
    }
}

/// The model of two statement lists laid end to end is the two models laid
/// end to end.
pub proof fn lemma_view_stmts_concat(a: Seq<Stmt>, b: Seq<Stmt>)
    ensures
        view_stmts(a + b) == view_stmts(a) + view_stmts(b),
    decreases b.len(),
{
    if b.len() == 0 {
        assert(a + b =~= a);
        assert(view_stmts(a) + view_stmts(b) =~= view_stmts(a));
    } else {
        lemma_view_stmts_concat(a, b.drop_last());
        assert((a + b).drop_last() =~= a + b.drop_last());
        assert((a + b).last() == b.last());
        assert(view_stmts(a) + view_stmts(b) =~= (view_stmts(a) + view_stmts(
            b.drop_last(),
        )).push(view_stmt(b.last())));
    }
}

} // verus!
