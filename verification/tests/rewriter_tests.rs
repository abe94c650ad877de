use screeps_timing_annotate::ast::{
    Attr, ImplItem, ImplItemMethod, Item, ItemFn, ItemImpl, ItemMod, ItemTrait, SelfType, Stmt,
    TraitItem, TraitItemMethod,
};
use screeps_timing_annotate::{notiming, timing};

fn s(text: &str) -> String {
    text.to_string()
}

fn path(segments: &[&str]) -> Vec<String> {
    segments.iter().map(|p| p.to_string()).collect()
}

fn attr(segments: &[&str]) -> Attr {
    Attr { path: path(segments), rest: 0 }
}

fn free_fn(name: &str, attrs: Vec<Attr>, stmts: Vec<Stmt>) -> Item {
    Item::Fn(ItemFn { attrs, ident: s(name), stmts, rest: 0 })
}

fn module(name: &str, attrs: Vec<Attr>, items: Vec<Item>) -> Item {
    Item::Mod(ItemMod { attrs, ident: s(name), items, rest: 0 })
}

fn method(name: &str, attrs: Vec<Attr>, stmts: Vec<Stmt>) -> ImplItem {
    ImplItem::Method(ImplItemMethod { attrs, ident: s(name), stmts, rest: 0 })
}

fn guard_name(stmt: &Stmt) -> &str {
    match stmt {
        Stmt::Guard(name) => name.as_str(),
        _ => panic!("expected a guard statement"),
    }
}

fn fn_stmts(item: &Item) -> &Vec<Stmt> {
    match item {
        Item::Fn(f) => &f.stmts,
        _ => panic!("expected a function"),
    }
}

fn mod_items(item: &Item) -> &Vec<Item> {
    match item {
        Item::Mod(m) => &m.items,
        _ => panic!("expected a module"),
    }
}

fn impl_method_stmts(item: &Item, index: usize) -> &Vec<Stmt> {
    match item {
        Item::Impl(im) => match &im.items[index] {
            ImplItem::Method(m) => &m.stmts,
            _ => panic!("expected a method"),
        },
        _ => panic!("expected an implementation block"),
    }
}

#[test]
fn scenario_module_with_one_function() {
    let tree = module("svc", vec![], vec![free_fn("run", vec![], vec![Stmt::Plain(42)])]);
    let out = timing(tree, vec![]);
    let items = mod_items(&out);
    assert_eq!(items.len(), 1);
    let stmts = fn_stmts(&items[0]);
    assert_eq!(stmts.len(), 2);
    assert_eq!(guard_name(&stmts[0]), "svc::run");
    assert_eq!(stmts[1], Stmt::Plain(42));
}

#[test]
fn qualified_name_through_nested_modules_with_seed() {
    let tree = module(
        "b",
        vec![],
        vec![module("a", vec![], vec![free_fn("work", vec![], vec![Stmt::Plain(1)])])],
    );
    let out = timing(tree, vec![s("root")]);
    let inner = &mod_items(&out)[0];
    let stmts = fn_stmts(&mod_items(inner)[0]);
    assert_eq!(guard_name(&stmts[0]), "root::b::a::work");
}

#[test]
fn top_level_function_with_no_seeds() {
    let out = timing(free_fn("f", vec![], vec![]), vec![]);
    let stmts = fn_stmts(&out);
    assert_eq!(stmts.len(), 1);
    assert_eq!(guard_name(&stmts[0]), "f");
}

#[test]
fn seeds_alone_prefix_the_name() {
    let out = timing(free_fn("f", vec![], vec![]), vec![s("crate_name"), s("sub")]);
    assert_eq!(guard_name(&fn_stmts(&out)[0]), "crate_name::sub::f");
}

#[test]
fn impl_block_naming_trait_case() {
    let tree = Item::Impl(ItemImpl {
        attrs: vec![],
        self_ty: SelfType::Path(path(&["Type"])),
        trait_path: Some(path(&["Trait"])),
        items: vec![method("method", vec![], vec![])],
        rest: 0,
    });
    let out = timing(tree, vec![]);
    let stmts = impl_method_stmts(&out, 0);
    assert_eq!(guard_name(&stmts[0]), "Type as Trait::method");
}

#[test]
fn impl_block_naming_inherent_case() {
    let tree = Item::Impl(ItemImpl {
        attrs: vec![],
        self_ty: SelfType::Path(path(&["Type"])),
        trait_path: None,
        items: vec![method("method", vec![], vec![])],
        rest: 0,
    });
    let out = timing(tree, vec![]);
    assert_eq!(guard_name(&impl_method_stmts(&out, 0)[0]), "Type::method");
}

#[test]
fn impl_block_naming_multi_segment_paths() {
    let tree = Item::Impl(ItemImpl {
        attrs: vec![],
        self_ty: SelfType::Path(path(&["a", "b", "Type"])),
        trait_path: Some(path(&["c", "Trait"])),
        items: vec![method("method", vec![], vec![])],
        rest: 0,
    });
    let out = timing(tree, vec![]);
    assert_eq!(guard_name(&impl_method_stmts(&out, 0)[0]), "a::b::Type as c::Trait::method");
}

#[test]
fn non_path_self_type_passes_through_but_still_instruments() {
    let tree = Item::Impl(ItemImpl {
        attrs: vec![],
        self_ty: SelfType::Opaque(9),
        trait_path: Some(path(&["Trait"])),
        items: vec![method("method", vec![], vec![Stmt::Plain(5)])],
        rest: 0,
    });
    let out = timing(tree, vec![s("outer")]);
    let stmts = impl_method_stmts(&out, 0);
    assert_eq!(stmts.len(), 2);
    assert_eq!(guard_name(&stmts[0]), "outer::method");
    assert_eq!(stmts[1], Stmt::Plain(5));
}

#[test]
fn statement_order_is_preserved() {
    let tree = free_fn("f", vec![], vec![Stmt::Plain(1), Stmt::Plain(2), Stmt::Plain(3)]);
    let out = timing(tree, vec![]);
    let stmts = fn_stmts(&out);
    assert_eq!(stmts.len(), 4);
    assert_eq!(guard_name(&stmts[0]), "f");
    assert_eq!(stmts[1], Stmt::Plain(1));
    assert_eq!(stmts[2], Stmt::Plain(2));
    assert_eq!(stmts[3], Stmt::Plain(3));
}

#[test]
fn disable_marker_returns_function_unchanged() {
    let tree = free_fn("f", vec![attr(&["notiming"])], vec![Stmt::Plain(1)]);
    let expected = free_fn("f", vec![attr(&["notiming"])], vec![Stmt::Plain(1)]);
    assert_eq!(timing(tree, vec![s("seed")]), expected);
}

#[test]
fn enable_marker_also_suppresses_reentry() {
    let tree = free_fn("f", vec![attr(&["timing"])], vec![Stmt::Plain(1)]);
    let expected = free_fn("f", vec![attr(&["timing"])], vec![Stmt::Plain(1)]);
    assert_eq!(timing(tree, vec![]), expected);
}

#[test]
fn qualified_marker_paths_are_recognized() {
    let one = free_fn("f", vec![attr(&["screeps_timing_annotate", "notiming"])], vec![]);
    let one_expected = free_fn("f", vec![attr(&["screeps_timing_annotate", "notiming"])], vec![]);
    assert_eq!(timing(one, vec![]), one_expected);
    let two = free_fn("g", vec![attr(&["screeps_timing_annotate", "timing"])], vec![]);
    let two_expected = free_fn("g", vec![attr(&["screeps_timing_annotate", "timing"])], vec![]);
    assert_eq!(timing(two, vec![]), two_expected);
}

#[test]
fn unrelated_attributes_do_not_suppress() {
    let tree = free_fn("f", vec![attr(&["inline"]), attr(&["other", "timing_like"])], vec![]);
    let out = timing(tree, vec![]);
    let stmts = fn_stmts(&out);
    assert_eq!(stmts.len(), 1);
    assert_eq!(guard_name(&stmts[0]), "f");
}

#[test]
fn marked_module_suppresses_whole_subtree() {
    let tree = module(
        "m",
        vec![attr(&["notiming"])],
        vec![free_fn("f", vec![], vec![Stmt::Plain(1)]), free_fn("g", vec![], vec![])],
    );
    let expected = module(
        "m",
        vec![attr(&["notiming"])],
        vec![free_fn("f", vec![], vec![Stmt::Plain(1)]), free_fn("g", vec![], vec![])],
    );
    assert_eq!(timing(tree, vec![s("root")]), expected);
}

#[test]
fn marked_function_inside_module_is_skipped_alone() {
    let tree = module(
        "m",
        vec![],
        vec![
            free_fn("f", vec![attr(&["notiming"])], vec![Stmt::Plain(1)]),
            free_fn("g", vec![], vec![]),
        ],
    );
    let out = timing(tree, vec![]);
    let items = mod_items(&out);
    assert_eq!(fn_stmts(&items[0]).len(), 1);
    assert_eq!(fn_stmts(&items[0])[0], Stmt::Plain(1));
    assert_eq!(guard_name(&fn_stmts(&items[1])[0]), "m::g");
}

#[test]
fn trait_default_body_gets_no_guard_but_names_nested_items() {
    let nested = free_fn("inner", vec![], vec![]);
    let tree = Item::Trait(ItemTrait {
        attrs: vec![],
        ident: s("T"),
        items: vec![
            TraitItem::Method(TraitItemMethod {
                attrs: vec![],
                ident: s("m"),
                default_body: Some(vec![Stmt::Plain(4), Stmt::Nested(Box::new(nested))]),
                rest: 0,
            }),
            TraitItem::Method(TraitItemMethod {
                attrs: vec![],
                ident: s("n"),
                default_body: None,
                rest: 0,
            }),
            TraitItem::Opaque(11),
        ],
        rest: 0,
    });
    let out = timing(tree, vec![]);
    match &out {
        Item::Trait(t) => {
            match &t.items[0] {
                TraitItem::Method(m) => {
                    let body = m.default_body.as_ref().unwrap();
                    assert_eq!(body.len(), 2);
                    assert_eq!(body[0], Stmt::Plain(4));
                    match &body[1] {
                        Stmt::Nested(item) => {
                            assert_eq!(guard_name(&fn_stmts(item)[0]), "T::m::inner");
                        },
                        _ => panic!("expected the nested item"),
                    }
                },
                _ => panic!("expected a method"),
            }
            assert_eq!(
                t.items[1],
                TraitItem::Method(TraitItemMethod {
                    attrs: vec![],
                    ident: s("n"),
                    default_body: None,
                    rest: 0,
                })
            );
            assert_eq!(t.items[2], TraitItem::Opaque(11));
        },
        _ => panic!("expected a trait"),
    }
}

#[test]
fn nested_function_is_named_from_the_enclosing_scope() {
    let inner = free_fn("inner", vec![], vec![]);
    let tree = free_fn("outer", vec![], vec![Stmt::Nested(Box::new(inner)), Stmt::Plain(8)]);
    let out = timing(tree, vec![s("m")]);
    let stmts = fn_stmts(&out);
    assert_eq!(stmts.len(), 3);
    assert_eq!(guard_name(&stmts[0]), "m::outer");
    match &stmts[1] {
        Stmt::Nested(item) => {
            // The body is rewritten before the function's own name is
            // pushed, so the nested name has no `outer` component.
            assert_eq!(guard_name(&fn_stmts(item)[0]), "m::inner");
        },
        _ => panic!("expected the nested item"),
    }
    assert_eq!(stmts[2], Stmt::Plain(8));
}

#[test]
fn opaque_items_and_guard_statements_pass_through() {
    let tree = module(
        "m",
        vec![],
        vec![Item::Opaque(3), free_fn("f", vec![], vec![Stmt::Guard(s("kept"))])],
    );
    let out = timing(tree, vec![]);
    let items = mod_items(&out);
    assert_eq!(items[0], Item::Opaque(3));
    let stmts = fn_stmts(&items[1]);
    assert_eq!(stmts.len(), 2);
    assert_eq!(guard_name(&stmts[0]), "m::f");
    assert_eq!(stmts[1], Stmt::Guard(s("kept")));
}

#[test]
fn notiming_returns_the_item_unchanged() {
    let tree = module("m", vec![], vec![free_fn("f", vec![], vec![Stmt::Plain(1)])]);
    let expected = module("m", vec![], vec![free_fn("f", vec![], vec![Stmt::Plain(1)])]);
    assert_eq!(notiming(tree), expected);
}
