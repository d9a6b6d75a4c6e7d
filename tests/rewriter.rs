use pgx::decl::{
    ArgsForm, File, ForeignFn, ForeignItem, Item, ItemForeignMod, ItemStruct, ItemType, TypeExpr,
    TypeKind,
};
use pgx::rewriter::PgBindingsRewriter;

fn leaf(kind: TypeKind) -> TypeExpr {
    TypeExpr { kind, children: Vec::new() }
}

fn node(kind: TypeKind, children: Vec<TypeExpr>) -> TypeExpr {
    TypeExpr { kind, children }
}

fn path(ident: &str) -> TypeExpr {
    node(
        TypeKind::Path { leading_colon: false },
        vec![leaf(TypeKind::Segment { ident: ident.to_string(), form: ArgsForm::Bare })],
    )
}

fn generic(ident: &str, args: Vec<TypeExpr>) -> TypeExpr {
    node(
        TypeKind::Path { leading_colon: false },
        vec![node(TypeKind::Segment { ident: ident.to_string(), form: ArgsForm::AngleBracketed }, args)],
    )
}

fn ptr(mutable: bool, elem: TypeExpr) -> TypeExpr {
    node(TypeKind::Ptr { mutable }, vec![elem])
}

fn arena(elem: TypeExpr) -> TypeExpr {
    node(TypeKind::ArenaPtr, vec![elem])
}

fn bare_fn(inputs: Vec<TypeExpr>, output: Option<TypeExpr>) -> TypeExpr {
    let has_output = output.is_some();
    let mut children: Vec<TypeExpr> =
        inputs.into_iter().map(|t| node(TypeKind::Binding { name: None }, vec![t])).collect();
    if let Some(o) = output {
        children.push(o);
    }
    node(
        TypeKind::BareFn { unsafety: true, abi: Some("C".to_string()), variadic: false, has_output },
        children,
    )
}

fn verbatim(text: &str) -> TypeExpr {
    leaf(TypeKind::Verbatim(text.to_string()))
}

fn alias(name: &str, ty: TypeExpr) -> Item {
    Item::Type(ItemType { ident: name.to_string(), ty })
}

fn structure(name: &str, fields: Vec<TypeExpr>) -> Item {
    Item::Struct(ItemStruct { ident: name.to_string(), fields })
}

fn has_raw_ptr(t: &TypeExpr) -> bool {
    matches!(t.kind, TypeKind::Ptr { .. }) || t.children.iter().any(has_raw_ptr)
}

fn sample() -> File {
    File {
        items: vec![
            alias("Relation", ptr(true, path("RelationData"))),
            structure(
                "Foo",
                vec![
                    ptr(true, ptr(false, path("Bar"))),
                    path("Relation"),
                    generic("Option", vec![bare_fn(vec![ptr(true, path("Baz"))], Some(ptr(false, path("Qux"))))]),
                    verbatim("[u8; 4usize]"),
                ],
            ),
            structure("List", vec![path("i32")]),
            structure("_Private", vec![path("i32")]),
            structure("RelationData", vec![path("Oid")]),
            Item::ForeignMod(ItemForeignMod {
                attrs: Vec::new(),
                items: vec![
                    ForeignItem::Fn(ForeignFn {
                        inputs: vec![path("Relation"), ptr(true, path("i32"))],
                        output: Some(ptr(true, path("Foo"))),
                    }),
                    ForeignItem::Static(ptr(true, path("Foo"))),
                    ForeignItem::Other,
                ],
            }),
            alias("Callback", generic("Option", vec![bare_fn(vec![path("Relation")], None)])),
            structure("Holder", vec![generic("Vec", vec![path("Relation")])]),
            Item::Other,
        ],
    }
}

#[test]
fn rewrite_type_unwraps_one_level_per_call() {
    let rw = PgBindingsRewriter::new(File { items: Vec::new() });
    let mut t = ptr(true, ptr(false, path("Bar")));
    assert!(rw.rewrite_type(&mut t));
    assert_eq!(t, arena(ptr(false, path("Bar"))));
    assert!(rw.rewrite_type(&mut t));
    assert_eq!(t, arena(arena(path("Bar"))));
    assert!(!rw.rewrite_type(&mut t));
    assert_eq!(t, arena(arena(path("Bar"))));
}

#[test]
fn wrap_pointers_reaches_function_pointer_signatures() {
    let rw = PgBindingsRewriter::new(File { items: Vec::new() });
    let mut t = generic("Option", vec![bare_fn(vec![ptr(true, ptr(true, path("Baz")))], Some(ptr(false, path("Qux"))))]);
    rw.wrap_pointers(&mut t);
    assert_eq!(
        t,
        generic("Option", vec![bare_fn(vec![arena(arena(path("Baz")))], Some(arena(path("Qux"))))])
    );
    assert!(!has_raw_ptr(&t));
}

#[test]
fn types_without_pointers_are_unchanged() {
    let rw = PgBindingsRewriter::new(File { items: Vec::new() });
    let mut t = generic("Option", vec![path("i32"), verbatim("'a")]);
    assert!(!rw.rewrite_type(&mut t));
    assert_eq!(t, generic("Option", vec![path("i32"), verbatim("'a")]));
}

#[test]
fn alias_usage_replaced_inside_generic_arguments() {
    let rw = PgBindingsRewriter::new(File { items: Vec::new() });
    let mut items = sample().items;
    rw.replace_type_aliases(&mut items);
    match &items[7] {
        Item::Struct(s) => assert_eq!(s.fields[0], generic("Vec", vec![ptr(true, path("RelationData"))])),
        other => panic!("unexpected item {:?}", other),
    }
    match &items[6] {
        Item::Type(a) => assert_eq!(
            a.ty,
            generic("Option", vec![bare_fn(vec![ptr(true, path("RelationData"))], None)])
        ),
        other => panic!("unexpected item {:?}", other),
    }
    match &items[1] {
        Item::Struct(s) => assert_eq!(s.fields[1], ptr(true, path("RelationData"))),
        other => panic!("unexpected item {:?}", other),
    }
    // the alias declaration itself keeps its body
    match &items[0] {
        Item::Type(a) => assert_eq!(a.ty, ptr(true, path("RelationData"))),
        other => panic!("unexpected item {:?}", other),
    }
}

#[test]
fn last_alias_of_a_name_wins() {
    let rw = PgBindingsRewriter::new(File { items: Vec::new() });
    let mut items = vec![
        alias("Handle", ptr(true, path("First"))),
        alias("Handle", ptr(true, path("Second"))),
        structure("User", vec![path("Handle")]),
    ];
    rw.replace_type_aliases(&mut items);
    match &items[2] {
        Item::Struct(s) => assert_eq!(s.fields[0], ptr(true, path("Second"))),
        other => panic!("unexpected item {:?}", other),
    }
}

#[test]
fn alias_of_a_non_path_is_not_recorded() {
    let rw = PgBindingsRewriter::new(File { items: Vec::new() });
    let mut items = vec![
        alias("Words", ptr(true, verbatim("[u8; 2usize]"))),
        alias("Count", path("u32")),
        structure("User", vec![path("Words"), path("Count")]),
    ];
    rw.replace_type_aliases(&mut items);
    match &items[2] {
        Item::Struct(s) => {
            assert_eq!(s.fields[0], path("Words"));
            assert_eq!(s.fields[1], path("Count"));
        }
        other => panic!("unexpected item {:?}", other),
    }
}

#[test]
fn rewrite_whole_file() {
    let out = PgBindingsRewriter::new(sample()).rewrite();
    assert_eq!(out.items.len(), 11);
    match &out.items[1] {
        Item::Struct(s) => {
            assert_eq!(s.ident, "Foo");
            assert_eq!(s.fields[0], arena(arena(path("Bar"))));
            assert_eq!(s.fields[1], arena(path("RelationData")));
            assert_eq!(
                s.fields[2],
                generic("Option", vec![bare_fn(vec![arena(path("Baz"))], Some(arena(path("Qux"))))])
            );
            assert_eq!(s.fields[3], verbatim("[u8; 4usize]"));
        }
        other => panic!("unexpected item {:?}", other),
    }
    match &out.items[5] {
        Item::ForeignMod(m) => {
            assert_eq!(m.attrs, vec!["pg_guard".to_string()]);
            assert_eq!(
                m.items[0],
                ForeignItem::Fn(ForeignFn {
                    inputs: vec![arena(path("RelationData")), arena(path("i32"))],
                    output: Some(arena(path("Foo"))),
                })
            );
            assert_eq!(m.items[1], ForeignItem::Static(arena(path("Foo"))));
            assert_eq!(m.items[2], ForeignItem::Other);
        }
        other => panic!("unexpected item {:?}", other),
    }
    match &out.items[0] {
        Item::Type(a) => assert_eq!(a.ty, arena(path("RelationData"))),
        other => panic!("unexpected item {:?}", other),
    }
    assert_eq!(out.items[8], Item::Other);
    match &out.items[7] {
        Item::Struct(s) => assert_eq!(s.fields[0], generic("Vec", vec![arena(path("RelationData"))])),
        other => panic!("unexpected item {:?}", other),
    }
    // constructors: every struct but the exempt ones, in order
    assert_eq!(out.items[9], Item::Constructors("Foo".to_string()));
    assert_eq!(out.items[10], Item::Constructors("Holder".to_string()));
}

#[test]
fn constructors_follow_struct_order_and_skip_exempt_names() {
    let file = File {
        items: vec![
            structure("Alpha", vec![]),
            structure("List", vec![]),
            structure("__Reserved", vec![]),
            structure("RelationData", vec![]),
            structure("Beta", vec![]),
            structure("Lists", vec![]),
        ],
    };
    let out = PgBindingsRewriter::new(file).rewrite();
    assert_eq!(out.items.len(), 9);
    assert_eq!(out.items[6], Item::Constructors("Alpha".to_string()));
    assert_eq!(out.items[7], Item::Constructors("Beta".to_string()));
    assert_eq!(out.items[8], Item::Constructors("Lists".to_string()));
}

#[test]
fn every_foreign_block_is_guarded() {
    let file = File {
        items: vec![
            Item::ForeignMod(ItemForeignMod { attrs: vec!["link".to_string()], items: Vec::new() }),
            Item::ForeignMod(ItemForeignMod { attrs: Vec::new(), items: Vec::new() }),
        ],
    };
    let out = PgBindingsRewriter::new(file).rewrite();
    assert_eq!(
        out.items[0],
        Item::ForeignMod(ItemForeignMod {
            attrs: vec!["link".to_string(), "pg_guard".to_string()],
            items: Vec::new()
        })
    );
    assert_eq!(
        out.items[1],
        Item::ForeignMod(ItemForeignMod { attrs: vec!["pg_guard".to_string()], items: Vec::new() })
    );
}

#[test]
fn no_raw_pointer_left_anywhere() {
    let out = PgBindingsRewriter::new(sample()).rewrite();
    for item in &out.items {
        match item {
            Item::Struct(s) => assert!(s.fields.iter().all(|t| !has_raw_ptr(t))),
            Item::Type(a) => assert!(!has_raw_ptr(&a.ty)),
            Item::ForeignMod(m) => {
                for f in &m.items {
                    match f {
                        ForeignItem::Fn(f) => {
                            assert!(f.inputs.iter().all(|t| !has_raw_ptr(t)));
                            assert!(f.output.iter().all(|t| !has_raw_ptr(t)));
                        }
                        ForeignItem::Static(t) => assert!(!has_raw_ptr(t)),
                        ForeignItem::Other => {}
                    }
                }
            }
            _ => {}
        }
    }
}

#[test]
fn duplicate_is_deep() {
    let t = generic("Option", vec![bare_fn(vec![ptr(true, path("Baz"))], Some(verbatim("()")))]);
    assert_eq!(t.duplicate(), t);
}
