//! The passes that turn scraped declarations into safe bindings.
use vstd::prelude::*;
use crate::decl::{
    alias_table, alias_uses, alias_uses_seq, aliased_target, aliases_in, first_ident,
    lemma_wrap_all_leaves_no_raw_ptr, replace_aliases_seq, attrs_extended, binding_fn, constructor_names, file_rewritten,
    foreign_item_mapped, foreign_items_mapped, has_raw_ptr, is_exempt, item_mapped, items_mapped,
    lemma_children_models, lemma_idle, lemma_step_count, lemma_step_then_all, models, names_of,
    ptr_count, ptr_count_seq, replace_aliases, resolve, struct_names, types_mapped, wrap_all,
    wrap_step, Alias, ForeignFn, ForeignItem, Item, ItemForeignMod, ItemStruct, TypeExpr, TypeKind,
    TypeModel,
};

verus! {

/// One wrapping step over a whole tree, which it consumes.
fn wrap_step_tree(t: TypeExpr) -> (r: (TypeExpr, bool))
    ensures
        r.0@ == wrap_step(t@),
        r.1 == has_raw_ptr(t@),
    decreases t,
{
    proof {
        lemma_children_models(t);
    }
    let ghost tm = t@;
    let TypeExpr { kind, children } = t;
    match kind {
        TypeKind::Ptr { .. } => {
            let r = TypeExpr { kind: TypeKind::ArenaPtr, children };
            proof {
                lemma_children_models(r);
            }
            (r, true)
        },
        other => {
            let ghost orig = children@;
            let mut rest = children;
            let mut out: Vec<TypeExpr> = Vec::new();
            let mut changed = false;
            while rest.len() > 0
                invariant
                    out@.len() + rest@.len() == orig.len(),
                    rest@ == orig.subrange(out@.len() as int, orig.len() as int),
                    forall|j: int| 0 <= j < out@.len() ==> #[trigger] out@[j]@ == wrap_step(orig[j]@),
                    changed == (ptr_count_seq(models(orig).take(out@.len() as int)) > 0),
                    orig == t.children@,
                decreases rest@.len(),
            {
                let ghost k = out@.len() as int;
                let c = rest.remove(0);
                assert(c == orig[k]);
                let (d, ch) = wrap_step_tree(c);
                out.push(d);
                changed = changed || ch;
                assert(models(orig).take(k + 1).drop_last() =~= models(orig).take(k));
            }
            assert(models(orig).take(orig.len() as int) =~= models(orig));
            let r = TypeExpr { kind: other, children: out };
            proof {
                lemma_children_models(r);
                assert(r@.children =~= wrap_step(tm).children);
            }
            (r, changed)
        },
    }
}

/// The last alias named `name`.
fn find_alias<'a>(aliases: &'a Vec<Alias>, name: &String) -> (r: Option<&'a TypeExpr>)
    ensures
        match r {
            Some(t) => resolve(alias_table(aliases@), name@) == Some(t@),
            None => resolve(alias_table(aliases@), name@) is None,
        },
{
    let ghost table = alias_table(aliases@);
    assert(table.take(table.len() as int) =~= table);
    let mut i: usize = aliases.len();
    while i > 0
        invariant
            i <= aliases@.len(),
            table == alias_table(aliases@),
            resolve(table, name@) == resolve(table.take(i as int), name@),
        decreases i,
    {
        let a = &aliases[i - 1];
        assert(table.take(i as int).drop_last() =~= table.take(i - 1));
        if a.name == *name {
            return Some(&a.target);
        }
        i -= 1;
    }
    None
}

/// The aliases that a declaration list records, in order.
fn collect_aliases(items: &Vec<Item>) -> (r: Vec<Alias>)
    ensures
        alias_table(r@) == aliases_in(items@),
{
    let mut r: Vec<Alias> = Vec::new();
    let mut i: usize = 0;
    while i < items.len()
        invariant
            i <= items@.len(),
            alias_table(r@) == aliases_in(items@.take(i as int)),
        decreases items@.len() - i,
    {
        let ghost before = r@;
        assert(items@.take(i + 1).drop_last() =~= items@.take(i as int));
        match &items[i] {
            Item::Type(a) => {
                proof {
                    lemma_children_models(a.ty);
                }
                if matches!(a.ty.kind, TypeKind::Ptr { .. }) && a.ty.children.len() > 0
                    && matches!(a.ty.children[0].kind, TypeKind::Path { .. }) {
                    let target = a.ty.children[0].duplicate();
                    r.push(Alias { name: a.ident.clone(), target });
                    assert(alias_table(r@) =~= alias_table(before).push(
                        (a.ident@, a.ty@.children[0]),
                    ));
                }
            },
            _ => {},
        }
        i += 1;
    }
    assert(items@.take(items@.len() as int) =~= items@);
    r
}

/// Alias resolution over a whole tree, which it consumes.
fn replace_tree(t: TypeExpr, aliases: &Vec<Alias>) -> (r: TypeExpr)
    ensures
        r@ == replace_aliases(t@, alias_table(aliases@)),
    decreases t,
{
    proof {
        lemma_children_models(t);
    }
    let ghost tm = t@;
    let found = if matches!(t.kind, TypeKind::Path { .. }) && t.children.len() > 0 {
        match &t.children[0].kind {
            TypeKind::Segment { ident, .. } => find_alias(aliases, ident),
            _ => None,
        }
    } else {
        None
    };
    match found {
        Some(target) => {
            let mut children: Vec<TypeExpr> = Vec::new();
            children.push(target.duplicate());
            let r = TypeExpr { kind: TypeKind::Ptr { mutable: true }, children };
            proof {
                lemma_children_models(r);
                assert(r@.children =~= seq![target@]);
            }
            r
        },
        None => {
            let TypeExpr { kind, children } = t;
            let ghost orig = children@;
            let mut rest = children;
            let mut out: Vec<TypeExpr> = Vec::new();
            while rest.len() > 0
                invariant
                    out@.len() + rest@.len() == orig.len(),
                    rest@ == orig.subrange(out@.len() as int, orig.len() as int),
                    forall|j: int|
                        0 <= j < out@.len() ==> #[trigger] out@[j]@ == replace_aliases(
                            orig[j]@,
                            alias_table(aliases@),
                        ),
                    orig == t.children@,
                decreases rest@.len(),
            {
                let ghost k = out@.len() as int;
                let c = rest.remove(0);
                assert(c == orig[k]);
                let d = replace_tree(c, aliases);
                out.push(d);
            }
            let r = TypeExpr { kind, children: out };
            proof {
                lemma_children_models(r);
                assert(r@.children =~= replace_aliases(tm, alias_table(aliases@)).children);
            }
            r
        },
    }
}

/// A pass over every type of a declaration.
pub enum Pass<'a> {
    /// Replace each use of an alias by a pointer to its target.
    ResolveAliases(&'a Vec<Alias>),
    /// Wrap every raw pointer.
    WrapPointers,
}

pub open spec fn alias_fn(table: Seq<(Seq<char>, TypeModel)>) -> spec_fn(TypeModel) -> TypeModel {
    |t: TypeModel| replace_aliases(t, table)
}

pub open spec fn wrap_fn() -> spec_fn(TypeModel) -> TypeModel {
    |t: TypeModel| wrap_all(t)
}

impl<'a> Pass<'a> {
    /// What the pass does to one type.
    pub open spec fn transform(&self) -> spec_fn(TypeModel) -> TypeModel {
        match self {
            Pass::ResolveAliases(a) => alias_fn(alias_table(a@)),
            Pass::WrapPointers => wrap_fn(),
        }
    }
}

proof fn lemma_item_compose(
    a: Item,
    b: Item,
    c: Item,
    f: spec_fn(TypeModel) -> TypeModel,
    g: spec_fn(TypeModel) -> TypeModel,
    h: spec_fn(TypeModel) -> TypeModel,
)
    requires
        item_mapped(a, b, f, false),
        item_mapped(b, c, g, true),
        forall|t: TypeModel| #[trigger] h(t) == g(f(t)),
    ensures
        item_mapped(a, c, h, true),
{
    match (a, b, c) {
        (Item::Struct(x), Item::Struct(y), Item::Struct(z)) => {
            assert forall|j: int| 0 <= j < x.fields@.len() implies #[trigger] z.fields@[j]@ == h(
                x.fields@[j]@,
            ) by {
                assert(y.fields@[j]@ == f(x.fields@[j]@));
            }
        },
        (Item::ForeignMod(x), Item::ForeignMod(y), Item::ForeignMod(z)) => {
            assert forall|j: int| 0 <= j < x.items@.len() implies #[trigger] foreign_item_mapped(
                x.items@[j],
                z.items@[j],
                h,
            ) by {
                assert(foreign_item_mapped(x.items@[j], y.items@[j], f));
                assert(foreign_item_mapped(y.items@[j], z.items@[j], g));
                match (x.items@[j], y.items@[j], z.items@[j]) {
                    (ForeignItem::Fn(p), ForeignItem::Fn(q), ForeignItem::Fn(r)) => {
                        assert forall|i: int| 0 <= i < p.inputs@.len() implies #[trigger] r.inputs@[i]@
                            == h(p.inputs@[i]@) by {
                            assert(q.inputs@[i]@ == f(p.inputs@[i]@));
                        }
                    },
                    _ => {},
                }
            }
        },
        _ => {},
    }
}

proof fn lemma_struct_names_kept(
    src: Seq<Item>,
    dst: Seq<Item>,
    f: spec_fn(TypeModel) -> TypeModel,
    guard: bool,
)
    requires
        items_mapped(src, dst, f, guard),
    ensures
        struct_names(src) == struct_names(dst),
    decreases src.len(),
{
    if src.len() > 0 {
        let n = src.len() - 1;
        assert(item_mapped(src[n], dst[n], f, guard));
        assert forall|j: int| 0 <= j < n implies #[trigger] item_mapped(
            src.drop_last()[j],
            dst.drop_last()[j],
            f,
            guard,
        ) by {
            assert(item_mapped(src[j], dst[j], f, guard));
        }
        lemma_struct_names_kept(src.drop_last(), dst.drop_last(), f, guard);
    }
}

/// Whether a struct gets synthesized constructors.
fn needs_constructors(ident: &String) -> (r: bool)
    ensures
        r == !is_exempt(ident@),
{
    broadcast use vstd::string::next_postcondition, vstd::string::axiom_spec_iter;

    proof {
        reveal_strlit("List");
        reveal_strlit("RelationData");
    }
    let list = "List".to_owned();
    let relation_data = "RelationData".to_owned();
    if *ident == list || *ident == relation_data {
        return false;
    }
    let mut chars = ident.as_str().chars();
    match chars.next() {
        Some(c) => c != '_',
        None => true,
    }
}

/// Resolves aliases of pointers and wraps raw pointers in scraped declarations.
pub struct PgBindingsRewriter {
    pub bindings: crate::decl::File,
}

impl PgBindingsRewriter {
    pub fn new(bindings: crate::decl::File) -> (r: PgBindingsRewriter)
        ensures
            r.bindings == bindings,
    {
        PgBindingsRewriter { bindings }
    }

    /// Replaces each outermost raw pointer by the arena pointer wrapper, one
    /// level deep, and says whether anything changed.
    pub fn rewrite_type(&self, ty: &mut TypeExpr) -> (changed: bool)
        ensures
            final(ty)@ == wrap_step(old(ty)@),
            changed == has_raw_ptr(old(ty)@),
    {
        let mut t = TypeExpr { kind: TypeKind::Group, children: Vec::new() };
        std::mem::swap(ty, &mut t);
        let (r, changed) = wrap_step_tree(t);
        *ty = r;
        changed
    }

    /// Rewrites until nothing changes: every raw pointer, at every depth,
    /// becomes the arena pointer wrapper.
    pub fn wrap_pointers(&self, ty: &mut TypeExpr)
        ensures
            final(ty)@ == wrap_all(old(ty)@),
    {
        let ghost orig = ty@;
        loop
            invariant
                wrap_all(ty@) == wrap_all(orig),
            ensures
                ty@ == wrap_all(orig),
            decreases ptr_count(ty@),
        {
            let ghost prev = ty@;
            let changed = self.rewrite_type(ty);
            proof {
                lemma_step_then_all(prev);
                lemma_step_count(prev);
            }
            if !changed {
                proof {
                    lemma_idle(prev);
                }
                break;
            }
        }
    }

    /// Replaces, in one type, each use of an alias by a pointer to its target.
    pub fn replace_alias_usage(&self, ty: &mut TypeExpr, aliases: &Vec<Alias>)
        ensures
            final(ty)@ == replace_aliases(old(ty)@, alias_table(aliases@)),
    {
        let mut t = TypeExpr { kind: TypeKind::Group, children: Vec::new() };
        std::mem::swap(ty, &mut t);
        *ty = replace_tree(t, aliases);
    }

    fn apply(&self, pass: &Pass, ty: &mut TypeExpr)
        ensures
            final(ty)@ == (pass.transform())(old(ty)@),
    {
        match pass {
            Pass::ResolveAliases(aliases) => self.replace_alias_usage(ty, aliases),
            Pass::WrapPointers => self.wrap_pointers(ty),
        }
    }

    fn apply_all(&self, pass: &Pass, types: &mut Vec<TypeExpr>)
        ensures
            types_mapped(old(types)@, final(types)@, pass.transform()),
    {
        let ghost orig = types@;
        let mut rest: Vec<TypeExpr> = Vec::new();
        std::mem::swap(types, &mut rest);
        while rest.len() > 0
            invariant
                types@.len() + rest@.len() == orig.len(),
                rest@ == orig.subrange(types@.len() as int, orig.len() as int),
                forall|j: int|
                    0 <= j < types@.len() ==> #[trigger] types@[j]@ == (pass.transform())(orig[j]@),
            decreases rest@.len(),
        {
            let ghost k = types@.len() as int;
            let mut t = rest.remove(0);
            assert(t == orig[k]);
            self.apply(pass, &mut t);
            types.push(t);
        }
    }

    fn apply_foreign(&self, pass: &Pass, items: &mut Vec<ForeignItem>)
        ensures
            foreign_items_mapped(old(items)@, final(items)@, pass.transform()),
    {
        let ghost orig = items@;
        let mut rest: Vec<ForeignItem> = Vec::new();
        std::mem::swap(items, &mut rest);
        while rest.len() > 0
            invariant
                items@.len() + rest@.len() == orig.len(),
                rest@ == orig.subrange(items@.len() as int, orig.len() as int),
                forall|j: int|
                    0 <= j < items@.len() ==> #[trigger] foreign_item_mapped(
                        orig[j],
                        items@[j],
                        pass.transform(),
                    ),
            decreases rest@.len(),
        {
            let ghost k = items@.len() as int;
            let item = rest.remove(0);
            assert(item == orig[k]);
            let done = match item {
                ForeignItem::Fn(f) => {
                    let ForeignFn { mut inputs, output } = f;
                    self.apply_all(pass, &mut inputs);
                    let output = match output {
                        Some(mut o) => {
                            self.apply(pass, &mut o);
                            Some(o)
                        },
                        None => None,
                    };
                    ForeignItem::Fn(ForeignFn { inputs, output })
                },
                ForeignItem::Static(mut ty) => {
                    self.apply(pass, &mut ty);
                    ForeignItem::Static(ty)
                },
                ForeignItem::Other => ForeignItem::Other,
            };
            items.push(done);
        }
    }

    /// Replaces, in every struct field, foreign function input and output,
    /// foreign static and type alias body, each use of an alias of a pointer
    /// to a path by a mutable pointer to that path.
    pub fn replace_type_aliases(&self, items: &mut Vec<Item>)
        ensures
            items_mapped(old(items)@, final(items)@, alias_fn(aliases_in(old(items)@)), false),
    {
        let aliases = collect_aliases(items);
        let pass = Pass::ResolveAliases(&aliases);
        let ghost orig = items@;
        let ghost f = alias_fn(aliases_in(orig));
        assert(pass.transform() == f);
        let mut rest: Vec<Item> = Vec::new();
        std::mem::swap(items, &mut rest);
        while rest.len() > 0
            invariant
                items@.len() + rest@.len() == orig.len(),
                rest@ == orig.subrange(items@.len() as int, orig.len() as int),
                pass.transform() == f,
                forall|j: int|
                    0 <= j < items@.len() ==> #[trigger] item_mapped(orig[j], items@[j], f, false),
            decreases rest@.len(),
        {
            let ghost k = items@.len() as int;
            let item = rest.remove(0);
            assert(item == orig[k]);
            let done = match item {
                Item::Struct(mut st) => {
                    self.apply_all(&pass, &mut st.fields);
                    Item::Struct(st)
                },
                Item::ForeignMod(mut m) => {
                    self.apply_foreign(&pass, &mut m.items);
                    Item::ForeignMod(m)
                },
                Item::Type(mut a) => {
                    self.apply(&pass, &mut a.ty);
                    Item::Type(a)
                },
                other => other,
            };
            items.push(done);
        }
    }

    /// Wraps the pointers of every field of a struct.
    pub fn rewrite_struct(&self, item: &mut ItemStruct)
        ensures
            final(item).ident == old(item).ident,
            types_mapped(old(item).fields@, final(item).fields@, wrap_fn()),
    {
        self.apply_all(&Pass::WrapPointers, &mut item.fields);
    }

    /// Guards a foreign block and wraps the pointers of each of its function
    /// signatures and statics.
    pub fn rewrite_foreign_mod(&self, item: &mut ItemForeignMod)
        ensures
            attrs_extended(old(item).attrs@, final(item).attrs@, true),
            foreign_items_mapped(old(item).items@, final(item).items@, wrap_fn()),
    {
        proof {
            reveal_strlit("pg_guard");
        }
        let ghost attrs = item.attrs@;
        item.attrs.push("pg_guard".to_owned());
        assert(item.attrs@.take(attrs.len() as int) =~= attrs);
        self.apply_foreign(&Pass::WrapPointers, &mut item.items);
    }

    /// The whole rewrite: aliases resolved, pointers wrapped, foreign blocks
    /// guarded, and constructors added for each struct that is not exempt.
    pub fn rewrite(self) -> (r: crate::decl::File)
        ensures
            file_rewritten(self.bindings.items@, r.items@),
    {
        let PgBindingsRewriter { bindings } = self;
        let mut items = bindings.items;
        let this = PgBindingsRewriter { bindings: crate::decl::File { items: Vec::new() } };
        let ghost src = items@;
        let ghost table = aliases_in(src);
        this.replace_type_aliases(&mut items);
        let ghost mid = items@;
        proof {
            lemma_struct_names_kept(src, mid, alias_fn(table), false);
        }
        let mut out: Vec<Item> = Vec::new();
        let mut structs: Vec<String> = Vec::new();
        let mut rest = items;
        while rest.len() > 0
            invariant
                out@.len() + rest@.len() == mid.len(),
                mid.len() == src.len(),
                rest@ == mid.subrange(out@.len() as int, mid.len() as int),
                items_mapped(src, mid, alias_fn(table), false),
                forall|j: int|
                    0 <= j < out@.len() ==> #[trigger] item_mapped(
                        src[j],
                        out@[j],
                        binding_fn(table),
                        true,
                    ),
                names_of(structs@) == struct_names(mid.take(out@.len() as int)),
            decreases rest@.len(),
        {
            let ghost k = out@.len() as int;
            let item = rest.remove(0);
            assert(item == mid[k]);
            let ghost names = structs@;
            let done = match item {
                Item::Struct(mut st) => {
                    this.rewrite_struct(&mut st);
                    structs.push(st.ident.clone());
                    Item::Struct(st)
                },
                Item::ForeignMod(mut m) => {
                    this.rewrite_foreign_mod(&mut m);
                    Item::ForeignMod(m)
                },
                Item::Type(mut a) => {
                    this.wrap_pointers(&mut a.ty);
                    Item::Type(a)
                },
                other => other,
            };
            proof {
                assert(item_mapped(mid[k], done, wrap_fn(), true));
                assert(item_mapped(src[k], mid[k], alias_fn(table), false));
                lemma_item_compose(src[k], mid[k], done, alias_fn(table), wrap_fn(), binding_fn(table));
                assert(mid.take(k + 1).drop_last() =~= mid.take(k));
                assert(names_of(structs@) =~= struct_names(mid.take(k + 1)));
            }
            out.push(done);
        }
        assert(mid.take(mid.len() as int) =~= mid);
        let ghost n = src.len();
        let ghost all_names = struct_names(src);
        let mut i: usize = 0;
        while i < structs.len()
            invariant
                i <= structs@.len(),
                names_of(structs@) == all_names,
                out@.len() == n + constructor_names(all_names.take(i as int)).len(),
                forall|j: int|
                    0 <= j < n ==> #[trigger] item_mapped(src[j], out@[j], binding_fn(table), true),
                forall|k: int|
                    0 <= k < constructor_names(all_names.take(i as int)).len() ==> (match #[trigger] out@[n + k] {
                        Item::Constructors(name) => name@ == constructor_names(all_names.take(i as int))[k],
                        _ => false,
                    }),
            decreases structs@.len() - i,
        {
            let ghost before = out@;
            assert(all_names.take(i + 1).drop_last() =~= all_names.take(i as int));
            assert(all_names[i as int] == structs@[i as int]@);
            if needs_constructors(&structs[i]) {
                out.push(Item::Constructors(structs[i].clone()));
                assert forall|j: int| 0 <= j < n implies #[trigger] item_mapped(
                    src[j],
                    out@[j],
                    binding_fn(table),
                    true,
                ) by {
                    assert(out@[j] == before[j]);
                }
            }
            i += 1;
        }
        assert(all_names.take(all_names.len() as int) =~= all_names);
        crate::decl::File { items: out }
    }
}

proof fn lemma_struct_listed(items: Seq<Item>, i: int)
    requires
        0 <= i < items.len(),
        items[i] is Struct,
    ensures
        exists|m: int|
            0 <= m < struct_names(items).len() && #[trigger] struct_names(items)[m]
                == items[i]->Struct_0.ident@,
    decreases items.len(),
{
    let last = items.len() - 1;
    if i == last {
        assert(struct_names(items)[struct_names(items).len() - 1] == items[i]->Struct_0.ident@);
    } else {
        assert(items.drop_last()[i] == items[i]);
        lemma_struct_listed(items.drop_last(), i);
        let m = choose|m: int|
            0 <= m < struct_names(items.drop_last()).len() && #[trigger] struct_names(
                items.drop_last(),
            )[m] == items[i]->Struct_0.ident@;
        assert(struct_names(items)[m] == items[i]->Struct_0.ident@);
    }
}

proof fn lemma_constructor_listed(names: Seq<Seq<char>>, m: int)
    requires
        0 <= m < names.len(),
        !is_exempt(names[m]),
    ensures
        exists|k: int|
            0 <= k < constructor_names(names).len() && #[trigger] constructor_names(names)[k]
                == names[m],
    decreases names.len(),
{
    let last = names.len() - 1;
    if m == last {
        assert(constructor_names(names)[constructor_names(names).len() - 1] == names[m]);
    } else {
        assert(names.drop_last()[m] == names[m]);
        lemma_constructor_listed(names.drop_last(), m);
        let k = choose|k: int|
            0 <= k < constructor_names(names.drop_last()).len() && #[trigger] constructor_names(
                names.drop_last(),
            )[k] == names[m];
        assert(constructor_names(names)[k] == names[m]);
    }
}

/// Every struct of the input that is not exempt has its constructors among the
/// items that the rewrite appends.
pub proof fn lemma_constructors_for_every_struct(src: Seq<Item>, dst: Seq<Item>, i: int)
    requires
        file_rewritten(src, dst),
        0 <= i < src.len(),
        src[i] is Struct,
        !is_exempt(src[i]->Struct_0.ident@),
    ensures
        exists|k: int|
            src.len() <= k < dst.len() && (match #[trigger] dst[k] {
                Item::Constructors(name) => name@ == src[i]->Struct_0.ident@,
                _ => false,
            }),
{
    lemma_struct_listed(src, i);
    let names = struct_names(src);
    let m = choose|m: int| 0 <= m < names.len() && #[trigger] names[m] == src[i]->Struct_0.ident@;
    lemma_constructor_listed(names, m);
    let ctors = constructor_names(names);
    let k = choose|k: int| 0 <= k < ctors.len() && #[trigger] ctors[k] == names[m];
    assert(match dst[src.len() + k] {
        Item::Constructors(name) => name@ == ctors[k],
        _ => false,
    });
}

/// Whether no raw pointer occurs in any of the types.
pub open spec fn free_of_raw_ptrs(types: Seq<TypeExpr>) -> bool {
    forall|j: int| 0 <= j < types.len() ==> !has_raw_ptr(#[trigger] types[j]@)
}

pub open spec fn foreign_item_free_of_raw_ptrs(item: ForeignItem) -> bool {
    match item {
        ForeignItem::Fn(f) => free_of_raw_ptrs(f.inputs@) && match f.output {
            Some(o) => !has_raw_ptr(o@),
            None => true,
        },
        ForeignItem::Static(t) => !has_raw_ptr(t@),
        ForeignItem::Other => true,
    }
}

/// Whether no raw pointer occurs in any type that the item holds.
pub open spec fn item_free_of_raw_ptrs(item: Item) -> bool {
    match item {
        Item::Struct(st) => free_of_raw_ptrs(st.fields@),
        Item::ForeignMod(m) => forall|j: int|
            0 <= j < m.items@.len() ==> foreign_item_free_of_raw_ptrs(#[trigger] m.items@[j]),
        Item::Type(a) => !has_raw_ptr(a.ty@),
        _ => true,
    }
}

/// After the rewrite no raw pointer is left in any field, foreign signature,
/// static or alias body, at any depth.
pub proof fn lemma_no_raw_pointer_remains(src: Seq<Item>, dst: Seq<Item>)
    requires
        file_rewritten(src, dst),
    ensures
        forall|j: int| 0 <= j < dst.len() ==> item_free_of_raw_ptrs(#[trigger] dst[j]),
{
    let table = aliases_in(src);
    let f = binding_fn(table);
    assert forall|t: TypeModel| !has_raw_ptr(#[trigger] f(t)) by {
        lemma_wrap_all_leaves_no_raw_ptr(replace_aliases(t, table));
    }
    assert forall|j: int| 0 <= j < dst.len() implies item_free_of_raw_ptrs(#[trigger] dst[j]) by {
        if j < src.len() {
            assert(item_mapped(src[j], dst[j], f, true));
            match (src[j], dst[j]) {
                (Item::Struct(a), Item::Struct(b)) => {
                    assert forall|i: int| 0 <= i < b.fields@.len() implies !has_raw_ptr(
                        #[trigger] b.fields@[i]@,
                    ) by {
                        assert(b.fields@[i]@ == f(a.fields@[i]@));
                    }
                },
                (Item::ForeignMod(a), Item::ForeignMod(b)) => {
                    assert forall|i: int| 0 <= i < b.items@.len() implies foreign_item_free_of_raw_ptrs(
                        #[trigger] b.items@[i],
                    ) by {
                        assert(foreign_item_mapped(a.items@[i], b.items@[i], f));
                        match (a.items@[i], b.items@[i]) {
                            (ForeignItem::Fn(p), ForeignItem::Fn(q)) => {
                                assert forall|x: int| 0 <= x < q.inputs@.len() implies !has_raw_ptr(
                                    #[trigger] q.inputs@[x]@,
                                ) by {
                                    assert(q.inputs@[x]@ == f(p.inputs@[x]@));
                                }
                            },
                            _ => {},
                        }
                    }
                },
                _ => {},
            }
        } else {
            let k = j - src.len();
            assert(match dst[src.len() + k] {
                Item::Constructors(name) => name@ == constructor_names(struct_names(src))[k],
                _ => false,
            });
        }
    }
}

proof fn lemma_uses_seq_zero(s: Seq<TypeModel>, table: Seq<(Seq<char>, TypeModel)>)
    ensures
        alias_uses_seq(s, table) == 0 <==> forall|i: int|
            0 <= i < s.len() ==> alias_uses(#[trigger] s[i], table) == 0,
    decreases s.len(),
{
    if s.len() > 0 {
        lemma_uses_seq_zero(s.drop_last(), table);
        if alias_uses_seq(s, table) == 0 {
            assert forall|i: int| 0 <= i < s.len() implies alias_uses(#[trigger] s[i], table) == 0 by {
                if i < s.len() - 1 {
                    assert(s.drop_last()[i] == s[i]);
                }
            }
        }
        if forall|i: int| 0 <= i < s.len() ==> alias_uses(#[trigger] s[i], table) == 0 {
            assert forall|i: int| 0 <= i < s.drop_last().len() implies alias_uses(
                #[trigger] s.drop_last()[i],
                table,
            ) == 0 by {
                assert(s.drop_last()[i] == s[i]);
            }
            assert(alias_uses(s[s.len() - 1], table) == 0);
        }
    }
}

proof fn lemma_resolve_in_table(table: Seq<(Seq<char>, TypeModel)>, name: Seq<char>)
    requires
        resolve(table, name) is Some,
    ensures
        exists|i: int| 0 <= i < table.len() && #[trigger] table[i].1 == resolve(table, name)->0,
    decreases table.len(),
{
    if table.last().0 != name {
        lemma_resolve_in_table(table.drop_last(), name);
        let i = choose|i: int|
            0 <= i < table.drop_last().len() && #[trigger] table.drop_last()[i].1 == resolve(
                table.drop_last(),
                name,
            )->0;
        assert(table[i].1 == resolve(table, name)->0);
    } else {
        assert(table[table.len() - 1].1 == resolve(table, name)->0);
    }
}

/// Once aliases are resolved no path names an alias any more, at any depth
/// (inside pointers, function signatures and generic arguments alike),
/// provided that no alias target itself names an alias.
pub proof fn lemma_alias_uses_replaced(t: TypeModel, table: Seq<(Seq<char>, TypeModel)>)
    requires
        forall|i: int| 0 <= i < table.len() ==> alias_uses(#[trigger] table[i].1, table) == 0,
    ensures
        alias_uses(replace_aliases(t, table), table) == 0,
    decreases t,
{
    let r = replace_aliases(t, table);
    match aliased_target(t, table) {
        Some(target) => {
            lemma_resolve_in_table(table, first_ident(t)->0);
            lemma_uses_seq_zero(r.children, table);
        },
        None => {
            let rs = replace_aliases_seq(t.children, table);
            assert forall|i: int| 0 <= i < rs.len() implies alias_uses(#[trigger] rs[i], table) == 0 by {
                lemma_alias_uses_replaced(t.children[i], table);
            }
            lemma_uses_seq_zero(rs, table);
            if t.children.len() > 0 {
                let c = t.children[0];
                if c.kind is Segment {
                    assert(aliased_target(c, table) is None);
                    assert(rs[0].kind == c.kind);
                } else if c.kind is Path {
                } else {
                    assert(aliased_target(c, table) is None);
                }
            }
            assert(aliased_target(r, table) is None);
        },
    }
}

} // verus!
