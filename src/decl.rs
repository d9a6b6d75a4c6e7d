//! A model of the declarations that a header scraper emits: a uniform tree of
//! type nodes, and the items (structs, foreign blocks, type aliases) that hold
//! them.
use vstd::prelude::*;

verus! {

/// How a path segment carries its arguments.
#[derive(Debug, Clone, PartialEq, Eq)]
pub enum ArgsForm {
    /// `Name`
    Bare,
    /// `Name<A, B>`
    AngleBracketed,
    /// `Name(A, B) -> C`; the output, when present, is the last child.
    Parenthesized { has_output: bool },
}

/// What a type node is, apart from its children.
#[derive(Debug, Clone, PartialEq, Eq)]
pub enum TypeKind {
    /// `*const T` or `*mut T`; one child, the pointee.
    Ptr { mutable: bool },
    /// The arena pointer wrapper `PgPtr<T>`; one child, the pointee.
    ArenaPtr,
    /// A bare function type; one `Binding` child per input, then the output
    /// type when `has_output` holds.
    BareFn { unsafety: bool, abi: Option<String>, variadic: bool, has_output: bool },
    /// An input of a bare function type, optionally named; one child.
    Binding { name: Option<String> },
    /// An invisible group; one child.
    Group,
    /// A parenthesized type; one child.
    Paren,
    /// A path; one `Segment` child per segment.
    Path { leading_colon: bool },
    /// A path segment; its children are its type arguments, in order.
    Segment { ident: String, form: ArgsForm },
    /// A type or argument that the passes leave as it is (arrays, references,
    /// lifetimes, constants), kept as source text; no children.
    Verbatim(String),
}

/// A type as a tree of nodes.
#[derive(Debug, PartialEq, Eq)]
pub struct TypeExpr {
    pub kind: TypeKind,
    pub children: Vec<TypeExpr>,
}

/// The mathematical value of a [`TypeExpr`].
pub struct TypeModel {
    pub kind: TypeKind,
    pub children: Seq<TypeModel>,
}

pub open spec fn model_of(t: TypeExpr) -> TypeModel
    decreases t,
{
    TypeModel {
        kind: t.kind,
        children: Seq::new(
            t.children@.len(),
            |i: int|
                if 0 <= i < t.children@.len() {
                    model_of(t.children@[i])
                } else {
                    TypeModel { kind: t.kind, children: Seq::empty() }
                },
        ),
    }
}

impl View for TypeExpr {
    type V = TypeModel;

    open spec fn view(&self) -> TypeModel {
        model_of(*self)
    }
}

/// The models of a sequence of type trees.
pub open spec fn models(s: Seq<TypeExpr>) -> Seq<TypeModel> {
    Seq::new(s.len(), |i: int| s[i]@)
}

pub proof fn lemma_children_models(t: TypeExpr)
    ensures
        t@.children == models(t.children@),
        t@.kind == t.kind,
{
    assert(t@.children =~= models(t.children@));
}

/// The number of raw pointer nodes in the tree.
pub open spec fn ptr_count(t: TypeModel) -> nat
    decreases t,
{
    (if t.kind is Ptr { 1nat } else { 0nat }) + ptr_count_seq(t.children)
}

pub open spec fn ptr_count_seq(s: Seq<TypeModel>) -> nat
    decreases s,
{
    if s.len() == 0 {
        0
    } else {
        ptr_count_seq(s.drop_last()) + ptr_count(s.last())
    }
}

/// Whether a raw pointer occurs anywhere in the tree.
pub open spec fn has_raw_ptr(t: TypeModel) -> bool {
    ptr_count(t) > 0
}

/// A sequence of trees holds no raw pointer exactly when none of them does.
pub proof fn lemma_count_seq_zero(s: Seq<TypeModel>)
    ensures
        ptr_count_seq(s) == 0 <==> forall|i: int| 0 <= i < s.len() ==> ptr_count(#[trigger] s[i]) == 0,
    decreases s.len(),
{
    if s.len() > 0 {
        lemma_count_seq_zero(s.drop_last());
        if ptr_count_seq(s) == 0 {
            assert forall|i: int| 0 <= i < s.len() implies ptr_count(#[trigger] s[i]) == 0 by {
                if i < s.len() - 1 {
                    assert(s.drop_last()[i] == s[i]);
                }
            }
        }
        if forall|i: int| 0 <= i < s.len() ==> ptr_count(#[trigger] s[i]) == 0 {
            assert forall|i: int| 0 <= i < s.drop_last().len() implies ptr_count(
                #[trigger] s.drop_last()[i],
            ) == 0 by {
                assert(s.drop_last()[i] == s[i]);
            }
            assert(ptr_count(s[s.len() - 1]) == 0);
        }
    }
}

/// One level of wrapping: each outermost raw pointer becomes an arena pointer
/// over the same pointee, which is left for the next level.
pub open spec fn wrap_step(t: TypeModel) -> TypeModel
    decreases t,
{
    if t.kind is Ptr {
        TypeModel { kind: TypeKind::ArenaPtr, children: t.children }
    } else {
        TypeModel { kind: t.kind, children: wrap_step_seq(t.children) }
    }
}

pub open spec fn wrap_step_seq(s: Seq<TypeModel>) -> Seq<TypeModel>
    decreases s,
{
    Seq::new(s.len(), |i: int| if 0 <= i < s.len() { wrap_step(s[i]) } else { s[0] })
}

/// Every raw pointer, at every depth, replaced by the arena pointer wrapper.
pub open spec fn wrap_all(t: TypeModel) -> TypeModel
    decreases t,
{
    TypeModel {
        kind: if t.kind is Ptr { TypeKind::ArenaPtr } else { t.kind },
        children: wrap_all_seq(t.children),
    }
}

pub open spec fn wrap_all_seq(s: Seq<TypeModel>) -> Seq<TypeModel>
    decreases s,
{
    Seq::new(s.len(), |i: int| if 0 <= i < s.len() { wrap_all(s[i]) } else { s[0] })
}

proof fn lemma_count_drop_last_step(s: Seq<TypeModel>)
    requires
        s.len() > 0,
    ensures
        wrap_step_seq(s).drop_last() == wrap_step_seq(s.drop_last()),
        wrap_step_seq(s).last() == wrap_step(s.last()),
{
    assert(wrap_step_seq(s).drop_last() =~= wrap_step_seq(s.drop_last()));
}

/// A wrapping step never adds raw pointers, and removes one wherever one is.
pub proof fn lemma_step_count(t: TypeModel)
    ensures
        ptr_count(wrap_step(t)) <= ptr_count(t),
        has_raw_ptr(t) ==> ptr_count(wrap_step(t)) < ptr_count(t),
    decreases t, 0nat,
{
    if !(t.kind is Ptr) {
        lemma_step_count_seq(t.children);
    }
}

proof fn lemma_step_count_seq(s: Seq<TypeModel>)
    ensures
        ptr_count_seq(wrap_step_seq(s)) <= ptr_count_seq(s),
        ptr_count_seq(s) > 0 ==> ptr_count_seq(wrap_step_seq(s)) < ptr_count_seq(s),
    decreases s, s.len(),
{
    if s.len() > 0 {
        lemma_count_drop_last_step(s);
        lemma_step_count_seq(s.drop_last());
        lemma_step_count(s.last());
    }
}

/// On a tree without raw pointers both passes change nothing.
pub proof fn lemma_idle(t: TypeModel)
    requires
        !has_raw_ptr(t),
    ensures
        wrap_step(t) == t,
        wrap_all(t) == t,
    decreases t,
{
    lemma_count_seq_zero(t.children);
    assert forall|i: int| 0 <= i < t.children.len() implies wrap_step(t.children[i]) == t.children[i]
        && wrap_all(t.children[i]) == t.children[i] by {
        lemma_idle(t.children[i]);
    }
    assert(wrap_step_seq(t.children) =~= t.children);
    assert(wrap_all_seq(t.children) =~= t.children);
}

/// Wrapping everything after one step gives what wrapping everything gives.
pub proof fn lemma_step_then_all(t: TypeModel)
    ensures
        wrap_all(wrap_step(t)) == wrap_all(t),
    decreases t,
{
    if t.kind is Ptr {
    } else {
        assert forall|i: int| 0 <= i < t.children.len() implies wrap_all(wrap_step(t.children[i]))
            == wrap_all(t.children[i]) by {
            lemma_step_then_all(t.children[i]);
        }
        assert(wrap_all_seq(wrap_step_seq(t.children)) =~= wrap_all_seq(t.children));
    }
}

/// No raw pointer is left once everything is wrapped.
pub proof fn lemma_wrap_all_leaves_no_raw_ptr(t: TypeModel)
    ensures
        !has_raw_ptr(wrap_all(t)),
    decreases t,
{
    assert forall|i: int| 0 <= i < t.children.len() implies ptr_count(
        #[trigger] wrap_all_seq(t.children)[i],
    ) == 0 by {
        lemma_wrap_all_leaves_no_raw_ptr(t.children[i]);
    }
    lemma_count_seq_zero(wrap_all_seq(t.children));
}

/// A type alias whose body is a pointer to a path, recorded by name.
#[derive(Debug, PartialEq, Eq)]
pub struct Alias {
    pub name: String,
    pub target: TypeExpr,
}

pub open spec fn alias_table(a: Seq<Alias>) -> Seq<(Seq<char>, TypeModel)> {
    Seq::new(a.len(), |i: int| (a[i].name@, a[i].target@))
}

/// The target of the last alias named `name`, if any.
pub open spec fn resolve(table: Seq<(Seq<char>, TypeModel)>, name: Seq<char>) -> Option<TypeModel>
    decreases table.len(),
{
    if table.len() == 0 {
        None
    } else if table.last().0 == name {
        Some(table.last().1)
    } else {
        resolve(table.drop_last(), name)
    }
}

/// The identifier of the first segment of a path.
pub open spec fn first_ident(t: TypeModel) -> Option<Seq<char>> {
    if (t.kind is Path) && t.children.len() > 0 {
        match t.children[0].kind {
            TypeKind::Segment { ident, .. } => Some(ident@),
            _ => None,
        }
    } else {
        None
    }
}

/// The alias target that a path names, if it names one.
pub open spec fn aliased_target(t: TypeModel, table: Seq<(Seq<char>, TypeModel)>) -> Option<TypeModel> {
    match first_ident(t) {
        Some(name) => resolve(table, name),
        None => None,
    }
}

/// Every path that names an alias replaced by a mutable raw pointer to the
/// alias target; all other nodes kept, with their children treated alike.
pub open spec fn replace_aliases(t: TypeModel, table: Seq<(Seq<char>, TypeModel)>) -> TypeModel
    decreases t,
{
    match aliased_target(t, table) {
        Some(target) => TypeModel { kind: TypeKind::Ptr { mutable: true }, children: seq![target] },
        None => TypeModel { kind: t.kind, children: replace_aliases_seq(t.children, table) },
    }
}

pub open spec fn replace_aliases_seq(
    s: Seq<TypeModel>,
    table: Seq<(Seq<char>, TypeModel)>,
) -> Seq<TypeModel>
    decreases s,
{
    Seq::new(
        s.len(),
        |i: int| if 0 <= i < s.len() { replace_aliases(s[i], table) } else { s[0] },
    )
}

/// Whether a path anywhere in the tree names an alias.
pub open spec fn alias_uses(t: TypeModel, table: Seq<(Seq<char>, TypeModel)>) -> nat
    decreases t,
{
    (if aliased_target(t, table) is Some { 1nat } else { 0nat }) + alias_uses_seq(t.children, table)
}

pub open spec fn alias_uses_seq(s: Seq<TypeModel>, table: Seq<(Seq<char>, TypeModel)>) -> nat
    decreases s,
{
    if s.len() == 0 {
        0
    } else {
        alias_uses_seq(s.drop_last(), table) + alias_uses(s.last(), table)
    }
}

/// A struct declaration; the type of each field, in order.
#[derive(Debug, PartialEq, Eq)]
pub struct ItemStruct {
    pub ident: String,
    pub fields: Vec<TypeExpr>,
}

/// A function declared in a foreign block: its input types and output type.
#[derive(Debug, PartialEq, Eq)]
pub struct ForeignFn {
    pub inputs: Vec<TypeExpr>,
    pub output: Option<TypeExpr>,
}

#[derive(Debug, PartialEq, Eq)]
pub enum ForeignItem {
    Fn(ForeignFn),
    /// A static; its type.
    Static(TypeExpr),
    Other,
}

/// A block of foreign declarations, with the names of its attributes.
#[derive(Debug, PartialEq, Eq)]
pub struct ItemForeignMod {
    pub attrs: Vec<String>,
    pub items: Vec<ForeignItem>,
}

/// A type alias `type ident = ty;`.
#[derive(Debug, PartialEq, Eq)]
pub struct ItemType {
    pub ident: String,
    pub ty: TypeExpr,
}

#[derive(Debug, PartialEq, Eq)]
pub enum Item {
    Struct(ItemStruct),
    ForeignMod(ItemForeignMod),
    Type(ItemType),
    /// The two allocating constructors (uninitialized and zeroed) of the
    /// arena pointer to the named struct, each sized to that struct.
    Constructors(String),
    Other,
}

/// A declaration module.
#[derive(Debug, PartialEq, Eq)]
pub struct File {
    pub items: Vec<Item>,
}

/// The alias recorded for an item: a type alias whose body is a pointer to a
/// path.
pub open spec fn alias_of(item: Item) -> Option<(Seq<char>, TypeModel)> {
    match item {
        Item::Type(a) => if (a.ty@.kind is Ptr) && a.ty@.children.len() > 0
            && (a.ty@.children[0].kind is Path) {
            Some((a.ident@, a.ty@.children[0]))
        } else {
            None
        },
        _ => None,
    }
}

/// The aliases of a declaration list, in order.
pub open spec fn aliases_in(items: Seq<Item>) -> Seq<(Seq<char>, TypeModel)>
    decreases items.len(),
{
    if items.len() == 0 {
        Seq::empty()
    } else {
        match alias_of(items.last()) {
            Some(a) => aliases_in(items.drop_last()).push(a),
            None => aliases_in(items.drop_last()),
        }
    }
}

/// The names of the structs of a declaration list, in order.
pub open spec fn struct_names(items: Seq<Item>) -> Seq<Seq<char>>
    decreases items.len(),
{
    if items.len() == 0 {
        Seq::empty()
    } else {
        match items.last() {
            Item::Struct(s) => struct_names(items.drop_last()).push(s.ident@),
            _ => struct_names(items.drop_last()),
        }
    }
}

pub open spec fn names_of(v: Seq<String>) -> Seq<Seq<char>> {
    Seq::new(v.len(), |i: int| v[i]@)
}

/// Structs that get no synthesized constructors: the two container records and
/// any name reserved by a leading underscore.
pub open spec fn is_exempt(name: Seq<char>) -> bool {
    name == "List"@ || name == "RelationData"@ || (name.len() > 0 && name[0] == '_')
}

/// The names, in order, that are not exempt.
pub open spec fn constructor_names(names: Seq<Seq<char>>) -> Seq<Seq<char>>
    decreases names.len(),
{
    if names.len() == 0 {
        Seq::empty()
    } else if is_exempt(names.last()) {
        constructor_names(names.drop_last())
    } else {
        constructor_names(names.drop_last()).push(names.last())
    }
}

/// `dst` holds `f` of each type of `src`, in order.
pub open spec fn types_mapped(
    src: Seq<TypeExpr>,
    dst: Seq<TypeExpr>,
    f: spec_fn(TypeModel) -> TypeModel,
) -> bool {
    &&& dst.len() == src.len()
    &&& forall|j: int| 0 <= j < src.len() ==> #[trigger] dst[j]@ == f(src[j]@)
}

pub open spec fn output_mapped(
    src: Option<TypeExpr>,
    dst: Option<TypeExpr>,
    f: spec_fn(TypeModel) -> TypeModel,
) -> bool {
    match (src, dst) {
        (None, None) => true,
        (Some(a), Some(b)) => b@ == f(a@),
        _ => false,
    }
}

pub open spec fn foreign_item_mapped(
    src: ForeignItem,
    dst: ForeignItem,
    f: spec_fn(TypeModel) -> TypeModel,
) -> bool {
    match (src, dst) {
        (ForeignItem::Fn(a), ForeignItem::Fn(b)) => types_mapped(a.inputs@, b.inputs@, f)
            && output_mapped(a.output, b.output, f),
        (ForeignItem::Static(a), ForeignItem::Static(b)) => b@ == f(a@),
        (ForeignItem::Other, ForeignItem::Other) => true,
        _ => false,
    }
}

pub open spec fn foreign_items_mapped(
    src: Seq<ForeignItem>,
    dst: Seq<ForeignItem>,
    f: spec_fn(TypeModel) -> TypeModel,
) -> bool {
    &&& dst.len() == src.len()
    &&& forall|j: int| 0 <= j < src.len() ==> #[trigger] foreign_item_mapped(src[j], dst[j], f)
}

/// The name of the attribute that guards calls across a foreign block.
pub open spec fn guard_marker() -> Seq<char> {
    "pg_guard"@
}

/// `dst` is `src`, with the guard marker appended when `guard` holds.
pub open spec fn attrs_extended(src: Seq<String>, dst: Seq<String>, guard: bool) -> bool {
    if guard {
        &&& dst.len() == src.len() + 1
        &&& dst.take(src.len() as int) == src
        &&& dst.last()@ == guard_marker()
    } else {
        dst == src
    }
}

/// `dst` is `src` with `f` applied to each of its types; when `guard` holds, a
/// foreign block also gets the guard marker.
pub open spec fn item_mapped(
    src: Item,
    dst: Item,
    f: spec_fn(TypeModel) -> TypeModel,
    guard: bool,
) -> bool {
    match (src, dst) {
        (Item::Struct(a), Item::Struct(b)) => a.ident == b.ident && types_mapped(
            a.fields@,
            b.fields@,
            f,
        ),
        (Item::ForeignMod(a), Item::ForeignMod(b)) => attrs_extended(a.attrs@, b.attrs@, guard)
            && foreign_items_mapped(a.items@, b.items@, f),
        (Item::Type(a), Item::Type(b)) => a.ident == b.ident && b.ty@ == f(a.ty@),
        (Item::Constructors(a), Item::Constructors(b)) => a == b,
        (Item::Other, Item::Other) => true,
        _ => false,
    }
}

pub open spec fn items_mapped(
    src: Seq<Item>,
    dst: Seq<Item>,
    f: spec_fn(TypeModel) -> TypeModel,
    guard: bool,
) -> bool {
    &&& dst.len() == src.len()
    &&& forall|j: int| 0 <= j < src.len() ==> #[trigger] item_mapped(src[j], dst[j], f, guard)
}

/// What the whole rewrite does to a type: aliases resolved, then every raw
/// pointer wrapped.
pub open spec fn binding_type(t: TypeModel, table: Seq<(Seq<char>, TypeModel)>) -> TypeModel {
    wrap_all(replace_aliases(t, table))
}

pub open spec fn binding_fn(table: Seq<(Seq<char>, TypeModel)>) -> spec_fn(TypeModel) -> TypeModel {
    |t: TypeModel| binding_type(t, table)
}

/// `dst` is the rewrite of `src`: each item with its aliases resolved, its
/// pointers wrapped and its foreign blocks guarded, followed by the
/// constructors of each struct that is not exempt.
pub open spec fn file_rewritten(src: Seq<Item>, dst: Seq<Item>) -> bool {
    let n = src.len();
    let table = aliases_in(src);
    let ctors = constructor_names(struct_names(src));
    &&& dst.len() == n + ctors.len()
    &&& forall|j: int|
        0 <= j < n ==> #[trigger] item_mapped(src[j], dst[j], binding_fn(table), true)
    &&& forall|k: int|
        0 <= k < ctors.len() ==> (match #[trigger] dst[n + k] {
            Item::Constructors(name) => name@ == ctors[k],
            _ => false,
        })
}

impl ArgsForm {
    pub fn duplicate(&self) -> (r: ArgsForm)
        ensures
            r == *self,
    {
        match self {
            ArgsForm::Bare => ArgsForm::Bare,
            ArgsForm::AngleBracketed => ArgsForm::AngleBracketed,
            ArgsForm::Parenthesized { has_output } => ArgsForm::Parenthesized { has_output: *has_output },
        }
    }
}

fn duplicate_name(n: &Option<String>) -> (r: Option<String>)
    ensures
        r == *n,
{
    match n {
        Some(s) => Some(s.clone()),
        None => None,
    }
}

impl TypeKind {
    pub fn duplicate(&self) -> (r: TypeKind)
        ensures
            r == *self,
    {
        match self {
            TypeKind::Ptr { mutable } => TypeKind::Ptr { mutable: *mutable },
            TypeKind::ArenaPtr => TypeKind::ArenaPtr,
            TypeKind::BareFn { unsafety, abi, variadic, has_output } => TypeKind::BareFn {
                unsafety: *unsafety,
                abi: duplicate_name(abi),
                variadic: *variadic,
                has_output: *has_output,
            },
            TypeKind::Binding { name } => TypeKind::Binding { name: duplicate_name(name) },
            TypeKind::Group => TypeKind::Group,
            TypeKind::Paren => TypeKind::Paren,
            TypeKind::Path { leading_colon } => TypeKind::Path { leading_colon: *leading_colon },
            TypeKind::Segment { ident, form } => TypeKind::Segment {
                ident: ident.clone(),
                form: form.duplicate(),
            },
            TypeKind::Verbatim(text) => TypeKind::Verbatim(text.clone()),
        }
    }
}

impl TypeExpr {
    /// A deep copy of the tree.
    pub fn duplicate(&self) -> (r: TypeExpr)
        ensures
            r@ == self@,
        decreases self,
    {
        let mut children: Vec<TypeExpr> = Vec::new();
        let mut i: usize = 0;
        while i < self.children.len()
            invariant
                i <= self.children@.len(),
                children@.len() == i,
                forall|j: int| 0 <= j < i ==> #[trigger] children@[j]@ == self.children@[j]@,
            decreases self.children@.len() - i,
        {
            let c = self.children[i].duplicate();
            children.push(c);
            i += 1;
        }
        let r = TypeExpr { kind: self.kind.duplicate(), children };
        proof {
            lemma_children_models(r);
            lemma_children_models(*self);
            assert(models(children@) =~= models(self.children@));
        }
        r
    }
}

} // verus!
