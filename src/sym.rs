//! The symbolic layer: resolved structural types and lexical scopes.
//!
//! A structural type lives in a slot of a `TypeArena` and is referred to by
//! its slot's handle. A slot is registered empty, so that other types (and the
//! type itself) can refer to it before its members are known, and is filled
//! exactly once. This is what lets self-referential and mutually recursive
//! types be written down without ordering the declarations first.
use std::collections::HashMap;
use vstd::prelude::*;
use crate::map::{lemma_usize_clones_exactly, OrderedHashMap};

verus! {

broadcast use vstd::std_specs::hash::group_hash_axioms;

#[derive(Clone, Debug)]
pub struct Field {
    pub ident: String,
    pub ty: Type,
}

#[derive(Clone, Debug)]
pub struct RecordType {
    pub fields: Vec<Field>,
    /// Field name (its id in a `NameTable`) to position in `fields`.
    pub names: HashMap<usize, usize>,
}

#[derive(Clone, Debug)]
pub struct Variant {
    pub ident: String,
    pub ty: Type,
}

#[derive(Clone, Debug)]
pub struct UnionType {
    pub variants: Vec<Variant>,
    /// Variant name (its id in a `NameTable`) to position in `variants`.
    pub names: HashMap<usize, usize>,
}

#[derive(Clone, Copy, Debug, PartialEq, Eq)]
pub struct NatType {}

#[derive(Clone, Copy, Debug, PartialEq, Eq)]
pub enum PrimitiveType {
    Nat(NatType),
}

#[derive(Clone, Debug)]
pub struct FuncType {
    pub params: RecordType,
    pub results: Type,
}

/// A resolved type. A record or union is named by the handle of its slot in
/// the `TypeArena` that holds it.
#[derive(Clone, Copy, Debug, PartialEq, Eq)]
pub enum Type {
    Primitive(PrimitiveType),
    Record(usize),
    Union(usize),
}

#[derive(Clone, Copy, Debug, PartialEq, Eq)]
pub struct NatExpr {
    pub val: u128,
}

#[derive(Debug)]
pub struct Case<'a> {
    pub pattern: Expr<'a>,
    pub expr: Scope<'a>,
}

#[derive(Debug)]
pub struct Match<'a> {
    pub cases: Vec<Case<'a>>,
}

#[derive(Debug)]
pub enum Expr<'a> {
    Nat(NatExpr),
    Match(Match<'a>),
}

#[derive(Debug)]
pub struct LetDecl<'a> {
    pub ident: String,
    pub expr: Expr<'a>,
}

#[derive(Debug)]
pub struct VarDecl<'a> {
    pub ident: String,
    pub expr: Expr<'a>,
}

#[derive(Clone, Debug)]
pub struct TypeAliasDecl {
    pub ident: String,
    pub ty: Type,
}

#[derive(Debug)]
pub enum Decl<'a> {
    Let(LetDecl<'a>),
    Var(VarDecl<'a>),
    TypeAlias(TypeAliasDecl),
}

/// The declarations of one lexical scope, in order and by name id, and its tail expression.
#[derive(Debug)]
pub struct Scope<'a> {
    pub decls: OrderedHashMap<usize, &'a Decl<'a>>,
    pub expr: Expr<'a>,
}

/// An error of the symbolic layer.
#[derive(Clone, Debug, PartialEq, Eq)]
pub enum SymbolError {
    /// No enclosing scope declares the name with this id.
    UnresolvedReference { name: usize },
    /// The type's members were asked for before they were resolved.
    UnresolvedType { handle: usize },
    /// The type's members were resolved already; they are set only once.
    AlreadyResolved { handle: usize },
    /// No slot has this handle.
    UnknownType { handle: usize },
}

/// Interned names: the id of a name is its position in `names`, and no name
/// is held twice.
#[derive(Clone, Debug)]
pub struct NameTable {
    pub names: Vec<String>,
}

impl NameTable {
    pub open spec fn view(&self) -> Seq<Seq<char>> {
        self.names@.map_values(|s: String| s@)
    }

    pub open spec fn wf(&self) -> bool {
        forall|i: int, j: int| 0 <= i < j < self.names@.len() ==> self.names@[i]@ != self.names@[j]@
    }

    pub fn new() -> (r: NameTable)
        ensures
            r.wf(),
            r@ == Seq::<Seq<char>>::empty(),
    {
        let r = NameTable { names: Vec::new() };
        assert(r@ =~= Seq::<Seq<char>>::empty());
        r
    }

    /// The id of `name`, added at the end when it is new.
    pub fn intern(&mut self, name: &str) -> (id: usize)
        requires
            old(self).wf(),
        ensures
            final(self).wf(),
            id < final(self)@.len(),
            final(self)@[id as int] == name@,
            old(self)@.contains(name@) ==> final(self)@ == old(self)@,
            !old(self)@.contains(name@) ==> final(self)@ == old(self)@.push(name@),
    {
        let s = String::from_str(name);
        let mut i: usize = 0;
        while i < self.names.len()
            invariant
                i <= self.names@.len(),
                self == old(self),
                self.wf(),
                s@ == name@,
                forall|j: int| 0 <= j < i ==> self.names@[j]@ != name@,
            decreases self.names.len() - i,
        {
            if self.names[i] == s {
                return i;
            }
            i = i + 1;
        }
        proof {
            assert forall|w: int| 0 <= w < old(self)@.len() implies old(self)@[w] != name@ by {
                assert(old(self)@[w] == self.names@[w]@);
            }
        }
        self.names.push(s);
        proof {
            assert(self@ =~= old(self)@.push(name@));
        }
        self.names.len() - 1
    }

    /// The text of the name with id `id`.
    pub fn text(&self, id: usize) -> (r: &str)
        requires
            id < self@.len(),
        ensures
            r@ == self@[id as int],
    {
        self.names[id].as_str()
    }
}

/// The position of the last field of `s` named `name`.
pub open spec fn last_field(s: Seq<Field>, name: Seq<char>) -> Option<usize>
    decreases s.len(),
{
    if s.len() == 0 {
        None
    } else if s.last().ident@ == name {
        Some((s.len() - 1) as usize)
    } else {
        last_field(s.drop_last(), name)
    }
}

impl RecordType {
    /// The fields' names index: for each interned name, the position of the
    /// last field that bears it.
    pub open spec fn indexes(&self, table: Seq<Seq<char>>) -> bool {
        forall|id: usize| #[trigger]
            self.names@.get(id) == if id < table.len() {
                last_field(self.fields@, table[id as int])
            } else {
                None
            }
    }

    /// The fields, indexed by their names as interned in `table`; a repeated
    /// name finds its last field.
    pub fn new(fields: Vec<Field>, table: &mut NameTable) -> (r: RecordType)
        requires
            old(table).wf(),
        ensures
            r.fields@ == fields@,
            final(table).wf(),
            final(table)@.len() >= old(table)@.len(),
            final(table)@.subrange(0, old(table)@.len() as int) == old(table)@,
            forall|j: int| 0 <= j < fields@.len() ==> final(table)@.contains(#[trigger] fields@[j].ident@),
            r.indexes(final(table)@),
    {
        let mut names: HashMap<usize, usize> = HashMap::new();
        let mut i: usize = 0;
        assert(names@ =~= Map::<usize, usize>::empty());
        while i < fields.len()
            invariant
                i <= fields.len(),
                table.wf(),
                table@.len() >= old(table)@.len(),
                table@.subrange(0, old(table)@.len() as int) == old(table)@,
                forall|j: int| 0 <= j < i ==> table@.contains(#[trigger] fields@[j].ident@),
                forall|id: usize| #[trigger]
                    names@.get(id) == if id < table@.len() {
                        last_field(fields@.subrange(0, i as int), table@[id as int])
                    } else {
                        None
                    },
            decreases fields.len() - i,
        {
            let ghost before = table@;
            let ghost before_names = names@;
            let id = table.intern(fields[i].ident.as_str());
            names.insert(id, i);
            proof {
                let sub = fields@.subrange(0, i + 1);
                assert(sub.drop_last() =~= fields@.subrange(0, i as int));
                assert(sub.last() == fields@[i as int]);
                assert forall|k: usize| #[trigger]
                    names@.get(k) == if k < table@.len() {
                        last_field(sub, table@[k as int])
                    } else {
                        None
                    } by {
                    if k == id {
                    } else {
                        assert(names@.get(k) == before_names.get(k));
                        if k < table@.len() {
                            assert(table@[k as int] != table@[id as int]);
                            if k < before.len() {
                                assert(table@[k as int] == before[k as int]);
                            }
                        }
                    }
                }
                assert forall|j: int| 0 <= j < i + 1 implies table@.contains(#[trigger] fields@[j].ident@) by {
                    if j < i {
                        let w = choose|w: int| 0 <= w < before.len() && before[w] == fields@[j].ident@;
                        assert(table@[w] == before[w]);
                    } else {
                        assert(table@[id as int] == fields@[j].ident@);
                    }
                }
                assert(table@.subrange(0, old(table)@.len() as int) =~= old(table)@) by {
                    assert(before.subrange(0, old(table)@.len() as int) == old(table)@);
                }
            }
            i = i + 1;
        }
        assert(fields@.subrange(0, fields.len() as int) =~= fields@);
        RecordType { fields, names }
    }

    /// The position of the field whose name has the id `name`.
    pub fn field_index(&self, name: usize) -> (r: Option<usize>)
        ensures
            r == self.names@.get(name),
    {
        match self.names.get(&name) {
            Some(i) => Some(*i),
            None => None,
        }
    }
}

/// The position of the last variant of `s` named `name`.
pub open spec fn last_variant(s: Seq<Variant>, name: Seq<char>) -> Option<usize>
    decreases s.len(),
{
    if s.len() == 0 {
        None
    } else if s.last().ident@ == name {
        Some((s.len() - 1) as usize)
    } else {
        last_variant(s.drop_last(), name)
    }
}

impl UnionType {
    /// The variants' names index: for each interned name, the position of the
    /// last variant that bears it.
    pub open spec fn indexes(&self, table: Seq<Seq<char>>) -> bool {
        forall|id: usize| #[trigger]
            self.names@.get(id) == if id < table.len() {
                last_variant(self.variants@, table[id as int])
            } else {
                None
            }
    }

    /// The variants, indexed by their names as interned in `table`; a repeated
    /// name finds its last variant.
    pub fn new(variants: Vec<Variant>, table: &mut NameTable) -> (r: UnionType)
        requires
            old(table).wf(),
        ensures
            r.variants@ == variants@,
            final(table).wf(),
            final(table)@.len() >= old(table)@.len(),
            final(table)@.subrange(0, old(table)@.len() as int) == old(table)@,
            forall|j: int| 0 <= j < variants@.len() ==> final(table)@.contains(#[trigger] variants@[j].ident@),
            r.indexes(final(table)@),
    {
        let mut names: HashMap<usize, usize> = HashMap::new();
        let mut i: usize = 0;
        assert(names@ =~= Map::<usize, usize>::empty());
        while i < variants.len()
            invariant
                i <= variants.len(),
                table.wf(),
                table@.len() >= old(table)@.len(),
                table@.subrange(0, old(table)@.len() as int) == old(table)@,
                forall|j: int| 0 <= j < i ==> table@.contains(#[trigger] variants@[j].ident@),
                forall|id: usize| #[trigger]
                    names@.get(id) == if id < table@.len() {
                        last_variant(variants@.subrange(0, i as int), table@[id as int])
                    } else {
                        None
                    },
            decreases variants.len() - i,
        {
            let ghost before = table@;
            let ghost before_names = names@;
            let id = table.intern(variants[i].ident.as_str());
            names.insert(id, i);
            proof {
                let sub = variants@.subrange(0, i + 1);
                assert(sub.drop_last() =~= variants@.subrange(0, i as int));
                assert(sub.last() == variants@[i as int]);
                assert forall|k: usize| #[trigger]
                    names@.get(k) == if k < table@.len() {
                        last_variant(sub, table@[k as int])
                    } else {
                        None
                    } by {
                    if k == id {
                    } else {
                        assert(names@.get(k) == before_names.get(k));
                        if k < table@.len() {
                            assert(table@[k as int] != table@[id as int]);
                            if k < before.len() {
                                assert(table@[k as int] == before[k as int]);
                            }
                        }
                    }
                }
                assert forall|j: int| 0 <= j < i + 1 implies table@.contains(#[trigger] variants@[j].ident@) by {
                    if j < i {
                        let w = choose|w: int| 0 <= w < before.len() && before[w] == variants@[j].ident@;
                        assert(table@[w] == before[w]);
                    } else {
                        assert(table@[id as int] == variants@[j].ident@);
                    }
                }
                assert(table@.subrange(0, old(table)@.len() as int) =~= old(table)@) by {
                    assert(before.subrange(0, old(table)@.len() as int) == old(table)@);
                }
            }
            i = i + 1;
        }
        assert(variants@.subrange(0, variants.len() as int) =~= variants@);
        UnionType { variants, names }
    }

    /// The position of the variant whose name has the id `name`.
    pub fn variant_index(&self, name: usize) -> (r: Option<usize>)
        ensures
            r == self.names@.get(name),
    {
        match self.names.get(&name) {
            Some(i) => Some(*i),
            None => None,
        }
    }
}

/// The members of a structural type.
#[derive(Clone, Debug)]
pub enum Structure {
    Record(RecordType),
    Union(UnionType),
}

/// The slots of the structural types of one compilation unit; `None` is a
/// slot registered and not yet resolved.
#[derive(Clone, Debug)]
pub struct TypeArena {
    pub slots: Vec<Option<Structure>>,
}

impl TypeArena {
    pub fn new() -> (r: TypeArena)
        ensures
            r.slots@ == Seq::<Option<Structure>>::empty(),
    {
        TypeArena { slots: Vec::new() }
    }

    /// Opens an empty slot and returns its handle, by which the type can be
    /// referred to before its members are known.
    pub fn register(&mut self) -> (r: usize)
        requires
            old(self).slots@.len() < usize::MAX,
        ensures
            r == old(self).slots@.len(),
            final(self).slots@ == old(self).slots@.push(None),
    {
        self.slots.push(None);
        self.slots.len() - 1
    }

    /// Fills the slot `handle` with the type's members, once.
    pub fn resolve(&mut self, handle: usize, members: Structure) -> (r: Result<(), SymbolError>)
        ensures
            handle >= old(self).slots@.len() ==> r == Err::<(), SymbolError>(
                SymbolError::UnknownType { handle },
            ),
            handle < old(self).slots@.len() && old(self).slots@[handle as int] is Some ==> r
                == Err::<(), SymbolError>(SymbolError::AlreadyResolved { handle }),
            r is Err ==> final(self).slots@ == old(self).slots@,
            handle < old(self).slots@.len() && old(self).slots@[handle as int] is None ==> r is Ok
                && final(self).slots@ == old(self).slots@.update(handle as int, Some(members)),
    {
        if handle >= self.slots.len() {
            return Err(SymbolError::UnknownType { handle });
        }
        if self.slots[handle].is_some() {
            return Err(SymbolError::AlreadyResolved { handle });
        }
        self.slots.set(handle, Some(members));
        Ok(())
    }

    /// The members of the type in slot `handle`.
    pub fn members(&self, handle: usize) -> (r: Result<&Structure, SymbolError>)
        ensures
            handle >= self.slots@.len() ==> r == Err::<&Structure, SymbolError>(
                SymbolError::UnknownType { handle },
            ),
            handle < self.slots@.len() && self.slots@[handle as int] is None ==> r == Err::<
                &Structure,
                SymbolError,
            >(SymbolError::UnresolvedType { handle }),
            handle < self.slots@.len() && self.slots@[handle as int] is Some ==> r is Ok && *r->Ok_0
                == self.slots@[handle as int]->Some_0,
    {
        if handle >= self.slots.len() {
            return Err(SymbolError::UnknownType { handle });
        }
        match &self.slots[handle] {
            Some(m) => Ok(m),
            None => Err(SymbolError::UnresolvedType { handle }),
        }
    }
}

impl<'a> Scope<'a> {
    /// A scope with no declarations yet.
    pub fn new(expr: Expr<'a>) -> (r: Scope<'a>)
        ensures
            r.decls.wf(),
            r.decls.keys@ == Seq::<usize>::empty(),
            r.decls@ == Map::<usize, &'a Decl<'a>>::empty(),
            r.expr == expr,
    {
        let decls = OrderedHashMap::new();
        assert(decls@ =~= Map::<usize, &'a Decl<'a>>::empty());
        Scope { decls, expr }
    }

    /// Registers `decl` under the name with id `name`; a later declaration of
    /// a name shadows an earlier one. Returns the declaration's position.
    pub fn declare(&mut self, name: usize, decl: &'a Decl<'a>) -> (r: usize)
        requires
            old(self).decls.wf(),
        ensures
            final(self).decls.wf(),
            r == old(self).decls.keys@.len(),
            final(self).decls.keys@ == old(self).decls.keys@.push(name),
            final(self).decls.vals@ == old(self).decls.vals@.push(decl),
            final(self).decls@ == old(self).decls@.insert(name, decl),
            final(self).expr == old(self).expr,
    {
        proof {
            lemma_usize_clones_exactly();
        }
        self.decls.insert(name, decl)
    }
}

/// The declaration that the name with id `name` finds from the innermost of
/// `scopes` (the last) outward, if any.
pub open spec fn lookup<'a>(scopes: Seq<Scope<'a>>, name: usize) -> Option<&'a Decl<'a>>
    decreases scopes.len(),
{
    if scopes.len() == 0 {
        None
    } else if scopes.last().decls@.contains_key(name) {
        Some(scopes.last().decls@[name])
    } else {
        lookup(scopes.drop_last(), name)
    }
}

/// Resolves the name with id `name` in the innermost scope that declares it.
pub fn resolve_ident<'a>(scopes: &Vec<Scope<'a>>, name: usize) -> (r: Result<
    &'a Decl<'a>,
    SymbolError,
>)
    requires
        forall|i: int| 0 <= i < scopes@.len() ==> (#[trigger] scopes@[i]).decls.wf(),
    ensures
        match lookup(scopes@, name) {
            Some(d) => r == Ok::<&'a Decl<'a>, SymbolError>(d),
            None => r == Err::<&'a Decl<'a>, SymbolError>(SymbolError::UnresolvedReference { name }),
        },
{
    let mut i: usize = scopes.len();
    assert(scopes@.subrange(0, i as int) =~= scopes@);
    while i > 0
        invariant
            i <= scopes@.len(),
            lookup(scopes@, name) == lookup(scopes@.subrange(0, i as int), name),
            forall|j: int| 0 <= j < scopes@.len() ==> (#[trigger] scopes@[j]).decls.wf(),
        decreases i,
    {
        assert(scopes@.subrange(0, i as int).drop_last() =~= scopes@.subrange(0, i - 1));
        if let Some(d) = scopes[i - 1].decls.get(&name) {
            return Ok(*d);
        }
        i = i - 1;
    }
    Err(SymbolError::UnresolvedReference { name })
}

// Copies: a recursive type's clone copies its children one by one.

fn copy_case<'a>(x: &Case<'a>) -> Case<'a>
    decreases x,
{
    Case { pattern: copy_expr(&x.pattern), expr: copy_scope(&x.expr) }
}

impl<'a> Clone for Case<'a> {
    fn clone(&self) -> Self {
        copy_case(self)
    }
}

fn copy_match<'a>(x: &Match<'a>) -> Match<'a>
    decreases x,
{
    Match { cases: copy_case_vec(&x.cases) }
}

impl<'a> Clone for Match<'a> {
    fn clone(&self) -> Self {
        copy_match(self)
    }
}

fn copy_expr<'a>(x: &Expr<'a>) -> Expr<'a>
    decreases x,
{
    match x {
        Expr::Nat(p) => Expr::Nat(*p),
        Expr::Match(p) => Expr::Match(copy_match(p)),
    }
}

impl<'a> Clone for Expr<'a> {
    fn clone(&self) -> Self {
        copy_expr(self)
    }
}

fn copy_let_decl<'a>(x: &LetDecl<'a>) -> LetDecl<'a>
    decreases x,
{
    LetDecl { ident: x.ident.clone(), expr: copy_expr(&x.expr) }
}

impl<'a> Clone for LetDecl<'a> {
    fn clone(&self) -> Self {
        copy_let_decl(self)
    }
}

fn copy_var_decl<'a>(x: &VarDecl<'a>) -> VarDecl<'a>
    decreases x,
{
    VarDecl { ident: x.ident.clone(), expr: copy_expr(&x.expr) }
}

impl<'a> Clone for VarDecl<'a> {
    fn clone(&self) -> Self {
        copy_var_decl(self)
    }
}

fn copy_decl<'a>(x: &Decl<'a>) -> Decl<'a>
    decreases x,
{
    match x {
        Decl::Let(p) => Decl::Let(copy_let_decl(p)),
        Decl::Var(p) => Decl::Var(copy_var_decl(p)),
        Decl::TypeAlias(p) => Decl::TypeAlias(p.clone()),
    }
}

impl<'a> Clone for Decl<'a> {
    fn clone(&self) -> Self {
        copy_decl(self)
    }
}

fn copy_scope<'a>(x: &Scope<'a>) -> Scope<'a>
    decreases x,
{
    Scope { decls: x.decls.clone(), expr: copy_expr(&x.expr) }
}

impl<'a> Clone for Scope<'a> {
    fn clone(&self) -> Self {
        copy_scope(self)
    }
}

fn copy_case_vec<'a>(v: &Vec<Case<'a>>) -> Vec<Case<'a>>
    decreases v,
{
    let mut r: Vec<Case<'a>> = Vec::new();
    let mut i: usize = 0;
    while i < v.len()
        decreases v.len() - i,
    {
        r.push(copy_case(&v[i]));
        i = i + 1;
    }
    r
}


} // verus!
