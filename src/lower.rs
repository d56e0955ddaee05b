//! Lowering: from the surface tree to the semantic IR, one function per
//! grammatical position. What each position admits, and what every node
//! lowers to, is stated by the spec functions below over the IR's models.
use vstd::prelude::*;
use crate::ast;
use crate::ast::{IdentItem, Item};
use crate::sem;
use crate::sem::{DeclModel, ExprMember, ExprModel, StmtModel, TypeMember, TypeModel};

verus! {

/// A surface node that stands where its shape is not admitted.
#[derive(Debug)]
pub enum SemanticError<'a> {
    UnexpectedNode { have: &'a Item },
}

impl<'a> SemanticError<'a> {
    pub open spec fn node(self) -> Item {
        match self {
            SemanticError::UnexpectedNode { have } => *have,
        }
    }
}

/// What a lowering returned, as a model: the IR's view, or the offending node.
pub open spec fn outcome<T: View>(r: Result<T, SemanticError>) -> Result<T::V, Item> {
    match r {
        Ok(v) => Ok(v@),
        Err(e) => Err(e.node()),
    }
}

/// The decimal digits of `n`, most significant first: the name of a positional member.
pub open spec fn decimal(n: nat) -> Seq<char>
    decreases n,
{
    let d = seq!['0', '1', '2', '3', '4', '5', '6', '7', '8', '9'][(n % 10) as int];
    if n < 10 {
        seq![d]
    } else {
        decimal(n / 10).push(d)
    }
}

/// `x` in front of the members of `tail`, or the error of `tail`.
pub open spec fn prepend<A>(x: A, tail: Result<Seq<A>, Item>) -> Result<Seq<A>, Item> {
    match tail {
        Ok(rest) => Ok(seq![x] + rest),
        Err(e) => Err(e),
    }
}

/// The members `p` lowered so far, followed by what the rest lowers to.
pub open spec fn join<A>(p: Seq<A>, tail: Result<Seq<A>, Item>) -> Result<Seq<A>, Item> {
    match tail {
        Ok(rest) => Ok(p + rest),
        Err(e) => Err(e),
    }
}

proof fn lemma_join_step<A>(p: Seq<A>, x: A, tail: Result<Seq<A>, Item>)
    ensures
        join(p, prepend(x, tail)) == join(p.push(x), tail),
{
    if let Ok(rest) = tail {
        assert(p + (seq![x] + rest) =~= p.push(x) + rest);
    }
}

proof fn lemma_join_end<A>(p: Seq<A>)
    ensures
        join(p, Ok(Seq::empty())) == Ok::<Seq<A>, Item>(p),
{
    assert(p + Seq::empty() =~= p);
}

// Types

pub open spec fn type_of(item: Item) -> Result<TypeModel, Item>
    decreases item, 0int,
{
    match item {
        Item::Ident(v) => Ok(TypeModel::Ident(v.lit@)),
        Item::Tuple(t) => match type_tuple_from(t.elems@, 0) {
            Ok(fs) => Ok(TypeModel::Record(fs)),
            Err(e) => Err(e),
        },
        Item::RecordType(r) => match members_from(r.fields@, 0) {
            Ok(fs) => Ok(TypeModel::Record(fs)),
            Err(e) => Err(e),
        },
        Item::UnionType(u) => match members_from(u.variants@, 0) {
            Ok(vs) => Ok(TypeModel::Union(vs)),
            Err(e) => Err(e),
        },
        Item::FuncType(f) => match func_type_of(*f) {
            Ok((ps, res)) => Ok(TypeModel::Func(ps, Box::new(res))),
            Err(e) => Err(e),
        },
        _ => Err(item),
    }
}

/// Named members `name: type`, from index `i` on, in order.
pub open spec fn members_from(s: Seq<IdentItem>, i: int) -> Result<Seq<TypeMember>, Item>
    decreases s, s.len() - i,
{
    if i < 0 || i >= s.len() {
        Ok(Seq::empty())
    } else {
        match type_of(s[i].item) {
            Err(e) => Err(e),
            Ok(t) => prepend((s[i].ident.lit@, t), members_from(s, i + 1)),
        }
    }
}

/// A tuple read as a type: each element's index names it.
pub open spec fn type_tuple_from(s: Seq<Item>, i: int) -> Result<Seq<TypeMember>, Item>
    decreases s, s.len() - i,
{
    if i < 0 || i >= s.len() {
        Ok(Seq::empty())
    } else {
        match type_of(s[i]) {
            Err(e) => Err(e),
            Ok(t) => prepend((decimal(i as nat), t), type_tuple_from(s, i + 1)),
        }
    }
}

/// A parameter tuple: every element must be a name bound to a type.
pub open spec fn params_from(s: Seq<Item>, i: int) -> Result<Seq<TypeMember>, Item>
    decreases s, s.len() - i,
{
    if i < 0 || i >= s.len() {
        Ok(Seq::empty())
    } else {
        match s[i] {
            Item::IdentItem(b) => match type_of(b.item) {
                Err(e) => Err(e),
                Ok(t) => prepend((b.ident.lit@, t), params_from(s, i + 1)),
            },
            _ => Err(s[i]),
        }
    }
}

pub open spec fn func_type_of(f: ast::FuncType) -> Result<(Seq<TypeMember>, TypeModel), Item>
    decreases f, 0int,
{
    match params_from(f.param_tuple.elems@, 0) {
        Err(e) => Err(e),
        Ok(ps) => match type_of(f.result_ty) {
            Err(e) => Err(e),
            Ok(t) => Ok((ps, t)),
        },
    }
}

// Expressions

pub open spec fn expr_of(item: Item) -> Result<ExprModel, Item>
    decreases item, 0int,
{
    match item {
        Item::Nat(n) => Ok(ExprModel::Nat(n.val)),
        Item::Ident(v) => Ok(ExprModel::Ident(v.lit@)),
        Item::Tuple(t) => match args_of(t.elems@) {
            Ok(fs) => Ok(ExprModel::Record(fs)),
            Err(e) => Err(e),
        },
        Item::Block(b) => match stmts_from(b.elems@, 0) {
            Ok(ss) => Ok(ExprModel::Block(ss)),
            Err(e) => Err(e),
        },
        Item::Func(f) => match func_of(*f) {
            Ok((ps, res, ss)) => Ok(ExprModel::Func(ps, res, ss)),
            Err(e) => Err(e),
        },
        Item::Match(m) => match match_of(*m) {
            Ok((x, cs)) => Ok(ExprModel::Match(Box::new(x), cs)),
            Err(e) => Err(e),
        },
        Item::UnaryOpExpr(u) => match unary_of(*u) {
            Ok((func, args)) => Ok(ExprModel::Apply(Box::new(func), args)),
            Err(e) => Err(e),
        },
        Item::BinaryOpExpr(b) => match binary_of(*b) {
            Ok((func, args)) => Ok(ExprModel::Apply(Box::new(func), args)),
            Err(e) => Err(e),
        },
        Item::ApplyExpr(a) => match apply_of(*a) {
            Ok((func, args)) => Ok(ExprModel::Apply(Box::new(func), args)),
            Err(e) => Err(e),
        },
        Item::Select(s) => match expr_of(s.expr) {
            Ok(e) => Ok(ExprModel::Select(Box::new(e), s.ident.lit@)),
            Err(e) => Err(e),
        },
        Item::Pipe(p) => match expr_of(p.from) {
            Err(e) => Err(e),
            Ok(from) => match expr_of(p.to) {
                Err(e) => Err(e),
                Ok(to) => Ok(ExprModel::Pipe(Box::new(from), Box::new(to))),
            },
        },
        _ => Err(item),
    }
}

/// A tuple of arguments: named when its first element is a bound name, else positional.
pub open spec fn args_of(s: Seq<Item>) -> Result<Seq<ExprMember>, Item>
    decreases s, s.len() + 1,
{
    if s.len() > 0 && s[0] is IdentItem {
        named_fills_from(s, 0)
    } else {
        positional_fills_from(s, 0)
    }
}

/// Positional arguments: each element's index names it.
pub open spec fn positional_fills_from(s: Seq<Item>, i: int) -> Result<Seq<ExprMember>, Item>
    decreases s, s.len() - i,
{
    if i < 0 || i >= s.len() {
        Ok(Seq::empty())
    } else {
        match expr_of(s[i]) {
            Err(e) => Err(e),
            Ok(x) => prepend((decimal(i as nat), x), positional_fills_from(s, i + 1)),
        }
    }
}

/// Named arguments: every element must be a name bound to an expression.
pub open spec fn named_fills_from(s: Seq<Item>, i: int) -> Result<Seq<ExprMember>, Item>
    decreases s, s.len() - i,
{
    if i < 0 || i >= s.len() {
        Ok(Seq::empty())
    } else {
        match s[i] {
            Item::IdentItem(b) => match expr_of(b.item) {
                Err(e) => Err(e),
                Ok(x) => prepend((b.ident.lit@, x), named_fills_from(s, i + 1)),
            },
            _ => Err(s[i]),
        }
    }
}

/// The fields of a record expression, in order.
pub open spec fn fills_from(s: Seq<IdentItem>, i: int) -> Result<Seq<ExprMember>, Item>
    decreases s, s.len() - i,
{
    if i < 0 || i >= s.len() {
        Ok(Seq::empty())
    } else {
        match expr_of(s[i].item) {
            Err(e) => Err(e),
            Ok(x) => prepend((s[i].ident.lit@, x), fills_from(s, i + 1)),
        }
    }
}

pub open spec fn stmts_from(s: Seq<Item>, i: int) -> Result<Seq<StmtModel>, Item>
    decreases s, s.len() - i,
{
    if i < 0 || i >= s.len() {
        Ok(Seq::empty())
    } else {
        match stmt_of(s[i]) {
            Err(e) => Err(e),
            Ok(x) => prepend(x, stmts_from(s, i + 1)),
        }
    }
}

pub open spec fn case_of(c: ast::Case) -> Result<(ExprModel, ExprModel), Item>
    decreases c, 0int,
{
    match expr_of(c.pattern) {
        Err(e) => Err(e),
        Ok(p) => match expr_of(c.expr) {
            Err(e) => Err(e),
            Ok(x) => Ok((p, x)),
        },
    }
}

pub open spec fn cases_from(s: Seq<ast::Case>, i: int) -> Result<Seq<(ExprModel, ExprModel)>, Item>
    decreases s, s.len() - i,
{
    if i < 0 || i >= s.len() {
        Ok(Seq::empty())
    } else {
        match case_of(s[i]) {
            Err(e) => Err(e),
            Ok(x) => prepend(x, cases_from(s, i + 1)),
        }
    }
}

/// A match: its scrutinee is lowered first, then its cases in order.
pub open spec fn match_of(m: ast::Match) -> Result<(ExprModel, Seq<(ExprModel, ExprModel)>), Item>
    decreases m, 0int,
{
    match expr_of(m.expr) {
        Err(e) => Err(e),
        Ok(x) => match cases_from(m.cases@, 0) {
            Err(e) => Err(e),
            Ok(cs) => Ok((x, cs)),
        },
    }
}

pub open spec fn func_of(f: ast::Func) -> Result<(Seq<TypeMember>, TypeModel, Seq<StmtModel>), Item>
    decreases f, 0int,
{
    match func_type_of(f.ty) {
        Err(e) => Err(e),
        Ok((ps, res)) => match stmts_from(f.block.elems@, 0) {
            Err(e) => Err(e),
            Ok(ss) => Ok((ps, res, ss)),
        },
    }
}

/// A unary operator applied to its operand, as the positional field `0`.
pub open spec fn unary_of(u: ast::UnaryOpExpr) -> Result<(ExprModel, Seq<ExprMember>), Item>
    decreases u, 0int,
{
    match expr_of(u.expr) {
        Err(e) => Err(e),
        Ok(x) => Ok((ExprModel::Ident(u.op.literal()), seq![(seq!['0'], x)])),
    }
}

/// A binary operator applied to its operands, as the positional fields `0` and `1`.
pub open spec fn binary_of(b: ast::BinaryOpExpr) -> Result<(ExprModel, Seq<ExprMember>), Item>
    decreases b, 0int,
{
    match expr_of(b.left) {
        Err(e) => Err(e),
        Ok(l) => match expr_of(b.right) {
            Err(e) => Err(e),
            Ok(r) => Ok((ExprModel::Ident(b.op.literal()), seq![(seq!['0'], l), (seq!['1'], r)])),
        },
    }
}

pub open spec fn apply_of(a: ast::ApplyExpr) -> Result<(ExprModel, Seq<ExprMember>), Item>
    decreases a, 0int,
{
    match expr_of(a.func) {
        Err(e) => Err(e),
        Ok(f) => match args_of(a.params.elems@) {
            Err(e) => Err(e),
            Ok(args) => Ok((f, args)),
        },
    }
}

pub open spec fn select_of(s: ast::Select) -> Result<(ExprModel, Seq<char>), Item> {
    match expr_of(s.expr) {
        Ok(e) => Ok((e, s.ident.lit@)),
        Err(e) => Err(e),
    }
}

pub open spec fn pipe_of(p: ast::Pipe) -> Result<(ExprModel, ExprModel), Item> {
    match expr_of(p.from) {
        Err(e) => Err(e),
        Ok(from) => match expr_of(p.to) {
            Err(e) => Err(e),
            Ok(to) => Ok((from, to)),
        },
    }
}

pub open spec fn bound_expr_of(ident: ast::Ident, expr: Item) -> Result<(Seq<char>, ExprModel), Item> {
    match expr_of(expr) {
        Ok(x) => Ok((ident.lit@, x)),
        Err(e) => Err(e),
    }
}

pub open spec fn alias_of(a: ast::TypeAliasDecl) -> Result<(Seq<char>, TypeModel), Item> {
    match type_of(a.ty) {
        Ok(t) => Ok((a.ident.lit@, t)),
        Err(e) => Err(e),
    }
}

// Declarations and statements

pub open spec fn decl_of(item: Item) -> Result<DeclModel, Item>
    decreases item, 0int,
{
    match item {
        Item::LetDecl(l) => match expr_of(l.expr) {
            Ok(x) => Ok(DeclModel::Let(l.ident.lit@, x)),
            Err(e) => Err(e),
        },
        Item::VarDecl(v) => match expr_of(v.expr) {
            Ok(x) => Ok(DeclModel::Var(v.ident.lit@, x)),
            Err(e) => Err(e),
        },
        Item::TypeAliasDecl(a) => match type_of(a.ty) {
            Ok(t) => Ok(DeclModel::TypeAlias(a.ident.lit@, t)),
            Err(e) => Err(e),
        },
        _ => Err(item),
    }
}

/// The shapes admitted as a declaration.
pub open spec fn is_decl_shape(item: Item) -> bool {
    item is LetDecl || item is VarDecl || item is TypeAliasDecl
}

/// The shapes admitted as an expression.
pub open spec fn is_expr_shape(item: Item) -> bool {
    ||| item is Nat
    ||| item is Ident
    ||| item is Tuple
    ||| item is Block
    ||| item is Func
    ||| item is Match
    ||| item is UnaryOpExpr
    ||| item is BinaryOpExpr
    ||| item is ApplyExpr
    ||| item is Select
    ||| item is Pipe
}

/// The shapes admitted as a type.
pub open spec fn is_type_shape(item: Item) -> bool {
    ||| item is Ident
    ||| item is Tuple
    ||| item is RecordType
    ||| item is UnionType
    ||| item is FuncType
}

pub open spec fn stmt_of(item: Item) -> Result<StmtModel, Item>
    decreases item, 1int,
{
    if is_expr_shape(item) {
        match expr_of(item) {
            Ok(x) => Ok(StmtModel::Expr(x)),
            Err(e) => Err(e),
        }
    } else if is_decl_shape(item) {
        match decl_of(item) {
            Ok(d) => Ok(StmtModel::Decl(d)),
            Err(e) => Err(e),
        }
    } else {
        Err(item)
    }
}

pub open spec fn decls_from(s: Seq<Item>, i: int) -> Result<Seq<DeclModel>, Item>
    decreases s, s.len() - i,
{
    if i < 0 || i >= s.len() {
        Ok(Seq::empty())
    } else {
        match decl_of(s[i]) {
            Err(e) => Err(e),
            Ok(d) => prepend(d, decls_from(s, i + 1)),
        }
    }
}


// Lowering, executable

/// The decimal text of `n`: the name of the member at position `n`.
fn index_name(n: usize) -> (r: String)
    ensures
        r@ == decimal(n as nat),
    decreases n,
{
    let digits = "0123456789";
    proof {
        reveal_strlit("0123456789");
    }
    let k = n % 10;
    let d = digits.substring_char(k, k + 1);
    assert(d@ =~= seq![seq!['0', '1', '2', '3', '4', '5', '6', '7', '8', '9'][k as int]]);
    if n < 10 {
        String::from_str(d)
    } else {
        let mut s = index_name(n / 10);
        s.append(d);
        s
    }
}

impl ast::Tuple {
    /// The tuple as a record type: the element at position `i` is the field named `i`.
    pub fn expect_semantic_type_tuple(&self) -> (r: Result<sem::RecordType, SemanticError<'_>>)
        ensures
            outcome(r) == type_tuple_from(self.elems@, 0),
        decreases self, 0int,
    {
        let mut fields: Vec<sem::Field> = Vec::new();
        let mut i: usize = 0;
        while i < self.elems.len()
            invariant
                i <= self.elems.len(),
                type_tuple_from(self.elems@, 0) == join(
                    sem::fields_model(fields@),
                    type_tuple_from(self.elems@, i as int),
                ),
            decreases self.elems.len() - i,
        {
            let ty = match self.elems[i].expect_semantic_type() {
                Ok(t) => t,
                Err(e) => {
                    return Err(e);
                },
            };
            let ghost prev = fields@;
            let ghost x = (decimal(i as nat), ty@);
            fields.push(sem::Field { ident: index_name(i), ty });
            proof {
                assert(fields@.subrange(0, prev.len() as int) =~= prev);
                lemma_join_step(sem::fields_model(prev), x, type_tuple_from(self.elems@, i + 1));
            }
            i = i + 1;
        }
        proof {
            lemma_join_end(sem::fields_model(fields@));
        }
        Ok(sem::RecordType { fields })
    }

    /// The tuple as function parameters: every element must bind a name to a type.
    pub fn expect_semantic_func_tuple(&self) -> (r: Result<sem::RecordType, SemanticError<'_>>)
        ensures
            outcome(r) == params_from(self.elems@, 0),
        decreases self, 0int,
    {
        let mut fields: Vec<sem::Field> = Vec::new();
        let mut i: usize = 0;
        while i < self.elems.len()
            invariant
                i <= self.elems.len(),
                params_from(self.elems@, 0) == join(
                    sem::fields_model(fields@),
                    params_from(self.elems@, i as int),
                ),
            decreases self.elems.len() - i,
        {
            let elem = &self.elems[i];
            match elem {
                Item::IdentItem(b) => {
                    let ty = match b.item.expect_semantic_type() {
                        Ok(t) => t,
                        Err(e) => {
                            return Err(e);
                        },
                    };
                    let ghost prev = fields@;
                    let ghost x = (b.ident.lit@, ty@);
                    fields.push(sem::Field { ident: b.ident.lit.clone(), ty });
                    proof {
                        assert(fields@.subrange(0, prev.len() as int) =~= prev);
                        lemma_join_step(sem::fields_model(prev), x, params_from(self.elems@, i + 1));
                    }
                },
                _ => {
                    return Err(SemanticError::UnexpectedNode { have: elem });
                },
            }
            i = i + 1;
        }
        proof {
            lemma_join_end(sem::fields_model(fields@));
        }
        Ok(sem::RecordType { fields })
    }

    /// The tuple as positional arguments: the element at position `i` fills the field named `i`.
    pub fn expect_semantic_expr_tuple(&self) -> (r: Result<sem::RecordExpr, SemanticError<'_>>)
        ensures
            outcome(r) == positional_fills_from(self.elems@, 0),
        decreases self, 0int,
    {
        let mut fields: Vec<sem::FieldFill> = Vec::new();
        let mut i: usize = 0;
        while i < self.elems.len()
            invariant
                i <= self.elems.len(),
                positional_fills_from(self.elems@, 0) == join(
                    sem::fills_model(fields@),
                    positional_fills_from(self.elems@, i as int),
                ),
            decreases self.elems.len() - i,
        {
            let expr = match self.elems[i].expect_semantic_expr() {
                Ok(x) => x,
                Err(e) => {
                    return Err(e);
                },
            };
            let ghost prev = fields@;
            let ghost x = (decimal(i as nat), expr@);
            fields.push(sem::FieldFill { ident: index_name(i), expr });
            proof {
                assert(fields@.subrange(0, prev.len() as int) =~= prev);
                lemma_join_step(sem::fills_model(prev), x, positional_fills_from(self.elems@, i + 1));
            }
            i = i + 1;
        }
        proof {
            lemma_join_end(sem::fills_model(fields@));
        }
        Ok(sem::RecordExpr { fields })
    }

    /// The tuple as named arguments: every element must bind a name to an expression.
    pub fn expect_semantic_field_fill_tuple(&self) -> (r: Result<sem::RecordExpr, SemanticError<'_>>)
        ensures
            outcome(r) == named_fills_from(self.elems@, 0),
        decreases self, 0int,
    {
        let mut fields: Vec<sem::FieldFill> = Vec::new();
        let mut i: usize = 0;
        while i < self.elems.len()
            invariant
                i <= self.elems.len(),
                named_fills_from(self.elems@, 0) == join(
                    sem::fills_model(fields@),
                    named_fills_from(self.elems@, i as int),
                ),
            decreases self.elems.len() - i,
        {
            let elem = &self.elems[i];
            match elem {
                Item::IdentItem(b) => {
                    let expr = match b.item.expect_semantic_expr() {
                        Ok(x) => x,
                        Err(e) => {
                            return Err(e);
                        },
                    };
                    let ghost prev = fields@;
                    let ghost x = (b.ident.lit@, expr@);
                    fields.push(sem::FieldFill { ident: b.ident.lit.clone(), expr });
                    proof {
                        assert(fields@.subrange(0, prev.len() as int) =~= prev);
                        lemma_join_step(sem::fills_model(prev), x, named_fills_from(self.elems@, i + 1));
                    }
                },
                _ => {
                    return Err(SemanticError::UnexpectedNode { have: elem });
                },
            }
            i = i + 1;
        }
        proof {
            lemma_join_end(sem::fills_model(fields@));
        }
        Ok(sem::RecordExpr { fields })
    }

    /// The tuple as the arguments of a call: named when its first element binds a name,
    /// positional otherwise.
    pub fn expect_semantic_func_param_tuple(&self) -> (r: Result<sem::RecordExpr, SemanticError<'_>>)
        ensures
            outcome(r) == args_of(self.elems@),
        decreases self, 1int,
    {
        if self.elems.len() == 0 {
            let r = sem::RecordExpr { fields: Vec::new() };
            assert(r@ =~= Seq::<ExprMember>::empty());
            Ok(r)
        } else {
            match &self.elems[0] {
                Item::IdentItem(_) => self.expect_semantic_field_fill_tuple(),
                _ => self.expect_semantic_expr_tuple(),
            }
        }
    }
}


fn lower_members(s: &Vec<IdentItem>) -> (r: Result<Vec<sem::Field>, SemanticError<'_>>)
    ensures
        match r {
            Ok(v) => members_from(s@, 0) == Ok::<Seq<TypeMember>, Item>(sem::fields_model(v@)),
            Err(e) => members_from(s@, 0) == Err::<Seq<TypeMember>, Item>(e.node()),
        },
    decreases s, 0int,
{
    let mut fields: Vec<sem::Field> = Vec::new();
    let mut i: usize = 0;
    while i < s.len()
        invariant
            i <= s.len(),
            members_from(s@, 0) == join(sem::fields_model(fields@), members_from(s@, i as int)),
        decreases s.len() - i,
    {
        let m = &s[i];
        let ty = match m.item.expect_semantic_type() {
            Ok(t) => t,
            Err(e) => {
                return Err(e);
            },
        };
        let ghost prev = fields@;
        let ghost x = (m.ident.lit@, ty@);
        fields.push(sem::Field { ident: m.ident.lit.clone(), ty });
        proof {
            assert(fields@.subrange(0, prev.len() as int) =~= prev);
            lemma_join_step(sem::fields_model(prev), x, members_from(s@, i + 1));
        }
        i = i + 1;
    }
    proof {
        lemma_join_end(sem::fields_model(fields@));
    }
    Ok(fields)
}

fn lower_record_type(t: &ast::RecordType) -> (r: Result<sem::RecordType, SemanticError<'_>>)
    ensures
        outcome(r) == members_from(t.fields@, 0),
    decreases t, 1int,
{
    match lower_members(&t.fields) {
        Ok(fields) => Ok(sem::RecordType { fields }),
        Err(e) => Err(e),
    }
}

fn lower_union_type(t: &ast::UnionType) -> (r: Result<sem::UnionType, SemanticError<'_>>)
    ensures
        outcome(r) == members_from(t.variants@, 0),
    decreases t, 1int,
{
    let mut variants: Vec<sem::Variant> = Vec::new();
    let mut i: usize = 0;
    while i < t.variants.len()
        invariant
            i <= t.variants.len(),
            members_from(t.variants@, 0) == join(
                sem::variants_model(variants@),
                members_from(t.variants@, i as int),
            ),
        decreases t.variants.len() - i,
    {
        let m = &t.variants[i];
        let ty = match m.item.expect_semantic_type() {
            Ok(ty) => ty,
            Err(e) => {
                return Err(e);
            },
        };
        let ghost prev = variants@;
        let ghost x = (m.ident.lit@, ty@);
        variants.push(sem::Variant { ident: m.ident.lit.clone(), ty });
        proof {
            assert(variants@.subrange(0, prev.len() as int) =~= prev);
            lemma_join_step(sem::variants_model(prev), x, members_from(t.variants@, i + 1));
        }
        i = i + 1;
    }
    proof {
        lemma_join_end(sem::variants_model(variants@));
    }
    Ok(sem::UnionType { variants })
}

fn lower_func_type(f: &ast::FuncType) -> (r: Result<sem::FuncType, SemanticError<'_>>)
    ensures
        outcome(r) == func_type_of(*f),
    decreases f, 1int,
{
    let params = match f.param_tuple.expect_semantic_func_tuple() {
        Ok(p) => p,
        Err(e) => {
            return Err(e);
        },
    };
    let result = match f.result_ty.expect_semantic_type() {
        Ok(t) => t,
        Err(e) => {
            return Err(e);
        },
    };
    Ok(sem::FuncType { params, result })
}

fn lower_stmts(s: &Vec<Item>) -> (r: Result<sem::Block, SemanticError<'_>>)
    ensures
        outcome(r) == stmts_from(s@, 0),
    decreases s, 0int,
{
    let mut stmts: Vec<sem::Stmt> = Vec::new();
    let mut i: usize = 0;
    while i < s.len()
        invariant
            i <= s.len(),
            stmts_from(s@, 0) == join(sem::stmts_model(stmts@), stmts_from(s@, i as int)),
        decreases s.len() - i,
    {
        let stmt = match s[i].expect_semantic_stmt() {
            Ok(x) => x,
            Err(e) => {
                return Err(e);
            },
        };
        let ghost prev = stmts@;
        let ghost x = stmt@;
        stmts.push(stmt);
        proof {
            assert(stmts@.subrange(0, prev.len() as int) =~= prev);
            lemma_join_step(sem::stmts_model(prev), x, stmts_from(s@, i + 1));
        }
        i = i + 1;
    }
    proof {
        lemma_join_end(sem::stmts_model(stmts@));
    }
    Ok(sem::Block { stmts })
}

fn lower_func(f: &ast::Func) -> (r: Result<sem::Func, SemanticError<'_>>)
    ensures
        outcome(r) == func_of(*f),
    decreases f, 1int,
{
    let ty = match lower_func_type(&f.ty) {
        Ok(t) => t,
        Err(e) => {
            return Err(e);
        },
    };
    let block = match lower_stmts(&f.block.elems) {
        Ok(b) => b,
        Err(e) => {
            return Err(e);
        },
    };
    Ok(sem::Func { ty, block })
}

fn lower_record_expr(t: &ast::RecordExpr) -> (r: Result<sem::RecordExpr, SemanticError<'_>>)
    ensures
        outcome(r) == fills_from(t.fields@, 0),
    decreases t, 1int,
{
    let mut fields: Vec<sem::FieldFill> = Vec::new();
    let mut i: usize = 0;
    while i < t.fields.len()
        invariant
            i <= t.fields.len(),
            fills_from(t.fields@, 0) == join(sem::fills_model(fields@), fills_from(t.fields@, i as int)),
        decreases t.fields.len() - i,
    {
        let m = &t.fields[i];
        let expr = match m.item.expect_semantic_expr() {
            Ok(x) => x,
            Err(e) => {
                return Err(e);
            },
        };
        let ghost prev = fields@;
        let ghost x = (m.ident.lit@, expr@);
        fields.push(sem::FieldFill { ident: m.ident.lit.clone(), expr });
        proof {
            assert(fields@.subrange(0, prev.len() as int) =~= prev);
            lemma_join_step(sem::fills_model(prev), x, fills_from(t.fields@, i + 1));
        }
        i = i + 1;
    }
    proof {
        lemma_join_end(sem::fills_model(fields@));
    }
    Ok(sem::RecordExpr { fields })
}

fn lower_apply(a: &ast::ApplyExpr) -> (r: Result<sem::ApplyExpr, SemanticError<'_>>)
    ensures
        outcome(r) == apply_of(*a),
    decreases a, 1int,
{
    let func = match a.func.expect_semantic_expr() {
        Ok(x) => x,
        Err(e) => {
            return Err(e);
        },
    };
    let params = match a.params.expect_semantic_func_param_tuple() {
        Ok(p) => p,
        Err(e) => {
            return Err(e);
        },
    };
    Ok(sem::ApplyExpr { func, params })
}

fn lower_unary(u: &ast::UnaryOpExpr) -> (r: Result<sem::ApplyExpr, SemanticError<'_>>)
    ensures
        outcome(r) == unary_of(*u),
    decreases u, 1int,
{
    let operand = match u.expr.expect_semantic_expr() {
        Ok(x) => x,
        Err(e) => {
            return Err(e);
        },
    };
    let ghost x = operand@;
    let mut fields: Vec<sem::FieldFill> = Vec::new();
    fields.push(sem::FieldFill { ident: index_name(0), expr: operand });
    let params = sem::RecordExpr { fields };
    proof {
        assert(decimal(0) =~= seq!['0']);
        assert(fields@.subrange(0, 0) =~= Seq::<sem::FieldFill>::empty());
        assert(sem::fills_model(Seq::<sem::FieldFill>::empty()) =~= Seq::<ExprMember>::empty());
        assert(params@ =~= seq![(seq!['0'], x)]);
    }
    Ok(sem::ApplyExpr { func: sem::Expr::Ident(String::from_str(u.op.to_literal())), params })
}

fn lower_binary(b: &ast::BinaryOpExpr) -> (r: Result<sem::ApplyExpr, SemanticError<'_>>)
    ensures
        outcome(r) == binary_of(*b),
    decreases b, 1int,
{
    let left = match b.left.expect_semantic_expr() {
        Ok(x) => x,
        Err(e) => {
            return Err(e);
        },
    };
    let right = match b.right.expect_semantic_expr() {
        Ok(x) => x,
        Err(e) => {
            return Err(e);
        },
    };
    let ghost l = left@;
    let ghost r = right@;
    let mut fields: Vec<sem::FieldFill> = Vec::new();
    fields.push(sem::FieldFill { ident: index_name(0), expr: left });
    let ghost one = fields@;
    fields.push(sem::FieldFill { ident: index_name(1), expr: right });
    let params = sem::RecordExpr { fields };
    proof {
        assert(decimal(0) =~= seq!['0']);
        assert(decimal(1) =~= seq!['1']);
        assert(one.subrange(0, 0) =~= Seq::<sem::FieldFill>::empty());
        assert(sem::fills_model(Seq::<sem::FieldFill>::empty()) =~= Seq::<ExprMember>::empty());
        assert(fields@.subrange(0, 1) =~= one);
        assert(sem::fills_model(one) =~= seq![(seq!['0'], l)]);
        assert(params@ =~= seq![(seq!['0'], l), (seq!['1'], r)]);
    }
    Ok(sem::ApplyExpr { func: sem::Expr::Ident(String::from_str(b.op.to_literal())), params })
}

fn lower_case(c: &ast::Case) -> (r: Result<sem::Case, SemanticError<'_>>)
    ensures
        outcome(r) == case_of(*c),
    decreases c, 1int,
{
    let pattern = match c.pattern.expect_semantic_expr() {
        Ok(x) => x,
        Err(e) => {
            return Err(e);
        },
    };
    let expr = match c.expr.expect_semantic_expr() {
        Ok(x) => x,
        Err(e) => {
            return Err(e);
        },
    };
    Ok(sem::Case { pattern, expr })
}

fn lower_cases(s: &Vec<ast::Case>) -> (r: Result<Vec<sem::Case>, SemanticError<'_>>)
    ensures
        match r {
            Ok(v) => cases_from(s@, 0) == Ok::<_, Item>(sem::cases_model(v@)),
            Err(e) => cases_from(s@, 0) == Err::<Seq<(ExprModel, ExprModel)>, Item>(e.node()),
        },
    decreases s, 0int,
{
    let mut cases: Vec<sem::Case> = Vec::new();
    let mut i: usize = 0;
    while i < s.len()
        invariant
            i <= s.len(),
            cases_from(s@, 0) == join(sem::cases_model(cases@), cases_from(s@, i as int)),
        decreases s.len() - i,
    {
        let case = match lower_case(&s[i]) {
            Ok(x) => x,
            Err(e) => {
                return Err(e);
            },
        };
        let ghost prev = cases@;
        let ghost x = case@;
        cases.push(case);
        proof {
            assert(cases@.subrange(0, prev.len() as int) =~= prev);
            lemma_join_step(sem::cases_model(prev), x, cases_from(s@, i + 1));
        }
        i = i + 1;
    }
    proof {
        lemma_join_end(sem::cases_model(cases@));
    }
    Ok(cases)
}

fn lower_match(m: &ast::Match) -> (r: Result<sem::Match, SemanticError<'_>>)
    ensures
        outcome(r) == match_of(*m),
    decreases m, 1int,
{
    let expr = match m.expr.expect_semantic_expr() {
        Ok(x) => x,
        Err(e) => {
            return Err(e);
        },
    };
    match lower_cases(&m.cases) {
        Ok(cases) => Ok(sem::Match { expr, cases }),
        Err(e) => Err(e),
    }
}

fn lower_select(s: &ast::Select) -> (r: Result<sem::Select, SemanticError<'_>>)
    ensures
        outcome(r) == select_of(*s),
    decreases s, 1int,
{
    match s.expr.expect_semantic_expr() {
        Ok(expr) => Ok(sem::Select { expr, ident: s.ident.lit.clone() }),
        Err(e) => Err(e),
    }
}

fn lower_pipe(p: &ast::Pipe) -> (r: Result<sem::Pipe, SemanticError<'_>>)
    ensures
        outcome(r) == pipe_of(*p),
    decreases p, 1int,
{
    let from = match p.from.expect_semantic_expr() {
        Ok(x) => x,
        Err(e) => {
            return Err(e);
        },
    };
    let to = match p.to.expect_semantic_expr() {
        Ok(x) => x,
        Err(e) => {
            return Err(e);
        },
    };
    Ok(sem::Pipe { from, to })
}

impl Item {
    /// Lowers the node in type position.
    pub fn expect_semantic_type(&self) -> (r: Result<sem::Type, SemanticError<'_>>)
        ensures
            outcome(r) == type_of(*self),
        decreases self, 2int,
    {
        match self {
            Item::Ident(v) => Ok(sem::Type::Ident(v.lit.clone())),
            Item::Tuple(v) => match v.expect_semantic_type_tuple() {
                Ok(t) => Ok(sem::Type::Record(Box::new(t))),
                Err(e) => Err(e),
            },
            Item::RecordType(v) => match lower_record_type(v) {
                Ok(t) => Ok(sem::Type::Record(Box::new(t))),
                Err(e) => Err(e),
            },
            Item::UnionType(v) => match lower_union_type(v) {
                Ok(t) => Ok(sem::Type::Union(Box::new(t))),
                Err(e) => Err(e),
            },
            Item::FuncType(v) => match lower_func_type(v) {
                Ok(t) => Ok(sem::Type::Func(Box::new(t))),
                Err(e) => Err(e),
            },
            _ => Err(SemanticError::UnexpectedNode { have: self }),
        }
    }

    /// Lowers the node in expression position.
    pub fn expect_semantic_expr(&self) -> (r: Result<sem::Expr, SemanticError<'_>>)
        ensures
            outcome(r) == expr_of(*self),
        decreases self, 2int,
    {
        match self {
            Item::Nat(v) => Ok(sem::Expr::Nat(sem::Nat { val: v.val })),
            Item::Ident(v) => Ok(sem::Expr::Ident(v.lit.clone())),
            Item::Tuple(v) => match v.expect_semantic_func_param_tuple() {
                Ok(x) => Ok(sem::Expr::Record(Box::new(x))),
                Err(e) => Err(e),
            },
            Item::Block(v) => match lower_stmts(&v.elems) {
                Ok(x) => Ok(sem::Expr::Block(Box::new(x))),
                Err(e) => Err(e),
            },
            Item::Func(v) => match lower_func(v) {
                Ok(x) => Ok(sem::Expr::Func(Box::new(x))),
                Err(e) => Err(e),
            },
            Item::Match(v) => match lower_match(v) {
                Ok(x) => Ok(sem::Expr::Match(Box::new(x))),
                Err(e) => Err(e),
            },
            Item::UnaryOpExpr(v) => match lower_unary(v) {
                Ok(x) => Ok(sem::Expr::Apply(Box::new(x))),
                Err(e) => Err(e),
            },
            Item::BinaryOpExpr(v) => match lower_binary(v) {
                Ok(x) => Ok(sem::Expr::Apply(Box::new(x))),
                Err(e) => Err(e),
            },
            Item::ApplyExpr(v) => match lower_apply(v) {
                Ok(x) => Ok(sem::Expr::Apply(Box::new(x))),
                Err(e) => Err(e),
            },
            Item::Select(v) => match lower_select(v) {
                Ok(x) => Ok(sem::Expr::Select(Box::new(x))),
                Err(e) => Err(e),
            },
            Item::Pipe(v) => match lower_pipe(v) {
                Ok(x) => Ok(sem::Expr::Pipe(Box::new(x))),
                Err(e) => Err(e),
            },
            _ => Err(SemanticError::UnexpectedNode { have: self }),
        }
    }

    /// Lowers the node in declaration position.
    pub fn expect_semantic_decl(&self) -> (r: Result<sem::Decl, SemanticError<'_>>)
        ensures
            outcome(r) == decl_of(*self),
        decreases self, 2int,
    {
        match self {
            Item::LetDecl(v) => match v.expr.expect_semantic_expr() {
                Ok(expr) => Ok(sem::Decl::Let(sem::LetDecl { ident: v.ident.lit.clone(), expr })),
                Err(e) => Err(e),
            },
            Item::VarDecl(v) => match v.expr.expect_semantic_expr() {
                Ok(expr) => Ok(sem::Decl::Var(sem::VarDecl { ident: v.ident.lit.clone(), expr })),
                Err(e) => Err(e),
            },
            Item::TypeAliasDecl(v) => match v.ty.expect_semantic_type() {
                Ok(ty) => Ok(
                    sem::Decl::TypeAlias(sem::TypeAliasDecl { ident: v.ident.lit.clone(), ty }),
                ),
                Err(e) => Err(e),
            },
            _ => Err(SemanticError::UnexpectedNode { have: self }),
        }
    }

    /// Lowers the node in statement position: a declaration or an expression.
    pub fn expect_semantic_stmt(&self) -> (r: Result<sem::Stmt, SemanticError<'_>>)
        ensures
            outcome(r) == stmt_of(*self),
        decreases self, 3int,
    {
        match self {
            Item::Nat(_)
            | Item::Ident(_)
            | Item::Tuple(_)
            | Item::Block(_)
            | Item::Func(_)
            | Item::Match(_)
            | Item::UnaryOpExpr(_)
            | Item::BinaryOpExpr(_)
            | Item::ApplyExpr(_)
            | Item::Select(_)
            | Item::Pipe(_) => match self.expect_semantic_expr() {
                Ok(x) => Ok(sem::Stmt::Expr(x)),
                Err(e) => Err(e),
            },
            Item::LetDecl(_) | Item::VarDecl(_) | Item::TypeAliasDecl(_) => match self.expect_semantic_decl() {
                Ok(d) => Ok(sem::Stmt::Decl(d)),
                Err(e) => Err(e),
            },
            _ => Err(SemanticError::UnexpectedNode { have: self }),
        }
    }
}


/// Lowering of a surface construct whose position is fixed by its own shape.
pub trait ToSemantic<T: View>: Sized {
    /// What the construct lowers to, or the first node that is not admitted where it stands.
    spec fn semantic(&self) -> Result<T::V, Item>;

    fn to_semantic(&self) -> (r: Result<T, SemanticError<'_>>)
        ensures
            outcome(r) == self.semantic(),
    ;
}

fn lower_source(s: &Vec<Item>) -> (r: Result<sem::SourceFile, SemanticError<'_>>)
    ensures
        outcome(r) == decls_from(s@, 0),
{
    let mut decls: Vec<sem::Decl> = Vec::new();
    let mut i: usize = 0;
    while i < s.len()
        invariant
            i <= s.len(),
            decls_from(s@, 0) == join(sem::decls_model(decls@), decls_from(s@, i as int)),
        decreases s.len() - i,
    {
        let decl = match s[i].expect_semantic_decl() {
            Ok(x) => x,
            Err(e) => {
                return Err(e);
            },
        };
        let ghost prev = decls@;
        let ghost x = decl@;
        decls.push(decl);
        proof {
            assert(decls@.subrange(0, prev.len() as int) =~= prev);
            lemma_join_step(sem::decls_model(prev), x, decls_from(s@, i + 1));
        }
        i = i + 1;
    }
    proof {
        lemma_join_end(sem::decls_model(decls@));
    }
    Ok(sem::SourceFile { decls })
}

impl ToSemantic<sem::Nat> for ast::Nat {
    open spec fn semantic(&self) -> Result<<sem::Nat as View>::V, Item> {
        Ok(self.val)
    }

    fn to_semantic(&self) -> (r: Result<sem::Nat, SemanticError<'_>>) {
        Ok(sem::Nat { val: self.val })
    }
}

impl ToSemantic<sem::RecordType> for ast::RecordType {
    open spec fn semantic(&self) -> Result<<sem::RecordType as View>::V, Item> {
        members_from(self.fields@, 0)
    }

    fn to_semantic(&self) -> (r: Result<sem::RecordType, SemanticError<'_>>) {
        lower_record_type(self)
    }
}

impl ToSemantic<sem::UnionType> for ast::UnionType {
    open spec fn semantic(&self) -> Result<<sem::UnionType as View>::V, Item> {
        members_from(self.variants@, 0)
    }

    fn to_semantic(&self) -> (r: Result<sem::UnionType, SemanticError<'_>>) {
        lower_union_type(self)
    }
}

impl ToSemantic<sem::FuncType> for ast::FuncType {
    open spec fn semantic(&self) -> Result<<sem::FuncType as View>::V, Item> {
        func_type_of(*self)
    }

    fn to_semantic(&self) -> (r: Result<sem::FuncType, SemanticError<'_>>) {
        lower_func_type(self)
    }
}

impl ToSemantic<sem::Select> for ast::Select {
    open spec fn semantic(&self) -> Result<<sem::Select as View>::V, Item> {
        select_of(*self)
    }

    fn to_semantic(&self) -> (r: Result<sem::Select, SemanticError<'_>>) {
        lower_select(self)
    }
}

impl ToSemantic<sem::Pipe> for ast::Pipe {
    open spec fn semantic(&self) -> Result<<sem::Pipe as View>::V, Item> {
        pipe_of(*self)
    }

    fn to_semantic(&self) -> (r: Result<sem::Pipe, SemanticError<'_>>) {
        lower_pipe(self)
    }
}

impl ToSemantic<sem::Block> for ast::Block {
    open spec fn semantic(&self) -> Result<<sem::Block as View>::V, Item> {
        stmts_from(self.elems@, 0)
    }

    fn to_semantic(&self) -> (r: Result<sem::Block, SemanticError<'_>>) {
        lower_stmts(&self.elems)
    }
}

impl ToSemantic<sem::Func> for ast::Func {
    open spec fn semantic(&self) -> Result<<sem::Func as View>::V, Item> {
        func_of(*self)
    }

    fn to_semantic(&self) -> (r: Result<sem::Func, SemanticError<'_>>) {
        lower_func(self)
    }
}

impl ToSemantic<sem::RecordExpr> for ast::RecordExpr {
    open spec fn semantic(&self) -> Result<<sem::RecordExpr as View>::V, Item> {
        fills_from(self.fields@, 0)
    }

    fn to_semantic(&self) -> (r: Result<sem::RecordExpr, SemanticError<'_>>) {
        lower_record_expr(self)
    }
}

impl ToSemantic<sem::ApplyExpr> for ast::ApplyExpr {
    open spec fn semantic(&self) -> Result<<sem::ApplyExpr as View>::V, Item> {
        apply_of(*self)
    }

    fn to_semantic(&self) -> (r: Result<sem::ApplyExpr, SemanticError<'_>>) {
        lower_apply(self)
    }
}

impl ToSemantic<sem::ApplyExpr> for ast::UnaryOpExpr {
    open spec fn semantic(&self) -> Result<<sem::ApplyExpr as View>::V, Item> {
        unary_of(*self)
    }

    fn to_semantic(&self) -> (r: Result<sem::ApplyExpr, SemanticError<'_>>) {
        lower_unary(self)
    }
}

impl ToSemantic<sem::ApplyExpr> for ast::BinaryOpExpr {
    open spec fn semantic(&self) -> Result<<sem::ApplyExpr as View>::V, Item> {
        binary_of(*self)
    }

    fn to_semantic(&self) -> (r: Result<sem::ApplyExpr, SemanticError<'_>>) {
        lower_binary(self)
    }
}

impl ToSemantic<sem::Case> for ast::Case {
    open spec fn semantic(&self) -> Result<<sem::Case as View>::V, Item> {
        case_of(*self)
    }

    fn to_semantic(&self) -> (r: Result<sem::Case, SemanticError<'_>>) {
        lower_case(self)
    }
}

impl ToSemantic<sem::Match> for ast::Match {
    open spec fn semantic(&self) -> Result<<sem::Match as View>::V, Item> {
        match_of(*self)
    }

    fn to_semantic(&self) -> (r: Result<sem::Match, SemanticError<'_>>) {
        lower_match(self)
    }
}

impl ToSemantic<sem::LetDecl> for ast::LetDecl {
    open spec fn semantic(&self) -> Result<<sem::LetDecl as View>::V, Item> {
        bound_expr_of(self.ident, self.expr)
    }

    fn to_semantic(&self) -> (r: Result<sem::LetDecl, SemanticError<'_>>) {
        match self.expr.expect_semantic_expr() {
            Ok(expr) => Ok(sem::LetDecl { ident: self.ident.lit.clone(), expr }),
            Err(e) => Err(e),
        }
    }
}

impl ToSemantic<sem::VarDecl> for ast::VarDecl {
    open spec fn semantic(&self) -> Result<<sem::VarDecl as View>::V, Item> {
        bound_expr_of(self.ident, self.expr)
    }

    fn to_semantic(&self) -> (r: Result<sem::VarDecl, SemanticError<'_>>) {
        match self.expr.expect_semantic_expr() {
            Ok(expr) => Ok(sem::VarDecl { ident: self.ident.lit.clone(), expr }),
            Err(e) => Err(e),
        }
    }
}

impl ToSemantic<sem::TypeAliasDecl> for ast::TypeAliasDecl {
    open spec fn semantic(&self) -> Result<<sem::TypeAliasDecl as View>::V, Item> {
        alias_of(*self)
    }

    fn to_semantic(&self) -> (r: Result<sem::TypeAliasDecl, SemanticError<'_>>) {
        match self.ty.expect_semantic_type() {
            Ok(ty) => Ok(sem::TypeAliasDecl { ident: self.ident.lit.clone(), ty }),
            Err(e) => Err(e),
        }
    }
}

impl ToSemantic<sem::SourceFile> for ast::SourceFile {
    open spec fn semantic(&self) -> Result<<sem::SourceFile as View>::V, Item> {
        decls_from(self.items@, 0)
    }

    fn to_semantic(&self) -> (r: Result<sem::SourceFile, SemanticError<'_>>) {
        lower_source(&self.items)
    }
}

} // verus!
