//! Laws of lowering, stated over the spec functions that the lowering
//! functions' own contracts use.
use vstd::prelude::*;
use crate::ast;
use crate::ast::{IdentItem, Item};
use crate::lower::{
    apply_of, args_of, binary_of, case_of, cases_from, decl_of, decls_from, expr_of, func_of, func_type_of,
    is_decl_shape, is_expr_shape, is_type_shape, match_of, members_from, named_fills_from, outcome,
    params_from, positional_fills_from, prepend, stmt_of, stmts_from, type_of, type_tuple_from,
    unary_of, SemanticError,
};
use crate::sem;
use crate::sem::{ExprModel, TypeModel};

verus! {

/// A numeral lowers to its value alone: numerals written in any base that
/// denote the same number lower to the same natural-number expression.
pub proof fn lemma_nat_lowering(a: ast::Nat, b: ast::Nat)
    requires
        a.val == b.val,
    ensures
        expr_of(Item::Nat(a)) == expr_of(Item::Nat(b)),
        expr_of(Item::Nat(a)) == Ok::<ExprModel, Item>(ExprModel::Nat(a.val)),
{
}

/// A unary operator lowers to an application of its literal to one positional
/// field `0` holding the operand, or fails as the operand fails.
pub proof fn lemma_unary_lowering(u: ast::UnaryOpExpr)
    ensures
        expr_of(Item::UnaryOpExpr(Box::new(u))) == match expr_of(u.expr) {
            Ok(x) => Ok(
                ExprModel::Apply(Box::new(ExprModel::Ident(u.op.literal())), seq![(seq!['0'], x)]),
            ),
            Err(e) => Err::<ExprModel, Item>(e),
        },
{
    let item = Item::UnaryOpExpr(Box::new(u));
    assert(expr_of(item) == match unary_of(u) {
            Ok((func, args)) => Ok(ExprModel::Apply(Box::new(func), args)),
            Err(e) => Err(e),
        });
}

/// A binary operator lowers to an application of its literal to the positional
/// fields `0` (left operand) and `1` (right operand); the left one fails first.
pub proof fn lemma_binary_lowering(b: ast::BinaryOpExpr)
    ensures
        expr_of(Item::BinaryOpExpr(Box::new(b))) == match (expr_of(b.left), expr_of(b.right)) {
            (Err(e), _) => Err::<ExprModel, Item>(e),
            (Ok(_), Err(e)) => Err(e),
            (Ok(l), Ok(r)) => Ok(
                ExprModel::Apply(
                    Box::new(ExprModel::Ident(b.op.literal())),
                    seq![(seq!['0'], l), (seq!['1'], r)],
                ),
            ),
        },
{
    let item = Item::BinaryOpExpr(Box::new(b));
    assert(expr_of(item) == match binary_of(b) {
            Ok((func, args)) => Ok(ExprModel::Apply(Box::new(func), args)),
            Err(e) => Err(e),
        });
}

proof fn lemma_members_ok(s: Seq<IdentItem>, i: int)
    requires
        0 <= i <= s.len(),
        forall|j: int| i <= j < s.len() ==> (#[trigger] type_of(s[j].item)) is Ok,
    ensures
        members_from(s, i) is Ok,
        members_from(s, i)->Ok_0.len() == s.len() - i,
        forall|j: int|
            0 <= j < s.len() - i ==> #[trigger] members_from(s, i)->Ok_0[j] == (
                s[i + j].ident.lit@,
                type_of(s[i + j].item)->Ok_0,
            ),
    decreases s.len() - i,
{
    if i < s.len() {
        lemma_members_ok(s, i + 1);
        let rest = members_from(s, i + 1)->Ok_0;
        let t = type_of(s[i].item);
        assert(t is Ok);
        assert(members_from(s, i) == prepend((s[i].ident.lit@, t->Ok_0), members_from(s, i + 1)));
        assert forall|j: int| 0 < j < s.len() - i implies #[trigger] members_from(s, i)->Ok_0[j]
            == (s[i + j].ident.lit@, type_of(s[i + j].item)->Ok_0) by {
            assert(rest[j - 1] == (
                s[i + 1 + (j - 1)].ident.lit@,
                type_of(s[i + 1 + (j - 1)].item)->Ok_0,
            ));
            assert(i + 1 + (j - 1) == i + j);
        }
    }
}

/// A record type whose field types all lower keeps exactly its fields, in the
/// order declared, each under its own name with the type its item lowers to.
pub proof fn lemma_record_type_lowering(r: ast::RecordType)
    requires
        forall|j: int| 0 <= j < r.fields@.len() ==> (#[trigger] type_of(r.fields@[j].item)) is Ok,
    ensures
        ({
            let t = type_of(Item::RecordType(Box::new(r)));
            &&& t matches Ok(TypeModel::Record(fs))
            &&& fs.len() == r.fields@.len()
            &&& forall|j: int|
                0 <= j < fs.len() ==> #[trigger] fs[j] == (
                    r.fields@[j].ident.lit@,
                    type_of(r.fields@[j].item)->Ok_0,
                )
        }),
{
    lemma_members_ok(r.fields@, 0);
    let fs = members_from(r.fields@, 0)->Ok_0;
    assert forall|j: int| 0 <= j < fs.len() implies #[trigger] fs[j] == (
        r.fields@[j].ident.lit@,
        type_of(r.fields@[j].item)->Ok_0,
    ) by {
        assert(fs[j] == (r.fields@[0 + j].ident.lit@, type_of(r.fields@[0 + j].item)->Ok_0));
    }
}

/// A union type whose variant types all lower keeps exactly its variants, in the
/// order declared, each under its own name with the type its item lowers to.
pub proof fn lemma_union_type_lowering(u: ast::UnionType)
    requires
        forall|j: int| 0 <= j < u.variants@.len() ==> (#[trigger] type_of(u.variants@[j].item)) is Ok,
    ensures
        ({
            let t = type_of(Item::UnionType(Box::new(u)));
            &&& t matches Ok(TypeModel::Union(vs))
            &&& vs.len() == u.variants@.len()
            &&& forall|j: int|
                0 <= j < vs.len() ==> #[trigger] vs[j] == (
                    u.variants@[j].ident.lit@,
                    type_of(u.variants@[j].item)->Ok_0,
                )
        }),
{
    lemma_members_ok(u.variants@, 0);
    let vs = members_from(u.variants@, 0)->Ok_0;
    assert forall|j: int| 0 <= j < vs.len() implies #[trigger] vs[j] == (
        u.variants@[j].ident.lit@,
        type_of(u.variants@[j].item)->Ok_0,
    ) by {
        assert(vs[j] == (u.variants@[0 + j].ident.lit@, type_of(u.variants@[0 + j].item)->Ok_0));
    }
}

proof fn lemma_cases_ok(s: Seq<ast::Case>, i: int)
    requires
        0 <= i <= s.len(),
        forall|j: int| i <= j < s.len() ==> (#[trigger] case_of(s[j])) is Ok,
    ensures
        cases_from(s, i) is Ok,
        cases_from(s, i)->Ok_0.len() == s.len() - i,
        forall|j: int|
            0 <= j < s.len() - i ==> #[trigger] cases_from(s, i)->Ok_0[j] == case_of(s[i + j])->Ok_0,
    decreases s.len() - i,
{
    if i < s.len() {
        lemma_cases_ok(s, i + 1);
        let rest = cases_from(s, i + 1)->Ok_0;
        assert(case_of(s[i]) is Ok);
        assert(cases_from(s, i) == prepend(case_of(s[i])->Ok_0, cases_from(s, i + 1)));
        assert forall|j: int| 0 < j < s.len() - i implies #[trigger] cases_from(s, i)->Ok_0[j]
            == case_of(s[i + j])->Ok_0 by {
            assert(rest[j - 1] == case_of(s[i + 1 + (j - 1)])->Ok_0);
            assert(i + 1 + (j - 1) == i + j);
        }
    }
}

/// A match whose scrutinee fails fails with that error, before any case.
pub proof fn lemma_match_scrutinee_first(m: ast::Match)
    ensures
        expr_of(m.expr) is Err ==> expr_of(Item::Match(Box::new(m))) == expr_of(m.expr),
{
    assert(expr_of(Item::Match(Box::new(m))) == match match_of(m) {
        Ok((x, cs)) => Ok(ExprModel::Match(Box::new(x), cs)),
        Err(e) => Err::<ExprModel, Item>(e),
    });
}

/// A match whose scrutinee and cases all lower keeps the lowered scrutinee and
/// its cases in order; each case's pattern and result are lowered on their own.
pub proof fn lemma_match_lowering(m: ast::Match)
    requires
        expr_of(m.expr) is Ok,
        forall|j: int| 0 <= j < m.cases@.len() ==> (#[trigger] case_of(m.cases@[j])) is Ok,
    ensures
        ({
            let e = expr_of(Item::Match(Box::new(m)));
            &&& e matches Ok(ExprModel::Match(x, cs))
            &&& *x == expr_of(m.expr)->Ok_0
            &&& cs.len() == m.cases@.len()
            &&& forall|j: int|
                0 <= j < cs.len() ==> #[trigger] cs[j] == (
                    expr_of(m.cases@[j].pattern)->Ok_0,
                    expr_of(m.cases@[j].expr)->Ok_0,
                )
        }),
{
    lemma_cases_ok(m.cases@, 0);
    assert(expr_of(Item::Match(Box::new(m))) == match match_of(m) {
        Ok((x, cs)) => Ok(ExprModel::Match(Box::new(x), cs)),
        Err(e) => Err::<ExprModel, Item>(e),
    });
    let cs = cases_from(m.cases@, 0)->Ok_0;
    assert forall|j: int| 0 <= j < cs.len() implies #[trigger] cs[j] == (
        expr_of(m.cases@[j].pattern)->Ok_0,
        expr_of(m.cases@[j].expr)->Ok_0,
    ) by {
        assert(cs[j] == case_of(m.cases@[0 + j])->Ok_0);
    }
}

/// A node whose shape a position does not admit fails there, and the error
/// names that very node.
pub proof fn lemma_inadmissible_node(item: Item)
    ensures
        !is_type_shape(item) ==> type_of(item) == Err::<TypeModel, Item>(item),
        !is_expr_shape(item) ==> expr_of(item) == Err::<ExprModel, Item>(item),
        !is_decl_shape(item) ==> decl_of(item) == Err::<sem::DeclModel, Item>(item),
        !is_expr_shape(item) && !is_decl_shape(item) ==> stmt_of(item) == Err::<
            sem::StmtModel,
            Item,
        >(item),
{
}

/// Lowering a node twice, in any position, gives the same result both times:
/// what comes out depends on the node alone.
pub proof fn lemma_lowering_deterministic(
    item: Item,
    t1: Result<sem::Type, SemanticError>,
    t2: Result<sem::Type, SemanticError>,
    e1: Result<sem::Expr, SemanticError>,
    e2: Result<sem::Expr, SemanticError>,
    d1: Result<sem::Decl, SemanticError>,
    d2: Result<sem::Decl, SemanticError>,
    s1: Result<sem::Stmt, SemanticError>,
    s2: Result<sem::Stmt, SemanticError>,
)
    requires
        outcome(t1) == type_of(item),
        outcome(t2) == type_of(item),
        outcome(e1) == expr_of(item),
        outcome(e2) == expr_of(item),
        outcome(d1) == decl_of(item),
        outcome(d2) == decl_of(item),
        outcome(s1) == stmt_of(item),
        outcome(s2) == stmt_of(item),
    ensures
        outcome(t1) == outcome(t2),
        outcome(e1) == outcome(e2),
        outcome(d1) == outcome(d2),
        outcome(s1) == outcome(s2),
{
}


proof fn lemma_members_first_error(s: Seq<IdentItem>, i: int)
    requires
        0 <= i <= s.len(),
    ensures
        members_from(s, i) is Ok <==> forall|j: int| i <= j < s.len() ==> (#[trigger] type_of(s[j].item)) is Ok,
        members_from(s, i) is Err ==> exists|j: int|
            #![trigger type_of(s[j].item)]
            i <= j < s.len() && type_of(s[j].item) == Err::<TypeModel, Item>(members_from(s, i)->Err_0)
                && forall|k: int| i <= k < j ==> (#[trigger] type_of(s[k].item)) is Ok,
    decreases s.len() - i,
{
    if i < s.len() {
        lemma_members_first_error(s, i + 1);
        let t = type_of(s[i].item);
        assert(members_from(s, i) == match t {
            Err(e) => Err(e),
            Ok(x) => prepend((s[i].ident.lit@, x), members_from(s, i + 1)),
        });
        if t is Ok {
            if members_from(s, i + 1) is Err {
                let j = choose|j: int|
                    #![trigger type_of(s[j].item)]
                    i + 1 <= j < s.len() && type_of(s[j].item) == Err::<TypeModel, Item>(
                        members_from(s, i + 1)->Err_0,
                    ) && forall|k: int| i + 1 <= k < j ==> (#[trigger] type_of(s[k].item)) is Ok;
                assert(forall|k: int| i <= k < j ==> (#[trigger] type_of(s[k].item)) is Ok);
            }
        }
    }
}

/// A record type lowers if and only if every field's type lowers; otherwise it
/// fails with the error of the first field, in declared order, that fails.
pub proof fn lemma_record_type_first_error(r: ast::RecordType)
    ensures
        type_of(Item::RecordType(Box::new(r))) is Ok <==> forall|j: int|
            0 <= j < r.fields@.len() ==> (#[trigger] type_of(r.fields@[j].item)) is Ok,
        type_of(Item::RecordType(Box::new(r))) is Err ==> exists|j: int|
            #![trigger type_of(r.fields@[j].item)]
            0 <= j < r.fields@.len() && type_of(r.fields@[j].item) == type_of(
                Item::RecordType(Box::new(r)),
            ) && forall|k: int| 0 <= k < j ==> (#[trigger] type_of(r.fields@[k].item)) is Ok,
{
    lemma_members_first_error(r.fields@, 0);
}

/// A union type lowers if and only if every variant's type lowers; otherwise it
/// fails with the error of the first variant, in declared order, that fails.
pub proof fn lemma_union_type_first_error(u: ast::UnionType)
    ensures
        type_of(Item::UnionType(Box::new(u))) is Ok <==> forall|j: int|
            0 <= j < u.variants@.len() ==> (#[trigger] type_of(u.variants@[j].item)) is Ok,
        type_of(Item::UnionType(Box::new(u))) is Err ==> exists|j: int|
            #![trigger type_of(u.variants@[j].item)]
            0 <= j < u.variants@.len() && type_of(u.variants@[j].item) == type_of(
                Item::UnionType(Box::new(u)),
            ) && forall|k: int| 0 <= k < j ==> (#[trigger] type_of(u.variants@[k].item)) is Ok,
{
    lemma_members_first_error(u.variants@, 0);
}


proof fn lemma_params_reject_from(s: Seq<Item>, i: int, j: int)
    requires
        0 <= i <= j < s.len(),
        !(s[j] is IdentItem),
        forall|k: int|
            i <= k < j ==> (#[trigger] s[k]) is IdentItem && type_of(s[k]->IdentItem_0.item) is Ok,
    ensures
        params_from(s, i) == Err::<Seq<sem::TypeMember>, Item>(s[j]),
    decreases j - i,
{
    if i < j {
        lemma_params_reject_from(s, i + 1, j);
        assert(s[i] is IdentItem);
    }
}

/// Function parameters are all bound names: the first element that is not one
/// fails the parameter tuple and is the node reported, when every bound name
/// before it has a type that lowers.
pub proof fn lemma_func_tuple_rejects_unnamed(t: ast::Tuple, j: int)
    requires
        0 <= j < t.elems@.len(),
        !(t.elems@[j] is IdentItem),
        forall|k: int|
            0 <= k < j ==> (#[trigger] t.elems@[k]) is IdentItem && type_of(
                t.elems@[k]->IdentItem_0.item,
            ) is Ok,
    ensures
        params_from(t.elems@, 0) == Err::<Seq<sem::TypeMember>, Item>(t.elems@[j]),
{
    lemma_params_reject_from(t.elems@, 0, j);
}


/// `e` stands strictly inside `x`: a sub-term reached through fields,
/// boxes and sequence elements.
pub open spec fn strictly_inside<A, B>(x: A, e: B) -> bool {
    decreases_to!(x => e)
}

proof fn lemma_type_err(item: Item)
    ensures
        type_of(item) is Err ==> (!is_type_shape(item) && type_of(item)->Err_0 == item)
            || strictly_inside(item, type_of(item)->Err_0),
    decreases item, 0int,
{
    match item {
        Item::Tuple(t) => {
            lemma_type_tuple_err(t.elems@, 0);
        },
        Item::RecordType(r) => {
            lemma_members_err(r.fields@, 0);
        },
        Item::UnionType(u) => {
            lemma_members_err(u.variants@, 0);
        },
        Item::FuncType(f) => {
            lemma_func_type_err(*f);
        },
        _ => {},
    }
}

proof fn lemma_members_err(s: Seq<IdentItem>, i: int)
    ensures
        members_from(s, i) is Err ==> strictly_inside(s, members_from(s, i)->Err_0),
    decreases s, s.len() - i,
{
    if 0 <= i < s.len() {
        lemma_type_err(s[i].item);
        lemma_members_err(s, i + 1);
    }
}

proof fn lemma_type_tuple_err(s: Seq<Item>, i: int)
    ensures
        type_tuple_from(s, i) is Err ==> strictly_inside(s, type_tuple_from(s, i)->Err_0),
    decreases s, s.len() - i,
{
    if 0 <= i < s.len() {
        lemma_type_err(s[i]);
        lemma_type_tuple_err(s, i + 1);
    }
}

proof fn lemma_params_err(s: Seq<Item>, i: int)
    ensures
        params_from(s, i) is Err ==> strictly_inside(s, params_from(s, i)->Err_0),
    decreases s, s.len() - i,
{
    if 0 <= i < s.len() {
        if let Item::IdentItem(b) = s[i] {
            lemma_type_err(b.item);
        }
        lemma_params_err(s, i + 1);
    }
}

proof fn lemma_func_type_err(f: ast::FuncType)
    ensures
        func_type_of(f) is Err ==> strictly_inside(f, func_type_of(f)->Err_0),
    decreases f, 0int,
{
    lemma_params_err(f.param_tuple.elems@, 0);
    lemma_type_err(f.result_ty);
}


proof fn lemma_expr_err(item: Item)
    ensures
        expr_of(item) is Err ==> (!is_expr_shape(item) && expr_of(item)->Err_0 == item)
            || strictly_inside(item, expr_of(item)->Err_0),
    decreases item, 0int,
{
    match item {
        Item::Tuple(t) => {
            lemma_args_err(t.elems@);
        },
        Item::Block(b) => {
            lemma_stmts_err(b.elems@, 0);
        },
        Item::Func(f) => {
            lemma_func_err(*f);
        },
        Item::Match(m) => {
            lemma_match_err(*m);
        },
        Item::UnaryOpExpr(u) => {
            lemma_unary_err(*u);
        },
        Item::BinaryOpExpr(b) => {
            lemma_binary_err(*b);
        },
        Item::ApplyExpr(a) => {
            lemma_apply_err(*a);
        },
        Item::Select(s) => {
            lemma_expr_err(s.expr);
        },
        Item::Pipe(p) => {
            lemma_expr_err(p.from);
            lemma_expr_err(p.to);
        },
        _ => {},
    }
}

proof fn lemma_unary_err(u: ast::UnaryOpExpr)
    ensures
        unary_of(u) is Err ==> strictly_inside(u, unary_of(u)->Err_0),
    decreases u, 0int,
{
    lemma_expr_err(u.expr);
}

proof fn lemma_binary_err(b: ast::BinaryOpExpr)
    ensures
        binary_of(b) is Err ==> strictly_inside(b, binary_of(b)->Err_0),
    decreases b, 0int,
{
    lemma_expr_err(b.left);
    lemma_expr_err(b.right);
}

proof fn lemma_apply_err(a: ast::ApplyExpr)
    ensures
        apply_of(a) is Err ==> strictly_inside(a, apply_of(a)->Err_0),
    decreases a, 0int,
{
    lemma_expr_err(a.func);
    lemma_args_err(a.params.elems@);
}

proof fn lemma_args_err(s: Seq<Item>)
    ensures
        args_of(s) is Err ==> strictly_inside(s, args_of(s)->Err_0),
    decreases s, s.len() + 1,
{
    lemma_named_fills_err(s, 0);
    lemma_positional_fills_err(s, 0);
}

proof fn lemma_positional_fills_err(s: Seq<Item>, i: int)
    ensures
        positional_fills_from(s, i) is Err ==> strictly_inside(s, positional_fills_from(s, i)->Err_0),
    decreases s, s.len() - i,
{
    if 0 <= i < s.len() {
        lemma_expr_err(s[i]);
        lemma_positional_fills_err(s, i + 1);
    }
}

proof fn lemma_named_fills_err(s: Seq<Item>, i: int)
    ensures
        named_fills_from(s, i) is Err ==> strictly_inside(s, named_fills_from(s, i)->Err_0),
    decreases s, s.len() - i,
{
    if 0 <= i < s.len() {
        if let Item::IdentItem(b) = s[i] {
            lemma_expr_err(b.item);
        }
        lemma_named_fills_err(s, i + 1);
    }
}

proof fn lemma_stmts_err(s: Seq<Item>, i: int)
    ensures
        stmts_from(s, i) is Err ==> strictly_inside(s, stmts_from(s, i)->Err_0),
    decreases s, s.len() - i,
{
    if 0 <= i < s.len() {
        lemma_stmt_err(s[i]);
        lemma_stmts_err(s, i + 1);
    }
}

proof fn lemma_case_err(c: ast::Case)
    ensures
        case_of(c) is Err ==> strictly_inside(c, case_of(c)->Err_0),
    decreases c, 0int,
{
    lemma_expr_err(c.pattern);
    lemma_expr_err(c.expr);
}

proof fn lemma_cases_err(s: Seq<ast::Case>, i: int)
    ensures
        cases_from(s, i) is Err ==> strictly_inside(s, cases_from(s, i)->Err_0),
    decreases s, s.len() - i,
{
    if 0 <= i < s.len() {
        lemma_case_err(s[i]);
        lemma_cases_err(s, i + 1);
    }
}

proof fn lemma_match_err(m: ast::Match)
    ensures
        match_of(m) is Err ==> strictly_inside(m, match_of(m)->Err_0),
    decreases m, 0int,
{
    lemma_expr_err(m.expr);
    lemma_cases_err(m.cases@, 0);
}

proof fn lemma_func_err(f: ast::Func)
    ensures
        func_of(f) is Err ==> strictly_inside(f, func_of(f)->Err_0),
    decreases f, 0int,
{
    lemma_func_type_err(f.ty);
    lemma_stmts_err(f.block.elems@, 0);
}

proof fn lemma_decl_err(item: Item)
    ensures
        decl_of(item) is Err ==> (!is_decl_shape(item) && decl_of(item)->Err_0 == item)
            || strictly_inside(item, decl_of(item)->Err_0),
    decreases item, 0int,
{
    match item {
        Item::LetDecl(l) => {
            lemma_expr_err(l.expr);
        },
        Item::VarDecl(v) => {
            lemma_expr_err(v.expr);
        },
        Item::TypeAliasDecl(a) => {
            lemma_type_err(a.ty);
        },
        _ => {},
    }
}

proof fn lemma_stmt_err(item: Item)
    ensures
        stmt_of(item) is Err ==> (!is_expr_shape(item) && !is_decl_shape(item) && stmt_of(item)->Err_0
            == item) || strictly_inside(item, stmt_of(item)->Err_0),
    decreases item, 1int,
{
    lemma_expr_err(item);
    lemma_decl_err(item);
}

/// Fail-fast lowering reports a node of the input: the node itself when its
/// shape is not admitted in the position, and otherwise a node strictly inside
/// it, never an admitted node in place of its offending part.
pub proof fn lemma_reported_node_position(item: Item)
    ensures
        type_of(item) is Err ==> (!is_type_shape(item) && type_of(item)->Err_0 == item)
            || strictly_inside(item, type_of(item)->Err_0),
        expr_of(item) is Err ==> (!is_expr_shape(item) && expr_of(item)->Err_0 == item)
            || strictly_inside(item, expr_of(item)->Err_0),
        decl_of(item) is Err ==> (!is_decl_shape(item) && decl_of(item)->Err_0 == item)
            || strictly_inside(item, decl_of(item)->Err_0),
        stmt_of(item) is Err ==> (!is_expr_shape(item) && !is_decl_shape(item) && stmt_of(item)->Err_0
            == item) || strictly_inside(item, stmt_of(item)->Err_0),
{
    lemma_type_err(item);
    lemma_expr_err(item);
    lemma_decl_err(item);
    lemma_stmt_err(item);
}

/// A source file fails with a node strictly inside its sequence of items.
pub proof fn lemma_source_error_inside(s: Seq<Item>, i: int)
    ensures
        decls_from(s, i) is Err ==> strictly_inside(s, decls_from(s, i)->Err_0),
    decreases s.len() - i,
{
    if 0 <= i < s.len() {
        lemma_decl_err(s[i]);
        lemma_source_error_inside(s, i + 1);
    }
}

} // verus!
