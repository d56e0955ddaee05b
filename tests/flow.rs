use paracell::ast::{
    ApplyExpr, BinaryOpExpr, BinaryOperator, Block, Case, Func, FuncType, Ident, IdentItem, Item,
    LetDecl, Match, Nat, RecordType, Tuple, UnaryOpExpr, UnaryOperator, UnionType,
};

fn ident(s: &str) -> Ident {
    Ident { lit: s.to_string() }
}

fn id(s: &str) -> Item {
    Item::Ident(ident(s))
}

fn numeral(v: u128) -> Item {
    Item::Nat(Nat { val: v })
}

fn bound(name: &str, item: Item) -> IdentItem {
    IdentItem { ident: ident(name), item }
}

fn binary(op: BinaryOperator, left: Item, right: Item) -> Item {
    Item::BinaryOpExpr(Box::new(BinaryOpExpr { op, left, right }))
}

fn record_type(fields: Vec<IdentItem>) -> Item {
    Item::RecordType(Box::new(RecordType { fields }))
}

#[test]
fn test_parse_nat() {
    let hex = numeral(0xEF).expect_semantic_expr().unwrap().as_Nat().unwrap().val;
    let dec = numeral(1024).expect_semantic_expr().unwrap().as_Nat().unwrap().val;
    let oct = numeral(0o644).expect_semantic_expr().unwrap().as_Nat().unwrap().val;
    let bin = numeral(0b1001).expect_semantic_expr().unwrap().as_Nat().unwrap().val;
    assert_eq!(hex, 0xEF);
    assert_eq!(dec, 1024);
    assert_eq!(oct, 0o644);
    assert_eq!(bin, 0b1001);
}

#[test]
fn test_parse_record() {
    let item = record_type(vec![bound("A", id("Nat")), bound("B", id("Nat"))]);
    let mut s = item.expect_semantic_type().unwrap().as_Record().unwrap();

    let f2 = s.fields.pop().unwrap();
    let f1 = s.fields.pop().unwrap();

    assert_eq!(f1.ident, "A");
    assert_eq!(f2.ident, "B");
}

#[test]
fn test_parse_union() {
    let item = Item::UnionType(Box::new(UnionType {
        variants: vec![bound("A", id("Nat")), bound("B", id("Nat"))],
    }));
    let mut s = item.expect_semantic_type().unwrap().as_Union().unwrap();

    let v2 = s.variants.pop().unwrap();
    let v1 = s.variants.pop().unwrap();

    assert_eq!(v1.ident, "A");
    assert_eq!(v2.ident, "B");
}

#[test]
fn test_parse_unary() {
    let item = Item::UnaryOpExpr(Box::new(UnaryOpExpr { op: UnaryOperator::Invert, expr: id("Bit") }));
    let mut s = item.expect_semantic_expr().unwrap().as_Apply().unwrap();

    let f = s.params.fields.pop().unwrap();

    assert_eq!(s.func.as_Ident().unwrap(), UnaryOperator::Invert.to_literal());
    assert_eq!(f.expr.as_Ident().unwrap(), "Bit");
}

#[test]
fn test_parse_binary() {
    let item = binary(BinaryOperator::Add, numeral(1), numeral(2));
    let mut s = item.expect_semantic_expr().unwrap().as_Apply().unwrap();

    let f2 = s.params.fields.pop().unwrap();
    let f1 = s.params.fields.pop().unwrap();

    assert_eq!(s.func.as_Ident().unwrap(), BinaryOperator::Add.to_literal());
    assert_eq!(f1.expr.as_Nat().unwrap().val, 1);
    assert_eq!(f2.expr.as_Nat().unwrap().val, 2);
}

#[test]
fn test_parse_let() {
    let item = Item::LetDecl(Box::new(LetDecl {
        ident: ident("v"),
        expr: binary(BinaryOperator::Add, numeral(1), numeral(2)),
    }));
    let s = item.expect_semantic_decl().unwrap().as_Let().unwrap();

    assert_eq!(s.ident, "v");

    let mut arith = s.expr.as_Apply().unwrap();

    let f2 = arith.params.fields.pop().unwrap();
    let f1 = arith.params.fields.pop().unwrap();

    assert_eq!(arith.func.as_Ident().unwrap(), BinaryOperator::Add.to_literal());
    assert_eq!(f1.expr.as_Nat().unwrap().val, 1);
    assert_eq!(f2.expr.as_Nat().unwrap().val, 2);
}

fn sample_func() -> Item {
    Item::Func(Box::new(Func {
        ty: FuncType {
            param_tuple: Tuple {
                elems: vec![
                    Item::IdentItem(Box::new(bound("a", id("Nat")))),
                    Item::IdentItem(Box::new(bound("b", id("Nat")))),
                ],
            },
            result_ty: id("Nat"),
        },
        block: Block {
            elems: vec![
                Item::LetDecl(Box::new(LetDecl {
                    ident: ident("v"),
                    expr: binary(BinaryOperator::Add, id("a"), id("b")),
                })),
                id("v"),
            ],
        },
    }))
}

#[test]
fn test_parse_func() {
    let mut s = sample_func().expect_semantic_expr().unwrap().as_Func().unwrap();

    let result = s.block.stmts.pop().unwrap().as_Expr().unwrap().as_Ident().unwrap();

    assert_eq!(result, "v");

    let let_decl = s.block.stmts.pop().unwrap().as_Decl().unwrap().as_Let().unwrap();
    assert_eq!(let_decl.ident, "v");
}

#[test]
fn test_parse_apply() {
    let item = Item::ApplyExpr(Box::new(ApplyExpr {
        func: id("Invoke"),
        params: Tuple { elems: vec![numeral(1), numeral(2), binary(BinaryOperator::Add, numeral(3), numeral(4))] },
    }));
    let s = item.expect_semantic_expr().unwrap().as_Apply().unwrap();

    assert_eq!(s.func.as_Ident().unwrap(), "Invoke");
}

#[test]
fn test_parse_match() {
    let item = Item::Match(Box::new(Match {
        expr: id("nat"),
        cases: vec![Case { pattern: numeral(1), expr: numeral(2) }, Case { pattern: numeral(3), expr: numeral(4) }],
    }));
    let mut s = item.expect_semantic_expr().unwrap().as_Match().unwrap();

    let c2 = s.cases.pop().unwrap();
    let c1 = s.cases.pop().unwrap();

    assert_eq!(c1.pattern.as_Nat().unwrap().val, 1);
    assert_eq!(c2.pattern.as_Nat().unwrap().val, 3);
    assert_eq!(c1.expr.as_Nat().unwrap().val, 2);
    assert_eq!(c2.expr.as_Nat().unwrap().val, 4);
}
