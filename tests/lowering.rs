use paracell::ast::{
    ApplyExpr, BinaryOpExpr, BinaryOperator, Block, Ident, IdentItem, Item, LetDecl, Nat, Pipe,
    RecordExpr, RecordType, Select, SourceFile, Tuple, TypeAliasDecl, TypeTuple, UnaryOperator,
    VarDecl,
};
use paracell::lower::{SemanticError, ToSemantic};
use paracell::sem;

fn ident(s: &str) -> Ident {
    Ident { lit: s.to_string() }
}

fn id(s: &str) -> Item {
    Item::Ident(ident(s))
}

fn numeral(v: u128) -> Item {
    Item::Nat(Nat { val: v })
}

fn named(name: &str, item: Item) -> Item {
    Item::IdentItem(Box::new(IdentItem { ident: ident(name), item }))
}

fn binary(op: BinaryOperator, left: Item, right: Item) -> Item {
    Item::BinaryOpExpr(Box::new(BinaryOpExpr { op, left, right }))
}

fn rejected_node<'a>(e: SemanticError<'a>) -> &'a Item {
    match e {
        SemanticError::UnexpectedNode { have } => have,
    }
}

#[test]
fn numerals_of_every_base_lower_alike() {
    for v in [1024u128, 0x400, 0o2000, 0b10000000000] {
        let n = numeral(v).expect_semantic_expr().unwrap().as_Nat().unwrap();
        assert_eq!(n.val, 1024);
    }
}

#[test]
fn operator_literals() {
    assert_eq!(UnaryOperator::Invert.to_literal(), "~");
    assert_eq!(UnaryOperator::Not.to_literal(), "!");
    let ops = [
        (BinaryOperator::Add, "+"),
        (BinaryOperator::Sub, "-"),
        (BinaryOperator::Mul, "*"),
        (BinaryOperator::Div, "/"),
        (BinaryOperator::Mod, "%"),
        (BinaryOperator::And, "&"),
        (BinaryOperator::Or, "|"),
    ];
    for (op, lit) in ops {
        assert_eq!(op.to_literal(), lit);
        let a = binary(op, numeral(1), numeral(2)).expect_semantic_expr().unwrap().as_Apply().unwrap();
        assert_eq!(a.func.as_Ident().unwrap(), lit);
        let names: Vec<String> = a.params.fields.iter().map(|f| f.ident.clone()).collect();
        assert_eq!(names, vec!["0", "1"]);
    }
}

#[test]
fn unary_not_has_one_positional_field() {
    let item = Item::UnaryOpExpr(Box::new(paracell::ast::UnaryOpExpr {
        op: UnaryOperator::Not,
        expr: id("x"),
    }));
    let a = item.expect_semantic_expr().unwrap().as_Apply().unwrap();
    assert_eq!(a.func.as_Ident().unwrap(), "!");
    assert_eq!(a.params.fields.len(), 1);
    assert_eq!(a.params.fields[0].ident, "0");
}

#[test]
fn record_type_in_expression_position_is_rejected() {
    let item = Item::RecordType(Box::new(RecordType {
        fields: vec![IdentItem { ident: ident("A"), item: id("Nat") }],
    }));
    let e = item.expect_semantic_expr().unwrap_err();
    assert!(std::ptr::eq(rejected_node(e), &item));
}

#[test]
fn nested_rejection_names_the_inner_node() {
    // `1 + record {}`: the record type is the node at fault, not the sum.
    let item = binary(BinaryOperator::Add, numeral(1), Item::RecordType(Box::new(RecordType { fields: vec![] })));
    let e = item.expect_semantic_expr().unwrap_err();
    let have = rejected_node(e);
    assert!(matches!(have, Item::RecordType(_)));
    match &item {
        Item::BinaryOpExpr(b) => assert!(std::ptr::eq(have, &b.right)),
        _ => unreachable!(),
    }
}

#[test]
fn first_error_wins() {
    let tuple = Item::Tuple(Tuple { elems: vec![numeral(1), Item::TypeTuple(Box::new(TypeTuple { elems: vec![] })), id("Bad")] });
    let e = tuple.expect_semantic_type().unwrap_err();
    match &tuple {
        Item::Tuple(t) => assert!(std::ptr::eq(rejected_node(e), &t.elems[0])),
        _ => unreachable!(),
    }
}

#[test]
fn positions_reject_their_shapes() {
    assert!(numeral(1).expect_semantic_type().is_err());
    assert!(numeral(1).expect_semantic_decl().is_err());
    assert!(id("x").expect_semantic_decl().is_err());
    let item_pair = named("a", numeral(1));
    assert!(item_pair.expect_semantic_expr().is_err());
    assert!(item_pair.expect_semantic_stmt().is_err());
    assert!(item_pair.expect_semantic_type().is_err());
    let tt = Item::TypeTuple(Box::new(TypeTuple { elems: vec![] }));
    assert!(tt.expect_semantic_expr().is_err());
    assert!(tt.expect_semantic_stmt().is_err());
    let alias = Item::TypeAliasDecl(Box::new(TypeAliasDecl { ident: ident("T"), ty: id("Nat") }));
    assert!(alias.expect_semantic_expr().is_err());
    let d = alias.expect_semantic_stmt().unwrap().as_Decl().unwrap().as_TypeAlias().unwrap();
    assert_eq!(d.ident, "T");
    assert_eq!(d.ty.as_Ident().unwrap(), "Nat");
}

#[test]
fn type_tuple_fields_are_named_by_position() {
    let elems: Vec<Item> = (0..12).map(|_| id("Nat")).collect();
    let r = Tuple { elems }.expect_semantic_type_tuple().unwrap();
    let names: Vec<String> = r.fields.iter().map(|f| f.ident.clone()).collect();
    let expected: Vec<String> = (0..12).map(|i: usize| i.to_string()).collect();
    assert_eq!(names, expected);
    assert_eq!(r.fields[11].ident, "11");
}

#[test]
fn argument_tuples_named_or_positional() {
    let positional = Tuple { elems: vec![numeral(5), numeral(6)] }.expect_semantic_func_param_tuple().unwrap();
    assert_eq!(positional.fields[0].ident, "0");
    assert_eq!(positional.fields[1].ident, "1");
    assert!(matches!(&positional.fields[1].expr, paracell::sem::Expr::Nat(n) if n.val == 6));

    let named_args = Tuple { elems: vec![named("x", numeral(5)), named("y", numeral(6))] };
    let r = named_args.expect_semantic_func_param_tuple().unwrap();
    assert_eq!(r.fields[0].ident, "x");
    assert_eq!(r.fields[1].ident, "y");

    let empty = Tuple { elems: vec![] }.expect_semantic_func_param_tuple().unwrap();
    assert!(empty.fields.is_empty());
}

#[test]
fn mixed_tuples_are_rejected() {
    let named_first = Tuple { elems: vec![named("x", numeral(5)), numeral(6)] };
    let e = named_first.expect_semantic_field_fill_tuple().unwrap_err();
    assert!(std::ptr::eq(rejected_node(e), &named_first.elems[1]));

    let positional_first = Tuple { elems: vec![numeral(5), named("y", numeral(6))] };
    let e = positional_first.expect_semantic_func_param_tuple().unwrap_err();
    assert!(std::ptr::eq(rejected_node(e), &positional_first.elems[1]));
}

#[test]
fn function_parameters_must_be_named() {
    let t = Tuple { elems: vec![named("a", id("Nat")), id("Nat")] };
    let e = t.expect_semantic_func_tuple().unwrap_err();
    assert!(std::ptr::eq(rejected_node(e), &t.elems[1]));
    let ok = Tuple { elems: vec![named("a", id("Nat"))] }.expect_semantic_func_tuple().unwrap();
    assert_eq!(ok.fields[0].ident, "a");
}

#[test]
fn select_and_pipe() {
    let sel = Item::Select(Box::new(Select { expr: id("p"), ident: ident("x") }));
    let s = sel.expect_semantic_expr().unwrap().as_Select().unwrap();
    assert_eq!(s.ident, "x");
    assert_eq!(s.expr.as_Ident().unwrap(), "p");

    let pipe = Item::Pipe(Box::new(Pipe { from: numeral(1), to: id("f") }));
    let p = pipe.expect_semantic_expr().unwrap().as_Pipe().unwrap();
    assert_eq!(p.from.as_Nat().unwrap().val, 1);
    assert_eq!(p.to.as_Ident().unwrap(), "f");
}

#[test]
fn blocks_and_var_declarations() {
    let block = Item::Block(Box::new(Block {
        elems: vec![Item::VarDecl(Box::new(VarDecl { ident: ident("w"), expr: numeral(3) })), id("w")],
    }));
    let mut b = block.expect_semantic_expr().unwrap().as_Block().unwrap();
    assert_eq!(b.stmts.pop().unwrap().as_Expr().unwrap().as_Ident().unwrap(), "w");
    let v = b.stmts.pop().unwrap().as_Decl().unwrap().as_Var().unwrap();
    assert_eq!(v.ident, "w");
    assert_eq!(v.expr.as_Nat().unwrap().val, 3);
}

#[test]
fn source_file_lowers_declarations_in_order() {
    let file = SourceFile {
        items: vec![
            Item::LetDecl(Box::new(LetDecl { ident: ident("a"), expr: numeral(1) })),
            Item::TypeAliasDecl(Box::new(TypeAliasDecl { ident: ident("T"), ty: id("Nat") })),
        ],
    };
    let s = file.to_semantic().unwrap();
    assert_eq!(s.decls.len(), 2);
    let mut decls = s.decls;
    assert_eq!(decls.pop().unwrap().as_TypeAlias().unwrap().ident, "T");
    assert_eq!(decls.pop().unwrap().as_Let().unwrap().ident, "a");

    let bad = SourceFile { items: vec![numeral(1)] };
    let e = bad.to_semantic().unwrap_err();
    assert!(std::ptr::eq(rejected_node(e), &bad.items[0]));
}

#[test]
fn record_expression_fields() {
    let r = RecordExpr {
        fields: vec![IdentItem { ident: ident("x"), item: numeral(1) }, IdentItem { ident: ident("y"), item: id("z") }],
    };
    let mut s: sem::RecordExpr = r.to_semantic().unwrap();
    assert_eq!(s.fields[0].ident, "x");
    assert_eq!(s.fields.pop().unwrap().expr.as_Ident().unwrap(), "z");
}

#[test]
fn lowering_twice_gives_the_same_result() {
    let item = Item::ApplyExpr(Box::new(ApplyExpr {
        func: id("f"),
        params: Tuple { elems: vec![numeral(1), binary(BinaryOperator::Mul, numeral(2), numeral(3))] },
    }));
    let a = format!("{:?}", item.expect_semantic_expr().unwrap());
    let b = format!("{:?}", item.expect_semantic_expr().unwrap());
    assert_eq!(a, b);
    let s = format!("{:?}", item.expect_semantic_stmt().unwrap());
    assert!(s.contains(&a));
}

#[test]
fn narrowing_yields_none_on_other_tags() {
    assert!(numeral(1).expect_semantic_expr().unwrap().as_Ident().is_none());
    assert!(id("T").expect_semantic_type().unwrap().as_Record().is_none());
}

#[test]
fn match_scrutinee_is_lowered_first() {
    let bad = Item::Match(Box::new(paracell::ast::Match {
        expr: Item::RecordType(Box::new(RecordType { fields: vec![] })),
        cases: vec![paracell::ast::Case { pattern: id("Bad"), expr: Item::TypeTuple(Box::new(TypeTuple { elems: vec![] })) }],
    }));
    let e = bad.expect_semantic_expr().unwrap_err();
    match &bad {
        Item::Match(m) => assert!(std::ptr::eq(rejected_node(e), &m.expr)),
        _ => unreachable!(),
    }

    let good = Item::Match(Box::new(paracell::ast::Match {
        expr: id("n"),
        cases: vec![paracell::ast::Case { pattern: numeral(0), expr: numeral(1) }],
    }));
    let m = good.expect_semantic_expr().unwrap().as_Match().unwrap();
    assert_eq!(m.expr.as_Ident().unwrap(), "n");
    assert_eq!(m.cases.len(), 1);
}

#[test]
fn cloned_trees_lower_alike() {
    let item = binary(BinaryOperator::Sub, id("a"), Item::Tuple(Tuple { elems: vec![named("k", numeral(2))] }));
    let copy = item.clone();
    let a = item.expect_semantic_expr().unwrap();
    assert_eq!(format!("{:?}", a), format!("{:?}", copy.expect_semantic_expr().unwrap()));
    assert_eq!(format!("{:?}", a.clone()), format!("{:?}", a));
}

#[test]
fn record_type_fails_at_its_first_failing_field() {
    let r = Item::RecordType(Box::new(RecordType {
        fields: vec![
            IdentItem { ident: ident("A"), item: id("Nat") },
            IdentItem { ident: ident("B"), item: numeral(1) },
            IdentItem { ident: ident("C"), item: numeral(2) },
        ],
    }));
    let e = r.expect_semantic_type().unwrap_err();
    match &r {
        Item::RecordType(t) => assert!(std::ptr::eq(rejected_node(e), &t.fields[1].item)),
        _ => unreachable!(),
    }
}
