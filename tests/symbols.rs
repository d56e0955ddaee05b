use paracell::sym::{
    resolve_ident, Decl, Expr, Field, LetDecl, NameTable, NatExpr, NatType, PrimitiveType,
    RecordType, Scope, Structure, SymbolError, Type, TypeAliasDecl, TypeArena, UnionType, Variant,
};

fn nat_type() -> Type {
    Type::Primitive(PrimitiveType::Nat(NatType {}))
}

#[test]
fn self_referential_list_type() {
    let mut table = NameTable::new();
    let mut arena = TypeArena::new();
    let list = arena.register();
    let cell = arena.register();
    assert_eq!((list, cell), (0, 1));

    // Before resolution the members cannot be read.
    assert_eq!(arena.members(list).unwrap_err(), SymbolError::UnresolvedType { handle: 0 });

    let cons = RecordType::new(vec![
        Field { ident: "head".to_string(), ty: nat_type() },
        Field { ident: "tail".to_string(), ty: Type::Union(list) },
    ], &mut table);
    assert!(arena.resolve(cell, Structure::Record(cons)).is_ok());
    let union = UnionType::new(vec![
        Variant { ident: "Nil".to_string(), ty: nat_type() },
        Variant { ident: "Cons".to_string(), ty: Type::Record(cell) },
    ], &mut table);
    assert!(arena.resolve(list, Structure::Union(union)).is_ok());

    match arena.members(list).unwrap() {
        Structure::Union(u) => {
            assert_eq!(u.variant_index(table.intern("Nil")), Some(0));
            assert_eq!(u.variant_index(table.intern("Cons")), Some(1));
            assert_eq!(u.variant_index(table.intern("Other")), None);
            assert_eq!(u.variants[1].ty, Type::Record(cell));
        },
        _ => panic!("expected a union"),
    }
    match arena.members(cell).unwrap() {
        Structure::Record(r) => {
            let tail = r.field_index(table.intern("tail")).unwrap();
            assert_eq!(tail, 1);
            assert_eq!(r.fields[tail].ty, Type::Union(list));
        },
        _ => panic!("expected a record"),
    }
}

#[test]
fn members_are_resolved_once() {
    let mut table = NameTable::new();
    let mut arena = TypeArena::new();
    let h = arena.register();
    assert!(arena.resolve(h, Structure::Record(RecordType::new(vec![], &mut table))).is_ok());
    let again = arena.resolve(h, Structure::Record(RecordType::new(vec![], &mut table)));
    assert_eq!(again, Err(SymbolError::AlreadyResolved { handle: h }));
    assert_eq!(
        arena.resolve(5, Structure::Record(RecordType::new(vec![], &mut table))),
        Err(SymbolError::UnknownType { handle: 5 })
    );
    assert_eq!(arena.members(5).unwrap_err(), SymbolError::UnknownType { handle: 5 });
}

#[test]
fn duplicate_field_name_finds_the_last() {
    let mut table = NameTable::new();
    let b = table.intern("b");
    let r = RecordType::new(vec![
        Field { ident: "a".to_string(), ty: nat_type() },
        Field { ident: "b".to_string(), ty: nat_type() },
        Field { ident: "a".to_string(), ty: Type::Record(9) },
    ], &mut table);
    let a = table.intern("a");
    assert_eq!((b, a), (0, 1));
    assert_eq!(table.names, vec!["b".to_string(), "a".to_string()]);
    assert_eq!(r.field_index(a), Some(2));
    assert_eq!(r.field_index(b), Some(1));
    assert_eq!(r.field_index(7), None);
    assert_eq!(r.fields.len(), 3);
}

#[test]
fn innermost_declaration_shadows() {
    let mut table = NameTable::new();
    let x = table.intern("x");
    let t = table.intern("T");
    let y = table.intern("y");
    assert_eq!(table.intern("x"), x);
    assert_eq!(table.text(t), "T");

    let outer_x = Decl::Let(LetDecl { ident: "x".to_string(), expr: Expr::Nat(NatExpr { val: 1 }) });
    let inner_x = Decl::Let(LetDecl { ident: "x".to_string(), expr: Expr::Nat(NatExpr { val: 2 }) });
    let alias = Decl::TypeAlias(TypeAliasDecl { ident: "T".to_string(), ty: nat_type() });

    let mut outer = Scope::new(Expr::Nat(NatExpr { val: 0 }));
    assert_eq!(outer.declare(x, &outer_x), 0);
    assert_eq!(outer.declare(t, &alias), 1);
    let mut inner = Scope::new(Expr::Nat(NatExpr { val: 0 }));
    inner.declare(x, &inner_x);
    let scopes = vec![outer, inner];

    let found = resolve_ident(&scopes, x).unwrap();
    assert!(std::ptr::eq(found, &inner_x));
    let found = resolve_ident(&scopes, t).unwrap();
    assert!(std::ptr::eq(found, &alias));
    assert_eq!(resolve_ident(&scopes, y).unwrap_err(), SymbolError::UnresolvedReference { name: y });
    assert!(resolve_ident(&vec![], x).is_err());
}

#[test]
fn clones_are_independent() {
    let d = Decl::Let(LetDecl { ident: "x".to_string(), expr: Expr::Nat(NatExpr { val: 4 }) });
    let mut scope = Scope::new(Expr::Nat(NatExpr { val: 0 }));
    scope.declare(3, &d);
    let copy = scope.clone();
    assert_eq!(copy.decls.keys, vec![3]);
    assert!(std::ptr::eq(*copy.decls.get(&3).unwrap(), &d));
    assert_eq!(format!("{:?}", copy.expr), format!("{:?}", scope.expr));
}
