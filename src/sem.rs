//! The semantic IR: one tagged union per grammatical position, and the ghost
//! models that contracts speak of (names as character sequences).
use vstd::prelude::*;

verus! {

// Atoms

#[derive(Clone, Debug)]
pub struct Ident {
    pub lit: String,
}

#[derive(Clone, Copy, Debug)]
pub struct Nat {
    pub val: u128,
}

// Types

#[derive(Debug)]
pub struct Field {
    pub ident: String,
    pub ty: Type,
}

#[derive(Debug)]
pub struct RecordType {
    pub fields: Vec<Field>,
}

#[derive(Debug)]
pub struct Variant {
    pub ident: String,
    pub ty: Type,
}

#[derive(Debug)]
pub struct UnionType {
    pub variants: Vec<Variant>,
}

#[derive(Debug)]
pub struct FuncType {
    pub params: RecordType,
    pub result: Type,
}

#[derive(Debug)]
pub enum Type {
    Ident(String),
    Record(Box<RecordType>),
    Union(Box<UnionType>),
    Func(Box<FuncType>),
}

// Expressions

#[derive(Debug)]
pub struct Select {
    pub expr: Expr,
    pub ident: String,
}

#[derive(Debug)]
pub struct Pipe {
    pub from: Expr,
    pub to: Expr,
}

#[derive(Debug)]
pub struct Block {
    pub stmts: Vec<Stmt>,
}

#[derive(Debug)]
pub struct Func {
    pub ty: FuncType,
    pub block: Block,
}

#[derive(Debug)]
pub struct FieldFill {
    pub ident: String,
    pub expr: Expr,
}

#[derive(Debug)]
pub struct RecordExpr {
    pub fields: Vec<FieldFill>,
}

#[derive(Debug)]
pub struct ApplyExpr {
    pub func: Expr,
    pub params: RecordExpr,
}

#[derive(Debug)]
pub struct Case {
    pub pattern: Expr,
    pub expr: Expr,
}

#[derive(Debug)]
pub struct Match {
    pub expr: Expr,
    pub cases: Vec<Case>,
}

#[derive(Debug)]
pub enum Expr {
    Nat(Nat),
    Ident(String),
    Block(Box<Block>),
    Func(Box<Func>),
    Record(Box<RecordExpr>),
    Apply(Box<ApplyExpr>),
    Match(Box<Match>),
    Select(Box<Select>),
    Pipe(Box<Pipe>),
}

// Declarations

#[derive(Debug)]
pub struct LetDecl {
    pub ident: String,
    pub expr: Expr,
}

#[derive(Debug)]
pub struct VarDecl {
    pub ident: String,
    pub expr: Expr,
}

#[derive(Debug)]
pub struct TypeAliasDecl {
    pub ident: String,
    pub ty: Type,
}

#[derive(Debug)]
pub enum Decl {
    Let(LetDecl),
    Var(VarDecl),
    TypeAlias(TypeAliasDecl),
}

// Statements

#[derive(Debug)]
pub enum Stmt {
    Decl(Decl),
    Expr(Expr),
}

#[derive(Debug)]
pub struct SourceFile {
    pub decls: Vec<Decl>,
}

// Narrowing: the payload of one variant, or nothing when the tag differs.

impl Type {
    #[allow(non_snake_case)]
    pub fn as_Ident(self) -> (r: Option<String>)
        ensures
            r == (if self is Ident {
                Some(self->Ident_0)
            } else {
                None
            }),
    {
        match self {
            Type::Ident(v) => Some(v),
            _ => None,
        }
    }

    #[allow(non_snake_case)]
    pub fn as_Record(self) -> (r: Option<Box<RecordType>>)
        ensures
            r == (if self is Record {
                Some(self->Record_0)
            } else {
                None
            }),
    {
        match self {
            Type::Record(v) => Some(v),
            _ => None,
        }
    }

    #[allow(non_snake_case)]
    pub fn as_Union(self) -> (r: Option<Box<UnionType>>)
        ensures
            r == (if self is Union {
                Some(self->Union_0)
            } else {
                None
            }),
    {
        match self {
            Type::Union(v) => Some(v),
            _ => None,
        }
    }

    #[allow(non_snake_case)]
    pub fn as_Func(self) -> (r: Option<Box<FuncType>>)
        ensures
            r == (if self is Func {
                Some(self->Func_0)
            } else {
                None
            }),
    {
        match self {
            Type::Func(v) => Some(v),
            _ => None,
        }
    }
}

impl Expr {
    #[allow(non_snake_case)]
    pub fn as_Nat(self) -> (r: Option<Nat>)
        ensures
            r == (if self is Nat {
                Some(self->Nat_0)
            } else {
                None
            }),
    {
        match self {
            Expr::Nat(v) => Some(v),
            _ => None,
        }
    }

    #[allow(non_snake_case)]
    pub fn as_Ident(self) -> (r: Option<String>)
        ensures
            r == (if self is Ident {
                Some(self->Ident_0)
            } else {
                None
            }),
    {
        match self {
            Expr::Ident(v) => Some(v),
            _ => None,
        }
    }

    #[allow(non_snake_case)]
    pub fn as_Block(self) -> (r: Option<Box<Block>>)
        ensures
            r == (if self is Block {
                Some(self->Block_0)
            } else {
                None
            }),
    {
        match self {
            Expr::Block(v) => Some(v),
            _ => None,
        }
    }

    #[allow(non_snake_case)]
    pub fn as_Func(self) -> (r: Option<Box<Func>>)
        ensures
            r == (if self is Func {
                Some(self->Func_0)
            } else {
                None
            }),
    {
        match self {
            Expr::Func(v) => Some(v),
            _ => None,
        }
    }

    #[allow(non_snake_case)]
    pub fn as_Record(self) -> (r: Option<Box<RecordExpr>>)
        ensures
            r == (if self is Record {
                Some(self->Record_0)
            } else {
                None
            }),
    {
        match self {
            Expr::Record(v) => Some(v),
            _ => None,
        }
    }

    #[allow(non_snake_case)]
    pub fn as_Apply(self) -> (r: Option<Box<ApplyExpr>>)
        ensures
            r == (if self is Apply {
                Some(self->Apply_0)
            } else {
                None
            }),
    {
        match self {
            Expr::Apply(v) => Some(v),
            _ => None,
        }
    }

    #[allow(non_snake_case)]
    pub fn as_Match(self) -> (r: Option<Box<Match>>)
        ensures
            r == (if self is Match {
                Some(self->Match_0)
            } else {
                None
            }),
    {
        match self {
            Expr::Match(v) => Some(v),
            _ => None,
        }
    }

    #[allow(non_snake_case)]
    pub fn as_Select(self) -> (r: Option<Box<Select>>)
        ensures
            r == (if self is Select {
                Some(self->Select_0)
            } else {
                None
            }),
    {
        match self {
            Expr::Select(v) => Some(v),
            _ => None,
        }
    }

    #[allow(non_snake_case)]
    pub fn as_Pipe(self) -> (r: Option<Box<Pipe>>)
        ensures
            r == (if self is Pipe {
                Some(self->Pipe_0)
            } else {
                None
            }),
    {
        match self {
            Expr::Pipe(v) => Some(v),
            _ => None,
        }
    }
}

impl Decl {
    #[allow(non_snake_case)]
    pub fn as_Let(self) -> (r: Option<LetDecl>)
        ensures
            r == (if self is Let {
                Some(self->Let_0)
            } else {
                None
            }),
    {
        match self {
            Decl::Let(v) => Some(v),
            _ => None,
        }
    }

    #[allow(non_snake_case)]
    pub fn as_Var(self) -> (r: Option<VarDecl>)
        ensures
            r == (if self is Var {
                Some(self->Var_0)
            } else {
                None
            }),
    {
        match self {
            Decl::Var(v) => Some(v),
            _ => None,
        }
    }

    #[allow(non_snake_case)]
    pub fn as_TypeAlias(self) -> (r: Option<TypeAliasDecl>)
        ensures
            r == (if self is TypeAlias {
                Some(self->TypeAlias_0)
            } else {
                None
            }),
    {
        match self {
            Decl::TypeAlias(v) => Some(v),
            _ => None,
        }
    }
}

impl Stmt {
    #[allow(non_snake_case)]
    pub fn as_Decl(self) -> (r: Option<Decl>)
        ensures
            r == (if self is Decl {
                Some(self->Decl_0)
            } else {
                None
            }),
    {
        match self {
            Stmt::Decl(v) => Some(v),
            _ => None,
        }
    }

    #[allow(non_snake_case)]
    pub fn as_Expr(self) -> (r: Option<Expr>)
        ensures
            r == (if self is Expr {
                Some(self->Expr_0)
            } else {
                None
            }),
    {
        match self {
            Stmt::Expr(v) => Some(v),
            _ => None,
        }
    }
}

// Models: the IR with every name as the characters it holds.

/// A member of a record or union type, or a parameter: its name and its type.
pub type TypeMember = (Seq<char>, TypeModel);

/// One field of a record expression: its name and its value.
pub type ExprMember = (Seq<char>, ExprModel);

pub enum TypeModel {
    Ident(Seq<char>),
    Record(Seq<TypeMember>),
    Union(Seq<TypeMember>),
    Func(Seq<TypeMember>, Box<TypeModel>),
}

pub enum ExprModel {
    Nat(u128),
    Ident(Seq<char>),
    Block(Seq<StmtModel>),
    /// Parameters, result type, body.
    Func(Seq<TypeMember>, TypeModel, Seq<StmtModel>),
    Record(Seq<ExprMember>),
    /// Callee, arguments.
    Apply(Box<ExprModel>, Seq<ExprMember>),
    /// The scrutinee, and the cases as (pattern, result) pairs, in order.
    Match(Box<ExprModel>, Seq<(ExprModel, ExprModel)>),
    Select(Box<ExprModel>, Seq<char>),
    Pipe(Box<ExprModel>, Box<ExprModel>),
}

pub enum DeclModel {
    Let(Seq<char>, ExprModel),
    Var(Seq<char>, ExprModel),
    TypeAlias(Seq<char>, TypeModel),
}

pub enum StmtModel {
    Decl(DeclModel),
    Expr(ExprModel),
}

pub open spec fn type_model(t: Type) -> TypeModel
    decreases t,
{
    match t {
        Type::Ident(s) => TypeModel::Ident(s@),
        Type::Record(r) => TypeModel::Record(fields_model(r.fields@)),
        Type::Union(u) => TypeModel::Union(variants_model(u.variants@)),
        Type::Func(f) => TypeModel::Func(
            fields_model(f.params.fields@),
            Box::new(type_model(f.result)),
        ),
    }
}

pub open spec fn fields_model(s: Seq<Field>) -> Seq<TypeMember>
    decreases s,
{
    if s.len() == 0 {
        Seq::empty()
    } else {
        let last = s[s.len() - 1];
        fields_model(s.subrange(0, s.len() - 1)).push((last.ident@, type_model(last.ty)))
    }
}

pub open spec fn variants_model(s: Seq<Variant>) -> Seq<TypeMember>
    decreases s,
{
    if s.len() == 0 {
        Seq::empty()
    } else {
        let last = s[s.len() - 1];
        variants_model(s.subrange(0, s.len() - 1)).push((last.ident@, type_model(last.ty)))
    }
}

pub open spec fn expr_model(e: Expr) -> ExprModel
    decreases e,
{
    match e {
        Expr::Nat(n) => ExprModel::Nat(n.val),
        Expr::Ident(s) => ExprModel::Ident(s@),
        Expr::Block(b) => ExprModel::Block(stmts_model(b.stmts@)),
        Expr::Func(f) => ExprModel::Func(
            fields_model(f.ty.params.fields@),
            type_model(f.ty.result),
            stmts_model(f.block.stmts@),
        ),
        Expr::Record(r) => ExprModel::Record(fills_model(r.fields@)),
        Expr::Apply(a) => ExprModel::Apply(Box::new(expr_model(a.func)), fills_model(a.params.fields@)),
        Expr::Match(m) => ExprModel::Match(Box::new(expr_model(m.expr)), cases_model(m.cases@)),
        Expr::Select(s) => ExprModel::Select(Box::new(expr_model(s.expr)), s.ident@),
        Expr::Pipe(p) => ExprModel::Pipe(Box::new(expr_model(p.from)), Box::new(expr_model(p.to))),
    }
}

pub open spec fn fills_model(s: Seq<FieldFill>) -> Seq<ExprMember>
    decreases s,
{
    if s.len() == 0 {
        Seq::empty()
    } else {
        let last = s[s.len() - 1];
        fills_model(s.subrange(0, s.len() - 1)).push((last.ident@, expr_model(last.expr)))
    }
}

pub open spec fn cases_model(s: Seq<Case>) -> Seq<(ExprModel, ExprModel)>
    decreases s,
{
    if s.len() == 0 {
        Seq::empty()
    } else {
        let last = s[s.len() - 1];
        cases_model(s.subrange(0, s.len() - 1)).push(
            (expr_model(last.pattern), expr_model(last.expr)),
        )
    }
}

pub open spec fn stmts_model(s: Seq<Stmt>) -> Seq<StmtModel>
    decreases s,
{
    if s.len() == 0 {
        Seq::empty()
    } else {
        stmts_model(s.subrange(0, s.len() - 1)).push(stmt_model(s[s.len() - 1]))
    }
}

pub open spec fn decl_model(d: Decl) -> DeclModel
    decreases d,
{
    match d {
        Decl::Let(l) => DeclModel::Let(l.ident@, expr_model(l.expr)),
        Decl::Var(v) => DeclModel::Var(v.ident@, expr_model(v.expr)),
        Decl::TypeAlias(a) => DeclModel::TypeAlias(a.ident@, type_model(a.ty)),
    }
}

pub open spec fn stmt_model(s: Stmt) -> StmtModel
    decreases s,
{
    match s {
        Stmt::Decl(d) => StmtModel::Decl(decl_model(d)),
        Stmt::Expr(e) => StmtModel::Expr(expr_model(e)),
    }
}

pub open spec fn decls_model(s: Seq<Decl>) -> Seq<DeclModel>
    decreases s,
{
    if s.len() == 0 {
        Seq::empty()
    } else {
        decls_model(s.subrange(0, s.len() - 1)).push(decl_model(s[s.len() - 1]))
    }
}

impl View for Type {
    type V = TypeModel;

    open spec fn view(&self) -> TypeModel {
        type_model(*self)
    }
}

impl View for Expr {
    type V = ExprModel;

    open spec fn view(&self) -> ExprModel {
        expr_model(*self)
    }
}

impl View for Decl {
    type V = DeclModel;

    open spec fn view(&self) -> DeclModel {
        decl_model(*self)
    }
}

impl View for Stmt {
    type V = StmtModel;

    open spec fn view(&self) -> StmtModel {
        stmt_model(*self)
    }
}

impl View for RecordType {
    type V = Seq<TypeMember>;

    open spec fn view(&self) -> Seq<TypeMember> {
        fields_model(self.fields@)
    }
}

impl View for UnionType {
    type V = Seq<TypeMember>;

    open spec fn view(&self) -> Seq<TypeMember> {
        variants_model(self.variants@)
    }
}

impl View for RecordExpr {
    type V = Seq<ExprMember>;

    open spec fn view(&self) -> Seq<ExprMember> {
        fills_model(self.fields@)
    }
}

impl View for SourceFile {
    type V = Seq<DeclModel>;

    open spec fn view(&self) -> Seq<DeclModel> {
        decls_model(self.decls@)
    }
}

impl View for Nat {
    type V = u128;

    open spec fn view(&self) -> u128 {
        self.val
    }
}

impl View for FuncType {
    type V = (Seq<TypeMember>, TypeModel);

    open spec fn view(&self) -> (Seq<TypeMember>, TypeModel) {
        (fields_model(self.params.fields@), type_model(self.result))
    }
}

impl View for Block {
    type V = Seq<StmtModel>;

    open spec fn view(&self) -> Seq<StmtModel> {
        stmts_model(self.stmts@)
    }
}

impl View for Func {
    type V = (Seq<TypeMember>, TypeModel, Seq<StmtModel>);

    open spec fn view(&self) -> (Seq<TypeMember>, TypeModel, Seq<StmtModel>) {
        (fields_model(self.ty.params.fields@), type_model(self.ty.result), stmts_model(self.block.stmts@))
    }
}

impl View for ApplyExpr {
    type V = (ExprModel, Seq<ExprMember>);

    open spec fn view(&self) -> (ExprModel, Seq<ExprMember>) {
        (expr_model(self.func), fills_model(self.params.fields@))
    }
}

impl View for Case {
    type V = (ExprModel, ExprModel);

    open spec fn view(&self) -> (ExprModel, ExprModel) {
        (expr_model(self.pattern), expr_model(self.expr))
    }
}

impl View for Match {
    type V = (ExprModel, Seq<(ExprModel, ExprModel)>);

    open spec fn view(&self) -> (ExprModel, Seq<(ExprModel, ExprModel)>) {
        (expr_model(self.expr), cases_model(self.cases@))
    }
}

impl View for Select {
    type V = (ExprModel, Seq<char>);

    open spec fn view(&self) -> (ExprModel, Seq<char>) {
        (expr_model(self.expr), self.ident@)
    }
}

impl View for Pipe {
    type V = (ExprModel, ExprModel);

    open spec fn view(&self) -> (ExprModel, ExprModel) {
        (expr_model(self.from), expr_model(self.to))
    }
}

impl View for LetDecl {
    type V = (Seq<char>, ExprModel);

    open spec fn view(&self) -> (Seq<char>, ExprModel) {
        (self.ident@, expr_model(self.expr))
    }
}

impl View for VarDecl {
    type V = (Seq<char>, ExprModel);

    open spec fn view(&self) -> (Seq<char>, ExprModel) {
        (self.ident@, expr_model(self.expr))
    }
}

impl View for TypeAliasDecl {
    type V = (Seq<char>, TypeModel);

    open spec fn view(&self) -> (Seq<char>, TypeModel) {
        (self.ident@, type_model(self.ty))
    }
}

// Copies: a recursive type's clone copies its children one by one.

fn copy_field(x: &Field) -> Field
    decreases x,
{
    Field { ident: x.ident.clone(), ty: copy_type(&x.ty) }
}

impl Clone for Field {
    fn clone(&self) -> Self {
        copy_field(self)
    }
}

fn copy_record_type(x: &RecordType) -> RecordType
    decreases x,
{
    RecordType { fields: copy_field_vec(&x.fields) }
}

impl Clone for RecordType {
    fn clone(&self) -> Self {
        copy_record_type(self)
    }
}

fn copy_variant(x: &Variant) -> Variant
    decreases x,
{
    Variant { ident: x.ident.clone(), ty: copy_type(&x.ty) }
}

impl Clone for Variant {
    fn clone(&self) -> Self {
        copy_variant(self)
    }
}

fn copy_union_type(x: &UnionType) -> UnionType
    decreases x,
{
    UnionType { variants: copy_variant_vec(&x.variants) }
}

impl Clone for UnionType {
    fn clone(&self) -> Self {
        copy_union_type(self)
    }
}

fn copy_func_type(x: &FuncType) -> FuncType
    decreases x,
{
    FuncType { params: copy_record_type(&x.params), result: copy_type(&x.result) }
}

impl Clone for FuncType {
    fn clone(&self) -> Self {
        copy_func_type(self)
    }
}

fn copy_type(x: &Type) -> Type
    decreases x,
{
    match x {
        Type::Ident(p) => Type::Ident(p.clone()),
        Type::Record(p) => Type::Record(Box::new(copy_record_type(p))),
        Type::Union(p) => Type::Union(Box::new(copy_union_type(p))),
        Type::Func(p) => Type::Func(Box::new(copy_func_type(p))),
    }
}

impl Clone for Type {
    fn clone(&self) -> Self {
        copy_type(self)
    }
}

fn copy_select(x: &Select) -> Select
    decreases x,
{
    Select { expr: copy_expr(&x.expr), ident: x.ident.clone() }
}

impl Clone for Select {
    fn clone(&self) -> Self {
        copy_select(self)
    }
}

fn copy_pipe(x: &Pipe) -> Pipe
    decreases x,
{
    Pipe { from: copy_expr(&x.from), to: copy_expr(&x.to) }
}

impl Clone for Pipe {
    fn clone(&self) -> Self {
        copy_pipe(self)
    }
}

fn copy_block(x: &Block) -> Block
    decreases x,
{
    Block { stmts: copy_stmt_vec(&x.stmts) }
}

impl Clone for Block {
    fn clone(&self) -> Self {
        copy_block(self)
    }
}

fn copy_func(x: &Func) -> Func
    decreases x,
{
    Func { ty: copy_func_type(&x.ty), block: copy_block(&x.block) }
}

impl Clone for Func {
    fn clone(&self) -> Self {
        copy_func(self)
    }
}

fn copy_field_fill(x: &FieldFill) -> FieldFill
    decreases x,
{
    FieldFill { ident: x.ident.clone(), expr: copy_expr(&x.expr) }
}

impl Clone for FieldFill {
    fn clone(&self) -> Self {
        copy_field_fill(self)
    }
}

fn copy_record_expr(x: &RecordExpr) -> RecordExpr
    decreases x,
{
    RecordExpr { fields: copy_field_fill_vec(&x.fields) }
}

impl Clone for RecordExpr {
    fn clone(&self) -> Self {
        copy_record_expr(self)
    }
}

fn copy_apply_expr(x: &ApplyExpr) -> ApplyExpr
    decreases x,
{
    ApplyExpr { func: copy_expr(&x.func), params: copy_record_expr(&x.params) }
}

impl Clone for ApplyExpr {
    fn clone(&self) -> Self {
        copy_apply_expr(self)
    }
}

fn copy_case(x: &Case) -> Case
    decreases x,
{
    Case { pattern: copy_expr(&x.pattern), expr: copy_expr(&x.expr) }
}

impl Clone for Case {
    fn clone(&self) -> Self {
        copy_case(self)
    }
}

fn copy_match(x: &Match) -> Match
    decreases x,
{
    Match { expr: copy_expr(&x.expr), cases: copy_case_vec(&x.cases) }
}

impl Clone for Match {
    fn clone(&self) -> Self {
        copy_match(self)
    }
}

fn copy_expr(x: &Expr) -> Expr
    decreases x,
{
    match x {
        Expr::Nat(p) => Expr::Nat(*p),
        Expr::Ident(p) => Expr::Ident(p.clone()),
        Expr::Block(p) => Expr::Block(Box::new(copy_block(p))),
        Expr::Func(p) => Expr::Func(Box::new(copy_func(p))),
        Expr::Record(p) => Expr::Record(Box::new(copy_record_expr(p))),
        Expr::Apply(p) => Expr::Apply(Box::new(copy_apply_expr(p))),
        Expr::Match(p) => Expr::Match(Box::new(copy_match(p))),
        Expr::Select(p) => Expr::Select(Box::new(copy_select(p))),
        Expr::Pipe(p) => Expr::Pipe(Box::new(copy_pipe(p))),
    }
}

impl Clone for Expr {
    fn clone(&self) -> Self {
        copy_expr(self)
    }
}

fn copy_let_decl(x: &LetDecl) -> LetDecl
    decreases x,
{
    LetDecl { ident: x.ident.clone(), expr: copy_expr(&x.expr) }
}

impl Clone for LetDecl {
    fn clone(&self) -> Self {
        copy_let_decl(self)
    }
}

fn copy_var_decl(x: &VarDecl) -> VarDecl
    decreases x,
{
    VarDecl { ident: x.ident.clone(), expr: copy_expr(&x.expr) }
}

impl Clone for VarDecl {
    fn clone(&self) -> Self {
        copy_var_decl(self)
    }
}

fn copy_type_alias_decl(x: &TypeAliasDecl) -> TypeAliasDecl
    decreases x,
{
    TypeAliasDecl { ident: x.ident.clone(), ty: copy_type(&x.ty) }
}

impl Clone for TypeAliasDecl {
    fn clone(&self) -> Self {
        copy_type_alias_decl(self)
    }
}

fn copy_decl(x: &Decl) -> Decl
    decreases x,
{
    match x {
        Decl::Let(p) => Decl::Let(copy_let_decl(p)),
        Decl::Var(p) => Decl::Var(copy_var_decl(p)),
        Decl::TypeAlias(p) => Decl::TypeAlias(copy_type_alias_decl(p)),
    }
}

impl Clone for Decl {
    fn clone(&self) -> Self {
        copy_decl(self)
    }
}

fn copy_stmt(x: &Stmt) -> Stmt
    decreases x,
{
    match x {
        Stmt::Decl(p) => Stmt::Decl(copy_decl(p)),
        Stmt::Expr(p) => Stmt::Expr(copy_expr(p)),
    }
}

impl Clone for Stmt {
    fn clone(&self) -> Self {
        copy_stmt(self)
    }
}

fn copy_source_file(x: &SourceFile) -> SourceFile
    decreases x,
{
    SourceFile { decls: copy_decl_vec(&x.decls) }
}

impl Clone for SourceFile {
    fn clone(&self) -> Self {
        copy_source_file(self)
    }
}

fn copy_field_vec(v: &Vec<Field>) -> Vec<Field>
    decreases v,
{
    let mut r: Vec<Field> = Vec::new();
    let mut i: usize = 0;
    while i < v.len()
        decreases v.len() - i,
    {
        r.push(copy_field(&v[i]));
        i = i + 1;
    }
    r
}

fn copy_variant_vec(v: &Vec<Variant>) -> Vec<Variant>
    decreases v,
{
    let mut r: Vec<Variant> = Vec::new();
    let mut i: usize = 0;
    while i < v.len()
        decreases v.len() - i,
    {
        r.push(copy_variant(&v[i]));
        i = i + 1;
    }
    r
}

fn copy_stmt_vec(v: &Vec<Stmt>) -> Vec<Stmt>
    decreases v,
{
    let mut r: Vec<Stmt> = Vec::new();
    let mut i: usize = 0;
    while i < v.len()
        decreases v.len() - i,
    {
        r.push(copy_stmt(&v[i]));
        i = i + 1;
    }
    r
}

fn copy_field_fill_vec(v: &Vec<FieldFill>) -> Vec<FieldFill>
    decreases v,
{
    let mut r: Vec<FieldFill> = Vec::new();
    let mut i: usize = 0;
    while i < v.len()
        decreases v.len() - i,
    {
        r.push(copy_field_fill(&v[i]));
        i = i + 1;
    }
    r
}

fn copy_case_vec(v: &Vec<Case>) -> Vec<Case>
    decreases v,
{
    let mut r: Vec<Case> = Vec::new();
    let mut i: usize = 0;
    while i < v.len()
        decreases v.len() - i,
    {
        r.push(copy_case(&v[i]));
        i = i + 1;
    }
    r
}

fn copy_decl_vec(v: &Vec<Decl>) -> Vec<Decl>
    decreases v,
{
    let mut r: Vec<Decl> = Vec::new();
    let mut i: usize = 0;
    while i < v.len()
        decreases v.len() - i,
    {
        r.push(copy_decl(&v[i]));
        i = i + 1;
    }
    r
}


} // verus!
