//! The surface tree: one source file as the parser hands it over, before any
//! position (type, expression, declaration, statement) has been decided.
use vstd::prelude::*;

verus! {

#[derive(Clone, Copy, Debug)]
pub struct Nat {
    pub val: u128,
}

#[derive(Clone, Debug)]
pub struct Ident {
    pub lit: String,
}

#[derive(Debug)]
pub struct IdentItem {
    pub ident: Ident,
    pub item: Item,
}

#[derive(Debug)]
pub struct RecordType {
    pub fields: Vec<IdentItem>,
}

#[derive(Debug)]
pub struct UnionType {
    pub variants: Vec<IdentItem>,
}

#[derive(Debug)]
pub struct FuncType {
    pub param_tuple: Tuple,
    pub result_ty: Item,
}

#[derive(Debug)]
pub struct Block {
    pub elems: Vec<Item>,
}

#[derive(Debug)]
pub struct Func {
    pub ty: FuncType,
    pub block: Block,
}

#[derive(Debug)]
pub struct RecordExpr {
    pub fields: Vec<IdentItem>,
}

#[derive(Debug)]
pub struct ApplyExpr {
    pub func: Item,
    pub params: Tuple,
}

#[derive(Debug)]
pub struct Case {
    pub pattern: Item,
    pub expr: Item,
}

#[derive(Debug)]
pub struct Match {
    pub expr: Item,
    pub cases: Vec<Case>,
}

#[derive(Debug)]
pub struct LetDecl {
    pub ident: Ident,
    pub expr: Item,
}

#[derive(Debug)]
pub struct VarDecl {
    pub ident: Ident,
    pub expr: Item,
}

#[derive(Debug)]
pub struct TypeAliasDecl {
    pub ident: Ident,
    pub ty: Item,
}

#[derive(Debug)]
pub struct Tuple {
    pub elems: Vec<Item>,
}

#[derive(Debug)]
pub struct TypeTuple {
    pub elems: Vec<Item>,
}

#[derive(Debug)]
pub struct Select {
    pub expr: Item,
    pub ident: Ident,
}

#[derive(Debug)]
pub struct Pipe {
    pub from: Item,
    pub to: Item,
}

#[derive(Clone, Copy, Debug, PartialEq, Eq)]
pub enum UnaryOperator {
    Invert,
    Not,
}

#[derive(Clone, Copy, Debug, PartialEq, Eq)]
pub enum BinaryOperator {
    Add,
    Sub,
    Mul,
    Div,
    Mod,
    And,
    Or,
}

impl UnaryOperator {
    /// The fixed text that names the operator once it is lowered to an application.
    pub open spec fn literal(self) -> Seq<char> {
        match self {
            UnaryOperator::Invert => seq!['~'],
            UnaryOperator::Not => seq!['!'],
        }
    }

    pub fn to_literal(&self) -> (r: &'static str)
        ensures
            r@ == self.literal(),
    {
        match self {
            UnaryOperator::Invert => {
                proof {
                    reveal_strlit("~");
                }
                "~"
            },
            UnaryOperator::Not => {
                proof {
                    reveal_strlit("!");
                }
                "!"
            },
        }
    }
}

impl BinaryOperator {
    /// The fixed text that names the operator once it is lowered to an application.
    pub open spec fn literal(self) -> Seq<char> {
        match self {
            BinaryOperator::Add => seq!['+'],
            BinaryOperator::Sub => seq!['-'],
            BinaryOperator::Mul => seq!['*'],
            BinaryOperator::Div => seq!['/'],
            BinaryOperator::Mod => seq!['%'],
            BinaryOperator::And => seq!['&'],
            BinaryOperator::Or => seq!['|'],
        }
    }

    pub fn to_literal(&self) -> (r: &'static str)
        ensures
            r@ == self.literal(),
    {
        match self {
            BinaryOperator::Add => {
                proof {
                    reveal_strlit("+");
                }
                "+"
            },
            BinaryOperator::Sub => {
                proof {
                    reveal_strlit("-");
                }
                "-"
            },
            BinaryOperator::Mul => {
                proof {
                    reveal_strlit("*");
                }
                "*"
            },
            BinaryOperator::Div => {
                proof {
                    reveal_strlit("/");
                }
                "/"
            },
            BinaryOperator::Mod => {
                proof {
                    reveal_strlit("%");
                }
                "%"
            },
            BinaryOperator::And => {
                proof {
                    reveal_strlit("&");
                }
                "&"
            },
            BinaryOperator::Or => {
                proof {
                    reveal_strlit("|");
                }
                "|"
            },
        }
    }
}

#[derive(Debug)]
pub struct UnaryOpExpr {
    pub op: UnaryOperator,
    pub expr: Item,
}

#[derive(Debug)]
pub struct BinaryOpExpr {
    pub op: BinaryOperator,
    pub left: Item,
    pub right: Item,
}

#[derive(Debug)]
pub enum Item {
    Nat(Nat),
    Ident(Ident),
    Tuple(Tuple),
    Block(Box<Block>),
    Func(Box<Func>),
    Match(Box<Match>),
    TypeTuple(Box<TypeTuple>),
    RecordType(Box<RecordType>),
    UnionType(Box<UnionType>),
    FuncType(Box<FuncType>),
    UnaryOpExpr(Box<UnaryOpExpr>),
    BinaryOpExpr(Box<BinaryOpExpr>),
    ApplyExpr(Box<ApplyExpr>),
    Select(Box<Select>),
    Pipe(Box<Pipe>),
    IdentItem(Box<IdentItem>),
    LetDecl(Box<LetDecl>),
    VarDecl(Box<VarDecl>),
    TypeAliasDecl(Box<TypeAliasDecl>),
}

/// Narrowing: the payload of one variant, or nothing when the tag differs.
impl Item {
    #[allow(non_snake_case)]
    pub fn as_Nat(self) -> (r: Option<Nat>)
        ensures
            r == (if self is Nat {
                Some(self->Nat_0)
            } else {
                None
            }),
    {
        match self {
            Item::Nat(v) => Some(v),
            _ => None,
        }
    }

    #[allow(non_snake_case)]
    pub fn as_Ident(self) -> (r: Option<Ident>)
        ensures
            r == (if self is Ident {
                Some(self->Ident_0)
            } else {
                None
            }),
    {
        match self {
            Item::Ident(v) => Some(v),
            _ => None,
        }
    }

    #[allow(non_snake_case)]
    pub fn as_Tuple(self) -> (r: Option<Tuple>)
        ensures
            r == (if self is Tuple {
                Some(self->Tuple_0)
            } else {
                None
            }),
    {
        match self {
            Item::Tuple(v) => Some(v),
            _ => None,
        }
    }

    #[allow(non_snake_case)]
    pub fn as_Block(self) -> (r: Option<Box<Block>>)
        ensures
            r == (if self is Block {
                Some(self->Block_0)
            } else {
                None
            }),
    {
        match self {
            Item::Block(v) => Some(v),
            _ => None,
        }
    }

    #[allow(non_snake_case)]
    pub fn as_Func(self) -> (r: Option<Box<Func>>)
        ensures
            r == (if self is Func {
                Some(self->Func_0)
            } else {
                None
            }),
    {
        match self {
            Item::Func(v) => Some(v),
            _ => None,
        }
    }

    #[allow(non_snake_case)]
    pub fn as_Match(self) -> (r: Option<Box<Match>>)
        ensures
            r == (if self is Match {
                Some(self->Match_0)
            } else {
                None
            }),
    {
        match self {
            Item::Match(v) => Some(v),
            _ => None,
        }
    }

    #[allow(non_snake_case)]
    pub fn as_TypeTuple(self) -> (r: Option<Box<TypeTuple>>)
        ensures
            r == (if self is TypeTuple {
                Some(self->TypeTuple_0)
            } else {
                None
            }),
    {
        match self {
            Item::TypeTuple(v) => Some(v),
            _ => None,
        }
    }

    #[allow(non_snake_case)]
    pub fn as_RecordType(self) -> (r: Option<Box<RecordType>>)
        ensures
            r == (if self is RecordType {
                Some(self->RecordType_0)
            } else {
                None
            }),
    {
        match self {
            Item::RecordType(v) => Some(v),
            _ => None,
        }
    }

    #[allow(non_snake_case)]
    pub fn as_UnionType(self) -> (r: Option<Box<UnionType>>)
        ensures
            r == (if self is UnionType {
                Some(self->UnionType_0)
            } else {
                None
            }),
    {
        match self {
            Item::UnionType(v) => Some(v),
            _ => None,
        }
    }

    #[allow(non_snake_case)]
    pub fn as_FuncType(self) -> (r: Option<Box<FuncType>>)
        ensures
            r == (if self is FuncType {
                Some(self->FuncType_0)
            } else {
                None
            }),
    {
        match self {
            Item::FuncType(v) => Some(v),
            _ => None,
        }
    }

    #[allow(non_snake_case)]
    pub fn as_UnaryOpExpr(self) -> (r: Option<Box<UnaryOpExpr>>)
        ensures
            r == (if self is UnaryOpExpr {
                Some(self->UnaryOpExpr_0)
            } else {
                None
            }),
    {
        match self {
            Item::UnaryOpExpr(v) => Some(v),
            _ => None,
        }
    }

    #[allow(non_snake_case)]
    pub fn as_BinaryOpExpr(self) -> (r: Option<Box<BinaryOpExpr>>)
        ensures
            r == (if self is BinaryOpExpr {
                Some(self->BinaryOpExpr_0)
            } else {
                None
            }),
    {
        match self {
            Item::BinaryOpExpr(v) => Some(v),
            _ => None,
        }
    }

    #[allow(non_snake_case)]
    pub fn as_ApplyExpr(self) -> (r: Option<Box<ApplyExpr>>)
        ensures
            r == (if self is ApplyExpr {
                Some(self->ApplyExpr_0)
            } else {
                None
            }),
    {
        match self {
            Item::ApplyExpr(v) => Some(v),
            _ => None,
        }
    }

    #[allow(non_snake_case)]
    pub fn as_Select(self) -> (r: Option<Box<Select>>)
        ensures
            r == (if self is Select {
                Some(self->Select_0)
            } else {
                None
            }),
    {
        match self {
            Item::Select(v) => Some(v),
            _ => None,
        }
    }

    #[allow(non_snake_case)]
    pub fn as_Pipe(self) -> (r: Option<Box<Pipe>>)
        ensures
            r == (if self is Pipe {
                Some(self->Pipe_0)
            } else {
                None
            }),
    {
        match self {
            Item::Pipe(v) => Some(v),
            _ => None,
        }
    }

    #[allow(non_snake_case)]
    pub fn as_IdentItem(self) -> (r: Option<Box<IdentItem>>)
        ensures
            r == (if self is IdentItem {
                Some(self->IdentItem_0)
            } else {
                None
            }),
    {
        match self {
            Item::IdentItem(v) => Some(v),
            _ => None,
        }
    }

    #[allow(non_snake_case)]
    pub fn as_LetDecl(self) -> (r: Option<Box<LetDecl>>)
        ensures
            r == (if self is LetDecl {
                Some(self->LetDecl_0)
            } else {
                None
            }),
    {
        match self {
            Item::LetDecl(v) => Some(v),
            _ => None,
        }
    }

    #[allow(non_snake_case)]
    pub fn as_VarDecl(self) -> (r: Option<Box<VarDecl>>)
        ensures
            r == (if self is VarDecl {
                Some(self->VarDecl_0)
            } else {
                None
            }),
    {
        match self {
            Item::VarDecl(v) => Some(v),
            _ => None,
        }
    }

    #[allow(non_snake_case)]
    pub fn as_TypeAliasDecl(self) -> (r: Option<Box<TypeAliasDecl>>)
        ensures
            r == (if self is TypeAliasDecl {
                Some(self->TypeAliasDecl_0)
            } else {
                None
            }),
    {
        match self {
            Item::TypeAliasDecl(v) => Some(v),
            _ => None,
        }
    }
}

#[derive(Debug)]
pub struct SourceFile {
    pub items: Vec<Item>,
}

// Copies: a recursive type's clone copies its children one by one.

fn copy_ident_item(x: &IdentItem) -> IdentItem
    decreases x,
{
    IdentItem { ident: x.ident.clone(), item: copy_item(&x.item) }
}

impl Clone for IdentItem {
    fn clone(&self) -> Self {
        copy_ident_item(self)
    }
}

fn copy_record_type(x: &RecordType) -> RecordType
    decreases x,
{
    RecordType { fields: copy_ident_item_vec(&x.fields) }
}

impl Clone for RecordType {
    fn clone(&self) -> Self {
        copy_record_type(self)
    }
}

fn copy_union_type(x: &UnionType) -> UnionType
    decreases x,
{
    UnionType { variants: copy_ident_item_vec(&x.variants) }
}

impl Clone for UnionType {
    fn clone(&self) -> Self {
        copy_union_type(self)
    }
}

fn copy_func_type(x: &FuncType) -> FuncType
    decreases x,
{
    FuncType { param_tuple: copy_tuple(&x.param_tuple), result_ty: copy_item(&x.result_ty) }
}

impl Clone for FuncType {
    fn clone(&self) -> Self {
        copy_func_type(self)
    }
}

fn copy_block(x: &Block) -> Block
    decreases x,
{
    Block { elems: copy_item_vec(&x.elems) }
}

impl Clone for Block {
    fn clone(&self) -> Self {
        copy_block(self)
    }
}

fn copy_func(x: &Func) -> Func
    decreases x,
{
    Func { ty: copy_func_type(&x.ty), block: copy_block(&x.block) }
}

impl Clone for Func {
    fn clone(&self) -> Self {
        copy_func(self)
    }
}

fn copy_record_expr(x: &RecordExpr) -> RecordExpr
    decreases x,
{
    RecordExpr { fields: copy_ident_item_vec(&x.fields) }
}

impl Clone for RecordExpr {
    fn clone(&self) -> Self {
        copy_record_expr(self)
    }
}

fn copy_apply_expr(x: &ApplyExpr) -> ApplyExpr
    decreases x,
{
    ApplyExpr { func: copy_item(&x.func), params: copy_tuple(&x.params) }
}

impl Clone for ApplyExpr {
    fn clone(&self) -> Self {
        copy_apply_expr(self)
    }
}

fn copy_case(x: &Case) -> Case
    decreases x,
{
    Case { pattern: copy_item(&x.pattern), expr: copy_item(&x.expr) }
}

impl Clone for Case {
    fn clone(&self) -> Self {
        copy_case(self)
    }
}

fn copy_match(x: &Match) -> Match
    decreases x,
{
    Match { expr: copy_item(&x.expr), cases: copy_case_vec(&x.cases) }
}

impl Clone for Match {
    fn clone(&self) -> Self {
        copy_match(self)
    }
}

fn copy_let_decl(x: &LetDecl) -> LetDecl
    decreases x,
{
    LetDecl { ident: x.ident.clone(), expr: copy_item(&x.expr) }
}

impl Clone for LetDecl {
    fn clone(&self) -> Self {
        copy_let_decl(self)
    }
}

fn copy_var_decl(x: &VarDecl) -> VarDecl
    decreases x,
{
    VarDecl { ident: x.ident.clone(), expr: copy_item(&x.expr) }
}

impl Clone for VarDecl {
    fn clone(&self) -> Self {
        copy_var_decl(self)
    }
}

fn copy_type_alias_decl(x: &TypeAliasDecl) -> TypeAliasDecl
    decreases x,
{
    TypeAliasDecl { ident: x.ident.clone(), ty: copy_item(&x.ty) }
}

impl Clone for TypeAliasDecl {
    fn clone(&self) -> Self {
        copy_type_alias_decl(self)
    }
}

fn copy_tuple(x: &Tuple) -> Tuple
    decreases x,
{
    Tuple { elems: copy_item_vec(&x.elems) }
}

impl Clone for Tuple {
    fn clone(&self) -> Self {
        copy_tuple(self)
    }
}

fn copy_type_tuple(x: &TypeTuple) -> TypeTuple
    decreases x,
{
    TypeTuple { elems: copy_item_vec(&x.elems) }
}

impl Clone for TypeTuple {
    fn clone(&self) -> Self {
        copy_type_tuple(self)
    }
}

fn copy_select(x: &Select) -> Select
    decreases x,
{
    Select { expr: copy_item(&x.expr), ident: x.ident.clone() }
}

impl Clone for Select {
    fn clone(&self) -> Self {
        copy_select(self)
    }
}

fn copy_pipe(x: &Pipe) -> Pipe
    decreases x,
{
    Pipe { from: copy_item(&x.from), to: copy_item(&x.to) }
}

impl Clone for Pipe {
    fn clone(&self) -> Self {
        copy_pipe(self)
    }
}

fn copy_unary_op_expr(x: &UnaryOpExpr) -> UnaryOpExpr
    decreases x,
{
    UnaryOpExpr { op: x.op, expr: copy_item(&x.expr) }
}

impl Clone for UnaryOpExpr {
    fn clone(&self) -> Self {
        copy_unary_op_expr(self)
    }
}

fn copy_binary_op_expr(x: &BinaryOpExpr) -> BinaryOpExpr
    decreases x,
{
    BinaryOpExpr { op: x.op, left: copy_item(&x.left), right: copy_item(&x.right) }
}

impl Clone for BinaryOpExpr {
    fn clone(&self) -> Self {
        copy_binary_op_expr(self)
    }
}

fn copy_item(x: &Item) -> Item
    decreases x,
{
    match x {
        Item::Nat(p) => Item::Nat(*p),
        Item::Ident(p) => Item::Ident(p.clone()),
        Item::Tuple(p) => Item::Tuple(copy_tuple(p)),
        Item::Block(p) => Item::Block(Box::new(copy_block(p))),
        Item::Func(p) => Item::Func(Box::new(copy_func(p))),
        Item::Match(p) => Item::Match(Box::new(copy_match(p))),
        Item::TypeTuple(p) => Item::TypeTuple(Box::new(copy_type_tuple(p))),
        Item::RecordType(p) => Item::RecordType(Box::new(copy_record_type(p))),
        Item::UnionType(p) => Item::UnionType(Box::new(copy_union_type(p))),
        Item::FuncType(p) => Item::FuncType(Box::new(copy_func_type(p))),
        Item::UnaryOpExpr(p) => Item::UnaryOpExpr(Box::new(copy_unary_op_expr(p))),
        Item::BinaryOpExpr(p) => Item::BinaryOpExpr(Box::new(copy_binary_op_expr(p))),
        Item::ApplyExpr(p) => Item::ApplyExpr(Box::new(copy_apply_expr(p))),
        Item::Select(p) => Item::Select(Box::new(copy_select(p))),
        Item::Pipe(p) => Item::Pipe(Box::new(copy_pipe(p))),
        Item::IdentItem(p) => Item::IdentItem(Box::new(copy_ident_item(p))),
        Item::LetDecl(p) => Item::LetDecl(Box::new(copy_let_decl(p))),
        Item::VarDecl(p) => Item::VarDecl(Box::new(copy_var_decl(p))),
        Item::TypeAliasDecl(p) => Item::TypeAliasDecl(Box::new(copy_type_alias_decl(p))),
    }
}

impl Clone for Item {
    fn clone(&self) -> Self {
        copy_item(self)
    }
}

fn copy_source_file(x: &SourceFile) -> SourceFile
    decreases x,
{
    SourceFile { items: copy_item_vec(&x.items) }
}

impl Clone for SourceFile {
    fn clone(&self) -> Self {
        copy_source_file(self)
    }
}

fn copy_ident_item_vec(v: &Vec<IdentItem>) -> Vec<IdentItem>
    decreases v,
{
    let mut r: Vec<IdentItem> = Vec::new();
    let mut i: usize = 0;
    while i < v.len()
        decreases v.len() - i,
    {
        r.push(copy_ident_item(&v[i]));
        i = i + 1;
    }
    r
}

fn copy_item_vec(v: &Vec<Item>) -> Vec<Item>
    decreases v,
{
    let mut r: Vec<Item> = Vec::new();
    let mut i: usize = 0;
    while i < v.len()
        decreases v.len() - i,
    {
        r.push(copy_item(&v[i]));
        i = i + 1;
    }
    r
}

fn copy_case_vec(v: &Vec<Case>) -> Vec<Case>
    decreases v,
{
    let mut r: Vec<Case> = Vec::new();
    let mut i: usize = 0;
    while i < v.len()
        decreases v.len() - i,
    {
        r.push(copy_case(&v[i]));
        i = i + 1;
    }
    r
}


} // verus!
