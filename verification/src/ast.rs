//! The surface program tree handed to the pipeline by the parser.
//!
//! Every type here is a closed variant set. Each has a spec-level mirror
//! (`TypeV`, `ExprV`, ...) that carries the same shape over mathematical
//! values: `Seq<char>` for names, `Seq` for child lists. The `*_view`
//! functions map the executable tree to its mirror; contracts throughout
//! the crate are stated over the mirrors.

use vstd::prelude::*;

verus! {

/// A binary operator of the surface language.
#[derive(Clone, Copy, PartialEq, Eq, Structural, Debug)]
pub enum BinaryOp {
    Add,
    Sub,
    Mul,
    Div,
    Mod,
    Eq,
    Neq,
    Lt,
    Gt,
    Lte,
    Gte,
    And,
    Or,
    BitAnd,
    BitOr,
    BitXor,
    Shl,
    Shr,
}

/// A unary operator of the surface language.
#[derive(Clone, Copy, PartialEq, Eq, Structural, Debug)]
pub enum UnaryOp {
    Neg,
    Not,
    BitNot,
}

impl DeepView for BinaryOp {
    type V = BinaryOp;

    open spec fn deep_view(&self) -> BinaryOp {
        *self
    }
}

impl DeepView for UnaryOp {
    type V = UnaryOp;

    open spec fn deep_view(&self) -> UnaryOp {
        *self
    }
}

/// A surface type annotation.
#[derive(Debug)]
pub enum Type {
    U8,
    I64,
    F64,
    Bool,
    Void,
    Pointer(Box<Type>),
    Array(Box<Type>, usize),
    /// A struct type referenced by path, with generic arguments.
    Struct(Vec<String>, Vec<Type>),
    /// An enum type referenced by path, with generic arguments.
    Enum(Vec<String>, Vec<Type>),
    /// A function type: argument types, return type, generic parameter names.
    Function(Vec<Type>, Box<Type>, Vec<String>),
    /// An unresolved type parameter; legal only before monomorphization.
    Generic(String),
}

/// Spec-level mirror of `Type`.
#[verifier::ext_equal]
pub enum TypeV {
    U8,
    I64,
    F64,
    Bool,
    Void,
    Pointer(Box<TypeV>),
    Array(Box<TypeV>, usize),
    Struct(Seq<Seq<char>>, Seq<TypeV>),
    Enum(Seq<Seq<char>>, Seq<TypeV>),
    Function(Seq<TypeV>, Box<TypeV>, Seq<Seq<char>>),
    Generic(Seq<char>),
}

pub open spec fn type_view(t: Type) -> TypeV
    decreases t,
{
    match t {
        Type::U8 => TypeV::U8,
        Type::I64 => TypeV::I64,
        Type::F64 => TypeV::F64,
        Type::Bool => TypeV::Bool,
        Type::Void => TypeV::Void,
        Type::Pointer(inner) => TypeV::Pointer(Box::new(type_view(*inner))),
        Type::Array(inner, n) => TypeV::Array(Box::new(type_view(*inner)), n),
        Type::Struct(path, generics) => TypeV::Struct(path.deep_view(), type_seq_view(generics)),
        Type::Enum(path, generics) => TypeV::Enum(path.deep_view(), type_seq_view(generics)),
        Type::Function(args, ret, generics) => TypeV::Function(
            type_seq_view(args),
            Box::new(type_view(*ret)),
            generics.deep_view(),
        ),
        Type::Generic(name) => TypeV::Generic(name.deep_view()),
    }
}

pub open spec fn type_seq_view(ts: Vec<Type>) -> Seq<TypeV>
    decreases ts,
{
    Seq::new(
        ts.len() as nat,
        |i: int|
            if 0 <= i < ts.len() {
                type_view(ts[i])
            } else {
                TypeV::Void
            },
    )
}

impl DeepView for Type {
    type V = TypeV;

    open spec fn deep_view(&self) -> TypeV {
        type_view(*self)
    }
}

/// A literal of the surface language.
///
/// A float literal carries the IEEE-754 bit pattern of its value: the
/// pipeline never computes with it, it only passes it through to a backend.
#[derive(Debug)]
pub enum Lit {
    Int(i64),
    Float(u64),
    Bool(bool),
    Str(String),
    Null,
    Array(Vec<Expr>),
}

/// An expression of the surface language. Identifiers and construction
/// heads are multi-segment paths until the flattener joins them.
#[derive(Debug)]
pub enum Expr {
    Lit(Lit),
    Ident(Vec<String>),
    Binary(Box<Expr>, BinaryOp, Box<Expr>),
    Unary(UnaryOp, Box<Expr>),
    /// A call: callee expression, arguments, generic arguments.
    Call(Box<Expr>, Vec<Expr>, Vec<Type>),
    Index(Box<Expr>, Box<Expr>),
    Deref(Box<Expr>),
    AddrOf(Box<Expr>),
    Cast(Box<Expr>, Type),
    Member(Box<Expr>, String),
    /// A method call: receiver, method name, arguments, generic arguments.
    MethodCall(Box<Expr>, String, Vec<Expr>, Vec<Type>),
    /// Struct construction: path, field initializers, generic arguments.
    StructInit(Vec<String>, Vec<(String, Expr)>, Vec<Type>),
    /// Enum construction: path, payload expressions, generic arguments.
    EnumInit(Vec<String>, Vec<Expr>, Vec<Type>),
    Ternary(Box<Expr>, Box<Expr>, Box<Expr>),
    SizeOf(Type),
    Match(Box<Expr>, Vec<MatchArm>),
}

/// One arm of a surface `match` expression.
#[derive(Debug)]
pub struct MatchArm {
    pub pattern: Vec<String>,
    pub bindings: Vec<String>,
    pub body: Vec<Stmt>,
}

/// A statement of the surface language.
#[derive(Debug)]
pub enum Stmt {
    Let(String, Option<Type>, Option<Expr>),
    Const(String, Option<Type>, Option<Expr>),
    Assign(Expr, Expr),
    Ret(Expr),
    Expr(Expr),
    Break,
    Continue,
    If(Expr, Box<Stmt>, Option<Box<Stmt>>),
    While(Expr, Box<Stmt>),
    Block(Vec<Stmt>),
    Import(Vec<String>),
    FromImport(Vec<String>, Vec<String>),
    StructDef(Box<StructDef>),
    EnumDef(Box<EnumDef>),
    FunctionDef(Box<FunctionDef>),
}

/// A function body: user statements, or a bodiless extern declaration.
#[derive(Debug)]
pub enum FunctionBody {
    UserDefined(Vec<Stmt>),
    Extern,
}

/// A function definition.
#[derive(Debug)]
pub struct FunctionDef {
    pub is_pub: bool,
    pub name: String,
    pub generics: Vec<String>,
    pub params: Vec<(String, Type)>,
    pub return_type: Type,
    pub body: FunctionBody,
}

/// A struct definition: ordered fields.
#[derive(Debug)]
pub struct StructDef {
    pub is_pub: bool,
    pub name: String,
    pub generics: Vec<String>,
    pub fields: Vec<(String, Type)>,
}

/// An enum definition: ordered variants, each with payload types.
#[derive(Debug)]
pub struct EnumDef {
    pub is_pub: bool,
    pub name: String,
    pub generics: Vec<String>,
    pub variants: Vec<(String, Vec<Type>)>,
}

/// A static (global) definition with its initializer.
#[derive(Debug)]
pub struct StaticDef {
    pub is_pub: bool,
    pub name: String,
    pub generics: Vec<String>,
    pub ty: Type,
    pub value: Expr,
}

/// A tagged-union definition.
#[derive(Debug)]
pub struct UnionDef {
    pub name: String,
    pub generics: Vec<String>,
    pub variants: Vec<(String, Type)>,
}

/// A program or module scope: nested modules (name, contents, exported),
/// then the declarations made directly in this scope.
#[derive(Debug)]
pub struct Program {
    pub modules: Vec<(String, Program, bool)>,
    pub structs: Vec<StructDef>,
    pub functions: Vec<FunctionDef>,
    pub statics: Vec<StaticDef>,
}

// ---------------------------------------------------------------------
// Spec-level mirrors.
// ---------------------------------------------------------------------

/// Spec-level mirror of `Lit`.
#[verifier::ext_equal]
pub enum LitV {
    Int(i64),
    Float(u64),
    Bool(bool),
    Str(Seq<char>),
    Null,
    Array(Seq<ExprV>),
}

/// Spec-level mirror of `Expr`.
#[verifier::ext_equal]
pub enum ExprV {
    Lit(LitV),
    Ident(Seq<Seq<char>>),
    Binary(Box<ExprV>, BinaryOp, Box<ExprV>),
    Unary(UnaryOp, Box<ExprV>),
    Call(Box<ExprV>, Seq<ExprV>, Seq<TypeV>),
    Index(Box<ExprV>, Box<ExprV>),
    Deref(Box<ExprV>),
    AddrOf(Box<ExprV>),
    Cast(Box<ExprV>, TypeV),
    Member(Box<ExprV>, Seq<char>),
    MethodCall(Box<ExprV>, Seq<char>, Seq<ExprV>, Seq<TypeV>),
    StructInit(Seq<Seq<char>>, Seq<(Seq<char>, ExprV)>, Seq<TypeV>),
    EnumInit(Seq<Seq<char>>, Seq<ExprV>, Seq<TypeV>),
    Ternary(Box<ExprV>, Box<ExprV>, Box<ExprV>),
    SizeOf(TypeV),
    Match(Box<ExprV>, Seq<MatchArmV>),
}

/// Spec-level mirror of `MatchArm`.
#[verifier::ext_equal]
pub struct MatchArmV {
    pub pattern: Seq<Seq<char>>,
    pub bindings: Seq<Seq<char>>,
    pub body: Seq<StmtV>,
}

/// Spec-level mirror of `Stmt`.
#[verifier::ext_equal]
pub enum StmtV {
    Let(Seq<char>, Option<TypeV>, Option<ExprV>),
    Const(Seq<char>, Option<TypeV>, Option<ExprV>),
    Assign(ExprV, ExprV),
    Ret(ExprV),
    Expr(ExprV),
    Break,
    Continue,
    If(ExprV, Box<StmtV>, Option<Box<StmtV>>),
    While(ExprV, Box<StmtV>),
    Block(Seq<StmtV>),
    Import(Seq<Seq<char>>),
    FromImport(Seq<Seq<char>>, Seq<Seq<char>>),
    StructDef(StructDefV),
    EnumDef(EnumDefV),
    FunctionDef(Box<FunctionDefV>),
}

/// Spec-level mirror of `FunctionBody`.
#[verifier::ext_equal]
pub enum FunctionBodyV {
    UserDefined(Seq<StmtV>),
    Extern,
}

/// Spec-level mirror of `FunctionDef`.
#[verifier::ext_equal]
pub struct FunctionDefV {
    pub is_pub: bool,
    pub name: Seq<char>,
    pub generics: Seq<Seq<char>>,
    pub params: Seq<(Seq<char>, TypeV)>,
    pub return_type: TypeV,
    pub body: FunctionBodyV,
}

/// Spec-level mirror of `StructDef`.
#[verifier::ext_equal]
pub struct StructDefV {
    pub is_pub: bool,
    pub name: Seq<char>,
    pub generics: Seq<Seq<char>>,
    pub fields: Seq<(Seq<char>, TypeV)>,
}

/// Spec-level mirror of `EnumDef`.
#[verifier::ext_equal]
pub struct EnumDefV {
    pub is_pub: bool,
    pub name: Seq<char>,
    pub generics: Seq<Seq<char>>,
    pub variants: Seq<(Seq<char>, Seq<TypeV>)>,
}

/// Spec-level mirror of `StaticDef`.
#[verifier::ext_equal]
pub struct StaticDefV {
    pub is_pub: bool,
    pub name: Seq<char>,
    pub generics: Seq<Seq<char>>,
    pub ty: TypeV,
    pub value: ExprV,
}

/// Spec-level mirror of `UnionDef`.
#[verifier::ext_equal]
pub struct UnionDefV {
    pub name: Seq<char>,
    pub generics: Seq<Seq<char>>,
    pub variants: Seq<(Seq<char>, TypeV)>,
}

/// Spec-level mirror of `Program`.
#[verifier::ext_equal]
pub struct ProgramV {
    pub modules: Seq<(Seq<char>, ProgramV, bool)>,
    pub structs: Seq<StructDefV>,
    pub functions: Seq<FunctionDefV>,
    pub statics: Seq<StaticDefV>,
}

// ---------------------------------------------------------------------
// View functions: executable tree -> mirror.
// ---------------------------------------------------------------------

pub open spec fn params_view(ps: Vec<(String, Type)>) -> Seq<(Seq<char>, TypeV)>
    decreases ps,
{
    Seq::new(
        ps.len() as nat,
        |i: int|
            if 0 <= i < ps.len() {
                (ps[i].0.deep_view(), type_view(ps[i].1))
            } else {
                (Seq::<char>::empty(), TypeV::Void)
            },
    )
}

pub open spec fn lit_view(l: Lit) -> LitV
    decreases l,
{
    match l {
        Lit::Int(v) => LitV::Int(v),
        Lit::Float(bits) => LitV::Float(bits),
        Lit::Bool(b) => LitV::Bool(b),
        Lit::Str(s) => LitV::Str(s.deep_view()),
        Lit::Null => LitV::Null,
        Lit::Array(items) => LitV::Array(expr_seq_view(items)),
    }
}

pub open spec fn expr_view(e: Expr) -> ExprV
    decreases e,
{
    match e {
        Expr::Lit(l) => ExprV::Lit(lit_view(l)),
        Expr::Ident(path) => ExprV::Ident(path.deep_view()),
        Expr::Binary(lhs, op, rhs) => ExprV::Binary(
            Box::new(expr_view(*lhs)),
            op,
            Box::new(expr_view(*rhs)),
        ),
        Expr::Unary(op, operand) => ExprV::Unary(op, Box::new(expr_view(*operand))),
        Expr::Call(callee, args, generics) => ExprV::Call(
            Box::new(expr_view(*callee)),
            expr_seq_view(args),
            type_seq_view(generics),
        ),
        Expr::Index(base, idx) => ExprV::Index(Box::new(expr_view(*base)), Box::new(expr_view(*idx))),
        Expr::Deref(inner) => ExprV::Deref(Box::new(expr_view(*inner))),
        Expr::AddrOf(inner) => ExprV::AddrOf(Box::new(expr_view(*inner))),
        Expr::Cast(inner, ty) => ExprV::Cast(Box::new(expr_view(*inner)), type_view(ty)),
        Expr::Member(obj, field) => ExprV::Member(Box::new(expr_view(*obj)), field.deep_view()),
        Expr::MethodCall(obj, name, args, generics) => ExprV::MethodCall(
            Box::new(expr_view(*obj)),
            name.deep_view(),
            expr_seq_view(args),
            type_seq_view(generics),
        ),
        Expr::StructInit(path, fields, generics) => ExprV::StructInit(
            path.deep_view(),
            field_init_seq_view(fields),
            type_seq_view(generics),
        ),
        Expr::EnumInit(path, payload, generics) => ExprV::EnumInit(
            path.deep_view(),
            expr_seq_view(payload),
            type_seq_view(generics),
        ),
        Expr::Ternary(cond, t, f) => ExprV::Ternary(
            Box::new(expr_view(*cond)),
            Box::new(expr_view(*t)),
            Box::new(expr_view(*f)),
        ),
        Expr::SizeOf(ty) => ExprV::SizeOf(type_view(ty)),
        Expr::Match(scrutinee, arms) => ExprV::Match(
            Box::new(expr_view(*scrutinee)),
            match_arm_seq_view(arms),
        ),
    }
}

pub open spec fn expr_seq_view(es: Vec<Expr>) -> Seq<ExprV>
    decreases es,
{
    Seq::new(
        es.len() as nat,
        |i: int|
            if 0 <= i < es.len() {
                expr_view(es[i])
            } else {
                ExprV::Lit(LitV::Null)
            },
    )
}

pub open spec fn field_init_seq_view(fs: Vec<(String, Expr)>) -> Seq<(Seq<char>, ExprV)>
    decreases fs,
{
    Seq::new(
        fs.len() as nat,
        |i: int|
            if 0 <= i < fs.len() {
                (fs[i].0.deep_view(), expr_view(fs[i].1))
            } else {
                (Seq::<char>::empty(), ExprV::Lit(LitV::Null))
            },
    )
}

pub open spec fn match_arm_seq_view(arms: Vec<MatchArm>) -> Seq<MatchArmV>
    decreases arms,
{
    Seq::new(
        arms.len() as nat,
        |i: int|
            if 0 <= i < arms.len() {
                match_arm_view(arms[i])
            } else {
                MatchArmV { pattern: Seq::empty(), bindings: Seq::empty(), body: Seq::empty() }
            },
    )
}

pub open spec fn match_arm_view(arm: MatchArm) -> MatchArmV
    decreases arm,
{
    MatchArmV {
        pattern: arm.pattern.deep_view(),
        bindings: arm.bindings.deep_view(),
        body: stmt_seq_view(arm.body),
    }
}

pub open spec fn stmt_view(s: Stmt) -> StmtV
    decreases s,
{
    match s {
        Stmt::Let(name, ty, init) => StmtV::Let(name.deep_view(), opt_type_view(ty), opt_expr_view(init)),
        Stmt::Const(name, ty, init) => StmtV::Const(
            name.deep_view(),
            opt_type_view(ty),
            opt_expr_view(init),
        ),
        Stmt::Assign(lhs, rhs) => StmtV::Assign(expr_view(lhs), expr_view(rhs)),
        Stmt::Ret(e) => StmtV::Ret(expr_view(e)),
        Stmt::Expr(e) => StmtV::Expr(expr_view(e)),
        Stmt::Break => StmtV::Break,
        Stmt::Continue => StmtV::Continue,
        Stmt::If(cond, then_stmt, else_stmt) => StmtV::If(
            expr_view(cond),
            Box::new(stmt_view(*then_stmt)),
            match else_stmt {
                Some(e) => Some(Box::new(stmt_view(*e))),
                None => None,
            },
        ),
        Stmt::While(cond, body) => StmtV::While(expr_view(cond), Box::new(stmt_view(*body))),
        Stmt::Block(stmts) => StmtV::Block(stmt_seq_view(stmts)),
        Stmt::Import(path) => StmtV::Import(path.deep_view()),
        Stmt::FromImport(path, names) => StmtV::FromImport(path.deep_view(), names.deep_view()),
        Stmt::StructDef(d) => StmtV::StructDef(struct_def_view(*d)),
        Stmt::EnumDef(d) => StmtV::EnumDef(enum_def_view(*d)),
        Stmt::FunctionDef(d) => StmtV::FunctionDef(Box::new(function_def_view(*d))),
    }
}

pub open spec fn opt_type_view(t: Option<Type>) -> Option<TypeV>
    decreases t,
{
    match t {
        Some(ty) => Some(type_view(ty)),
        None => None,
    }
}

pub open spec fn opt_expr_view(e: Option<Expr>) -> Option<ExprV>
    decreases e,
{
    match e {
        Some(ex) => Some(expr_view(ex)),
        None => None,
    }
}

pub open spec fn stmt_seq_view(ss: Vec<Stmt>) -> Seq<StmtV>
    decreases ss,
{
    Seq::new(
        ss.len() as nat,
        |i: int|
            if 0 <= i < ss.len() {
                stmt_view(ss[i])
            } else {
                StmtV::Break
            },
    )
}

pub open spec fn function_body_view(b: FunctionBody) -> FunctionBodyV
    decreases b,
{
    match b {
        FunctionBody::UserDefined(stmts) => FunctionBodyV::UserDefined(stmt_seq_view(stmts)),
        FunctionBody::Extern => FunctionBodyV::Extern,
    }
}

pub open spec fn function_def_view(f: FunctionDef) -> FunctionDefV
    decreases f,
{
    FunctionDefV {
        is_pub: f.is_pub,
        name: f.name.deep_view(),
        generics: f.generics.deep_view(),
        params: params_view(f.params),
        return_type: type_view(f.return_type),
        body: function_body_view(f.body),
    }
}

pub open spec fn struct_def_view(d: StructDef) -> StructDefV
    decreases d,
{
    StructDefV {
        is_pub: d.is_pub,
        name: d.name.deep_view(),
        generics: d.generics.deep_view(),
        fields: params_view(d.fields),
    }
}

pub open spec fn enum_def_view(d: EnumDef) -> EnumDefV
    decreases d,
{
    EnumDefV {
        is_pub: d.is_pub,
        name: d.name.deep_view(),
        generics: d.generics.deep_view(),
        variants: Seq::new(
            d.variants.len() as nat,
            |i: int|
                if 0 <= i < d.variants.len() {
                    (d.variants[i].0.deep_view(), type_seq_view(d.variants[i].1))
                } else {
                    (Seq::<char>::empty(), Seq::<TypeV>::empty())
                },
        ),
    }
}

pub open spec fn static_def_view(d: StaticDef) -> StaticDefV
    decreases d,
{
    StaticDefV {
        is_pub: d.is_pub,
        name: d.name.deep_view(),
        generics: d.generics.deep_view(),
        ty: type_view(d.ty),
        value: expr_view(d.value),
    }
}

pub open spec fn union_def_view(d: UnionDef) -> UnionDefV
    decreases d,
{
    UnionDefV {
        name: d.name.deep_view(),
        generics: d.generics.deep_view(),
        variants: params_view(d.variants),
    }
}

pub open spec fn struct_def_seq_view(ds: Vec<StructDef>) -> Seq<StructDefV>
    decreases ds,
{
    Seq::new(
        ds.len() as nat,
        |i: int|
            if 0 <= i < ds.len() {
                struct_def_view(ds[i])
            } else {
                arbitrary()
            },
    )
}

pub open spec fn function_def_seq_view(fs: Vec<FunctionDef>) -> Seq<FunctionDefV>
    decreases fs,
{
    Seq::new(
        fs.len() as nat,
        |i: int|
            if 0 <= i < fs.len() {
                function_def_view(fs[i])
            } else {
                arbitrary()
            },
    )
}

pub open spec fn static_def_seq_view(ds: Vec<StaticDef>) -> Seq<StaticDefV>
    decreases ds,
{
    Seq::new(
        ds.len() as nat,
        |i: int|
            if 0 <= i < ds.len() {
                static_def_view(ds[i])
            } else {
                arbitrary()
            },
    )
}

pub open spec fn union_def_seq_view(ds: Vec<UnionDef>) -> Seq<UnionDefV>
    decreases ds,
{
    Seq::new(
        ds.len() as nat,
        |i: int|
            if 0 <= i < ds.len() {
                union_def_view(ds[i])
            } else {
                arbitrary()
            },
    )
}

pub open spec fn program_view(p: Program) -> ProgramV
    decreases p,
{
    ProgramV {
        modules: Seq::new(
            p.modules.len() as nat,
            |i: int|
                if 0 <= i < p.modules.len() {
                    (p.modules[i].0.deep_view(), program_view(p.modules[i].1), p.modules[i].2)
                } else {
                    arbitrary()
                },
        ),
        structs: struct_def_seq_view(p.structs),
        functions: function_def_seq_view(p.functions),
        statics: static_def_seq_view(p.statics),
    }
}

impl DeepView for Lit {
    type V = LitV;

    open spec fn deep_view(&self) -> LitV {
        lit_view(*self)
    }
}

impl DeepView for Expr {
    type V = ExprV;

    open spec fn deep_view(&self) -> ExprV {
        expr_view(*self)
    }
}

impl DeepView for Stmt {
    type V = StmtV;

    open spec fn deep_view(&self) -> StmtV {
        stmt_view(*self)
    }
}

impl DeepView for FunctionDef {
    type V = FunctionDefV;

    open spec fn deep_view(&self) -> FunctionDefV {
        function_def_view(*self)
    }
}

impl DeepView for StructDef {
    type V = StructDefV;

    open spec fn deep_view(&self) -> StructDefV {
        struct_def_view(*self)
    }
}

impl DeepView for StaticDef {
    type V = StaticDefV;

    open spec fn deep_view(&self) -> StaticDefV {
        static_def_view(*self)
    }
}

impl DeepView for Program {
    type V = ProgramV;

    open spec fn deep_view(&self) -> ProgramV {
        program_view(*self)
    }
}

/// An independent copy of a surface type.
#[verifier::loop_isolation(false)]
pub fn duplicate_type(t: &Type) -> (r: Type)
    ensures
        r.deep_view() == t.deep_view(),
    decreases t,
{
    match t {
        Type::U8 => Type::U8,
        Type::I64 => Type::I64,
        Type::F64 => Type::F64,
        Type::Bool => Type::Bool,
        Type::Void => Type::Void,
        Type::Pointer(inner) => Type::Pointer(Box::new(duplicate_type(inner))),
        Type::Array(inner, n) => Type::Array(Box::new(duplicate_type(inner)), *n),
        Type::Struct(path, generics) => Type::Struct(crate::mangle::copy_path(path), duplicate_types(generics)),
        Type::Enum(path, generics) => Type::Enum(crate::mangle::copy_path(path), duplicate_types(generics)),
        Type::Function(args, ret, generics) => Type::Function(
            duplicate_types(args),
            Box::new(duplicate_type(ret)),
            crate::mangle::copy_path(generics),
        ),
        Type::Generic(name) => Type::Generic(name.clone()),
    }
}

/// Independent copies of a list of surface types.
#[verifier::loop_isolation(false)]
pub fn duplicate_types(ts: &Vec<Type>) -> (r: Vec<Type>)
    ensures
        type_seq_view(r) == type_seq_view(*ts),
    decreases ts,
{
    let mut out: Vec<Type> = Vec::new();
    let mut i: usize = 0;
    while i < ts.len()
        invariant
            i <= ts.len(),
            out.len() == i,
            forall|j: int|
                0 <= j < i ==> type_view(#[trigger] out@[j]) == type_view(
                    ts@[j],
                ),
        decreases ts.len() - i,
    {
        let copy = duplicate_type(&ts[i]);
        out.push(copy);
        i = i + 1;
    }
    proof {
        assert(type_seq_view(out) =~= type_seq_view(*ts));
    }
    out
}


} // verus!
