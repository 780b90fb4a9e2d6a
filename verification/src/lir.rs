//! The low-level IR produced by lowering: statements are explicit lists per
//! block, method calls have been rewritten to plain calls, and literals are
//! explicit. Consumed by code generation.

use vstd::prelude::*;

use crate::ast::{BinaryOp, UnaryOp};

verus! {

/// A lowered type. Struct and enum references carry a single mangled name.
#[derive(Debug)]
pub enum LirType {
    U8,
    I64,
    F64,
    Bool,
    Void,
    Pointer(Box<LirType>),
    Array(Box<LirType>, usize),
    Struct(String),
    Enum(String),
    FunctionPtr(Vec<LirType>, Box<LirType>),
}

/// Spec-level mirror of `LirType`.
#[verifier::ext_equal]
pub enum LirTypeV {
    U8,
    I64,
    F64,
    Bool,
    Void,
    Pointer(Box<LirTypeV>),
    Array(Box<LirTypeV>, usize),
    Struct(Seq<char>),
    Enum(Seq<char>),
    FunctionPtr(Seq<LirTypeV>, Box<LirTypeV>),
}

pub open spec fn lir_type_view(t: LirType) -> LirTypeV
    decreases t,
{
    match t {
        LirType::U8 => LirTypeV::U8,
        LirType::I64 => LirTypeV::I64,
        LirType::F64 => LirTypeV::F64,
        LirType::Bool => LirTypeV::Bool,
        LirType::Void => LirTypeV::Void,
        LirType::Pointer(inner) => LirTypeV::Pointer(Box::new(lir_type_view(*inner))),
        LirType::Array(inner, n) => LirTypeV::Array(Box::new(lir_type_view(*inner)), n),
        LirType::Struct(name) => LirTypeV::Struct(name.deep_view()),
        LirType::Enum(name) => LirTypeV::Enum(name.deep_view()),
        LirType::FunctionPtr(args, ret) => LirTypeV::FunctionPtr(
            lir_type_seq_view(args),
            Box::new(lir_type_view(*ret)),
        ),
    }
}

pub open spec fn lir_type_seq_view(ts: Vec<LirType>) -> Seq<LirTypeV>
    decreases ts,
{
    Seq::new(
        ts.len() as nat,
        |i: int|
            if 0 <= i < ts.len() {
                lir_type_view(ts[i])
            } else {
                LirTypeV::Void
            },
    )
}

impl DeepView for LirType {
    type V = LirTypeV;

    open spec fn deep_view(&self) -> LirTypeV {
        lir_type_view(*self)
    }
}

impl LirType {
    /// An independent copy denoting the same lowered type.
    #[verifier::loop_isolation(false)]
    pub fn duplicate(&self) -> (t: LirType)
        ensures
            t.deep_view() == self.deep_view(),
        decreases self,
    {
        match self {
            LirType::U8 => LirType::U8,
            LirType::I64 => LirType::I64,
            LirType::F64 => LirType::F64,
            LirType::Bool => LirType::Bool,
            LirType::Void => LirType::Void,
            LirType::Pointer(inner) => LirType::Pointer(Box::new(inner.duplicate())),
            LirType::Array(inner, n) => LirType::Array(Box::new(inner.duplicate()), *n),
            LirType::Struct(name) => LirType::Struct(name.clone()),
            LirType::Enum(name) => LirType::Enum(name.clone()),
            LirType::FunctionPtr(args, ret) => {
                let mut out: Vec<LirType> = Vec::new();
                let n: usize = args.len();
                let mut i: usize = 0;
                while i < n
                    invariant
                        i <= n,
                        n == args.len(),
                        out.len() == i,
                        forall|j: int|
                            0 <= j < i ==> lir_type_view(#[trigger] out@[j]) == lir_type_view(
                                args@[j],
                            ),
                    decreases n - i,
                {
                    let copy = args[i].duplicate();
                    out.push(copy);
                    i = i + 1;
                }
                proof {
                    assert(lir_type_seq_view(out) =~= lir_type_seq_view(*args));
                }
                LirType::FunctionPtr(out, Box::new(ret.duplicate()))
            },
        }
    }
}

/// A lowered literal. A float carries the bit pattern of its value, as in
/// the surface tree.
#[derive(Debug)]
pub enum LirLiteral {
    Int(i64),
    Float(u64),
    Bool(bool),
    Str(String),
    Null,
}

/// Spec-level mirror of `LirLiteral`.
#[verifier::ext_equal]
pub enum LirLiteralV {
    Int(i64),
    Float(u64),
    Bool(bool),
    Str(Seq<char>),
    Null,
}

pub open spec fn lir_literal_view(l: LirLiteral) -> LirLiteralV {
    match l {
        LirLiteral::Int(v) => LirLiteralV::Int(v),
        LirLiteral::Float(bits) => LirLiteralV::Float(bits),
        LirLiteral::Bool(b) => LirLiteralV::Bool(b),
        LirLiteral::Str(s) => LirLiteralV::Str(s.deep_view()),
        LirLiteral::Null => LirLiteralV::Null,
    }
}

impl DeepView for LirLiteral {
    type V = LirLiteralV;

    open spec fn deep_view(&self) -> LirLiteralV {
        lir_literal_view(*self)
    }
}

/// A lowered expression.
#[derive(Debug)]
pub enum LirExpr {
    Lit(LirLiteral),
    Ident(String),
    Binary(Box<LirExpr>, BinaryOp, Box<LirExpr>),
    Unary(UnaryOp, Box<LirExpr>),
    /// A direct call by name.
    Call { func_name: String, args: Vec<LirExpr> },
    /// A call through a function-pointer value.
    CallPtr(Box<LirExpr>, Vec<LirExpr>),
    Index(Box<LirExpr>, Box<LirExpr>),
    Deref(Box<LirExpr>),
    AddrOf(Box<LirExpr>),
    Cast(Box<LirExpr>, LirType),
    MemberAccess(Box<LirExpr>, String),
    StructInit { struct_name: String, fields: Vec<(String, LirExpr)> },
    /// Enum construction. The tag is a placeholder: no discriminant
    /// assignment pass exists in this pipeline.
    EnumInit { enum_name: String, variant_tag: usize, payload: Option<Box<LirExpr>> },
    Ternary(Box<LirExpr>, Box<LirExpr>, Box<LirExpr>),
    SizeOf(LirType),
    ArrayInit(Vec<LirExpr>),
}

/// Spec-level mirror of `LirExpr`.
#[verifier::ext_equal]
pub enum LirExprV {
    Lit(LirLiteralV),
    Ident(Seq<char>),
    Binary(Box<LirExprV>, BinaryOp, Box<LirExprV>),
    Unary(UnaryOp, Box<LirExprV>),
    Call { func_name: Seq<char>, args: Seq<LirExprV> },
    CallPtr(Box<LirExprV>, Seq<LirExprV>),
    Index(Box<LirExprV>, Box<LirExprV>),
    Deref(Box<LirExprV>),
    AddrOf(Box<LirExprV>),
    Cast(Box<LirExprV>, LirTypeV),
    MemberAccess(Box<LirExprV>, Seq<char>),
    StructInit { struct_name: Seq<char>, fields: Seq<(Seq<char>, LirExprV)> },
    EnumInit { enum_name: Seq<char>, variant_tag: usize, payload: Option<Box<LirExprV>> },
    Ternary(Box<LirExprV>, Box<LirExprV>, Box<LirExprV>),
    SizeOf(LirTypeV),
    ArrayInit(Seq<LirExprV>),
}

pub open spec fn lir_expr_view(e: LirExpr) -> LirExprV
    decreases e,
{
    match e {
        LirExpr::Lit(l) => LirExprV::Lit(lir_literal_view(l)),
        LirExpr::Ident(name) => LirExprV::Ident(name.deep_view()),
        LirExpr::Binary(lhs, op, rhs) => LirExprV::Binary(
            Box::new(lir_expr_view(*lhs)),
            op,
            Box::new(lir_expr_view(*rhs)),
        ),
        LirExpr::Unary(op, operand) => LirExprV::Unary(op, Box::new(lir_expr_view(*operand))),
        LirExpr::Call { func_name, args } => LirExprV::Call {
            func_name: func_name.deep_view(),
            args: lir_expr_seq_view(args),
        },
        LirExpr::CallPtr(callee, args) => LirExprV::CallPtr(
            Box::new(lir_expr_view(*callee)),
            lir_expr_seq_view(args),
        ),
        LirExpr::Index(base, idx) => LirExprV::Index(
            Box::new(lir_expr_view(*base)),
            Box::new(lir_expr_view(*idx)),
        ),
        LirExpr::Deref(inner) => LirExprV::Deref(Box::new(lir_expr_view(*inner))),
        LirExpr::AddrOf(inner) => LirExprV::AddrOf(Box::new(lir_expr_view(*inner))),
        LirExpr::Cast(inner, ty) => LirExprV::Cast(Box::new(lir_expr_view(*inner)), lir_type_view(ty)),
        LirExpr::MemberAccess(obj, field) => LirExprV::MemberAccess(
            Box::new(lir_expr_view(*obj)),
            field.deep_view(),
        ),
        LirExpr::StructInit { struct_name, fields } => LirExprV::StructInit {
            struct_name: struct_name.deep_view(),
            fields: lir_field_init_seq_view(fields),
        },
        LirExpr::EnumInit { enum_name, variant_tag, payload } => LirExprV::EnumInit {
            enum_name: enum_name.deep_view(),
            variant_tag,
            payload: match payload {
                Some(p) => Some(Box::new(lir_expr_view(*p))),
                None => None,
            },
        },
        LirExpr::Ternary(cond, t, f) => LirExprV::Ternary(
            Box::new(lir_expr_view(*cond)),
            Box::new(lir_expr_view(*t)),
            Box::new(lir_expr_view(*f)),
        ),
        LirExpr::SizeOf(ty) => LirExprV::SizeOf(lir_type_view(ty)),
        LirExpr::ArrayInit(items) => LirExprV::ArrayInit(lir_expr_seq_view(items)),
    }
}

pub open spec fn lir_expr_seq_view(es: Vec<LirExpr>) -> Seq<LirExprV>
    decreases es,
{
    Seq::new(
        es.len() as nat,
        |i: int|
            if 0 <= i < es.len() {
                lir_expr_view(es[i])
            } else {
                LirExprV::Lit(LirLiteralV::Null)
            },
    )
}

pub open spec fn lir_field_init_seq_view(fs: Vec<(String, LirExpr)>) -> Seq<(Seq<char>, LirExprV)>
    decreases fs,
{
    Seq::new(
        fs.len() as nat,
        |i: int|
            if 0 <= i < fs.len() {
                (fs[i].0.deep_view(), lir_expr_view(fs[i].1))
            } else {
                (Seq::<char>::empty(), LirExprV::Lit(LirLiteralV::Null))
            },
    )
}

impl DeepView for LirExpr {
    type V = LirExprV;

    open spec fn deep_view(&self) -> LirExprV {
        lir_expr_view(*self)
    }
}

/// A lowered statement.
#[derive(Debug)]
pub enum LirStmt {
    Let(String, LirType, Option<LirExpr>),
    Assign(LirExpr, LirExpr),
    ExprStmt(LirExpr),
    Return(Option<LirExpr>),
    Break,
    Continue,
    Block(Vec<LirStmt>),
    If { cond: LirExpr, then_branch: Vec<LirStmt>, else_branch: Vec<LirStmt> },
    While { cond: LirExpr, body: Vec<LirStmt> },
}

/// Spec-level mirror of `LirStmt`.
#[verifier::ext_equal]
pub enum LirStmtV {
    Let(Seq<char>, LirTypeV, Option<LirExprV>),
    Assign(LirExprV, LirExprV),
    ExprStmt(LirExprV),
    Return(Option<LirExprV>),
    Break,
    Continue,
    Block(Seq<LirStmtV>),
    If { cond: LirExprV, then_branch: Seq<LirStmtV>, else_branch: Seq<LirStmtV> },
    While { cond: LirExprV, body: Seq<LirStmtV> },
}

pub open spec fn lir_stmt_view(s: LirStmt) -> LirStmtV
    decreases s,
{
    match s {
        LirStmt::Let(name, ty, init) => LirStmtV::Let(
            name.deep_view(),
            lir_type_view(ty),
            match init {
                Some(e) => Some(lir_expr_view(e)),
                None => None,
            },
        ),
        LirStmt::Assign(lhs, rhs) => LirStmtV::Assign(lir_expr_view(lhs), lir_expr_view(rhs)),
        LirStmt::ExprStmt(e) => LirStmtV::ExprStmt(lir_expr_view(e)),
        LirStmt::Return(e) => LirStmtV::Return(
            match e {
                Some(x) => Some(lir_expr_view(x)),
                None => None,
            },
        ),
        LirStmt::Break => LirStmtV::Break,
        LirStmt::Continue => LirStmtV::Continue,
        LirStmt::Block(stmts) => LirStmtV::Block(lir_stmt_seq_view(stmts)),
        LirStmt::If { cond, then_branch, else_branch } => LirStmtV::If {
            cond: lir_expr_view(cond),
            then_branch: lir_stmt_seq_view(then_branch),
            else_branch: lir_stmt_seq_view(else_branch),
        },
        LirStmt::While { cond, body } => LirStmtV::While {
            cond: lir_expr_view(cond),
            body: lir_stmt_seq_view(body),
        },
    }
}

pub open spec fn lir_stmt_seq_view(ss: Vec<LirStmt>) -> Seq<LirStmtV>
    decreases ss,
{
    Seq::new(
        ss.len() as nat,
        |i: int|
            if 0 <= i < ss.len() {
                lir_stmt_view(ss[i])
            } else {
                LirStmtV::Break
            },
    )
}

impl DeepView for LirStmt {
    type V = LirStmtV;

    open spec fn deep_view(&self) -> LirStmtV {
        lir_stmt_view(*self)
    }
}

/// A lowered function definition.
#[derive(Debug)]
pub struct LirFunctionDef {
    pub name: String,
    pub params: Vec<(String, LirType)>,
    pub return_type: LirType,
    pub body: Vec<LirStmt>,
    pub is_extern: bool,
}

/// Spec-level mirror of `LirFunctionDef`.
#[verifier::ext_equal]
pub struct LirFunctionDefV {
    pub name: Seq<char>,
    pub params: Seq<(Seq<char>, LirTypeV)>,
    pub return_type: LirTypeV,
    pub body: Seq<LirStmtV>,
    pub is_extern: bool,
}

pub open spec fn lir_params_view(ps: Vec<(String, LirType)>) -> Seq<(Seq<char>, LirTypeV)>
    decreases ps,
{
    Seq::new(
        ps.len() as nat,
        |i: int|
            if 0 <= i < ps.len() {
                (ps[i].0.deep_view(), lir_type_view(ps[i].1))
            } else {
                (Seq::<char>::empty(), LirTypeV::Void)
            },
    )
}

pub open spec fn lir_function_def_view(f: LirFunctionDef) -> LirFunctionDefV {
    LirFunctionDefV {
        name: f.name.deep_view(),
        params: lir_params_view(f.params),
        return_type: lir_type_view(f.return_type),
        body: lir_stmt_seq_view(f.body),
        is_extern: f.is_extern,
    }
}

impl DeepView for LirFunctionDef {
    type V = LirFunctionDefV;

    open spec fn deep_view(&self) -> LirFunctionDefV {
        lir_function_def_view(*self)
    }
}

/// A lowered program: a flat sequence of function definitions.
#[derive(Debug)]
pub struct LirProgram {
    pub functions: Vec<LirFunctionDef>,
}

/// Spec-level mirror of `LirProgram`.
#[verifier::ext_equal]
pub struct LirProgramV {
    pub functions: Seq<LirFunctionDefV>,
}

pub open spec fn lir_program_view(p: LirProgram) -> LirProgramV {
    LirProgramV {
        functions: Seq::new(
            p.functions.len() as nat,
            |i: int|
                if 0 <= i < p.functions.len() {
                    lir_function_def_view(p.functions[i])
                } else {
                    arbitrary()
                },
        ),
    }
}

impl DeepView for LirProgram {
    type V = LirProgramV;

    open spec fn deep_view(&self) -> LirProgramV {
        lir_program_view(*self)
    }
}

impl Default for LirProgram {
    /// The empty program.
    fn default() -> (res: LirProgram)
        ensures
            res.deep_view().functions == Seq::<LirFunctionDefV>::empty(),
    {
        LirProgram { functions: Vec::new() }
    }
}

} // verus!
