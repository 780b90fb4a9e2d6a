//! IR lowering: the flat surface tree becomes the low-level IR. Statements
//! turn into explicit lists, method calls into plain calls, qualified
//! identifiers are joined, enum construction gets a placeholder tag, and
//! untyped declarations default to the 64-bit integer type.
//!
//! A `match` expression must not reach this stage: it is an internal
//! invariant of the pipeline that match is desugared earlier, so every
//! entry point here requires the `no_match` predicates.

use vstd::prelude::*;

use crate::ast::{
    expr_seq_view, expr_view, stmt_seq_view, stmt_view, type_seq_view, type_view, Expr, ExprV,
    FunctionBody, FunctionBodyV, FunctionDef, FunctionDefV, Lit, LitV, Stmt, StmtV, Type, TypeV,
};
use crate::hir::{FlatProgram, FlatProgramV};
use crate::lir::{
    lir_expr_seq_view, lir_expr_view, lir_field_init_seq_view, lir_function_def_view,
    lir_stmt_seq_view, lir_type_seq_view, lir_type_view, LirExpr, LirExprV, LirFunctionDef,
    LirFunctionDefV, LirLiteral, LirLiteralV, LirProgram, LirProgramV, LirStmt, LirStmtV, LirType,
    LirTypeV,
};
use crate::mangle::{join_path, join_strings};

verus! {

// ---------------------------------------------------------------------
// No surviving `match` expressions.
// ---------------------------------------------------------------------

pub open spec fn expr_no_match(e: ExprV) -> bool
    decreases e,
{
    match e {
        ExprV::Lit(l) => lit_no_match(l),
        ExprV::Ident(_) => true,
        ExprV::Binary(lhs, _, rhs) => expr_no_match(*lhs) && expr_no_match(*rhs),
        ExprV::Unary(_, operand) => expr_no_match(*operand),
        ExprV::Call(callee, args, _) => expr_no_match(*callee) && exprs_no_match(args),
        ExprV::Index(base, idx) => expr_no_match(*base) && expr_no_match(*idx),
        ExprV::Deref(inner) => expr_no_match(*inner),
        ExprV::AddrOf(inner) => expr_no_match(*inner),
        ExprV::Cast(inner, _) => expr_no_match(*inner),
        ExprV::Member(obj, _) => expr_no_match(*obj),
        ExprV::MethodCall(obj, _, args, _) => expr_no_match(*obj) && exprs_no_match(args),
        ExprV::StructInit(_, fields, _) => field_inits_no_match(fields),
        ExprV::EnumInit(_, payload, _) => exprs_no_match(payload),
        ExprV::Ternary(cond, t, f) => expr_no_match(*cond) && expr_no_match(*t) && expr_no_match(
            *f,
        ),
        ExprV::SizeOf(_) => true,
        ExprV::Match(_, _) => false,
    }
}

pub open spec fn lit_no_match(l: LitV) -> bool
    decreases l,
{
    match l {
        LitV::Array(items) => exprs_no_match(items),
        _ => true,
    }
}

pub open spec fn exprs_no_match(es: Seq<ExprV>) -> bool
    decreases es,
{
    forall|i: int| 0 <= i < es.len() ==> expr_no_match(#[trigger] es[i])
}

pub open spec fn field_inits_no_match(fs: Seq<(Seq<char>, ExprV)>) -> bool
    decreases fs,
{
    forall|i: int| 0 <= i < fs.len() ==> expr_no_match((#[trigger] fs[i]).1)
}

pub open spec fn opt_expr_no_match(e: Option<ExprV>) -> bool {
    match e {
        Some(x) => expr_no_match(x),
        None => true,
    }
}

pub open spec fn stmt_no_match(s: StmtV) -> bool
    decreases s,
{
    match s {
        StmtV::Let(_, _, init) => opt_expr_no_match(init),
        StmtV::Const(_, _, init) => opt_expr_no_match(init),
        StmtV::Assign(lhs, rhs) => expr_no_match(lhs) && expr_no_match(rhs),
        StmtV::Ret(e) => expr_no_match(e),
        StmtV::Expr(e) => expr_no_match(e),
        StmtV::Break => true,
        StmtV::Continue => true,
        StmtV::If(cond, then_stmt, else_stmt) => expr_no_match(cond) && stmt_no_match(*then_stmt)
            && match else_stmt {
            Some(e) => stmt_no_match(*e),
            None => true,
        },
        StmtV::While(cond, body) => expr_no_match(cond) && stmt_no_match(*body),
        StmtV::Block(ss) => stmts_no_match(ss),
        // Structural statements lower to nothing, so nothing inside them
        // is inspected.
        StmtV::Import(_) => true,
        StmtV::FromImport(_, _) => true,
        StmtV::StructDef(_) => true,
        StmtV::EnumDef(_) => true,
        StmtV::FunctionDef(_) => true,
    }
}

pub open spec fn stmts_no_match(ss: Seq<StmtV>) -> bool
    decreases ss,
{
    forall|i: int| 0 <= i < ss.len() ==> stmt_no_match(#[trigger] ss[i])
}

pub open spec fn function_no_match(f: FunctionDefV) -> bool {
    match f.body {
        FunctionBodyV::UserDefined(ss) => stmts_no_match(ss),
        FunctionBodyV::Extern => true,
    }
}

pub open spec fn program_no_match(p: FlatProgramV) -> bool {
    forall|i: int| 0 <= i < p.functions.len() ==> function_no_match(#[trigger] p.functions[i])
}

// ---------------------------------------------------------------------
// The lowering, at the spec level.
// ---------------------------------------------------------------------

/// Type lowering is total: struct and enum paths are joined with the
/// two-underscore convention, a function type becomes a function pointer,
/// and an unresolved generic degrades to `Void` (there is no
/// monomorphization pass; this placeholder is deliberate).
pub open spec fn lower_type(t: TypeV) -> LirTypeV
    decreases t,
{
    match t {
        TypeV::U8 => LirTypeV::U8,
        TypeV::I64 => LirTypeV::I64,
        TypeV::F64 => LirTypeV::F64,
        TypeV::Bool => LirTypeV::Bool,
        TypeV::Void => LirTypeV::Void,
        TypeV::Pointer(inner) => LirTypeV::Pointer(Box::new(lower_type(*inner))),
        TypeV::Array(inner, n) => LirTypeV::Array(Box::new(lower_type(*inner)), n),
        TypeV::Struct(path, _) => LirTypeV::Struct(join_path(path)),
        TypeV::Enum(path, _) => LirTypeV::Enum(join_path(path)),
        TypeV::Function(args, ret, _) => LirTypeV::FunctionPtr(
            lower_type_seq(args),
            Box::new(lower_type(*ret)),
        ),
        TypeV::Generic(_) => LirTypeV::Void,
    }
}

pub open spec fn lower_type_seq(ts: Seq<TypeV>) -> Seq<LirTypeV>
    decreases ts,
{
    Seq::new(
        ts.len(),
        |i: int|
            if 0 <= i < ts.len() {
                lower_type(ts[i])
            } else {
                LirTypeV::Void
            },
    )
}

/// Literal lowering; an array literal is intercepted by expression
/// lowering before this is reached.
pub open spec fn lower_lit(l: LitV) -> LirLiteralV {
    match l {
        LitV::Int(v) => LirLiteralV::Int(v),
        LitV::Float(bits) => LirLiteralV::Float(bits),
        LitV::Bool(b) => LirLiteralV::Bool(b),
        LitV::Str(s) => LirLiteralV::Str(s),
        LitV::Null => LirLiteralV::Null,
        LitV::Array(_) => LirLiteralV::Null,
    }
}

/// Expression lowering. A `match` expression never reaches this stage;
/// its image here is an unreachable placeholder.
pub open spec fn lower_expr(e: ExprV) -> LirExprV
    decreases e,
{
    match e {
        ExprV::Lit(LitV::Array(items)) => LirExprV::ArrayInit(lower_expr_seq(items)),
        ExprV::Lit(l) => LirExprV::Lit(lower_lit(l)),
        ExprV::Ident(path) => LirExprV::Ident(join_path(path)),
        ExprV::Binary(lhs, op, rhs) => LirExprV::Binary(
            Box::new(lower_expr(*lhs)),
            op,
            Box::new(lower_expr(*rhs)),
        ),
        ExprV::Unary(op, operand) => LirExprV::Unary(op, Box::new(lower_expr(*operand))),
        ExprV::Call(callee, args, _) => match *callee {
            ExprV::Ident(path) => LirExprV::Call {
                func_name: join_path(path),
                args: lower_expr_seq(args),
            },
            _ => LirExprV::CallPtr(Box::new(lower_expr(*callee)), lower_expr_seq(args)),
        },
        ExprV::Index(base, idx) => LirExprV::Index(
            Box::new(lower_expr(*base)),
            Box::new(lower_expr(*idx)),
        ),
        ExprV::Deref(inner) => LirExprV::Deref(Box::new(lower_expr(*inner))),
        ExprV::AddrOf(inner) => LirExprV::AddrOf(Box::new(lower_expr(*inner))),
        ExprV::Cast(inner, ty) => LirExprV::Cast(Box::new(lower_expr(*inner)), lower_type(ty)),
        ExprV::Member(obj, field) => LirExprV::MemberAccess(Box::new(lower_expr(*obj)), field),
        ExprV::MethodCall(obj, name, args, _) => LirExprV::Call {
            func_name: name,
            args: seq![lower_expr(*obj)] + lower_expr_seq(args),
        },
        ExprV::StructInit(path, fields, _) => LirExprV::StructInit {
            struct_name: join_path(path),
            fields: lower_field_inits(fields),
        },
        ExprV::EnumInit(path, payload, _) => LirExprV::EnumInit {
            enum_name: join_path(path),
            variant_tag: 0,
            payload: if payload.len() > 0 {
                Some(Box::new(lower_expr(payload[0])))
            } else {
                None
            },
        },
        ExprV::Ternary(cond, t, f) => LirExprV::Ternary(
            Box::new(lower_expr(*cond)),
            Box::new(lower_expr(*t)),
            Box::new(lower_expr(*f)),
        ),
        ExprV::SizeOf(ty) => LirExprV::SizeOf(lower_type(ty)),
        ExprV::Match(_, _) => LirExprV::Lit(LirLiteralV::Null),
    }
}

pub open spec fn lower_expr_seq(es: Seq<ExprV>) -> Seq<LirExprV>
    decreases es,
{
    Seq::new(
        es.len(),
        |i: int|
            if 0 <= i < es.len() {
                lower_expr(es[i])
            } else {
                LirExprV::Lit(LirLiteralV::Null)
            },
    )
}

pub open spec fn lower_field_inits(fs: Seq<(Seq<char>, ExprV)>) -> Seq<(Seq<char>, LirExprV)>
    decreases fs,
{
    Seq::new(
        fs.len(),
        |i: int|
            if 0 <= i < fs.len() {
                (fs[i].0, lower_expr(fs[i].1))
            } else {
                (Seq::<char>::empty(), LirExprV::Lit(LirLiteralV::Null))
            },
    )
}

pub open spec fn lower_opt_expr(e: Option<ExprV>) -> Option<LirExprV> {
    match e {
        Some(x) => Some(lower_expr(x)),
        None => None,
    }
}

/// Statement lowering: zero or more lowered statements per surface
/// statement. Untyped `let`/`const` default to the 64-bit integer type;
/// structural statements lower to nothing.
pub open spec fn lower_stmt(s: StmtV) -> Seq<LirStmtV>
    decreases s,
{
    match s {
        StmtV::Let(name, ty_opt, init) => seq![
            LirStmtV::Let(
                name,
                match ty_opt {
                    Some(t) => lower_type(t),
                    None => LirTypeV::I64,
                },
                lower_opt_expr(init),
            ),
        ],
        StmtV::Const(name, ty_opt, init) => seq![
            LirStmtV::Let(
                name,
                match ty_opt {
                    Some(t) => lower_type(t),
                    None => LirTypeV::I64,
                },
                lower_opt_expr(init),
            ),
        ],
        StmtV::Assign(lhs, rhs) => seq![LirStmtV::Assign(lower_expr(lhs), lower_expr(rhs))],
        StmtV::Expr(e) => seq![LirStmtV::ExprStmt(lower_expr(e))],
        StmtV::Ret(e) => seq![LirStmtV::Return(Some(lower_expr(e)))],
        StmtV::Break => seq![LirStmtV::Break],
        StmtV::Continue => seq![LirStmtV::Continue],
        StmtV::Block(ss) => seq![LirStmtV::Block(lower_stmt_seq(ss))],
        StmtV::If(cond, then_stmt, else_stmt) => seq![
            LirStmtV::If {
                cond: lower_expr(cond),
                then_branch: lower_stmt(*then_stmt),
                else_branch: match else_stmt {
                    Some(e) => lower_stmt(*e),
                    None => Seq::empty(),
                },
            },
        ],
        StmtV::While(cond, body) => seq![
            LirStmtV::While { cond: lower_expr(cond), body: lower_stmt(*body) },
        ],
        StmtV::Import(_) => Seq::empty(),
        StmtV::FromImport(_, _) => Seq::empty(),
        StmtV::StructDef(_) => Seq::empty(),
        StmtV::EnumDef(_) => Seq::empty(),
        StmtV::FunctionDef(_) => Seq::empty(),
    }
}

pub open spec fn lower_stmt_seq(ss: Seq<StmtV>) -> Seq<LirStmtV>
    decreases ss,
{
    if ss.len() == 0 {
        Seq::empty()
    } else {
        lower_stmt(ss[0]) + lower_stmt_seq(ss.drop_first())
    }
}

/// Function lowering: an extern body lowers to an empty body with the
/// extern flag set; parameter and return types are lowered in place.
pub open spec fn lower_function(f: FunctionDefV) -> LirFunctionDefV {
    LirFunctionDefV {
        name: f.name,
        params: Seq::new(
            f.params.len(),
            |i: int|
                if 0 <= i < f.params.len() {
                    (f.params[i].0, lower_type(f.params[i].1))
                } else {
                    (Seq::<char>::empty(), LirTypeV::Void)
                },
        ),
        return_type: lower_type(f.return_type),
        body: match f.body {
            FunctionBodyV::UserDefined(ss) => lower_stmt_seq(ss),
            FunctionBodyV::Extern => Seq::empty(),
        },
        is_extern: f.body is Extern,
    }
}

/// Program lowering: every function, in order.
pub open spec fn lower_program(p: FlatProgramV) -> LirProgramV {
    LirProgramV {
        functions: Seq::new(
            p.functions.len(),
            |i: int|
                if 0 <= i < p.functions.len() {
                    lower_function(p.functions[i])
                } else {
                    arbitrary()
                },
        ),
    }
}

/// The IR lowering pass.
pub struct Ir;

impl Ir {
    /// Lowers a whole flat program.
    #[verifier::loop_isolation(false)]
    pub fn build(flat_ast: &FlatProgram) -> (r: LirProgram)
        requires
            program_no_match(flat_ast.deep_view()),
        ensures
            r.deep_view() == lower_program(flat_ast.deep_view()),
    {
        let ghost pv = flat_ast.deep_view();
        let mut functions: Vec<LirFunctionDef> = Vec::new();
        let n: usize = flat_ast.functions.len();
        let mut i: usize = 0;
        while i < n
            invariant
                i <= n,
                functions.len() == i,
                forall|j: int|
                    0 <= j < i ==> lir_function_def_view(#[trigger] functions@[j])
                        == lower_function(pv.functions[j]),
            decreases n - i,
        {
            proof {
                assert(function_no_match(pv.functions[i as int]));
            }
            let f = Self::transpile_function(&flat_ast.functions[i]);
            functions.push(f);
            i = i + 1;
        }
        let lir = LirProgram { functions };
        proof {
            assert(lir.deep_view() =~= lower_program(pv));
        }
        lir
    }

    /// Lowers one function; an extern body becomes an empty body with the
    /// extern flag set.
    #[verifier::loop_isolation(false)]
    fn transpile_function(func: &FunctionDef) -> (r: LirFunctionDef)
        requires
            function_no_match(func.deep_view()),
        ensures
            r.deep_view() == lower_function(func.deep_view()),
    {
        let ghost fv = func.deep_view();
        let (body, is_extern): (Vec<LirStmt>, bool) = match &func.body {
            FunctionBody::UserDefined(stmts) => (Self::transpile_block(stmts), false),
            FunctionBody::Extern => (Vec::new(), true),
        };

        let mut params: Vec<(String, LirType)> = Vec::new();
        let n: usize = func.params.len();
        let mut i: usize = 0;
        while i < n
            invariant
                i <= n,
                params.len() == i,
                forall|j: int|
                    0 <= j < i ==> (#[trigger] params@[j]).0@ == fv.params[j].0 && lir_type_view(
                        params@[j].1,
                    ) == lower_type(fv.params[j].1),
            decreases n - i,
        {
            let ty = Self::transpile_type(&func.params[i].1);
            params.push((func.params[i].0.clone(), ty));
            i = i + 1;
        }

        let return_type = Self::transpile_type(&func.return_type);
        let r = LirFunctionDef { name: func.name.clone(), params, return_type, body, is_extern };
        proof {
            assert(r.deep_view() =~= lower_function(fv));
        }
        r
    }

    /// Lowers one type; total over the closed variant set.
    #[verifier::loop_isolation(false)]
    fn transpile_type(ty: &Type) -> (r: LirType)
        ensures
            r.deep_view() == lower_type(ty.deep_view()),
        decreases ty,
    {
        match ty {
            Type::U8 => LirType::U8,
            Type::I64 => LirType::I64,
            Type::F64 => LirType::F64,
            Type::Bool => LirType::Bool,
            Type::Void => LirType::Void,
            Type::Pointer(inner) => LirType::Pointer(Box::new(Self::transpile_type(inner))),
            Type::Array(inner, size) => LirType::Array(Box::new(Self::transpile_type(inner)), *size),
            Type::Struct(path, _) => LirType::Struct(join_strings(path)),
            Type::Enum(path, _) => LirType::Enum(join_strings(path)),
            Type::Function(args, ret, _) => {
                let mut lir_args: Vec<LirType> = Vec::new();
                let n: usize = args.len();
                let mut i: usize = 0;
                while i < n
                    invariant
                        i <= n,
                        lir_args.len() == i,
                        forall|j: int|
                            0 <= j < i ==> lir_type_view(#[trigger] lir_args@[j]) == lower_type(
                                type_view(args@[j]),
                            ),
                    decreases n - i,
                {
                    let t = Self::transpile_type(&args[i]);
                    lir_args.push(t);
                    i = i + 1;
                }
                let lir_ret = Self::transpile_type(ret);
                let r = LirType::FunctionPtr(lir_args, Box::new(lir_ret));
                proof {
                    assert(lir_type_seq_view(lir_args) =~= lower_type_seq(type_seq_view(*args)));
                    assert(lir_type_view(r) =~= lower_type(ty.deep_view()));
                }
                r
            },
            Type::Generic(_) => LirType::Void,
        }
    }

    /// Lowers a statement list, concatenating what each statement yields.
    #[verifier::loop_isolation(false)]
    fn transpile_block(stmts: &Vec<Stmt>) -> (r: Vec<LirStmt>)
        requires
            stmts_no_match(stmt_seq_view(*stmts)),
        ensures
            lir_stmt_seq_view(r) == lower_stmt_seq(stmt_seq_view(*stmts)),
        decreases stmts,
    {
        let ghost sv = stmt_seq_view(*stmts);
        let mut result: Vec<LirStmt> = Vec::new();
        let n: usize = stmts.len();
        let mut i: usize = 0;
        proof {
            assert(sv.skip(0) =~= sv);
            assert(lir_stmt_seq_view(result) =~= Seq::<LirStmtV>::empty());
        }
        while i < n
            invariant
                i <= n,
                lower_stmt_seq(sv) == lir_stmt_seq_view(result) + lower_stmt_seq(
                    sv.skip(i as int),
                ),
            decreases n - i,
        {
            proof {
                assert(sv.skip(i as int)[0] == sv[i as int]);
                assert(sv.skip(i as int).drop_first() =~= sv.skip(i + 1));
            }
            let ghost before = lir_stmt_seq_view(result);
            let mut more = Self::transpile_stmt(&stmts[i]);
            let ghost morev = lir_stmt_seq_view(more);
            result.append(&mut more);
            proof {
                assert(lir_stmt_seq_view(result) =~= before + morev);
                assert(before + (morev + lower_stmt_seq(sv.skip(i + 1))) =~= (before + morev)
                    + lower_stmt_seq(sv.skip(i + 1)));
            }
            i = i + 1;
        }
        proof {
            assert(sv.skip(n as int) =~= Seq::<StmtV>::empty());
            assert(lir_stmt_seq_view(result) + Seq::<LirStmtV>::empty() =~= lir_stmt_seq_view(
                result,
            ));
        }
        result
    }

    /// Lowers one statement to zero or more lowered statements.
    #[verifier::loop_isolation(false)]
    fn transpile_stmt(stmt: &Stmt) -> (r: Vec<LirStmt>)
        requires
            stmt_no_match(stmt.deep_view()),
        ensures
            lir_stmt_seq_view(r) == lower_stmt(stmt.deep_view()),
        decreases stmt,
    {
        let ghost sv = stmt.deep_view();
        let mut result: Vec<LirStmt> = Vec::new();
        match stmt {
            Stmt::Let(name, ty_opt, expr_opt) => {
                proof {
                    assert(sv == StmtV::Let(
                        name@,
                        crate::ast::opt_type_view(*ty_opt),
                        crate::ast::opt_expr_view(*expr_opt),
                    ));
                }
                let lir_ty = match ty_opt {
                    Some(t) => Self::transpile_type(t),
                    None => LirType::I64,
                };
                let lir_init = match expr_opt {
                    Some(e) => {
                        proof {
                            assert(crate::ast::opt_expr_view(*expr_opt) == Some(expr_view(*e)));
                        }
                        Some(Self::transpile_expr(e))
                    },
                    None => None,
                };
                result.push(LirStmt::Let(name.clone(), lir_ty, lir_init));
            },
            Stmt::Const(name, ty_opt, expr_opt) => {
                proof {
                    assert(sv == StmtV::Const(
                        name@,
                        crate::ast::opt_type_view(*ty_opt),
                        crate::ast::opt_expr_view(*expr_opt),
                    ));
                }
                let lir_ty = match ty_opt {
                    Some(t) => Self::transpile_type(t),
                    None => LirType::I64,
                };
                let lir_init = match expr_opt {
                    Some(e) => {
                        proof {
                            assert(crate::ast::opt_expr_view(*expr_opt) == Some(expr_view(*e)));
                        }
                        Some(Self::transpile_expr(e))
                    },
                    None => None,
                };
                result.push(LirStmt::Let(name.clone(), lir_ty, lir_init));
            },
            Stmt::Assign(lhs, rhs) => {
                let l = Self::transpile_expr(lhs);
                let r2 = Self::transpile_expr(rhs);
                result.push(LirStmt::Assign(l, r2));
            },
            Stmt::Expr(e) => {
                let x = Self::transpile_expr(e);
                result.push(LirStmt::ExprStmt(x));
            },
            Stmt::Ret(e) => {
                let x = Self::transpile_expr(e);
                result.push(LirStmt::Return(Some(x)));
            },
            Stmt::Break => {
                result.push(LirStmt::Break);
            },
            Stmt::Continue => {
                result.push(LirStmt::Continue);
            },
            Stmt::Block(inner_stmts) => {
                let inner = Self::transpile_block(inner_stmts);
                result.push(LirStmt::Block(inner));
            },
            Stmt::If(cond, then_box, else_box) => {
                proof {
                    assert(sv == StmtV::If(
                        expr_view(*cond),
                        Box::new(stmt_view(**then_box)),
                        match else_box {
                            Some(e) => Some(Box::new(stmt_view(**e))),
                            None => None,
                        },
                    ));
                }
                let lir_cond = Self::transpile_expr(cond);
                let then_branch = Self::transpile_stmt(then_box);
                let else_branch = match else_box {
                    Some(else_stmt) => Self::transpile_stmt(else_stmt),
                    None => Vec::new(),
                };
                proof {
                    if sv->If_2 is None {
                        assert(lir_stmt_seq_view(else_branch) =~= Seq::<LirStmtV>::empty());
                    }
                }
                result.push(LirStmt::If { cond: lir_cond, then_branch, else_branch });
            },
            Stmt::While(cond, body) => {
                let lir_cond = Self::transpile_expr(cond);
                let lir_body = Self::transpile_stmt(body);
                result.push(LirStmt::While { cond: lir_cond, body: lir_body });
            },
            Stmt::Import(_) | Stmt::FromImport(_, _) | Stmt::StructDef(_) | Stmt::EnumDef(_)
            | Stmt::FunctionDef(_) => {},
        }
        proof {
            assert(lir_stmt_seq_view(result) =~= lower_stmt(sv));
        }
        result
    }

    /// Lowers one expression.
    #[verifier::loop_isolation(false)]
    #[verifier::rlimit(50)]
    fn transpile_expr(expr: &Expr) -> (r: LirExpr)
        requires
            expr_no_match(expr.deep_view()),
        ensures
            r.deep_view() == lower_expr(expr.deep_view()),
        decreases expr,
    {
        let ghost ev = expr.deep_view();
        match expr {
            Expr::Lit(Lit::Array(items)) => {
                proof {
                    assert(*expr == Expr::Lit(Lit::Array(*items)));
                    assert(ev == ExprV::Lit(crate::ast::lit_view(Lit::Array(*items))));
                    assert(crate::ast::lit_view(Lit::Array(*items)) == LitV::Array(
                        expr_seq_view(*items),
                    ));
                    assert(lit_no_match(LitV::Array(expr_seq_view(*items))));
                    assert(exprs_no_match(expr_seq_view(*items)));
                }
                let lir_items = Self::transpile_exprs(items);
                let r = LirExpr::ArrayInit(lir_items);
                proof {
                    assert(r.deep_view() =~= lower_expr(ev));
                }
                r
            },
            Expr::Lit(l) => LirExpr::Lit(Self::transpile_lit(l)),
            Expr::Ident(path) => LirExpr::Ident(join_strings(path)),
            Expr::Binary(left, op, right) => LirExpr::Binary(
                Box::new(Self::transpile_expr(left)),
                *op,
                Box::new(Self::transpile_expr(right)),
            ),
            Expr::Unary(op, operand) => LirExpr::Unary(
                *op,
                Box::new(Self::transpile_expr(operand)),
            ),
            Expr::Call(callee, args, _) => {
                let lir_args = Self::transpile_exprs(args);
                match &**callee {
                    Expr::Ident(path) => {
                        let r = LirExpr::Call { func_name: join_strings(path), args: lir_args };
                        proof {
                            assert(r.deep_view() =~= lower_expr(ev));
                        }
                        r
                    },
                    _ => {
                        let lir_callee = Self::transpile_expr(callee);
                        let r = LirExpr::CallPtr(Box::new(lir_callee), lir_args);
                        proof {
                            assert(!(expr_view(**callee) is Ident));
                            assert(r.deep_view() =~= lower_expr(ev));
                        }
                        r
                    },
                }
            },
            Expr::Index(arr, idx) => LirExpr::Index(
                Box::new(Self::transpile_expr(arr)),
                Box::new(Self::transpile_expr(idx)),
            ),
            Expr::Deref(inner) => LirExpr::Deref(Box::new(Self::transpile_expr(inner))),
            Expr::AddrOf(inner) => LirExpr::AddrOf(Box::new(Self::transpile_expr(inner))),
            Expr::Cast(inner, ty) => LirExpr::Cast(
                Box::new(Self::transpile_expr(inner)),
                Self::transpile_type(ty),
            ),
            Expr::Member(obj, field) => LirExpr::MemberAccess(
                Box::new(Self::transpile_expr(obj)),
                field.clone(),
            ),
            Expr::MethodCall(obj, method_name, args, _) => {
                let mut new_args: Vec<LirExpr> = Vec::new();
                let receiver = Self::transpile_expr(obj);
                let ghost recv = lir_expr_view(receiver);
                new_args.push(receiver);
                let mut rest = Self::transpile_exprs(args);
                let ghost restv = lir_expr_seq_view(rest);
                let ghost restvec = rest@;
                new_args.append(&mut rest);
                let r = LirExpr::Call { func_name: method_name.clone(), args: new_args };
                proof {
                    assert(new_args@ =~= seq![r->Call_args@[0]].add(restvec)) by {
                        assert(new_args@.len() == 1 + restvec.len());
                    }
                    assert forall|j: int| 0 <= j < restvec.len() implies lir_expr_view(
                        #[trigger] new_args@[j + 1],
                    ) == restv[j] by {
                        assert(new_args@[j + 1] == restvec[j]);
                    }
                    assert(lir_expr_seq_view(new_args) =~= seq![recv] + restv);
                    assert(r.deep_view() =~= lower_expr(ev));
                }
                r
            },
            Expr::StructInit(path, fields, _) => {
                proof {
                    assert(ev->StructInit_1 == crate::ast::field_init_seq_view(*fields));
                    assert(field_inits_no_match(ev->StructInit_1));
                }
                let mut lir_fields: Vec<(String, LirExpr)> = Vec::new();
                let n: usize = fields.len();
                let mut i: usize = 0;
                while i < n
                    invariant
                        i <= n,
                        lir_fields.len() == i,
                        forall|j: int|
                            0 <= j < i ==> (#[trigger] lir_fields@[j]).0@ == fields@[j].0@
                                && lir_expr_view(lir_fields@[j].1) == lower_expr(
                                expr_view(fields@[j].1),
                            ),
                    decreases n - i,
                {
                    proof {
                        assert(expr_no_match(
                            (ev->StructInit_1)[i as int].1,
                        ));
                        assert((ev->StructInit_1)[i as int] == (
                            fields@[i as int].0@,
                            expr_view(fields@[i as int].1),
                        ));
                    }
                    let x = Self::transpile_expr(&fields[i].1);
                    lir_fields.push((fields[i].0.clone(), x));
                    i = i + 1;
                }
                let r = LirExpr::StructInit { struct_name: join_strings(path), fields: lir_fields };
                proof {
                    assert(lir_field_init_seq_view(lir_fields) =~= lower_field_inits(
                        crate::ast::field_init_seq_view(*fields),
                    ));
                    assert(r.deep_view() =~= lower_expr(ev));
                }
                r
            },
            Expr::EnumInit(path, params, _) => {
                proof {
                    assert(ev->EnumInit_1 == expr_seq_view(*params));
                    assert(exprs_no_match(expr_seq_view(*params)));
                }
                let payload = if params.len() > 0 {
                    proof {
                        assert(expr_no_match(expr_seq_view(*params)[0]));
                        assert(expr_seq_view(*params)[0] == expr_view(params@[0]));
                    }
                    Some(Box::new(Self::transpile_expr(&params[0])))
                } else {
                    None
                };
                let r = LirExpr::EnumInit {
                    enum_name: join_strings(path),
                    variant_tag: 0,
                    payload,
                };
                proof {
                    assert(r.deep_view() =~= lower_expr(ev));
                }
                r
            },
            Expr::Ternary(cond, true_val, false_val) => LirExpr::Ternary(
                Box::new(Self::transpile_expr(cond)),
                Box::new(Self::transpile_expr(true_val)),
                Box::new(Self::transpile_expr(false_val)),
            ),
            Expr::SizeOf(ty) => LirExpr::SizeOf(Self::transpile_type(ty)),
            Expr::Match(_, _) => {
                proof {
                    assert(false);
                }
                LirExpr::Lit(LirLiteral::Null)
            },
        }
    }

    /// Lowers an expression list element by element.
    #[verifier::loop_isolation(false)]
    fn transpile_exprs(exprs: &Vec<Expr>) -> (r: Vec<LirExpr>)
        requires
            exprs_no_match(expr_seq_view(*exprs)),
        ensures
            lir_expr_seq_view(r) == lower_expr_seq(expr_seq_view(*exprs)),
        decreases exprs,
    {
        let mut out: Vec<LirExpr> = Vec::new();
        let n: usize = exprs.len();
        let mut i: usize = 0;
        while i < n
            invariant
                i <= n,
                out.len() == i,
                forall|j: int|
                    0 <= j < i ==> lir_expr_view(#[trigger] out@[j]) == lower_expr(
                        expr_view(exprs@[j]),
                    ),
            decreases n - i,
        {
            proof {
                assert(expr_no_match(expr_seq_view(*exprs)[i as int]));
                assert(expr_seq_view(*exprs)[i as int] == expr_view(exprs@[i as int]));
            }
            let x = Self::transpile_expr(&exprs[i]);
            out.push(x);
            i = i + 1;
        }
        proof {
            assert(lir_expr_seq_view(out) =~= lower_expr_seq(expr_seq_view(*exprs)));
        }
        out
    }

    /// Lowers one literal.
    fn transpile_lit(lit: &Lit) -> (r: LirLiteral)
        ensures
            r.deep_view() == lower_lit(lit.deep_view()),
    {
        match lit {
            Lit::Int(v) => LirLiteral::Int(*v),
            Lit::Float(bits) => LirLiteral::Float(*bits),
            Lit::Bool(v) => LirLiteral::Bool(*v),
            Lit::Str(v) => LirLiteral::Str(v.clone()),
            Lit::Null => LirLiteral::Null,
            Lit::Array(_) => LirLiteral::Null,
        }
    }
}

/// Idempotent defaulting: lowering an untyped `let` (or `const`) always
/// yields a declaration typed as the 64-bit integer default, whatever the
/// name and initializer around it.
pub proof fn lemma_untyped_let_defaults(name: Seq<char>, init: Option<ExprV>)
    ensures
        lower_stmt(StmtV::Let(name, None, init)) == seq![
            LirStmtV::Let(name, LirTypeV::I64, lower_opt_expr(init)),
        ],
        lower_stmt(StmtV::Const(name, None, init)) == seq![
            LirStmtV::Let(name, LirTypeV::I64, lower_opt_expr(init)),
        ],
{
}

} // verus!
