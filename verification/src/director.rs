//! The emission driver: walks lowered function bodies and issues target
//! contract calls, translating structured control flow into the
//! block-graph operations of the block-sealing protocol, and keeping a
//! loop-context stack for `break`/`continue`.
//!
//! Internal invariant violations — `break` or `continue` outside any
//! loop, an address taken of something that is not an lvalue, a construct
//! the catalogue has no operation for — are fatal: they come back as
//! distinct internal errors, never as silent no-ops.

use vstd::prelude::*;

use crate::ast::{BinaryOp, UnaryOp};
use crate::lir::{
    lir_expr_seq_view, lir_expr_view, lir_function_def_view, lir_program_view,
    lir_stmt_seq_view, lir_stmt_view, lir_type_view, LirExpr, LirExprV, LirFunctionDef,
    LirLiteral, LirLiteralV, LirProgram, LirProgramV, LirStmt, LirStmtV, LirType, LirTypeV,
};
use crate::strmap::StrMap;
use crate::target::{Target, TargetOpV};

verus! {

/// A fatal internal error: an upstream stage failed to enforce a
/// precondition it owns. Never a user diagnostic.
#[derive(Debug)]
pub enum EmitError {
    /// A `break` was driven outside any active loop context.
    BreakOutsideLoop,
    /// A `continue` was driven outside any active loop context.
    ContinueOutsideLoop,
    /// An address was required of an expression that is not an lvalue.
    NotAnLValue,
    /// An expression the operation catalogue cannot express.
    UnsupportedConstruct,
}

/// Spec-level mirror of `EmitError`.
#[verifier::ext_equal]
pub enum EmitErrorV {
    BreakOutsideLoop,
    ContinueOutsideLoop,
    NotAnLValue,
    UnsupportedConstruct,
}

impl DeepView for EmitError {
    type V = EmitErrorV;

    open spec fn deep_view(&self) -> EmitErrorV {
        match self {
            EmitError::BreakOutsideLoop => EmitErrorV::BreakOutsideLoop,
            EmitError::ContinueOutsideLoop => EmitErrorV::ContinueOutsideLoop,
            EmitError::NotAnLValue => EmitErrorV::NotAnLValue,
            EmitError::UnsupportedConstruct => EmitErrorV::UnsupportedConstruct,
        }
    }
}

/// The driver's state: the backend's trace, the loop-context stack
/// (exit block, header block; top of stack is the innermost loop), and
/// the types of the variables in scope.
#[verifier::ext_equal]
pub struct DriveState {
    pub ops: Seq<TargetOpV>,
    pub loops: Seq<(usize, usize)>,
    pub vars: Map<Seq<char>, LirTypeV>,
}

/// The bytes of a string literal: optional surrounding quotes stripped,
/// escapes decoded, a NUL appended.
pub open spec fn decode_str(s: Seq<char>) -> Seq<u8> {
    let inner = if s.len() >= 2 && s[0] == '"' && s[s.len() - 1] == '"' {
        s.subrange(1, s.len() - 1)
    } else {
        s
    };
    decode_str_chars(inner) + seq![0u8]
}

/// Escape decoding, character by character.
pub open spec fn decode_str_chars(s: Seq<char>) -> Seq<u8>
    decreases s.len(),
{
    if s.len() == 0 {
        Seq::empty()
    } else if s[0] == '\\' {
        if s.len() == 1 {
            seq![92u8]
        } else {
            let e = s[1];
            let bytes = if e == 'n' {
                seq![10u8]
            } else if e == 'r' {
                seq![13u8]
            } else if e == 't' {
                seq![9u8]
            } else if e == '\\' {
                seq![92u8]
            } else if e == '"' {
                seq![34u8]
            } else if e == '0' {
                seq![0u8]
            } else {
                seq![92u8, e as u8]
            };
            bytes + decode_str_chars(s.skip(2))
        }
    } else {
        seq![s[0] as u8] + decode_str_chars(s.skip(1))
    }
}

/// Best-effort local type inference, used only for code-generation shape
/// decisions (literal defaulting and array element typing).
pub open spec fn infer_type(vars: Map<Seq<char>, LirTypeV>, e: LirExprV) -> LirTypeV
    decreases e,
{
    match e {
        LirExprV::Lit(l) => match l {
            LirLiteralV::Float(_) => LirTypeV::F64,
            LirLiteralV::Bool(_) => LirTypeV::Bool,
            LirLiteralV::Int(_) => LirTypeV::I64,
            LirLiteralV::Str(_) => LirTypeV::Pointer(Box::new(LirTypeV::U8)),
            LirLiteralV::Null => LirTypeV::I64,
        },
        LirExprV::ArrayInit(items) => if items.len() > 0 {
            LirTypeV::Array(Box::new(infer_type(vars, items[0])), items.len() as usize)
        } else {
            LirTypeV::Array(Box::new(LirTypeV::I64), 0)
        },
        LirExprV::Binary(_, op, _) => match op {
            BinaryOp::Eq | BinaryOp::Neq | BinaryOp::Lt | BinaryOp::Gt | BinaryOp::Lte
                | BinaryOp::Gte | BinaryOp::And | BinaryOp::Or => LirTypeV::Bool,
            _ => LirTypeV::I64,
        },
        LirExprV::Ident(name) => if vars.contains_key(name) {
            vars[name]
        } else {
            LirTypeV::I64
        },
        LirExprV::Unary(op, _) => match op {
            UnaryOp::Not => LirTypeV::Bool,
            _ => LirTypeV::I64,
        },
        LirExprV::AddrOf(inner) => LirTypeV::Pointer(Box::new(infer_type(vars, *inner))),
        LirExprV::Deref(inner) => match infer_type(vars, *inner) {
            LirTypeV::Pointer(t) => *t,
            _ => LirTypeV::I64,
        },
        LirExprV::Index(base, _) => match infer_type(vars, *base) {
            LirTypeV::Array(t, _) => *t,
            _ => LirTypeV::I64,
        },
        LirExprV::Cast(_, ty) => ty,
        _ => LirTypeV::I64,
    }
}

/// The fresh handle a value- or block-producing operation would get.
pub open spec fn next_id(ops: Seq<TargetOpV>) -> usize {
    ops.len() as usize
}

/// Driving one expression: the operations appended and the handle of the
/// resulting value.
pub open spec fn drive_expr(
    ops: Seq<TargetOpV>,
    vars: Map<Seq<char>, LirTypeV>,
    e: LirExprV,
) -> Result<(Seq<TargetOpV>, usize), EmitErrorV>
    decreases e, 0int,
{
    match e {
        LirExprV::Lit(l) => match l {
            LirLiteralV::Int(v) => Ok((ops.push(TargetOpV::LitInt(v)), next_id(ops))),
            LirLiteralV::Float(bits) => Ok((ops.push(TargetOpV::LitFloat(bits)), next_id(ops))),
            LirLiteralV::Bool(b) => Ok((ops.push(TargetOpV::LitBool(b)), next_id(ops))),
            LirLiteralV::Str(s) => Ok(
                (ops.push(TargetOpV::LitStr(decode_str(s))), next_id(ops)),
            ),
            LirLiteralV::Null => Err(EmitErrorV::UnsupportedConstruct),
        },
        LirExprV::ArrayInit(items) => {
            let element_ty = if items.len() > 0 {
                infer_type(vars, items[0])
            } else {
                LirTypeV::I64
            };
            match drive_exprs(ops, vars, items) {
                Err(err) => Err(err),
                Ok((ops1, ids)) => Ok(
                    (ops1.push(TargetOpV::LitArray(ids, element_ty)), next_id(ops1)),
                ),
            }
        },
        LirExprV::Ident(name) => Ok((ops.push(TargetOpV::IdentRef(name)), next_id(ops))),
        LirExprV::Binary(lhs, op, rhs) => match drive_expr(ops, vars, *lhs) {
            Err(err) => Err(err),
            Ok((ops1, l)) => match drive_expr(ops1, vars, *rhs) {
                Err(err) => Err(err),
                Ok((ops2, r)) => Ok((ops2.push(TargetOpV::BinOp(op, l, r)), next_id(ops2))),
            },
        },
        LirExprV::Unary(op, operand) => match drive_expr(ops, vars, *operand) {
            Err(err) => Err(err),
            Ok((ops1, v)) => Ok((ops1.push(TargetOpV::UnOp(op, v)), next_id(ops1))),
        },
        LirExprV::Call { func_name, args } => match drive_exprs(ops, vars, args) {
            Err(err) => Err(err),
            Ok((ops1, ids)) => Ok(
                (ops1.push(TargetOpV::CallFunction(func_name, ids)), next_id(ops1)),
            ),
        },
        LirExprV::CallPtr(callee, args) => match drive_expr(ops, vars, *callee) {
            Err(err) => Err(err),
            Ok((ops1, c)) => match drive_exprs(ops1, vars, args) {
                Err(err) => Err(err),
                Ok((ops2, ids)) => Ok(
                    (ops2.push(TargetOpV::CallFunctionPointer(c, ids)), next_id(ops2)),
                ),
            },
        },
        LirExprV::Deref(inner) => match *inner {
            // A dereference of an immediately preceding address-of on the
            // same sub-expression cancels out.
            LirExprV::AddrOf(x) => drive_expr(ops, vars, *x),
            _ => match drive_expr(ops, vars, *inner) {
                Err(err) => Err(err),
                Ok((ops1, addr)) => Ok((ops1.push(TargetOpV::Load(addr)), next_id(ops1))),
            },
        },
        LirExprV::AddrOf(inner) => {
            // An array operand already decays to a pointer value: taking
            // its address degenerates to the value itself.
            if infer_type(vars, *inner) is Array {
                drive_expr(ops, vars, *inner)
            } else {
                drive_address(ops, vars, *inner)
            }
        },
        LirExprV::Index(base, idx) => match drive_expr(ops, vars, *base) {
            Err(err) => Err(err),
            Ok((ops1, b)) => match drive_expr(ops1, vars, *idx) {
                Err(err) => Err(err),
                Ok((ops2, i)) => Ok((ops2.push(TargetOpV::IndexOp(b, i)), next_id(ops2))),
            },
        },
        LirExprV::Cast(inner, ty) => match drive_expr(ops, vars, *inner) {
            Err(err) => Err(err),
            Ok((ops1, v)) => Ok((ops1.push(TargetOpV::CastOp(v, ty)), next_id(ops1))),
        },
        _ => Err(EmitErrorV::UnsupportedConstruct),
    }
}

/// Driving a list of expressions, left to right.
pub open spec fn drive_exprs(
    ops: Seq<TargetOpV>,
    vars: Map<Seq<char>, LirTypeV>,
    es: Seq<LirExprV>,
) -> Result<(Seq<TargetOpV>, Seq<usize>), EmitErrorV>
    decreases es, 0int,
{
    if es.len() == 0 {
        Ok((ops, Seq::empty()))
    } else {
        match drive_expr(ops, vars, es[0]) {
            Err(err) => Err(err),
            Ok((ops1, v)) => match drive_exprs(ops1, vars, es.drop_first()) {
                Err(err) => Err(err),
                Ok((ops2, ids)) => Ok((ops2, seq![v] + ids)),
            },
        }
    }
}

/// Driving an expression as an address: only identifiers, dereferences
/// and indexing denote storage.
pub open spec fn drive_address(
    ops: Seq<TargetOpV>,
    vars: Map<Seq<char>, LirTypeV>,
    e: LirExprV,
) -> Result<(Seq<TargetOpV>, usize), EmitErrorV>
    decreases e, 1int,
{
    match e {
        LirExprV::Ident(name) => Ok(
            (ops.push(TargetOpV::GetVariableAddress(name)), next_id(ops)),
        ),
        LirExprV::Deref(inner) => drive_expr(ops, vars, *inner),
        LirExprV::Index(_, _) => match drive_expr(ops, vars, e) {
            Err(err) => Err(err),
            Ok((ops1, v)) => Ok((ops1.push(TargetOpV::AddrOfLValue(v)), next_id(ops1))),
        },
        _ => Err(EmitErrorV::NotAnLValue),
    }
}

/// Whether a statement list ends in a `return`; if so, the driver omits
/// the jump to the merge block (control has already left the block).
pub open spec fn stmts_end_with_return(ss: Seq<LirStmtV>) -> bool {
    ss.len() > 0 && ss.last() is Return
}

/// Driving one statement.
pub open spec fn drive_stmt(st: DriveState, s: LirStmtV) -> Result<DriveState, EmitErrorV>
    decreases s, 1int,
{
    match s {
        LirStmtV::Return(e_opt) => match e_opt {
            Some(e) => match drive_expr(st.ops, st.vars, e) {
                Err(err) => Err(err),
                Ok((ops1, v)) => Ok(
                    DriveState { ops: ops1.push(TargetOpV::ReturnValue(v)), ..st },
                ),
            },
            None => Ok(DriveState { ops: st.ops.push(TargetOpV::ReturnVoid), ..st }),
        },
        LirStmtV::Let(name, ty, init) => {
            let vars2 = st.vars.insert(name, ty);
            match init {
                Some(e) => match drive_expr(st.ops, st.vars, e) {
                    Err(err) => Err(err),
                    Ok((ops1, v)) => Ok(
                        DriveState {
                            ops: ops1.push(TargetOpV::DeclareVariable(name, ty, Some(v))),
                            vars: vars2,
                            ..st
                        },
                    ),
                },
                None => Ok(
                    DriveState {
                        ops: st.ops.push(TargetOpV::DeclareVariable(name, ty, None)),
                        vars: vars2,
                        ..st
                    },
                ),
            }
        },
        LirStmtV::Assign(lhs, rhs) => match drive_expr(st.ops, st.vars, rhs) {
            Err(err) => Err(err),
            Ok((ops1, v)) => match drive_address(ops1, st.vars, lhs) {
                Err(err) => Err(err),
                Ok((ops2, addr)) => Ok(
                    DriveState { ops: ops2.push(TargetOpV::Store(addr, v)), ..st },
                ),
            },
        },
        LirStmtV::ExprStmt(e) => match drive_expr(st.ops, st.vars, e) {
            Err(err) => Err(err),
            Ok((ops1, v)) => Ok(DriveState { ops: ops1.push(TargetOpV::ExprStmtOp(v)), ..st }),
        },
        LirStmtV::Break => if st.loops.len() > 0 {
            Ok(DriveState { ops: st.ops.push(TargetOpV::Jump(st.loops.last().0)), ..st })
        } else {
            Err(EmitErrorV::BreakOutsideLoop)
        },
        LirStmtV::Continue => if st.loops.len() > 0 {
            Ok(DriveState { ops: st.ops.push(TargetOpV::Jump(st.loops.last().1)), ..st })
        } else {
            Err(EmitErrorV::ContinueOutsideLoop)
        },
        LirStmtV::Block(ss) => drive_stmts(st, ss),
        LirStmtV::If { cond, then_branch, else_branch } => {
            match drive_expr(st.ops, st.vars, cond) {
                Err(err) => Err(err),
                Ok((ops1, c)) => {
                    let then_b = next_id(ops1);
                    let ops2 = ops1.push(TargetOpV::CreateBlock);
                    let merge_b = next_id(ops2);
                    let ops3 = ops2.push(TargetOpV::CreateBlock);
                    let has_else = else_branch.len() > 0;
                    let else_b = if has_else {
                        next_id(ops3)
                    } else {
                        merge_b
                    };
                    let ops4 = if has_else {
                        ops3.push(TargetOpV::CreateBlock)
                    } else {
                        ops3
                    };
                    let ops5 = ops4.push(TargetOpV::Branch(c, then_b, else_b)).push(
                        TargetOpV::SwitchToBlock(then_b),
                    ).push(TargetOpV::SealBlock(then_b));
                    match drive_stmts(DriveState { ops: ops5, ..st }, then_branch) {
                        Err(err) => Err(err),
                        Ok(st6) => {
                            let ops7 = if !stmts_end_with_return(then_branch) {
                                st6.ops.push(TargetOpV::Jump(merge_b))
                            } else {
                                st6.ops
                            };
                            let after_else: Result<DriveState, EmitErrorV> = if has_else {
                                let ops8 = ops7.push(TargetOpV::SwitchToBlock(else_b)).push(
                                    TargetOpV::SealBlock(else_b),
                                );
                                match drive_stmts(
                                    DriveState { ops: ops8, ..st6 },
                                    else_branch,
                                ) {
                                    Err(err) => Err(err),
                                    Ok(st9) => Ok(
                                        DriveState {
                                            ops: if !stmts_end_with_return(else_branch) {
                                                st9.ops.push(TargetOpV::Jump(merge_b))
                                            } else {
                                                st9.ops
                                            },
                                            ..st9
                                        },
                                    ),
                                }
                            } else {
                                Ok(DriveState { ops: ops7, ..st6 })
                            };
                            match after_else {
                                Err(err) => Err(err),
                                Ok(st10) => Ok(
                                    DriveState {
                                        ops: st10.ops.push(TargetOpV::SwitchToBlock(merge_b)).push(
                                            TargetOpV::SealBlock(merge_b),
                                        ),
                                        ..st10
                                    },
                                ),
                            }
                        },
                    }
                },
            }
        },
        LirStmtV::While { cond, body } => {
            let header_b = next_id(st.ops);
            let ops1 = st.ops.push(TargetOpV::CreateBlock);
            let body_b = next_id(ops1);
            let ops2 = ops1.push(TargetOpV::CreateBlock);
            let exit_b = next_id(ops2);
            let ops3 = ops2.push(TargetOpV::CreateBlock);
            let loops2 = st.loops.push((exit_b, header_b));
            let ops4 = ops3.push(TargetOpV::Jump(header_b)).push(
                TargetOpV::SwitchToBlock(header_b),
            );
            match drive_expr(ops4, st.vars, cond) {
                Err(err) => Err(err),
                Ok((ops5, c)) => {
                    let ops6 = ops5.push(TargetOpV::Branch(c, body_b, exit_b)).push(
                        TargetOpV::SwitchToBlock(body_b),
                    ).push(TargetOpV::SealBlock(body_b));
                    match drive_stmts(
                        DriveState { ops: ops6, loops: loops2, vars: st.vars },
                        body,
                    ) {
                        Err(err) => Err(err),
                        Ok(st7) => Ok(
                            DriveState {
                                ops: st7.ops.push(TargetOpV::Jump(header_b)).push(
                                    TargetOpV::SealBlock(header_b),
                                ).push(TargetOpV::SwitchToBlock(exit_b)).push(
                                    TargetOpV::SealBlock(exit_b),
                                ),
                                loops: st.loops,
                                vars: st7.vars,
                            },
                        ),
                    }
                },
            }
        },
    }
}

/// Driving a statement list, in order.
pub open spec fn drive_stmts(st: DriveState, ss: Seq<LirStmtV>) -> Result<DriveState, EmitErrorV>
    decreases ss, 2int,
{
    if ss.len() == 0 {
        Ok(st)
    } else {
        match drive_stmt(st, ss[0]) {
            Err(err) => Err(err),
            Ok(st1) => drive_stmts(st1, ss.drop_first()),
        }
    }
}

/// The variable map seeded with a function's parameters.
pub open spec fn params_var_map(
    vars: Map<Seq<char>, LirTypeV>,
    ps: Seq<(Seq<char>, LirTypeV)>,
) -> Map<Seq<char>, LirTypeV>
    decreases ps.len(),
{
    if ps.len() == 0 {
        vars
    } else {
        params_var_map(vars.insert(ps[0].0, ps[0].1), ps.drop_first())
    }
}

/// The parameter-declaration operations, in order.
pub open spec fn params_ops(ops: Seq<TargetOpV>, ps: Seq<(Seq<char>, LirTypeV)>) -> Seq<TargetOpV>
    decreases ps.len(),
{
    if ps.len() == 0 {
        ops
    } else {
        params_ops(ops.push(TargetOpV::AddFunctionParam(ps[0].0, ps[0].1)), ps.drop_first())
    }
}

/// Driving one function body: start, parameters, body statements, an
/// implicit `return` for a void function, end. The variable scope is
/// reset to the parameters.
pub open spec fn drive_function(
    st: DriveState,
    f: crate::lir::LirFunctionDefV,
) -> Result<DriveState, EmitErrorV> {
    let ops1 = params_ops(st.ops.push(TargetOpV::StartFunction(f.name)), f.params).push(
        TargetOpV::StartFunctionBody,
    );
    let vars1 = params_var_map(Map::empty(), f.params);
    match drive_stmts(DriveState { ops: ops1, loops: st.loops, vars: vars1 }, f.body) {
        Err(err) => Err(err),
        Ok(st2) => {
            let ops3 = if f.return_type is Void {
                st2.ops.push(TargetOpV::ReturnVoid)
            } else {
                st2.ops
            };
            Ok(DriveState { ops: ops3.push(TargetOpV::EndFunction), ..st2 })
        },
    }
}

/// The declaration pass: externs are declared, defined functions are
/// predefined so forward and mutually recursive calls resolve.
pub open spec fn declare_ops(
    ops: Seq<TargetOpV>,
    fs: Seq<crate::lir::LirFunctionDefV>,
) -> Seq<TargetOpV>
    decreases fs.len(),
{
    if fs.len() == 0 {
        ops
    } else {
        let f = fs[0];
        let op = if f.is_extern {
            TargetOpV::DeclareExternFunction(f.name, f.params, f.return_type)
        } else {
            TargetOpV::PredefineFunction(f.name, f.params, f.return_type)
        };
        declare_ops(ops.push(op), fs.drop_first())
    }
}

/// The body pass: every defined function driven in order.
pub open spec fn drive_functions(
    st: DriveState,
    fs: Seq<crate::lir::LirFunctionDefV>,
) -> Result<DriveState, EmitErrorV>
    decreases fs.len(),
{
    if fs.len() == 0 {
        Ok(st)
    } else {
        let step = if !fs[0].is_extern {
            drive_function(st, fs[0])
        } else {
            Ok(st)
        };
        match step {
            Err(err) => Err(err),
            Ok(st1) => drive_functions(st1, fs.drop_first()),
        }
    }
}

/// Driving a whole program: program start, the declaration pass, the
/// body pass, program end.
pub open spec fn drive_program(st: DriveState, p: LirProgramV) -> Result<
    DriveState,
    EmitErrorV,
> {
    let ops1 = declare_ops(st.ops.push(TargetOpV::StartProgram), p.functions);
    match drive_functions(DriveState { ops: ops1, ..st }, p.functions) {
        Err(err) => Err(err),
        Ok(st2) => Ok(DriveState { ops: st2.ops.push(TargetOpV::EndProgram), ..st2 }),
    }
}

/// The emission driver. It owns the backend while it drives it; the
/// backend is handed back when driving is done.
pub struct Director<T: Target> {
    target: T,
    loop_stack: Vec<(usize, usize)>,
    vars: StrMap<LirType>,
}

impl<T: Target> Director<T> {
    /// The driver's abstract state.
    pub closed spec fn state(&self) -> DriveState {
        DriveState {
            ops: self.target.ops(),
            loops: self.loop_stack.deep_view(),
            vars: self.vars@,
        }
    }

    /// A driver around a backend, with no loop context and no variables.
    pub fn new(target: T) -> (d: Director<T>)
        ensures
            d.state() == (DriveState {
                ops: target.ops(),
                loops: Seq::<(usize, usize)>::empty(),
                vars: Map::<Seq<char>, LirTypeV>::empty(),
            }),
    {
        let d = Director { target, loop_stack: Vec::new(), vars: StrMap::new() };
        proof {
            assert(d.loop_stack.deep_view() =~= Seq::<(usize, usize)>::empty());
        }
        d
    }

    /// Hands the backend back.
    pub fn into_target(self) -> (t: T)
        ensures
            t.ops() == self.state().ops,
    {
        self.target
    }

    /// Drives a whole program: program start, the declaration pass, one
    /// body pass per defined function, program end.
    #[verifier::loop_isolation(false)]
    pub fn process_program(&mut self, program: &LirProgram) -> (r: Result<(), EmitError>)
        ensures
            match r {
                Ok(_) => drive_program(old(self).state(), lir_program_view(*program)) == Ok::<
                    DriveState,
                    EmitErrorV,
                >(final(self).state()),
                Err(e) => drive_program(old(self).state(), lir_program_view(*program)) == Err::<
                    DriveState,
                    EmitErrorV,
                >(e.deep_view()),
            },
    {
        let ghost pv = lir_program_view(*program);
        let ghost fvs = pv.functions;
        self.target.start_program();
        let ghost ops_start = self.state().ops;

        let n: usize = program.functions.len();
        let mut i: usize = 0;
        proof {
            assert(fvs.skip(0) =~= fvs);
        }
        while i < n
            invariant
                i <= n,
                self.state().loops == old(self).state().loops,
                self.state().vars == old(self).state().vars,
                declare_ops(ops_start, fvs) == declare_ops(
                    self.state().ops,
                    fvs.skip(i as int),
                ),
            decreases n - i,
        {
            proof {
                assert(fvs.skip(i as int)[0] == fvs[i as int]);
                assert(fvs.skip(i as int).drop_first() =~= fvs.skip(i + 1));
                assert(fvs[i as int] == lir_function_def_view(program.functions[i as int]));
            }
            let f = &program.functions[i];
            let ret = f.return_type.duplicate();
            if f.is_extern {
                self.target.declare_extern_function(f.name.as_str(), &f.params, ret);
            } else {
                self.target.predefine_function(f.name.as_str(), &f.params, ret);
            }
            i = i + 1;
        }
        proof {
            assert(fvs.skip(n as int) =~= Seq::<crate::lir::LirFunctionDefV>::empty());
        }

        let ghost st_bodies = self.state();
        let mut i: usize = 0;
        proof {
            assert(fvs.skip(0) =~= fvs);
        }
        while i < n
            invariant
                i <= n,
                drive_functions(st_bodies, fvs) == drive_functions(
                    self.state(),
                    fvs.skip(i as int),
                ),
            decreases n - i,
        {
            proof {
                assert(fvs.skip(i as int)[0] == fvs[i as int]);
                assert(fvs.skip(i as int).drop_first() =~= fvs.skip(i + 1));
                assert(fvs[i as int] == lir_function_def_view(program.functions[i as int]));
            }
            let f = &program.functions[i];
            let ghost st_i = self.state();
            if !f.is_extern {
                match self.compile_function(f) {
                    Ok(_) => {},
                    Err(e) => {
                        proof {
                            assert(drive_functions(st_i, fvs.skip(i as int)) == Err::<
                                DriveState,
                                EmitErrorV,
                            >(e.deep_view()));
                        }
                        return Err(e);
                    },
                }
            }
            i = i + 1;
        }
        proof {
            assert(fvs.skip(n as int) =~= Seq::<crate::lir::LirFunctionDefV>::empty());
        }
        self.target.end_program();
        Ok(())
    }

    /// Drives one function body.
    #[verifier::loop_isolation(false)]
    fn compile_function(&mut self, func: &LirFunctionDef) -> (r: Result<(), EmitError>)
        ensures
            match r {
                Ok(_) => drive_function(old(self).state(), lir_function_def_view(*func)) == Ok::<
                    DriveState,
                    EmitErrorV,
                >(final(self).state()),
                Err(e) => drive_function(old(self).state(), lir_function_def_view(*func)) == Err::<
                    DriveState,
                    EmitErrorV,
                >(e.deep_view()),
            },
    {
        let ghost fv = lir_function_def_view(*func);
        self.target.start_function(func.name.as_str());
        self.vars = StrMap::new();

        let ghost ops_params = self.state().ops;
        let ghost pvs = fv.params;
        let np: usize = func.params.len();
        let mut i: usize = 0;
        proof {
            assert(pvs.skip(0) =~= pvs);
        }
        while i < np
            invariant
                i <= np,
                self.state().loops == old(self).state().loops,
                params_ops(ops_params, pvs) == params_ops(self.state().ops, pvs.skip(i as int)),
                params_var_map(Map::empty(), pvs) == params_var_map(
                    self.state().vars,
                    pvs.skip(i as int),
                ),
            decreases np - i,
        {
            proof {
                assert(pvs.skip(i as int)[0] == pvs[i as int]);
                assert(pvs.skip(i as int).drop_first() =~= pvs.skip(i + 1));
                assert(pvs[i as int] == (
                    func.params[i as int].0@,
                    lir_type_view(func.params[i as int].1),
                ));
            }
            let ty = func.params[i].1.duplicate();
            let ty2 = func.params[i].1.duplicate();
            self.target.add_function_param(func.params[i].0.as_str(), ty);
            self.vars.insert(func.params[i].0.clone(), ty2);
            i = i + 1;
        }
        proof {
            assert(pvs.skip(np as int) =~= Seq::<(Seq<char>, LirTypeV)>::empty());
        }
        self.target.start_function_body();

        match self.compile_statements(&func.body) {
            Ok(_) => {},
            Err(e) => {
                return Err(e);
            },
        }

        let is_void = match &func.return_type {
            LirType::Void => true,
            _ => false,
        };
        if is_void {
            self.target.return_void();
        }
        self.target.end_function();
        Ok(())
    }

    /// Drives a statement list, in order.
    #[verifier::loop_isolation(false)]
    fn compile_statements(&mut self, stmts: &Vec<LirStmt>) -> (r: Result<(), EmitError>)
        ensures
            r is Ok ==> final(self).state().loops == old(self).state().loops,
            match r {
                Ok(_) => drive_stmts(old(self).state(), lir_stmt_seq_view(*stmts)) == Ok::<
                    DriveState,
                    EmitErrorV,
                >(final(self).state()),
                Err(e) => drive_stmts(old(self).state(), lir_stmt_seq_view(*stmts)) == Err::<
                    DriveState,
                    EmitErrorV,
                >(e.deep_view()),
            },
        decreases stmts, 3int,
    {
        let ghost ssv = lir_stmt_seq_view(*stmts);
        let n: usize = stmts.len();
        let mut i: usize = 0;
        proof {
            assert(ssv.skip(0) =~= ssv);
        }
        while i < n
            invariant
                i <= n,
                self.state().loops == old(self).state().loops,
                drive_stmts(old(self).state(), ssv) == drive_stmts(
                    self.state(),
                    ssv.skip(i as int),
                ),
            decreases n - i,
        {
            proof {
                assert(ssv.skip(i as int)[0] == ssv[i as int]);
                assert(ssv.skip(i as int).drop_first() =~= ssv.skip(i + 1));
                assert(ssv[i as int] == lir_stmt_view(stmts@[i as int]));
            }
            let ghost st_i = self.state();
            match self.compile_statement(&stmts[i]) {
                Ok(_) => {},
                Err(e) => {
                    proof {
                        assert(drive_stmts(st_i, ssv.skip(i as int)) == Err::<
                            DriveState,
                            EmitErrorV,
                        >(e.deep_view()));
                    }
                    return Err(e);
                },
            }
            i = i + 1;
        }
        proof {
            assert(ssv.skip(n as int) =~= Seq::<LirStmtV>::empty());
        }
        Ok(())
    }

    /// Drives one statement.
    #[verifier::loop_isolation(false)]
    #[verifier::rlimit(100)]
    fn compile_statement(&mut self, stmt: &LirStmt) -> (r: Result<(), EmitError>)
        ensures
            r is Ok ==> final(self).state().loops == old(self).state().loops,
            match r {
                Ok(_) => drive_stmt(old(self).state(), lir_stmt_view(*stmt)) == Ok::<
                    DriveState,
                    EmitErrorV,
                >(final(self).state()),
                Err(e) => drive_stmt(old(self).state(), lir_stmt_view(*stmt)) == Err::<
                    DriveState,
                    EmitErrorV,
                >(e.deep_view()),
            },
        decreases stmt, 2int,
    {
        let ghost sv = lir_stmt_view(*stmt);
        let ghost st0 = self.state();
        match stmt {
            LirStmt::Return(expr_opt) => {
                match expr_opt {
                    Some(e) => {
                        proof {
                            assert(sv == LirStmtV::Return(Some(lir_expr_view(*e))));
                        }
                        let value = match self.compile_expr(e) {
                            Ok(v) => v,
                            Err(err) => {
                                return Err(err);
                            },
                        };
                        self.target.return_value(value);
                        proof {
                            assert(self.state() =~= drive_stmt(st0, sv)->Ok_0);
                        }
                        Ok(())
                    },
                    None => {
                        self.target.return_void();
                        proof {
                            assert(self.state() =~= drive_stmt(st0, sv)->Ok_0);
                        }
                        Ok(())
                    },
                }
            },
            LirStmt::Let(name, ty, expr_opt) => {
                proof {
                    assert(sv == LirStmtV::Let(
                        name@,
                        lir_type_view(*ty),
                        match expr_opt {
                            Some(ref e) => Some(lir_expr_view(*e)),
                            None => None,
                        },
                    ));
                }
                let value = match expr_opt {
                    Some(e) => {
                        match self.compile_expr(e) {
                            Ok(v) => Some(v),
                            Err(err) => {
                                return Err(err);
                            },
                        }
                    },
                    None => None,
                };
                let ty1 = ty.duplicate();
                let ty2 = ty.duplicate();
                self.target.declare_variable(name.as_str(), ty1, value);
                self.vars.insert(name.clone(), ty2);
                proof {
                    assert(self.state() =~= drive_stmt(st0, sv)->Ok_0);
                }
                Ok(())
            },
            LirStmt::Assign(lhs, rhs) => {
                proof {
                    assert(sv == LirStmtV::Assign(lir_expr_view(*lhs), lir_expr_view(*rhs)));
                }
                let rhs_val = match self.compile_expr(rhs) {
                    Ok(v) => v,
                    Err(err) => {
                        return Err(err);
                    },
                };
                let lhs_addr = match self.compile_address(lhs) {
                    Ok(v) => v,
                    Err(err) => {
                        return Err(err);
                    },
                };
                self.target.store(lhs_addr, rhs_val);
                proof {
                    assert(self.state() =~= drive_stmt(st0, sv)->Ok_0);
                }
                Ok(())
            },
            LirStmt::ExprStmt(e) => {
                let value = match self.compile_expr(e) {
                    Ok(v) => v,
                    Err(err) => {
                        return Err(err);
                    },
                };
                self.target.emit_expr_stmt(value);
                proof {
                    assert(self.state() =~= drive_stmt(st0, sv)->Ok_0);
                }
                Ok(())
            },
            LirStmt::Break => {
                if self.loop_stack.len() > 0 {
                    let exit_block = self.loop_stack[self.loop_stack.len() - 1].0;
                    proof {
                        assert(st0.loops.last() == self.loop_stack.deep_view()[
                            self.loop_stack.len() - 1
                        ]);
                    }
                    self.target.jump(exit_block);
                    proof {
                        assert(self.state() =~= drive_stmt(st0, sv)->Ok_0);
                    }
                    Ok(())
                } else {
                    proof {
                        assert(st0.loops =~= Seq::<(usize, usize)>::empty());
                    }
                    Err(EmitError::BreakOutsideLoop)
                }
            },
            LirStmt::Continue => {
                if self.loop_stack.len() > 0 {
                    let header_block = self.loop_stack[self.loop_stack.len() - 1].1;
                    proof {
                        assert(st0.loops.last() == self.loop_stack.deep_view()[
                            self.loop_stack.len() - 1
                        ]);
                    }
                    self.target.jump(header_block);
                    proof {
                        assert(self.state() =~= drive_stmt(st0, sv)->Ok_0);
                    }
                    Ok(())
                } else {
                    proof {
                        assert(st0.loops =~= Seq::<(usize, usize)>::empty());
                    }
                    Err(EmitError::ContinueOutsideLoop)
                }
            },
            LirStmt::Block(inner) => {
                proof {
                    assert(sv == LirStmtV::Block(lir_stmt_seq_view(*inner)));
                }
                self.compile_statements(inner)
            },
            LirStmt::If { cond, then_branch, else_branch } => {
                proof {
                    assert(sv == LirStmtV::If {
                        cond: lir_expr_view(*cond),
                        then_branch: lir_stmt_seq_view(*then_branch),
                        else_branch: lir_stmt_seq_view(*else_branch),
                    });
                }
                let condition = match self.compile_expr(cond) {
                    Ok(v) => v,
                    Err(err) => {
                        return Err(err);
                    },
                };
                let then_block = self.target.create_block();
                let merge_block = self.target.create_block();
                let has_else = else_branch.len() > 0;
                let else_block = if has_else {
                    self.target.create_block()
                } else {
                    merge_block
                };
                self.target.branch(condition, then_block, else_block);
                self.target.switch_to_block(then_block);
                self.target.seal_block(then_block);
                match self.compile_statements(then_branch) {
                    Ok(_) => {},
                    Err(err) => {
                        return Err(err);
                    },
                }
                if !Self::ends_with_return(then_branch) {
                    self.target.jump(merge_block);
                }
                if has_else {
                    self.target.switch_to_block(else_block);
                    self.target.seal_block(else_block);
                    match self.compile_statements(else_branch) {
                        Ok(_) => {},
                        Err(err) => {
                            return Err(err);
                        },
                    }
                    if !Self::ends_with_return(else_branch) {
                        self.target.jump(merge_block);
                    }
                }
                self.target.switch_to_block(merge_block);
                self.target.seal_block(merge_block);
                proof {
                    assert(self.state() =~= drive_stmt(st0, sv)->Ok_0);
                }
                Ok(())
            },
            LirStmt::While { cond, body } => {
                proof {
                    assert(sv == LirStmtV::While {
                        cond: lir_expr_view(*cond),
                        body: lir_stmt_seq_view(*body),
                    });
                }
                let header_block = self.target.create_block();
                let body_block = self.target.create_block();
                let exit_block = self.target.create_block();
                let ghost loops_before = self.loop_stack.deep_view();
                self.loop_stack.push((exit_block, header_block));
                proof {
                    assert(self.loop_stack.deep_view() =~= loops_before.push(
                        (exit_block, header_block),
                    ));
                }
                self.target.jump(header_block);
                self.target.switch_to_block(header_block);
                let condition = match self.compile_expr(cond) {
                    Ok(v) => v,
                    Err(err) => {
                        return Err(err);
                    },
                };
                self.target.branch(condition, body_block, exit_block);
                self.target.switch_to_block(body_block);
                self.target.seal_block(body_block);
                match self.compile_statements(body) {
                    Ok(_) => {},
                    Err(err) => {
                        return Err(err);
                    },
                }
                self.target.jump(header_block);
                self.target.seal_block(header_block);
                let ghost loops_inner = self.loop_stack.deep_view();
                self.loop_stack.pop();
                proof {
                    assert(self.loop_stack.deep_view() =~= loops_inner.drop_last());
                    assert(loops_inner.drop_last() =~= loops_before);
                }
                self.target.switch_to_block(exit_block);
                self.target.seal_block(exit_block);
                proof {
                    assert(self.state() =~= drive_stmt(st0, sv)->Ok_0);
                }
                Ok(())
            },
        }
    }

    /// Drives one expression, handing back the handle of its value.
    #[verifier::loop_isolation(false)]
    #[verifier::rlimit(100)]
    fn compile_expr(&mut self, expr: &LirExpr) -> (r: Result<usize, EmitError>)
        ensures
            final(self).state().loops == old(self).state().loops,
            final(self).state().vars == old(self).state().vars,
            match r {
                Ok(v) => drive_expr(
                    old(self).state().ops,
                    old(self).state().vars,
                    lir_expr_view(*expr),
                ) == Ok::<(Seq<TargetOpV>, usize), EmitErrorV>((final(self).state().ops, v)),
                Err(e) => drive_expr(
                    old(self).state().ops,
                    old(self).state().vars,
                    lir_expr_view(*expr),
                ) == Err::<(Seq<TargetOpV>, usize), EmitErrorV>(e.deep_view()),
            },
        decreases expr, 0int,
    {
        let ghost ev = lir_expr_view(*expr);
        let ghost ops0 = self.state().ops;
        let ghost vars0 = self.state().vars;
        match expr {
            LirExpr::Lit(lit) => match lit {
                LirLiteral::Int(val) => Ok(self.target.translate_lit_int(*val)),
                LirLiteral::Float(bits) => Ok(self.target.translate_lit_float(*bits)),
                LirLiteral::Bool(val) => Ok(self.target.translate_lit_bool(*val)),
                LirLiteral::Str(s) => {
                    let bytes = process_string_literal(s.as_str());
                    Ok(self.target.translate_lit_string(bytes))
                },
                LirLiteral::Null => Err(EmitError::UnsupportedConstruct),
            },
            LirExpr::Ident(name) => Ok(self.target.translate_ident(name.as_str())),
            LirExpr::Binary(lhs, op, rhs) => {
                let left_val = match self.compile_expr(lhs) {
                    Ok(v) => v,
                    Err(err) => {
                        return Err(err);
                    },
                };
                let right_val = match self.compile_expr(rhs) {
                    Ok(v) => v,
                    Err(err) => {
                        return Err(err);
                    },
                };
                Ok(self.target.translate_binary_op(*op, left_val, right_val))
            },
            LirExpr::Unary(op, operand) => {
                let val = match self.compile_expr(operand) {
                    Ok(v) => v,
                    Err(err) => {
                        return Err(err);
                    },
                };
                Ok(self.target.translate_unary_op(*op, val))
            },
            LirExpr::Call { func_name, args } => {
                let compiled_args = match self.compile_args(args) {
                    Ok(ids) => ids,
                    Err(err) => {
                        return Err(err);
                    },
                };
                Ok(self.target.call_function(func_name.as_str(), compiled_args))
            },
            LirExpr::CallPtr(callee, args) => {
                let callee_val = match self.compile_expr(callee) {
                    Ok(v) => v,
                    Err(err) => {
                        return Err(err);
                    },
                };
                let compiled_args = match self.compile_args(args) {
                    Ok(ids) => ids,
                    Err(err) => {
                        return Err(err);
                    },
                };
                Ok(self.target.call_function_pointer(callee_val, compiled_args))
            },
            LirExpr::Deref(ptr_expr) => {
                if let LirExpr::AddrOf(inner_expr) = &**ptr_expr {
                    proof {
                        assert(ev->Deref_0 == Box::new(lir_expr_view(**ptr_expr)));
                        assert(lir_expr_view(**ptr_expr) == LirExprV::AddrOf(
                            Box::new(lir_expr_view(**inner_expr)),
                        ));
                    }
                    return self.compile_expr(inner_expr);
                }
                proof {
                    assert(!(lir_expr_view(**ptr_expr) is AddrOf));
                }
                let addr = match self.compile_expr(ptr_expr) {
                    Ok(v) => v,
                    Err(err) => {
                        return Err(err);
                    },
                };
                Ok(self.target.load(addr))
            },
            LirExpr::AddrOf(inner_expr) => {
                let inner_ty = self.infer_expr_type(inner_expr);
                let is_array = match &inner_ty {
                    LirType::Array(_, _) => true,
                    _ => false,
                };
                if is_array {
                    self.compile_expr(inner_expr)
                } else {
                    self.compile_address(inner_expr)
                }
            },
            LirExpr::Index(base, index) => {
                let base_ptr = match self.compile_expr(base) {
                    Ok(v) => v,
                    Err(err) => {
                        return Err(err);
                    },
                };
                let index_val = match self.compile_expr(index) {
                    Ok(v) => v,
                    Err(err) => {
                        return Err(err);
                    },
                };
                Ok(self.target.translate_index(base_ptr, index_val))
            },
            LirExpr::Cast(inner, target_ty) => {
                let val = match self.compile_expr(inner) {
                    Ok(v) => v,
                    Err(err) => {
                        return Err(err);
                    },
                };
                Ok(self.target.translate_cast(val, target_ty.duplicate()))
            },
            LirExpr::ArrayInit(items) => {
                proof {
                    assert(ev == LirExprV::ArrayInit(lir_expr_seq_view(*items)));
                }
                let element_type = if items.len() > 0 {
                    self.infer_expr_type(&items[0])
                } else {
                    LirType::I64
                };
                let compiled_vals = match self.compile_args(items) {
                    Ok(ids) => ids,
                    Err(err) => {
                        return Err(err);
                    },
                };
                Ok(self.target.translate_lit_array(compiled_vals, element_type))
            },
            LirExpr::MemberAccess(_, _) | LirExpr::StructInit { .. } | LirExpr::EnumInit { .. }
            | LirExpr::Ternary(_, _, _) | LirExpr::SizeOf(_) => {
                Err(EmitError::UnsupportedConstruct)
            },
        }
    }

    /// Drives an argument list, left to right.
    #[verifier::loop_isolation(false)]
    fn compile_args(&mut self, exprs: &Vec<LirExpr>) -> (r: Result<Vec<usize>, EmitError>)
        ensures
            final(self).state().loops == old(self).state().loops,
            final(self).state().vars == old(self).state().vars,
            match r {
                Ok(ids) => drive_exprs(
                    old(self).state().ops,
                    old(self).state().vars,
                    lir_expr_seq_view(*exprs),
                ) == Ok::<(Seq<TargetOpV>, Seq<usize>), EmitErrorV>((final(self).state().ops, ids@)),
                Err(e) => drive_exprs(
                    old(self).state().ops,
                    old(self).state().vars,
                    lir_expr_seq_view(*exprs),
                ) == Err::<(Seq<TargetOpV>, Seq<usize>), EmitErrorV>(e.deep_view()),
            },
        decreases exprs, 0int,
    {
        let ghost evs = lir_expr_seq_view(*exprs);
        let mut out: Vec<usize> = Vec::new();
        let n: usize = exprs.len();
        let mut i: usize = 0;
        proof {
            assert(evs.skip(0) =~= evs);
        }
        while i < n
            invariant
                i <= n,
                self.state().loops == old(self).state().loops,
                self.state().vars == old(self).state().vars,
                drive_exprs(old(self).state().ops, old(self).state().vars, evs) == (match
                    drive_exprs(self.state().ops, self.state().vars, evs.skip(i as int)) {
                    Ok((ops2, ids)) => Ok::<(Seq<TargetOpV>, Seq<usize>), EmitErrorV>(
                        (ops2, out@ + ids),
                    ),
                    Err(err) => Err(err),
                }),
            decreases n - i,
        {
            proof {
                assert(evs.skip(i as int)[0] == evs[i as int]);
                assert(evs.skip(i as int).drop_first() =~= evs.skip(i + 1));
                assert(evs[i as int] == lir_expr_view(exprs@[i as int]));
            }
            let ghost out_before = out@;
            let ghost st_i = self.state();
            match self.compile_expr(&exprs[i]) {
                Ok(v) => {
                    out.push(v);
                    proof {
                        if drive_exprs(self.state().ops, self.state().vars, evs.skip(i + 1))
                            is Ok {
                            let ids = drive_exprs(
                                self.state().ops,
                                self.state().vars,
                                evs.skip(i + 1),
                            )->Ok_0.1;
                            assert(out_before + (seq![v] + ids) =~= out@ + ids);
                        }
                    }
                },
                Err(err) => {
                    proof {
                        assert(drive_exprs(st_i.ops, st_i.vars, evs.skip(i as int)) == Err::<
                            (Seq<TargetOpV>, Seq<usize>),
                            EmitErrorV,
                        >(err.deep_view()));
                    }
                    return Err(err);
                },
            }
            i = i + 1;
        }
        proof {
            assert(evs.skip(n as int) =~= Seq::<LirExprV>::empty());
            assert(out@ + Seq::<usize>::empty() =~= out@);
        }
        Ok(out)
    }

    /// Drives an expression as an address; only identifiers, dereferences
    /// and indexing denote storage.
    #[verifier::loop_isolation(false)]
    fn compile_address(&mut self, expr: &LirExpr) -> (r: Result<usize, EmitError>)
        ensures
            final(self).state().loops == old(self).state().loops,
            final(self).state().vars == old(self).state().vars,
            match r {
                Ok(v) => drive_address(
                    old(self).state().ops,
                    old(self).state().vars,
                    lir_expr_view(*expr),
                ) == Ok::<(Seq<TargetOpV>, usize), EmitErrorV>((final(self).state().ops, v)),
                Err(e) => drive_address(
                    old(self).state().ops,
                    old(self).state().vars,
                    lir_expr_view(*expr),
                ) == Err::<(Seq<TargetOpV>, usize), EmitErrorV>(e.deep_view()),
            },
        decreases expr, 1int,
    {
        match expr {
            LirExpr::Ident(name) => Ok(self.target.get_variable_address(name.as_str())),
            LirExpr::Deref(ptr_expr) => self.compile_expr(ptr_expr),
            LirExpr::Index(_, _) => {
                let lvalue = match self.compile_expr(expr) {
                    Ok(v) => v,
                    Err(err) => {
                        return Err(err);
                    },
                };
                Ok(self.target.get_address_of_lvalue(lvalue))
            },
            _ => Err(EmitError::NotAnLValue),
        }
    }

    /// Best-effort local type inference for shape decisions.
    #[verifier::loop_isolation(false)]
    fn infer_expr_type(&self, expr: &LirExpr) -> (t: LirType)
        ensures
            lir_type_view(t) == infer_type(self.state().vars, lir_expr_view(*expr)),
        decreases expr,
    {
        let ghost ev = lir_expr_view(*expr);
        match expr {
            LirExpr::Lit(lit) => {
                let r = match lit {
                    LirLiteral::Float(_) => LirType::F64,
                    LirLiteral::Bool(_) => LirType::Bool,
                    LirLiteral::Int(_) => LirType::I64,
                    LirLiteral::Str(_) => LirType::Pointer(Box::new(LirType::U8)),
                    LirLiteral::Null => LirType::I64,
                };
                proof {
                    assert(ev == LirExprV::Lit(crate::lir::lir_literal_view(*lit)));
                    assert(lir_type_view(r) == infer_type(self.state().vars, ev));
                }
                r
            },
            LirExpr::ArrayInit(items) => {
                proof {
                    assert(ev == LirExprV::ArrayInit(lir_expr_seq_view(*items)));
                }
                if items.len() > 0 {
                    let t0 = self.infer_expr_type(&items[0]);
                    let r = LirType::Array(Box::new(t0), items.len());
                    proof {
                        assert(lir_expr_seq_view(*items)[0] == lir_expr_view(items@[0]));
                        assert(lir_type_view(r) == infer_type(self.state().vars, ev));
                    }
                    r
                } else {
                    let r = LirType::Array(Box::new(LirType::I64), 0);
                    proof {
                        assert(lir_expr_seq_view(*items).len() == 0);
                        assert(lir_type_view(LirType::I64) == LirTypeV::I64);
                        assert(lir_type_view(r) =~= infer_type(self.state().vars, ev));
                    }
                    r
                }
            },
            LirExpr::Binary(_, op, _) => {
                let r = match op {
                    BinaryOp::Eq | BinaryOp::Neq | BinaryOp::Lt | BinaryOp::Gt | BinaryOp::Lte
                        | BinaryOp::Gte | BinaryOp::And | BinaryOp::Or => LirType::Bool,
                    _ => LirType::I64,
                };
                proof {
                    assert(lir_type_view(r) == infer_type(self.state().vars, ev));
                }
                r
            },
            LirExpr::Ident(name) => {
                let r = match self.vars.get(name.as_str()) {
                    Some(ty) => ty.duplicate(),
                    None => LirType::I64,
                };
                proof {
                    assert(ev == LirExprV::Ident(name@));
                    assert(lir_type_view(r) == infer_type(self.state().vars, ev));
                }
                r
            },
            LirExpr::Unary(op, _) => {
                let r = match op {
                    UnaryOp::Not => LirType::Bool,
                    _ => LirType::I64,
                };
                proof {
                    assert(lir_type_view(r) == infer_type(self.state().vars, ev));
                }
                r
            },
            LirExpr::AddrOf(inner) => {
                let r = LirType::Pointer(Box::new(self.infer_expr_type(inner)));
                proof {
                    assert(lir_type_view(r) == infer_type(self.state().vars, ev));
                }
                r
            },
            LirExpr::Deref(inner) => {
                let t = self.infer_expr_type(inner);
                match t {
                    LirType::Pointer(inner_t) => {
                        proof {
                            assert(infer_type(self.state().vars, lir_expr_view(**inner))
                                == LirTypeV::Pointer(Box::new(lir_type_view(*inner_t))));
                        }
                        *inner_t
                    },
                    other => {
                        proof {
                            assert(!(lir_type_view(other) is Pointer));
                        }
                        LirType::I64
                    },
                }
            },
            LirExpr::Index(base, _) => {
                let t = self.infer_expr_type(base);
                match t {
                    LirType::Array(inner_t, n) => {
                        proof {
                            assert(infer_type(self.state().vars, lir_expr_view(**base))
                                == LirTypeV::Array(Box::new(lir_type_view(*inner_t)), n));
                        }
                        *inner_t
                    },
                    other => {
                        proof {
                            assert(!(lir_type_view(other) is Array));
                        }
                        LirType::I64
                    },
                }
            },
            LirExpr::Cast(_, ty) => {
                let r = ty.duplicate();
                proof {
                    assert(lir_type_view(r) == infer_type(self.state().vars, ev));
                }
                r
            },
            LirExpr::Call { .. } | LirExpr::CallPtr(_, _) | LirExpr::MemberAccess(_, _)
            | LirExpr::StructInit { .. } | LirExpr::EnumInit { .. } | LirExpr::Ternary(_, _, _)
            | LirExpr::SizeOf(_) => {
                let r = LirType::I64;
                proof {
                    assert(lir_type_view(r) == infer_type(self.state().vars, ev));
                }
                r
            },
        }
    }

    /// Whether a statement list ends in a `return`.
    fn ends_with_return(stmts: &Vec<LirStmt>) -> (b: bool)
        ensures
            b == stmts_end_with_return(lir_stmt_seq_view(*stmts)),
    {
        if stmts.len() == 0 {
            return false;
        }
        let is_ret = match &stmts[stmts.len() - 1] {
            LirStmt::Return(_) => true,
            _ => false,
        };
        proof {
            assert(lir_stmt_seq_view(*stmts).last() == lir_stmt_view(
                stmts@[stmts@.len() - 1],
            ));
        }
        is_ret
    }
}

/// The characters of a string, collected in order.
fn str_chars(s: &str) -> (r: Vec<char>)
    ensures
        r@ == s@,
{
    broadcast use vstd::string::next_postcondition;

    let mut out: Vec<char> = Vec::new();
    let mut it = s.chars();
    proof {
        vstd::string::axiom_spec_iter(s);
    }
    loop
        invariant_except_break
            vstd::std_specs::iter::IteratorSpec::remaining(&it) =~= s@.skip(out@.len() as int),
            out@.len() <= s@.len(),
            out@ =~= s@.take(out@.len() as int),
        ensures
            out@ =~= s@,
        decreases s@.len() - out@.len(),
    {
        let ghost before = it;
        match it.next() {
            Some(c) => {
                proof {
                    assert(c == s@[out@.len() as int]);
                }
                out.push(c);
            },
            None => {
                proof {
                    assert(vstd::std_specs::iter::IteratorSpec::remaining(&before).len() == 0);
                }
                break;
            },
        }
    }
    out
}

/// The bytes of a string literal: surrounding quotes stripped, escapes
/// decoded, a terminating NUL appended.
#[verifier::loop_isolation(false)]
#[verifier::rlimit(100)]
pub fn process_string_literal(s: &str) -> (r: Vec<u8>)
    ensures
        r@ == decode_str(s@),
{
    let cs = str_chars(s);
    let n: usize = cs.len();
    let (start, end): (usize, usize) = if n >= 2 && cs[0] == '"' && cs[n - 1] == '"' {
        (1, n - 1)
    } else {
        (0, n)
    };
    let ghost inner = cs@.subrange(start as int, end as int);
    proof {
        if s@.len() >= 2 && s@[0] == '"' && s@[s@.len() - 1] == '"' {
            assert(inner =~= s@.subrange(1, s@.len() - 1));
        } else {
            assert(inner =~= s@);
        }
    }
    let mut out: Vec<u8> = Vec::new();
    let mut i: usize = start;
    proof {
        assert(inner.skip(0) =~= inner);
    }
    while i < end
        invariant
            start <= i <= end,
            decode_str_chars(inner) == out@ + decode_str_chars(inner.skip(i - start)),
        decreases end - i,
    {
        let ghost rest = inner.skip(i - start);
        proof {
            assert(rest[0] == cs@[i as int]);
        }
        let ghost out_before = out@;
        if cs[i] == '\\' {
            if i + 1 < end {
                proof {
                    assert(rest[1] == cs@[i + 1]);
                    assert(rest.skip(2) =~= inner.skip(i + 2 - start));
                }
                let e = cs[i + 1];
                if e == 'n' {
                    out.push(10u8);
                } else if e == 'r' {
                    out.push(13u8);
                } else if e == 't' {
                    out.push(9u8);
                } else if e == '\\' {
                    out.push(92u8);
                } else if e == '"' {
                    out.push(34u8);
                } else if e == '0' {
                    out.push(0u8);
                } else {
                    out.push(92u8);
                    out.push(e as u8);
                }
                proof {
                    assert(decode_str_chars(inner) =~= out@ + decode_str_chars(
                        inner.skip(i + 2 - start),
                    ));
                }
                i = i + 2;
            } else {
                proof {
                    assert(rest.len() == 1);
                }
                out.push(92u8);
                proof {
                    assert(inner.skip(end - start) =~= Seq::<char>::empty());
                    assert(decode_str_chars(Seq::<char>::empty()) =~= Seq::<u8>::empty());
                    assert(decode_str_chars(inner) =~= out@ + decode_str_chars(
                        inner.skip(i + 1 - start),
                    ));
                }
                i = i + 1;
            }
        } else {
            let c = cs[i];
            out.push(c as u8);
            proof {
                assert(rest.skip(1) =~= inner.skip(i + 1 - start));
                assert(decode_str_chars(inner) =~= out@ + decode_str_chars(
                    inner.skip(i + 1 - start),
                ));
            }
            i = i + 1;
        }
    }
    proof {
        assert(inner.skip(end - start) =~= Seq::<char>::empty());
    }
    out.push(0u8);
    proof {
        assert(out@ =~= decode_str(s@));
    }
    out
}

/// Driving an expression only appends, and appends no block operations:
/// no block is created, sealed, jumped to or branched to while a value is
/// being computed.
pub proof fn lemma_drive_expr_no_block_ops(
    ops: Seq<TargetOpV>,
    vars: Map<Seq<char>, LirTypeV>,
    e: LirExprV,
)
    ensures
        drive_expr(ops, vars, e) is Ok ==> {
            let ops1 = drive_expr(ops, vars, e)->Ok_0.0;
            &&& ops1.len() >= ops.len()
            &&& forall|j: int| 0 <= j < ops.len() ==> (#[trigger] ops1[j]) == ops[j]
            &&& forall|j: int|
                ops.len() <= j < ops1.len() ==> !((#[trigger] ops1[j]) is SealBlock) && !(ops1[j]
                    is Jump) && !(ops1[j] is CreateBlock) && !(ops1[j] is Branch) && !(ops1[j]
                    is SwitchToBlock)
        },
    decreases e, 0int,
{
    broadcast use vstd::seq_lib::group_seq_properties;

    match e {
        LirExprV::Lit(_) => {},
        LirExprV::ArrayInit(items) => {
            lemma_drive_exprs_no_block_ops(ops, vars, items);
        },
        LirExprV::Ident(_) => {},
        LirExprV::Binary(lhs, _, rhs) => {
            lemma_drive_expr_no_block_ops(ops, vars, *lhs);
            if drive_expr(ops, vars, *lhs) is Ok {
                lemma_drive_expr_no_block_ops(drive_expr(ops, vars, *lhs)->Ok_0.0, vars, *rhs);
            }
        },
        LirExprV::Unary(_, operand) => {
            lemma_drive_expr_no_block_ops(ops, vars, *operand);
        },
        LirExprV::Call { func_name, args } => {
            lemma_drive_exprs_no_block_ops(ops, vars, args);
        },
        LirExprV::CallPtr(callee, args) => {
            lemma_drive_expr_no_block_ops(ops, vars, *callee);
            if drive_expr(ops, vars, *callee) is Ok {
                lemma_drive_exprs_no_block_ops(drive_expr(ops, vars, *callee)->Ok_0.0, vars, args);
            }
        },
        LirExprV::Deref(inner) => {
            match *inner {
                LirExprV::AddrOf(x) => {
                    lemma_drive_expr_no_block_ops(ops, vars, *x);
                },
                _ => {
                    lemma_drive_expr_no_block_ops(ops, vars, *inner);
                },
            }
        },
        LirExprV::AddrOf(inner) => {
            if infer_type(vars, *inner) is Array {
                lemma_drive_expr_no_block_ops(ops, vars, *inner);
            } else {
                lemma_drive_address_no_block_ops(ops, vars, *inner);
            }
        },
        LirExprV::Index(base, idx) => {
            lemma_drive_expr_no_block_ops(ops, vars, *base);
            if drive_expr(ops, vars, *base) is Ok {
                lemma_drive_expr_no_block_ops(drive_expr(ops, vars, *base)->Ok_0.0, vars, *idx);
            }
        },
        LirExprV::Cast(inner, _) => {
            lemma_drive_expr_no_block_ops(ops, vars, *inner);
        },
        _ => {},
    }
}

proof fn lemma_drive_exprs_no_block_ops(
    ops: Seq<TargetOpV>,
    vars: Map<Seq<char>, LirTypeV>,
    es: Seq<LirExprV>,
)
    ensures
        drive_exprs(ops, vars, es) is Ok ==> {
            let ops1 = drive_exprs(ops, vars, es)->Ok_0.0;
            &&& ops1.len() >= ops.len()
            &&& forall|j: int| 0 <= j < ops.len() ==> (#[trigger] ops1[j]) == ops[j]
            &&& forall|j: int|
                ops.len() <= j < ops1.len() ==> !((#[trigger] ops1[j]) is SealBlock) && !(ops1[j]
                    is Jump) && !(ops1[j] is CreateBlock) && !(ops1[j] is Branch) && !(ops1[j]
                    is SwitchToBlock)
        },
    decreases es, 0int,
{
    broadcast use vstd::seq_lib::group_seq_properties;

    if es.len() > 0 {
        lemma_drive_expr_no_block_ops(ops, vars, es[0]);
        if drive_expr(ops, vars, es[0]) is Ok {
            lemma_drive_exprs_no_block_ops(
                drive_expr(ops, vars, es[0])->Ok_0.0,
                vars,
                es.drop_first(),
            );
        }
    }
}

proof fn lemma_drive_address_no_block_ops(
    ops: Seq<TargetOpV>,
    vars: Map<Seq<char>, LirTypeV>,
    e: LirExprV,
)
    ensures
        drive_address(ops, vars, e) is Ok ==> {
            let ops1 = drive_address(ops, vars, e)->Ok_0.0;
            &&& ops1.len() >= ops.len()
            &&& forall|j: int| 0 <= j < ops.len() ==> (#[trigger] ops1[j]) == ops[j]
            &&& forall|j: int|
                ops.len() <= j < ops1.len() ==> !((#[trigger] ops1[j]) is SealBlock) && !(ops1[j]
                    is Jump) && !(ops1[j] is CreateBlock) && !(ops1[j] is Branch) && !(ops1[j]
                    is SwitchToBlock)
        },
    decreases e, 1int,
{
    broadcast use vstd::seq_lib::group_seq_properties;

    match e {
        LirExprV::Ident(_) => {},
        LirExprV::Deref(inner) => {
            lemma_drive_expr_no_block_ops(ops, vars, *inner);
        },
        LirExprV::Index(_, _) => {
            lemma_drive_expr_no_block_ops(ops, vars, e);
        },
        _ => {},
    }
}

/// Driving a statement only appends, and every block it seals is a block
/// it created itself: a seal operation always names a block at or past
/// the position where driving began.
pub proof fn lemma_drive_stmt_seals_fresh(st: DriveState, s: LirStmtV)
    ensures
        drive_stmt(st, s) is Ok ==> {
            let st2 = drive_stmt(st, s)->Ok_0;
            &&& st2.ops.len() >= st.ops.len()
            &&& forall|j: int| 0 <= j < st.ops.len() ==> (#[trigger] st2.ops[j]) == st.ops[j]
            &&& st2.ops.len() <= usize::MAX ==> forall|j: int|
                st.ops.len() <= j < st2.ops.len() && (#[trigger] st2.ops[j]) is SealBlock
                    ==> st2.ops[j]->SealBlock_0 as int >= st.ops.len()
        },
    decreases s, 1int,
{
    match s {
        LirStmtV::Return(e_opt) => {
            match e_opt {
                Some(e) => {
                    lemma_drive_expr_no_block_ops(st.ops, st.vars, e);
                },
                None => {},
            }
        },
        LirStmtV::Let(name, ty, init) => {
            match init {
                Some(e) => {
                    lemma_drive_expr_no_block_ops(st.ops, st.vars, e);
                },
                None => {},
            }
        },
        LirStmtV::Assign(lhs, rhs) => {
            lemma_drive_expr_no_block_ops(st.ops, st.vars, rhs);
            if drive_expr(st.ops, st.vars, rhs) is Ok {
                lemma_drive_address_no_block_ops(
                    drive_expr(st.ops, st.vars, rhs)->Ok_0.0,
                    st.vars,
                    lhs,
                );
            }
        },
        LirStmtV::ExprStmt(e) => {
            lemma_drive_expr_no_block_ops(st.ops, st.vars, e);
        },
        LirStmtV::Break => {},
        LirStmtV::Continue => {},
        LirStmtV::Block(ss) => {
            lemma_drive_stmts_seals_fresh(st, ss);
        },
        LirStmtV::If { cond, then_branch, else_branch } => {
            lemma_drive_expr_no_block_ops(st.ops, st.vars, cond);
            if drive_expr(st.ops, st.vars, cond) is Ok {
                let (ops1, c) = drive_expr(st.ops, st.vars, cond)->Ok_0;
                let ops2 = ops1.push(TargetOpV::CreateBlock);
                let ops3 = ops2.push(TargetOpV::CreateBlock);
                let has_else = else_branch.len() > 0;
                let then_b = next_id(ops1);
                let merge_b = next_id(ops2);
                let else_b = if has_else {
                    next_id(ops3)
                } else {
                    merge_b
                };
                let ops4 = if has_else {
                    ops3.push(TargetOpV::CreateBlock)
                } else {
                    ops3
                };
                let ops5 = ops4.push(TargetOpV::Branch(c, then_b, else_b)).push(
                    TargetOpV::SwitchToBlock(then_b),
                ).push(TargetOpV::SealBlock(then_b));
                lemma_drive_stmts_seals_fresh(DriveState { ops: ops5, ..st }, then_branch);
                if drive_stmts(DriveState { ops: ops5, ..st }, then_branch) is Ok {
                    let st6 = drive_stmts(DriveState { ops: ops5, ..st }, then_branch)->Ok_0;
                    let ops7 = if !stmts_end_with_return(then_branch) {
                        st6.ops.push(TargetOpV::Jump(merge_b))
                    } else {
                        st6.ops
                    };
                    if has_else {
                        let ops8 = ops7.push(TargetOpV::SwitchToBlock(else_b)).push(
                            TargetOpV::SealBlock(else_b),
                        );
                        lemma_drive_stmts_seals_fresh(DriveState { ops: ops8, ..st6 }, else_branch);
                    }
                }
            }
        },
        LirStmtV::While { cond, body } => {
            let header_b = next_id(st.ops);
            let ops1 = st.ops.push(TargetOpV::CreateBlock);
            let body_b = next_id(ops1);
            let ops2 = ops1.push(TargetOpV::CreateBlock);
            let exit_b = next_id(ops2);
            let ops3 = ops2.push(TargetOpV::CreateBlock);
            let loops2 = st.loops.push((exit_b, header_b));
            let ops4 = ops3.push(TargetOpV::Jump(header_b)).push(
                TargetOpV::SwitchToBlock(header_b),
            );
            lemma_drive_expr_no_block_ops(ops4, st.vars, cond);
            if drive_expr(ops4, st.vars, cond) is Ok {
                let (ops5, c) = drive_expr(ops4, st.vars, cond)->Ok_0;
                let ops6 = ops5.push(TargetOpV::Branch(c, body_b, exit_b)).push(
                    TargetOpV::SwitchToBlock(body_b),
                ).push(TargetOpV::SealBlock(body_b));
                lemma_drive_stmts_seals_fresh(
                    DriveState { ops: ops6, loops: loops2, vars: st.vars },
                    body,
                );
            }
        },
    }
}

/// The statement-list form of `lemma_drive_stmt_seals_fresh`.
pub proof fn lemma_drive_stmts_seals_fresh(st: DriveState, ss: Seq<LirStmtV>)
    ensures
        drive_stmts(st, ss) is Ok ==> {
            let st2 = drive_stmts(st, ss)->Ok_0;
            &&& st2.ops.len() >= st.ops.len()
            &&& forall|j: int| 0 <= j < st.ops.len() ==> (#[trigger] st2.ops[j]) == st.ops[j]
            &&& st2.ops.len() <= usize::MAX ==> forall|j: int|
                st.ops.len() <= j < st2.ops.len() && (#[trigger] st2.ops[j]) is SealBlock
                    ==> st2.ops[j]->SealBlock_0 as int >= st.ops.len()
        },
    decreases ss, 2int,
{
    if ss.len() > 0 {
        lemma_drive_stmt_seals_fresh(st, ss[0]);
        if drive_stmt(st, ss[0]) is Ok {
            lemma_drive_stmts_seals_fresh(drive_stmt(st, ss[0])->Ok_0, ss.drop_first());
        }
    }
}

/// Block-sealing order for `if (c) { return 1; } else { x = 2; }`: the
/// driver seals the blocks in the order then, else, merge; it emits no
/// jump from the then block to the merge block, since that arm ends in a
/// return; and it does emit the jump from the else block to the merge
/// block. The whole emission is pinned down, operation by operation.
pub proof fn lemma_if_sealing_order(
    st: DriveState,
    c: LirExprV,
    ops1: Seq<TargetOpV>,
    cv: usize,
    x: Seq<char>,
)
    requires
        drive_expr(st.ops, st.vars, c) == Ok::<(Seq<TargetOpV>, usize), EmitErrorV>((ops1, cv)),
        ops1.len() + 16 <= usize::MAX,
    ensures
        ({
            let then_branch = seq![
                LirStmtV::Return(Some(LirExprV::Lit(LirLiteralV::Int(1)))),
            ];
            let else_branch = seq![
                LirStmtV::Assign(LirExprV::Ident(x), LirExprV::Lit(LirLiteralV::Int(2))),
            ];
            let s = LirStmtV::If { cond: c, then_branch, else_branch };
            let t = next_id(ops1);
            let m = (ops1.len() + 1) as usize;
            let e = (ops1.len() + 2) as usize;
            &&& drive_stmt(st, s) is Ok
            &&& drive_stmt(st, s)->Ok_0.ops =~= ops1 + seq![
                TargetOpV::CreateBlock,
                TargetOpV::CreateBlock,
                TargetOpV::CreateBlock,
                TargetOpV::Branch(cv, t, e),
                TargetOpV::SwitchToBlock(t),
                TargetOpV::SealBlock(t),
                TargetOpV::LitInt(1),
                TargetOpV::ReturnValue((ops1.len() + 6) as usize),
                TargetOpV::SwitchToBlock(e),
                TargetOpV::SealBlock(e),
                TargetOpV::LitInt(2),
                TargetOpV::GetVariableAddress(x),
                TargetOpV::Store((ops1.len() + 11) as usize, (ops1.len() + 10) as usize),
                TargetOpV::Jump(m),
                TargetOpV::SwitchToBlock(m),
                TargetOpV::SealBlock(m),
            ]
        }),
{
    let then_branch = seq![LirStmtV::Return(Some(LirExprV::Lit(LirLiteralV::Int(1))))];
    let else_branch = seq![
        LirStmtV::Assign(LirExprV::Ident(x), LirExprV::Lit(LirLiteralV::Int(2))),
    ];
    let s = LirStmtV::If { cond: c, then_branch, else_branch };
    let t = next_id(ops1);
    let ops2 = ops1.push(TargetOpV::CreateBlock);
    let m = next_id(ops2);
    let ops3 = ops2.push(TargetOpV::CreateBlock);
    let e = next_id(ops3);
    let ops4 = ops3.push(TargetOpV::CreateBlock);
    let ops5 = ops4.push(TargetOpV::Branch(cv, t, e)).push(TargetOpV::SwitchToBlock(t)).push(
        TargetOpV::SealBlock(t),
    );
    let st5 = DriveState { ops: ops5, ..st };

    // The then arm: the literal, the return, and no jump to merge.
    let ops_lit1 = ops5.push(TargetOpV::LitInt(1));
    let v1 = next_id(ops5);
    assert(drive_expr(ops5, st.vars, LirExprV::Lit(LirLiteralV::Int(1)))
        == Ok::<(Seq<TargetOpV>, usize), EmitErrorV>((ops_lit1, v1)));
    let st_then = DriveState { ops: ops_lit1.push(TargetOpV::ReturnValue(v1)), ..st };
    assert(drive_stmt(st5, then_branch[0]) == Ok::<DriveState, EmitErrorV>(st_then));
    assert(then_branch.drop_first() =~= Seq::<LirStmtV>::empty());
    assert(drive_stmts(st_then, Seq::<LirStmtV>::empty()) == Ok::<DriveState, EmitErrorV>(
        st_then,
    ));
    assert(drive_stmts(st5, then_branch) == Ok::<DriveState, EmitErrorV>(st_then));
    assert(stmts_end_with_return(then_branch));

    // The else arm: the literal, the variable address, the store, and the
    // jump to merge.
    let ops8 = st_then.ops.push(TargetOpV::SwitchToBlock(e)).push(TargetOpV::SealBlock(e));
    let st8 = DriveState { ops: ops8, ..st_then };
    let ops_lit2 = ops8.push(TargetOpV::LitInt(2));
    let v2 = next_id(ops8);
    assert(drive_expr(ops8, st.vars, LirExprV::Lit(LirLiteralV::Int(2)))
        == Ok::<(Seq<TargetOpV>, usize), EmitErrorV>((ops_lit2, v2)));
    let ops_addr = ops_lit2.push(TargetOpV::GetVariableAddress(x));
    let a = next_id(ops_lit2);
    assert(drive_address(ops_lit2, st.vars, LirExprV::Ident(x))
        == Ok::<(Seq<TargetOpV>, usize), EmitErrorV>((ops_addr, a)));
    let st_else = DriveState { ops: ops_addr.push(TargetOpV::Store(a, v2)), ..st8 };
    assert(drive_stmt(st8, else_branch[0]) == Ok::<DriveState, EmitErrorV>(st_else));
    assert(else_branch.drop_first() =~= Seq::<LirStmtV>::empty());
    assert(drive_stmts(st_else, Seq::<LirStmtV>::empty()) == Ok::<DriveState, EmitErrorV>(
        st_else,
    ));
    assert(drive_stmts(st8, else_branch) == Ok::<DriveState, EmitErrorV>(st_else));
    assert(!stmts_end_with_return(else_branch));

    assert(drive_stmt(st, s) is Ok);
    assert(drive_stmt(st, s)->Ok_0.ops =~= ops1 + seq![
        TargetOpV::CreateBlock,
        TargetOpV::CreateBlock,
        TargetOpV::CreateBlock,
        TargetOpV::Branch(cv, t, e),
        TargetOpV::SwitchToBlock(t),
        TargetOpV::SealBlock(t),
        TargetOpV::LitInt(1),
        TargetOpV::ReturnValue((ops1.len() + 6) as usize),
        TargetOpV::SwitchToBlock(e),
        TargetOpV::SealBlock(e),
        TargetOpV::LitInt(2),
        TargetOpV::GetVariableAddress(x),
        TargetOpV::Store((ops1.len() + 11) as usize, (ops1.len() + 10) as usize),
        TargetOpV::Jump(m),
        TargetOpV::SwitchToBlock(m),
        TargetOpV::SealBlock(m),
    ]);
}

/// Loop back-edge ordering for `while (c) { ... }`: the header block is
/// created first and jumped to before any condition operation is
/// emitted, and it is sealed only after the loop body's back-edge jump —
/// no earlier operation seals the header.
pub proof fn lemma_while_backedge_order(st: DriveState, c: LirExprV, body: Seq<LirStmtV>)
    requires
        drive_stmt(st, LirStmtV::While { cond: c, body }) is Ok,
        drive_stmt(st, LirStmtV::While { cond: c, body })->Ok_0.ops.len() <= usize::MAX,
    ensures
        ({
            let st2 = drive_stmt(st, LirStmtV::While { cond: c, body })->Ok_0;
            let n0 = st.ops.len() as int;
            let h = next_id(st.ops);
            let len = st2.ops.len() as int;
            &&& len >= n0 + 10
            &&& st2.ops[n0] == TargetOpV::CreateBlock
            &&& h as int == n0
            // The header is jumped to before its condition is known:
            // the jump comes right after the three blocks are created,
            // and every condition operation sits after the switch that
            // follows it.
            &&& st2.ops[n0 + 3] == TargetOpV::Jump(h)
            &&& st2.ops[n0 + 4] == TargetOpV::SwitchToBlock(h)
            // The back-edge jump, and the seal right after it.
            &&& st2.ops[len - 4] == TargetOpV::Jump(h)
            &&& st2.ops[len - 3] == TargetOpV::SealBlock(h)
            // No operation before that seals the header.
            &&& forall|j: int|
                n0 <= j < len - 3 ==> (#[trigger] st2.ops[j]) != TargetOpV::SealBlock(h)
        }),
{
    let s = LirStmtV::While { cond: c, body };
    let st2 = drive_stmt(st, s)->Ok_0;
    let n0 = st.ops.len() as int;
    let header_b = next_id(st.ops);
    let ops1 = st.ops.push(TargetOpV::CreateBlock);
    let body_b = next_id(ops1);
    let ops2 = ops1.push(TargetOpV::CreateBlock);
    let exit_b = next_id(ops2);
    let ops3 = ops2.push(TargetOpV::CreateBlock);
    let loops2 = st.loops.push((exit_b, header_b));
    let ops4 = ops3.push(TargetOpV::Jump(header_b)).push(TargetOpV::SwitchToBlock(header_b));
    assert(drive_expr(ops4, st.vars, c) is Ok);
    let (ops5, cv) = drive_expr(ops4, st.vars, c)->Ok_0;
    let ops6 = ops5.push(TargetOpV::Branch(cv, body_b, exit_b)).push(
        TargetOpV::SwitchToBlock(body_b),
    ).push(TargetOpV::SealBlock(body_b));
    let st6 = DriveState { ops: ops6, loops: loops2, vars: st.vars };
    assert(drive_stmts(st6, body) is Ok);
    let st7 = drive_stmts(st6, body)->Ok_0;
    assert(st2.ops == st7.ops.push(TargetOpV::Jump(header_b)).push(
        TargetOpV::SealBlock(header_b),
    ).push(TargetOpV::SwitchToBlock(exit_b)).push(TargetOpV::SealBlock(exit_b)));

    lemma_drive_expr_no_block_ops(ops4, st.vars, c);
    lemma_drive_stmts_seals_fresh(st6, body);
    assert(ops5.len() >= ops4.len());
    assert(st7.ops.len() >= ops6.len());
    assert(st2.ops.len() == st7.ops.len() + 4);
    let len = st2.ops.len() as int;

    assert(st2.ops[n0] == TargetOpV::CreateBlock) by {
        assert(st7.ops[n0] == ops6[n0]);
        assert(ops6[n0] == ops5[n0]);
        assert(ops5[n0] == ops4[n0]);
    }
    assert(st2.ops[n0 + 3] == TargetOpV::Jump(header_b)) by {
        assert(st7.ops[n0 + 3] == ops6[n0 + 3]);
        assert(ops6[n0 + 3] == ops5[n0 + 3]);
        assert(ops5[n0 + 3] == ops4[n0 + 3]);
    }
    assert(st2.ops[n0 + 4] == TargetOpV::SwitchToBlock(header_b)) by {
        assert(st7.ops[n0 + 4] == ops6[n0 + 4]);
        assert(ops6[n0 + 4] == ops5[n0 + 4]);
        assert(ops5[n0 + 4] == ops4[n0 + 4]);
    }
    assert(st2.ops[len - 4] == TargetOpV::Jump(header_b));
    assert(st2.ops[len - 3] == TargetOpV::SealBlock(header_b));

    assert forall|j: int| n0 <= j < len - 3 implies (#[trigger] st2.ops[j])
        != TargetOpV::SealBlock(header_b) by {
        if j < ops4.len() {
            // The creates, the jump to the header, and the switch.
            assert(st2.ops[j] == st7.ops[j]);
            assert(st7.ops[j] == ops6[j]);
            assert(ops6[j] == ops5[j]);
            assert(ops5[j] == ops4[j]);
        } else if j < ops5.len() {
            // Condition operations: never a seal.
            assert(st2.ops[j] == st7.ops[j]);
            assert(st7.ops[j] == ops6[j]);
            assert(ops6[j] == ops5[j]);
            assert(!(ops5[j] is SealBlock));
        } else if j < ops6.len() {
            // The branch, the switch to the body, and the seal of the
            // body block, whose handle is not the header's.
            assert(st2.ops[j] == st7.ops[j]);
            assert(st7.ops[j] == ops6[j]);
            assert(body_b != header_b);
        } else if j < st7.ops.len() {
            // Body operations: every seal there names a block created
            // inside the body, so a block past the header.
            assert(st7.ops.len() <= st2.ops.len());
            if st7.ops[j] is SealBlock {
                assert(st7.ops[j]->SealBlock_0 as int >= ops6.len());
            }
            assert(st2.ops[j] == st7.ops[j]);
        } else {
            // The back-edge jump itself.
            assert(j == len - 4);
        }
    }
}

/// Fatal on misuse: a `break` or `continue` driven outside any active
/// loop context always comes back as the matching internal error, never
/// as a silent no-op.
pub proof fn lemma_loop_misuse_is_fatal(st: DriveState)
    requires
        st.loops.len() == 0,
    ensures
        drive_stmt(st, LirStmtV::Break) == Err::<DriveState, EmitErrorV>(
            EmitErrorV::BreakOutsideLoop,
        ),
        drive_stmt(st, LirStmtV::Continue) == Err::<DriveState, EmitErrorV>(
            EmitErrorV::ContinueOutsideLoop,
        ),
{
}

} // verus!
