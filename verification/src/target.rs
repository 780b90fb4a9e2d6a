//! The target contract: the single seam between the compiler core and any
//! code-generation backend.
//!
//! The meaning of the contract is the call sequence itself, so the trait
//! carries an abstract trace: `ops()` is the sequence of operations the
//! backend has received. Every method appends exactly one operation.
//! Value and block handles are the positions, in that trace, of the
//! operations that produced them; a backend maps positions to its own
//! internal handles.
//!
//! Block sealing: a block may receive predecessor edges only before it is
//! sealed; the emission driver switches to and seals a block exactly when
//! all of its predecessors are known, and never seals a block twice.

use vstd::prelude::*;

use crate::ast::{BinaryOp, UnaryOp};
use crate::lir::{lir_params_view, lir_type_view, LirType, LirTypeV};

verus! {

/// One operation received by a backend.
#[derive(Debug)]
pub enum TargetOp {
    StartProgram,
    EndProgram,
    DeclareExternFunction(String, Vec<(String, LirType)>, LirType),
    PredefineFunction(String, Vec<(String, LirType)>, LirType),
    StartFunction(String),
    AddFunctionParam(String, LirType),
    StartFunctionBody,
    EndFunction,
    CallFunction(String, Vec<usize>),
    CallFunctionPointer(usize, Vec<usize>),
    ReturnValue(usize),
    ReturnVoid,
    DeclareVariable(String, LirType, Option<usize>),
    GetVariableAddress(String),
    Store(usize, usize),
    Load(usize),
    CreateBlock,
    SealBlock(usize),
    SwitchToBlock(usize),
    Jump(usize),
    Branch(usize, usize, usize),
    LitInt(i64),
    LitFloat(u64),
    LitBool(bool),
    /// A string literal, already decoded to its bytes (with a
    /// terminating NUL).
    LitStr(Vec<u8>),
    LitArray(Vec<usize>, LirType),
    IdentRef(String),
    BinOp(BinaryOp, usize, usize),
    UnOp(UnaryOp, usize),
    CastOp(usize, LirType),
    IndexOp(usize, usize),
    ExprStmtOp(usize),
    AddrOfLValue(usize),
}

/// Spec-level mirror of `TargetOp`.
#[verifier::ext_equal]
pub enum TargetOpV {
    StartProgram,
    EndProgram,
    DeclareExternFunction(Seq<char>, Seq<(Seq<char>, LirTypeV)>, LirTypeV),
    PredefineFunction(Seq<char>, Seq<(Seq<char>, LirTypeV)>, LirTypeV),
    StartFunction(Seq<char>),
    AddFunctionParam(Seq<char>, LirTypeV),
    StartFunctionBody,
    EndFunction,
    CallFunction(Seq<char>, Seq<usize>),
    CallFunctionPointer(usize, Seq<usize>),
    ReturnValue(usize),
    ReturnVoid,
    DeclareVariable(Seq<char>, LirTypeV, Option<usize>),
    GetVariableAddress(Seq<char>),
    Store(usize, usize),
    Load(usize),
    CreateBlock,
    SealBlock(usize),
    SwitchToBlock(usize),
    Jump(usize),
    Branch(usize, usize, usize),
    LitInt(i64),
    LitFloat(u64),
    LitBool(bool),
    LitStr(Seq<u8>),
    LitArray(Seq<usize>, LirTypeV),
    IdentRef(Seq<char>),
    BinOp(BinaryOp, usize, usize),
    UnOp(UnaryOp, usize),
    CastOp(usize, LirTypeV),
    IndexOp(usize, usize),
    ExprStmtOp(usize),
    AddrOfLValue(usize),
}

pub open spec fn target_op_view(op: TargetOp) -> TargetOpV {
    match op {
        TargetOp::StartProgram => TargetOpV::StartProgram,
        TargetOp::EndProgram => TargetOpV::EndProgram,
        TargetOp::DeclareExternFunction(name, params, ret) => TargetOpV::DeclareExternFunction(
            name.deep_view(),
            lir_params_view(params),
            lir_type_view(ret),
        ),
        TargetOp::PredefineFunction(name, params, ret) => TargetOpV::PredefineFunction(
            name.deep_view(),
            lir_params_view(params),
            lir_type_view(ret),
        ),
        TargetOp::StartFunction(name) => TargetOpV::StartFunction(name.deep_view()),
        TargetOp::AddFunctionParam(name, ty) => TargetOpV::AddFunctionParam(
            name.deep_view(),
            lir_type_view(ty),
        ),
        TargetOp::StartFunctionBody => TargetOpV::StartFunctionBody,
        TargetOp::EndFunction => TargetOpV::EndFunction,
        TargetOp::CallFunction(name, args) => TargetOpV::CallFunction(name.deep_view(), args@),
        TargetOp::CallFunctionPointer(callee, args) => TargetOpV::CallFunctionPointer(
            callee,
            args@,
        ),
        TargetOp::ReturnValue(v) => TargetOpV::ReturnValue(v),
        TargetOp::ReturnVoid => TargetOpV::ReturnVoid,
        TargetOp::DeclareVariable(name, ty, init) => TargetOpV::DeclareVariable(
            name.deep_view(),
            lir_type_view(ty),
            init,
        ),
        TargetOp::GetVariableAddress(name) => TargetOpV::GetVariableAddress(name.deep_view()),
        TargetOp::Store(addr, value) => TargetOpV::Store(addr, value),
        TargetOp::Load(addr) => TargetOpV::Load(addr),
        TargetOp::CreateBlock => TargetOpV::CreateBlock,
        TargetOp::SealBlock(b) => TargetOpV::SealBlock(b),
        TargetOp::SwitchToBlock(b) => TargetOpV::SwitchToBlock(b),
        TargetOp::Jump(b) => TargetOpV::Jump(b),
        TargetOp::Branch(c, t, e) => TargetOpV::Branch(c, t, e),
        TargetOp::LitInt(v) => TargetOpV::LitInt(v),
        TargetOp::LitFloat(bits) => TargetOpV::LitFloat(bits),
        TargetOp::LitBool(b) => TargetOpV::LitBool(b),
        TargetOp::LitStr(bytes) => TargetOpV::LitStr(bytes@),
        TargetOp::LitArray(values, ty) => TargetOpV::LitArray(values@, lir_type_view(ty)),
        TargetOp::IdentRef(name) => TargetOpV::IdentRef(name.deep_view()),
        TargetOp::BinOp(op2, lhs, rhs) => TargetOpV::BinOp(op2, lhs, rhs),
        TargetOp::UnOp(op2, v) => TargetOpV::UnOp(op2, v),
        TargetOp::CastOp(v, ty) => TargetOpV::CastOp(v, lir_type_view(ty)),
        TargetOp::IndexOp(base, idx) => TargetOpV::IndexOp(base, idx),
        TargetOp::ExprStmtOp(v) => TargetOpV::ExprStmtOp(v),
        TargetOp::AddrOfLValue(v) => TargetOpV::AddrOfLValue(v),
    }
}

impl DeepView for TargetOp {
    type V = TargetOpV;

    open spec fn deep_view(&self) -> TargetOpV {
        target_op_view(*self)
    }
}

/// Any code-generation backend. Every operation appends itself to the
/// backend's trace; a value- or block-producing operation hands back its
/// position in that trace as the handle.
pub trait Target: Sized {
    /// The operations this backend has received so far, in order.
    spec fn ops(&self) -> Seq<TargetOpV>;

    fn start_program(&mut self)
        ensures
            final(self).ops() == old(self).ops().push(TargetOpV::StartProgram),
    ;

    fn end_program(&mut self)
        ensures
            final(self).ops() == old(self).ops().push(TargetOpV::EndProgram),
    ;

    fn declare_extern_function(
        &mut self,
        name: &str,
        params: &Vec<(String, LirType)>,
        return_type: LirType,
    )
        ensures
            final(self).ops() == old(self).ops().push(
                TargetOpV::DeclareExternFunction(
                    name@,
                    lir_params_view(*params),
                    lir_type_view(return_type),
                ),
            ),
    ;

    fn predefine_function(
        &mut self,
        name: &str,
        params: &Vec<(String, LirType)>,
        return_type: LirType,
    )
        ensures
            final(self).ops() == old(self).ops().push(
                TargetOpV::PredefineFunction(
                    name@,
                    lir_params_view(*params),
                    lir_type_view(return_type),
                ),
            ),
    ;

    fn start_function(&mut self, name: &str)
        ensures
            final(self).ops() == old(self).ops().push(TargetOpV::StartFunction(name@)),
    ;

    fn add_function_param(&mut self, name: &str, ty: LirType)
        ensures
            final(self).ops() == old(self).ops().push(
                TargetOpV::AddFunctionParam(name@, lir_type_view(ty)),
            ),
    ;

    fn start_function_body(&mut self)
        ensures
            final(self).ops() == old(self).ops().push(TargetOpV::StartFunctionBody),
    ;

    fn end_function(&mut self)
        ensures
            final(self).ops() == old(self).ops().push(TargetOpV::EndFunction),
    ;

    fn call_function(&mut self, name: &str, args: Vec<usize>) -> (r: usize)
        ensures
            final(self).ops() == old(self).ops().push(TargetOpV::CallFunction(name@, args@)),
            r as nat == old(self).ops().len(),
    ;

    fn call_function_pointer(&mut self, callee: usize, args: Vec<usize>) -> (r: usize)
        ensures
            final(self).ops() == old(self).ops().push(
                TargetOpV::CallFunctionPointer(callee, args@),
            ),
            r as nat == old(self).ops().len(),
    ;

    fn return_value(&mut self, value: usize)
        ensures
            final(self).ops() == old(self).ops().push(TargetOpV::ReturnValue(value)),
    ;

    fn return_void(&mut self)
        ensures
            final(self).ops() == old(self).ops().push(TargetOpV::ReturnVoid),
    ;

    fn declare_variable(&mut self, name: &str, ty: LirType, value: Option<usize>)
        ensures
            final(self).ops() == old(self).ops().push(
                TargetOpV::DeclareVariable(name@, lir_type_view(ty), value),
            ),
    ;

    fn get_variable_address(&mut self, name: &str) -> (r: usize)
        ensures
            final(self).ops() == old(self).ops().push(TargetOpV::GetVariableAddress(name@)),
            r as nat == old(self).ops().len(),
    ;

    fn store(&mut self, address: usize, value: usize)
        ensures
            final(self).ops() == old(self).ops().push(TargetOpV::Store(address, value)),
    ;

    fn load(&mut self, address: usize) -> (r: usize)
        ensures
            final(self).ops() == old(self).ops().push(TargetOpV::Load(address)),
            r as nat == old(self).ops().len(),
    ;

    fn create_block(&mut self) -> (r: usize)
        ensures
            final(self).ops() == old(self).ops().push(TargetOpV::CreateBlock),
            r as nat == old(self).ops().len(),
    ;

    fn seal_block(&mut self, block: usize)
        ensures
            final(self).ops() == old(self).ops().push(TargetOpV::SealBlock(block)),
    ;

    fn switch_to_block(&mut self, block: usize)
        ensures
            final(self).ops() == old(self).ops().push(TargetOpV::SwitchToBlock(block)),
    ;

    fn jump(&mut self, target_block: usize)
        ensures
            final(self).ops() == old(self).ops().push(TargetOpV::Jump(target_block)),
    ;

    fn branch(&mut self, condition: usize, then_block: usize, else_block: usize)
        ensures
            final(self).ops() == old(self).ops().push(
                TargetOpV::Branch(condition, then_block, else_block),
            ),
    ;

    fn translate_lit_int(&mut self, value: i64) -> (r: usize)
        ensures
            final(self).ops() == old(self).ops().push(TargetOpV::LitInt(value)),
            r as nat == old(self).ops().len(),
    ;

    /// A float literal, by the bit pattern of its value.
    fn translate_lit_float(&mut self, bits: u64) -> (r: usize)
        ensures
            final(self).ops() == old(self).ops().push(TargetOpV::LitFloat(bits)),
            r as nat == old(self).ops().len(),
    ;

    fn translate_lit_bool(&mut self, value: bool) -> (r: usize)
        ensures
            final(self).ops() == old(self).ops().push(TargetOpV::LitBool(value)),
            r as nat == old(self).ops().len(),
    ;

    fn translate_lit_string(&mut self, bytes: Vec<u8>) -> (r: usize)
        ensures
            final(self).ops() == old(self).ops().push(TargetOpV::LitStr(bytes@)),
            r as nat == old(self).ops().len(),
    ;

    fn translate_lit_array(&mut self, values: Vec<usize>, element_ty: LirType) -> (r: usize)
        ensures
            final(self).ops() == old(self).ops().push(
                TargetOpV::LitArray(values@, lir_type_view(element_ty)),
            ),
            r as nat == old(self).ops().len(),
    ;

    fn translate_ident(&mut self, name: &str) -> (r: usize)
        ensures
            final(self).ops() == old(self).ops().push(TargetOpV::IdentRef(name@)),
            r as nat == old(self).ops().len(),
    ;

    fn translate_binary_op(&mut self, op: BinaryOp, lhs: usize, rhs: usize) -> (r: usize)
        ensures
            final(self).ops() == old(self).ops().push(TargetOpV::BinOp(op, lhs, rhs)),
            r as nat == old(self).ops().len(),
    ;

    fn translate_unary_op(&mut self, op: UnaryOp, value: usize) -> (r: usize)
        ensures
            final(self).ops() == old(self).ops().push(TargetOpV::UnOp(op, value)),
            r as nat == old(self).ops().len(),
    ;

    fn translate_cast(&mut self, value: usize, target_type: LirType) -> (r: usize)
        ensures
            final(self).ops() == old(self).ops().push(
                TargetOpV::CastOp(value, lir_type_view(target_type)),
            ),
            r as nat == old(self).ops().len(),
    ;

    fn translate_index(&mut self, ptr: usize, index: usize) -> (r: usize)
        ensures
            final(self).ops() == old(self).ops().push(TargetOpV::IndexOp(ptr, index)),
            r as nat == old(self).ops().len(),
    ;

    fn emit_expr_stmt(&mut self, value: usize)
        ensures
            final(self).ops() == old(self).ops().push(TargetOpV::ExprStmtOp(value)),
    ;

    fn get_address_of_lvalue(&mut self, lvalue: usize) -> (r: usize)
        ensures
            final(self).ops() == old(self).ops().push(TargetOpV::AddrOfLValue(lvalue)),
            r as nat == old(self).ops().len(),
    ;
}

/// A backend that simply records the operations it receives: the
/// reference implementation of the contract, and a way to inspect what a
/// compilation emits.
pub struct TraceTarget {
    pub recorded: Vec<TargetOp>,
}

impl TraceTarget {
    /// A recorder with an empty trace.
    pub fn new() -> (t: TraceTarget)
        ensures
            t.ops() == Seq::<TargetOpV>::empty(),
    {
        let t = TraceTarget { recorded: Vec::new() };
        proof {
            assert(t.recorded.deep_view() =~= Seq::<TargetOpV>::empty());
        }
        t
    }

    /// Appends one operation and hands back its position.
    fn record(&mut self, op: TargetOp) -> (r: usize)
        ensures
            final(self).ops() == old(self).ops().push(target_op_view(op)),
            r as nat == old(self).ops().len(),
    {
        let ghost before = self.recorded.deep_view();
        let r = self.recorded.len();
        self.recorded.push(op);
        proof {
            assert(self.recorded.deep_view() =~= before.push(target_op_view(op)));
        }
        r
    }
}

impl Target for TraceTarget {
    open spec fn ops(&self) -> Seq<TargetOpV> {
        self.recorded.deep_view()
    }

    fn start_program(&mut self) {
        self.record(TargetOp::StartProgram);
    }

    fn end_program(&mut self) {
        self.record(TargetOp::EndProgram);
    }

    fn declare_extern_function(
        &mut self,
        name: &str,
        params: &Vec<(String, LirType)>,
        return_type: LirType,
    ) {
        let ps = copy_lir_params(params);
        self.record(TargetOp::DeclareExternFunction(name.to_owned(), ps, return_type));
    }

    fn predefine_function(
        &mut self,
        name: &str,
        params: &Vec<(String, LirType)>,
        return_type: LirType,
    ) {
        let ps = copy_lir_params(params);
        self.record(TargetOp::PredefineFunction(name.to_owned(), ps, return_type));
    }

    fn start_function(&mut self, name: &str) {
        self.record(TargetOp::StartFunction(name.to_owned()));
    }

    fn add_function_param(&mut self, name: &str, ty: LirType) {
        self.record(TargetOp::AddFunctionParam(name.to_owned(), ty));
    }

    fn start_function_body(&mut self) {
        self.record(TargetOp::StartFunctionBody);
    }

    fn end_function(&mut self) {
        self.record(TargetOp::EndFunction);
    }

    fn call_function(&mut self, name: &str, args: Vec<usize>) -> (r: usize) {
        self.record(TargetOp::CallFunction(name.to_owned(), args))
    }

    fn call_function_pointer(&mut self, callee: usize, args: Vec<usize>) -> (r: usize) {
        self.record(TargetOp::CallFunctionPointer(callee, args))
    }

    fn return_value(&mut self, value: usize) {
        self.record(TargetOp::ReturnValue(value));
    }

    fn return_void(&mut self) {
        self.record(TargetOp::ReturnVoid);
    }

    fn declare_variable(&mut self, name: &str, ty: LirType, value: Option<usize>) {
        self.record(TargetOp::DeclareVariable(name.to_owned(), ty, value));
    }

    fn get_variable_address(&mut self, name: &str) -> (r: usize) {
        self.record(TargetOp::GetVariableAddress(name.to_owned()))
    }

    fn store(&mut self, address: usize, value: usize) {
        self.record(TargetOp::Store(address, value));
    }

    fn load(&mut self, address: usize) -> (r: usize) {
        self.record(TargetOp::Load(address))
    }

    fn create_block(&mut self) -> (r: usize) {
        self.record(TargetOp::CreateBlock)
    }

    fn seal_block(&mut self, block: usize) {
        self.record(TargetOp::SealBlock(block));
    }

    fn switch_to_block(&mut self, block: usize) {
        self.record(TargetOp::SwitchToBlock(block));
    }

    fn jump(&mut self, target_block: usize) {
        self.record(TargetOp::Jump(target_block));
    }

    fn branch(&mut self, condition: usize, then_block: usize, else_block: usize) {
        self.record(TargetOp::Branch(condition, then_block, else_block));
    }

    fn translate_lit_int(&mut self, value: i64) -> (r: usize) {
        self.record(TargetOp::LitInt(value))
    }

    fn translate_lit_float(&mut self, bits: u64) -> (r: usize) {
        self.record(TargetOp::LitFloat(bits))
    }

    fn translate_lit_bool(&mut self, value: bool) -> (r: usize) {
        self.record(TargetOp::LitBool(value))
    }

    fn translate_lit_string(&mut self, bytes: Vec<u8>) -> (r: usize) {
        self.record(TargetOp::LitStr(bytes))
    }

    fn translate_lit_array(&mut self, values: Vec<usize>, element_ty: LirType) -> (r: usize) {
        self.record(TargetOp::LitArray(values, element_ty))
    }

    fn translate_ident(&mut self, name: &str) -> (r: usize) {
        self.record(TargetOp::IdentRef(name.to_owned()))
    }

    fn translate_binary_op(&mut self, op: BinaryOp, lhs: usize, rhs: usize) -> (r: usize) {
        self.record(TargetOp::BinOp(op, lhs, rhs))
    }

    fn translate_unary_op(&mut self, op: UnaryOp, value: usize) -> (r: usize) {
        self.record(TargetOp::UnOp(op, value))
    }

    fn translate_cast(&mut self, value: usize, target_type: LirType) -> (r: usize) {
        self.record(TargetOp::CastOp(value, target_type))
    }

    fn translate_index(&mut self, ptr: usize, index: usize) -> (r: usize) {
        self.record(TargetOp::IndexOp(ptr, index))
    }

    fn emit_expr_stmt(&mut self, value: usize) {
        self.record(TargetOp::ExprStmtOp(value));
    }

    fn get_address_of_lvalue(&mut self, lvalue: usize) -> (r: usize) {
        self.record(TargetOp::AddrOfLValue(lvalue))
    }
}

/// An independent copy of a lowered parameter list.
#[verifier::loop_isolation(false)]
pub fn copy_lir_params(ps: &Vec<(String, LirType)>) -> (r: Vec<(String, LirType)>)
    ensures
        lir_params_view(r) == lir_params_view(*ps),
{
    let mut out: Vec<(String, LirType)> = Vec::new();
    let n: usize = ps.len();
    let mut i: usize = 0;
    while i < n
        invariant
            i <= n,
            out.len() == i,
            forall|j: int|
                0 <= j < i ==> (#[trigger] out@[j]).0@ == ps@[j].0@ && lir_type_view(out@[j].1)
                    == lir_type_view(ps@[j].1),
        decreases n - i,
    {
        let ty = ps[i].1.duplicate();
        out.push((ps[i].0.clone(), ty));
        i = i + 1;
    }
    proof {
        assert(lir_params_view(out) =~= lir_params_view(*ps));
    }
    out
}

} // verus!
