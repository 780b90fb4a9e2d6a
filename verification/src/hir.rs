//! The flat program produced by the name flattener: no nesting, no
//! modules, every name globally unique.

use vstd::prelude::*;

use crate::ast::{
    function_def_seq_view, static_def_seq_view, struct_def_seq_view, union_def_seq_view,
    FunctionDef, FunctionDefV, StaticDef, StaticDefV, StructDef, StructDefV, UnionDef, UnionDefV,
};

verus! {

/// A flattened program: flat sequences of functions, structs, unions and
/// statics, plus the synthetic structs generated for tagged-union payload
/// storage.
#[derive(Debug)]
pub struct FlatProgram {
    pub functions: Vec<FunctionDef>,
    pub structs: Vec<StructDef>,
    pub unions: Vec<UnionDef>,
    pub statics: Vec<StaticDef>,
    pub union_struct_defs: Vec<StructDef>,
}

/// Spec-level mirror of `FlatProgram`.
#[verifier::ext_equal]
pub struct FlatProgramV {
    pub functions: Seq<FunctionDefV>,
    pub structs: Seq<StructDefV>,
    pub unions: Seq<UnionDefV>,
    pub statics: Seq<StaticDefV>,
    pub union_struct_defs: Seq<StructDefV>,
}

pub open spec fn flat_program_view(p: FlatProgram) -> FlatProgramV {
    FlatProgramV {
        functions: function_def_seq_view(p.functions),
        structs: struct_def_seq_view(p.structs),
        unions: union_def_seq_view(p.unions),
        statics: static_def_seq_view(p.statics),
        union_struct_defs: struct_def_seq_view(p.union_struct_defs),
    }
}

impl DeepView for FlatProgram {
    type V = FlatProgramV;

    open spec fn deep_view(&self) -> FlatProgramV {
        flat_program_view(*self)
    }
}

/// The empty flat program.
pub open spec fn empty_flat_program() -> FlatProgramV {
    FlatProgramV {
        functions: Seq::empty(),
        structs: Seq::empty(),
        unions: Seq::empty(),
        statics: Seq::empty(),
        union_struct_defs: Seq::empty(),
    }
}

impl FlatProgram {
    /// A flat program with nothing in it yet.
    pub fn new() -> (p: FlatProgram)
        ensures
            p.deep_view() == empty_flat_program(),
    {
        let p = FlatProgram {
            functions: Vec::new(),
            structs: Vec::new(),
            unions: Vec::new(),
            statics: Vec::new(),
            union_struct_defs: Vec::new(),
        };
        proof {
            assert(p.deep_view() =~= empty_flat_program());
        }
        p
    }
}

} // verus!
