//! The symbol context built by the collector: function signatures, struct
//! layouts, globals, and a scope stack of variables used during a single
//! traversal.

use vstd::prelude::*;

use crate::lir::{lir_params_view, lir_type_seq_view, LirType, LirTypeV};
use crate::strmap::StrMap;

verus! {

/// A function signature: parameter types and return type.
#[derive(Debug)]
pub struct FunctionInfo {
    pub params: Vec<LirType>,
    pub ret_ty: LirType,
}

/// Spec-level mirror of `FunctionInfo`.
#[verifier::ext_equal]
pub struct FunctionInfoV {
    pub params: Seq<LirTypeV>,
    pub ret_ty: LirTypeV,
}

impl DeepView for FunctionInfo {
    type V = FunctionInfoV;

    open spec fn deep_view(&self) -> FunctionInfoV {
        FunctionInfoV { params: lir_type_seq_view(self.params), ret_ty: self.ret_ty.deep_view() }
    }
}

/// A variable binding: its type, and whether it is a global.
#[derive(Debug)]
pub struct VarInfo {
    pub ty: LirType,
    pub is_global: bool,
}

/// Spec-level mirror of `VarInfo`.
#[verifier::ext_equal]
pub struct VarInfoV {
    pub ty: LirTypeV,
    pub is_global: bool,
}

impl DeepView for VarInfo {
    type V = VarInfoV;

    open spec fn deep_view(&self) -> VarInfoV {
        VarInfoV { ty: self.ty.deep_view(), is_global: self.is_global }
    }
}

/// A struct layout: its fields in declaration order.
#[derive(Debug)]
pub struct StructInfo {
    pub fields: Vec<(String, LirType)>,
}

/// Spec-level mirror of `StructInfo`.
#[verifier::ext_equal]
pub struct StructInfoV {
    pub fields: Seq<(Seq<char>, LirTypeV)>,
}

impl DeepView for StructInfo {
    type V = StructInfoV;

    open spec fn deep_view(&self) -> StructInfoV {
        StructInfoV { fields: lir_params_view(self.fields) }
    }
}

/// The type of the first field named `name`, if any.
pub open spec fn field_lookup(fields: Seq<(Seq<char>, LirTypeV)>, name: Seq<char>) -> Option<
    LirTypeV,
>
    decreases fields.len(),
{
    if fields.len() == 0 {
        None
    } else if fields[0].0 == name {
        Some(fields[0].1)
    } else {
        field_lookup(fields.drop_first(), name)
    }
}

impl StructInfo {
    /// The declared type of the first field named `field_name`.
    #[verifier::loop_isolation(false)]
    pub fn get_field_type(&self, field_name: &str) -> (r: Option<LirType>)
        ensures
            r.deep_view() == field_lookup(self.deep_view().fields, field_name@),
    {
        let needle: String = field_name.to_owned();
        let ghost fs = self.deep_view().fields;
        let n: usize = self.fields.len();
        let mut i: usize = 0;
        proof {
            assert(fs.skip(0) =~= fs);
        }
        while i < n
            invariant
                i <= n,
                field_lookup(fs, field_name@) == field_lookup(fs.skip(i as int), field_name@),
            decreases n - i,
        {
            proof {
                assert(fs.skip(i as int).drop_first() =~= fs.skip(i + 1));
            }
            if self.fields[i].0 == needle {
                return Some(self.fields[i].1.duplicate());
            }
            i = i + 1;
        }
        proof {
            assert(fs.skip(n as int) =~= Seq::<(Seq<char>, LirTypeV)>::empty());
        }
        None
    }
}

/// Spec-level mirror of `Context`.
#[verifier::ext_equal]
pub struct ContextV {
    pub functions: Map<Seq<char>, FunctionInfoV>,
    pub structs: Map<Seq<char>, StructInfoV>,
    pub vars: Seq<Map<Seq<char>, VarInfoV>>,
    pub globals: Map<Seq<char>, VarInfoV>,
}

/// The symbol table: function signatures, struct layouts, a stack of
/// variable scopes, and globals.
pub struct Context {
    pub functions: StrMap<FunctionInfo>,
    pub structs: StrMap<StructInfo>,
    pub vars: Vec<StrMap<VarInfo>>,
    pub globals: StrMap<VarInfo>,
}

impl View for Context {
    type V = ContextV;

    open spec fn view(&self) -> ContextV {
        ContextV {
            functions: self.functions@,
            structs: self.structs@,
            vars: self.vars.deep_view(),
            globals: self.globals@,
        }
    }
}

/// Innermost-scope-first variable lookup, falling back to the globals.
pub open spec fn var_lookup(
    vars: Seq<Map<Seq<char>, VarInfoV>>,
    globals: Map<Seq<char>, VarInfoV>,
    name: Seq<char>,
) -> Option<VarInfoV>
    decreases vars.len(),
{
    if vars.len() == 0 {
        if globals.contains_key(name) {
            Some(globals[name])
        } else {
            None
        }
    } else if vars.last().contains_key(name) {
        Some(vars.last()[name])
    } else {
        var_lookup(vars.drop_last(), globals, name)
    }
}

impl Context {
    /// An empty context with a single, empty variable scope.
    pub fn new() -> (ctx: Context)
        ensures
            ctx@.functions == Map::<Seq<char>, FunctionInfoV>::empty(),
            ctx@.structs == Map::<Seq<char>, StructInfoV>::empty(),
            ctx@.globals == Map::<Seq<char>, VarInfoV>::empty(),
            ctx@.vars == seq![Map::<Seq<char>, VarInfoV>::empty()],
    {
        let mut vars: Vec<StrMap<VarInfo>> = Vec::new();
        vars.push(StrMap::new());
        let ctx = Context {
            functions: StrMap::new(),
            structs: StrMap::new(),
            vars,
            globals: StrMap::new(),
        };
        proof {
            assert(ctx.vars.deep_view() =~= seq![Map::<Seq<char>, VarInfoV>::empty()]);
        }
        ctx
    }

    /// Records the signature of `name`, replacing any earlier one.
    pub fn register_function(&mut self, name: String, params: Vec<LirType>, ret_ty: LirType)
        ensures
            final(self)@ == (ContextV {
                functions: old(self)@.functions.insert(
                    name@,
                    FunctionInfoV { params: lir_type_seq_view(params), ret_ty: ret_ty.deep_view() },
                ),
                ..old(self)@
            }),
    {
        self.functions.insert(name, FunctionInfo { params, ret_ty });
    }

    /// The signature registered for `name`, if any.
    pub fn lookup_function(&self, name: &str) -> (r: Option<&FunctionInfo>)
        ensures
            match r {
                Some(info) => self@.functions.contains_key(name@) && info.deep_view()
                    == self@.functions[name@],
                None => !self@.functions.contains_key(name@),
            },
    {
        self.functions.get(name)
    }

    /// Records the layout of struct `name`, replacing any earlier one.
    pub fn register_struct(&mut self, name: String, fields: Vec<(String, LirType)>)
        ensures
            final(self)@ == (ContextV {
                structs: old(self)@.structs.insert(
                    name@,
                    StructInfoV { fields: lir_params_view(fields) },
                ),
                ..old(self)@
            }),
    {
        self.structs.insert(name, StructInfo { fields });
    }

    /// The type of field `field_name` of struct `struct_name`, if both exist.
    pub fn get_struct_field_type(&self, struct_name: &str, field_name: &str) -> (r: Option<
        LirType,
    >)
        ensures
            r.deep_view() == (if self@.structs.contains_key(struct_name@) {
                field_lookup(self@.structs[struct_name@].fields, field_name@)
            } else {
                None
            }),
    {
        match self.structs.get(struct_name) {
            Some(info) => info.get_field_type(field_name),
            None => None,
        }
    }

    /// Pushes a fresh, empty variable scope.
    pub fn enter_scope(&mut self)
        ensures
            final(self)@ == (ContextV {
                vars: old(self)@.vars.push(Map::empty()),
                ..old(self)@
            }),
    {
        let ghost before = self.vars.deep_view();
        self.vars.push(StrMap::new());
        proof {
            assert(self.vars.deep_view() =~= before.push(Map::empty()));
        }
    }

    /// Pops the innermost variable scope, if there is one.
    pub fn exit_scope(&mut self)
        ensures
            final(self)@ == (ContextV {
                vars: if old(self)@.vars.len() > 0 {
                    old(self)@.vars.drop_last()
                } else {
                    old(self)@.vars
                },
                ..old(self)@
            }),
    {
        let ghost before = self.vars.deep_view();
        if self.vars.len() > 0 {
            self.vars.pop();
            proof {
                assert(self.vars.deep_view() =~= before.drop_last());
            }
        }
    }

    /// Binds `name` in the innermost scope, if there is one.
    pub fn declare_var(&mut self, name: String, ty: LirType)
        ensures
            final(self)@ == (ContextV {
                vars: if old(self)@.vars.len() > 0 {
                    old(self)@.vars.update(
                        old(self)@.vars.len() - 1,
                        old(self)@.vars.last().insert(
                            name@,
                            VarInfoV { ty: ty.deep_view(), is_global: false },
                        ),
                    )
                } else {
                    old(self)@.vars
                },
                ..old(self)@
            }),
    {
        let ghost before = self.vars.deep_view();
        if self.vars.len() > 0 {
            let mut scope = self.vars.pop().unwrap();
            scope.insert(name, VarInfo { ty, is_global: false });
            self.vars.push(scope);
            proof {
                assert(self.vars.deep_view() =~= before.update(
                    before.len() - 1,
                    before.last().insert(
                        name@,
                        VarInfoV { ty: ty.deep_view(), is_global: false },
                    ),
                ));
            }
        }
    }

    /// Binds `name` as a global, replacing any earlier binding.
    pub fn declare_global(&mut self, name: String, ty: LirType)
        ensures
            final(self)@ == (ContextV {
                globals: old(self)@.globals.insert(
                    name@,
                    VarInfoV { ty: ty.deep_view(), is_global: true },
                ),
                ..old(self)@
            }),
    {
        self.globals.insert(name, VarInfo { ty, is_global: true });
    }

    /// Resolves `name` innermost-scope-first, then among the globals.
    #[verifier::loop_isolation(false)]
    pub fn lookup_var(&self, name: &str) -> (r: Option<&VarInfo>)
        ensures
            match r {
                Some(info) => var_lookup(self@.vars, self@.globals, name@) == Some(
                    info.deep_view(),
                ),
                None => var_lookup(self@.vars, self@.globals, name@) is None,
            },
    {
        let ghost scopes = self.vars.deep_view();
        let mut i: usize = self.vars.len();
        proof {
            assert(scopes.take(self.vars.len() as int) =~= scopes);
        }
        while i > 0
            invariant
                i <= self.vars.len(),
                var_lookup(scopes, self@.globals, name@) == var_lookup(
                    scopes.take(i as int),
                    self@.globals,
                    name@,
                ),
            decreases i,
        {
            i = i - 1;
            proof {
                assert(scopes.take(i + 1).drop_last() =~= scopes.take(i as int));
                assert(scopes.take(i + 1).last() == scopes[i as int]);
            }
            if let Some(info) = self.vars[i].get(name) {
                return Some(info);
            }
        }
        proof {
            assert(scopes.take(0) =~= Seq::<Map<Seq<char>, VarInfoV>>::empty());
        }
        self.globals.get(name)
    }

    /// Resets the scope stack to a single, empty scope.
    pub fn clear_vars(&mut self)
        ensures
            final(self)@ == (ContextV {
                vars: seq![Map::<Seq<char>, VarInfoV>::empty()],
                ..old(self)@
            }),
    {
        let mut vars: Vec<StrMap<VarInfo>> = Vec::new();
        vars.push(StrMap::new());
        self.vars = vars;
        proof {
            assert(self.vars.deep_view() =~= seq![Map::<Seq<char>, VarInfoV>::empty()]);
        }
    }
}

} // verus!
