//! The symbol collector: one walk over a flat program that registers
//! struct layouts, global types and function signatures, aborting on the
//! first type it cannot convert.

use vstd::prelude::*;

use crate::ast::{Type, TypeV};
use crate::hir::{FlatProgram, FlatProgramV};
use crate::lir::{lir_params_view, lir_type_seq_view, LirType, LirTypeV};
use crate::mangle::{join_path, join_strings};
use crate::symbols::{Context, ContextV, FunctionInfoV, StructInfoV, VarInfoV};

verus! {

/// Why collection stopped: a semantic error naming the offending construct.
#[derive(Debug)]
pub enum CollectError {
    /// A struct type used with a non-empty generic argument list; generics
    /// must already be erased when collection runs.
    GenericStructUnsupported(Vec<String>),
    /// A type variant this pass does not convert (arrays, enums, function
    /// types, unresolved generics).
    UnsupportedType(Type),
}

/// Spec-level mirror of `CollectError`.
#[verifier::ext_equal]
pub enum CollectErrorV {
    GenericStructUnsupported(Seq<Seq<char>>),
    UnsupportedType(TypeV),
}

impl DeepView for CollectError {
    type V = CollectErrorV;

    open spec fn deep_view(&self) -> CollectErrorV {
        match self {
            CollectError::GenericStructUnsupported(path) => CollectErrorV::GenericStructUnsupported(
                path.deep_view(),
            ),
            CollectError::UnsupportedType(t) => CollectErrorV::UnsupportedType(t.deep_view()),
        }
    }
}

/// Conversion of a surface type to its lowered form. Scalars and pointers
/// convert structurally; a struct reference must have no generic arguments
/// left; everything else is refused.
pub open spec fn convert_type_spec(t: TypeV) -> Result<LirTypeV, CollectErrorV>
    decreases t,
{
    match t {
        TypeV::U8 => Ok(LirTypeV::U8),
        TypeV::I64 => Ok(LirTypeV::I64),
        TypeV::F64 => Ok(LirTypeV::F64),
        TypeV::Bool => Ok(LirTypeV::Bool),
        TypeV::Void => Ok(LirTypeV::Void),
        TypeV::Pointer(inner) => match convert_type_spec(*inner) {
            Ok(l) => Ok(LirTypeV::Pointer(Box::new(l))),
            Err(e) => Err(e),
        },
        TypeV::Struct(path, generics) => if generics.len() > 0 {
            Err(CollectErrorV::GenericStructUnsupported(path))
        } else {
            Ok(LirTypeV::Struct(join_path(path)))
        },
        _ => Err(CollectErrorV::UnsupportedType(t)),
    }
}

/// Field-by-field conversion of a struct layout, stopping at the first
/// failure.
pub open spec fn collect_struct_fields(fields: Seq<(Seq<char>, TypeV)>) -> Result<
    Seq<(Seq<char>, LirTypeV)>,
    CollectErrorV,
>
    decreases fields.len(),
{
    if fields.len() == 0 {
        Ok(Seq::empty())
    } else {
        match convert_type_spec(fields[0].1) {
            Err(e) => Err(e),
            Ok(l) => match collect_struct_fields(fields.drop_first()) {
                Err(e) => Err(e),
                Ok(rest) => Ok(seq![(fields[0].0, l)] + rest),
            },
        }
    }
}

/// Parameter types converted in order, stopping at the first failure.
pub open spec fn convert_param_types(ps: Seq<(Seq<char>, TypeV)>) -> Result<
    Seq<LirTypeV>,
    CollectErrorV,
>
    decreases ps.len(),
{
    if ps.len() == 0 {
        Ok(Seq::empty())
    } else {
        match convert_type_spec(ps[0].1) {
            Err(e) => Err(e),
            Ok(l) => match convert_param_types(ps.drop_first()) {
                Err(e) => Err(e),
                Ok(rest) => Ok(seq![l] + rest),
            },
        }
    }
}

/// Registration of struct layouts, in order.
pub open spec fn collect_structs(ctx: ContextV, structs: Seq<crate::ast::StructDefV>) -> Result<
    ContextV,
    CollectErrorV,
>
    decreases structs.len(),
{
    if structs.len() == 0 {
        Ok(ctx)
    } else {
        match collect_struct_fields(structs[0].fields) {
            Err(e) => Err(e),
            Ok(fs) => collect_structs(
                ContextV {
                    structs: ctx.structs.insert(structs[0].name, StructInfoV { fields: fs }),
                    ..ctx
                },
                structs.drop_first(),
            ),
        }
    }
}

/// Registration of globals, in order.
pub open spec fn collect_statics(ctx: ContextV, statics: Seq<crate::ast::StaticDefV>) -> Result<
    ContextV,
    CollectErrorV,
>
    decreases statics.len(),
{
    if statics.len() == 0 {
        Ok(ctx)
    } else {
        match convert_type_spec(statics[0].ty) {
            Err(e) => Err(e),
            Ok(l) => collect_statics(
                ContextV {
                    globals: ctx.globals.insert(
                        statics[0].name,
                        VarInfoV { ty: l, is_global: true },
                    ),
                    ..ctx
                },
                statics.drop_first(),
            ),
        }
    }
}

/// Registration of function signatures, in order; extern declarations
/// participate exactly like defined functions.
pub open spec fn collect_functions(
    ctx: ContextV,
    functions: Seq<crate::ast::FunctionDefV>,
) -> Result<ContextV, CollectErrorV>
    decreases functions.len(),
{
    if functions.len() == 0 {
        Ok(ctx)
    } else {
        match convert_param_types(functions[0].params) {
            Err(e) => Err(e),
            Ok(params) => match convert_type_spec(functions[0].return_type) {
                Err(e) => Err(e),
                Ok(ret) => collect_functions(
                    ContextV {
                        functions: ctx.functions.insert(
                            functions[0].name,
                            FunctionInfoV { params, ret_ty: ret },
                        ),
                        ..ctx
                    },
                    functions.drop_first(),
                ),
            },
        }
    }
}

/// The context a collection run starts from.
pub open spec fn initial_context() -> ContextV {
    ContextV {
        functions: Map::empty(),
        structs: Map::empty(),
        vars: seq![Map::empty()],
        globals: Map::empty(),
    }
}

/// The whole collection: structs, then statics, then functions; the first
/// error aborts everything.
pub open spec fn collect_spec(p: FlatProgramV) -> Result<ContextV, CollectErrorV> {
    match collect_structs(initial_context(), p.structs) {
        Err(e) => Err(e),
        Ok(c1) => match collect_statics(c1, p.statics) {
            Err(e) => Err(e),
            Ok(c2) => collect_functions(c2, p.functions),
        },
    }
}

/// A struct type with generic arguments is always refused, with the error
/// naming the offending path; the same path with no generic arguments
/// converts to the plain lowered struct reference.
pub proof fn lemma_generic_struct_rejected(path: Seq<Seq<char>>, generics: Seq<TypeV>)
    ensures
        generics.len() > 0 ==> convert_type_spec(TypeV::Struct(path, generics)) == Err::<
            LirTypeV,
            CollectErrorV,
        >(CollectErrorV::GenericStructUnsupported(path)),
        generics.len() == 0 ==> convert_type_spec(TypeV::Struct(path, generics)) == Ok::<
            LirTypeV,
            CollectErrorV,
        >(LirTypeV::Struct(join_path(path))),
{
}

/// The symbol collector.
pub struct Collector;

impl Collector {
    /// Converts one surface type, or says exactly why it cannot.
    pub fn convert_type(ast_type: &Type) -> (r: Result<LirType, CollectError>)
        ensures
            match r {
                Ok(l) => convert_type_spec(ast_type.deep_view()) == Ok::<LirTypeV, CollectErrorV>(
                    l.deep_view(),
                ),
                Err(e) => convert_type_spec(ast_type.deep_view()) == Err::<LirTypeV, CollectErrorV>(
                    e.deep_view(),
                ),
            },
        decreases ast_type,
    {
        match ast_type {
            Type::U8 => Ok(LirType::U8),
            Type::I64 => Ok(LirType::I64),
            Type::F64 => Ok(LirType::F64),
            Type::Bool => Ok(LirType::Bool),
            Type::Void => Ok(LirType::Void),
            Type::Pointer(inner) => match Self::convert_type(inner) {
                Ok(l) => Ok(LirType::Pointer(Box::new(l))),
                Err(e) => Err(e),
            },
            Type::Struct(path, generics) => {
                proof {
                    assert(ast_type.deep_view() == TypeV::Struct(
                        path.deep_view(),
                        crate::ast::type_seq_view(*generics),
                    ));
                }
                if generics.len() > 0 {
                    let err = CollectError::GenericStructUnsupported(crate::mangle::copy_path(path));
                    proof {
                        assert(err.deep_view() == CollectErrorV::GenericStructUnsupported(
                            path.deep_view(),
                        ));
                        assert(convert_type_spec(ast_type.deep_view()) == Err::<
                            LirTypeV,
                            CollectErrorV,
                        >(CollectErrorV::GenericStructUnsupported(path.deep_view())));
                    }
                    Err(err)
                } else {
                    let r = LirType::Struct(join_strings(path));
                    proof {
                        assert(r.deep_view() == LirTypeV::Struct(join_path(path.deep_view())));
                        assert(convert_type_spec(ast_type.deep_view()) == Ok::<
                            LirTypeV,
                            CollectErrorV,
                        >(LirTypeV::Struct(join_path(path.deep_view()))));
                    }
                    Ok(r)
                }
            },
            Type::Array(_, _) | Type::Enum(_, _) | Type::Function(_, _, _) | Type::Generic(_) => {
                Err(CollectError::UnsupportedType(crate::ast::duplicate_type(ast_type)))
            },
        }
    }
}

impl Collector {
    /// Builds the symbol context of a flat program: struct layouts first,
    /// then globals, then function signatures. The first failing type
    /// conversion aborts the whole collection.
    #[verifier::loop_isolation(false)]
    pub fn collect(program: &FlatProgram) -> (r: Result<Context, CollectError>)
        ensures
            match r {
                Ok(ctx) => collect_spec(program.deep_view()) == Ok::<ContextV, CollectErrorV>(
                    ctx@,
                ),
                Err(e) => collect_spec(program.deep_view()) == Err::<ContextV, CollectErrorV>(
                    e.deep_view(),
                ),
            },
    {
        let ghost pv = program.deep_view();
        let mut ctx = Context::new();
        proof {
            assert(ctx@ =~= initial_context());
        }

        let ns: usize = program.structs.len();
        let mut i: usize = 0;
        proof {
            assert(pv.structs.skip(0) =~= pv.structs);
        }
        while i < ns
            invariant
                i <= ns,
                collect_structs(initial_context(), pv.structs) == collect_structs(
                    ctx@,
                    pv.structs.skip(i as int),
                ),
            decreases ns - i,
        {
            let ghost sv = pv.structs[i as int];
            proof {
                assert(pv.structs.skip(i as int)[0] == sv);
                assert(pv.structs.skip(i as int).drop_first() =~= pv.structs.skip(i + 1));
            }
            let sd = &program.structs[i];
            let mut fields: Vec<(String, LirType)> = Vec::new();
            let nf: usize = sd.fields.len();
            let mut j: usize = 0;
            proof {
                assert(sv.fields.skip(0) =~= sv.fields);
                assert(fields.deep_view() =~= Seq::<(Seq<char>, LirTypeV)>::empty());
            }
            while j < nf
                invariant
                    j <= nf,
                    nf == sd.fields.len(),
                    collect_struct_fields(sv.fields) == match collect_struct_fields(
                        sv.fields.skip(j as int),
                    ) {
                        Ok(rest) => Ok::<_, CollectErrorV>(fields.deep_view() + rest),
                        Err(e) => Err(e),
                    },
                decreases nf - j,
            {
                proof {
                    assert(sv.fields.skip(j as int)[0] == sv.fields[j as int]);
                    assert(sv.fields.skip(j as int).drop_first() =~= sv.fields.skip(j + 1));
                    assert(sv.fields[j as int] == (
                        sd.fields[j as int].0.deep_view(),
                        crate::ast::type_view(sd.fields[j as int].1),
                    ));
                }
                match Self::convert_type(&sd.fields[j].1) {
                    Ok(lt) => {
                        let ghost before = fields.deep_view();
                        fields.push((sd.fields[j].0.clone(), lt));
                        proof {
                            assert(fields.deep_view() =~= before.push(
                                (sv.fields[j as int].0, lt.deep_view()),
                            ));
                            if collect_struct_fields(sv.fields.skip(j + 1)) is Ok {
                                let rest = collect_struct_fields(sv.fields.skip(j + 1))->Ok_0;
                                assert(before + (seq![(sv.fields[j as int].0, lt.deep_view())]
                                    + rest) =~= fields.deep_view() + rest);
                            }
                        }
                        j = j + 1;
                    },
                    Err(e) => {
                        proof {
                            assert(collect_struct_fields(sv.fields) == Err::<
                                Seq<(Seq<char>, LirTypeV)>,
                                CollectErrorV,
                            >(e.deep_view()));
                            assert(collect_structs(ctx@, pv.structs.skip(i as int)) == Err::<
                                ContextV,
                                CollectErrorV,
                            >(e.deep_view()));
                        }
                        return Err(e);
                    },
                }
            }
            proof {
                assert(sv.fields.skip(nf as int) =~= Seq::<(Seq<char>, TypeV)>::empty());
                assert(fields.deep_view() + Seq::<(Seq<char>, LirTypeV)>::empty()
                    =~= fields.deep_view());
                assert(collect_struct_fields(sv.fields) == Ok::<_, CollectErrorV>(
                    fields.deep_view(),
                ));
                assert(fields.deep_view() =~= lir_params_view(fields));
            }
            ctx.register_struct(sd.name.clone(), fields);
            i = i + 1;
        }
        proof {
            assert(pv.structs.skip(ns as int) =~= Seq::<crate::ast::StructDefV>::empty());
            assert(collect_structs(initial_context(), pv.structs) == Ok::<ContextV, CollectErrorV>(
                ctx@,
            ));
        }
        let ghost after_structs = ctx@;

        let ng: usize = program.statics.len();
        let mut i: usize = 0;
        proof {
            assert(pv.statics.skip(0) =~= pv.statics);
        }
        while i < ng
            invariant
                i <= ng,
                collect_statics(after_structs, pv.statics) == collect_statics(
                    ctx@,
                    pv.statics.skip(i as int),
                ),
            decreases ng - i,
        {
            let ghost gv = pv.statics[i as int];
            proof {
                assert(pv.statics.skip(i as int)[0] == gv);
                assert(pv.statics.skip(i as int).drop_first() =~= pv.statics.skip(i + 1));
            }
            let gd = &program.statics[i];
            match Self::convert_type(&gd.ty) {
                Ok(lt) => {
                    ctx.declare_global(gd.name.clone(), lt);
                },
                Err(e) => {
                    proof {
                        assert(collect_statics(ctx@, pv.statics.skip(i as int)) == Err::<
                            ContextV,
                            CollectErrorV,
                        >(e.deep_view()));
                    }
                    return Err(e);
                },
            }
            i = i + 1;
        }
        proof {
            assert(pv.statics.skip(ng as int) =~= Seq::<crate::ast::StaticDefV>::empty());
            assert(collect_statics(after_structs, pv.statics) == Ok::<ContextV, CollectErrorV>(
                ctx@,
            ));
        }
        let ghost after_statics = ctx@;

        let nf: usize = program.functions.len();
        let mut i: usize = 0;
        proof {
            assert(pv.functions.skip(0) =~= pv.functions);
        }
        while i < nf
            invariant
                i <= nf,
                collect_functions(after_statics, pv.functions) == collect_functions(
                    ctx@,
                    pv.functions.skip(i as int),
                ),
            decreases nf - i,
        {
            let ghost fv = pv.functions[i as int];
            proof {
                assert(pv.functions.skip(i as int)[0] == fv);
                assert(pv.functions.skip(i as int).drop_first() =~= pv.functions.skip(i + 1));
            }
            let fd = &program.functions[i];
            let mut params: Vec<LirType> = Vec::new();
            let np: usize = fd.params.len();
            let mut j: usize = 0;
            proof {
                assert(fv.params.skip(0) =~= fv.params);
                assert(lir_type_seq_view(params) =~= Seq::<LirTypeV>::empty());
            }
            while j < np
                invariant
                    j <= np,
                    np == fd.params.len(),
                    convert_param_types(fv.params) == match convert_param_types(
                        fv.params.skip(j as int),
                    ) {
                        Ok(rest) => Ok::<_, CollectErrorV>(lir_type_seq_view(params) + rest),
                        Err(e) => Err(e),
                    },
                decreases np - j,
            {
                proof {
                    assert(fv.params.skip(j as int)[0] == fv.params[j as int]);
                    assert(fv.params.skip(j as int).drop_first() =~= fv.params.skip(j + 1));
                    assert(fv.params[j as int] == (
                        fd.params[j as int].0.deep_view(),
                        crate::ast::type_view(fd.params[j as int].1),
                    ));
                }
                match Self::convert_type(&fd.params[j].1) {
                    Ok(lt) => {
                        let ghost before = lir_type_seq_view(params);
                        params.push(lt);
                        proof {
                            assert(lir_type_seq_view(params) =~= before.push(lt.deep_view()));
                            if convert_param_types(fv.params.skip(j + 1)) is Ok {
                                let rest = convert_param_types(fv.params.skip(j + 1))->Ok_0;
                                assert(before + (seq![lt.deep_view()] + rest)
                                    =~= lir_type_seq_view(params) + rest);
                            }
                        }
                        j = j + 1;
                    },
                    Err(e) => {
                        proof {
                            assert(convert_param_types(fv.params) == Err::<
                                Seq<LirTypeV>,
                                CollectErrorV,
                            >(e.deep_view()));
                            assert(collect_functions(ctx@, pv.functions.skip(i as int)) == Err::<
                                ContextV,
                                CollectErrorV,
                            >(e.deep_view()));
                        }
                        return Err(e);
                    },
                }
            }
            proof {
                assert(fv.params.skip(np as int) =~= Seq::<(Seq<char>, TypeV)>::empty());
                assert(lir_type_seq_view(params) + Seq::<LirTypeV>::empty() =~= lir_type_seq_view(
                    params,
                ));
                assert(convert_param_types(fv.params) == Ok::<_, CollectErrorV>(
                    lir_type_seq_view(params),
                ));
            }
            match Self::convert_type(&fd.return_type) {
                Ok(ret) => {
                    ctx.register_function(fd.name.clone(), params, ret);
                },
                Err(e) => {
                    proof {
                        assert(collect_functions(ctx@, pv.functions.skip(i as int)) == Err::<
                            ContextV,
                            CollectErrorV,
                        >(e.deep_view()));
                    }
                    return Err(e);
                },
            }
            i = i + 1;
        }
        proof {
            assert(pv.functions.skip(nf as int) =~= Seq::<crate::ast::FunctionDefV>::empty());
            assert(collect_functions(after_statics, pv.functions) == Ok::<ContextV, CollectErrorV>(
                ctx@,
            ));
        }
        Ok(ctx)
    }
}

} // verus!
