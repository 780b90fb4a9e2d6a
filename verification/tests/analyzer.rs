use abyss::ast::{
    Expr, FunctionBody, FunctionDef, Lit, Program, StaticDef, Stmt, StructDef, Type,
};
use abyss::collector::{CollectError, Collector};
use abyss::flattener::Flattener;
use abyss::hir::FlatProgram;
use abyss::ir::Ir;
use abyss::lir::{LirStmt, LirType};
use abyss::mangle::{join_strings, mangled};
use abyss::symbols::Context;

fn s(text: &str) -> String {
    text.to_string()
}

fn empty_program() -> Program {
    Program { modules: vec![], structs: vec![], functions: vec![], statics: vec![] }
}

fn func(name: &str, body: Vec<Stmt>) -> FunctionDef {
    FunctionDef {
        is_pub: false,
        name: s(name),
        generics: vec![],
        params: vec![],
        return_type: Type::Void,
        body: FunctionBody::UserDefined(body),
    }
}

#[test]
fn mangled_name_joins_path_with_double_underscore() {
    let path = vec![s("a"), s("b")];
    assert_eq!(mangled(&path, "f"), "a__b__f");
    assert_eq!(join_strings(&path), "a__b");
}

#[test]
fn mangled_name_at_top_level_stays_bare() {
    let path: Vec<String> = vec![];
    assert_eq!(mangled(&path, "main"), "main");
}

#[test]
fn flatten_extracts_nested_function_and_rewrites_call() {
    let g = func("g", vec![]);
    let call_g = Stmt::Expr(Expr::Call(
        Box::new(Expr::Ident(vec![s("g")])),
        vec![],
        vec![],
    ));
    let f = func("f", vec![Stmt::FunctionDef(Box::new(g)), call_g]);
    let mut program = empty_program();
    program.functions.push(f);

    let flat = Flattener::new().flatten(program);
    assert_eq!(flat.functions.len(), 2);
    assert_eq!(flat.functions[0].name, "f");
    assert_eq!(flat.functions[1].name, "f__g");
    match &flat.functions[0].body {
        FunctionBody::UserDefined(stmts) => {
            assert_eq!(stmts.len(), 1);
            match &stmts[0] {
                Stmt::Expr(Expr::Call(callee, _, _)) => match &**callee {
                    Expr::Ident(path) => {
                        assert_eq!(path.len(), 1);
                        assert_eq!(path[0], "f__g");
                    },
                    other => panic!("unexpected callee {:?}", other),
                },
                _ => panic!("unexpected statement"),
            }
        },
        FunctionBody::Extern => panic!("body lost"),
    }
}

#[test]
fn flatten_mangles_module_members_and_struct_references() {
    let inner_struct = StructDef {
        is_pub: false,
        name: s("P"),
        generics: vec![],
        fields: vec![(s("x"), Type::I64)],
    };
    let uses_p = FunctionDef {
        is_pub: false,
        name: s("make"),
        generics: vec![],
        params: vec![],
        return_type: Type::Struct(vec![s("P")], vec![]),
        body: FunctionBody::UserDefined(vec![]),
    };
    let module = Program {
        modules: vec![],
        structs: vec![inner_struct],
        functions: vec![uses_p],
        statics: vec![],
    };
    let program = Program {
        modules: vec![(s("geo"), module, true)],
        structs: vec![],
        functions: vec![],
        statics: vec![],
    };

    let flat = Flattener::new().flatten(program);
    assert_eq!(flat.structs.len(), 1);
    assert_eq!(flat.structs[0].name, "geo__P");
    assert_eq!(flat.functions.len(), 1);
    assert_eq!(flat.functions[0].name, "geo__make");
    match &flat.functions[0].return_type {
        Type::Struct(path, _) => {
            assert_eq!(path.len(), 1);
            assert_eq!(path[0], "geo__P");
        },
        other => panic!("unexpected return type {:?}", other),
    }
}

#[test]
fn flatten_mangles_statics_with_path() {
    let st = StaticDef {
        is_pub: false,
        name: s("count"),
        generics: vec![],
        ty: Type::I64,
        value: Expr::Lit(Lit::Int(0)),
    };
    let module = Program { modules: vec![], structs: vec![], functions: vec![], statics: vec![st] };
    let program = Program {
        modules: vec![(s("m"), module, false)],
        structs: vec![],
        functions: vec![],
        statics: vec![],
    };
    let flat = Flattener::new().flatten(program);
    assert_eq!(flat.statics.len(), 1);
    assert_eq!(flat.statics[0].name, "m__count");
}

fn flat_with_struct(fields: Vec<(String, Type)>) -> FlatProgram {
    FlatProgram {
        functions: vec![],
        structs: vec![StructDef { is_pub: false, name: s("Box"), generics: vec![], fields }],
        unions: vec![],
        statics: vec![],
        union_struct_defs: vec![],
    }
}

#[test]
fn collector_rejects_generic_struct_field_naming_the_path() {
    let flat = flat_with_struct(vec![(
        s("inner"),
        Type::Struct(vec![s("Box")], vec![Type::I64]),
    )]);
    match Collector::collect(&flat) {
        Err(CollectError::GenericStructUnsupported(path)) => {
            assert_eq!(path.len(), 1);
            assert_eq!(path[0], "Box");
        },
        _ => panic!("generic struct field was not rejected"),
    }
}

#[test]
fn collector_accepts_plain_struct_field() {
    let flat = flat_with_struct(vec![(s("inner"), Type::Struct(vec![s("Box")], vec![]))]);
    let ctx = Collector::collect(&flat).expect("collection should succeed");
    match ctx.get_struct_field_type("Box", "inner") {
        Some(LirType::Struct(name)) => assert_eq!(name, "Box"),
        _ => panic!("field type lost"),
    }
}

#[test]
fn collector_rejects_array_typed_field() {
    let flat = flat_with_struct(vec![(s("data"), Type::Array(Box::new(Type::U8), 4))]);
    match Collector::collect(&flat) {
        Err(CollectError::UnsupportedType(Type::Array(_, 4))) => {},
        _ => panic!("array field was not rejected with the offending type"),
    }
}

#[test]
fn collector_registers_globals_and_signatures() {
    let mut flat = flat_with_struct(vec![]);
    flat.statics.push(StaticDef {
        is_pub: false,
        name: s("g"),
        generics: vec![],
        ty: Type::Bool,
        value: Expr::Lit(Lit::Bool(true)),
    });
    flat.functions.push(FunctionDef {
        is_pub: false,
        name: s("add"),
        generics: vec![],
        params: vec![(s("a"), Type::I64), (s("b"), Type::I64)],
        return_type: Type::I64,
        body: FunctionBody::Extern,
    });
    let ctx = Collector::collect(&flat).expect("collection should succeed");
    let info = ctx.lookup_function("add").expect("signature registered");
    assert_eq!(info.params.len(), 2);
    assert!(matches!(info.ret_ty, LirType::I64));
    let var = ctx.lookup_var("g").expect("global registered");
    assert!(var.is_global);
    assert!(matches!(var.ty, LirType::Bool));
}

#[test]
fn context_lookup_is_innermost_scope_first() {
    let mut ctx = Context::new();
    ctx.declare_global(s("x"), LirType::Bool);
    ctx.declare_var(s("x"), LirType::I64);
    ctx.enter_scope();
    ctx.declare_var(s("x"), LirType::U8);
    let inner = ctx.lookup_var("x").expect("x in scope");
    assert!(matches!(inner.ty, LirType::U8));
    assert!(!inner.is_global);
    ctx.exit_scope();
    let outer = ctx.lookup_var("x").expect("x in scope");
    assert!(matches!(outer.ty, LirType::I64));
    ctx.clear_vars();
    let global = ctx.lookup_var("x").expect("global fallback");
    assert!(global.is_global);
    assert!(ctx.lookup_var("missing").is_none());
}

#[test]
fn lowering_defaults_untyped_let_to_i64() {
    let flat = FlatProgram {
        functions: vec![func(
            "f",
            vec![Stmt::Let(s("x"), None, Some(Expr::Lit(Lit::Int(1))))],
        )],
        structs: vec![],
        unions: vec![],
        statics: vec![],
        union_struct_defs: vec![],
    };
    let lir = Ir::build(&flat);
    assert_eq!(lir.functions.len(), 1);
    match &lir.functions[0].body[0] {
        LirStmt::Let(name, LirType::I64, Some(_)) => assert_eq!(name, "x"),
        other => panic!("unexpected lowering {:?}", other),
    }
}

#[test]
fn lowering_rewrites_method_call_with_receiver_first() {
    let call = Expr::MethodCall(
        Box::new(Expr::Ident(vec![s("p")])),
        s("norm"),
        vec![Expr::Lit(Lit::Int(3))],
        vec![],
    );
    let flat = FlatProgram {
        functions: vec![func("f", vec![Stmt::Expr(call)])],
        structs: vec![],
        unions: vec![],
        statics: vec![],
        union_struct_defs: vec![],
    };
    let lir = Ir::build(&flat);
    match &lir.functions[0].body[0] {
        LirStmt::ExprStmt(abyss::lir::LirExpr::Call { func_name, args }) => {
            assert_eq!(func_name, "norm");
            assert_eq!(args.len(), 2);
            assert!(matches!(args[0], abyss::lir::LirExpr::Ident(_)));
        },
        other => panic!("unexpected lowering {:?}", other),
    }
}

#[test]
fn lowering_gives_enum_construction_the_placeholder_tag() {
    let init = Expr::EnumInit(vec![s("opt"), s("Some")], vec![Expr::Lit(Lit::Int(7))], vec![]);
    let flat = FlatProgram {
        functions: vec![func("f", vec![Stmt::Expr(init)])],
        structs: vec![],
        unions: vec![],
        statics: vec![],
        union_struct_defs: vec![],
    };
    let lir = Ir::build(&flat);
    match &lir.functions[0].body[0] {
        LirStmt::ExprStmt(abyss::lir::LirExpr::EnumInit { enum_name, variant_tag, payload }) => {
            assert_eq!(enum_name, "opt__Some");
            assert_eq!(*variant_tag, 0);
            assert!(payload.is_some());
        },
        other => panic!("unexpected lowering {:?}", other),
    }
}

#[test]
fn lowering_drops_structural_statements_and_keeps_extern_flag() {
    let nested = Stmt::StructDef(Box::new(StructDef {
        is_pub: false,
        name: s("S"),
        generics: vec![],
        fields: vec![],
    }));
    let flat = FlatProgram {
        functions: vec![
            func("f", vec![nested, Stmt::Ret(Expr::Lit(Lit::Int(0)))]),
            FunctionDef {
                is_pub: false,
                name: s("puts"),
                generics: vec![],
                params: vec![(s("s"), Type::Pointer(Box::new(Type::U8)))],
                return_type: Type::Void,
                body: FunctionBody::Extern,
            },
        ],
        structs: vec![],
        unions: vec![],
        statics: vec![],
        union_struct_defs: vec![],
    };
    let lir = Ir::build(&flat);
    assert_eq!(lir.functions[0].body.len(), 1);
    assert!(!lir.functions[0].is_extern);
    assert!(lir.functions[1].is_extern);
    assert_eq!(lir.functions[1].body.len(), 0);
}

#[test]
fn lowering_joins_qualified_identifiers() {
    let flat = FlatProgram {
        functions: vec![func(
            "f",
            vec![Stmt::Expr(Expr::Ident(vec![s("m"), s("x")]))],
        )],
        structs: vec![],
        unions: vec![],
        statics: vec![],
        union_struct_defs: vec![],
    };
    let lir = Ir::build(&flat);
    match &lir.functions[0].body[0] {
        LirStmt::ExprStmt(abyss::lir::LirExpr::Ident(name)) => assert_eq!(name, "m__x"),
        other => panic!("unexpected lowering {:?}", other),
    }
}
