use abyss::ast::{Expr, FunctionBody, FunctionDef, Lit, Program, Stmt, Type};
use abyss::director::{Director, EmitError};
use abyss::lir::{LirExpr, LirFunctionDef, LirLiteral, LirProgram, LirStmt, LirType};
use abyss::target::{TargetOp, TraceTarget};

fn s(text: &str) -> String {
    text.to_string()
}

fn lir_func(name: &str, body: Vec<LirStmt>) -> LirFunctionDef {
    LirFunctionDef {
        name: s(name),
        params: vec![],
        return_type: LirType::Void,
        body,
        is_extern: false,
    }
}

fn drive(body: Vec<LirStmt>) -> Result<Vec<TargetOp>, EmitError> {
    let program = LirProgram { functions: vec![lir_func("f", body)] };
    let mut director = Director::new(TraceTarget::new());
    director.process_program(&program)?;
    Ok(director.into_target().recorded)
}

#[test]
fn break_outside_loop_is_a_fatal_internal_error() {
    match drive(vec![LirStmt::Break]) {
        Err(EmitError::BreakOutsideLoop) => {},
        other => panic!("break outside a loop must abort, got {:?}", other),
    }
}

#[test]
fn continue_outside_loop_is_a_fatal_internal_error() {
    match drive(vec![LirStmt::Continue]) {
        Err(EmitError::ContinueOutsideLoop) => {},
        other => panic!("continue outside a loop must abort, got {:?}", other),
    }
}

#[test]
fn assigning_to_a_literal_is_not_an_lvalue() {
    let bad = LirStmt::Assign(
        LirExpr::Lit(LirLiteral::Int(1)),
        LirExpr::Lit(LirLiteral::Int(2)),
    );
    match drive(vec![bad]) {
        Err(EmitError::NotAnLValue) => {},
        other => panic!("literal lvalue must abort, got {:?}", other),
    }
}

#[test]
fn ternary_is_not_in_the_operation_catalogue() {
    let t = LirExpr::Ternary(
        Box::new(LirExpr::Lit(LirLiteral::Bool(true))),
        Box::new(LirExpr::Lit(LirLiteral::Int(1))),
        Box::new(LirExpr::Lit(LirLiteral::Int(2))),
    );
    match drive(vec![LirStmt::ExprStmt(t)]) {
        Err(EmitError::UnsupportedConstruct) => {},
        other => panic!("ternary must abort, got {:?}", other),
    }
}

#[test]
fn if_with_returning_then_arm_seals_then_else_merge_in_order() {
    // if (true) { return 1; } else { x = 2; }
    let body = vec![
        LirStmt::Let(s("x"), LirType::I64, None),
        LirStmt::If {
            cond: LirExpr::Lit(LirLiteral::Bool(true)),
            then_branch: vec![LirStmt::Return(Some(LirExpr::Lit(LirLiteral::Int(1))))],
            else_branch: vec![LirStmt::Assign(
                LirExpr::Ident(s("x")),
                LirExpr::Lit(LirLiteral::Int(2)),
            )],
        },
    ];
    let ops = drive(body).expect("driving should succeed");

    let seals: Vec<usize> = ops
        .iter()
        .filter_map(|op| match op {
            TargetOp::SealBlock(b) => Some(*b),
            _ => None,
        })
        .collect();
    assert_eq!(seals.len(), 3, "exactly then, else and merge are sealed");
    let (then_b, else_b, merge_b) = (seals[0], seals[1], seals[2]);

    let branch = ops
        .iter()
        .find_map(|op| match op {
            TargetOp::Branch(_, t, e) => Some((*t, *e)),
            _ => None,
        })
        .expect("a conditional branch is emitted");
    assert_eq!(branch.0, then_b, "the first sealed block is the then block");
    assert_eq!(branch.1, else_b, "the second sealed block is the else block");
    assert!(then_b < merge_b && merge_b < else_b, "create order: then, merge, else");

    // No jump to merge between sealing then and switching to else: the
    // then arm ends in a return. The else arm does jump to merge.
    let seal_then_at = ops
        .iter()
        .position(|op| matches!(op, TargetOp::SealBlock(b) if *b == then_b))
        .unwrap();
    let switch_else_at = ops
        .iter()
        .position(|op| matches!(op, TargetOp::SwitchToBlock(b) if *b == else_b))
        .unwrap();
    assert!(
        ops[seal_then_at..switch_else_at]
            .iter()
            .all(|op| !matches!(op, TargetOp::Jump(b) if *b == merge_b)),
        "no jump from the then block to merge",
    );
    let seal_merge_at = ops
        .iter()
        .position(|op| matches!(op, TargetOp::SealBlock(b) if *b == merge_b))
        .unwrap();
    assert!(
        ops[switch_else_at..seal_merge_at]
            .iter()
            .any(|op| matches!(op, TargetOp::Jump(b) if *b == merge_b)),
        "the else block jumps to merge",
    );
}

#[test]
fn while_header_is_jumped_to_before_its_condition_and_sealed_after_back_edge() {
    // while (c) { x = 1; }
    let body = vec![
        LirStmt::Let(s("c"), LirType::Bool, None),
        LirStmt::Let(s("x"), LirType::I64, None),
        LirStmt::While {
            cond: LirExpr::Ident(s("c")),
            body: vec![LirStmt::Assign(
                LirExpr::Ident(s("x")),
                LirExpr::Lit(LirLiteral::Int(1)),
            )],
        },
    ];
    let ops = drive(body).expect("driving should succeed");

    let header = ops
        .iter()
        .position(|op| matches!(op, TargetOp::CreateBlock))
        .expect("the header block is created");
    let first_jump_at = ops
        .iter()
        .position(|op| matches!(op, TargetOp::Jump(b) if *b == header))
        .expect("the header is jumped to");
    let cond_at = ops
        .iter()
        .position(|op| matches!(op, TargetOp::IdentRef(n) if n == "c"))
        .expect("the condition is evaluated");
    assert!(first_jump_at < cond_at, "jumped to before its condition is known");

    let seal_header_at = ops
        .iter()
        .position(|op| matches!(op, TargetOp::SealBlock(b) if *b == header))
        .expect("the header is sealed");
    let back_edge_at = ops
        .iter()
        .rposition(|op| matches!(op, TargetOp::Jump(b) if *b == header))
        .expect("the back-edge jump");
    assert_eq!(seal_header_at, back_edge_at + 1, "sealed right after the back-edge");
    let store_at = ops
        .iter()
        .position(|op| matches!(op, TargetOp::Store(_, _)))
        .expect("the body runs");
    assert!(store_at < back_edge_at, "the back-edge follows the body");
}

#[test]
fn break_inside_loop_jumps_to_the_exit_block() {
    let body = vec![LirStmt::While {
        cond: LirExpr::Lit(LirLiteral::Bool(true)),
        body: vec![LirStmt::Break],
    }];
    let ops = drive(body).expect("driving should succeed");
    let branch_exit = ops
        .iter()
        .find_map(|op| match op {
            TargetOp::Branch(_, _, e) => Some(*e),
            _ => None,
        })
        .expect("the loop branch");
    assert!(
        ops.iter().any(|op| matches!(op, TargetOp::Jump(b) if *b == branch_exit)),
        "break jumps to the loop's exit block",
    );
}

#[test]
fn string_literal_is_decoded_with_escapes_and_nul() {
    let bytes = abyss::director::process_string_literal("\"hi\\n\"");
    assert_eq!(bytes, vec![104u8, 105, 10, 0]);
    let bare = abyss::director::process_string_literal("a\\t");
    assert_eq!(bare, vec![97u8, 9, 0]);
    let lone = abyss::director::process_string_literal("\\");
    assert_eq!(lone, vec![92u8, 0]);
}

#[test]
fn deref_of_addr_of_cancels_out() {
    let e = LirExpr::Deref(Box::new(LirExpr::AddrOf(Box::new(LirExpr::Lit(
        LirLiteral::Int(5),
    )))));
    let ops = drive(vec![LirStmt::ExprStmt(e)]).expect("driving should succeed");
    assert!(ops.iter().all(|op| !matches!(op, TargetOp::Load(_))));
    assert!(ops.iter().any(|op| matches!(op, TargetOp::LitInt(5))));
}

#[test]
fn addr_of_array_variable_decays_to_its_value() {
    let body = vec![
        LirStmt::Let(s("a"), LirType::Array(Box::new(LirType::I64), 3), None),
        LirStmt::ExprStmt(LirExpr::AddrOf(Box::new(LirExpr::Ident(s("a"))))),
    ];
    let ops = drive(body).expect("driving should succeed");
    assert!(
        ops.iter().all(|op| !matches!(op, TargetOp::GetVariableAddress(_))),
        "an array operand decays: no extra indirection is taken",
    );
    assert!(ops.iter().any(|op| matches!(op, TargetOp::IdentRef(n) if n == "a")));
}

#[test]
fn program_pass_declares_externs_and_predefines_bodies() {
    let mut ext = lir_func("puts", vec![]);
    ext.is_extern = true;
    let main = lir_func(
        "main",
        vec![LirStmt::Return(None)],
    );
    let program = LirProgram { functions: vec![ext, main] };
    let mut director = Director::new(TraceTarget::new());
    director.process_program(&program).expect("driving should succeed");
    let ops = director.into_target().recorded;
    assert!(matches!(ops.first(), Some(TargetOp::StartProgram)));
    assert!(matches!(ops.last(), Some(TargetOp::EndProgram)));
    assert!(ops.iter().any(|op| matches!(op, TargetOp::DeclareExternFunction(n, _, _) if n == "puts")));
    assert!(ops.iter().any(|op| matches!(op, TargetOp::PredefineFunction(n, _, _) if n == "main")));
    // Only the defined function gets a body; a void function returns
    // implicitly.
    assert_eq!(
        ops.iter().filter(|op| matches!(op, TargetOp::StartFunction(_))).count(),
        1,
    );
    assert_eq!(
        ops.iter().filter(|op| matches!(op, TargetOp::ReturnVoid)).count(),
        2,
        "the explicit return and the implicit one for the void function",
    );
}

#[test]
fn function_parameters_are_declared_in_order() {
    let f = LirFunctionDef {
        name: s("add"),
        params: vec![(s("a"), LirType::I64), (s("b"), LirType::I64)],
        return_type: LirType::I64,
        body: vec![LirStmt::Return(Some(LirExpr::Binary(
            Box::new(LirExpr::Ident(s("a"))),
            abyss::ast::BinaryOp::Add,
            Box::new(LirExpr::Ident(s("b"))),
        )))],
        is_extern: false,
    };
    let program = LirProgram { functions: vec![f] };
    let mut director = Director::new(TraceTarget::new());
    director.process_program(&program).expect("driving should succeed");
    let ops = director.into_target().recorded;
    let params: Vec<String> = ops
        .iter()
        .filter_map(|op| match op {
            TargetOp::AddFunctionParam(n, _) => Some(n.clone()),
            _ => None,
        })
        .collect();
    assert_eq!(params, vec![s("a"), s("b")]);
    assert!(ops.iter().any(|op| matches!(op, TargetOp::BinOp(abyss::ast::BinaryOp::Add, _, _))));
}

#[test]
fn whole_pipeline_runs_from_tree_to_trace() {
    let inner = FunctionDef {
        is_pub: false,
        name: s("twice"),
        generics: vec![],
        params: vec![(s("n"), Type::I64)],
        return_type: Type::I64,
        body: FunctionBody::UserDefined(vec![Stmt::Ret(Expr::Binary(
            Box::new(Expr::Ident(vec![s("n")])),
            abyss::ast::BinaryOp::Add,
            Box::new(Expr::Ident(vec![s("n")])),
        ))]),
    };
    let main = FunctionDef {
        is_pub: false,
        name: s("main"),
        generics: vec![],
        params: vec![],
        return_type: Type::I64,
        body: FunctionBody::UserDefined(vec![
            Stmt::FunctionDef(Box::new(inner)),
            Stmt::Ret(Expr::Call(
                Box::new(Expr::Ident(vec![s("twice")])),
                vec![Expr::Lit(Lit::Int(21))],
                vec![],
            )),
        ]),
    };
    let program = Program {
        modules: vec![],
        structs: vec![],
        functions: vec![main],
        statics: vec![],
    };
    let flat = abyss::flattener::Flattener::new().flatten(program);
    let ctx = abyss::collector::Collector::collect(&flat).expect("collection succeeds");
    assert!(ctx.lookup_function("main__twice").is_some());
    let lir = abyss::ir::Ir::build(&flat);
    let mut director = Director::new(TraceTarget::new());
    director.process_program(&lir).expect("driving succeeds");
    let ops = director.into_target().recorded;
    assert!(
        ops.iter().any(|op| matches!(op, TargetOp::CallFunction(n, args) if n == "main__twice" && args.len() == 1)),
        "the nested call is driven under its mangled name",
    );
}
