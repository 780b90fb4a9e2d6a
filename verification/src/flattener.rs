//! The name flattener: walks the nested module/function tree, gives every
//! struct, static and function a globally unique mangled name derived from
//! its lexical nesting path, extracts declarations nested inside function
//! bodies into top-level siblings, and rewrites references to the mangled
//! names.
//!
//! The rename map is scoped: it is saved and restored around every nested
//! scope, so sibling scopes never see each other's local renames. Within a
//! scope, the names of all structs and functions declared there are
//! registered before any body is visited, so forward references and mutual
//! recursion resolve.

use vstd::prelude::*;
use vstd::string::StringExecFns;

use crate::ast::{
    expr_seq_view, expr_view, program_view, stmt_seq_view, stmt_view, type_seq_view, type_view,
    Expr, ExprV, FunctionBody, FunctionBodyV, FunctionDef, FunctionDefV, Program, ProgramV, Stmt,
    StmtV, StructDef, StructDefV, Type, TypeV,
};
use crate::hir::{empty_flat_program, FlatProgram, FlatProgramV};
use crate::mangle::{copy_path, join_path, join_strings, mangled, mangled_name, sep};
use crate::strmap::StrMap;

verus! {

/// The rename map: source name to mangled name.
pub type Renames = Map<Seq<char>, Seq<char>>;

/// The name of an entity declared directly inside another: the enclosing
/// mangled name, the separator, the inner name.
pub open spec fn child_name(parent: Seq<char>, name: Seq<char>) -> Seq<char> {
    parent + sep() + name
}

/// Reference rewriting: a single-segment path is renamed through the
/// active map; a multi-segment path is joined into one mangled segment,
/// registered or not (an unresolved name surfaces later, at use).
pub open spec fn rename_path(m: Renames, path: Seq<Seq<char>>) -> Seq<Seq<char>> {
    if path.len() == 1 {
        if m.contains_key(path[0]) {
            seq![m[path[0]]]
        } else {
            path
        }
    } else if path.len() > 1 {
        seq![join_path(path)]
    } else {
        path
    }
}

/// Rewriting inside a type: struct paths are rewritten, and the rewrite
/// recurses through pointers, arrays, function types and generic
/// arguments.
pub open spec fn rename_type(m: Renames, t: TypeV) -> TypeV
    decreases t,
{
    match t {
        TypeV::Struct(path, generics) => TypeV::Struct(
            rename_path(m, path),
            rename_type_seq(m, generics),
        ),
        TypeV::Pointer(inner) => TypeV::Pointer(Box::new(rename_type(m, *inner))),
        TypeV::Array(inner, n) => TypeV::Array(Box::new(rename_type(m, *inner)), n),
        TypeV::Function(args, ret, generics) => TypeV::Function(
            rename_type_seq(m, args),
            Box::new(rename_type(m, *ret)),
            generics,
        ),
        _ => t,
    }
}

pub open spec fn rename_type_seq(m: Renames, ts: Seq<TypeV>) -> Seq<TypeV>
    decreases ts,
{
    Seq::new(
        ts.len(),
        |i: int|
            if 0 <= i < ts.len() {
                rename_type(m, ts[i])
            } else {
                TypeV::Void
            },
    )
}

pub open spec fn rename_opt_type(m: Renames, t: Option<TypeV>) -> Option<TypeV> {
    match t {
        Some(ty) => Some(rename_type(m, ty)),
        None => None,
    }
}

/// Rewriting inside an expression: identifiers and struct-init paths are
/// rewritten, and the rewrite recurses through operands, call arguments,
/// construction arguments, casts, size-of operands and member receivers.
pub open spec fn rename_expr(m: Renames, e: ExprV) -> ExprV
    decreases e,
{
    match e {
        ExprV::Ident(path) => ExprV::Ident(rename_path(m, path)),
        ExprV::StructInit(path, fields, generics) => ExprV::StructInit(
            rename_path(m, path),
            rename_field_inits(m, fields),
            rename_type_seq(m, generics),
        ),
        ExprV::EnumInit(path, payload, generics) => ExprV::EnumInit(
            path,
            rename_expr_seq(m, payload),
            rename_type_seq(m, generics),
        ),
        ExprV::Call(callee, args, generics) => ExprV::Call(
            Box::new(rename_expr(m, *callee)),
            rename_expr_seq(m, args),
            rename_type_seq(m, generics),
        ),
        ExprV::Binary(lhs, op, rhs) => ExprV::Binary(
            Box::new(rename_expr(m, *lhs)),
            op,
            Box::new(rename_expr(m, *rhs)),
        ),
        ExprV::Unary(op, operand) => ExprV::Unary(op, Box::new(rename_expr(m, *operand))),
        ExprV::Index(base, idx) => ExprV::Index(
            Box::new(rename_expr(m, *base)),
            Box::new(rename_expr(m, *idx)),
        ),
        ExprV::Deref(inner) => ExprV::Deref(Box::new(rename_expr(m, *inner))),
        ExprV::AddrOf(inner) => ExprV::AddrOf(Box::new(rename_expr(m, *inner))),
        ExprV::Member(obj, field) => ExprV::Member(Box::new(rename_expr(m, *obj)), field),
        ExprV::MethodCall(obj, name, args, generics) => ExprV::MethodCall(
            Box::new(rename_expr(m, *obj)),
            name,
            rename_expr_seq(m, args),
            rename_type_seq(m, generics),
        ),
        ExprV::Cast(inner, ty) => ExprV::Cast(Box::new(rename_expr(m, *inner)), rename_type(m, ty)),
        ExprV::SizeOf(ty) => ExprV::SizeOf(rename_type(m, ty)),
        _ => e,
    }
}

pub open spec fn rename_expr_seq(m: Renames, es: Seq<ExprV>) -> Seq<ExprV>
    decreases es,
{
    Seq::new(
        es.len(),
        |i: int|
            if 0 <= i < es.len() {
                rename_expr(m, es[i])
            } else {
                ExprV::Lit(crate::ast::LitV::Null)
            },
    )
}

pub open spec fn rename_field_inits(m: Renames, fs: Seq<(Seq<char>, ExprV)>) -> Seq<
    (Seq<char>, ExprV),
>
    decreases fs,
{
    Seq::new(
        fs.len(),
        |i: int|
            if 0 <= i < fs.len() {
                (fs[i].0, rename_expr(m, fs[i].1))
            } else {
                (Seq::<char>::empty(), ExprV::Lit(crate::ast::LitV::Null))
            },
    )
}

pub open spec fn rename_opt_expr(m: Renames, e: Option<ExprV>) -> Option<ExprV> {
    match e {
        Some(x) => Some(rename_expr(m, x)),
        None => None,
    }
}

/// Rewriting inside a statement: initializers, conditions, loop bodies
/// and blocks are rewritten; nested declaration statements are left to the
/// extraction walk.
pub open spec fn rename_stmt(m: Renames, s: StmtV) -> StmtV
    decreases s,
{
    match s {
        StmtV::Let(name, ty, init) => StmtV::Let(
            name,
            rename_opt_type(m, ty),
            rename_opt_expr(m, init),
        ),
        StmtV::Const(name, ty, init) => StmtV::Const(
            name,
            rename_opt_type(m, ty),
            rename_opt_expr(m, init),
        ),
        StmtV::Ret(e) => StmtV::Ret(rename_expr(m, e)),
        StmtV::Expr(e) => StmtV::Expr(rename_expr(m, e)),
        StmtV::Assign(lhs, rhs) => StmtV::Assign(rename_expr(m, lhs), rename_expr(m, rhs)),
        StmtV::If(cond, then_stmt, else_stmt) => StmtV::If(
            rename_expr(m, cond),
            Box::new(rename_stmt(m, *then_stmt)),
            match else_stmt {
                Some(e) => Some(Box::new(rename_stmt(m, *e))),
                None => None,
            },
        ),
        StmtV::While(cond, body) => StmtV::While(
            rename_expr(m, cond),
            Box::new(rename_stmt(m, *body)),
        ),
        StmtV::Block(ss) => StmtV::Block(rename_stmt_seq(m, ss)),
        _ => s,
    }
}

pub open spec fn rename_stmt_seq(m: Renames, ss: Seq<StmtV>) -> Seq<StmtV>
    decreases ss,
{
    Seq::new(
        ss.len(),
        |i: int|
            if 0 <= i < ss.len() {
                rename_stmt(m, ss[i])
            } else {
                StmtV::Break
            },
    )
}

// ---------------------------------------------------------------------
// Scope registration and extraction.
// ---------------------------------------------------------------------

/// Registers the mangled names of structs declared directly in a scope.
pub open spec fn register_structs(m: Renames, path: Seq<Seq<char>>, ds: Seq<StructDefV>) -> Renames
    decreases ds.len(),
{
    if ds.len() == 0 {
        m
    } else {
        register_structs(m.insert(ds[0].name, mangled_name(path, ds[0].name)), path, ds.drop_first())
    }
}

/// Registers the mangled names of functions declared directly in a scope.
pub open spec fn register_functions(
    m: Renames,
    path: Seq<Seq<char>>,
    fs: Seq<FunctionDefV>,
) -> Renames
    decreases fs.len(),
{
    if fs.len() == 0 {
        m
    } else {
        register_functions(
            m.insert(fs[0].name, mangled_name(path, fs[0].name)),
            path,
            fs.drop_first(),
        )
    }
}

/// Registers the names of functions and structs declared directly inside
/// a function body, as children of the enclosing mangled name.
pub open spec fn register_inner(m: Renames, parent: Seq<char>, ss: Seq<StmtV>) -> Renames
    decreases ss.len(),
{
    if ss.len() == 0 {
        m
    } else {
        let m2 = match ss[0] {
            StmtV::FunctionDef(g) => m.insert(g.name, child_name(parent, g.name)),
            StmtV::StructDef(s) => m.insert(s.name, child_name(parent, s.name)),
            _ => m,
        };
        register_inner(m2, parent, ss.drop_first())
    }
}

/// The resolved name of a declaration: its registered rename, or the
/// mangled form of its bare name at the current path.
pub open spec fn resolve_name(m: Renames, path: Seq<Seq<char>>, name: Seq<char>) -> Seq<char> {
    if m.contains_key(name) {
        m[name]
    } else {
        mangled_name(path, name)
    }
}

/// A function body with the nested declaration statements removed.
pub open spec fn cleaned_stmts(ss: Seq<StmtV>) -> Seq<StmtV>
    decreases ss.len(),
{
    if ss.len() == 0 {
        Seq::empty()
    } else {
        match ss[0] {
            StmtV::FunctionDef(_) => cleaned_stmts(ss.drop_first()),
            StmtV::StructDef(_) => cleaned_stmts(ss.drop_first()),
            _ => seq![ss[0]] + cleaned_stmts(ss.drop_first()),
        }
    }
}

/// The structs extracted from a function body: renamed to children of the
/// enclosing mangled name, their field types rewritten, appended in order
/// of appearance.
pub open spec fn extract_inner_structs(
    m: Renames,
    parent: Seq<char>,
    out: Seq<StructDefV>,
    ss: Seq<StmtV>,
) -> Seq<StructDefV>
    decreases ss.len(),
{
    if ss.len() == 0 {
        out
    } else {
        let out2 = match ss[0] {
            StmtV::StructDef(s) => out.push(
                StructDefV {
                    name: child_name(parent, s.name),
                    fields: rename_params(m, s.fields),
                    ..s
                },
            ),
            _ => out,
        };
        extract_inner_structs(m, parent, out2, ss.drop_first())
    }
}

/// Parameter or field lists with their types rewritten.
pub open spec fn rename_params(m: Renames, ps: Seq<(Seq<char>, TypeV)>) -> Seq<(Seq<char>, TypeV)>
    decreases ps,
{
    Seq::new(
        ps.len(),
        |i: int|
            if 0 <= i < ps.len() {
                (ps[i].0, rename_type(m, ps[i].1))
            } else {
                (Seq::<char>::empty(), TypeV::Void)
            },
    )
}

// ---------------------------------------------------------------------
// The flattening walk.
// ---------------------------------------------------------------------

/// One function visited: its name resolved, its signature rewritten, its
/// body cleaned of nested declarations, the extracted structs appended,
/// the function itself appended, and the extracted inner functions
/// visited in order of appearance with the body scope's renames active.
pub open spec fn visit_function_spec(
    path: Seq<Seq<char>>,
    m: Renames,
    out: FlatProgramV,
    f: FunctionDefV,
) -> FlatProgramV
    decreases f, 1int,
{
    let name = resolve_name(m, path, f.name);
    let params = rename_params(m, f.params);
    let ret = rename_type(m, f.return_type);
    match f.body {
        FunctionBodyV::Extern => FlatProgramV {
            functions: out.functions.push(
                FunctionDefV { name, params, return_type: ret, ..f },
            ),
            ..out
        },
        FunctionBodyV::UserDefined(stmts) => {
            let m2 = register_inner(m, name, stmts);
            let renamed = rename_stmt_seq(m2, stmts);
            let out1 = FlatProgramV {
                structs: extract_inner_structs(m2, name, out.structs, renamed),
                ..out
            };
            let out2 = FlatProgramV {
                functions: out1.functions.push(
                    FunctionDefV {
                        name,
                        params,
                        return_type: ret,
                        body: FunctionBodyV::UserDefined(cleaned_stmts(renamed)),
                        ..f
                    },
                ),
                ..out1
            };
            visit_inner_functions(path, m2, out2, stmts)
        },
    }
}

/// The functions declared directly in a body, visited in order.
pub open spec fn visit_inner_functions(
    path: Seq<Seq<char>>,
    m: Renames,
    out: FlatProgramV,
    ss: Seq<StmtV>,
) -> FlatProgramV
    decreases ss, 0int,
{
    if ss.len() == 0 {
        out
    } else {
        let out2 = match ss[0] {
            StmtV::FunctionDef(g) => visit_function_spec(path, m, out, *g),
            _ => out,
        };
        visit_inner_functions(path, m, out2, ss.drop_first())
    }
}

/// The structs declared directly in a scope, renamed and appended.
pub open spec fn flatten_structs(
    m: Renames,
    out: FlatProgramV,
    ds: Seq<StructDefV>,
) -> FlatProgramV
    decreases ds.len(),
{
    if ds.len() == 0 {
        out
    } else {
        let d = ds[0];
        let renamed = StructDefV {
            name: if m.contains_key(d.name) {
                m[d.name]
            } else {
                d.name
            },
            fields: rename_params(m, d.fields),
            ..d
        };
        flatten_structs(
            m,
            FlatProgramV { structs: out.structs.push(renamed), ..out },
            ds.drop_first(),
        )
    }
}

/// The functions declared directly in a scope, visited in order.
pub open spec fn flatten_functions(
    path: Seq<Seq<char>>,
    m: Renames,
    out: FlatProgramV,
    fs: Seq<FunctionDefV>,
) -> FlatProgramV
    decreases fs,
{
    if fs.len() == 0 {
        out
    } else {
        flatten_functions(path, m, visit_function_spec(path, m, out, fs[0]), fs.drop_first())
    }
}

/// The statics declared directly in a scope: their names are mangled at
/// the current path and their types rewritten; initializers are carried
/// unchanged.
pub open spec fn flatten_statics(
    path: Seq<Seq<char>>,
    m: Renames,
    out: FlatProgramV,
    ds: Seq<crate::ast::StaticDefV>,
) -> FlatProgramV
    decreases ds.len(),
{
    if ds.len() == 0 {
        out
    } else {
        let d = ds[0];
        let renamed = crate::ast::StaticDefV {
            name: mangled_name(path, d.name),
            ty: rename_type(m, d.ty),
            ..d
        };
        flatten_statics(
            path,
            m,
            FlatProgramV { statics: out.statics.push(renamed), ..out },
            ds.drop_first(),
        )
    }
}

/// One scope visited: nested modules first (with the outer renames), then
/// this scope's structs and functions registered together, then structs,
/// functions and statics processed under the extended map.
pub open spec fn visit_program_spec(
    path: Seq<Seq<char>>,
    m: Renames,
    out: FlatProgramV,
    p: ProgramV,
) -> FlatProgramV
    decreases p, 1int,
{
    let out1 = visit_modules(path, m, out, p.modules);
    let m2 = register_functions(register_structs(m, path, p.structs), path, p.functions);
    let out2 = flatten_structs(m2, out1, p.structs);
    let out3 = flatten_functions(path, m2, out2, p.functions);
    flatten_statics(path, m2, out3, p.statics)
}

/// Nested modules, visited in order with their names pushed on the path.
pub open spec fn visit_modules(
    path: Seq<Seq<char>>,
    m: Renames,
    out: FlatProgramV,
    ms: Seq<(Seq<char>, ProgramV, bool)>,
) -> FlatProgramV
    decreases ms, 0int,
{
    if ms.len() == 0 {
        out
    } else {
        let out2 = visit_program_spec(path.push(ms[0].0), m, out, ms[0].1);
        visit_modules(path, m, out2, ms.drop_first())
    }
}

/// The whole flattening: an empty path, no renames, an empty output.
pub open spec fn flatten_spec(p: ProgramV) -> FlatProgramV {
    visit_program_spec(Seq::empty(), Map::empty(), empty_flat_program(), p)
}

/// The function definitions that sit directly in a statement list.
pub open spec fn inner_defs(ss: Seq<StmtV>) -> Seq<FunctionDefV>
    decreases ss.len(),
{
    if ss.len() == 0 {
        Seq::empty()
    } else {
        match ss[0] {
            StmtV::FunctionDef(g) => seq![*g] + inner_defs(ss.drop_first()),
            _ => inner_defs(ss.drop_first()),
        }
    }
}

/// A list of functions visited in order.
pub open spec fn visit_function_list(
    path: Seq<Seq<char>>,
    m: Renames,
    out: FlatProgramV,
    fs: Seq<FunctionDefV>,
) -> FlatProgramV
    decreases fs.len(),
{
    if fs.len() == 0 {
        out
    } else {
        visit_function_list(path, m, visit_function_spec(path, m, out, fs[0]), fs.drop_first())
    }
}

/// Visiting the function definitions found in a statement list is the
/// same as visiting the list of those definitions.
proof fn lemma_visit_inner_as_list(
    path: Seq<Seq<char>>,
    m: Renames,
    out: FlatProgramV,
    ss: Seq<StmtV>,
)
    ensures
        visit_inner_functions(path, m, out, ss) == visit_function_list(path, m, out, inner_defs(ss)),
    decreases ss.len(),
{
    if ss.len() == 0 {
    } else {
        match ss[0] {
            StmtV::FunctionDef(g) => {
                let fs = inner_defs(ss);
                assert(fs == seq![*g] + inner_defs(ss.drop_first()));
                assert(fs[0] == *g);
                assert(fs.drop_first() =~= inner_defs(ss.drop_first()));
                lemma_visit_inner_as_list(path, m, visit_function_spec(path, m, out, *g), ss.drop_first());
            },
            _ => {
                lemma_visit_inner_as_list(path, m, out, ss.drop_first());
            },
        }
    }
}

/// Extraction preserves call semantics: a top-level function `f` holding
/// a nested function `g` (with an empty body) and a call `g()` flattens to
/// two top-level functions, `f` and the child of `f` named `g`, and the
/// call site inside `f` is rewritten to call that child.
pub proof fn lemma_extraction_preserves_call(f_name: Seq<char>, g_name: Seq<char>)
    requires
        f_name != g_name,
    ensures
        ({
            let g = FunctionDefV {
                is_pub: false,
                name: g_name,
                generics: Seq::empty(),
                params: Seq::empty(),
                return_type: TypeV::Void,
                body: FunctionBodyV::UserDefined(Seq::empty()),
            };
            let call = StmtV::Expr(
                ExprV::Call(Box::new(ExprV::Ident(seq![g_name])), Seq::empty(), Seq::empty()),
            );
            let f = FunctionDefV {
                is_pub: false,
                name: f_name,
                generics: Seq::empty(),
                params: Seq::empty(),
                return_type: TypeV::Void,
                body: FunctionBodyV::UserDefined(seq![StmtV::FunctionDef(Box::new(g)), call]),
            };
            let p = ProgramV {
                modules: Seq::empty(),
                structs: Seq::empty(),
                functions: seq![f],
                statics: Seq::empty(),
            };
            let mangled_g = child_name(f_name, g_name);
            let rewritten_call = StmtV::Expr(
                ExprV::Call(Box::new(ExprV::Ident(seq![mangled_g])), Seq::empty(), Seq::empty()),
            );
            flatten_spec(p).functions =~~= seq![
                FunctionDefV {
                    is_pub: false,
                    name: f_name,
                    generics: Seq::empty(),
                    params: Seq::empty(),
                    return_type: TypeV::Void,
                    body: FunctionBodyV::UserDefined(seq![rewritten_call]),
                },
                FunctionDefV {
                    is_pub: false,
                    name: mangled_g,
                    generics: Seq::empty(),
                    params: Seq::empty(),
                    return_type: TypeV::Void,
                    body: FunctionBodyV::UserDefined(Seq::empty()),
                },
            ]
        }),
{
    let g = FunctionDefV {
        is_pub: false,
        name: g_name,
        generics: Seq::empty(),
        params: Seq::empty(),
        return_type: TypeV::Void,
        body: FunctionBodyV::UserDefined(Seq::empty()),
    };
    let call = StmtV::Expr(
        ExprV::Call(Box::new(ExprV::Ident(seq![g_name])), Seq::empty(), Seq::empty()),
    );
    let f = FunctionDefV {
        is_pub: false,
        name: f_name,
        generics: Seq::empty(),
        params: Seq::empty(),
        return_type: TypeV::Void,
        body: FunctionBodyV::UserDefined(seq![StmtV::FunctionDef(Box::new(g)), call]),
    };
    let p = ProgramV {
        modules: Seq::empty(),
        structs: Seq::empty(),
        functions: seq![f],
        statics: Seq::empty(),
    };
    let path = Seq::<Seq<char>>::empty();
    let out0 = empty_flat_program();
    let m0 = Map::<Seq<char>, Seq<char>>::empty();

    // Top-level registration: at the empty path, f keeps its bare name.
    assert(visit_modules(path, m0, out0, p.modules) == out0);
    assert(register_structs(m0, path, p.structs) == m0);
    assert(mangled_name(path, f_name) == f_name) by {
        assert(path.push(f_name) =~= seq![f_name]);
        assert(join_path(seq![f_name]) == f_name);
    }
    let m1 = m0.insert(f_name, f_name);
    assert(register_functions(m0, path, p.functions) == m1) by {
        assert(p.functions.drop_first() =~= Seq::<FunctionDefV>::empty());
        assert(register_functions(m1, path, Seq::<FunctionDefV>::empty()) == m1);
    }
    assert(flatten_structs(m1, out0, p.structs) == out0);

    // Visiting f: g is registered as a child of f, the body is rewritten,
    // the declaration of g is extracted, and g itself is visited.
    let stmts = seq![StmtV::FunctionDef(Box::new(g)), call];
    assert(resolve_name(m1, path, f_name) == f_name);
    let mangled_g = child_name(f_name, g_name);
    let m2 = m1.insert(g_name, mangled_g);
    assert(register_inner(m1, f_name, stmts) == m2) by {
        assert(stmts.drop_first() =~= seq![call]);
        assert(seq![call].drop_first() =~= Seq::<StmtV>::empty());
        assert(register_inner(m2, f_name, Seq::<StmtV>::empty()) == m2);
        assert(register_inner(m2, f_name, seq![call]) == m2);
    }
    let rewritten_call = StmtV::Expr(
        ExprV::Call(Box::new(ExprV::Ident(seq![mangled_g])), Seq::empty(), Seq::empty()),
    );
    let renamed = rename_stmt_seq(m2, stmts);
    assert(renamed =~= seq![StmtV::FunctionDef(Box::new(g)), rewritten_call]) by {
        assert(renamed[0] == rename_stmt(m2, stmts[0]));
        assert(renamed[1] == rename_stmt(m2, stmts[1]));
        assert(rename_stmt(m2, stmts[0]) == stmts[0]);
        assert(rename_path(m2, seq![g_name]) =~= seq![mangled_g]);
        assert(rename_expr_seq(m2, Seq::empty()) =~= Seq::<ExprV>::empty());
        assert(rename_type_seq(m2, Seq::empty()) =~= Seq::<TypeV>::empty());
        assert(rename_expr(m2, ExprV::Ident(seq![g_name])) == ExprV::Ident(seq![mangled_g]));
        assert(rename_stmt(m2, call) == rewritten_call);
    }
    assert(cleaned_stmts(renamed) =~= seq![rewritten_call]) by {
        assert(renamed.drop_first() =~= seq![rewritten_call]);
        assert(seq![rewritten_call].drop_first() =~= Seq::<StmtV>::empty());
        assert(cleaned_stmts(seq![rewritten_call]) =~= seq![rewritten_call] + cleaned_stmts(
            Seq::empty(),
        ));
    }
    assert(extract_inner_structs(m2, f_name, out0.structs, renamed) =~= out0.structs) by {
        assert(renamed.drop_first() =~= seq![rewritten_call]);
        assert(seq![rewritten_call].drop_first() =~= Seq::<StmtV>::empty());
        assert(extract_inner_structs(m2, f_name, out0.structs, Seq::<StmtV>::empty())
            == out0.structs);
        assert(extract_inner_structs(m2, f_name, out0.structs, seq![rewritten_call])
            == out0.structs);
    }
    assert(rename_params(m1, f.params) =~= Seq::<(Seq<char>, TypeV)>::empty());
    let f_out = FunctionDefV {
        is_pub: false,
        name: f_name,
        generics: Seq::empty(),
        params: Seq::empty(),
        return_type: TypeV::Void,
        body: FunctionBodyV::UserDefined(seq![rewritten_call]),
    };

    // Visiting the extracted g: its name resolves to the child name, and
    // its empty body is unchanged.
    assert(resolve_name(m2, path, g_name) == mangled_g);
    assert(register_inner(m2, mangled_g, Seq::empty()) == m2);
    assert(rename_stmt_seq(m2, Seq::<StmtV>::empty()) =~= Seq::<StmtV>::empty());
    assert(rename_params(m2, g.params) =~= Seq::<(Seq<char>, TypeV)>::empty());
    let g_out = FunctionDefV {
        is_pub: false,
        name: mangled_g,
        generics: Seq::empty(),
        params: Seq::empty(),
        return_type: TypeV::Void,
        body: FunctionBodyV::UserDefined(Seq::empty()),
    };

    let out_f = visit_function_spec(path, m1, out0, f);
    assert(stmts.drop_first() =~= seq![call]);
    assert(seq![call].drop_first() =~= Seq::<StmtV>::empty());
    let after_f = FlatProgramV { functions: out0.functions.push(f_out), ..out0 };
    assert(visit_function_spec(path, m2, after_f, g).functions =~= seq![f_out, g_out]) by {
        assert(visit_function_spec(path, m2, after_f, g).functions =~= after_f.functions.push(
            g_out,
        ));
    }
    assert(out_f.functions =~= seq![f_out, g_out]) by {
        assert(visit_inner_functions(path, m2, after_f, seq![call]) == after_f) by {
            assert(seq![call].drop_first() =~= Seq::<StmtV>::empty());
            assert(visit_inner_functions(path, m2, after_f, Seq::<StmtV>::empty()) == after_f);
        }
        assert(visit_inner_functions(
            path,
            m2,
            FlatProgramV {
                structs: extract_inner_structs(m2, f_name, out0.structs, renamed),
                functions: out0.functions.push(f_out),
                unions: out0.unions,
                statics: out0.statics,
                union_struct_defs: out0.union_struct_defs,
            },
            stmts,
        ) == visit_inner_functions(path, m2, visit_function_spec(path, m2, after_f, g), seq![call]))
            by {
            assert(FlatProgramV {
                structs: extract_inner_structs(m2, f_name, out0.structs, renamed),
                functions: out0.functions.push(f_out),
                unions: out0.unions,
                statics: out0.statics,
                union_struct_defs: out0.union_struct_defs,
            } =~= after_f);
        }
    }
    assert(flatten_functions(path, m1, out0, p.functions) == out_f) by {
        assert(p.functions[0] == f);
        assert(p.functions.drop_first() =~= Seq::<FunctionDefV>::empty());
        assert(flatten_functions(path, m1, out_f, Seq::<FunctionDefV>::empty()) == out_f);
    }
    assert(flatten_statics(path, m1, out_f, p.statics) == out_f);
    assert(flatten_spec(p).functions =~~= seq![f_out, g_out]);
}

// ---------------------------------------------------------------------
// The executable flattener.
// ---------------------------------------------------------------------

/// Spec-level mirror of the flattener's state.
#[verifier::ext_equal]
pub struct FlattenerV {
    pub path: Seq<Seq<char>>,
    pub renames: Renames,
    pub output: FlatProgramV,
}

/// The name flattener: the current lexical path, the active scope's
/// rename map, and the flat program being accumulated.
pub struct Flattener {
    path: Vec<String>,
    current_scope_renames: StrMap<String>,
    output: FlatProgram,
}

impl View for Flattener {
    type V = FlattenerV;

    closed spec fn view(&self) -> FlattenerV {
        FlattenerV {
            path: self.path.deep_view(),
            renames: self.current_scope_renames@,
            output: self.output.deep_view(),
        }
    }
}

impl Flattener {
    /// A flattener at the top level, with nothing renamed or emitted yet.
    pub fn new() -> (f: Flattener)
        ensures
            f@ == (FlattenerV {
                path: Seq::empty(),
                renames: Map::empty(),
                output: empty_flat_program(),
            }),
    {
        let f = Flattener {
            path: Vec::new(),
            current_scope_renames: StrMap::new(),
            output: FlatProgram::new(),
        };
        proof {
            assert(f.path.deep_view() =~= Seq::<Seq<char>>::empty());
        }
        f
    }

    /// Flattens a whole program tree.
    pub fn flatten(self, program: Program) -> (r: FlatProgram)
        ensures
            r.deep_view() == visit_program_spec(
                self@.path,
                self@.renames,
                self@.output,
                program_view(program),
            ),
    {
        let mut this = self;
        this.visit_program(program);
        this.output
    }

    /// Visits one scope: modules first, then registration, then structs,
    /// functions and statics. The rename map is restored on exit.
    #[verifier::loop_isolation(false)]
    #[verifier::rlimit(100)]
    fn visit_program(&mut self, program: Program)
        ensures
            final(self)@.output == visit_program_spec(
                old(self)@.path,
                old(self)@.renames,
                old(self)@.output,
                program_view(program),
            ),
            final(self)@.path == old(self)@.path,
            final(self)@.renames == old(self)@.renames,
        decreases program,
    {
        let ghost pv = program_view(program);
        let Program { modules, structs, functions, statics } = program;
        proof {
            assert(modules.deep_view() =~= pv.modules);
            assert(crate::ast::struct_def_seq_view(structs) =~= pv.structs);
            assert(crate::ast::function_def_seq_view(functions) =~= pv.functions);
            assert(crate::ast::static_def_seq_view(statics) =~= pv.statics);
        }
        self.process_modules(modules);

        let saved = self.current_scope_renames.duplicate();
        let ghost m0 = self.current_scope_renames@;

        // Register this scope's structs and functions before visiting
        // anything in it, so forward references and mutual recursion
        // resolve.
        let ghost svs = pv.structs;
        let mut i: usize = 0;
        proof {
            assert(svs.skip(0) =~= svs);
        }
        while i < structs.len()
            invariant
                i <= structs.len(),
                self@.path == old(self)@.path,
                self@.output == visit_modules(
                    old(self)@.path,
                    old(self)@.renames,
                    old(self)@.output,
                    pv.modules,
                ),
                register_structs(m0, self@.path, svs) == register_structs(
                    self@.renames,
                    self@.path,
                    svs.skip(i as int),
                ),
            decreases structs.len() - i,
        {
            proof {
                assert(svs.skip(i as int)[0] == svs[i as int]);
                assert(svs.skip(i as int).drop_first() =~= svs.skip(i + 1));
            }
            let mangled_name_s = mangled(&self.path, structs[i].name.as_str());
            self.current_scope_renames.insert(structs[i].name.clone(), mangled_name_s);
            i = i + 1;
        }
        proof {
            assert(svs.skip(structs.len() as int) =~= Seq::<StructDefV>::empty());
        }
        let ghost m1 = register_structs(m0, self@.path, svs);

        let ghost fvs = pv.functions;
        let mut i: usize = 0;
        proof {
            assert(fvs.skip(0) =~= fvs);
        }
        while i < functions.len()
            invariant
                i <= functions.len(),
                self@.path == old(self)@.path,
                self@.output == visit_modules(
                    old(self)@.path,
                    old(self)@.renames,
                    old(self)@.output,
                    pv.modules,
                ),
                register_functions(m1, self@.path, fvs) == register_functions(
                    self@.renames,
                    self@.path,
                    fvs.skip(i as int),
                ),
            decreases functions.len() - i,
        {
            proof {
                assert(fvs.skip(i as int)[0] == fvs[i as int]);
                assert(fvs.skip(i as int).drop_first() =~= fvs.skip(i + 1));
            }
            let mangled_name_f = mangled(&self.path, functions[i].name.as_str());
            self.current_scope_renames.insert(functions[i].name.clone(), mangled_name_f);
            i = i + 1;
        }
        proof {
            assert(fvs.skip(functions.len() as int) =~= Seq::<FunctionDefV>::empty());
        }
        let ghost m2 = register_functions(m1, self@.path, fvs);
        proof {
            assert(self@.renames == m2);
        }

        // Structs declared in this scope.
        let ghost sv0 = structs;
        let ns0: usize = structs.len();
        let mut structs = structs;
        let ghost out_before_structs = self@.output;
        let mut i: usize = 0;
        proof {
            assert(svs.skip(0) =~= svs);
        }
        while structs.len() > 0
            invariant
                i + structs.len() == ns0,
                structs@ =~= sv0@.skip(i as int),
                structs.deep_view() =~= svs.skip(i as int),
                self@.path == old(self)@.path,
                self@.renames == m2,
                flatten_structs(m2, out_before_structs, svs) == flatten_structs(
                    m2,
                    self@.output,
                    svs.skip(i as int),
                ),
            decreases structs.len(),
        {
            proof {
                assert(svs.skip(i as int)[0] == svs[i as int]);
                assert(svs.skip(i as int).drop_first() =~= svs.skip(i + 1));
                assert(structs@[0] == sv0[i as int]);
            }
            let mut s = structs.remove(0);
            proof {
                assert(structs@ =~= sv0@.skip(i + 1));
                assert(structs.deep_view() =~= svs.skip(i + 1));
                assert(crate::ast::struct_def_view(s) == svs[i as int]);
            }
            match self.current_scope_renames.get(s.name.as_str()) {
                Some(n) => {
                    s.name = n.clone();
                },
                None => {},
            }
            let renamed_fields = self.rename_params_list(&s.fields);
            s.fields = renamed_fields;
            let ghost before = self@.output;
            self.output.structs.push(s);
            proof {
                assert(self@.output.structs =~= before.structs.push(
                    crate::ast::struct_def_view(s),
                ));
                assert(self@.output =~= (FlatProgramV {
                    structs: before.structs.push(crate::ast::struct_def_view(s)),
                    ..before
                }));
            }
            i = i + 1;
        }
        proof {
            assert(svs.skip(i as int) =~= Seq::<StructDefV>::empty());
            assert(flatten_structs(m2, out_before_structs, svs) == self@.output);
        }

        // Functions declared in this scope.
        let ghost fv0 = functions;
        let nf0: usize = functions.len();
        let mut functions = functions;
        let ghost out_before_fns = self@.output;
        let mut i: usize = 0;
        proof {
            assert(fvs.skip(0) =~= fvs);
        }
        while functions.len() > 0
            invariant
                i + functions.len() == nf0,
                functions@ =~= fv0@.skip(i as int),
                functions.deep_view() =~= fvs.skip(i as int),
                self@.path == old(self)@.path,
                self@.renames == m2,
                flatten_functions(self@.path, m2, out_before_fns, fvs) == flatten_functions(
                    self@.path,
                    m2,
                    self@.output,
                    fvs.skip(i as int),
                ),
            decreases functions.len(),
        {
            proof {
                assert(fvs.skip(i as int)[0] == fvs[i as int]);
                assert(fvs.skip(i as int).drop_first() =~= fvs.skip(i + 1));
                assert(functions@[0] == fv0[i as int]);
                assert(decreases_to!(fv0 => fv0[i as int]));
            }
            let f = functions.remove(0);
            proof {
                assert(f == fv0[i as int]);
                assert(functions@ =~= fv0@.skip(i + 1));
                assert(functions.deep_view() =~= fvs.skip(i + 1));
                assert(crate::ast::function_def_view(f) == fvs[i as int]);
            }
            self.visit_function(f);
            i = i + 1;
        }
        proof {
            assert(fvs.skip(i as int) =~= Seq::<FunctionDefV>::empty());
        }

        // Statics declared in this scope.
        let ghost gv0 = statics;
        let ng0: usize = statics.len();
        let mut statics = statics;
        let ghost gvs = pv.statics;
        let ghost out_before_statics = self@.output;
        let mut i: usize = 0;
        proof {
            assert(gvs.skip(0) =~= gvs);
        }
        while statics.len() > 0
            invariant
                i + statics.len() == ng0,
                statics@ =~= gv0@.skip(i as int),
                statics.deep_view() =~= gvs.skip(i as int),
                self@.path == old(self)@.path,
                self@.renames == m2,
                flatten_statics(self@.path, m2, out_before_statics, gvs) == flatten_statics(
                    self@.path,
                    m2,
                    self@.output,
                    gvs.skip(i as int),
                ),
            decreases statics.len(),
        {
            proof {
                assert(gvs.skip(i as int)[0] == gvs[i as int]);
                assert(gvs.skip(i as int).drop_first() =~= gvs.skip(i + 1));
                assert(statics@[0] == gv0[i as int]);
            }
            let mut d = statics.remove(0);
            proof {
                assert(statics@ =~= gv0@.skip(i + 1));
                assert(statics.deep_view() =~= gvs.skip(i + 1));
                assert(crate::ast::static_def_view(d) == gvs[i as int]);
            }
            d.name = mangled(&self.path, d.name.as_str());
            let renamed_ty = self.rename_in_type(&d.ty);
            d.ty = renamed_ty;
            let ghost before = self@.output;
            self.output.statics.push(d);
            proof {
                assert(self@.output =~= (FlatProgramV {
                    statics: before.statics.push(crate::ast::static_def_view(d)),
                    ..before
                }));
            }
            i = i + 1;
        }
        proof {
            assert(gvs.skip(i as int) =~= Seq::<crate::ast::StaticDefV>::empty());
        }

        self.current_scope_renames = saved;
    }

    /// Visits nested modules in order, each under its name on the path.
    #[verifier::loop_isolation(false)]
    fn process_modules(&mut self, modules: Vec<(String, Program, bool)>)
        ensures
            final(self)@.output == visit_modules(
                old(self)@.path,
                old(self)@.renames,
                old(self)@.output,
                modules.deep_view(),
            ),
            final(self)@.path == old(self)@.path,
            final(self)@.renames == old(self)@.renames,
        decreases modules,
    {
        let ghost v0 = modules;
        let ghost mvs = modules.deep_view();
        let n0: usize = modules.len();
        let mut modules = modules;
        let mut i: usize = 0;
        proof {
            assert(mvs.skip(0) =~= mvs);
        }
        while modules.len() > 0
            invariant
                i + modules.len() == n0,
                modules@ =~= v0@.skip(i as int),
                modules.deep_view() =~= mvs.skip(i as int),
                self@.path == old(self)@.path,
                self@.renames == old(self)@.renames,
                visit_modules(old(self)@.path, old(self)@.renames, old(self)@.output, mvs)
                    == visit_modules(self@.path, self@.renames, self@.output, mvs.skip(i as int)),
            decreases modules.len(),
        {
            proof {
                assert(mvs.skip(i as int)[0] == mvs[i as int]);
                assert(mvs.skip(i as int).drop_first() =~= mvs.skip(i + 1));
                assert(modules@[0] == v0[i as int]);
                assert(decreases_to!(v0 => v0[i as int]));
                assert(decreases_to!(v0[i as int] => v0[i as int].1));
            }
            let (mod_name, sub_program, _) = modules.remove(0);
            proof {
                assert((mod_name, sub_program) == (v0[i as int].0, v0[i as int].1));
                assert(modules@ =~= v0@.skip(i + 1));
                assert(modules.deep_view() =~= mvs.skip(i + 1));
                assert((mod_name@, program_view(sub_program)) == (mvs[i as int].0, mvs[i as int].1));
            }
            let ghost path_before = self@.path;
            self.path.push(mod_name);
            proof {
                assert(self@.path =~= path_before.push(mvs[i as int].0));
            }
            self.visit_program(sub_program);
            let ghost before_pop = self@.path;
            self.path.pop();
            proof {
                assert(self@.path =~= before_pop.drop_last());
                assert(before_pop.drop_last() =~= path_before);
            }
            i = i + 1;
        }
        proof {
            assert(mvs.skip(i as int) =~= Seq::<(Seq<char>, ProgramV, bool)>::empty());
        }
    }

    /// Visits one function: resolves its name, rewrites its signature,
    /// registers and extracts its nested declarations, and visits the
    /// extracted functions with the body scope's renames active.
    #[verifier::loop_isolation(false)]
    #[verifier::rlimit(100)]
    fn visit_function(&mut self, func: FunctionDef)
        ensures
            final(self)@.output == visit_function_spec(
                old(self)@.path,
                old(self)@.renames,
                old(self)@.output,
                crate::ast::function_def_view(func),
            ),
            final(self)@.path == old(self)@.path,
            final(self)@.renames == old(self)@.renames,
        decreases func,
    {
        let ghost func0 = func;
        let ghost fv = crate::ast::function_def_view(func);
        let ghost m = self@.renames;
        let ghost path0 = self@.path;
        let FunctionDef { is_pub, name, generics, params, return_type, body } = func;
        let ghost body0 = body;

        let new_name = match self.current_scope_renames.get(name.as_str()) {
            Some(n) => n.clone(),
            None => mangled(&self.path, name.as_str()),
        };
        proof {
            assert(new_name@ == resolve_name(m, path0, fv.name));
        }
        let new_params = self.rename_params_list(&params);
        let new_ret = self.rename_in_type(&return_type);

        match body {
            FunctionBody::Extern => {
                let f2 = FunctionDef {
                    is_pub,
                    name: new_name,
                    generics,
                    params: new_params,
                    return_type: new_ret,
                    body: FunctionBody::Extern,
                };
                let ghost before = self@.output;
                self.output.functions.push(f2);
                proof {
                    assert(self@.output =~= (FlatProgramV {
                        functions: before.functions.push(crate::ast::function_def_view(f2)),
                        ..before
                    }));
                    assert(crate::ast::function_def_view(f2) =~= (FunctionDefV {
                        name: resolve_name(m, path0, fv.name),
                        params: rename_params(m, fv.params),
                        return_type: rename_type(m, fv.return_type),
                        ..fv
                    }));
                }
            },
            FunctionBody::UserDefined(stmts) => {
                let ghost stmts_vec = stmts;
                let ghost ssv = stmt_seq_view(stmts);
                proof {
                    assert(fv.body == FunctionBodyV::UserDefined(ssv));
                }
                let saved = self.current_scope_renames.duplicate();
                self.register_inner_decls(new_name.as_str(), &stmts);
                let ghost m2 = register_inner(m, new_name@, ssv);
                proof {
                    assert(self@.renames == m2);
                }
                let renamed = self.apply_renames(stmts);
                let ghost rv0 = renamed;
                let ghost rsv = rename_stmt_seq(m2, ssv);
                proof {
                    assert(stmt_seq_view(renamed) == rsv);
                }

                // One walk over the renamed body: nested declarations are
                // extracted, everything else is kept in order.
                let nr0: usize = renamed.len();
                let mut renamed = renamed;
                let mut cleaned: Vec<Stmt> = Vec::new();
                let mut inner_funcs: Vec<FunctionDef> = Vec::new();
                let ghost structs_before = self@.output.structs;
                let mut i: usize = 0;
                proof {
                    assert(rsv.skip(0) =~= rsv);
                    assert(stmt_seq_view(cleaned) =~= Seq::<StmtV>::empty());
                    assert(crate::ast::function_def_seq_view(inner_funcs) =~= Seq::<
                        FunctionDefV,
                    >::empty());
                }
                while renamed.len() > 0
                    invariant
                        i + renamed.len() == nr0,
                        renamed@ =~= rv0@.skip(i as int),
                        stmt_seq_view(renamed) =~= rsv.skip(i as int),
                        self@.path == path0,
                        self@.renames == m2,
                        self@.output.functions == old(self)@.output.functions,
                        self@.output.unions == old(self)@.output.unions,
                        self@.output.statics == old(self)@.output.statics,
                        self@.output.union_struct_defs == old(self)@.output.union_struct_defs,
                        cleaned_stmts(rsv) == stmt_seq_view(cleaned) + cleaned_stmts(
                            rsv.skip(i as int),
                        ),
                        extract_inner_structs(m2, new_name@, structs_before, rsv)
                            == extract_inner_structs(
                            m2,
                            new_name@,
                            self@.output.structs,
                            rsv.skip(i as int),
                        ),
                        inner_defs(rsv) == crate::ast::function_def_seq_view(inner_funcs)
                            + inner_defs(rsv.skip(i as int)),
                        forall|j: int|
                            0 <= j < inner_funcs@.len() ==> exists|k: int|
                                0 <= k < stmts_vec@.len() && stmts_vec@[k] is FunctionDef && (
                                #[trigger] inner_funcs@[j]) == *stmts_vec@[k]->FunctionDef_0,
                    decreases renamed.len(),
                {
                    proof {
                        assert(rsv.skip(i as int)[0] == rsv[i as int]);
                        assert(rsv.skip(i as int).drop_first() =~= rsv.skip(i + 1));
                        assert(renamed@[0] == rv0[i as int]);
                    }
                    let s = renamed.remove(0);
                    proof {
                        assert(s == rv0[i as int]);
                        assert(renamed@ =~= rv0@.skip(i + 1));
                        assert(stmt_view(s) == rsv[i as int]);
                    }
                    match s {
                        Stmt::FunctionDef(inner_func_box) => {
                            let ghost before = crate::ast::function_def_seq_view(inner_funcs);
                            proof {
                                assert(rv0[i as int] is FunctionDef);
                                assert(rv0[i as int] == stmts_vec@[i as int]);
                                assert(*inner_func_box == *stmts_vec@[i as int]->FunctionDef_0);
                            }
                            inner_funcs.push(*inner_func_box);
                            proof {
                                assert(crate::ast::function_def_seq_view(inner_funcs)
                                    =~= before.push(*rsv[i as int]->FunctionDef_0));
                                assert(before + (seq![*rsv[i as int]->FunctionDef_0] + inner_defs(
                                    rsv.skip(i + 1),
                                )) =~= crate::ast::function_def_seq_view(inner_funcs) + inner_defs(
                                    rsv.skip(i + 1),
                                ));
                            }
                        },
                        Stmt::StructDef(inner_struct_box) => {
                            let mut inner_struct = *inner_struct_box;
                            proof {
                                assert(crate::ast::struct_def_view(inner_struct) == rsv[
                                    i as int
                                ]->StructDef_0);
                            }
                            let child = child_string(
                                new_name.as_str(),
                                inner_struct.name.as_str(),
                            );
                            inner_struct.name = child;
                            let renamed_fields = self.rename_params_list(&inner_struct.fields);
                            inner_struct.fields = renamed_fields;
                            let ghost before = self@.output;
                            self.output.structs.push(inner_struct);
                            proof {
                                assert(self@.output.structs =~= before.structs.push(
                                    crate::ast::struct_def_view(inner_struct),
                                ));
                                assert(crate::ast::struct_def_view(inner_struct) =~= (StructDefV {
                                    name: child_name(new_name@, (rsv[i as int]->StructDef_0).name),
                                    fields: rename_params(m2, (rsv[i as int]->StructDef_0).fields),
                                    ..rsv[i as int]->StructDef_0
                                }));
                            }
                        },
                        other => {
                            let ghost before = stmt_seq_view(cleaned);
                            cleaned.push(other);
                            proof {
                                assert(stmt_seq_view(cleaned) =~= before.push(rsv[i as int]));
                                assert(before + (seq![rsv[i as int]] + cleaned_stmts(
                                    rsv.skip(i + 1),
                                )) =~= stmt_seq_view(cleaned) + cleaned_stmts(rsv.skip(i + 1)));
                            }
                        },
                    }
                    i = i + 1;
                }
                proof {
                    assert(rsv.skip(i as int) =~= Seq::<StmtV>::empty());
                    assert(stmt_seq_view(cleaned) + Seq::<StmtV>::empty() =~= stmt_seq_view(
                        cleaned,
                    ));
                    assert(crate::ast::function_def_seq_view(inner_funcs) + Seq::<
                        FunctionDefV,
                    >::empty() =~= crate::ast::function_def_seq_view(inner_funcs));
                }

                let f2 = FunctionDef {
                    is_pub,
                    name: new_name,
                    generics,
                    params: new_params,
                    return_type: new_ret,
                    body: FunctionBody::UserDefined(cleaned),
                };
                let ghost before_fn = self@.output;
                self.output.functions.push(f2);
                proof {
                    assert(self@.output =~= (FlatProgramV {
                        functions: before_fn.functions.push(crate::ast::function_def_view(f2)),
                        ..before_fn
                    }));
                    assert(crate::ast::function_def_view(f2) =~= (FunctionDefV {
                        name: resolve_name(m, path0, fv.name),
                        params: rename_params(m, fv.params),
                        return_type: rename_type(m, fv.return_type),
                        body: FunctionBodyV::UserDefined(cleaned_stmts(rsv)),
                        ..fv
                    }));
                }

                // Extracted functions, visited in order of appearance.
                let ghost ifv = crate::ast::function_def_seq_view(inner_funcs);
                let ghost if0 = inner_funcs;
                let ghost out_before_inner = self@.output;
                let ni0: usize = inner_funcs.len();
                let mut inner_funcs = inner_funcs;
                let mut i: usize = 0;
                proof {
                    assert(ifv.skip(0) =~= ifv);
                }
                while inner_funcs.len() > 0
                    invariant
                        i + inner_funcs.len() == ni0,
                        inner_funcs@ =~= if0@.skip(i as int),
                        crate::ast::function_def_seq_view(inner_funcs) =~= ifv.skip(i as int),
                        self@.path == path0,
                        self@.renames == m2,
                        forall|j: int|
                            0 <= j < if0@.len() ==> exists|k: int|
                                0 <= k < stmts_vec@.len() && stmts_vec@[k] is FunctionDef && (
                                #[trigger] if0[j]) == *stmts_vec@[k]->FunctionDef_0,
                        visit_function_list(path0, m2, out_before_inner, ifv)
                            == visit_function_list(
                            path0,
                            m2,
                            self@.output,
                            ifv.skip(i as int),
                        ),
                    decreases inner_funcs.len(),
                {
                    proof {
                        assert(ifv.skip(i as int)[0] == ifv[i as int]);
                        assert(ifv.skip(i as int).drop_first() =~= ifv.skip(i + 1));
                        assert(inner_funcs@[0] == if0[i as int]);
                    }
                    let g = inner_funcs.remove(0);
                    proof {
                        assert(g == if0[i as int]);
                        assert(inner_funcs@ =~= if0@.skip(i + 1));
                        assert(crate::ast::function_def_view(g) == ifv[i as int]);
                        let k = choose|k: int|
                            0 <= k < stmts_vec@.len() && stmts_vec@[k] is FunctionDef && g
                                == *stmts_vec@[k]->FunctionDef_0;
                        assert(decreases_to!(func0 => func0.body));
                        assert(func0.body == body0);
                        assert(body0->UserDefined_0 == stmts_vec);
                        assert(decreases_to!(body0 => stmts_vec));
                        assert(decreases_to!(stmts_vec => stmts_vec[k]));
                        assert(decreases_to!(stmts_vec[k] => stmts_vec[k]->FunctionDef_0));
                    }
                    self.visit_function(g);
                    i = i + 1;
                }
                proof {
                    assert(ifv.skip(i as int) =~= Seq::<FunctionDefV>::empty());
                    lemma_visit_inner_as_list(path0, m2, out_before_inner, ssv);
                    assert(inner_defs(ssv) =~= inner_defs(rsv)) by {
                        lemma_inner_defs_rename(m2, ssv);
                    }
                }

                self.current_scope_renames = saved;
            },
        }
    }
}

impl Flattener {
    /// Registers the declarations nested directly in a function body as
    /// children of the enclosing mangled name.
    #[verifier::loop_isolation(false)]
    fn register_inner_decls(&mut self, parent: &str, stmts: &Vec<Stmt>)
        ensures
            final(self)@.renames == register_inner(
                old(self)@.renames,
                parent@,
                stmt_seq_view(*stmts),
            ),
            final(self)@.path == old(self)@.path,
            final(self)@.output == old(self)@.output,
    {
        let ghost ssv = stmt_seq_view(*stmts);
        let ghost m0 = self@.renames;
        let n: usize = stmts.len();
        let mut i: usize = 0;
        proof {
            assert(ssv.skip(0) =~= ssv);
        }
        while i < n
            invariant
                i <= n,
                self@.path == old(self)@.path,
                self@.output == old(self)@.output,
                register_inner(m0, parent@, ssv) == register_inner(
                    self@.renames,
                    parent@,
                    ssv.skip(i as int),
                ),
            decreases n - i,
        {
            proof {
                assert(ssv.skip(i as int)[0] == ssv[i as int]);
                assert(ssv.skip(i as int).drop_first() =~= ssv.skip(i + 1));
                assert(ssv[i as int] == stmt_view(stmts@[i as int]));
            }
            match &stmts[i] {
                Stmt::FunctionDef(g) => {
                    proof {
                        assert(ssv[i as int] == StmtV::FunctionDef(
                            Box::new(crate::ast::function_def_view(**g)),
                        ));
                    }
                    let c = child_string(parent, g.name.as_str());
                    self.current_scope_renames.insert(g.name.clone(), c);
                },
                Stmt::StructDef(s) => {
                    proof {
                        assert(ssv[i as int] == StmtV::StructDef(
                            crate::ast::struct_def_view(**s),
                        ));
                    }
                    let c = child_string(parent, s.name.as_str());
                    self.current_scope_renames.insert(s.name.clone(), c);
                },
                _ => {
                    proof {
                        assert(!(ssv[i as int] is FunctionDef) && !(ssv[i as int] is StructDef));
                    }
                },
            }
            i = i + 1;
        }
        proof {
            assert(ssv.skip(n as int) =~= Seq::<StmtV>::empty());
        }
    }

    /// Rewrites every statement of a body under the active renames.
    #[verifier::loop_isolation(false)]
    fn apply_renames(&self, stmts: Vec<Stmt>) -> (r: Vec<Stmt>)
        ensures
            stmt_seq_view(r) == rename_stmt_seq(self@.renames, stmt_seq_view(stmts)),
            r@.len() == stmts@.len(),
            forall|j: int|
                0 <= j < stmts@.len() && ((#[trigger] r@[j]) is FunctionDef || r@[j] is StructDef
                    || stmts@[j] is FunctionDef || stmts@[j] is StructDef) ==> r@[j] == stmts@[j],
        decreases stmts,
    {
        let ghost v0 = stmts;
        let ghost ssv = stmt_seq_view(stmts);
        let n0: usize = stmts.len();
        let mut stmts = stmts;
        let mut out: Vec<Stmt> = Vec::new();
        let ghost m = self@.renames;
        let mut i: usize = 0;
        while stmts.len() > 0
            invariant
                i + stmts.len() == n0,
                stmts@ =~= v0@.skip(i as int),
                out.len() == i,
                forall|j: int|
                    0 <= j < i ==> stmt_view(#[trigger] out@[j]) == rename_stmt(m, ssv[j]),
                forall|j: int|
                    0 <= j < i && ((#[trigger] out@[j]) is FunctionDef || out@[j] is StructDef
                        || v0[j] is FunctionDef || v0[j] is StructDef) ==> out@[j] == v0[j],
            decreases stmts.len(),
        {
            proof {
                assert(stmts@[0] == v0[i as int]);
                assert(decreases_to!(v0 => v0[i as int]));
            }
            let s = stmts.remove(0);
            proof {
                assert(s == v0[i as int]);
                assert(stmts@ =~= v0@.skip(i + 1));
                assert(ssv[i as int] == stmt_view(v0[i as int]));
            }
            let s2 = self.rename_in_stmt(s);
            out.push(s2);
            i = i + 1;
        }
        proof {
            assert(stmt_seq_view(out) =~= rename_stmt_seq(m, ssv));
        }
        out
    }

    /// Rewrites the types of a parameter or field list.
    #[verifier::loop_isolation(false)]
    fn rename_params_list(&self, ps: &Vec<(String, Type)>) -> (r: Vec<(String, Type)>)
        ensures
            crate::ast::params_view(r) == rename_params(
                self@.renames,
                crate::ast::params_view(*ps),
            ),
        decreases ps,
    {
        let ghost pv = crate::ast::params_view(*ps);
        let mut out: Vec<(String, Type)> = Vec::new();
        let ghost m = self@.renames;
        let n: usize = ps.len();
        let mut i: usize = 0;
        while i < n
            invariant
                i <= n,
                out.len() == i,
                forall|j: int|
                    0 <= j < i ==> (#[trigger] out@[j]).0@ == pv[j].0 && type_view(out@[j].1)
                        == rename_type(m, pv[j].1),
            decreases n - i,
        {
            let ty2 = self.rename_in_type(&ps[i].1);
            out.push((ps[i].0.clone(), ty2));
            i = i + 1;
        }
        proof {
            assert(crate::ast::params_view(out) =~= rename_params(m, pv));
        }
        out
    }

    /// Rewrites a reference path: a single registered segment is renamed,
    /// a qualified path is joined into one mangled segment.
    fn rename_path_list(&self, path: &Vec<String>) -> (r: Vec<String>)
        ensures
            r.deep_view() == rename_path(self@.renames, path.deep_view()),
    {
        if path.len() == 1 {
            match self.current_scope_renames.get(path[0].as_str()) {
                Some(n) => {
                    let mut out: Vec<String> = Vec::new();
                    out.push(n.clone());
                    proof {
                        assert(out.deep_view() =~= seq![self@.renames[path.deep_view()[0]]]);
                    }
                    out
                },
                None => {
                    let out = copy_path(path);
                    proof {
                        assert(out.deep_view() =~= path.deep_view());
                    }
                    out
                },
            }
        } else if path.len() > 1 {
            let joined = join_strings(path);
            let mut out: Vec<String> = Vec::new();
            out.push(joined);
            proof {
                assert(out.deep_view() =~= seq![join_path(path.deep_view())]);
            }
            out
        } else {
            let out = copy_path(path);
            proof {
                assert(out.deep_view() =~= path.deep_view());
            }
            out
        }
    }

    /// Rewrites one type under the active renames.
    #[verifier::loop_isolation(false)]
    fn rename_in_type(&self, ty: &Type) -> (r: Type)
        ensures
            type_view(r) == rename_type(self@.renames, type_view(*ty)),
        decreases ty,
    {
        let ghost m = self@.renames;
        match ty {
            Type::Struct(path, generics) => {
                let p2 = self.rename_path_list(path);
                let g2 = self.rename_types_list(generics);
                let r = Type::Struct(p2, g2);
                proof {
                    assert(type_view(r) =~= rename_type(m, type_view(*ty)));
                }
                r
            },
            Type::Pointer(inner) => Type::Pointer(Box::new(self.rename_in_type(inner))),
            Type::Array(inner, n) => Type::Array(Box::new(self.rename_in_type(inner)), *n),
            Type::Function(args, ret, generics) => {
                let a2 = self.rename_types_list(args);
                let r2 = self.rename_in_type(ret);
                let r = Type::Function(a2, Box::new(r2), copy_path(generics));
                proof {
                    assert(type_view(r) =~= rename_type(m, type_view(*ty)));
                }
                r
            },
            Type::Enum(path, generics) => {
                let r = Type::Enum(copy_path(path), crate::ast::duplicate_types(generics));
                proof {
                    assert(type_view(r) =~= type_view(*ty));
                    assert(rename_type(m, type_view(*ty)) == type_view(*ty));
                }
                r
            },
            Type::U8 => Type::U8,
            Type::I64 => Type::I64,
            Type::F64 => Type::F64,
            Type::Bool => Type::Bool,
            Type::Void => Type::Void,
            Type::Generic(name) => Type::Generic(name.clone()),
        }
    }

    /// Rewrites a list of types element by element.
    #[verifier::loop_isolation(false)]
    fn rename_types_list(&self, ts: &Vec<Type>) -> (r: Vec<Type>)
        ensures
            type_seq_view(r) == rename_type_seq(self@.renames, type_seq_view(*ts)),
        decreases ts,
    {
        let ghost tv = type_seq_view(*ts);
        let mut out: Vec<Type> = Vec::new();
        let ghost m = self@.renames;
        let n: usize = ts.len();
        let mut i: usize = 0;
        while i < n
            invariant
                i <= n,
                out.len() == i,
                forall|j: int|
                    0 <= j < i ==> type_view(#[trigger] out@[j]) == rename_type(m, tv[j]),
            decreases n - i,
        {
            let t2 = self.rename_in_type(&ts[i]);
            out.push(t2);
            i = i + 1;
        }
        proof {
            assert(type_seq_view(out) =~= rename_type_seq(m, tv));
        }
        out
    }

    /// Rewrites one expression under the active renames.
    #[verifier::loop_isolation(false)]
    #[verifier::rlimit(50)]
    fn rename_in_expr(&self, e: Expr) -> (r: Expr)
        ensures
            expr_view(r) == rename_expr(self@.renames, expr_view(e)),
        decreases e,
    {
        let ghost m = self@.renames;
        let ghost ev = expr_view(e);
        match e {
            Expr::Ident(path) => Expr::Ident(self.rename_path_list(&path)),
            Expr::StructInit(path, fields, generics) => {
                let p2 = self.rename_path_list(&path);
                let f2 = self.rename_field_inits_list(fields);
                let g2 = self.rename_types_list(&generics);
                let r = Expr::StructInit(p2, f2, g2);
                proof {
                    assert(expr_view(r) =~= rename_expr(m, ev));
                }
                r
            },
            Expr::EnumInit(path, payload, generics) => {
                let p2 = self.rename_exprs_list(payload);
                let g2 = self.rename_types_list(&generics);
                let r = Expr::EnumInit(path, p2, g2);
                proof {
                    assert(expr_view(r) =~= rename_expr(m, ev));
                }
                r
            },
            Expr::Call(callee, args, generics) => {
                let c2 = self.rename_in_expr(*callee);
                let a2 = self.rename_exprs_list(args);
                let g2 = self.rename_types_list(&generics);
                let r = Expr::Call(Box::new(c2), a2, g2);
                proof {
                    assert(expr_view(r) =~= rename_expr(m, ev));
                }
                r
            },
            Expr::Binary(lhs, op, rhs) => {
                let l2 = self.rename_in_expr(*lhs);
                let r2 = self.rename_in_expr(*rhs);
                Expr::Binary(Box::new(l2), op, Box::new(r2))
            },
            Expr::Unary(op, operand) => Expr::Unary(op, Box::new(self.rename_in_expr(*operand))),
            Expr::Index(base, idx) => {
                let b2 = self.rename_in_expr(*base);
                let i2 = self.rename_in_expr(*idx);
                Expr::Index(Box::new(b2), Box::new(i2))
            },
            Expr::Deref(inner) => Expr::Deref(Box::new(self.rename_in_expr(*inner))),
            Expr::AddrOf(inner) => Expr::AddrOf(Box::new(self.rename_in_expr(*inner))),
            Expr::Member(obj, field) => Expr::Member(Box::new(self.rename_in_expr(*obj)), field),
            Expr::MethodCall(obj, name, args, generics) => {
                let o2 = self.rename_in_expr(*obj);
                let a2 = self.rename_exprs_list(args);
                let g2 = self.rename_types_list(&generics);
                let r = Expr::MethodCall(Box::new(o2), name, a2, g2);
                proof {
                    assert(expr_view(r) =~= rename_expr(m, ev));
                }
                r
            },
            Expr::Cast(inner, ty) => {
                let i2 = self.rename_in_expr(*inner);
                let t2 = self.rename_in_type(&ty);
                Expr::Cast(Box::new(i2), t2)
            },
            Expr::SizeOf(ty) => Expr::SizeOf(self.rename_in_type(&ty)),
            other => {
                proof {
                    assert(rename_expr(m, expr_view(other)) == expr_view(other));
                }
                other
            },
        }
    }

    /// Rewrites a list of expressions element by element.
    #[verifier::loop_isolation(false)]
    fn rename_exprs_list(&self, es: Vec<Expr>) -> (r: Vec<Expr>)
        ensures
            expr_seq_view(r) == rename_expr_seq(self@.renames, expr_seq_view(es)),
        decreases es,
    {
        let ghost v0 = es;
        let ghost evs = expr_seq_view(es);
        let n0: usize = es.len();
        let mut es = es;
        let mut out: Vec<Expr> = Vec::new();
        let ghost m = self@.renames;
        let mut i: usize = 0;
        while es.len() > 0
            invariant
                i + es.len() == n0,
                es@ =~= v0@.skip(i as int),
                out.len() == i,
                forall|j: int|
                    0 <= j < i ==> expr_view(#[trigger] out@[j]) == rename_expr(m, evs[j]),
            decreases es.len(),
        {
            proof {
                assert(es@[0] == v0[i as int]);
                assert(decreases_to!(v0 => v0[i as int]));
            }
            let x = es.remove(0);
            proof {
                assert(x == v0[i as int]);
                assert(es@ =~= v0@.skip(i + 1));
                assert(evs[i as int] == expr_view(v0[i as int]));
            }
            let x2 = self.rename_in_expr(x);
            out.push(x2);
            i = i + 1;
        }
        proof {
            assert(expr_seq_view(out) =~= rename_expr_seq(m, evs));
        }
        out
    }

    /// Rewrites struct-construction field initializers element by element.
    #[verifier::loop_isolation(false)]
    fn rename_field_inits_list(&self, fs: Vec<(String, Expr)>) -> (r: Vec<(String, Expr)>)
        ensures
            crate::ast::field_init_seq_view(r) == rename_field_inits(
                self@.renames,
                crate::ast::field_init_seq_view(fs),
            ),
        decreases fs,
    {
        let ghost v0 = fs;
        let ghost fvs = crate::ast::field_init_seq_view(fs);
        let n0: usize = fs.len();
        let mut fs = fs;
        let mut out: Vec<(String, Expr)> = Vec::new();
        let ghost m = self@.renames;
        let mut i: usize = 0;
        while fs.len() > 0
            invariant
                i + fs.len() == n0,
                fs@ =~= v0@.skip(i as int),
                out.len() == i,
                forall|j: int|
                    0 <= j < i ==> (#[trigger] out@[j]).0@ == fvs[j].0 && expr_view(out@[j].1)
                        == rename_expr(m, fvs[j].1),
            decreases fs.len(),
        {
            proof {
                assert(fs@[0] == v0[i as int]);
                assert(decreases_to!(v0 => v0[i as int]));
                assert(decreases_to!(v0[i as int] => v0[i as int].1));
            }
            let (name, x) = fs.remove(0);
            proof {
                assert(x == v0[i as int].1);
                assert(fs@ =~= v0@.skip(i + 1));
                assert(fvs[i as int] == (v0[i as int].0@, expr_view(v0[i as int].1)));
            }
            let x2 = self.rename_in_expr(x);
            out.push((name, x2));
            i = i + 1;
        }
        proof {
            assert(crate::ast::field_init_seq_view(out) =~= rename_field_inits(m, fvs));
        }
        out
    }

    /// Rewrites an optional type annotation.
    fn rename_opt_type_exec(&self, t: Option<Type>) -> (r: Option<Type>)
        ensures
            crate::ast::opt_type_view(r) == rename_opt_type(
                self@.renames,
                crate::ast::opt_type_view(t),
            ),
        decreases t,
    {
        match t {
            Some(ty) => Some(self.rename_in_type(&ty)),
            None => None,
        }
    }

    /// Rewrites an optional initializer.
    fn rename_opt_expr_exec(&self, e: Option<Expr>) -> (r: Option<Expr>)
        ensures
            crate::ast::opt_expr_view(r) == rename_opt_expr(
                self@.renames,
                crate::ast::opt_expr_view(e),
            ),
        decreases e,
    {
        match e {
            Some(x) => Some(self.rename_in_expr(x)),
            None => None,
        }
    }

    /// Rewrites one statement under the active renames.
    #[verifier::loop_isolation(false)]
    #[verifier::rlimit(100)]
    fn rename_in_stmt(&self, s: Stmt) -> (r: Stmt)
        ensures
            stmt_view(r) == rename_stmt(self@.renames, stmt_view(s)),
            (s is FunctionDef || s is StructDef || r is FunctionDef || r is StructDef) ==> r == s,
        decreases s,
    {
        let ghost m = self@.renames;
        let ghost sv = stmt_view(s);
        match s {
            Stmt::Let(name, ty, init) => {
                proof {
                    assert(sv == StmtV::Let(
                        name@,
                        crate::ast::opt_type_view(ty),
                        crate::ast::opt_expr_view(init),
                    ));
                }
                let t2 = self.rename_opt_type_exec(ty);
                let i2 = self.rename_opt_expr_exec(init);
                let r = Stmt::Let(name, t2, i2);
                proof {
                    assert(stmt_view(r) =~= rename_stmt(m, sv));
                }
                r
            },
            Stmt::Const(name, ty, init) => {
                proof {
                    assert(sv == StmtV::Const(
                        name@,
                        crate::ast::opt_type_view(ty),
                        crate::ast::opt_expr_view(init),
                    ));
                }
                let t2 = self.rename_opt_type_exec(ty);
                let i2 = self.rename_opt_expr_exec(init);
                let r = Stmt::Const(name, t2, i2);
                proof {
                    assert(stmt_view(r) =~= rename_stmt(m, sv));
                }
                r
            },
            Stmt::Ret(e) => Stmt::Ret(self.rename_in_expr(e)),
            Stmt::Expr(e) => Stmt::Expr(self.rename_in_expr(e)),
            Stmt::Assign(lhs, rhs) => {
                let l2 = self.rename_in_expr(lhs);
                let r2 = self.rename_in_expr(rhs);
                Stmt::Assign(l2, r2)
            },
            Stmt::If(cond, then_stmt, else_stmt) => {
                proof {
                    assert(sv == StmtV::If(
                        expr_view(cond),
                        Box::new(stmt_view(*then_stmt)),
                        match else_stmt {
                            Some(ref e) => Some(Box::new(stmt_view(**e))),
                            None => None,
                        },
                    ));
                }
                let c2 = self.rename_in_expr(cond);
                let t2 = self.rename_in_stmt(*then_stmt);
                let e2 = match else_stmt {
                    Some(e) => Some(Box::new(self.rename_in_stmt(*e))),
                    None => None,
                };
                let r = Stmt::If(c2, Box::new(t2), e2);
                proof {
                    assert(stmt_view(r) =~= rename_stmt(m, sv));
                }
                r
            },
            Stmt::While(cond, body) => {
                let c2 = self.rename_in_expr(cond);
                let b2 = self.rename_in_stmt(*body);
                Stmt::While(c2, Box::new(b2))
            },
            Stmt::Block(stmts) => {
                let ss2 = self.apply_renames_block(stmts);
                Stmt::Block(ss2)
            },
            other => {
                proof {
                    assert(rename_stmt(m, stmt_view(other)) == stmt_view(other));
                }
                other
            },
        }
    }

    /// Rewrites the statements of a nested block.
    #[verifier::loop_isolation(false)]
    fn apply_renames_block(&self, stmts: Vec<Stmt>) -> (r: Vec<Stmt>)
        ensures
            stmt_seq_view(r) == rename_stmt_seq(self@.renames, stmt_seq_view(stmts)),
        decreases stmts,
    {
        let ghost v0 = stmts;
        let ghost ssv = stmt_seq_view(stmts);
        let n0: usize = stmts.len();
        let mut stmts = stmts;
        let mut out: Vec<Stmt> = Vec::new();
        let ghost m = self@.renames;
        let mut i: usize = 0;
        while stmts.len() > 0
            invariant
                i + stmts.len() == n0,
                stmts@ =~= v0@.skip(i as int),
                out.len() == i,
                forall|j: int|
                    0 <= j < i ==> stmt_view(#[trigger] out@[j]) == rename_stmt(m, ssv[j]),
            decreases stmts.len(),
        {
            proof {
                assert(stmts@[0] == v0[i as int]);
                assert(decreases_to!(v0 => v0[i as int]));
            }
            let s = stmts.remove(0);
            proof {
                assert(s == v0[i as int]);
                assert(stmts@ =~= v0@.skip(i + 1));
                assert(ssv[i as int] == stmt_view(v0[i as int]));
            }
            let s2 = self.rename_in_stmt(s);
            out.push(s2);
            i = i + 1;
        }
        proof {
            assert(stmt_seq_view(out) =~= rename_stmt_seq(m, ssv));
        }
        out
    }
}

/// Renaming a statement list does not change which function definitions
/// sit in it: declaration statements are left untouched by the rewrite.
proof fn lemma_inner_defs_rename(m: Renames, ss: Seq<StmtV>)
    ensures
        inner_defs(rename_stmt_seq(m, ss)) == inner_defs(ss),
    decreases ss.len(),
{
    let rs = rename_stmt_seq(m, ss);
    if ss.len() == 0 {
        assert(rs =~= Seq::<StmtV>::empty());
    } else {
        assert(rs[0] == rename_stmt(m, ss[0]));
        assert(rs.drop_first() =~= rename_stmt_seq(m, ss.drop_first()));
        lemma_inner_defs_rename(m, ss.drop_first());
        match ss[0] {
            StmtV::FunctionDef(g) => {
                assert(rs[0] == ss[0]);
            },
            _ => {
                assert(!(rs[0] is FunctionDef)) by {
                    assert(rename_stmt(m, ss[0]) == rs[0]);
                }
            },
        }
    }
}

/// The child of `parent` named `name`, as a `String`.
fn child_string(parent: &str, name: &str) -> (r: String)
    ensures
        r@ == child_name(parent@, name@),
{
    let mut s: String = parent.to_owned();
    s.append("__");
    s.append(name);
    proof {
        reveal_strlit("__");
        assert(s@ =~= child_name(parent@, name@));
    }
    s
}

} // verus!
