use tree_lint::ast::{
    ArrowBody, Block, Class, ClassMember, Expr, Function, MethodKind, Module, PropName, Span,
    Stmt,
};
use tree_lint::context::{CommentMap, Context, DiagKind, Diagnostic, Oracle};
use tree_lint::no_async_promise_executor::NoAsyncPromiseExecutor;

fn sp(lo: u32, hi: u32) -> Span {
    Span { lo, hi }
}

fn bx(e: Expr) -> Box<Expr> {
    Box::new(e)
}

fn bytes(s: &str) -> Vec<u8> {
    s.bytes().collect()
}

fn ident(lo: u32, name: &str) -> Expr {
    Expr::Ident { span: sp(lo, lo + name.len() as u32), name: bytes(name) }
}

fn func(lo: u32, hi: u32, is_async: bool) -> Expr {
    Expr::Func {
        span: sp(lo, hi),
        function: Function {
            span: sp(lo, hi),
            is_async,
            body: Some(Block { span: sp(hi - 2, hi), stmts: vec![] }),
        },
    }
}

fn arrow(lo: u32, hi: u32, is_async: bool) -> Expr {
    Expr::Arrow {
        span: sp(lo, hi),
        is_async,
        body: ArrowBody::BlockBody(Block { span: sp(hi - 2, hi), stmts: vec![] }),
    }
}

fn new_expr(lo: u32, hi: u32, callee: Expr, args: Vec<Expr>) -> Stmt {
    Stmt::ExprStmt {
        span: sp(lo, hi),
        expr: bx(Expr::New { span: sp(lo, hi), callee: bx(callee), args: Some(args) }),
    }
}

fn run(body: Vec<Stmt>) -> Vec<Diagnostic> {
    let module = Module { span: sp(0, 1000), body };
    let mut ctx = Context::new(Oracle::new(), CommentMap::new(), CommentMap::new());
    NoAsyncPromiseExecutor::new().lint_module(&mut ctx, &module);
    ctx.diagnostics
}

#[test]
fn no_async_promise_executor_valid() {
    // new Promise(function(resolve, reject) {});
    assert!(run(vec![new_expr(0, 41, ident(4, "Promise"), vec![func(12, 40, false)])]).is_empty());

    // new Promise((resolve, reject) => {});
    assert!(run(vec![new_expr(0, 36, ident(4, "Promise"), vec![arrow(12, 35, false)])]).is_empty());

    // new Promise((resolve, reject) => {}, async function unrelated() {})
    assert!(run(vec![new_expr(
        0,
        67,
        ident(4, "Promise"),
        vec![arrow(12, 35, false), func(37, 66, true)],
    )])
        .is_empty());

    // new Foo(async (resolve, reject) => {})
    assert!(run(vec![new_expr(0, 38, ident(4, "Foo"), vec![arrow(8, 37, true)])]).is_empty());

    // new class { foo() { new Promise(function(resolve, reject) {}); } }
    let inner = new_expr(20, 62, ident(24, "Promise"), vec![func(32, 61, false)]);
    let class_callee = Expr::ClassExpr {
        span: sp(4, 67),
        class: Class {
            span: sp(4, 67),
            members: vec![ClassMember::Method {
                span: sp(12, 65),
                key: PropName::Ident { span: sp(12, 15), name: bytes("foo") },
                kind: MethodKind::Plain,
                function: Function {
                    span: sp(12, 65),
                    is_async: false,
                    body: Some(Block { span: sp(18, 65), stmts: vec![inner] }),
                },
            }],
        },
    };
    assert!(run(vec![Stmt::ExprStmt {
        span: sp(0, 67),
        expr: bx(Expr::New { span: sp(0, 67), callee: bx(class_callee), args: None }),
    }])
        .is_empty());
}

#[test]
fn no_async_promise_executor_invalid() {
    let check_one = |diags: Vec<Diagnostic>, lo: u32| {
        assert_eq!(diags.len(), 1, "{:?}", diags);
        assert_eq!(diags[0].span.lo, lo);
        assert!(matches!(diags[0].kind, DiagKind::AsyncPromiseExecutor));
    };

    // new Promise(async function(resolve, reject) {});
    check_one(run(vec![new_expr(0, 47, ident(4, "Promise"), vec![func(12, 46, true)])]), 0);

    // new Promise(async function foo(resolve, reject) {});
    check_one(run(vec![new_expr(0, 51, ident(4, "Promise"), vec![func(12, 50, true)])]), 0);

    // new Promise(async (resolve, reject) => {});
    check_one(run(vec![new_expr(0, 42, ident(4, "Promise"), vec![arrow(12, 41, true)])]), 0);

    // new Promise(((((async () => {})))));
    let wrapped = Expr::Paren {
        span: sp(12, 34),
        expr: bx(Expr::Paren {
            span: sp(13, 33),
            expr: bx(Expr::Paren {
                span: sp(14, 32),
                expr: bx(Expr::Paren { span: sp(15, 31), expr: bx(arrow(16, 30, true)) }),
            }),
        }),
    };
    check_one(run(vec![new_expr(0, 35, ident(4, "Promise"), vec![wrapped])]), 0);

    // const a = new class { foo() { let b = new Promise(async function(resolve, reject) {}); } }
    // the inner new expression stands on line 4, column 12 of the
    // multi-line source below; its byte position carries that place here
    let src = "\nconst a = new class {\n  foo() {\n    let b = new Promise(async function(resolve, reject) {});\n  }\n}\n      ";
    let line4 = src.lines().nth(3).unwrap();
    let inner_lo = (src.find(line4).unwrap() + 12) as u32;
    let inner = Stmt::VarStmt(tree_lint::ast::VarDecl {
        span: sp(inner_lo - 8, inner_lo + 47),
        inits: vec![Expr::New {
            span: sp(inner_lo, inner_lo + 46),
            callee: bx(ident(inner_lo + 4, "Promise")),
            args: Some(vec![func(inner_lo + 12, inner_lo + 45, true)]),
        }],
    });
    let class_callee = Expr::ClassExpr {
        span: sp(11, 105),
        class: Class {
            span: sp(11, 105),
            members: vec![ClassMember::Method {
                span: sp(25, 100),
                key: PropName::Ident { span: sp(25, 28), name: bytes("foo") },
                kind: MethodKind::Plain,
                function: Function {
                    span: sp(25, 100),
                    is_async: false,
                    body: Some(Block { span: sp(31, 100), stmts: vec![inner] }),
                },
            }],
        },
    };
    let stmt = Stmt::VarStmt(tree_lint::ast::VarDecl {
        span: sp(1, 105),
        inits: vec![Expr::New {
            span: sp(11, 105),
            callee: bx(class_callee),
            args: None,
        }],
    });
    check_one(run(vec![stmt]), inner_lo);
}
