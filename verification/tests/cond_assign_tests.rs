use tree_lint::ast::{BinOp, Block, Expr, ForInit, Module, Span, Stmt, SwitchCase, VarDecl};
use tree_lint::context::{CommentMap, Context, DiagKind, Diagnostic, Oracle};
use tree_lint::no_cond_assign::NoCondAssign;

fn sp(lo: u32, hi: u32) -> Span {
    Span { lo, hi }
}

fn pos(src: &str, pat: &str) -> u32 {
    src.find(pat).unwrap() as u32
}

fn bx(e: Expr) -> Box<Expr> {
    Box::new(e)
}

fn other(lo: u32) -> Expr {
    Expr::Other { span: sp(lo, lo + 1) }
}

fn assign(lo: u32, hi: u32) -> Expr {
    Expr::Assign { span: sp(lo, hi), target: bx(other(lo)), value: bx(other(hi - 1)) }
}

fn empty_block(lo: u32) -> Stmt {
    Stmt::BlockStmt(Block { span: sp(lo, lo + 2), stmts: vec![] })
}

fn if_stmt(src: &str, test: Expr, body: Vec<Stmt>) -> Stmt {
    let lo = pos(src, "if");
    Stmt::If {
        span: sp(lo, src.len() as u32),
        test: bx(test),
        cons: Box::new(Stmt::BlockStmt(Block { span: sp(lo + 1, lo + 2), stmts: body })),
        alt: None,
    }
}

fn while_stmt(src: &str, test: Expr, body: Vec<Stmt>) -> Stmt {
    let lo = pos(src, "while");
    Stmt::While {
        span: sp(lo, src.len() as u32),
        test: bx(test),
        body: Box::new(Stmt::BlockStmt(Block { span: sp(lo + 1, lo + 2), stmts: body })),
    }
}

fn do_while_stmt(src: &str, test: Expr, body: Vec<Stmt>) -> Stmt {
    let lo = pos(src, "do");
    Stmt::DoWhile {
        span: sp(lo, src.len() as u32),
        body: Box::new(Stmt::BlockStmt(Block { span: sp(lo + 3, lo + 5), stmts: body })),
        test: bx(test),
    }
}

fn for_stmt(src: &str, init: Option<ForInit>, test: Option<Expr>, update: Option<Expr>) -> Stmt {
    let lo = pos(src, "for");
    Stmt::For {
        span: sp(lo, src.len() as u32),
        init,
        test: test.map(bx),
        update: update.map(bx),
        body: Box::new(empty_block(src.len() as u32 - 2)),
    }
}

fn var_stmt(lo: u32, inits: Vec<Expr>) -> Stmt {
    Stmt::VarStmt(VarDecl { span: sp(lo, lo + 5), inits })
}

fn or(lo: u32, left: Expr, right: Expr) -> Expr {
    Expr::Bin { span: sp(lo, lo + 2), op: BinOp::LogicalOr, left: bx(left), right: bx(right) }
}

fn cmp(lo: u32, left: Expr, right: Expr) -> Expr {
    Expr::Bin { span: sp(lo, lo + 2), op: BinOp::NotOr, left: bx(left), right: bx(right) }
}

fn paren(lo: u32, hi: u32, inner: Expr) -> Expr {
    Expr::Paren { span: sp(lo, hi), expr: bx(inner) }
}

fn run(body: Vec<Stmt>) -> Vec<Diagnostic> {
    let module = Module { span: sp(0, 1000), body };
    let mut ctx = Context::new(Oracle::new(), CommentMap::new(), CommentMap::new());
    NoCondAssign::new().lint_module(&mut ctx, &module);
    ctx.diagnostics
}

fn assert_ok(diags: Vec<Diagnostic>) {
    assert!(diags.is_empty(), "expected no diagnostics, got {:?}", diags);
}

fn assert_err_at(diags: Vec<Diagnostic>, cols: &[u32]) {
    assert_eq!(diags.len(), cols.len(), "wrong count: {:?}", diags);
    for (d, c) in diags.iter().zip(cols.iter()) {
        assert_eq!(d.span.lo, *c, "wrong position: {:?}", diags);
        assert!(matches!(d.kind, DiagKind::CondAssign));
    }
}

#[test]
fn no_cond_assign_valid() {
    let s = "if (x === 0) { };";
    assert_ok(run(vec![if_stmt(s, cmp(4, other(4), other(10)), vec![])]));

    let s = "if ((x = y)) { }";
    assert_ok(run(vec![if_stmt(s, paren(4, 11, assign(5, 10)), vec![])]));

    let s = "const x = 0; if (x == 0) { const b = 1; }";
    assert_ok(run(vec![
        var_stmt(0, vec![other(10)]),
        if_stmt(s, cmp(17, other(17), other(22)), vec![var_stmt(27, vec![other(37)])]),
    ]));

    let s = "const x = 5; while (x < 5) { x = x + 1; }";
    assert_ok(run(vec![
        var_stmt(0, vec![other(10)]),
        while_stmt(s, cmp(20, other(20), other(24)), vec![Stmt::ExprStmt {
            span: sp(29, 39),
            expr: bx(assign(29, 38)),
        }]),
    ]));

    let s = "while ((a = b));";
    assert_ok(run(vec![while_stmt(s, paren(6, 15, assign(8, 13)), vec![])]));

    let s = "do {} while ((a = b));";
    assert_ok(run(vec![do_while_stmt(s, paren(12, 21, assign(14, 19)), vec![])]));

    let s = "for (;(a = b););";
    assert_ok(run(vec![for_stmt(s, None, Some(paren(6, 14, assign(7, 13))), None)]));

    let s = "for (;;) {}";
    assert_ok(run(vec![for_stmt(s, None, None, None)]));

    let s = "if (someNode || (someNode = parentNode)) { }";
    assert_ok(run(vec![if_stmt(s, or(4, other(4), paren(16, 39, assign(17, 38))), vec![])]));

    let s = "while (someNode || (someNode = parentNode)) { }";
    assert_ok(run(vec![while_stmt(s, or(7, other(7), paren(19, 42, assign(20, 41))), vec![])]));

    let s = "do { } while (someNode || (someNode = parentNode));";
    assert_ok(run(vec![do_while_stmt(s, or(14, other(14), paren(26, 49, assign(27, 48))), vec![])]));

    let s = "for (;someNode || (someNode = parentNode););";
    assert_ok(run(vec![for_stmt(
        s,
        None,
        Some(or(6, other(6), paren(18, 41, assign(19, 40)))),
        None,
    )]));

    // if ((function(node) { return node = parentNode; })(someNode)) { }
    let s = "if ((function(node) { return node = parentNode; })(someNode)) { }";
    let func = Expr::Func {
        span: sp(5, 49),
        function: tree_lint::ast::Function {
            span: sp(5, 49),
            is_async: false,
            body: Some(Block {
                span: sp(20, 49),
                stmts: vec![Stmt::Return { span: sp(22, 48), arg: Some(bx(assign(29, 47))) }],
            }),
        },
    };
    let call = Expr::Call {
        span: sp(4, 61),
        callee: tree_lint::ast::ExprOrSuper::ExprCallee(bx(paren(4, 50, func))),
        args: vec![other(52)],
    };
    assert_ok(run(vec![if_stmt(s, call, vec![])]));

    // if ((node => node = parentNode)(someNode)) { }
    let s = "if ((node => node = parentNode)(someNode)) { }";
    let arrow = Expr::Arrow {
        span: sp(5, 30),
        is_async: false,
        body: tree_lint::ast::ArrowBody::ExprBody(bx(assign(13, 30))),
    };
    let call = Expr::Call {
        span: sp(4, 41),
        callee: tree_lint::ast::ExprOrSuper::ExprCallee(bx(paren(4, 31, arrow))),
        args: vec![other(33)],
    };
    assert_ok(run(vec![if_stmt(s, call, vec![])]));

    // if (function(node) { return node = parentNode; }) { }
    let s = "if (function(node) { return node = parentNode; }) { }";
    let func = Expr::Func {
        span: sp(4, 48),
        function: tree_lint::ast::Function {
            span: sp(4, 48),
            is_async: false,
            body: Some(Block {
                span: sp(19, 48),
                stmts: vec![Stmt::Return { span: sp(21, 47), arg: Some(bx(assign(28, 46))) }],
            }),
        },
    };
    assert_ok(run(vec![if_stmt(s, func, vec![])]));

    // const x; const b = (x === 0) ? 1 : 0;
    let ternary = Expr::Ternary {
        span: sp(19, 36),
        test: bx(paren(19, 28, cmp(20, other(20), other(26)))),
        cons: bx(other(31)),
        alt: bx(other(35)),
    };
    assert_ok(run(vec![var_stmt(0, vec![]), var_stmt(9, vec![ternary])]));

    // switch (foo) { case a = b: bar(); }
    let sw = Stmt::Switch {
        span: sp(0, 35),
        disc: bx(other(8)),
        cases: vec![SwitchCase {
            span: sp(15, 33),
            test: Some(bx(assign(20, 25))),
            cons: vec![Stmt::Other { span: sp(27, 33) }],
        }],
    };
    assert_ok(run(vec![sw]));
}

#[test]
fn no_cond_assign_invalid() {
    let s = "if (x = 0) { }";
    assert_err_at(run(vec![if_stmt(s, assign(4, 9), vec![])]), &[4]);

    let s = "while (x = 0) { }";
    assert_err_at(run(vec![while_stmt(s, assign(7, 12), vec![])]), &[7]);

    let s = "do { } while (x = 0);";
    assert_err_at(run(vec![do_while_stmt(s, assign(14, 19), vec![])]), &[14]);

    let s = "for (let i = 0; i = 10; i++) { }";
    assert_err_at(
        run(vec![for_stmt(
            s,
            Some(ForInit::VarInit(VarDecl { span: sp(5, 14), inits: vec![other(13)] })),
            Some(assign(16, 22)),
            Some(other(24)),
        )]),
        &[16],
    );

    let s = "const x; if (x = 0) { const b = 1; }";
    assert_err_at(
        run(vec![var_stmt(0, vec![]), if_stmt(s, assign(13, 18), vec![var_stmt(22, vec![])])]),
        &[13],
    );

    let s = "const x; while (x = 0) { const b = 1; }";
    assert_err_at(
        run(vec![var_stmt(0, vec![]), while_stmt(s, assign(16, 21), vec![var_stmt(25, vec![])])]),
        &[16],
    );

    let s = "const x = 0, y; do { y = x; } while (x = x + 1);";
    assert_err_at(
        run(vec![
            var_stmt(0, vec![other(10)]),
            do_while_stmt(s, assign(37, 46), vec![Stmt::ExprStmt {
                span: sp(21, 27),
                expr: bx(assign(21, 26)),
            }]),
        ]),
        &[37],
    );

    let s = "let x; for(; x+=1 ;){};";
    assert_err_at(
        run(vec![var_stmt(0, vec![]), for_stmt(s, None, Some(assign(13, 17)), None)]),
        &[13],
    );

    let s = "let x; if ((x) = (0));";
    assert_err_at(run(vec![var_stmt(0, vec![]), if_stmt(s, assign(11, 20), vec![])]), &[11]);

    // let x; let b = (x = 0) ? 1 : 0;
    let ternary = Expr::Ternary {
        span: sp(15, 30),
        test: bx(paren(15, 22, assign(16, 21))),
        cons: bx(other(25)),
        alt: bx(other(29)),
    };
    assert_err_at(run(vec![var_stmt(0, vec![]), var_stmt(7, vec![ternary])]), &[16]);

    // (((123.45)).abcd = 54321) ? foo : bar;
    let ternary = Expr::Ternary {
        span: sp(0, 37),
        test: bx(paren(0, 25, assign(1, 24))),
        cons: bx(other(28)),
        alt: bx(other(34)),
    };
    assert_err_at(run(vec![Stmt::ExprStmt { span: sp(0, 38), expr: bx(ternary) }]), &[1]);

    let s = "if (foo) { if (x = 0) {} }";
    let inner = Stmt::If {
        span: sp(11, 24),
        test: bx(assign(15, 20)),
        cons: Box::new(empty_block(22)),
        alt: None,
    };
    assert_err_at(run(vec![if_stmt(s, other(4), vec![inner])]), &[15]);

    let s = "while (foo) { while (x = 0) {} }";
    let inner = Stmt::While {
        span: sp(14, 30),
        test: bx(assign(21, 26)),
        body: Box::new(empty_block(28)),
    };
    assert_err_at(run(vec![while_stmt(s, other(7), vec![inner])]), &[21]);

    let s = "do { do {} while (x = 0) } while (foo);";
    let inner = Stmt::DoWhile {
        span: sp(5, 24),
        body: Box::new(empty_block(8)),
        test: bx(assign(18, 23)),
    };
    assert_err_at(run(vec![do_while_stmt(s, other(34), vec![inner])]), &[18]);

    let s = "for (let i = 0; i < 10; i++) { for (; j+=1 ;) {} }";
    let inner = Stmt::For {
        span: sp(31, 48),
        init: None,
        test: Some(bx(assign(38, 42))),
        update: None,
        body: Box::new(empty_block(46)),
    };
    let outer = Stmt::For {
        span: sp(0, 50),
        init: Some(ForInit::VarInit(VarDecl { span: sp(5, 14), inits: vec![other(13)] })),
        test: Some(bx(cmp(16, other(16), other(20)))),
        update: Some(bx(other(24))),
        body: Box::new(Stmt::BlockStmt(Block { span: sp(29, 50), stmts: vec![inner] })),
    };
    assert_err_at(run(vec![outer]), &[38]);

    // const val = foo ? (x = 0) ? 0 : 1 : 2;
    let inner = Expr::Ternary {
        span: sp(18, 33),
        test: bx(paren(18, 25, assign(19, 24))),
        cons: bx(other(28)),
        alt: bx(other(32)),
    };
    let outer = Expr::Ternary {
        span: sp(12, 37),
        test: bx(other(12)),
        cons: bx(inner),
        alt: bx(other(36)),
    };
    assert_err_at(run(vec![var_stmt(0, vec![outer])]), &[19]);
}
