use tree_lint::ast::{
    ArrowBody, Block, Class, ClassMember, Expr, ExprOrSuper, Function, MethodKind, Module, Prop,
    PropName, Span, Stmt, VarDecl,
};
use tree_lint::context::{CommentMap, Context, Diagnostic, Oracle};
use tree_lint::getter_return::GetterReturn;

fn sp(lo: u32, hi: u32) -> Span {
    Span { lo, hi }
}

fn bx(e: Expr) -> Box<Expr> {
    Box::new(e)
}

fn bytes(s: &str) -> Vec<u8> {
    s.bytes().collect()
}

fn ident(lo: u32, name: &str) -> Expr {
    Expr::Ident { span: sp(lo, lo + name.len() as u32), name: bytes(name) }
}

fn ret_value(lo: u32) -> Stmt {
    Stmt::Return { span: sp(lo, lo + 12), arg: Some(bx(Expr::Lit { span: sp(lo + 7, lo + 11) })) }
}

fn ret_bare(lo: u32) -> Stmt {
    Stmt::Return { span: sp(lo, lo + 7), arg: None }
}

fn key(lo: u32, name: &str) -> PropName {
    PropName::Ident { span: sp(lo, lo + name.len() as u32), name: bytes(name) }
}

/// An object-literal getter property, as one statement `const x = { ... };`.
fn obj_with_getter(prop_lo: u32, name: &str, body_lo: u32, stmts: Vec<Stmt>) -> Stmt {
    let getter = Prop::Getter {
        span: sp(prop_lo, body_lo + 20),
        key: key(prop_lo + 4, name),
        body: Some(Block { span: sp(body_lo, body_lo + 18), stmts }),
    };
    Stmt::VarStmt(VarDecl {
        span: sp(0, body_lo + 24),
        inits: vec![Expr::Object { span: sp(prop_lo - 2, body_lo + 22), props: vec![getter] }],
    })
}

/// A class declaration with the given members.
fn class_decl(members: Vec<ClassMember>) -> Stmt {
    Stmt::ClassDecl { span: sp(0, 100), class: Class { span: sp(0, 100), members } }
}

fn getter_method(member_lo: u32, name: &str, body_lo: u32, stmts: Vec<Stmt>) -> ClassMember {
    ClassMember::Method {
        span: sp(member_lo, body_lo + 20),
        key: key(member_lo + 4, name),
        kind: MethodKind::Getter,
        function: Function {
            span: sp(member_lo, body_lo + 20),
            is_async: false,
            body: Some(Block { span: sp(body_lo, body_lo + 18), stmts }),
        },
    }
}

fn plain_method(member_lo: u32, name: &str, body_lo: u32, stmts: Vec<Stmt>) -> ClassMember {
    ClassMember::Method {
        span: sp(member_lo, body_lo + 20),
        key: key(member_lo, name),
        kind: MethodKind::Plain,
        function: Function {
            span: sp(member_lo, body_lo + 20),
            is_async: false,
            body: Some(Block { span: sp(body_lo, body_lo + 18), stmts }),
        },
    }
}

/// `Object.defineProperty(foo, 'bar', { <option> });` as one statement.
fn define_property(call_lo: u32, option: Prop) -> Stmt {
    let member = Expr::Member {
        span: sp(call_lo, call_lo + 21),
        obj: ExprOrSuper::ExprCallee(bx(ident(call_lo, "Object"))),
        prop: bx(ident(call_lo + 7, "defineProperty")),
    };
    let call = Expr::Call {
        span: sp(call_lo, call_lo + 60),
        callee: ExprOrSuper::ExprCallee(bx(member)),
        args: vec![
            ident(call_lo + 22, "foo"),
            Expr::Lit { span: sp(call_lo + 27, call_lo + 32) },
            Expr::Object { span: sp(call_lo + 34, call_lo + 58), props: vec![option] },
        ],
    };
    Stmt::ExprStmt { span: sp(call_lo, call_lo + 61), expr: bx(call) }
}

/// A `get: function() { ... }` option entry.
fn get_function(prop_lo: u32, body_lo: u32, stmts: Vec<Stmt>) -> Prop {
    Prop::KeyValue {
        span: sp(prop_lo, body_lo + 20),
        key: key(prop_lo, "get"),
        value: bx(Expr::Func {
            span: sp(prop_lo + 5, body_lo + 20),
            function: Function {
                span: sp(prop_lo + 5, body_lo + 20),
                is_async: false,
                body: Some(Block { span: sp(body_lo, body_lo + 18), stmts }),
            },
        }),
    }
}

/// The byte position of (line, column) in a source text, lines 1-based and
/// columns 0-based.
fn line_col(src: &str, line: usize, col: usize) -> u32 {
    let mut offset: usize = 0;
    for (n, l) in src.split('\n').enumerate() {
        if n + 1 == line {
            return (offset + col) as u32;
        }
        offset += l.len() + 1;
    }
    panic!("line out of range");
}

fn run_with(body: Vec<Stmt>, continues: &[(u32, bool)]) -> Vec<Diagnostic> {
    let module = Module { span: sp(0, 1000), body };
    let mut o = Oracle::new();
    for (pos, c) in continues {
        o.record(*pos, *c, false);
    }
    let mut ctx = Context::new(o, CommentMap::new(), CommentMap::new());
    GetterReturn::new().lint_module(&mut ctx, &module);
    ctx.diagnostics
}

fn assert_ok(diags: Vec<Diagnostic>) {
    assert!(diags.is_empty(), "expected no diagnostics, got {:?}", diags);
}

fn assert_err_at(diags: Vec<Diagnostic>, cols: &[u32]) {
    assert_eq!(diags.len(), cols.len(), "wrong count: {:?}", diags);
    for (d, c) in diags.iter().zip(cols.iter()) {
        assert_eq!(d.span.lo, *c, "wrong position: {:?}", diags);
    }
}

#[test]
fn getter_return_valid() {
    // let foo = { get bar() { return true; } };
    assert_ok(run_with(
        vec![obj_with_getter(12, "bar", 22, vec![ret_value(24)])],
        &[(22, false)],
    ));

    // class Foo { get bar() { return true; } }
    assert_ok(run_with(
        vec![class_decl(vec![getter_method(12, "bar", 22, vec![ret_value(24)])])],
        &[(22, false)],
    ));

    // class Foo { bar() {} }
    assert_ok(run_with(vec![class_decl(vec![plain_method(12, "bar", 18, vec![])])], &[(18, true)]));

    // class Foo { get bar() { if (baz) { return true; } else { return false; } } }
    let branch = Stmt::If {
        span: sp(24, 73),
        test: bx(ident(28, "baz")),
        cons: Box::new(Stmt::BlockStmt(Block { span: sp(33, 49), stmts: vec![ret_value(35)] })),
        alt: Some(Box::new(Stmt::BlockStmt(Block {
            span: sp(55, 73),
            stmts: vec![ret_value(57)],
        }))),
    };
    assert_ok(run_with(
        vec![class_decl(vec![getter_method(12, "bar", 22, vec![branch])])],
        &[(22, false)],
    ));

    // class Foo { get() { return true; } } — a plain method merely named "get"
    assert_ok(run_with(
        vec![class_decl(vec![plain_method(12, "get", 18, vec![ret_value(20)])])],
        &[(18, false)],
    ));

    // Object.defineProperty(foo, "bar", { get: function () { return true; } });
    assert_ok(run_with(
        vec![define_property(0, get_function(36, 53, vec![ret_value(55)]))],
        &[(53, false)],
    ));

    // Object.defineProperty(foo, "bar",
    //   { get: function () { ~function() { return true; }(); return true; } });
    let inner_fn = Expr::Func {
        span: sp(56, 84),
        function: Function {
            span: sp(56, 84),
            is_async: false,
            body: Some(Block { span: sp(67, 84), stmts: vec![ret_value(69)] }),
        },
    };
    let tilde_call = Stmt::ExprStmt {
        span: sp(55, 87),
        expr: bx(Expr::Unary {
            span: sp(55, 86),
            arg: bx(Expr::Call {
                span: sp(56, 86),
                callee: ExprOrSuper::ExprCallee(bx(inner_fn)),
                args: vec![],
            }),
        }),
    };
    assert_ok(run_with(
        vec![define_property(0, get_function(36, 53, vec![tilde_call, ret_value(88)]))],
        &[(53, false)],
    ));

    // Object.defineProperties(foo, { bar: { get: function() { return true; } } });
    // the two-name call this analysis recognizes is defineProperty alone, so
    // a defineProperties call is not analyzed at all
    let member = Expr::Member {
        span: sp(0, 23),
        obj: ExprOrSuper::ExprCallee(bx(ident(0, "Object"))),
        prop: bx(ident(7, "defineProperties")),
    };
    let inner_obj = Expr::Object {
        span: sp(36, 74),
        props: vec![get_function(38, 55, vec![])],
    };
    let outer_obj = Expr::Object {
        span: sp(29, 76),
        props: vec![Prop::KeyValue { span: sp(31, 74), key: key(31, "bar"), value: bx(inner_obj) }],
    };
    let call = Expr::Call {
        span: sp(0, 77),
        callee: ExprOrSuper::ExprCallee(bx(member)),
        args: vec![ident(24, "foo"), outer_obj],
    };
    assert_ok(run_with(
        vec![Stmt::ExprStmt { span: sp(0, 78), expr: bx(call) }],
        &[(55, true)],
    ));

    // Object.defineProperties(foo,
    //   { bar: { get: function () { ~function() { return true; }(); return true; } } });
    let member = Expr::Member {
        span: sp(0, 23),
        obj: ExprOrSuper::ExprCallee(bx(ident(0, "Object"))),
        prop: bx(ident(7, "defineProperties")),
    };
    let inner_fn = Expr::Func {
        span: sp(60, 88),
        function: Function {
            span: sp(60, 88),
            is_async: false,
            body: Some(Block { span: sp(71, 88), stmts: vec![ret_value(73)] }),
        },
    };
    let tilde_call = Stmt::ExprStmt {
        span: sp(59, 91),
        expr: bx(Expr::Unary {
            span: sp(59, 90),
            arg: bx(Expr::Call {
                span: sp(60, 90),
                callee: ExprOrSuper::ExprCallee(bx(inner_fn)),
                args: vec![],
            }),
        }),
    };
    let inner_obj = Expr::Object {
        span: sp(36, 110),
        props: vec![get_function(38, 57, vec![tilde_call, ret_value(92)])],
    };
    let outer_obj = Expr::Object {
        span: sp(29, 112),
        props: vec![Prop::KeyValue { span: sp(31, 110), key: key(31, "bar"), value: bx(inner_obj) }],
    };
    let call = Expr::Call {
        span: sp(0, 113),
        callee: ExprOrSuper::ExprCallee(bx(member)),
        args: vec![ident(24, "foo"), outer_obj],
    };
    assert_ok(run_with(
        vec![Stmt::ExprStmt { span: sp(0, 114), expr: bx(call) }],
        &[(57, false)],
    ));

    // let get = function() {};
    let func = Expr::Func {
        span: sp(10, 23),
        function: Function {
            span: sp(10, 23),
            is_async: false,
            body: Some(Block { span: sp(21, 23), stmts: vec![] }),
        },
    };
    assert_ok(run_with(
        vec![Stmt::VarStmt(VarDecl { span: sp(0, 24), inits: vec![func] })],
        &[(21, true)],
    ));

    // let get = function() { return true; };
    let func = Expr::Func {
        span: sp(10, 37),
        function: Function {
            span: sp(10, 37),
            is_async: false,
            body: Some(Block { span: sp(21, 37), stmts: vec![ret_value(23)] }),
        },
    };
    assert_ok(run_with(
        vec![Stmt::VarStmt(VarDecl { span: sp(0, 38), inits: vec![func] })],
        &[(21, false)],
    ));

    // let foo = { bar() {} };
    let method = Prop::Method {
        span: sp(12, 20),
        key: key(12, "bar"),
        function: Function {
            span: sp(12, 20),
            is_async: false,
            body: Some(Block { span: sp(18, 20), stmts: vec![] }),
        },
    };
    assert_ok(run_with(
        vec![Stmt::VarStmt(VarDecl {
            span: sp(0, 23),
            inits: vec![Expr::Object { span: sp(10, 22), props: vec![method] }],
        })],
        &[(18, true)],
    ));

    // let foo = { bar() { return true; } };
    let method = Prop::Method {
        span: sp(12, 34),
        key: key(12, "bar"),
        function: Function {
            span: sp(12, 34),
            is_async: false,
            body: Some(Block { span: sp(18, 34), stmts: vec![ret_value(20)] }),
        },
    };
    assert_ok(run_with(
        vec![Stmt::VarStmt(VarDecl {
            span: sp(0, 37),
            inits: vec![Expr::Object { span: sp(10, 36), props: vec![method] }],
        })],
        &[(18, false)],
    ));

    // let foo = { bar: function() {} };
    // let foo = { bar: function() { return; } }; — a bare return outside any getter
    // let foo = { bar: function() { return true; } };
    for stmts in [vec![], vec![ret_bare(30)], vec![ret_value(30)]] {
        let value = Expr::Func {
            span: sp(17, 44),
            function: Function {
                span: sp(17, 44),
                is_async: false,
                body: Some(Block { span: sp(28, 44), stmts }),
            },
        };
        let prop = Prop::KeyValue { span: sp(12, 44), key: key(12, "bar"), value: bx(value) };
        assert_ok(run_with(
            vec![Stmt::VarStmt(VarDecl {
                span: sp(0, 47),
                inits: vec![Expr::Object { span: sp(10, 46), props: vec![prop] }],
            })],
            &[(28, true)],
        ));
    }

    // let foo = { get: function() {} }; — a "get" entry outside defineProperty
    let value = Expr::Func {
        span: sp(17, 30),
        function: Function {
            span: sp(17, 30),
            is_async: false,
            body: Some(Block { span: sp(28, 30), stmts: vec![] }),
        },
    };
    let prop = Prop::KeyValue { span: sp(12, 30), key: key(12, "get"), value: bx(value) };
    assert_ok(run_with(
        vec![Stmt::VarStmt(VarDecl {
            span: sp(0, 33),
            inits: vec![Expr::Object { span: sp(10, 32), props: vec![prop] }],
        })],
        &[(28, true)],
    ));

    // let foo = { get: () => {} };
    let value = Expr::Arrow {
        span: sp(17, 25),
        is_async: false,
        body: ArrowBody::BlockBody(Block { span: sp(23, 25), stmts: vec![] }),
    };
    let prop = Prop::KeyValue { span: sp(12, 25), key: key(12, "get"), value: bx(value) };
    assert_ok(run_with(
        vec![Stmt::VarStmt(VarDecl {
            span: sp(0, 28),
            inits: vec![Expr::Object { span: sp(10, 27), props: vec![prop] }],
        })],
        &[(23, true)],
    ));

    // a returning getter holding an inner returning getter: judged apart
    let inner = obj_with_getter(220, "getter", 240, vec![ret_value(242)]);
    let outer = obj_with_getter(120, "getter", 140, vec![inner, ret_value(262)]);
    assert_ok(run_with(vec![outer], &[(140, false), (240, false)]));

    // a returning class getter holding an inner returning class getter
    let inner_class = Stmt::ClassDecl {
        span: sp(230, 280),
        class: Class {
            span: sp(230, 280),
            members: vec![getter_method(240, "bar", 252, vec![ret_value(254)])],
        },
    };
    let outer = class_decl(vec![getter_method(12, "foo", 22, vec![inner_class, ret_value(282)])]);
    assert_ok(run_with(vec![outer], &[(22, false), (252, false)]));

    // a returning defineProperty getter holding an inner one
    let inner = define_property(300, get_function(336, 353, vec![ret_value(355)]));
    assert_ok(run_with(
        vec![define_property(0, get_function(36, 53, vec![inner, ret_value(380)]))],
        &[(53, false), (353, false)],
    ));

    // a getter that loops forever unless it returns: judged solely by the
    // oracle's outcome for the body's start position
    let loop_body = Stmt::If {
        span: sp(160, 190),
        test: bx(ident(164, "cond")),
        cons: Box::new(Stmt::BlockStmt(Block {
            span: sp(170, 178),
            stmts: vec![Stmt::ExprStmt { span: sp(171, 177), expr: bx(ident(171, "step")) }],
        })),
        alt: Some(Box::new(Stmt::BlockStmt(Block {
            span: sp(180, 190),
            stmts: vec![ret_value(181)],
        }))),
    };
    let endless = Stmt::While {
        span: sp(150, 192),
        test: bx(Expr::Lit { span: sp(157, 161) }),
        body: Box::new(Stmt::BlockStmt(Block { span: sp(162, 192), stmts: vec![loop_body] })),
    };
    let decl = Stmt::VarStmt(VarDecl {
        span: sp(140, 148),
        inits: vec![Expr::Other { span: sp(146, 148) }],
    });
    assert_ok(run_with(
        vec![obj_with_getter(120, "root", 138, vec![decl, endless])],
        &[(138, false)],
    ));
}

#[test]
fn getter_return_invalid() {
    // const foo = { get getter() {} };
    assert_err_at(run_with(vec![obj_with_getter(14, "getter", 27, vec![])], &[(27, true)]), &[14]);

    // const foo = { get bar() { ~function() { return true; } } };
    let inner_fn = Expr::Func {
        span: sp(27, 55),
        function: Function {
            span: sp(27, 55),
            is_async: false,
            body: Some(Block { span: sp(38, 55), stmts: vec![ret_value(40)] }),
        },
    };
    let tilde = Stmt::ExprStmt {
        span: sp(26, 55),
        expr: bx(Expr::Unary { span: sp(26, 55), arg: bx(inner_fn) }),
    };
    assert_err_at(run_with(vec![obj_with_getter(14, "bar", 24, vec![tilde])], &[(24, true)]), &[
        14,
    ]);

    // const foo = { get bar() { if (baz) { return true; } } };
    let branch = Stmt::If {
        span: sp(26, 51),
        test: bx(ident(30, "baz")),
        cons: Box::new(Stmt::BlockStmt(Block { span: sp(35, 51), stmts: vec![ret_value(37)] })),
        alt: None,
    };
    assert_err_at(run_with(vec![obj_with_getter(14, "bar", 24, vec![branch])], &[(24, true)]), &[
        14,
    ]);

    // const foo = { get bar() { return; } };
    assert_err_at(
        run_with(vec![obj_with_getter(14, "bar", 24, vec![ret_bare(26)])], &[(24, false)]),
        &[26],
    );

    // class Foo { get bar() {} }
    assert_err_at(
        run_with(vec![class_decl(vec![getter_method(12, "bar", 22, vec![])])], &[(22, true)]),
        &[12],
    );

    // const foo = class { static get bar() {} }
    let class_expr = Expr::ClassExpr {
        span: sp(12, 41),
        class: Class { span: sp(12, 41), members: vec![getter_method(20, "bar", 37, vec![])] },
    };
    assert_err_at(
        run_with(
            vec![Stmt::VarStmt(VarDecl { span: sp(0, 41), inits: vec![class_expr] })],
            &[(37, true)],
        ),
        &[20],
    );

    // class Foo { get bar(){ if (baz) { return true; } } }
    let branch = Stmt::If {
        span: sp(23, 48),
        test: bx(ident(27, "baz")),
        cons: Box::new(Stmt::BlockStmt(Block { span: sp(32, 48), stmts: vec![ret_value(34)] })),
        alt: None,
    };
    assert_err_at(
        run_with(vec![class_decl(vec![getter_method(12, "bar", 21, vec![branch])])], &[(21, true)]),
        &[12],
    );

    // class Foo { get bar(){ ~function () { return true; }() } }
    let inner_fn = Expr::Func {
        span: sp(24, 52),
        function: Function {
            span: sp(24, 52),
            is_async: false,
            body: Some(Block { span: sp(36, 52), stmts: vec![ret_value(38)] }),
        },
    };
    let tilde = Stmt::ExprStmt {
        span: sp(23, 55),
        expr: bx(Expr::Unary {
            span: sp(23, 55),
            arg: bx(Expr::Call {
                span: sp(24, 55),
                callee: ExprOrSuper::ExprCallee(bx(inner_fn)),
                args: vec![],
            }),
        }),
    };
    assert_err_at(
        run_with(vec![class_decl(vec![getter_method(12, "bar", 21, vec![tilde])])], &[(21, true)]),
        &[12],
    );

    // Object.defineProperty(foo, 'bar', { get: function(){} });
    assert_err_at(
        run_with(vec![define_property(0, get_function(36, 52, vec![]))], &[(52, true)]),
        &[36],
    );

    // Object.defineProperty(foo, 'bar', { get: function getfoo(){} });
    assert_err_at(
        run_with(vec![define_property(0, get_function(36, 59, vec![]))], &[(59, true)]),
        &[36],
    );

    // Object.defineProperty(foo, 'bar', { get(){} });
    let method_option = Prop::Method {
        span: sp(36, 43),
        key: key(36, "get"),
        function: Function {
            span: sp(36, 43),
            is_async: false,
            body: Some(Block { span: sp(41, 43), stmts: vec![] }),
        },
    };
    assert_err_at(run_with(vec![define_property(0, method_option)], &[(41, true)]), &[36]);

    // Object.defineProperty(foo, 'bar', { get: () => {} });
    let arrow_option = Prop::KeyValue {
        span: sp(36, 50),
        key: key(36, "get"),
        value: bx(Expr::Arrow {
            span: sp(42, 50),
            is_async: false,
            body: ArrowBody::BlockBody(Block { span: sp(48, 50), stmts: vec![] }),
        }),
    };
    assert_err_at(run_with(vec![define_property(0, arrow_option)], &[(48, true)]), &[36]);

    // Object.defineProperty(foo, "bar", { get: function() { if(bar) { return true; } } });
    let branch = Stmt::If {
        span: sp(54, 79),
        test: bx(ident(57, "bar")),
        cons: Box::new(Stmt::BlockStmt(Block { span: sp(63, 79), stmts: vec![ret_value(65)] })),
        alt: None,
    };
    assert_err_at(
        run_with(vec![define_property(0, get_function(36, 52, vec![branch]))], &[(52, true)]),
        &[36],
    );

    // Object.defineProperty(foo, "bar", { get: function(){ ~function() { return true; }() } });
    let inner_fn = Expr::Func {
        span: sp(55, 83),
        function: Function {
            span: sp(55, 83),
            is_async: false,
            body: Some(Block { span: sp(66, 83), stmts: vec![ret_value(68)] }),
        },
    };
    let tilde = Stmt::ExprStmt {
        span: sp(54, 86),
        expr: bx(Expr::Unary {
            span: sp(54, 86),
            arg: bx(Expr::Call {
                span: sp(55, 86),
                callee: ExprOrSuper::ExprCallee(bx(inner_fn)),
                args: vec![],
            }),
        }),
    };
    assert_err_at(
        run_with(vec![define_property(0, get_function(36, 52, vec![tilde]))], &[(52, true)]),
        &[36],
    );

    // Object?.defineProperty(foo, 'bar', { get: function(){} });
    let member = Expr::Member {
        span: sp(0, 22),
        obj: ExprOrSuper::ExprCallee(bx(ident(0, "Object"))),
        prop: bx(ident(8, "defineProperty")),
    };
    let call = Expr::Call {
        span: sp(0, 57),
        callee: ExprOrSuper::ExprCallee(bx(member)),
        args: vec![
            ident(23, "foo"),
            Expr::Lit { span: sp(28, 33) },
            Expr::Object { span: sp(35, 55), props: vec![get_function(37, 53, vec![])] },
        ],
    };
    let chained = Stmt::ExprStmt {
        span: sp(0, 58),
        expr: bx(Expr::OptChain { span: sp(0, 57), expr: bx(call) }),
    };
    assert_err_at(run_with(vec![chained], &[(53, true)]), &[37]);

    // (Object?.defineProperty)(foo, 'bar', { get: function(){} });
    let member = Expr::Member {
        span: sp(1, 23),
        obj: ExprOrSuper::ExprCallee(bx(ident(1, "Object"))),
        prop: bx(ident(9, "defineProperty")),
    };
    let callee = Expr::Paren {
        span: sp(0, 24),
        expr: bx(Expr::OptChain { span: sp(1, 23), expr: bx(member) }),
    };
    let call = Expr::Call {
        span: sp(0, 59),
        callee: ExprOrSuper::ExprCallee(bx(callee)),
        args: vec![
            ident(25, "foo"),
            Expr::Lit { span: sp(30, 35) },
            Expr::Object { span: sp(37, 57), props: vec![get_function(39, 55, vec![])] },
        ],
    };
    assert_err_at(
        run_with(vec![Stmt::ExprStmt { span: sp(0, 60), expr: bx(call) }], &[(55, true)]),
        &[39],
    );

    // a returning outer object getter holding an empty inner getter: the
    // finding lands at the inner getter alone, on line 5 column 6 of the
    // source text below
    let src = "\nconst foo = {\n  get getter() {\n    const bar = {\n      get getter() {}\n    };\n    return 42;\n  }\n};\n      ";
    let inner_lo = line_col(src, 5, 6);
    let inner = obj_with_getter(inner_lo, "getter", inner_lo + 13, vec![]);
    let outer = obj_with_getter(16, "getter", 31, vec![inner, ret_value(85)]);
    assert_err_at(
        run_with(vec![outer], &[(31, false), (inner_lo + 13, true)]),
        &[inner_lo],
    );

    // the same nesting through class getters
    let src = "\nclass Foo {\n  get foo() {\n    class Bar {\n      get bar() {}\n    };\n    return 42;\n  }\n}\n      ";
    let inner_lo = line_col(src, 5, 6);
    let inner_class = Stmt::ClassDecl {
        span: sp(inner_lo - 13, inner_lo + 20),
        class: Class {
            span: sp(inner_lo - 13, inner_lo + 20),
            members: vec![getter_method(inner_lo, "bar", inner_lo + 12, vec![])],
        },
    };
    let outer = class_decl(vec![getter_method(14, "foo", 25, vec![inner_class, ret_value(76)])]);
    assert_err_at(
        run_with(vec![outer], &[(25, false), (inner_lo + 12, true)]),
        &[inner_lo],
    );

    // the same nesting through defineProperty calls; the inner call is
    // walked twice — once as a plain child, once as a getter — and the
    // position-keyed buffer keeps one finding
    let src = "\nObject.defineProperty(foo, 'bar', {\n  get: function() {\n    Object.defineProperty(x, 'y', {\n      get: function() {}\n    });\n    return 42;\n  }\n});\n      ";
    let inner_lo = line_col(src, 5, 6);
    let inner = define_property(60, get_function(inner_lo, inner_lo + 17, vec![]));
    assert_err_at(
        run_with(
            vec![define_property(1, get_function(39, 56, vec![inner, ret_value(135)]))],
            &[(56, false), (inner_lo + 17, true)],
        ),
        &[inner_lo],
    );

    // class b { get getterA() {} private get getterB() {} }
    let private_getter = ClassMember::PrivateMethod {
        span: sp(27, 52),
        key_span: sp(39, 46),
        kind: MethodKind::Getter,
        function: Function {
            span: sp(27, 52),
            is_async: false,
            body: Some(Block { span: sp(50, 52), stmts: vec![] }),
        },
    };
    assert_err_at(
        run_with(
            vec![class_decl(vec![getter_method(10, "getterA", 24, vec![]), private_getter])],
            &[(24, true), (50, true)],
        ),
        &[10, 27],
    );
}
