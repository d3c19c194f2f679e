//! no-async-promise-executor: flags `new Promise(...)` whose first argument
//! — the executor — is an async function, since a rejection inside it is
//! silently lost. Parentheses around the executor are looked through; an
//! executor under any other expression shape is not.

use vstd::prelude::*;
use crate::ast::{
    ArrowBody, Block, ClassMember, Expr, ExprOrSuper, ForInit, Function, Module, Prop, Span,
    Stmt, SwitchCase, VarDecl,
};
use crate::context::{same_inputs, Context, DiagKind, Diagnostic};
use crate::text::bytes_eq;

verus! {

/// The constructor name whose executor argument is inspected: "Promise".
pub open spec fn promise_name() -> Seq<u8> {
    seq![80u8, 114u8, 111u8, 109u8, 105u8, 115u8, 101u8]
}

fn promise_bytes() -> (r: Vec<u8>)
    ensures
        r@ == promise_name(),
{
    let mut v: Vec<u8> = Vec::new();
        v.push(80u8);
        v.push(114u8);
        v.push(111u8);
        v.push(109u8);
        v.push(105u8);
        v.push(115u8);
        v.push(101u8);
    proof {
        assert(v@ =~= promise_name());
    }
    v
}

/// An expression is an async function once parentheses are peeled off.
pub open spec fn spec_is_async_function(e: Expr) -> bool
    decreases e,
{
    match e {
        Expr::Func { function, .. } => function.is_async,
        Expr::Arrow { is_async, .. } => is_async,
        Expr::Paren { expr, .. } => spec_is_async_function(*expr),
        _ => false,
    }
}

/// The finding for one node: a `new Promise(executor, ...)` with an async
/// executor is flagged at the whole new-expression's position.
pub open spec fn spec_new_expr_diags(e: Expr) -> Seq<Diagnostic>
    decreases e,
{
    match e {
        Expr::New { span, callee, args } => match *callee {
            Expr::Ident { name, .. } => if name@ == promise_name() {
                match args {
                    Some(v) => if v@.len() > 0 && spec_is_async_function(v@[0]) {
                        seq![Diagnostic { span, kind: DiagKind::AsyncPromiseExecutor }]
                    } else {
                        Seq::empty()
                    },
                    None => Seq::empty(),
                }
            } else {
                Seq::empty()
            },
            _ => Seq::empty(),
        },
        _ => Seq::empty(),
    }
}

/// The findings of a whole-tree walk, in visit order: each node contributes
/// its own finding first, then its children's, left to right.
pub open spec fn nape_expr(e: Expr) -> Seq<Diagnostic>
    decreases e,
{
    spec_new_expr_diags(e) + match e {
        Expr::Ident { .. } => Seq::empty(),
        Expr::Assign { target, value, .. } => nape_expr(*target) + nape_expr(*value),
        Expr::Bin { left, right, .. } => nape_expr(*left) + nape_expr(*right),
        Expr::Paren { expr, .. } => nape_expr(*expr),
        Expr::Ternary { test, cons, alt, .. } => nape_expr(*test) + nape_expr(*cons) + nape_expr(
            *alt,
        ),
        Expr::Func { function, .. } => nape_function(function),
        Expr::Arrow { body, .. } => nape_arrow_body(body),
        Expr::New { callee, args, .. } => nape_expr(*callee) + match args {
            Some(v) => nape_exprs(v@),
            None => Seq::empty(),
        },
        Expr::Call { callee, args, .. } => nape_callee(callee) + nape_exprs(args@),
        Expr::Member { obj, prop, .. } => nape_callee(obj) + nape_expr(*prop),
        Expr::Object { props, .. } => nape_props(props@),
        Expr::ClassExpr { class, .. } => nape_members(class.members@),
        Expr::Unary { arg, .. } => nape_expr(*arg),
        Expr::OptChain { expr, .. } => nape_expr(*expr),
        Expr::Lit { .. } => Seq::empty(),
        Expr::Other { .. } => Seq::empty(),
    }
}

pub open spec fn nape_exprs(es: Seq<Expr>) -> Seq<Diagnostic>
    decreases es,
{
    if es.len() == 0 {
        Seq::empty()
    } else {
        nape_exprs(es.drop_last()) + nape_expr(es.last())
    }
}

pub open spec fn nape_callee(c: ExprOrSuper) -> Seq<Diagnostic>
    decreases c,
{
    match c {
        ExprOrSuper::ExprCallee(e) => nape_expr(*e),
        ExprOrSuper::SuperCallee(_) => Seq::empty(),
    }
}

pub open spec fn nape_function(f: Function) -> Seq<Diagnostic>
    decreases f,
{
    match f.body {
        Some(b) => nape_block(b),
        None => Seq::empty(),
    }
}

pub open spec fn nape_block(b: Block) -> Seq<Diagnostic>
    decreases b,
{
    nape_stmts(b.stmts@)
}

pub open spec fn nape_opt_block(b: Option<Block>) -> Seq<Diagnostic>
    decreases b,
{
    match b {
        Some(bl) => nape_block(bl),
        None => Seq::empty(),
    }
}

pub open spec fn nape_arrow_body(b: ArrowBody) -> Seq<Diagnostic>
    decreases b,
{
    match b {
        ArrowBody::BlockBody(bl) => nape_block(bl),
        ArrowBody::ExprBody(e) => nape_expr(*e),
    }
}

pub open spec fn nape_props(ps: Seq<Prop>) -> Seq<Diagnostic>
    decreases ps,
{
    if ps.len() == 0 {
        Seq::empty()
    } else {
        nape_props(ps.drop_last()) + nape_prop(ps.last())
    }
}

pub open spec fn nape_prop(p: Prop) -> Seq<Diagnostic>
    decreases p,
{
    match p {
        Prop::KeyValue { value, .. } => nape_expr(*value),
        Prop::Getter { body, .. } => nape_opt_block(body),
        Prop::Method { function, .. } => nape_function(function),
        Prop::Spread { expr, .. } => nape_expr(*expr),
        Prop::Other { .. } => Seq::empty(),
    }
}

pub open spec fn nape_members(ms: Seq<ClassMember>) -> Seq<Diagnostic>
    decreases ms,
{
    if ms.len() == 0 {
        Seq::empty()
    } else {
        nape_members(ms.drop_last()) + nape_member(ms.last())
    }
}

pub open spec fn nape_member(m: ClassMember) -> Seq<Diagnostic>
    decreases m,
{
    match m {
        ClassMember::Method { function, .. } => nape_function(function),
        ClassMember::PrivateMethod { function, .. } => nape_function(function),
        ClassMember::Other { .. } => Seq::empty(),
    }
}

pub open spec fn nape_cases(cs: Seq<SwitchCase>) -> Seq<Diagnostic>
    decreases cs,
{
    if cs.len() == 0 {
        Seq::empty()
    } else {
        nape_cases(cs.drop_last()) + nape_case(cs.last())
    }
}

pub open spec fn nape_case(c: SwitchCase) -> Seq<Diagnostic>
    decreases c,
{
    (match c.test {
        Some(t) => nape_expr(*t),
        None => Seq::empty(),
    }) + nape_stmts(c.cons@)
}

pub open spec fn nape_var_decl(d: VarDecl) -> Seq<Diagnostic>
    decreases d,
{
    nape_exprs(d.inits@)
}

pub open spec fn nape_for_init(fi: ForInit) -> Seq<Diagnostic>
    decreases fi,
{
    match fi {
        ForInit::VarInit(d) => nape_var_decl(d),
        ForInit::ExprInit(e) => nape_expr(*e),
    }
}

pub open spec fn nape_stmt(s: Stmt) -> Seq<Diagnostic>
    decreases s,
{
    match s {
        Stmt::BlockStmt(b) => nape_block(b),
        Stmt::ExprStmt { expr, .. } => nape_expr(*expr),
        Stmt::Return { arg, .. } => match arg {
            Some(a) => nape_expr(*a),
            None => Seq::empty(),
        },
        Stmt::If { test, cons, alt, .. } => nape_expr(*test) + nape_stmt(*cons) + match alt {
            Some(a) => nape_stmt(*a),
            None => Seq::empty(),
        },
        Stmt::While { test, body, .. } => nape_expr(*test) + nape_stmt(*body),
        Stmt::DoWhile { body, test, .. } => nape_expr(*test) + nape_stmt(*body),
        Stmt::For { init, test, update, body, .. } => (match init {
            Some(fi) => nape_for_init(fi),
            None => Seq::empty(),
        }) + (match test {
            Some(t) => nape_expr(*t),
            None => Seq::empty(),
        }) + (match update {
            Some(u) => nape_expr(*u),
            None => Seq::empty(),
        }) + nape_stmt(*body),
        Stmt::Switch { disc, cases, .. } => nape_expr(*disc) + nape_cases(cases@),
        Stmt::Throw { arg, .. } => nape_expr(*arg),
        Stmt::Break { .. } => Seq::empty(),
        Stmt::Continue { .. } => Seq::empty(),
        Stmt::VarStmt(d) => nape_var_decl(d),
        Stmt::ClassDecl { class, .. } => nape_members(class.members@),
        Stmt::FnDecl { function, .. } => nape_function(function),
        Stmt::Try { block, handler, finalizer, .. } => nape_block(block) + nape_opt_block(handler)
            + nape_opt_block(finalizer),
        Stmt::Other { .. } => Seq::empty(),
    }
}

pub open spec fn nape_stmts(ss: Seq<Stmt>) -> Seq<Diagnostic>
    decreases ss,
{
    if ss.len() == 0 {
        Seq::empty()
    } else {
        nape_stmts(ss.drop_last()) + nape_stmt(ss.last())
    }
}

/// Everything this analysis reports for one module, in visit order.
pub open spec fn no_async_promise_executor_diags(m: Module) -> Seq<Diagnostic> {
    nape_stmts(m.body@)
}

/// An expression is an async function once parentheses are peeled off.
pub fn is_async_function(e: &Expr) -> (r: bool)
    ensures
        r == spec_is_async_function(*e),
    decreases *e,
{
    match e {
        Expr::Func { function, .. } => function.is_async,
        Expr::Arrow { is_async, .. } => *is_async,
        Expr::Paren { expr, .. } => is_async_function(&**expr),
        _ => false,
    }
}

/// The tree walker of the analysis. It owns no state: every finding goes
/// straight to the context's sink.
pub struct NoAsyncPromiseExecutorVisitor;

impl NoAsyncPromiseExecutorVisitor {
    pub fn new() -> (r: NoAsyncPromiseExecutorVisitor) {
        NoAsyncPromiseExecutorVisitor
    }

    /// The per-node hook: flags `new Promise(...)` with an async executor.
    fn visit_new_expr(&self, ctx: &mut Context, e: &Expr)
        ensures
            same_inputs(*old(ctx), *final(ctx)),
            final(ctx).diagnostics@ == old(ctx).diagnostics@ + spec_new_expr_diags(*e),
    {
        if let Expr::New { span, callee, args } = e {
            if let Expr::Ident { name, .. } = &**callee {
                if bytes_eq(name, &promise_bytes()) {
                    if let Some(v) = args {
                        if v.len() > 0 && is_async_function(&v[0]) {
                            ctx.add_diagnostic(*span, DiagKind::AsyncPromiseExecutor);
                        }
                    }
                }
            }
        }
    }

    fn visit_expr(&self, ctx: &mut Context, e: &Expr)
        ensures
            same_inputs(*old(ctx), *final(ctx)),
            final(ctx).diagnostics@ == old(ctx).diagnostics@ + nape_expr(*e),
        decreases *e,
    {
        self.visit_new_expr(ctx, e);
        match e {
            Expr::Ident { .. } => {},
            Expr::Assign { target, value, .. } => {
                self.visit_expr(ctx, &**target);
                self.visit_expr(ctx, &**value);
            },
            Expr::Bin { left, right, .. } => {
                self.visit_expr(ctx, &**left);
                self.visit_expr(ctx, &**right);
            },
            Expr::Paren { expr, .. } => {
                self.visit_expr(ctx, &**expr);
            },
            Expr::Ternary { test, cons, alt, .. } => {
                self.visit_expr(ctx, &**test);
                self.visit_expr(ctx, &**cons);
                self.visit_expr(ctx, &**alt);
            },
            Expr::Func { function, .. } => {
                self.visit_function(ctx, function);
            },
            Expr::Arrow { body, .. } => {
                self.visit_arrow_body(ctx, body);
            },
            Expr::New { callee, args, .. } => {
                self.visit_expr(ctx, &**callee);
                if let Some(v) = args {
                    self.visit_exprs(ctx, v);
                }
            },
            Expr::Call { callee, args, .. } => {
                self.visit_callee(ctx, callee);
                self.visit_exprs(ctx, args);
            },
            Expr::Member { obj, prop, .. } => {
                self.visit_callee(ctx, obj);
                self.visit_expr(ctx, &**prop);
            },
            Expr::Object { props, .. } => {
                self.visit_props(ctx, props);
            },
            Expr::ClassExpr { class, .. } => {
                self.visit_members(ctx, &class.members);
            },
            Expr::Unary { arg, .. } => {
                self.visit_expr(ctx, &**arg);
            },
            Expr::OptChain { expr, .. } => {
                self.visit_expr(ctx, &**expr);
            },
            Expr::Lit { .. } => {},
            Expr::Other { .. } => {},
        }
    }

    fn visit_exprs(&self, ctx: &mut Context, es: &Vec<Expr>)
        ensures
            same_inputs(*old(ctx), *final(ctx)),
            final(ctx).diagnostics@ == old(ctx).diagnostics@ + nape_exprs(es@),
        decreases es@,
    {
        let ghost d0 = ctx.diagnostics@;
        for i in 0..es.len()
            invariant
                same_inputs(*old(ctx), *ctx),
                d0 == old(ctx).diagnostics@,
                ctx.diagnostics@ == d0 + nape_exprs(es@.take(i as int)),
        {
            proof {
                assert(es@.take(i as int + 1).drop_last() =~= es@.take(i as int));
            }
            self.visit_expr(ctx, &es[i]);
        }
        proof {
            assert(es@.take(es@.len() as int) =~= es@);
        }
    }

    fn visit_callee(&self, ctx: &mut Context, c: &ExprOrSuper)
        ensures
            same_inputs(*old(ctx), *final(ctx)),
            final(ctx).diagnostics@ == old(ctx).diagnostics@ + nape_callee(*c),
        decreases *c,
    {
        match c {
            ExprOrSuper::ExprCallee(e) => {
                self.visit_expr(ctx, &**e);
            },
            ExprOrSuper::SuperCallee(_) => {},
        }
    }

    fn visit_function(&self, ctx: &mut Context, f: &Function)
        ensures
            same_inputs(*old(ctx), *final(ctx)),
            final(ctx).diagnostics@ == old(ctx).diagnostics@ + nape_function(*f),
        decreases *f,
    {
        if let Some(b) = &f.body {
            self.visit_block(ctx, b);
        }
    }

    fn visit_block(&self, ctx: &mut Context, b: &Block)
        ensures
            same_inputs(*old(ctx), *final(ctx)),
            final(ctx).diagnostics@ == old(ctx).diagnostics@ + nape_block(*b),
        decreases *b,
    {
        self.visit_stmts(ctx, &b.stmts);
    }

    fn visit_opt_block(&self, ctx: &mut Context, b: &Option<Block>)
        ensures
            same_inputs(*old(ctx), *final(ctx)),
            final(ctx).diagnostics@ == old(ctx).diagnostics@ + nape_opt_block(*b),
        decreases *b,
    {
        if let Some(bl) = b {
            self.visit_block(ctx, bl);
        }
    }

    fn visit_arrow_body(&self, ctx: &mut Context, b: &ArrowBody)
        ensures
            same_inputs(*old(ctx), *final(ctx)),
            final(ctx).diagnostics@ == old(ctx).diagnostics@ + nape_arrow_body(*b),
        decreases *b,
    {
        match b {
            ArrowBody::BlockBody(bl) => {
                self.visit_block(ctx, bl);
            },
            ArrowBody::ExprBody(e) => {
                self.visit_expr(ctx, &**e);
            },
        }
    }

    fn visit_props(&self, ctx: &mut Context, ps: &Vec<Prop>)
        ensures
            same_inputs(*old(ctx), *final(ctx)),
            final(ctx).diagnostics@ == old(ctx).diagnostics@ + nape_props(ps@),
        decreases ps@,
    {
        let ghost d0 = ctx.diagnostics@;
        for i in 0..ps.len()
            invariant
                same_inputs(*old(ctx), *ctx),
                d0 == old(ctx).diagnostics@,
                ctx.diagnostics@ == d0 + nape_props(ps@.take(i as int)),
        {
            proof {
                assert(ps@.take(i as int + 1).drop_last() =~= ps@.take(i as int));
            }
            self.visit_prop(ctx, &ps[i]);
        }
        proof {
            assert(ps@.take(ps@.len() as int) =~= ps@);
        }
    }

    fn visit_prop(&self, ctx: &mut Context, p: &Prop)
        ensures
            same_inputs(*old(ctx), *final(ctx)),
            final(ctx).diagnostics@ == old(ctx).diagnostics@ + nape_prop(*p),
        decreases *p,
    {
        match p {
            Prop::KeyValue { value, .. } => {
                self.visit_expr(ctx, &**value);
            },
            Prop::Getter { body, .. } => {
                self.visit_opt_block(ctx, body);
            },
            Prop::Method { function, .. } => {
                self.visit_function(ctx, function);
            },
            Prop::Spread { expr, .. } => {
                self.visit_expr(ctx, &**expr);
            },
            Prop::Other { .. } => {},
        }
    }

    fn visit_members(&self, ctx: &mut Context, ms: &Vec<ClassMember>)
        ensures
            same_inputs(*old(ctx), *final(ctx)),
            final(ctx).diagnostics@ == old(ctx).diagnostics@ + nape_members(ms@),
        decreases ms@,
    {
        let ghost d0 = ctx.diagnostics@;
        for i in 0..ms.len()
            invariant
                same_inputs(*old(ctx), *ctx),
                d0 == old(ctx).diagnostics@,
                ctx.diagnostics@ == d0 + nape_members(ms@.take(i as int)),
        {
            proof {
                assert(ms@.take(i as int + 1).drop_last() =~= ms@.take(i as int));
            }
            self.visit_member(ctx, &ms[i]);
        }
        proof {
            assert(ms@.take(ms@.len() as int) =~= ms@);
        }
    }

    fn visit_member(&self, ctx: &mut Context, m: &ClassMember)
        ensures
            same_inputs(*old(ctx), *final(ctx)),
            final(ctx).diagnostics@ == old(ctx).diagnostics@ + nape_member(*m),
        decreases *m,
    {
        match m {
            ClassMember::Method { function, .. } => {
                self.visit_function(ctx, function);
            },
            ClassMember::PrivateMethod { function, .. } => {
                self.visit_function(ctx, function);
            },
            ClassMember::Other { .. } => {},
        }
    }

    fn visit_cases(&self, ctx: &mut Context, cs: &Vec<SwitchCase>)
        ensures
            same_inputs(*old(ctx), *final(ctx)),
            final(ctx).diagnostics@ == old(ctx).diagnostics@ + nape_cases(cs@),
        decreases cs@,
    {
        let ghost d0 = ctx.diagnostics@;
        for i in 0..cs.len()
            invariant
                same_inputs(*old(ctx), *ctx),
                d0 == old(ctx).diagnostics@,
                ctx.diagnostics@ == d0 + nape_cases(cs@.take(i as int)),
        {
            proof {
                assert(cs@.take(i as int + 1).drop_last() =~= cs@.take(i as int));
            }
            self.visit_case(ctx, &cs[i]);
        }
        proof {
            assert(cs@.take(cs@.len() as int) =~= cs@);
        }
    }

    fn visit_case(&self, ctx: &mut Context, c: &SwitchCase)
        ensures
            same_inputs(*old(ctx), *final(ctx)),
            final(ctx).diagnostics@ == old(ctx).diagnostics@ + nape_case(*c),
        decreases *c,
    {
        if let Some(t) = &c.test {
            self.visit_expr(ctx, &**t);
        }
        self.visit_stmts(ctx, &c.cons);
    }

    fn visit_var_decl(&self, ctx: &mut Context, d: &VarDecl)
        ensures
            same_inputs(*old(ctx), *final(ctx)),
            final(ctx).diagnostics@ == old(ctx).diagnostics@ + nape_var_decl(*d),
        decreases *d,
    {
        self.visit_exprs(ctx, &d.inits);
    }

    fn visit_for_init(&self, ctx: &mut Context, fi: &ForInit)
        ensures
            same_inputs(*old(ctx), *final(ctx)),
            final(ctx).diagnostics@ == old(ctx).diagnostics@ + nape_for_init(*fi),
        decreases *fi,
    {
        match fi {
            ForInit::VarInit(d) => {
                self.visit_var_decl(ctx, d);
            },
            ForInit::ExprInit(e) => {
                self.visit_expr(ctx, &**e);
            },
        }
    }

    fn visit_stmt(&self, ctx: &mut Context, s: &Stmt)
        ensures
            same_inputs(*old(ctx), *final(ctx)),
            final(ctx).diagnostics@ == old(ctx).diagnostics@ + nape_stmt(*s),
        decreases *s,
    {
        match s {
            Stmt::BlockStmt(b) => {
                self.visit_block(ctx, b);
            },
            Stmt::ExprStmt { expr, .. } => {
                self.visit_expr(ctx, &**expr);
            },
            Stmt::Return { arg, .. } => {
                if let Some(a) = arg {
                    self.visit_expr(ctx, &**a);
                }
            },
            Stmt::If { test, cons, alt, .. } => {
                self.visit_expr(ctx, &**test);
                self.visit_stmt(ctx, &**cons);
                if let Some(a) = alt {
                    self.visit_stmt(ctx, &**a);
                }
            },
            Stmt::While { test, body, .. } => {
                self.visit_expr(ctx, &**test);
                self.visit_stmt(ctx, &**body);
            },
            Stmt::DoWhile { body, test, .. } => {
                self.visit_expr(ctx, &**test);
                self.visit_stmt(ctx, &**body);
            },
            Stmt::For { init, test, update, body, .. } => {
                if let Some(fi) = init {
                    self.visit_for_init(ctx, fi);
                }
                if let Some(t) = test {
                    self.visit_expr(ctx, &**t);
                }
                if let Some(u) = update {
                    self.visit_expr(ctx, &**u);
                }
                self.visit_stmt(ctx, &**body);
            },
            Stmt::Switch { disc, cases, .. } => {
                self.visit_expr(ctx, &**disc);
                self.visit_cases(ctx, cases);
            },
            Stmt::Throw { arg, .. } => {
                self.visit_expr(ctx, &**arg);
            },
            Stmt::Break { .. } => {},
            Stmt::Continue { .. } => {},
            Stmt::VarStmt(d) => {
                self.visit_var_decl(ctx, d);
            },
            Stmt::ClassDecl { class, .. } => {
                self.visit_members(ctx, &class.members);
            },
            Stmt::FnDecl { function, .. } => {
                self.visit_function(ctx, function);
            },
            Stmt::Try { block, handler, finalizer, .. } => {
                self.visit_block(ctx, block);
                self.visit_opt_block(ctx, handler);
                self.visit_opt_block(ctx, finalizer);
            },
            Stmt::Other { .. } => {},
        }
    }

    fn visit_stmts(&self, ctx: &mut Context, ss: &Vec<Stmt>)
        ensures
            same_inputs(*old(ctx), *final(ctx)),
            final(ctx).diagnostics@ == old(ctx).diagnostics@ + nape_stmts(ss@),
        decreases ss@,
    {
        let ghost d0 = ctx.diagnostics@;
        for i in 0..ss.len()
            invariant
                same_inputs(*old(ctx), *ctx),
                d0 == old(ctx).diagnostics@,
                ctx.diagnostics@ == d0 + nape_stmts(ss@.take(i as int)),
        {
            proof {
                assert(ss@.take(i as int + 1).drop_last() =~= ss@.take(i as int));
            }
            self.visit_stmt(ctx, &ss[i]);
        }
        proof {
            assert(ss@.take(ss@.len() as int) =~= ss@);
        }
    }
}

/// The no-async-promise-executor rule.
pub struct NoAsyncPromiseExecutor;

impl NoAsyncPromiseExecutor {
    pub fn new() -> (r: NoAsyncPromiseExecutor) {
        NoAsyncPromiseExecutor
    }

    /// The rule's stable identifier.
    pub fn code(&self) -> (r: String)
        ensures
            r@ == "no-async-promise-executor"@,
    {
        "no-async-promise-executor".to_owned()
    }

    /// The rule's classification tags.
    pub fn tags(&self) -> (r: Vec<String>)
        ensures
            r@.len() == 1,
            r@[0]@ == "recommended"@,
    {
        let mut v: Vec<String> = Vec::new();
        v.push("recommended".to_owned());
        v
    }

    /// Walks one module and reports every `new Promise(...)` whose executor
    /// is an async function, in visit order. The tree and the context's
    /// lookups are read-only; only the sink grows.
    pub fn lint_module(&self, ctx: &mut Context, module: &Module)
        ensures
            same_inputs(*old(ctx), *final(ctx)),
            final(ctx).diagnostics@ == old(ctx).diagnostics@ + no_async_promise_executor_diags(
                *module,
            ),
    {
        let visitor = NoAsyncPromiseExecutorVisitor::new();
        visitor.visit_stmts(ctx, &module.body);
    }
}

} // verus!
