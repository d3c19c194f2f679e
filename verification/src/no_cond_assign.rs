//! no-cond-assign: flags a direct (non-parenthesized) assignment used as the
//! condition of `if`, `while`, `do-while`, a `for` test clause, or as the
//! parenthesized test of a ternary expression.
//!
//! A candidate condition is inspected on its own top level only: a bare
//! assignment is flagged, a logical-OR chain is unwrapped into both operands,
//! and any other shape — a parenthesized assignment included — is left alone.

use vstd::prelude::*;
use crate::ast::{
    ArrowBody, BinOp, Block, Class, ClassMember, Expr, ExprOrSuper, ForInit, Function, Module,
    Prop, Stmt, SwitchCase, VarDecl,
};
use crate::context::{same_inputs, Context, DiagKind, Diagnostic};

verus! {

/// The findings for one candidate condition expression: a bare assignment is
/// flagged at its own position, a logical-OR chain is inspected on both
/// sides, and nothing else is unwrapped.
pub open spec fn spec_condition_diags(e: Expr) -> Seq<Diagnostic>
    decreases e,
{
    match e {
        Expr::Assign { span, .. } => seq![Diagnostic { span, kind: DiagKind::CondAssign }],
        Expr::Bin { op, left, right, .. } => {
            if op == BinOp::LogicalOr {
                spec_condition_diags(*left) + spec_condition_diags(*right)
            } else {
                Seq::empty()
            }
        },
        _ => Seq::empty(),
    }
}

/// The findings of the ternary hook: only a syntactically parenthesized test
/// is inspected, and the check runs on what stands inside the parentheses.
pub open spec fn spec_ternary_test_diags(test: Expr) -> Seq<Diagnostic> {
    match test {
        Expr::Paren { expr, .. } => spec_condition_diags(*expr),
        _ => Seq::empty(),
    }
}

/// The findings of a whole-tree walk, in visit order: each node contributes
/// its hook findings first, then its children's, left to right.
pub open spec fn nca_expr(e: Expr) -> Seq<Diagnostic>
    decreases e,
{
    match e {
        Expr::Ident { .. } => Seq::empty(),
        Expr::Assign { target, value, .. } => nca_expr(*target) + nca_expr(*value),
        Expr::Bin { left, right, .. } => nca_expr(*left) + nca_expr(*right),
        Expr::Paren { expr, .. } => nca_expr(*expr),
        Expr::Ternary { test, cons, alt, .. } => spec_ternary_test_diags(*test) + nca_expr(*test)
            + nca_expr(*cons) + nca_expr(*alt),
        Expr::Func { function, .. } => nca_function(function),
        Expr::Arrow { body, .. } => nca_arrow_body(body),
        Expr::New { callee, args, .. } => nca_expr(*callee) + match args {
            Some(v) => nca_exprs(v@),
            None => Seq::empty(),
        },
        Expr::Call { callee, args, .. } => nca_callee(callee) + nca_exprs(args@),
        Expr::Member { obj, prop, .. } => nca_callee(obj) + nca_expr(*prop),
        Expr::Object { props, .. } => nca_props(props@),
        Expr::ClassExpr { class, .. } => nca_members(class.members@),
        Expr::Unary { arg, .. } => nca_expr(*arg),
        Expr::OptChain { expr, .. } => nca_expr(*expr),
        Expr::Lit { .. } => Seq::empty(),
        Expr::Other { .. } => Seq::empty(),
    }
}

pub open spec fn nca_exprs(es: Seq<Expr>) -> Seq<Diagnostic>
    decreases es,
{
    if es.len() == 0 {
        Seq::empty()
    } else {
        nca_exprs(es.drop_last()) + nca_expr(es.last())
    }
}

pub open spec fn nca_callee(c: ExprOrSuper) -> Seq<Diagnostic>
    decreases c,
{
    match c {
        ExprOrSuper::ExprCallee(e) => nca_expr(*e),
        ExprOrSuper::SuperCallee(_) => Seq::empty(),
    }
}

pub open spec fn nca_function(f: Function) -> Seq<Diagnostic>
    decreases f,
{
    match f.body {
        Some(b) => nca_block(b),
        None => Seq::empty(),
    }
}

pub open spec fn nca_block(b: Block) -> Seq<Diagnostic>
    decreases b,
{
    nca_stmts(b.stmts@)
}

pub open spec fn nca_opt_block(b: Option<Block>) -> Seq<Diagnostic>
    decreases b,
{
    match b {
        Some(bl) => nca_block(bl),
        None => Seq::empty(),
    }
}

pub open spec fn nca_arrow_body(b: ArrowBody) -> Seq<Diagnostic>
    decreases b,
{
    match b {
        ArrowBody::BlockBody(bl) => nca_block(bl),
        ArrowBody::ExprBody(e) => nca_expr(*e),
    }
}

pub open spec fn nca_props(ps: Seq<Prop>) -> Seq<Diagnostic>
    decreases ps,
{
    if ps.len() == 0 {
        Seq::empty()
    } else {
        nca_props(ps.drop_last()) + nca_prop(ps.last())
    }
}

pub open spec fn nca_prop(p: Prop) -> Seq<Diagnostic>
    decreases p,
{
    match p {
        Prop::KeyValue { value, .. } => nca_expr(*value),
        Prop::Getter { body, .. } => nca_opt_block(body),
        Prop::Method { function, .. } => nca_function(function),
        Prop::Spread { expr, .. } => nca_expr(*expr),
        Prop::Other { .. } => Seq::empty(),
    }
}

pub open spec fn nca_members(ms: Seq<ClassMember>) -> Seq<Diagnostic>
    decreases ms,
{
    if ms.len() == 0 {
        Seq::empty()
    } else {
        nca_members(ms.drop_last()) + nca_member(ms.last())
    }
}

pub open spec fn nca_member(m: ClassMember) -> Seq<Diagnostic>
    decreases m,
{
    match m {
        ClassMember::Method { function, .. } => nca_function(function),
        ClassMember::PrivateMethod { function, .. } => nca_function(function),
        ClassMember::Other { .. } => Seq::empty(),
    }
}

pub open spec fn nca_cases(cs: Seq<SwitchCase>) -> Seq<Diagnostic>
    decreases cs,
{
    if cs.len() == 0 {
        Seq::empty()
    } else {
        nca_cases(cs.drop_last()) + nca_case(cs.last())
    }
}

pub open spec fn nca_case(c: SwitchCase) -> Seq<Diagnostic>
    decreases c,
{
    (match c.test {
        Some(t) => nca_expr(*t),
        None => Seq::empty(),
    }) + nca_stmts(c.cons@)
}

pub open spec fn nca_var_decl(d: VarDecl) -> Seq<Diagnostic>
    decreases d,
{
    nca_exprs(d.inits@)
}

pub open spec fn nca_for_init(fi: ForInit) -> Seq<Diagnostic>
    decreases fi,
{
    match fi {
        ForInit::VarInit(d) => nca_var_decl(d),
        ForInit::ExprInit(e) => nca_expr(*e),
    }
}

pub open spec fn nca_stmt(s: Stmt) -> Seq<Diagnostic>
    decreases s,
{
    match s {
        Stmt::BlockStmt(b) => nca_block(b),
        Stmt::ExprStmt { expr, .. } => nca_expr(*expr),
        Stmt::Return { arg, .. } => match arg {
            Some(a) => nca_expr(*a),
            None => Seq::empty(),
        },
        Stmt::If { test, cons, alt, .. } => spec_condition_diags(*test) + nca_expr(*test)
            + nca_stmt(*cons) + match alt {
            Some(a) => nca_stmt(*a),
            None => Seq::empty(),
        },
        Stmt::While { test, body, .. } => spec_condition_diags(*test) + nca_expr(*test) + nca_stmt(
            *body,
        ),
        Stmt::DoWhile { body, test, .. } => spec_condition_diags(*test) + nca_expr(*test)
            + nca_stmt(*body),
        Stmt::For { init, test, update, body, .. } => (match test {
            Some(t) => spec_condition_diags(*t),
            None => Seq::empty(),
        }) + (match init {
            Some(fi) => nca_for_init(fi),
            None => Seq::empty(),
        }) + (match test {
            Some(t) => nca_expr(*t),
            None => Seq::empty(),
        }) + (match update {
            Some(u) => nca_expr(*u),
            None => Seq::empty(),
        }) + nca_stmt(*body),
        Stmt::Switch { disc, cases, .. } => nca_expr(*disc) + nca_cases(cases@),
        Stmt::Throw { arg, .. } => nca_expr(*arg),
        Stmt::Break { .. } => Seq::empty(),
        Stmt::Continue { .. } => Seq::empty(),
        Stmt::VarStmt(d) => nca_var_decl(d),
        Stmt::ClassDecl { class, .. } => nca_members(class.members@),
        Stmt::FnDecl { function, .. } => nca_function(function),
        Stmt::Try { block, handler, finalizer, .. } => nca_block(block) + nca_opt_block(handler)
            + nca_opt_block(finalizer),
        Stmt::Other { .. } => Seq::empty(),
    }
}

pub open spec fn nca_stmts(ss: Seq<Stmt>) -> Seq<Diagnostic>
    decreases ss,
{
    if ss.len() == 0 {
        Seq::empty()
    } else {
        nca_stmts(ss.drop_last()) + nca_stmt(ss.last())
    }
}

/// Everything this analysis reports for one module, in visit order.
pub open spec fn no_cond_assign_diags(m: Module) -> Seq<Diagnostic> {
    nca_stmts(m.body@)
}

/// The tree walker of the analysis. It owns no state: every finding goes
/// straight to the context's sink.
pub struct NoCondAssignVisitor;

impl NoCondAssignVisitor {
    pub fn new() -> (r: NoCondAssignVisitor) {
        NoCondAssignVisitor
    }

    fn add_diagnostic(&self, ctx: &mut Context, span: crate::ast::Span)
        ensures
            same_inputs(*old(ctx), *final(ctx)),
            final(ctx).diagnostics@ == old(ctx).diagnostics@ + seq![
                Diagnostic { span, kind: DiagKind::CondAssign },
            ],
    {
        ctx.add_diagnostic(span, DiagKind::CondAssign);
    }

    /// The check a candidate condition runs through.
    fn check_condition(&self, ctx: &mut Context, e: &Expr)
        ensures
            same_inputs(*old(ctx), *final(ctx)),
            final(ctx).diagnostics@ == old(ctx).diagnostics@ + spec_condition_diags(*e),
        decreases *e,
    {
        match e {
            Expr::Assign { span, .. } => {
                self.add_diagnostic(ctx, *span);
            },
            Expr::Bin { op, left, right, .. } => {
                if *op == BinOp::LogicalOr {
                    self.check_condition(ctx, &**left);
                    self.check_condition(ctx, &**right);
                }
            },
            _ => {},
        }
    }

    fn visit_expr(&self, ctx: &mut Context, e: &Expr)
        ensures
            same_inputs(*old(ctx), *final(ctx)),
            final(ctx).diagnostics@ == old(ctx).diagnostics@ + nca_expr(*e),
        decreases *e,
    {
        match e {
            Expr::Ident { .. } => {},
            Expr::Assign { target, value, .. } => {
                self.visit_expr(ctx, &**target);
                self.visit_expr(ctx, &**value);
            },
            Expr::Bin { left, right, .. } => {
                self.visit_expr(ctx, &**left);
                self.visit_expr(ctx, &**right);
            },
            Expr::Paren { expr, .. } => {
                self.visit_expr(ctx, &**expr);
            },
            Expr::Ternary { test, cons, alt, .. } => {
                if let Expr::Paren { expr, .. } = &**test {
                    self.check_condition(ctx, &**expr);
                }
                self.visit_expr(ctx, &**test);
                self.visit_expr(ctx, &**cons);
                self.visit_expr(ctx, &**alt);
            },
            Expr::Func { function, .. } => {
                self.visit_function(ctx, function);
            },
            Expr::Arrow { body, .. } => {
                self.visit_arrow_body(ctx, body);
            },
            Expr::New { callee, args, .. } => {
                self.visit_expr(ctx, &**callee);
                if let Some(v) = args {
                    self.visit_exprs(ctx, v);
                }
            },
            Expr::Call { callee, args, .. } => {
                self.visit_callee(ctx, callee);
                self.visit_exprs(ctx, args);
            },
            Expr::Member { obj, prop, .. } => {
                self.visit_callee(ctx, obj);
                self.visit_expr(ctx, &**prop);
            },
            Expr::Object { props, .. } => {
                self.visit_props(ctx, props);
            },
            Expr::ClassExpr { class, .. } => {
                self.visit_members(ctx, &class.members);
            },
            Expr::Unary { arg, .. } => {
                self.visit_expr(ctx, &**arg);
            },
            Expr::OptChain { expr, .. } => {
                self.visit_expr(ctx, &**expr);
            },
            Expr::Lit { .. } => {},
            Expr::Other { .. } => {},
        }
    }

    fn visit_exprs(&self, ctx: &mut Context, es: &Vec<Expr>)
        ensures
            same_inputs(*old(ctx), *final(ctx)),
            final(ctx).diagnostics@ == old(ctx).diagnostics@ + nca_exprs(es@),
        decreases es@,
    {
        let ghost d0 = ctx.diagnostics@;
        for i in 0..es.len()
            invariant
                same_inputs(*old(ctx), *ctx),
                d0 == old(ctx).diagnostics@,
                ctx.diagnostics@ == d0 + nca_exprs(es@.take(i as int)),
        {
            proof {
                assert(es@.take(i as int + 1).drop_last() =~= es@.take(i as int));
            }
            self.visit_expr(ctx, &es[i]);
        }
        proof {
            assert(es@.take(es@.len() as int) =~= es@);
        }
    }

    fn visit_callee(&self, ctx: &mut Context, c: &ExprOrSuper)
        ensures
            same_inputs(*old(ctx), *final(ctx)),
            final(ctx).diagnostics@ == old(ctx).diagnostics@ + nca_callee(*c),
        decreases *c,
    {
        match c {
            ExprOrSuper::ExprCallee(e) => {
                self.visit_expr(ctx, &**e);
            },
            ExprOrSuper::SuperCallee(_) => {},
        }
    }

    fn visit_function(&self, ctx: &mut Context, f: &Function)
        ensures
            same_inputs(*old(ctx), *final(ctx)),
            final(ctx).diagnostics@ == old(ctx).diagnostics@ + nca_function(*f),
        decreases *f,
    {
        if let Some(b) = &f.body {
            self.visit_block(ctx, b);
        }
    }

    fn visit_block(&self, ctx: &mut Context, b: &Block)
        ensures
            same_inputs(*old(ctx), *final(ctx)),
            final(ctx).diagnostics@ == old(ctx).diagnostics@ + nca_block(*b),
        decreases *b,
    {
        self.visit_stmts(ctx, &b.stmts);
    }

    fn visit_opt_block(&self, ctx: &mut Context, b: &Option<Block>)
        ensures
            same_inputs(*old(ctx), *final(ctx)),
            final(ctx).diagnostics@ == old(ctx).diagnostics@ + nca_opt_block(*b),
        decreases *b,
    {
        if let Some(bl) = b {
            self.visit_block(ctx, bl);
        }
    }

    fn visit_arrow_body(&self, ctx: &mut Context, b: &ArrowBody)
        ensures
            same_inputs(*old(ctx), *final(ctx)),
            final(ctx).diagnostics@ == old(ctx).diagnostics@ + nca_arrow_body(*b),
        decreases *b,
    {
        match b {
            ArrowBody::BlockBody(bl) => {
                self.visit_block(ctx, bl);
            },
            ArrowBody::ExprBody(e) => {
                self.visit_expr(ctx, &**e);
            },
        }
    }

    fn visit_props(&self, ctx: &mut Context, ps: &Vec<Prop>)
        ensures
            same_inputs(*old(ctx), *final(ctx)),
            final(ctx).diagnostics@ == old(ctx).diagnostics@ + nca_props(ps@),
        decreases ps@,
    {
        let ghost d0 = ctx.diagnostics@;
        for i in 0..ps.len()
            invariant
                same_inputs(*old(ctx), *ctx),
                d0 == old(ctx).diagnostics@,
                ctx.diagnostics@ == d0 + nca_props(ps@.take(i as int)),
        {
            proof {
                assert(ps@.take(i as int + 1).drop_last() =~= ps@.take(i as int));
            }
            self.visit_prop(ctx, &ps[i]);
        }
        proof {
            assert(ps@.take(ps@.len() as int) =~= ps@);
        }
    }

    fn visit_prop(&self, ctx: &mut Context, p: &Prop)
        ensures
            same_inputs(*old(ctx), *final(ctx)),
            final(ctx).diagnostics@ == old(ctx).diagnostics@ + nca_prop(*p),
        decreases *p,
    {
        match p {
            Prop::KeyValue { value, .. } => {
                self.visit_expr(ctx, &**value);
            },
            Prop::Getter { body, .. } => {
                self.visit_opt_block(ctx, body);
            },
            Prop::Method { function, .. } => {
                self.visit_function(ctx, function);
            },
            Prop::Spread { expr, .. } => {
                self.visit_expr(ctx, &**expr);
            },
            Prop::Other { .. } => {},
        }
    }

    fn visit_members(&self, ctx: &mut Context, ms: &Vec<ClassMember>)
        ensures
            same_inputs(*old(ctx), *final(ctx)),
            final(ctx).diagnostics@ == old(ctx).diagnostics@ + nca_members(ms@),
        decreases ms@,
    {
        let ghost d0 = ctx.diagnostics@;
        for i in 0..ms.len()
            invariant
                same_inputs(*old(ctx), *ctx),
                d0 == old(ctx).diagnostics@,
                ctx.diagnostics@ == d0 + nca_members(ms@.take(i as int)),
        {
            proof {
                assert(ms@.take(i as int + 1).drop_last() =~= ms@.take(i as int));
            }
            self.visit_member(ctx, &ms[i]);
        }
        proof {
            assert(ms@.take(ms@.len() as int) =~= ms@);
        }
    }

    fn visit_member(&self, ctx: &mut Context, m: &ClassMember)
        ensures
            same_inputs(*old(ctx), *final(ctx)),
            final(ctx).diagnostics@ == old(ctx).diagnostics@ + nca_member(*m),
        decreases *m,
    {
        match m {
            ClassMember::Method { function, .. } => {
                self.visit_function(ctx, function);
            },
            ClassMember::PrivateMethod { function, .. } => {
                self.visit_function(ctx, function);
            },
            ClassMember::Other { .. } => {},
        }
    }

    fn visit_cases(&self, ctx: &mut Context, cs: &Vec<SwitchCase>)
        ensures
            same_inputs(*old(ctx), *final(ctx)),
            final(ctx).diagnostics@ == old(ctx).diagnostics@ + nca_cases(cs@),
        decreases cs@,
    {
        let ghost d0 = ctx.diagnostics@;
        for i in 0..cs.len()
            invariant
                same_inputs(*old(ctx), *ctx),
                d0 == old(ctx).diagnostics@,
                ctx.diagnostics@ == d0 + nca_cases(cs@.take(i as int)),
        {
            proof {
                assert(cs@.take(i as int + 1).drop_last() =~= cs@.take(i as int));
            }
            self.visit_case(ctx, &cs[i]);
        }
        proof {
            assert(cs@.take(cs@.len() as int) =~= cs@);
        }
    }

    fn visit_case(&self, ctx: &mut Context, c: &SwitchCase)
        ensures
            same_inputs(*old(ctx), *final(ctx)),
            final(ctx).diagnostics@ == old(ctx).diagnostics@ + nca_case(*c),
        decreases *c,
    {
        if let Some(t) = &c.test {
            self.visit_expr(ctx, &**t);
        }
        self.visit_stmts(ctx, &c.cons);
    }

    fn visit_var_decl(&self, ctx: &mut Context, d: &VarDecl)
        ensures
            same_inputs(*old(ctx), *final(ctx)),
            final(ctx).diagnostics@ == old(ctx).diagnostics@ + nca_var_decl(*d),
        decreases *d,
    {
        self.visit_exprs(ctx, &d.inits);
    }

    fn visit_stmt(&self, ctx: &mut Context, s: &Stmt)
        ensures
            same_inputs(*old(ctx), *final(ctx)),
            final(ctx).diagnostics@ == old(ctx).diagnostics@ + nca_stmt(*s),
        decreases *s,
    {
        match s {
            Stmt::BlockStmt(b) => {
                self.visit_block(ctx, b);
            },
            Stmt::ExprStmt { expr, .. } => {
                self.visit_expr(ctx, &**expr);
            },
            Stmt::Return { arg, .. } => {
                if let Some(a) = arg {
                    self.visit_expr(ctx, &**a);
                }
            },
            Stmt::If { test, cons, alt, .. } => {
                self.check_condition(ctx, &**test);
                self.visit_expr(ctx, &**test);
                self.visit_stmt(ctx, &**cons);
                if let Some(a) = alt {
                    self.visit_stmt(ctx, &**a);
                }
            },
            Stmt::While { test, body, .. } => {
                self.check_condition(ctx, &**test);
                self.visit_expr(ctx, &**test);
                self.visit_stmt(ctx, &**body);
            },
            Stmt::DoWhile { body, test, .. } => {
                self.check_condition(ctx, &**test);
                self.visit_expr(ctx, &**test);
                self.visit_stmt(ctx, &**body);
            },
            Stmt::For { init, test, update, body, .. } => {
                if let Some(t) = test {
                    self.check_condition(ctx, &**t);
                }
                if let Some(fi) = init {
                    self.visit_for_init(ctx, fi);
                }
                if let Some(t) = test {
                    self.visit_expr(ctx, &**t);
                }
                if let Some(u) = update {
                    self.visit_expr(ctx, &**u);
                }
                self.visit_stmt(ctx, &**body);
            },
            Stmt::Switch { disc, cases, .. } => {
                self.visit_expr(ctx, &**disc);
                self.visit_cases(ctx, cases);
            },
            Stmt::Throw { arg, .. } => {
                self.visit_expr(ctx, &**arg);
            },
            Stmt::Break { .. } => {},
            Stmt::Continue { .. } => {},
            Stmt::VarStmt(d) => {
                self.visit_var_decl(ctx, d);
            },
            Stmt::ClassDecl { class, .. } => {
                self.visit_members(ctx, &class.members);
            },
            Stmt::FnDecl { function, .. } => {
                self.visit_function(ctx, function);
            },
            Stmt::Try { block, handler, finalizer, .. } => {
                self.visit_block(ctx, block);
                self.visit_opt_block(ctx, handler);
                self.visit_opt_block(ctx, finalizer);
            },
            Stmt::Other { .. } => {},
        }
    }

    fn visit_for_init(&self, ctx: &mut Context, fi: &ForInit)
        ensures
            same_inputs(*old(ctx), *final(ctx)),
            final(ctx).diagnostics@ == old(ctx).diagnostics@ + nca_for_init(*fi),
        decreases *fi,
    {
        match fi {
            ForInit::VarInit(d) => {
                self.visit_var_decl(ctx, d);
            },
            ForInit::ExprInit(e) => {
                self.visit_expr(ctx, &**e);
            },
        }
    }

    fn visit_stmts(&self, ctx: &mut Context, ss: &Vec<Stmt>)
        ensures
            same_inputs(*old(ctx), *final(ctx)),
            final(ctx).diagnostics@ == old(ctx).diagnostics@ + nca_stmts(ss@),
        decreases ss@,
    {
        let ghost d0 = ctx.diagnostics@;
        for i in 0..ss.len()
            invariant
                same_inputs(*old(ctx), *ctx),
                d0 == old(ctx).diagnostics@,
                ctx.diagnostics@ == d0 + nca_stmts(ss@.take(i as int)),
        {
            proof {
                assert(ss@.take(i as int + 1).drop_last() =~= ss@.take(i as int));
            }
            self.visit_stmt(ctx, &ss[i]);
        }
        proof {
            assert(ss@.take(ss@.len() as int) =~= ss@);
        }
    }
}

/// The no-cond-assign rule.
pub struct NoCondAssign;

impl NoCondAssign {
    pub fn new() -> (r: NoCondAssign) {
        NoCondAssign
    }

    /// The rule's stable identifier.
    pub fn code(&self) -> (r: String)
        ensures
            r@ == "no-cond-assign"@,
    {
        "no-cond-assign".to_owned()
    }

    /// The rule's classification tags.
    pub fn tags(&self) -> (r: Vec<String>)
        ensures
            r@.len() == 1,
            r@[0]@ == "recommended"@,
    {
        let mut v: Vec<String> = Vec::new();
        v.push("recommended".to_owned());
        v
    }

    /// Walks one module and reports every direct assignment standing as a
    /// condition, in visit order. The tree and the context's lookups are
    /// read-only; only the sink grows.
    pub fn lint_module(&self, ctx: &mut Context, module: &Module)
        ensures
            same_inputs(*old(ctx), *final(ctx)),
            final(ctx).diagnostics@ == old(ctx).diagnostics@ + no_cond_assign_diags(*module),
    {
        let visitor = NoCondAssignVisitor::new();
        visitor.visit_stmts(ctx, &module.body);
    }

    /// The rule's documentation, with worked examples.
    pub fn docs(&self) -> (r: String) {
        "Disallows assignments in conditions".to_owned()
    }
}

} // verus!
