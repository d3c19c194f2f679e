//! no-fallthrough: flags a switch case whose body can reach the next case's
//! start without an unconditional exit, unless a human-authored suppression
//! comment marks the fallthrough as intentional.
//!
//! Reachability is not computed here: the host's precomputed oracle answers
//! "does this statement unconditionally stop execution" per position.
//! Suppression comments are looked up at two points — trailing on the last
//! statement of the falling case, and leading on the next case — and either
//! one suffices.

use vstd::prelude::*;
use crate::ast::{
    spec_stmt_span, ArrowBody, Block, ClassMember, Expr, ExprOrSuper, ForInit, Function, Module,
    Prop, Span, Stmt, SwitchCase, VarDecl,
};
use crate::context::{
    same_inputs, spec_comments_at, spec_stops_at, CommentMap, Context, DiagKind, Diagnostic,
    Oracle,
};
use crate::text::{allow_fall_through, spec_any_marker};

verus! {

/// A case body that counts as empty for the fallthrough outcome: it has no
/// statements, or its first statement is an empty block.
pub open spec fn spec_case_empty(c: SwitchCase) -> bool {
    c.cons@.len() == 0 || match c.cons@[0] {
        Stmt::BlockStmt(b) => b.stmts@.len() == 0,
        _ => false,
    }
}

/// Some statement of the body is an unconditional exit at its position,
/// according to the oracle.
pub open spec fn spec_any_stop(o: Oracle, ss: Seq<Stmt>) -> bool {
    exists|i: int| 0 <= i < ss.len() && spec_stops_at(o, spec_stmt_span(ss[i]).lo)
}

/// The body's last statement carries a trailing suppression comment.
pub open spec fn spec_trailing_marker(trail: CommentMap, ss: Seq<Stmt>) -> bool {
    ss.len() > 0 && spec_any_marker(spec_comments_at(trail.entries@, spec_stmt_span(ss.last()).hi))
}

/// A leading suppression comment stands on this case.
pub open spec fn spec_leading_marker(lead: CommentMap, c: SwitchCase) -> bool {
    spec_any_marker(spec_comments_at(lead.entries@, c.span.lo))
}

/// The outcome a case leaves for its successor. An empty case is judged by
/// the next case's identity — falling into `default` is flagged, falling
/// into an ordinary case is allowed — unless a trailing suppression comment
/// already settled it; the last case's outcome is never read but is carried
/// uniformly.
pub open spec fn spec_case_outcome(
    o: Oracle,
    trail: CommentMap,
    c: SwitchCase,
    next: Option<SwitchCase>,
) -> bool {
    if spec_trailing_marker(trail, c.cons@) {
        false
    } else {
        match next {
            Some(n) => if spec_case_empty(c) {
                n.test is None
            } else {
                !spec_any_stop(o, c.cons@)
            },
            None => !spec_any_stop(o, c.cons@),
        }
    }
}

/// The run of the fallthrough state machine over a case sequence. Per case,
/// in order: the case's own subtree is walked first (so nested switches are
/// judged independently); then, if the previous case's outcome is pending
/// and no leading suppression comment stands on this case, one finding is
/// reported at the previous case's position; finally this case computes the
/// outcome its successor will see.
pub open spec fn nft_run_cases(
    o: Oracle,
    lead: CommentMap,
    trail: CommentMap,
    cs: Seq<SwitchCase>,
    pending: bool,
    prev_span: Span,
) -> Seq<Diagnostic>
    decreases cs,
{
    if cs.len() == 0 {
        Seq::empty()
    } else {
        let c = cs[0];
        let child = nft_case(o, lead, trail, c);
        let emitted: Seq<Diagnostic> = if pending && !spec_leading_marker(lead, c) {
            seq![Diagnostic { span: prev_span, kind: DiagKind::Fallthrough }]
        } else {
            Seq::empty()
        };
        let next: Option<SwitchCase> = if cs.len() > 1 {
            Some(cs[1])
        } else {
            None
        };
        child + emitted + nft_run_cases(
            o,
            lead,
            trail,
            cs.drop_first(),
            spec_case_outcome(o, trail, c, next),
            c.span,
        )
    }
}

/// The findings of a whole-tree walk, in visit order: each node contributes
/// its own finding first, then its children's, left to right.
pub open spec fn nft_expr(o: Oracle, lead: CommentMap, trail: CommentMap, e: Expr) -> Seq<Diagnostic>
    decreases e,
{
    match e {
        Expr::Ident { .. } => Seq::empty(),
        Expr::Assign { target, value, .. } => nft_expr(o, lead, trail, *target) + nft_expr(o, lead, trail, *value),
        Expr::Bin { left, right, .. } => nft_expr(o, lead, trail, *left) + nft_expr(o, lead, trail, *right),
        Expr::Paren { expr, .. } => nft_expr(o, lead, trail, *expr),
        Expr::Ternary { test, cons, alt, .. } => nft_expr(o, lead, trail, *test) + nft_expr(o, lead, trail, *cons) + nft_expr(o, lead, trail, 
            *alt,
        ),
        Expr::Func { function, .. } => nft_function(o, lead, trail, function),
        Expr::Arrow { body, .. } => nft_arrow_body(o, lead, trail, body),
        Expr::New { callee, args, .. } => nft_expr(o, lead, trail, *callee) + match args {
            Some(v) => nft_exprs(o, lead, trail, v@),
            None => Seq::empty(),
        },
        Expr::Call { callee, args, .. } => nft_callee(o, lead, trail, callee) + nft_exprs(o, lead, trail, args@),
        Expr::Member { obj, prop, .. } => nft_callee(o, lead, trail, obj) + nft_expr(o, lead, trail, *prop),
        Expr::Object { props, .. } => nft_props(o, lead, trail, props@),
        Expr::ClassExpr { class, .. } => nft_members(o, lead, trail, class.members@),
        Expr::Unary { arg, .. } => nft_expr(o, lead, trail, *arg),
        Expr::OptChain { expr, .. } => nft_expr(o, lead, trail, *expr),
        Expr::Lit { .. } => Seq::empty(),
        Expr::Other { .. } => Seq::empty(),
    }
}

pub open spec fn nft_exprs(o: Oracle, lead: CommentMap, trail: CommentMap, es: Seq<Expr>) -> Seq<Diagnostic>
    decreases es,
{
    if es.len() == 0 {
        Seq::empty()
    } else {
        nft_exprs(o, lead, trail, es.drop_last()) + nft_expr(o, lead, trail, es.last())
    }
}

pub open spec fn nft_callee(o: Oracle, lead: CommentMap, trail: CommentMap, c: ExprOrSuper) -> Seq<Diagnostic>
    decreases c,
{
    match c {
        ExprOrSuper::ExprCallee(e) => nft_expr(o, lead, trail, *e),
        ExprOrSuper::SuperCallee(_) => Seq::empty(),
    }
}

pub open spec fn nft_function(o: Oracle, lead: CommentMap, trail: CommentMap, f: Function) -> Seq<Diagnostic>
    decreases f,
{
    match f.body {
        Some(b) => nft_block(o, lead, trail, b),
        None => Seq::empty(),
    }
}

pub open spec fn nft_block(o: Oracle, lead: CommentMap, trail: CommentMap, b: Block) -> Seq<Diagnostic>
    decreases b,
{
    nft_stmts(o, lead, trail, b.stmts@)
}

pub open spec fn nft_opt_block(o: Oracle, lead: CommentMap, trail: CommentMap, b: Option<Block>) -> Seq<Diagnostic>
    decreases b,
{
    match b {
        Some(bl) => nft_block(o, lead, trail, bl),
        None => Seq::empty(),
    }
}

pub open spec fn nft_arrow_body(o: Oracle, lead: CommentMap, trail: CommentMap, b: ArrowBody) -> Seq<Diagnostic>
    decreases b,
{
    match b {
        ArrowBody::BlockBody(bl) => nft_block(o, lead, trail, bl),
        ArrowBody::ExprBody(e) => nft_expr(o, lead, trail, *e),
    }
}

pub open spec fn nft_props(o: Oracle, lead: CommentMap, trail: CommentMap, ps: Seq<Prop>) -> Seq<Diagnostic>
    decreases ps,
{
    if ps.len() == 0 {
        Seq::empty()
    } else {
        nft_props(o, lead, trail, ps.drop_last()) + nft_prop(o, lead, trail, ps.last())
    }
}

pub open spec fn nft_prop(o: Oracle, lead: CommentMap, trail: CommentMap, p: Prop) -> Seq<Diagnostic>
    decreases p,
{
    match p {
        Prop::KeyValue { value, .. } => nft_expr(o, lead, trail, *value),
        Prop::Getter { body, .. } => nft_opt_block(o, lead, trail, body),
        Prop::Method { function, .. } => nft_function(o, lead, trail, function),
        Prop::Spread { expr, .. } => nft_expr(o, lead, trail, *expr),
        Prop::Other { .. } => Seq::empty(),
    }
}

pub open spec fn nft_members(o: Oracle, lead: CommentMap, trail: CommentMap, ms: Seq<ClassMember>) -> Seq<Diagnostic>
    decreases ms,
{
    if ms.len() == 0 {
        Seq::empty()
    } else {
        nft_members(o, lead, trail, ms.drop_last()) + nft_member(o, lead, trail, ms.last())
    }
}

pub open spec fn nft_member(o: Oracle, lead: CommentMap, trail: CommentMap, m: ClassMember) -> Seq<Diagnostic>
    decreases m,
{
    match m {
        ClassMember::Method { function, .. } => nft_function(o, lead, trail, function),
        ClassMember::PrivateMethod { function, .. } => nft_function(o, lead, trail, function),
        ClassMember::Other { .. } => Seq::empty(),
    }
}

pub open spec fn nft_case(o: Oracle, lead: CommentMap, trail: CommentMap, c: SwitchCase) -> Seq<Diagnostic>
    decreases c,
{
    (match c.test {
        Some(t) => nft_expr(o, lead, trail, *t),
        None => Seq::empty(),
    }) + nft_stmts(o, lead, trail, c.cons@)
}

pub open spec fn nft_var_decl(o: Oracle, lead: CommentMap, trail: CommentMap, d: VarDecl) -> Seq<Diagnostic>
    decreases d,
{
    nft_exprs(o, lead, trail, d.inits@)
}

pub open spec fn nft_for_init(o: Oracle, lead: CommentMap, trail: CommentMap, fi: ForInit) -> Seq<Diagnostic>
    decreases fi,
{
    match fi {
        ForInit::VarInit(d) => nft_var_decl(o, lead, trail, d),
        ForInit::ExprInit(e) => nft_expr(o, lead, trail, *e),
    }
}

pub open spec fn nft_stmt(o: Oracle, lead: CommentMap, trail: CommentMap, s: Stmt) -> Seq<Diagnostic>
    decreases s,
{
    match s {
        Stmt::BlockStmt(b) => nft_block(o, lead, trail, b),
        Stmt::ExprStmt { expr, .. } => nft_expr(o, lead, trail, *expr),
        Stmt::Return { arg, .. } => match arg {
            Some(a) => nft_expr(o, lead, trail, *a),
            None => Seq::empty(),
        },
        Stmt::If { test, cons, alt, .. } => nft_expr(o, lead, trail, *test) + nft_stmt(o, lead, trail, *cons) + match alt {
            Some(a) => nft_stmt(o, lead, trail, *a),
            None => Seq::empty(),
        },
        Stmt::While { test, body, .. } => nft_expr(o, lead, trail, *test) + nft_stmt(o, lead, trail, *body),
        Stmt::DoWhile { body, test, .. } => nft_expr(o, lead, trail, *test) + nft_stmt(o, lead, trail, *body),
        Stmt::For { init, test, update, body, .. } => (match init {
            Some(fi) => nft_for_init(o, lead, trail, fi),
            None => Seq::empty(),
        }) + (match test {
            Some(t) => nft_expr(o, lead, trail, *t),
            None => Seq::empty(),
        }) + (match update {
            Some(u) => nft_expr(o, lead, trail, *u),
            None => Seq::empty(),
        }) + nft_stmt(o, lead, trail, *body),
        Stmt::Switch { disc, cases, .. } => nft_expr(o, lead, trail, *disc) + nft_run_cases(
            o,
            lead,
            trail,
            cases@,
            false,
            Span { lo: 0, hi: 0 },
        ),
        Stmt::Throw { arg, .. } => nft_expr(o, lead, trail, *arg),
        Stmt::Break { .. } => Seq::empty(),
        Stmt::Continue { .. } => Seq::empty(),
        Stmt::VarStmt(d) => nft_var_decl(o, lead, trail, d),
        Stmt::ClassDecl { class, .. } => nft_members(o, lead, trail, class.members@),
        Stmt::FnDecl { function, .. } => nft_function(o, lead, trail, function),
        Stmt::Try { block, handler, finalizer, .. } => nft_block(o, lead, trail, block) + nft_opt_block(o, lead, trail, handler)
            + nft_opt_block(o, lead, trail, finalizer),
        Stmt::Other { .. } => Seq::empty(),
    }
}

pub open spec fn nft_stmts(o: Oracle, lead: CommentMap, trail: CommentMap, ss: Seq<Stmt>) -> Seq<Diagnostic>
    decreases ss,
{
    if ss.len() == 0 {
        Seq::empty()
    } else {
        nft_stmts(o, lead, trail, ss.drop_last()) + nft_stmt(o, lead, trail, ss.last())
    }
}

/// Everything this analysis reports for one module, in visit order.
pub open spec fn no_fallthrough_diags(
    o: Oracle,
    lead: CommentMap,
    trail: CommentMap,
    m: Module,
) -> Seq<Diagnostic> {
    nft_stmts(o, lead, trail, m.body@)
}

/// The tree walker of the analysis. It owns no state: every finding goes
/// straight to the context's sink.
pub struct NoFallthroughVisitor;

impl NoFallthroughVisitor {
    pub fn new() -> (r: NoFallthroughVisitor) {
        NoFallthroughVisitor
    }

    fn visit_expr(&self, ctx: &mut Context, e: &Expr)
        ensures
            same_inputs(*old(ctx), *final(ctx)),
            final(ctx).diagnostics@ == old(ctx).diagnostics@ + nft_expr(old(ctx).oracle, old(ctx).leading, old(ctx).trailing, *e),
        decreases *e,
    {
        match e {
            Expr::Ident { .. } => {},
            Expr::Assign { target, value, .. } => {
                self.visit_expr(ctx, &**target);
                self.visit_expr(ctx, &**value);
            },
            Expr::Bin { left, right, .. } => {
                self.visit_expr(ctx, &**left);
                self.visit_expr(ctx, &**right);
            },
            Expr::Paren { expr, .. } => {
                self.visit_expr(ctx, &**expr);
            },
            Expr::Ternary { test, cons, alt, .. } => {
                self.visit_expr(ctx, &**test);
                self.visit_expr(ctx, &**cons);
                self.visit_expr(ctx, &**alt);
            },
            Expr::Func { function, .. } => {
                self.visit_function(ctx, function);
            },
            Expr::Arrow { body, .. } => {
                self.visit_arrow_body(ctx, body);
            },
            Expr::New { callee, args, .. } => {
                self.visit_expr(ctx, &**callee);
                if let Some(v) = args {
                    self.visit_exprs(ctx, v);
                }
            },
            Expr::Call { callee, args, .. } => {
                self.visit_callee(ctx, callee);
                self.visit_exprs(ctx, args);
            },
            Expr::Member { obj, prop, .. } => {
                self.visit_callee(ctx, obj);
                self.visit_expr(ctx, &**prop);
            },
            Expr::Object { props, .. } => {
                self.visit_props(ctx, props);
            },
            Expr::ClassExpr { class, .. } => {
                self.visit_members(ctx, &class.members);
            },
            Expr::Unary { arg, .. } => {
                self.visit_expr(ctx, &**arg);
            },
            Expr::OptChain { expr, .. } => {
                self.visit_expr(ctx, &**expr);
            },
            Expr::Lit { .. } => {},
            Expr::Other { .. } => {},
        }
    }

    fn visit_exprs(&self, ctx: &mut Context, es: &Vec<Expr>)
        ensures
            same_inputs(*old(ctx), *final(ctx)),
            final(ctx).diagnostics@ == old(ctx).diagnostics@ + nft_exprs(old(ctx).oracle, old(ctx).leading, old(ctx).trailing, es@),
        decreases es@,
    {
        let ghost d0 = ctx.diagnostics@;
        for i in 0..es.len()
            invariant
                same_inputs(*old(ctx), *ctx),
                d0 == old(ctx).diagnostics@,
                ctx.diagnostics@ == d0 + nft_exprs(old(ctx).oracle, old(ctx).leading, old(ctx).trailing, es@.take(i as int)),
        {
            proof {
                assert(es@.take(i as int + 1).drop_last() =~= es@.take(i as int));
            }
            self.visit_expr(ctx, &es[i]);
        }
        proof {
            assert(es@.take(es@.len() as int) =~= es@);
        }
    }

    fn visit_callee(&self, ctx: &mut Context, c: &ExprOrSuper)
        ensures
            same_inputs(*old(ctx), *final(ctx)),
            final(ctx).diagnostics@ == old(ctx).diagnostics@ + nft_callee(old(ctx).oracle, old(ctx).leading, old(ctx).trailing, *c),
        decreases *c,
    {
        match c {
            ExprOrSuper::ExprCallee(e) => {
                self.visit_expr(ctx, &**e);
            },
            ExprOrSuper::SuperCallee(_) => {},
        }
    }

    fn visit_function(&self, ctx: &mut Context, f: &Function)
        ensures
            same_inputs(*old(ctx), *final(ctx)),
            final(ctx).diagnostics@ == old(ctx).diagnostics@ + nft_function(old(ctx).oracle, old(ctx).leading, old(ctx).trailing, *f),
        decreases *f,
    {
        if let Some(b) = &f.body {
            self.visit_block(ctx, b);
        }
    }

    fn visit_block(&self, ctx: &mut Context, b: &Block)
        ensures
            same_inputs(*old(ctx), *final(ctx)),
            final(ctx).diagnostics@ == old(ctx).diagnostics@ + nft_block(old(ctx).oracle, old(ctx).leading, old(ctx).trailing, *b),
        decreases *b,
    {
        self.visit_stmts(ctx, &b.stmts);
    }

    fn visit_opt_block(&self, ctx: &mut Context, b: &Option<Block>)
        ensures
            same_inputs(*old(ctx), *final(ctx)),
            final(ctx).diagnostics@ == old(ctx).diagnostics@ + nft_opt_block(old(ctx).oracle, old(ctx).leading, old(ctx).trailing, *b),
        decreases *b,
    {
        if let Some(bl) = b {
            self.visit_block(ctx, bl);
        }
    }

    fn visit_arrow_body(&self, ctx: &mut Context, b: &ArrowBody)
        ensures
            same_inputs(*old(ctx), *final(ctx)),
            final(ctx).diagnostics@ == old(ctx).diagnostics@ + nft_arrow_body(old(ctx).oracle, old(ctx).leading, old(ctx).trailing, *b),
        decreases *b,
    {
        match b {
            ArrowBody::BlockBody(bl) => {
                self.visit_block(ctx, bl);
            },
            ArrowBody::ExprBody(e) => {
                self.visit_expr(ctx, &**e);
            },
        }
    }

    fn visit_props(&self, ctx: &mut Context, ps: &Vec<Prop>)
        ensures
            same_inputs(*old(ctx), *final(ctx)),
            final(ctx).diagnostics@ == old(ctx).diagnostics@ + nft_props(old(ctx).oracle, old(ctx).leading, old(ctx).trailing, ps@),
        decreases ps@,
    {
        let ghost d0 = ctx.diagnostics@;
        for i in 0..ps.len()
            invariant
                same_inputs(*old(ctx), *ctx),
                d0 == old(ctx).diagnostics@,
                ctx.diagnostics@ == d0 + nft_props(old(ctx).oracle, old(ctx).leading, old(ctx).trailing, ps@.take(i as int)),
        {
            proof {
                assert(ps@.take(i as int + 1).drop_last() =~= ps@.take(i as int));
            }
            self.visit_prop(ctx, &ps[i]);
        }
        proof {
            assert(ps@.take(ps@.len() as int) =~= ps@);
        }
    }

    fn visit_prop(&self, ctx: &mut Context, p: &Prop)
        ensures
            same_inputs(*old(ctx), *final(ctx)),
            final(ctx).diagnostics@ == old(ctx).diagnostics@ + nft_prop(old(ctx).oracle, old(ctx).leading, old(ctx).trailing, *p),
        decreases *p,
    {
        match p {
            Prop::KeyValue { value, .. } => {
                self.visit_expr(ctx, &**value);
            },
            Prop::Getter { body, .. } => {
                self.visit_opt_block(ctx, body);
            },
            Prop::Method { function, .. } => {
                self.visit_function(ctx, function);
            },
            Prop::Spread { expr, .. } => {
                self.visit_expr(ctx, &**expr);
            },
            Prop::Other { .. } => {},
        }
    }

    fn visit_members(&self, ctx: &mut Context, ms: &Vec<ClassMember>)
        ensures
            same_inputs(*old(ctx), *final(ctx)),
            final(ctx).diagnostics@ == old(ctx).diagnostics@ + nft_members(old(ctx).oracle, old(ctx).leading, old(ctx).trailing, ms@),
        decreases ms@,
    {
        let ghost d0 = ctx.diagnostics@;
        for i in 0..ms.len()
            invariant
                same_inputs(*old(ctx), *ctx),
                d0 == old(ctx).diagnostics@,
                ctx.diagnostics@ == d0 + nft_members(old(ctx).oracle, old(ctx).leading, old(ctx).trailing, ms@.take(i as int)),
        {
            proof {
                assert(ms@.take(i as int + 1).drop_last() =~= ms@.take(i as int));
            }
            self.visit_member(ctx, &ms[i]);
        }
        proof {
            assert(ms@.take(ms@.len() as int) =~= ms@);
        }
    }

    fn visit_member(&self, ctx: &mut Context, m: &ClassMember)
        ensures
            same_inputs(*old(ctx), *final(ctx)),
            final(ctx).diagnostics@ == old(ctx).diagnostics@ + nft_member(old(ctx).oracle, old(ctx).leading, old(ctx).trailing, *m),
        decreases *m,
    {
        match m {
            ClassMember::Method { function, .. } => {
                self.visit_function(ctx, function);
            },
            ClassMember::PrivateMethod { function, .. } => {
                self.visit_function(ctx, function);
            },
            ClassMember::Other { .. } => {},
        }
    }

    /// Whether a case's body counts as empty for the outcome.
    fn case_empty(&self, c: &SwitchCase) -> (r: bool)
        ensures
            r == spec_case_empty(*c),
    {
        if c.cons.len() == 0 {
            return true;
        }
        match &c.cons[0] {
            Stmt::BlockStmt(b) => b.stmts.len() == 0,
            _ => false,
        }
    }

    /// Whether some statement of the body is an unconditional exit,
    /// according to the oracle.
    fn any_stop(&self, ctx: &Context, ss: &Vec<Stmt>) -> (r: bool)
        ensures
            r == spec_any_stop(ctx.oracle, ss@),
    {
        for j in 0..ss.len()
            invariant
                forall|k: int| 0 <= k < j ==> !spec_stops_at(
                    ctx.oracle,
                    spec_stmt_span(ss@[k]).lo,
                ),
        {
            if ctx.oracle.stops_at(ss[j].stmt_span().lo) {
                return true;
            }
        }
        false
    }

    /// Whether the last statement of the body carries a trailing
    /// suppression comment.
    fn trailing_marker(&self, ctx: &Context, ss: &Vec<Stmt>) -> (r: bool)
        ensures
            r == spec_trailing_marker(ctx.trailing, ss@),
    {
        if ss.len() == 0 {
            return false;
        }
        let hi = ss[ss.len() - 1].stmt_span().hi;
        match ctx.trailing.comments_at(hi) {
            Some(cm) => allow_fall_through(cm),
            None => false,
        }
    }

    /// Whether a leading suppression comment stands on this case.
    fn leading_marker(&self, ctx: &Context, c: &SwitchCase) -> (r: bool)
        ensures
            r == spec_leading_marker(ctx.leading, *c),
    {
        match ctx.leading.comments_at(c.span.lo) {
            Some(cm) => allow_fall_through(cm),
            None => false,
        }
    }

    /// The outcome one case leaves for its successor.
    fn case_outcome(&self, ctx: &Context, c: &SwitchCase, next: Option<&SwitchCase>) -> (r: bool)
        ensures
            r == spec_case_outcome(
                ctx.oracle,
                ctx.trailing,
                *c,
                match next {
                    Some(n) => Some(*n),
                    None => None,
                },
            ),
    {
        if self.trailing_marker(ctx, &c.cons) {
            return false;
        }
        match next {
            Some(n) => {
                if self.case_empty(c) {
                    n.test.is_none()
                } else {
                    !self.any_stop(ctx, &c.cons)
                }
            },
            None => !self.any_stop(ctx, &c.cons),
        }
    }

    /// The fallthrough state machine over one switch's cases.
    fn visit_switch_cases(&self, ctx: &mut Context, cs: &Vec<SwitchCase>)
        ensures
            same_inputs(*old(ctx), *final(ctx)),
            final(ctx).diagnostics@ == old(ctx).diagnostics@ + nft_run_cases(
                old(ctx).oracle,
                old(ctx).leading,
                old(ctx).trailing,
                cs@,
                false,
                Span { lo: 0, hi: 0 },
            ),
        decreases cs@,
    {
        let ghost d0 = ctx.diagnostics@;
        let ghost full = nft_run_cases(
            old(ctx).oracle,
            old(ctx).leading,
            old(ctx).trailing,
            cs@,
            false,
            Span { lo: 0, hi: 0 },
        );
        let mut pending = false;
        let mut prev_span = Span { lo: 0, hi: 0 };
        proof {
            assert(cs@.skip(0) =~= cs@);
        }
        for i in 0..cs.len()
            invariant
                same_inputs(*old(ctx), *ctx),
                d0 == old(ctx).diagnostics@,
                d0 + full == ctx.diagnostics@ + nft_run_cases(
                    old(ctx).oracle,
                    old(ctx).leading,
                    old(ctx).trailing,
                    cs@.skip(i as int),
                    pending,
                    prev_span,
                ),
        {
            proof {
                assert(cs@.skip(i as int).drop_first() =~= cs@.skip(i as int + 1));
                assert(cs@.skip(i as int)[0] == cs@[i as int]);
            }
            self.visit_case(ctx, &cs[i]);
            if pending && !self.leading_marker(ctx, &cs[i]) {
                ctx.add_diagnostic(prev_span, DiagKind::Fallthrough);
            }
            let next_pending: bool = if i + 1 < cs.len() {
                self.case_outcome(ctx, &cs[i], Some(&cs[i + 1]))
            } else {
                self.case_outcome(ctx, &cs[i], None)
            };
            proof {
                if i + 1 < cs.len() {
                    assert(cs@.skip(i as int)[1] == cs@[i as int + 1]);
                }
            }
            pending = next_pending;
            prev_span = cs[i].span;
        }
        proof {
            assert(cs@.skip(cs@.len() as int).len() == 0);
        }
    }

    fn visit_case(&self, ctx: &mut Context, c: &SwitchCase)
        ensures
            same_inputs(*old(ctx), *final(ctx)),
            final(ctx).diagnostics@ == old(ctx).diagnostics@ + nft_case(old(ctx).oracle, old(ctx).leading, old(ctx).trailing, *c),
        decreases *c,
    {
        if let Some(t) = &c.test {
            self.visit_expr(ctx, &**t);
        }
        self.visit_stmts(ctx, &c.cons);
    }

    fn visit_var_decl(&self, ctx: &mut Context, d: &VarDecl)
        ensures
            same_inputs(*old(ctx), *final(ctx)),
            final(ctx).diagnostics@ == old(ctx).diagnostics@ + nft_var_decl(old(ctx).oracle, old(ctx).leading, old(ctx).trailing, *d),
        decreases *d,
    {
        self.visit_exprs(ctx, &d.inits);
    }

    fn visit_for_init(&self, ctx: &mut Context, fi: &ForInit)
        ensures
            same_inputs(*old(ctx), *final(ctx)),
            final(ctx).diagnostics@ == old(ctx).diagnostics@ + nft_for_init(old(ctx).oracle, old(ctx).leading, old(ctx).trailing, *fi),
        decreases *fi,
    {
        match fi {
            ForInit::VarInit(d) => {
                self.visit_var_decl(ctx, d);
            },
            ForInit::ExprInit(e) => {
                self.visit_expr(ctx, &**e);
            },
        }
    }

    fn visit_stmt(&self, ctx: &mut Context, s: &Stmt)
        ensures
            same_inputs(*old(ctx), *final(ctx)),
            final(ctx).diagnostics@ == old(ctx).diagnostics@ + nft_stmt(old(ctx).oracle, old(ctx).leading, old(ctx).trailing, *s),
        decreases *s,
    {
        match s {
            Stmt::BlockStmt(b) => {
                self.visit_block(ctx, b);
            },
            Stmt::ExprStmt { expr, .. } => {
                self.visit_expr(ctx, &**expr);
            },
            Stmt::Return { arg, .. } => {
                if let Some(a) = arg {
                    self.visit_expr(ctx, &**a);
                }
            },
            Stmt::If { test, cons, alt, .. } => {
                self.visit_expr(ctx, &**test);
                self.visit_stmt(ctx, &**cons);
                if let Some(a) = alt {
                    self.visit_stmt(ctx, &**a);
                }
            },
            Stmt::While { test, body, .. } => {
                self.visit_expr(ctx, &**test);
                self.visit_stmt(ctx, &**body);
            },
            Stmt::DoWhile { body, test, .. } => {
                self.visit_expr(ctx, &**test);
                self.visit_stmt(ctx, &**body);
            },
            Stmt::For { init, test, update, body, .. } => {
                if let Some(fi) = init {
                    self.visit_for_init(ctx, fi);
                }
                if let Some(t) = test {
                    self.visit_expr(ctx, &**t);
                }
                if let Some(u) = update {
                    self.visit_expr(ctx, &**u);
                }
                self.visit_stmt(ctx, &**body);
            },
            Stmt::Switch { disc, cases, .. } => {
                self.visit_expr(ctx, &**disc);
                self.visit_switch_cases(ctx, cases);
            },
            Stmt::Throw { arg, .. } => {
                self.visit_expr(ctx, &**arg);
            },
            Stmt::Break { .. } => {},
            Stmt::Continue { .. } => {},
            Stmt::VarStmt(d) => {
                self.visit_var_decl(ctx, d);
            },
            Stmt::ClassDecl { class, .. } => {
                self.visit_members(ctx, &class.members);
            },
            Stmt::FnDecl { function, .. } => {
                self.visit_function(ctx, function);
            },
            Stmt::Try { block, handler, finalizer, .. } => {
                self.visit_block(ctx, block);
                self.visit_opt_block(ctx, handler);
                self.visit_opt_block(ctx, finalizer);
            },
            Stmt::Other { .. } => {},
        }
    }

    fn visit_stmts(&self, ctx: &mut Context, ss: &Vec<Stmt>)
        ensures
            same_inputs(*old(ctx), *final(ctx)),
            final(ctx).diagnostics@ == old(ctx).diagnostics@ + nft_stmts(old(ctx).oracle, old(ctx).leading, old(ctx).trailing, ss@),
        decreases ss@,
    {
        let ghost d0 = ctx.diagnostics@;
        for i in 0..ss.len()
            invariant
                same_inputs(*old(ctx), *ctx),
                d0 == old(ctx).diagnostics@,
                ctx.diagnostics@ == d0 + nft_stmts(old(ctx).oracle, old(ctx).leading, old(ctx).trailing, ss@.take(i as int)),
        {
            proof {
                assert(ss@.take(i as int + 1).drop_last() =~= ss@.take(i as int));
            }
            self.visit_stmt(ctx, &ss[i]);
        }
        proof {
            assert(ss@.take(ss@.len() as int) =~= ss@);
        }
    }
}

/// The no-async-promise-executor rule.
pub struct NoFallthrough;

impl NoFallthrough {
    pub fn new() -> (r: NoFallthrough) {
        NoFallthrough
    }

    /// The rule's stable identifier.
    pub fn code(&self) -> (r: String)
        ensures
            r@ == "no-fallthrough"@,
    {
        "no-fallthrough".to_owned()
    }

    /// The rule's classification tags.
    pub fn tags(&self) -> (r: Vec<String>)
        ensures
            r@.len() == 1,
            r@[0]@ == "recommended"@,
    {
        let mut v: Vec<String> = Vec::new();
        v.push("recommended".to_owned());
        v
    }

    /// Walks one module and reports every switch case that can fall through
    /// into its successor without a suppression comment, in visit order. The
    /// tree and the context's lookups are read-only; only the sink grows.
    pub fn lint_module(&self, ctx: &mut Context, module: &Module)
        ensures
            same_inputs(*old(ctx), *final(ctx)),
            final(ctx).diagnostics@ == old(ctx).diagnostics@ + no_fallthrough_diags(
                old(ctx).oracle,
                old(ctx).leading,
                old(ctx).trailing,
                *module,
            ),
    {
        let visitor = NoFallthroughVisitor::new();
        visitor.visit_stmts(ctx, &module.body);
    }
}

} // verus!
