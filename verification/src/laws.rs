//! The laws the analyses obey, stated and proved over the same spec
//! functions the rules' contracts are written in.

use vstd::prelude::*;
use crate::ast::{
    span_lt, ArrowBody, Block, ClassMember, Expr, ExprOrSuper, ForInit, Function,
    MethodKind, Module, Prop, PropName, Span, Stmt, SwitchCase, VarDecl,
};
use crate::context::{
    spec_continues_at, Context, DiagKind, Diagnostic, GetterName, Oracle,
};
use crate::getter_return::{
    getter_return_diags, gr_arrow_body, gr_block, gr_callee, gr_case, gr_cases, gr_def_body,
    gr_expr, gr_exprs, gr_for_init, gr_function, gr_member, gr_members, gr_opt_block, gr_prop,
    gr_props, gr_stmt, gr_stmts, gr_var_decl, insert_err, spec_resolve_name,
};
use crate::no_fallthrough::no_fallthrough_diags;

verus! {

/// A finding buffer ordered strictly by position: later entries lie at
/// strictly greater spans, so every position holds at most one entry.
pub open spec fn errs_sorted(s: Seq<Diagnostic>) -> bool {
    forall|i: int, j: int| 0 <= i < j < s.len() ==> span_lt(s[i].span, s[j].span)
}

/// Buffering keeps the order: inserting into a position-ordered buffer
/// yields a position-ordered buffer whose entries are the new finding and
/// entries of the old buffer, the new finding among them.
pub proof fn lemma_insert_err_sorted(s: Seq<Diagnostic>, d: Diagnostic)
    requires
        errs_sorted(s),
    ensures
        errs_sorted(insert_err(s, d)),
        insert_err(s, d).contains(d),
        forall|i: int|
            0 <= i < insert_err(s, d).len() ==> insert_err(s, d)[i] == d || s.contains(
                insert_err(s, d)[i],
            ),
    decreases s.len(),
{
    let r = insert_err(s, d);
    if s.len() == 0 {
        assert(r[0] == d);
    } else if span_lt(d.span, s[0].span) {
        assert(r[0] == d);
        assert forall|i: int| 0 <= i < r.len() implies r[i] == d || s.contains(r[i]) by {
            if i >= 1 {
                assert(r[i] == s[i - 1]);
            }
        }
        assert forall|i: int, j: int| 0 <= i < j < r.len() implies span_lt(
            r[i].span,
            r[j].span,
        ) by {
            assert(r[j] == s[j - 1]);
            if i == 0 {
                if j >= 2 {
                    assert(span_lt(s[0].span, s[j - 1].span));
                }
            } else {
                assert(r[i] == s[i - 1]);
            }
        }
    } else if d.span == s[0].span {
        assert(r[0] == d);
        assert forall|i: int| 0 <= i < r.len() implies r[i] == d || s.contains(r[i]) by {
            if i >= 1 {
                assert(r[i] == s[i]);
            }
        }
        assert forall|i: int, j: int| 0 <= i < j < r.len() implies span_lt(
            r[i].span,
            r[j].span,
        ) by {
            assert(r[j] == s[j]);
            if i == 0 {
                assert(span_lt(s[0].span, s[j].span));
            } else {
                assert(r[i] == s[i]);
            }
        }
    } else {
        let t = s.drop_first();
        assert(errs_sorted(t)) by {
            assert(forall|i: int, j: int|
                0 <= i < j < t.len() ==> span_lt(#[trigger] t[i].span, #[trigger] t[j].span));
        }
        lemma_insert_err_sorted(t, d);
        let rt = insert_err(t, d);
        assert(r == seq![s[0]] + rt);
        assert(span_lt(s[0].span, d.span));
        assert forall|i: int, j: int| 0 <= i < j < r.len() implies span_lt(
            r[i].span,
            r[j].span,
        ) by {
            if i == 0 {
                assert(r[j] == rt[j - 1]);
                assert(rt[j - 1] == d || t.contains(rt[j - 1]));
                if t.contains(rt[j - 1]) {
                    let w = choose|w: int| 0 <= w < t.len() && t[w] == rt[j - 1];
                    assert(span_lt(s[0].span, t[w].span));
                }
            } else {
                assert(r[i] == rt[i - 1] && r[j] == rt[j - 1]);
            }
        }
        assert(r.contains(d)) by {
            let w = choose|w: int| 0 <= w < rt.len() && rt[w] == d;
            assert(r[w + 1] == d);
        }
        assert forall|i: int| 0 <= i < r.len() implies r[i] == d || s.contains(r[i]) by {
            if i == 0 {
                assert(s.contains(s[0]));
            } else {
                assert(r[i] == rt[i - 1]);
                if rt[i - 1] != d {
                    let w = choose|w: int| 0 <= w < t.len() && t[w] == rt[i - 1];
                    assert(s[w + 1] == t[w]);
                    assert(s.contains(s[w + 1]));
                }
            }
        }
    }
}

/// Exactly one entry stands at the inserted finding's position afterwards:
/// the finding itself; distinct entries of the buffer lie at distinct
/// positions.
pub proof fn lemma_insert_err_one_per_span(s: Seq<Diagnostic>, d: Diagnostic)
    requires
        errs_sorted(s),
    ensures
        exists|i: int| 0 <= i < insert_err(s, d).len() && insert_err(s, d)[i] == d,
        forall|i: int, j: int|
            0 <= i < j < insert_err(s, d).len() ==> insert_err(s, d)[i].span != insert_err(
                s,
                d,
            )[j].span,
{
    lemma_insert_err_sorted(s, d);
    let r = insert_err(s, d);
    let w = choose|w: int| 0 <= w < r.len() && r[w] == d;
    assert(0 <= w < r.len() && r[w] == d);
    assert forall|i: int, j: int| 0 <= i < j < r.len() implies r[i].span != r[j].span by {
        assert(span_lt(r[i].span, r[j].span));
    }
}

/// Nested getters are judged independently, class-member side: walking any
/// class member restores the enclosing frame's has-return flag exactly, and
/// what the member adds to the buffer does not depend on the enclosing
/// frame at all — an inner getter's returns are never credited to an outer
/// getter, and its outcome never changes with the outer frame's state.
pub proof fn lemma_member_frame_independent(
    o: Oracle,
    m: ClassMember,
    n1: Option<GetterName>,
    h1: bool,
    n2: Option<GetterName>,
    h2: bool,
    errs: Seq<Diagnostic>,
)
    ensures
        gr_member(o, n1, h1, errs, m).0 == h1,
        gr_member(o, n1, h1, errs, m).1 == gr_member(o, n2, h2, errs, m).1,
{
}

/// Nested getters are judged independently, object-literal side: walking a
/// getter property restores the enclosing frame's has-return flag exactly,
/// and what it adds to the buffer does not depend on the enclosing frame.
pub proof fn lemma_getter_prop_frame_independent(
    o: Oracle,
    p: Prop,
    n1: Option<GetterName>,
    h1: bool,
    n2: Option<GetterName>,
    h2: bool,
    errs: Seq<Diagnostic>,
)
    requires
        p is Getter,
    ensures
        gr_prop(o, n1, h1, errs, p).0 == h1,
        gr_prop(o, n1, h1, errs, p).1 == gr_prop(o, n2, h2, errs, p).1,
{
}

/// A class getter whose body the oracle says control can fall off the end
/// of buffers exactly one end-of-body finding: at the member's own
/// position, reading "expected to return a value" when the body's walk saw
/// no return, "expected to always return a value" when it saw one.
pub proof fn lemma_class_getter_outcome(
    o: Oracle,
    name0: Option<GetterName>,
    hr0: bool,
    errs: Seq<Diagnostic>,
    span: Span,
    key: PropName,
    f: Function,
    b: Block,
)
    requires
        f.body == Some(b),
        spec_continues_at(o, b.span.lo),
    ensures
        ({
            let n = spec_resolve_name(key);
            let inner = gr_function(o, Some(n), false, errs, f);
            let outcome = (Diagnostic {
                span,
                kind: if inner.0 {
                    DiagKind::GetterAlwaysExpected { name: n }
                } else {
                    DiagKind::GetterExpectedReturn { name: n }
                },
            });
            gr_member(
                o,
                name0,
                hr0,
                errs,
                ClassMember::Method { span, key, kind: MethodKind::Getter, function: f },
            ) == (hr0, insert_err(inner.1, outcome))
        }),
{
}

/// An object-literal getter whose body the oracle says control can fall off
/// the end of buffers exactly one end-of-body finding, at the property's
/// own position, with the same two message variants.
pub proof fn lemma_object_getter_outcome(
    o: Oracle,
    name0: Option<GetterName>,
    hr0: bool,
    errs: Seq<Diagnostic>,
    span: Span,
    key: PropName,
    b: Block,
)
    requires
        spec_continues_at(o, b.span.lo),
    ensures
        ({
            let n = spec_resolve_name(key);
            let inner = gr_opt_block(o, Some(n), false, errs, Some(b));
            let outcome = (Diagnostic {
                span,
                kind: if inner.0 {
                    DiagKind::GetterAlwaysExpected { name: n }
                } else {
                    DiagKind::GetterExpectedReturn { name: n }
                },
            });
            gr_prop(o, name0, hr0, errs, Prop::Getter { span, key, body: Some(b) }) == (
                hr0,
                insert_err(inner.1, outcome),
            )
        }),
{
}

/// A getter found in a static-property-definition call behaves the same
/// way: when control can fall off the end of its body, the walk of that
/// body is followed by exactly one end-of-body finding at the option
/// entry's position.
pub proof fn lemma_def_getter_outcome(
    o: Oracle,
    errs: Seq<Diagnostic>,
    prop_span: Span,
    name: GetterName,
    b: Block,
)
    requires
        spec_continues_at(o, b.span.lo),
    ensures
        ({
            let inner = gr_stmts(o, Some(name), false, errs, b.stmts@);
            let outcome = (Diagnostic {
                span: prop_span,
                kind: if inner.0 {
                    DiagKind::GetterAlwaysExpected { name }
                } else {
                    DiagKind::GetterExpectedReturn { name }
                },
            });
            gr_def_body(o, errs, prop_span, name, b) == insert_err(inner.1, outcome)
        }),
{
}

/// A class getter is silent when the oracle says control cannot fall off
/// the end of its body: the walk leaves only what the body itself buffered.
/// In particular, a getter whose body buffers nothing — one in which every
/// return visible to its frame carries a value, and no nested getter is
/// flagged — produces no finding at all.
pub proof fn lemma_class_getter_silent(
    o: Oracle,
    name0: Option<GetterName>,
    hr0: bool,
    errs: Seq<Diagnostic>,
    span: Span,
    key: PropName,
    f: Function,
    b: Block,
)
    requires
        f.body == Some(b),
        !spec_continues_at(o, b.span.lo),
    ensures
        ({
            let inner = gr_function(o, Some(spec_resolve_name(key)), false, errs, f);
            gr_member(
                o,
                name0,
                hr0,
                errs,
                ClassMember::Method { span, key, kind: MethodKind::Getter, function: f },
            ) == (hr0, inner.1)
        }),
        gr_function(o, Some(spec_resolve_name(key)), false, errs, f).1 == errs ==> gr_member(
            o,
            name0,
            hr0,
            errs,
            ClassMember::Method { span, key, kind: MethodKind::Getter, function: f },
        ) == (hr0, errs),
{
}

/// An object-literal getter is silent in the same way when the oracle says
/// control cannot fall off the end of its body.
pub proof fn lemma_object_getter_silent(
    o: Oracle,
    name0: Option<GetterName>,
    hr0: bool,
    errs: Seq<Diagnostic>,
    span: Span,
    key: PropName,
    b: Block,
)
    requires
        !spec_continues_at(o, b.span.lo),
    ensures
        ({
            let inner = gr_opt_block(o, Some(spec_resolve_name(key)), false, errs, Some(b));
            gr_prop(o, name0, hr0, errs, Prop::Getter { span, key, body: Some(b) }) == (
                hr0,
                inner.1,
            )
        }),
        gr_opt_block(o, Some(spec_resolve_name(key)), false, errs, Some(b)).1 == errs
            ==> gr_prop(o, name0, hr0, errs, Prop::Getter { span, key, body: Some(b) }) == (
            hr0,
            errs,
        ),
{
}

/// Idempotence: every analysis' findings are a function of the tree, the
/// oracle and the comment lookups alone, so two runs over the same
/// unmodified tree with the same inputs append byte-identical diagnostic
/// sequences. The two analyses missing here read no context input at all —
/// their finding functions take only the module — so for them the same
/// holds immediately.
pub proof fn lemma_rules_idempotent(m: Module, a: Context, b: Context)
    requires
        a.oracle == b.oracle,
        a.leading == b.leading,
        a.trailing == b.trailing,
    ensures
        getter_return_diags(a.oracle, m) == getter_return_diags(b.oracle, m),
        no_fallthrough_diags(a.oracle, a.leading, a.trailing, m) == no_fallthrough_diags(
            b.oracle,
            b.leading,
            b.trailing,
            m,
        ),
{
}


/// A return statement the active getter frame sees in this expression:
/// returns inside nested plain functions and arrows count, while class
/// bodies and getter properties run their own frames and contribute
/// nothing, and a return's own argument is never walked.
pub open spec fn sr_expr(e: Expr) -> bool
    decreases e,
{
    match e {
        Expr::Ident { .. } => false,
        Expr::Assign { target, value, .. } => sr_expr(*target) || sr_expr(*value),
        Expr::Bin { left, right, .. } => sr_expr(*left) || sr_expr(*right),
        Expr::Paren { expr, .. } => sr_expr(*expr),
        Expr::Ternary { test, cons, alt, .. } => sr_expr(*test) || sr_expr(*cons) || sr_expr(
            *alt,
        ),
        Expr::Func { function, .. } => sr_function(function),
        Expr::Arrow { body, .. } => sr_arrow_body(body),
        Expr::New { callee, args, .. } => sr_expr(*callee) || match args {
            Some(v) => sr_exprs(v@),
            None => false,
        },
        Expr::Call { callee, args, .. } => sr_callee(callee) || sr_exprs(args@),
        Expr::Member { obj, prop, .. } => sr_callee(obj) || sr_expr(*prop),
        Expr::Object { props, .. } => sr_props(props@),
        Expr::ClassExpr { .. } => false,
        Expr::Unary { arg, .. } => sr_expr(*arg),
        Expr::OptChain { expr, .. } => sr_expr(*expr),
        Expr::Lit { .. } => false,
        Expr::Other { .. } => false,
    }
}

pub open spec fn sr_exprs(es: Seq<Expr>) -> bool
    decreases es,
{
    if es.len() == 0 {
        false
    } else {
        sr_exprs(es.drop_last()) || sr_expr(es.last())
    }
}

pub open spec fn sr_callee(c: ExprOrSuper) -> bool
    decreases c,
{
    match c {
        ExprOrSuper::ExprCallee(e) => sr_expr(*e),
        ExprOrSuper::SuperCallee(_) => false,
    }
}

pub open spec fn sr_function(f: Function) -> bool
    decreases f,
{
    match f.body {
        Some(b) => sr_block(b),
        None => false,
    }
}

pub open spec fn sr_block(b: Block) -> bool
    decreases b,
{
    sr_stmts(b.stmts@)
}

pub open spec fn sr_opt_block(b: Option<Block>) -> bool
    decreases b,
{
    match b {
        Some(bl) => sr_block(bl),
        None => false,
    }
}

pub open spec fn sr_arrow_body(b: ArrowBody) -> bool
    decreases b,
{
    match b {
        ArrowBody::BlockBody(bl) => sr_block(bl),
        ArrowBody::ExprBody(e) => sr_expr(*e),
    }
}

pub open spec fn sr_props(ps: Seq<Prop>) -> bool
    decreases ps,
{
    if ps.len() == 0 {
        false
    } else {
        sr_props(ps.drop_last()) || sr_prop(ps.last())
    }
}

pub open spec fn sr_prop(p: Prop) -> bool
    decreases p,
{
    match p {
        Prop::KeyValue { value, .. } => sr_expr(*value),
        Prop::Getter { .. } => false,
        Prop::Method { function, .. } => sr_function(function),
        Prop::Spread { expr, .. } => sr_expr(*expr),
        Prop::Other { .. } => false,
    }
}

pub open spec fn sr_cases(cs: Seq<SwitchCase>) -> bool
    decreases cs,
{
    if cs.len() == 0 {
        false
    } else {
        sr_cases(cs.drop_last()) || sr_case(cs.last())
    }
}

pub open spec fn sr_case(c: SwitchCase) -> bool
    decreases c,
{
    (match c.test {
        Some(t) => sr_expr(*t),
        None => false,
    }) || sr_stmts(c.cons@)
}

pub open spec fn sr_var_decl(d: VarDecl) -> bool
    decreases d,
{
    sr_exprs(d.inits@)
}

pub open spec fn sr_for_init(fi: ForInit) -> bool
    decreases fi,
{
    match fi {
        ForInit::VarInit(d) => sr_var_decl(d),
        ForInit::ExprInit(e) => sr_expr(*e),
    }
}

pub open spec fn sr_stmt(s: Stmt) -> bool
    decreases s,
{
    match s {
        Stmt::BlockStmt(b) => sr_block(b),
        Stmt::ExprStmt { expr, .. } => sr_expr(*expr),
        Stmt::Return { .. } => true,
        Stmt::If { test, cons, alt, .. } => sr_expr(*test) || sr_stmt(*cons) || match alt {
            Some(a) => sr_stmt(*a),
            None => false,
        },
        Stmt::While { test, body, .. } => sr_expr(*test) || sr_stmt(*body),
        Stmt::DoWhile { body, test, .. } => sr_expr(*test) || sr_stmt(*body),
        Stmt::For { init, test, update, body, .. } => (match init {
            Some(fi) => sr_for_init(fi),
            None => false,
        }) || (match test {
            Some(t) => sr_expr(*t),
            None => false,
        }) || (match update {
            Some(u) => sr_expr(*u),
            None => false,
        }) || sr_stmt(*body),
        Stmt::Switch { disc, cases, .. } => sr_expr(*disc) || sr_cases(cases@),
        Stmt::Throw { arg, .. } => sr_expr(*arg),
        Stmt::Break { .. } => false,
        Stmt::Continue { .. } => false,
        Stmt::VarStmt(d) => sr_var_decl(d),
        Stmt::ClassDecl { .. } => false,
        Stmt::FnDecl { function, .. } => sr_function(function),
        Stmt::Try { block, handler, finalizer, .. } => sr_block(block) || sr_opt_block(handler)
            || sr_opt_block(finalizer),
        Stmt::Other { .. } => false,
    }
}

pub open spec fn sr_stmts(ss: Seq<Stmt>) -> bool
    decreases ss,
{
    if ss.len() == 0 {
        false
    } else {
        sr_stmts(ss.drop_last()) || sr_stmt(ss.last())
    }
}

/// What the frame's has-return flag means: after walking a node, the flag
/// is set exactly when it was set before, or the frame is active and the
/// node holds a return the frame sees.
pub proof fn lemma_hr_expr(
    o: Oracle,
    name: Option<GetterName>,
    hr: bool,
    errs: Seq<Diagnostic>,
    e: Expr,
)
    ensures
        gr_expr(o, name, hr, errs, e).0 == (hr || (name is Some && sr_expr(e))),
    decreases e,
{
    match e {
        Expr::Assign { target, value, .. } => {
            let r = gr_expr(o, name, hr, errs, *target);
            lemma_hr_expr(o, name, hr, errs, *target);
            lemma_hr_expr(o, name, r.0, r.1, *value);
        },
        Expr::Bin { left, right, .. } => {
            let r = gr_expr(o, name, hr, errs, *left);
            lemma_hr_expr(o, name, hr, errs, *left);
            lemma_hr_expr(o, name, r.0, r.1, *right);
        },
        Expr::Paren { expr, .. } => {
            lemma_hr_expr(o, name, hr, errs, *expr);
        },
        Expr::Ternary { test, cons, alt, .. } => {
            let r1 = gr_expr(o, name, hr, errs, *test);
            let r2 = gr_expr(o, name, r1.0, r1.1, *cons);
            lemma_hr_expr(o, name, hr, errs, *test);
            lemma_hr_expr(o, name, r1.0, r1.1, *cons);
            lemma_hr_expr(o, name, r2.0, r2.1, *alt);
        },
        Expr::Func { function, .. } => {
            lemma_hr_function(o, name, hr, errs, function);
        },
        Expr::Arrow { body, .. } => {
            lemma_hr_arrow_body(o, name, hr, errs, body);
        },
        Expr::New { callee, args, .. } => {
            let r = gr_expr(o, name, hr, errs, *callee);
            lemma_hr_expr(o, name, hr, errs, *callee);
            match args {
                Some(v) => {
                    lemma_hr_exprs(o, name, r.0, r.1, v@);
                },
                None => {},
            }
        },
        Expr::Call { callee, args, .. } => {
            let r1 = gr_callee(o, name, hr, errs, callee);
            lemma_hr_callee(o, name, hr, errs, callee);
            lemma_hr_exprs(o, name, r1.0, r1.1, args@);
        },
        Expr::Member { obj, prop, .. } => {
            let r = gr_callee(o, name, hr, errs, obj);
            lemma_hr_callee(o, name, hr, errs, obj);
            lemma_hr_expr(o, name, r.0, r.1, *prop);
        },
        Expr::Object { props, .. } => {
            lemma_hr_props(o, name, hr, errs, props@);
        },
        Expr::ClassExpr { class, .. } => {
            lemma_hr_members(o, name, hr, errs, class.members@);
        },
        Expr::Unary { arg, .. } => {
            lemma_hr_expr(o, name, hr, errs, *arg);
        },
        Expr::OptChain { expr, .. } => {
            lemma_hr_expr(o, name, hr, errs, *expr);
        },
        _ => {},
    }
}

pub proof fn lemma_hr_exprs(
    o: Oracle,
    name: Option<GetterName>,
    hr: bool,
    errs: Seq<Diagnostic>,
    es: Seq<Expr>,
)
    ensures
        gr_exprs(o, name, hr, errs, es).0 == (hr || (name is Some && sr_exprs(es))),
    decreases es,
{
    if es.len() > 0 {
        let r = gr_exprs(o, name, hr, errs, es.drop_last());
        lemma_hr_exprs(o, name, hr, errs, es.drop_last());
        lemma_hr_expr(o, name, r.0, r.1, es.last());
    }
}

pub proof fn lemma_hr_callee(
    o: Oracle,
    name: Option<GetterName>,
    hr: bool,
    errs: Seq<Diagnostic>,
    c: ExprOrSuper,
)
    ensures
        gr_callee(o, name, hr, errs, c).0 == (hr || (name is Some && sr_callee(c))),
    decreases c,
{
    match c {
        ExprOrSuper::ExprCallee(e) => {
            lemma_hr_expr(o, name, hr, errs, *e);
        },
        ExprOrSuper::SuperCallee(_) => {},
    }
}

pub proof fn lemma_hr_function(
    o: Oracle,
    name: Option<GetterName>,
    hr: bool,
    errs: Seq<Diagnostic>,
    f: Function,
)
    ensures
        gr_function(o, name, hr, errs, f).0 == (hr || (name is Some && sr_function(f))),
    decreases f,
{
    match f.body {
        Some(b) => {
            lemma_hr_block(o, name, hr, errs, b);
        },
        None => {},
    }
}

pub proof fn lemma_hr_block(
    o: Oracle,
    name: Option<GetterName>,
    hr: bool,
    errs: Seq<Diagnostic>,
    b: Block,
)
    ensures
        gr_block(o, name, hr, errs, b).0 == (hr || (name is Some && sr_block(b))),
    decreases b,
{
    lemma_hr_stmts(o, name, hr, errs, b.stmts@);
}

pub proof fn lemma_hr_opt_block(
    o: Oracle,
    name: Option<GetterName>,
    hr: bool,
    errs: Seq<Diagnostic>,
    b: Option<Block>,
)
    ensures
        gr_opt_block(o, name, hr, errs, b).0 == (hr || (name is Some && sr_opt_block(b))),
    decreases b,
{
    match b {
        Some(bl) => {
            lemma_hr_block(o, name, hr, errs, bl);
        },
        None => {},
    }
}

pub proof fn lemma_hr_arrow_body(
    o: Oracle,
    name: Option<GetterName>,
    hr: bool,
    errs: Seq<Diagnostic>,
    b: ArrowBody,
)
    ensures
        gr_arrow_body(o, name, hr, errs, b).0 == (hr || (name is Some && sr_arrow_body(b))),
    decreases b,
{
    match b {
        ArrowBody::BlockBody(bl) => {
            lemma_hr_block(o, name, hr, errs, bl);
        },
        ArrowBody::ExprBody(e) => {
            lemma_hr_expr(o, name, hr, errs, *e);
        },
    }
}

pub proof fn lemma_hr_props(
    o: Oracle,
    name: Option<GetterName>,
    hr: bool,
    errs: Seq<Diagnostic>,
    ps: Seq<Prop>,
)
    ensures
        gr_props(o, name, hr, errs, ps).0 == (hr || (name is Some && sr_props(ps))),
    decreases ps,
{
    if ps.len() > 0 {
        let r = gr_props(o, name, hr, errs, ps.drop_last());
        lemma_hr_props(o, name, hr, errs, ps.drop_last());
        lemma_hr_prop(o, name, r.0, r.1, ps.last());
    }
}

pub proof fn lemma_hr_prop(
    o: Oracle,
    name: Option<GetterName>,
    hr: bool,
    errs: Seq<Diagnostic>,
    p: Prop,
)
    ensures
        gr_prop(o, name, hr, errs, p).0 == (hr || (name is Some && sr_prop(p))),
    decreases p,
{
    match p {
        Prop::KeyValue { value, .. } => {
            lemma_hr_expr(o, name, hr, errs, *value);
        },
        Prop::Method { function, .. } => {
            lemma_hr_function(o, name, hr, errs, function);
        },
        Prop::Spread { expr, .. } => {
            lemma_hr_expr(o, name, hr, errs, *expr);
        },
        _ => {},
    }
}

pub proof fn lemma_hr_members(
    o: Oracle,
    name: Option<GetterName>,
    hr: bool,
    errs: Seq<Diagnostic>,
    ms: Seq<ClassMember>,
)
    ensures
        gr_members(o, name, hr, errs, ms).0 == hr,
    decreases ms,
{
    if ms.len() > 0 {
        let r = gr_members(o, name, hr, errs, ms.drop_last());
        lemma_hr_members(o, name, hr, errs, ms.drop_last());
        lemma_member_frame_independent(o, ms.last(), name, r.0, name, r.0, r.1);
    }
}

pub proof fn lemma_hr_cases(
    o: Oracle,
    name: Option<GetterName>,
    hr: bool,
    errs: Seq<Diagnostic>,
    cs: Seq<SwitchCase>,
)
    ensures
        gr_cases(o, name, hr, errs, cs).0 == (hr || (name is Some && sr_cases(cs))),
    decreases cs,
{
    if cs.len() > 0 {
        let r = gr_cases(o, name, hr, errs, cs.drop_last());
        lemma_hr_cases(o, name, hr, errs, cs.drop_last());
        lemma_hr_case(o, name, r.0, r.1, cs.last());
    }
}

pub proof fn lemma_hr_case(
    o: Oracle,
    name: Option<GetterName>,
    hr: bool,
    errs: Seq<Diagnostic>,
    c: SwitchCase,
)
    ensures
        gr_case(o, name, hr, errs, c).0 == (hr || (name is Some && sr_case(c))),
    decreases c,
{
    let r = match c.test {
        Some(t) => gr_expr(o, name, hr, errs, *t),
        None => (hr, errs),
    };
    match c.test {
        Some(t) => {
            lemma_hr_expr(o, name, hr, errs, *t);
        },
        None => {},
    }
    lemma_hr_stmts(o, name, r.0, r.1, c.cons@);
}

pub proof fn lemma_hr_var_decl(
    o: Oracle,
    name: Option<GetterName>,
    hr: bool,
    errs: Seq<Diagnostic>,
    d: VarDecl,
)
    ensures
        gr_var_decl(o, name, hr, errs, d).0 == (hr || (name is Some && sr_var_decl(d))),
    decreases d,
{
    lemma_hr_exprs(o, name, hr, errs, d.inits@);
}

pub proof fn lemma_hr_for_init(
    o: Oracle,
    name: Option<GetterName>,
    hr: bool,
    errs: Seq<Diagnostic>,
    fi: ForInit,
)
    ensures
        gr_for_init(o, name, hr, errs, fi).0 == (hr || (name is Some && sr_for_init(fi))),
    decreases fi,
{
    match fi {
        ForInit::VarInit(d) => {
            lemma_hr_var_decl(o, name, hr, errs, d);
        },
        ForInit::ExprInit(e) => {
            lemma_hr_expr(o, name, hr, errs, *e);
        },
    }
}

pub proof fn lemma_hr_stmt(
    o: Oracle,
    name: Option<GetterName>,
    hr: bool,
    errs: Seq<Diagnostic>,
    s: Stmt,
)
    ensures
        gr_stmt(o, name, hr, errs, s).0 == (hr || (name is Some && sr_stmt(s))),
    decreases s,
{
    match s {
        Stmt::BlockStmt(b) => {
            lemma_hr_block(o, name, hr, errs, b);
        },
        Stmt::ExprStmt { expr, .. } => {
            lemma_hr_expr(o, name, hr, errs, *expr);
        },
        Stmt::If { test, cons, alt, .. } => {
            let r1 = gr_expr(o, name, hr, errs, *test);
            let r2 = gr_stmt(o, name, r1.0, r1.1, *cons);
            lemma_hr_expr(o, name, hr, errs, *test);
            lemma_hr_stmt(o, name, r1.0, r1.1, *cons);
            match alt {
                Some(a) => {
                    lemma_hr_stmt(o, name, r2.0, r2.1, *a);
                },
                None => {},
            }
        },
        Stmt::While { test, body, .. } => {
            let r = gr_expr(o, name, hr, errs, *test);
            lemma_hr_expr(o, name, hr, errs, *test);
            lemma_hr_stmt(o, name, r.0, r.1, *body);
        },
        Stmt::DoWhile { body, test, .. } => {
            let r = gr_expr(o, name, hr, errs, *test);
            lemma_hr_expr(o, name, hr, errs, *test);
            lemma_hr_stmt(o, name, r.0, r.1, *body);
        },
        Stmt::For { init, test, update, body, .. } => {
            let r1 = match init {
                Some(fi) => gr_for_init(o, name, hr, errs, fi),
                None => (hr, errs),
            };
            match init {
                Some(fi) => {
                    lemma_hr_for_init(o, name, hr, errs, fi);
                },
                None => {},
            }
            let r2 = match test {
                Some(t) => gr_expr(o, name, r1.0, r1.1, *t),
                None => r1,
            };
            match test {
                Some(t) => {
                    lemma_hr_expr(o, name, r1.0, r1.1, *t);
                },
                None => {},
            }
            let r3 = match update {
                Some(u) => gr_expr(o, name, r2.0, r2.1, *u),
                None => r2,
            };
            match update {
                Some(u) => {
                    lemma_hr_expr(o, name, r2.0, r2.1, *u);
                },
                None => {},
            }
            lemma_hr_stmt(o, name, r3.0, r3.1, *body);
        },
        Stmt::Switch { disc, cases, .. } => {
            let r = gr_expr(o, name, hr, errs, *disc);
            lemma_hr_expr(o, name, hr, errs, *disc);
            lemma_hr_cases(o, name, r.0, r.1, cases@);
        },
        Stmt::Throw { arg, .. } => {
            lemma_hr_expr(o, name, hr, errs, *arg);
        },
        Stmt::VarStmt(d) => {
            lemma_hr_var_decl(o, name, hr, errs, d);
        },
        Stmt::ClassDecl { class, .. } => {
            lemma_hr_members(o, name, hr, errs, class.members@);
        },
        Stmt::FnDecl { function, .. } => {
            lemma_hr_function(o, name, hr, errs, function);
        },
        Stmt::Try { block, handler, finalizer, .. } => {
            let r1 = gr_block(o, name, hr, errs, block);
            let r2 = gr_opt_block(o, name, r1.0, r1.1, handler);
            lemma_hr_block(o, name, hr, errs, block);
            lemma_hr_opt_block(o, name, r1.0, r1.1, handler);
            lemma_hr_opt_block(o, name, r2.0, r2.1, finalizer);
        },
        _ => {},
    }
}

pub proof fn lemma_hr_stmts(
    o: Oracle,
    name: Option<GetterName>,
    hr: bool,
    errs: Seq<Diagnostic>,
    ss: Seq<Stmt>,
)
    ensures
        gr_stmts(o, name, hr, errs, ss).0 == (hr || (name is Some && sr_stmts(ss))),
    decreases ss,
{
    if ss.len() > 0 {
        let r = gr_stmts(o, name, hr, errs, ss.drop_last());
        lemma_hr_stmts(o, name, hr, errs, ss.drop_last());
        lemma_hr_stmt(o, name, r.0, r.1, ss.last());
    }
}

/// The two message variants of a flagged getter are decided by the body
/// alone: a fresh frame's has-return flag ends up set exactly when the body
/// holds a return the frame sees.
pub proof fn lemma_variant_is_syntactic(
    o: Oracle,
    n: GetterName,
    errs: Seq<Diagnostic>,
    f: Function,
)
    ensures
        gr_function(o, Some(n), false, errs, f).0 == sr_function(f),
{
    lemma_hr_function(o, Some(n), false, errs, f);
}


/// A `get` option entry of a static-property-definition call: the one
/// property shape whose scan can buffer findings.
pub open spec fn is_get_option(p: Prop) -> bool {
    match p {
        Prop::KeyValue { key: PropName::Ident { name, .. }, .. } => name@
            == crate::getter_return::get_name(),
        Prop::Method { key: PropName::Ident { name, .. }, .. } => name@
            == crate::getter_return::get_name(),
        _ => false,
    }
}

pub open spec fn no_get_option(ps: Seq<Prop>) -> bool {
    forall|i: int| 0 <= i < ps.len() ==> !is_get_option(ps[i])
}

/// The call hook's arguments rule the hook out: not three arguments, a
/// third argument that is no plain object, or an option object without a
/// `get` entry.
pub open spec fn quiet_hook(args: Seq<Expr>) -> bool {
    args.len() != 3 || match args[2] {
        Expr::Object { props, .. } => no_get_option(props@),
        _ => true,
    }
}

/// A subtree whose walk buffers nothing under any frame: it holds no bare
/// `return;` the walk can see, no getter-shaped construct, and no `get`
/// option in a three-argument call's option object.
pub open spec fn quiet_expr(e: Expr) -> bool
    decreases e,
{
    match e {
        Expr::Ident { .. } => true,
        Expr::Assign { target, value, .. } => quiet_expr(*target) && quiet_expr(*value),
        Expr::Bin { left, right, .. } => quiet_expr(*left) && quiet_expr(*right),
        Expr::Paren { expr, .. } => quiet_expr(*expr),
        Expr::Ternary { test, cons, alt, .. } => quiet_expr(*test) && quiet_expr(*cons)
            && quiet_expr(*alt),
        Expr::Func { function, .. } => quiet_function(function),
        Expr::Arrow { body, .. } => quiet_arrow_body(body),
        Expr::New { callee, args, .. } => quiet_expr(*callee) && match args {
            Some(v) => quiet_exprs(v@),
            None => true,
        },
        Expr::Call { callee, args, .. } => quiet_callee(callee) && quiet_exprs(args@)
            && quiet_hook(args@),
        Expr::Member { obj, prop, .. } => quiet_callee(obj) && quiet_expr(*prop),
        Expr::Object { props, .. } => quiet_props(props@),
        Expr::ClassExpr { class, .. } => quiet_members(class.members@),
        Expr::Unary { arg, .. } => quiet_expr(*arg),
        Expr::OptChain { expr, .. } => quiet_expr(*expr),
        Expr::Lit { .. } => true,
        Expr::Other { .. } => true,
    }
}

pub open spec fn quiet_exprs(es: Seq<Expr>) -> bool
    decreases es,
{
    if es.len() == 0 {
        true
    } else {
        quiet_exprs(es.drop_last()) && quiet_expr(es.last())
    }
}

pub open spec fn quiet_callee(c: ExprOrSuper) -> bool
    decreases c,
{
    match c {
        ExprOrSuper::ExprCallee(e) => quiet_expr(*e),
        ExprOrSuper::SuperCallee(_) => true,
    }
}

pub open spec fn quiet_function(f: Function) -> bool
    decreases f,
{
    match f.body {
        Some(b) => quiet_block(b),
        None => true,
    }
}

pub open spec fn quiet_block(b: Block) -> bool
    decreases b,
{
    quiet_stmts(b.stmts@)
}

pub open spec fn quiet_opt_block(b: Option<Block>) -> bool
    decreases b,
{
    match b {
        Some(bl) => quiet_block(bl),
        None => true,
    }
}

pub open spec fn quiet_arrow_body(b: ArrowBody) -> bool
    decreases b,
{
    match b {
        ArrowBody::BlockBody(bl) => quiet_block(bl),
        ArrowBody::ExprBody(e) => quiet_expr(*e),
    }
}

pub open spec fn quiet_props(ps: Seq<Prop>) -> bool
    decreases ps,
{
    if ps.len() == 0 {
        true
    } else {
        quiet_props(ps.drop_last()) && quiet_prop(ps.last())
    }
}

pub open spec fn quiet_prop(p: Prop) -> bool
    decreases p,
{
    match p {
        Prop::KeyValue { value, .. } => quiet_expr(*value),
        Prop::Getter { .. } => false,
        Prop::Method { function, .. } => quiet_function(function),
        Prop::Spread { expr, .. } => quiet_expr(*expr),
        Prop::Other { .. } => true,
    }
}

pub open spec fn quiet_members(ms: Seq<ClassMember>) -> bool
    decreases ms,
{
    if ms.len() == 0 {
        true
    } else {
        quiet_members(ms.drop_last()) && quiet_member(ms.last())
    }
}

pub open spec fn quiet_member(m: ClassMember) -> bool
    decreases m,
{
    match m {
        ClassMember::Method { kind, function, .. } => kind != MethodKind::Getter
            && quiet_function(function),
        ClassMember::PrivateMethod { kind, function, .. } => kind != MethodKind::Getter
            && quiet_function(function),
        ClassMember::Other { .. } => true,
    }
}

pub open spec fn quiet_cases(cs: Seq<SwitchCase>) -> bool
    decreases cs,
{
    if cs.len() == 0 {
        true
    } else {
        quiet_cases(cs.drop_last()) && quiet_case(cs.last())
    }
}

pub open spec fn quiet_case(c: SwitchCase) -> bool
    decreases c,
{
    (match c.test {
        Some(t) => quiet_expr(*t),
        None => true,
    }) && quiet_stmts(c.cons@)
}

pub open spec fn quiet_var_decl(d: VarDecl) -> bool
    decreases d,
{
    quiet_exprs(d.inits@)
}

pub open spec fn quiet_for_init(fi: ForInit) -> bool
    decreases fi,
{
    match fi {
        ForInit::VarInit(d) => quiet_var_decl(d),
        ForInit::ExprInit(e) => quiet_expr(*e),
    }
}

pub open spec fn quiet_stmt(s: Stmt) -> bool
    decreases s,
{
    match s {
        Stmt::BlockStmt(b) => quiet_block(b),
        Stmt::ExprStmt { expr, .. } => quiet_expr(*expr),
        Stmt::Return { arg, .. } => arg is Some,
        Stmt::If { test, cons, alt, .. } => quiet_expr(*test) && quiet_stmt(*cons) && match alt {
            Some(a) => quiet_stmt(*a),
            None => true,
        },
        Stmt::While { test, body, .. } => quiet_expr(*test) && quiet_stmt(*body),
        Stmt::DoWhile { body, test, .. } => quiet_expr(*test) && quiet_stmt(*body),
        Stmt::For { init, test, update, body, .. } => (match init {
            Some(fi) => quiet_for_init(fi),
            None => true,
        }) && (match test {
            Some(t) => quiet_expr(*t),
            None => true,
        }) && (match update {
            Some(u) => quiet_expr(*u),
            None => true,
        }) && quiet_stmt(*body),
        Stmt::Switch { disc, cases, .. } => quiet_expr(*disc) && quiet_cases(cases@),
        Stmt::Throw { arg, .. } => quiet_expr(*arg),
        Stmt::Break { .. } => true,
        Stmt::Continue { .. } => true,
        Stmt::VarStmt(d) => quiet_var_decl(d),
        Stmt::ClassDecl { class, .. } => quiet_members(class.members@),
        Stmt::FnDecl { function, .. } => quiet_function(function),
        Stmt::Try { block, handler, finalizer, .. } => quiet_block(block) && quiet_opt_block(
            handler,
        ) && quiet_opt_block(finalizer),
        Stmt::Other { .. } => true,
    }
}

pub open spec fn quiet_stmts(ss: Seq<Stmt>) -> bool
    decreases ss,
{
    if ss.len() == 0 {
        true
    } else {
        quiet_stmts(ss.drop_last()) && quiet_stmt(ss.last())
    }
}

/// The option scan of the call hook buffers nothing when the option object
/// holds no `get` entry.
pub proof fn lemma_def_props_noop(o: Oracle, errs: Seq<Diagnostic>, ps: Seq<Prop>)
    requires
        no_get_option(ps),
    ensures
        crate::getter_return::gr_def_props(o, errs, ps) == errs,
    decreases ps,
{
    if ps.len() > 0 {
        assert(!is_get_option(ps[0]));
        assert(no_get_option(ps.drop_first())) by {
            assert(forall|i: int|
                0 <= i < ps.drop_first().len() ==> !is_get_option(#[trigger] ps.drop_first()[i]));
        }
        lemma_def_props_noop(o, errs, ps.drop_first());
    }
}

/// The call hook buffers nothing when its arguments rule it out.
pub proof fn lemma_hook_noop(
    o: Oracle,
    errs: Seq<Diagnostic>,
    callee: ExprOrSuper,
    args: Seq<Expr>,
)
    requires
        quiet_hook(args),
    ensures
        crate::getter_return::gr_call_hook(o, errs, callee, args) == errs,
{
    if args.len() == 3 {
        match args[2] {
            Expr::Object { props, .. } => {
                lemma_def_props_noop(o, errs, props@);
            },
            _ => {},
        }
    }
}

/// The walk of a quiet subtree buffers nothing, under any frame.
pub proof fn lemma_quiet_expr(
    o: Oracle,
    name: Option<GetterName>,
    hr: bool,
    errs: Seq<Diagnostic>,
    e: Expr,
)
    requires
        quiet_expr(e),
    ensures
        gr_expr(o, name, hr, errs, e).1 == errs,
    decreases e,
{
    match e {
        Expr::Assign { target, value, .. } => {
            let r = gr_expr(o, name, hr, errs, *target);
            lemma_quiet_expr(o, name, hr, errs, *target);
            lemma_quiet_expr(o, name, r.0, r.1, *value);
        },
        Expr::Bin { left, right, .. } => {
            let r = gr_expr(o, name, hr, errs, *left);
            lemma_quiet_expr(o, name, hr, errs, *left);
            lemma_quiet_expr(o, name, r.0, r.1, *right);
        },
        Expr::Paren { expr, .. } => {
            lemma_quiet_expr(o, name, hr, errs, *expr);
        },
        Expr::Ternary { test, cons, alt, .. } => {
            let r1 = gr_expr(o, name, hr, errs, *test);
            let r2 = gr_expr(o, name, r1.0, r1.1, *cons);
            lemma_quiet_expr(o, name, hr, errs, *test);
            lemma_quiet_expr(o, name, r1.0, r1.1, *cons);
            lemma_quiet_expr(o, name, r2.0, r2.1, *alt);
        },
        Expr::Func { function, .. } => {
            lemma_quiet_function(o, name, hr, errs, function);
        },
        Expr::Arrow { body, .. } => {
            lemma_quiet_arrow_body(o, name, hr, errs, body);
        },
        Expr::New { callee, args, .. } => {
            let r = gr_expr(o, name, hr, errs, *callee);
            lemma_quiet_expr(o, name, hr, errs, *callee);
            match args {
                Some(v) => {
                    lemma_quiet_exprs(o, name, r.0, r.1, v@);
                },
                None => {},
            }
        },
        Expr::Call { callee, args, .. } => {
            let r1 = gr_callee(o, name, hr, errs, callee);
            let r2 = gr_exprs(o, name, r1.0, r1.1, args@);
            lemma_quiet_callee(o, name, hr, errs, callee);
            lemma_quiet_exprs(o, name, r1.0, r1.1, args@);
            lemma_hook_noop(o, r2.1, callee, args@);
        },
        Expr::Member { obj, prop, .. } => {
            let r = gr_callee(o, name, hr, errs, obj);
            lemma_quiet_callee(o, name, hr, errs, obj);
            lemma_quiet_expr(o, name, r.0, r.1, *prop);
        },
        Expr::Object { props, .. } => {
            lemma_quiet_props(o, name, hr, errs, props@);
        },
        Expr::ClassExpr { class, .. } => {
            lemma_quiet_members(o, name, hr, errs, class.members@);
        },
        Expr::Unary { arg, .. } => {
            lemma_quiet_expr(o, name, hr, errs, *arg);
        },
        Expr::OptChain { expr, .. } => {
            lemma_quiet_expr(o, name, hr, errs, *expr);
        },
        _ => {},
    }
}

pub proof fn lemma_quiet_exprs(
    o: Oracle,
    name: Option<GetterName>,
    hr: bool,
    errs: Seq<Diagnostic>,
    es: Seq<Expr>,
)
    requires
        quiet_exprs(es),
    ensures
        gr_exprs(o, name, hr, errs, es).1 == errs,
    decreases es,
{
    if es.len() > 0 {
        let r = gr_exprs(o, name, hr, errs, es.drop_last());
        lemma_quiet_exprs(o, name, hr, errs, es.drop_last());
        lemma_quiet_expr(o, name, r.0, r.1, es.last());
    }
}

pub proof fn lemma_quiet_callee(
    o: Oracle,
    name: Option<GetterName>,
    hr: bool,
    errs: Seq<Diagnostic>,
    c: ExprOrSuper,
)
    requires
        quiet_callee(c),
    ensures
        gr_callee(o, name, hr, errs, c).1 == errs,
    decreases c,
{
    match c {
        ExprOrSuper::ExprCallee(e) => {
            lemma_quiet_expr(o, name, hr, errs, *e);
        },
        ExprOrSuper::SuperCallee(_) => {},
    }
}

pub proof fn lemma_quiet_function(
    o: Oracle,
    name: Option<GetterName>,
    hr: bool,
    errs: Seq<Diagnostic>,
    f: Function,
)
    requires
        quiet_function(f),
    ensures
        gr_function(o, name, hr, errs, f).1 == errs,
    decreases f,
{
    match f.body {
        Some(b) => {
            lemma_quiet_block(o, name, hr, errs, b);
        },
        None => {},
    }
}

pub proof fn lemma_quiet_block(
    o: Oracle,
    name: Option<GetterName>,
    hr: bool,
    errs: Seq<Diagnostic>,
    b: Block,
)
    requires
        quiet_block(b),
    ensures
        gr_block(o, name, hr, errs, b).1 == errs,
    decreases b,
{
    lemma_quiet_stmts(o, name, hr, errs, b.stmts@);
}

pub proof fn lemma_quiet_opt_block(
    o: Oracle,
    name: Option<GetterName>,
    hr: bool,
    errs: Seq<Diagnostic>,
    b: Option<Block>,
)
    requires
        quiet_opt_block(b),
    ensures
        gr_opt_block(o, name, hr, errs, b).1 == errs,
    decreases b,
{
    match b {
        Some(bl) => {
            lemma_quiet_block(o, name, hr, errs, bl);
        },
        None => {},
    }
}

pub proof fn lemma_quiet_arrow_body(
    o: Oracle,
    name: Option<GetterName>,
    hr: bool,
    errs: Seq<Diagnostic>,
    b: ArrowBody,
)
    requires
        quiet_arrow_body(b),
    ensures
        gr_arrow_body(o, name, hr, errs, b).1 == errs,
    decreases b,
{
    match b {
        ArrowBody::BlockBody(bl) => {
            lemma_quiet_block(o, name, hr, errs, bl);
        },
        ArrowBody::ExprBody(e) => {
            lemma_quiet_expr(o, name, hr, errs, *e);
        },
    }
}

pub proof fn lemma_quiet_props(
    o: Oracle,
    name: Option<GetterName>,
    hr: bool,
    errs: Seq<Diagnostic>,
    ps: Seq<Prop>,
)
    requires
        quiet_props(ps),
    ensures
        gr_props(o, name, hr, errs, ps).1 == errs,
    decreases ps,
{
    if ps.len() > 0 {
        let r = gr_props(o, name, hr, errs, ps.drop_last());
        lemma_quiet_props(o, name, hr, errs, ps.drop_last());
        lemma_quiet_prop(o, name, r.0, r.1, ps.last());
    }
}

pub proof fn lemma_quiet_prop(
    o: Oracle,
    name: Option<GetterName>,
    hr: bool,
    errs: Seq<Diagnostic>,
    p: Prop,
)
    requires
        quiet_prop(p),
    ensures
        gr_prop(o, name, hr, errs, p).1 == errs,
    decreases p,
{
    match p {
        Prop::KeyValue { value, .. } => {
            lemma_quiet_expr(o, name, hr, errs, *value);
        },
        Prop::Method { function, .. } => {
            lemma_quiet_function(o, name, hr, errs, function);
        },
        Prop::Spread { expr, .. } => {
            lemma_quiet_expr(o, name, hr, errs, *expr);
        },
        _ => {},
    }
}

pub proof fn lemma_quiet_members(
    o: Oracle,
    name: Option<GetterName>,
    hr: bool,
    errs: Seq<Diagnostic>,
    ms: Seq<ClassMember>,
)
    requires
        quiet_members(ms),
    ensures
        gr_members(o, name, hr, errs, ms).1 == errs,
    decreases ms,
{
    if ms.len() > 0 {
        let r = gr_members(o, name, hr, errs, ms.drop_last());
        lemma_quiet_members(o, name, hr, errs, ms.drop_last());
        lemma_quiet_member(o, name, r.0, r.1, ms.last());
    }
}

pub proof fn lemma_quiet_member(
    o: Oracle,
    name: Option<GetterName>,
    hr: bool,
    errs: Seq<Diagnostic>,
    m: ClassMember,
)
    requires
        quiet_member(m),
    ensures
        gr_member(o, name, hr, errs, m).1 == errs,
    decreases m,
{
    match m {
        ClassMember::Method { function, .. } => {
            lemma_quiet_function(o, None, false, errs, function);
        },
        ClassMember::PrivateMethod { function, .. } => {
            lemma_quiet_function(o, None, false, errs, function);
        },
        ClassMember::Other { .. } => {},
    }
}

pub proof fn lemma_quiet_cases(
    o: Oracle,
    name: Option<GetterName>,
    hr: bool,
    errs: Seq<Diagnostic>,
    cs: Seq<SwitchCase>,
)
    requires
        quiet_cases(cs),
    ensures
        gr_cases(o, name, hr, errs, cs).1 == errs,
    decreases cs,
{
    if cs.len() > 0 {
        let r = gr_cases(o, name, hr, errs, cs.drop_last());
        lemma_quiet_cases(o, name, hr, errs, cs.drop_last());
        lemma_quiet_case(o, name, r.0, r.1, cs.last());
    }
}

pub proof fn lemma_quiet_case(
    o: Oracle,
    name: Option<GetterName>,
    hr: bool,
    errs: Seq<Diagnostic>,
    c: SwitchCase,
)
    requires
        quiet_case(c),
    ensures
        gr_case(o, name, hr, errs, c).1 == errs,
    decreases c,
{
    let r = match c.test {
        Some(t) => gr_expr(o, name, hr, errs, *t),
        None => (hr, errs),
    };
    match c.test {
        Some(t) => {
            lemma_quiet_expr(o, name, hr, errs, *t);
        },
        None => {},
    }
    lemma_quiet_stmts(o, name, r.0, r.1, c.cons@);
}

pub proof fn lemma_quiet_var_decl(
    o: Oracle,
    name: Option<GetterName>,
    hr: bool,
    errs: Seq<Diagnostic>,
    d: VarDecl,
)
    requires
        quiet_var_decl(d),
    ensures
        gr_var_decl(o, name, hr, errs, d).1 == errs,
    decreases d,
{
    lemma_quiet_exprs(o, name, hr, errs, d.inits@);
}

pub proof fn lemma_quiet_for_init(
    o: Oracle,
    name: Option<GetterName>,
    hr: bool,
    errs: Seq<Diagnostic>,
    fi: ForInit,
)
    requires
        quiet_for_init(fi),
    ensures
        gr_for_init(o, name, hr, errs, fi).1 == errs,
    decreases fi,
{
    match fi {
        ForInit::VarInit(d) => {
            lemma_quiet_var_decl(o, name, hr, errs, d);
        },
        ForInit::ExprInit(e) => {
            lemma_quiet_expr(o, name, hr, errs, *e);
        },
    }
}

pub proof fn lemma_quiet_stmt(
    o: Oracle,
    name: Option<GetterName>,
    hr: bool,
    errs: Seq<Diagnostic>,
    s: Stmt,
)
    requires
        quiet_stmt(s),
    ensures
        gr_stmt(o, name, hr, errs, s).1 == errs,
    decreases s,
{
    match s {
        Stmt::BlockStmt(b) => {
            lemma_quiet_block(o, name, hr, errs, b);
        },
        Stmt::ExprStmt { expr, .. } => {
            lemma_quiet_expr(o, name, hr, errs, *expr);
        },
        Stmt::If { test, cons, alt, .. } => {
            let r1 = gr_expr(o, name, hr, errs, *test);
            let r2 = gr_stmt(o, name, r1.0, r1.1, *cons);
            lemma_quiet_expr(o, name, hr, errs, *test);
            lemma_quiet_stmt(o, name, r1.0, r1.1, *cons);
            match alt {
                Some(a) => {
                    lemma_quiet_stmt(o, name, r2.0, r2.1, *a);
                },
                None => {},
            }
        },
        Stmt::While { test, body, .. } => {
            let r = gr_expr(o, name, hr, errs, *test);
            lemma_quiet_expr(o, name, hr, errs, *test);
            lemma_quiet_stmt(o, name, r.0, r.1, *body);
        },
        Stmt::DoWhile { body, test, .. } => {
            let r = gr_expr(o, name, hr, errs, *test);
            lemma_quiet_expr(o, name, hr, errs, *test);
            lemma_quiet_stmt(o, name, r.0, r.1, *body);
        },
        Stmt::For { init, test, update, body, .. } => {
            let r1 = match init {
                Some(fi) => gr_for_init(o, name, hr, errs, fi),
                None => (hr, errs),
            };
            match init {
                Some(fi) => {
                    lemma_quiet_for_init(o, name, hr, errs, fi);
                },
                None => {},
            }
            let r2 = match test {
                Some(t) => gr_expr(o, name, r1.0, r1.1, *t),
                None => r1,
            };
            match test {
                Some(t) => {
                    lemma_quiet_expr(o, name, r1.0, r1.1, *t);
                },
                None => {},
            }
            let r3 = match update {
                Some(u) => gr_expr(o, name, r2.0, r2.1, *u),
                None => r2,
            };
            match update {
                Some(u) => {
                    lemma_quiet_expr(o, name, r2.0, r2.1, *u);
                },
                None => {},
            }
            lemma_quiet_stmt(o, name, r3.0, r3.1, *body);
        },
        Stmt::Switch { disc, cases, .. } => {
            let r = gr_expr(o, name, hr, errs, *disc);
            lemma_quiet_expr(o, name, hr, errs, *disc);
            lemma_quiet_cases(o, name, r.0, r.1, cases@);
        },
        Stmt::Throw { arg, .. } => {
            lemma_quiet_expr(o, name, hr, errs, *arg);
        },
        Stmt::VarStmt(d) => {
            lemma_quiet_var_decl(o, name, hr, errs, d);
        },
        Stmt::ClassDecl { class, .. } => {
            lemma_quiet_members(o, name, hr, errs, class.members@);
        },
        Stmt::FnDecl { function, .. } => {
            lemma_quiet_function(o, name, hr, errs, function);
        },
        Stmt::Try { block, handler, finalizer, .. } => {
            let r1 = gr_block(o, name, hr, errs, block);
            let r2 = gr_opt_block(o, name, r1.0, r1.1, handler);
            lemma_quiet_block(o, name, hr, errs, block);
            lemma_quiet_opt_block(o, name, r1.0, r1.1, handler);
            lemma_quiet_opt_block(o, name, r2.0, r2.1, finalizer);
        },
        _ => {},
    }
}

pub proof fn lemma_quiet_stmts(
    o: Oracle,
    name: Option<GetterName>,
    hr: bool,
    errs: Seq<Diagnostic>,
    ss: Seq<Stmt>,
)
    requires
        quiet_stmts(ss),
    ensures
        gr_stmts(o, name, hr, errs, ss).1 == errs,
    decreases ss,
{
    if ss.len() > 0 {
        let r = gr_stmts(o, name, hr, errs, ss.drop_last());
        lemma_quiet_stmts(o, name, hr, errs, ss.drop_last());
        lemma_quiet_stmt(o, name, r.0, r.1, ss.last());
    }
}

/// A class getter with every path ending in a return that carries a value
/// produces no finding at all: when its body is quiet — every return the
/// frame sees carries a value, and no nested getter construct stands in it
/// — and the oracle says control cannot fall off the end of the body, the
/// walk leaves the buffer untouched.
pub proof fn lemma_class_getter_no_finding(
    o: Oracle,
    name0: Option<GetterName>,
    hr0: bool,
    errs: Seq<Diagnostic>,
    span: Span,
    key: PropName,
    f: Function,
    b: Block,
)
    requires
        f.body == Some(b),
        quiet_function(f),
        !spec_continues_at(o, b.span.lo),
    ensures
        gr_member(
            o,
            name0,
            hr0,
            errs,
            ClassMember::Method { span, key, kind: MethodKind::Getter, function: f },
        ) == (hr0, errs),
{
    lemma_quiet_function(o, Some(spec_resolve_name(key)), false, errs, f);
}

/// The static-property-definition counterpart: a quiet getter body the
/// oracle says control cannot fall out of is not reported.
pub proof fn lemma_def_getter_no_finding(
    o: Oracle,
    errs: Seq<Diagnostic>,
    prop_span: Span,
    name: GetterName,
    b: Block,
)
    requires
        quiet_block(b),
        !spec_continues_at(o, b.span.lo),
    ensures
        gr_def_body(o, errs, prop_span, name, b) == errs,
{
    lemma_quiet_stmts(o, Some(name), false, errs, b.stmts@);
}

/// The object-literal getter counterpart: a quiet body the oracle says
/// control cannot fall out of is not reported.
pub proof fn lemma_object_getter_no_finding(
    o: Oracle,
    name0: Option<GetterName>,
    hr0: bool,
    errs: Seq<Diagnostic>,
    span: Span,
    key: PropName,
    b: Block,
)
    requires
        quiet_block(b),
        !spec_continues_at(o, b.span.lo),
    ensures
        gr_prop(o, name0, hr0, errs, Prop::Getter { span, key, body: Some(b) }) == (hr0, errs),
{
    lemma_quiet_opt_block(o, Some(spec_resolve_name(key)), false, errs, Some(b));
}

} // verus!
