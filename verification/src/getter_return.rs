//! getter-return: every getter-like construct must return a value on every
//! path that can exit it normally.
//!
//! Recognized getter shapes: a class getter method, a private class getter
//! method, an object-literal getter property, and the `get` entry of the
//! third argument of a two-name static-property-definition call
//! (`Object.defineProperty(target, key, { get: ... })`). The walk keeps one
//! active getter frame — the key's position and whether a return was seen —
//! saving and restoring it around every nested class method and getter so an
//! inner getter's returns are never credited to an outer one. Whether
//! control can fall off the end of a body is the reachability oracle's
//! outcome, queried at the body's start position. Findings are buffered
//! ordered by position with one entry per position, then reported.

use vstd::prelude::*;
use crate::ast::{
    span_lt, ArrowBody, Block, Class, ClassMember, Expr, ExprOrSuper, ForInit, Function,
    MethodKind, Module, Prop, PropName, Span, Stmt, SwitchCase, VarDecl,
};
use crate::context::{
    same_inputs, spec_continues_at, Context, DiagKind, Diagnostic, GetterName, Oracle,
};
use crate::text::bytes_eq;

verus! {

/// The receiver name of the recognized static-property-definition call:
/// "Object".
pub open spec fn object_name() -> Seq<u8> {
    seq![79u8, 98u8, 106u8, 101u8, 99u8, 116u8]
}

/// The method name of the recognized static-property-definition call:
/// "defineProperty".
pub open spec fn define_property_name() -> Seq<u8> {
    seq![100u8, 101u8, 102u8, 105u8, 110u8, 101u8, 80u8, 114u8, 111u8, 112u8, 101u8, 114u8, 116u8, 121u8]
}

/// The option key that carries the getter in such a call: "get".
pub open spec fn get_name() -> Seq<u8> {
    seq![103u8, 101u8, 116u8]
}

fn object_bytes() -> (r: Vec<u8>)
    ensures
        r@ == object_name(),
{
    let mut v: Vec<u8> = Vec::new();
    v.push(79u8);
    v.push(98u8);
    v.push(106u8);
    v.push(101u8);
    v.push(99u8);
    v.push(116u8);
    proof {
        assert(v@ =~= object_name());
    }
    v
}

fn define_property_bytes() -> (r: Vec<u8>)
    ensures
        r@ == define_property_name(),
{
    let mut v: Vec<u8> = Vec::new();
    v.push(100u8);
    v.push(101u8);
    v.push(102u8);
    v.push(105u8);
    v.push(110u8);
    v.push(101u8);
    v.push(80u8);
    v.push(114u8);
    v.push(111u8);
    v.push(112u8);
    v.push(101u8);
    v.push(114u8);
    v.push(116u8);
    v.push(121u8);
    proof {
        assert(v@ =~= define_property_name());
    }
    v
}

fn get_bytes() -> (r: Vec<u8>)
    ensures
        r@ == get_name(),
{
    let mut v: Vec<u8> = Vec::new();
    v.push(103u8);
    v.push(101u8);
    v.push(116u8);
    proof {
        assert(v@ =~= get_name());
    }
    v
}

/// Resolving a property key to a getter name: an identifier or string key
/// names the getter by its own source position; anything else cannot be
/// statically resolved.
pub open spec fn spec_resolve_name(k: PropName) -> GetterName {
    match k {
        PropName::Ident { span, .. } => GetterName::Key(span),
        PropName::Str { span, .. } => GetterName::Key(span),
        PropName::Computed { .. } => GetterName::Unresolved,
        PropName::Other { .. } => GetterName::Unresolved,
    }
}

/// Buffering one finding ordered by position: entries stay sorted by span,
/// and a second finding at the same span replaces the first, so at most one
/// diagnostic per position survives to the report.
pub open spec fn insert_err(s: Seq<Diagnostic>, d: Diagnostic) -> Seq<Diagnostic>
    decreases s.len(),
{
    if s.len() == 0 {
        seq![d]
    } else if span_lt(d.span, s[0].span) {
        seq![d] + s
    } else if d.span == s[0].span {
        seq![d] + s.drop_first()
    } else {
        seq![s[0]] + insert_err(s.drop_first(), d)
    }
}

/// The end-of-body outcome of one getter: if the frame is active and the
/// oracle says control can still fall off the end of the body, one finding
/// is buffered at the getter's position — "expected to return a value" when
/// no return was seen, "expected to always return a value" when some return
/// was seen but a path still falls through.
pub open spec fn gr_check_getter(
    o: Oracle,
    name: Option<GetterName>,
    hr: bool,
    errs: Seq<Diagnostic>,
    body_span: Span,
    getter_span: Span,
) -> Seq<Diagnostic> {
    match name {
        Some(n) => if spec_continues_at(o, body_span.lo) {
            insert_err(
                errs,
                Diagnostic {
                    span: getter_span,
                    kind: if hr {
                        DiagKind::GetterAlwaysExpected { name: n }
                    } else {
                        DiagKind::GetterExpectedReturn { name: n }
                    },
                },
            )
        } else {
            errs
        },
        None => errs,
    }
}

/// Whether the callee shape rules the call out as a static-property
/// definition: an explicit receiver other than `Object`, or an explicit
/// method name other than `defineProperty`, does; any shape that names
/// neither is allowed through.
pub open spec fn spec_callee_admits(c: ExprOrSuper) -> bool {
    match c {
        ExprOrSuper::ExprCallee(e) => match *e {
            Expr::Member { obj, prop, .. } => (match obj {
                ExprOrSuper::ExprCallee(oe) => match *oe {
                    Expr::Ident { name, .. } => name@ == object_name(),
                    _ => true,
                },
                ExprOrSuper::SuperCallee(_) => true,
            }) && (match *prop {
                Expr::Ident { name, .. } => name@ == define_property_name(),
                _ => true,
            }),
            _ => true,
        },
        ExprOrSuper::SuperCallee(_) => true,
    }
}

/// The walk of one getter body found in a static-property-definition call:
/// a fresh frame, the body's statements, then the end-of-body outcome
/// attached at the property's position.
pub open spec fn gr_def_body(
    o: Oracle,
    errs: Seq<Diagnostic>,
    prop_span: Span,
    name: GetterName,
    b: Block,
) -> Seq<Diagnostic>
    decreases b,
{
    let r = gr_stmts(o, Some(name), false, errs, b.stmts@);
    gr_check_getter(o, Some(name), r.0, r.1, b.span, prop_span)
}

/// The `get` value of a `key: value` option entry: a function expression or
/// an arrow function with a block body is analyzed; anything else — an arrow
/// with an expression body included, since an expression body always
/// evaluates to a value — is not.
pub open spec fn gr_def_kv(
    o: Oracle,
    errs: Seq<Diagnostic>,
    prop_span: Span,
    name: GetterName,
    value: Expr,
) -> Seq<Diagnostic>
    decreases value,
{
    match value {
        Expr::Func { function, .. } => match function.body {
            Some(b) => gr_def_body(o, errs, prop_span, name, b),
            None => errs,
        },
        Expr::Arrow { body: ArrowBody::BlockBody(b), .. } => gr_def_body(
            o,
            errs,
            prop_span,
            name,
            b,
        ),
        _ => errs,
    }
}

/// The scan of the option-object's properties: a `get` entry that is a
/// plain value or a method is analyzed as a getter; an entry under any
/// other identifier key stops the scan; keys that are not identifiers, and
/// other property shapes, are skipped.
pub open spec fn gr_def_props(o: Oracle, errs: Seq<Diagnostic>, ps: Seq<Prop>) -> Seq<Diagnostic>
    decreases ps,
{
    if ps.len() == 0 {
        errs
    } else {
        match ps[0] {
            Prop::KeyValue { span, key, value } => match key {
                PropName::Ident { span: kspan, name } => if name@ == get_name() {
                    gr_def_props(
                        o,
                        gr_def_kv(o, errs, span, GetterName::Key(kspan), *value),
                        ps.drop_first(),
                    )
                } else {
                    errs
                },
                _ => gr_def_props(o, errs, ps.drop_first()),
            },
            Prop::Method { span, key, function } => match key {
                PropName::Ident { span: kspan, name } => if name@ == get_name() {
                    gr_def_props(
                        o,
                        match function.body {
                            Some(b) => gr_def_body(o, errs, span, GetterName::Key(kspan), b),
                            None => errs,
                        },
                        ps.drop_first(),
                    )
                } else {
                    errs
                },
                _ => gr_def_props(o, errs, ps.drop_first()),
            },
            _ => gr_def_props(o, errs, ps.drop_first()),
        }
    }
}

/// The static-property-definition hook on a call: exactly three arguments,
/// a callee shape that does not rule the call out, and a plain object as
/// the third argument; its properties are then scanned for the getter.
pub open spec fn gr_call_hook(
    o: Oracle,
    errs: Seq<Diagnostic>,
    callee: ExprOrSuper,
    args: Seq<Expr>,
) -> Seq<Diagnostic>
    decreases args,
{
    if args.len() == 3 && spec_callee_admits(callee) {
        match args[2] {
            Expr::Object { props, .. } => gr_def_props(o, errs, props@),
            _ => errs,
        }
    } else {
        errs
    }
}

/// The walk of one expression under the frame `name`: the pair is the
/// has-return flag and the buffered findings after the node's subtree.
pub open spec fn gr_expr(
    o: Oracle,
    name: Option<GetterName>,
    hr: bool,
    errs: Seq<Diagnostic>,
    e: Expr,
) -> (bool, Seq<Diagnostic>)
    decreases e,
{
    match e {
        Expr::Ident { .. } => (hr, errs),
        Expr::Assign { target, value, .. } => {
            let r = gr_expr(o, name, hr, errs, *target);
            gr_expr(o, name, r.0, r.1, *value)
        },
        Expr::Bin { left, right, .. } => {
            let r = gr_expr(o, name, hr, errs, *left);
            gr_expr(o, name, r.0, r.1, *right)
        },
        Expr::Paren { expr, .. } => gr_expr(o, name, hr, errs, *expr),
        Expr::Ternary { test, cons, alt, .. } => {
            let r1 = gr_expr(o, name, hr, errs, *test);
            let r2 = gr_expr(o, name, r1.0, r1.1, *cons);
            gr_expr(o, name, r2.0, r2.1, *alt)
        },
        Expr::Func { function, .. } => gr_function(o, name, hr, errs, function),
        Expr::Arrow { body, .. } => gr_arrow_body(o, name, hr, errs, body),
        Expr::New { callee, args, .. } => {
            let r = gr_expr(o, name, hr, errs, *callee);
            match args {
                Some(v) => gr_exprs(o, name, r.0, r.1, v@),
                None => r,
            }
        },
        Expr::Call { callee, args, .. } => {
            let r1 = gr_callee(o, name, hr, errs, callee);
            let r2 = gr_exprs(o, name, r1.0, r1.1, args@);
            (r2.0, gr_call_hook(o, r2.1, callee, args@))
        },
        Expr::Member { obj, prop, .. } => {
            let r = gr_callee(o, name, hr, errs, obj);
            gr_expr(o, name, r.0, r.1, *prop)
        },
        Expr::Object { props, .. } => gr_props(o, name, hr, errs, props@),
        Expr::ClassExpr { class, .. } => gr_members(o, name, hr, errs, class.members@),
        Expr::Unary { arg, .. } => gr_expr(o, name, hr, errs, *arg),
        Expr::OptChain { expr, .. } => gr_expr(o, name, hr, errs, *expr),
        Expr::Lit { .. } => (hr, errs),
        Expr::Other { .. } => (hr, errs),
    }
}

pub open spec fn gr_exprs(
    o: Oracle,
    name: Option<GetterName>,
    hr: bool,
    errs: Seq<Diagnostic>,
    es: Seq<Expr>,
) -> (bool, Seq<Diagnostic>)
    decreases es,
{
    if es.len() == 0 {
        (hr, errs)
    } else {
        let r = gr_exprs(o, name, hr, errs, es.drop_last());
        gr_expr(o, name, r.0, r.1, es.last())
    }
}

pub open spec fn gr_callee(
    o: Oracle,
    name: Option<GetterName>,
    hr: bool,
    errs: Seq<Diagnostic>,
    c: ExprOrSuper,
) -> (bool, Seq<Diagnostic>)
    decreases c,
{
    match c {
        ExprOrSuper::ExprCallee(e) => gr_expr(o, name, hr, errs, *e),
        ExprOrSuper::SuperCallee(_) => (hr, errs),
    }
}

pub open spec fn gr_function(
    o: Oracle,
    name: Option<GetterName>,
    hr: bool,
    errs: Seq<Diagnostic>,
    f: Function,
) -> (bool, Seq<Diagnostic>)
    decreases f,
{
    match f.body {
        Some(b) => gr_block(o, name, hr, errs, b),
        None => (hr, errs),
    }
}

pub open spec fn gr_block(
    o: Oracle,
    name: Option<GetterName>,
    hr: bool,
    errs: Seq<Diagnostic>,
    b: Block,
) -> (bool, Seq<Diagnostic>)
    decreases b,
{
    gr_stmts(o, name, hr, errs, b.stmts@)
}

pub open spec fn gr_opt_block(
    o: Oracle,
    name: Option<GetterName>,
    hr: bool,
    errs: Seq<Diagnostic>,
    b: Option<Block>,
) -> (bool, Seq<Diagnostic>)
    decreases b,
{
    match b {
        Some(bl) => gr_block(o, name, hr, errs, bl),
        None => (hr, errs),
    }
}

pub open spec fn gr_arrow_body(
    o: Oracle,
    name: Option<GetterName>,
    hr: bool,
    errs: Seq<Diagnostic>,
    b: ArrowBody,
) -> (bool, Seq<Diagnostic>)
    decreases b,
{
    match b {
        ArrowBody::BlockBody(bl) => gr_block(o, name, hr, errs, bl),
        ArrowBody::ExprBody(e) => gr_expr(o, name, hr, errs, *e),
    }
}

pub open spec fn gr_props(
    o: Oracle,
    name: Option<GetterName>,
    hr: bool,
    errs: Seq<Diagnostic>,
    ps: Seq<Prop>,
) -> (bool, Seq<Diagnostic>)
    decreases ps,
{
    if ps.len() == 0 {
        (hr, errs)
    } else {
        let r = gr_props(o, name, hr, errs, ps.drop_last());
        gr_prop(o, name, r.0, r.1, ps.last())
    }
}

/// One object-literal property. A getter property runs its own fresh frame
/// — named after its key, with the has-return flag cleared — over its body,
/// takes the end-of-body outcome at the property's position, and restores
/// the enclosing frame exactly. Every other property is walked under the
/// enclosing frame.
pub open spec fn gr_prop(
    o: Oracle,
    name: Option<GetterName>,
    hr: bool,
    errs: Seq<Diagnostic>,
    p: Prop,
) -> (bool, Seq<Diagnostic>)
    decreases p,
{
    match p {
        Prop::KeyValue { value, .. } => gr_expr(o, name, hr, errs, *value),
        Prop::Getter { span, key, body } => {
            let inner = Some(spec_resolve_name(key));
            let r = gr_opt_block(o, inner, false, errs, body);
            let e2 = match body {
                Some(b) => gr_check_getter(o, inner, r.0, r.1, b.span, span),
                None => r.1,
            };
            (hr, e2)
        },
        Prop::Method { function, .. } => gr_function(o, name, hr, errs, function),
        Prop::Spread { expr, .. } => gr_expr(o, name, hr, errs, *expr),
        Prop::Other { .. } => (hr, errs),
    }
}

pub open spec fn gr_members(
    o: Oracle,
    name: Option<GetterName>,
    hr: bool,
    errs: Seq<Diagnostic>,
    ms: Seq<ClassMember>,
) -> (bool, Seq<Diagnostic>)
    decreases ms,
{
    if ms.len() == 0 {
        (hr, errs)
    } else {
        let r = gr_members(o, name, hr, errs, ms.drop_last());
        gr_member(o, name, r.0, r.1, ms.last())
    }
}

/// One class member. Every method runs under a saved frame: a getter method
/// under a fresh frame named after its key, any other method under no frame
/// at all, so its returns are credited to no getter; the enclosing frame is
/// restored exactly afterwards, and a getter method takes the end-of-body
/// outcome at the member's position.
pub open spec fn gr_member(
    o: Oracle,
    name: Option<GetterName>,
    hr: bool,
    errs: Seq<Diagnostic>,
    m: ClassMember,
) -> (bool, Seq<Diagnostic>)
    decreases m,
{
    match m {
        ClassMember::Method { span, key, kind, function } => {
            let inner = if kind == MethodKind::Getter {
                Some(spec_resolve_name(key))
            } else {
                None
            };
            let r = gr_function(o, inner, false, errs, function);
            let e2 = match function.body {
                Some(b) => gr_check_getter(o, inner, r.0, r.1, b.span, span),
                None => r.1,
            };
            (hr, e2)
        },
        ClassMember::PrivateMethod { span, key_span, kind, function } => {
            let inner = if kind == MethodKind::Getter {
                Some(GetterName::Key(key_span))
            } else {
                None
            };
            let r = gr_function(o, inner, false, errs, function);
            let e2 = match function.body {
                Some(b) => gr_check_getter(o, inner, r.0, r.1, b.span, span),
                None => r.1,
            };
            (hr, e2)
        },
        ClassMember::Other { .. } => (hr, errs),
    }
}

pub open spec fn gr_cases(
    o: Oracle,
    name: Option<GetterName>,
    hr: bool,
    errs: Seq<Diagnostic>,
    cs: Seq<SwitchCase>,
) -> (bool, Seq<Diagnostic>)
    decreases cs,
{
    if cs.len() == 0 {
        (hr, errs)
    } else {
        let r = gr_cases(o, name, hr, errs, cs.drop_last());
        gr_case(o, name, r.0, r.1, cs.last())
    }
}

pub open spec fn gr_case(
    o: Oracle,
    name: Option<GetterName>,
    hr: bool,
    errs: Seq<Diagnostic>,
    c: SwitchCase,
) -> (bool, Seq<Diagnostic>)
    decreases c,
{
    let r = match c.test {
        Some(t) => gr_expr(o, name, hr, errs, *t),
        None => (hr, errs),
    };
    gr_stmts(o, name, r.0, r.1, c.cons@)
}

pub open spec fn gr_var_decl(
    o: Oracle,
    name: Option<GetterName>,
    hr: bool,
    errs: Seq<Diagnostic>,
    d: VarDecl,
) -> (bool, Seq<Diagnostic>)
    decreases d,
{
    gr_exprs(o, name, hr, errs, d.inits@)
}

pub open spec fn gr_for_init(
    o: Oracle,
    name: Option<GetterName>,
    hr: bool,
    errs: Seq<Diagnostic>,
    fi: ForInit,
) -> (bool, Seq<Diagnostic>)
    decreases fi,
{
    match fi {
        ForInit::VarInit(d) => gr_var_decl(o, name, hr, errs, d),
        ForInit::ExprInit(e) => gr_expr(o, name, hr, errs, *e),
    }
}

/// The walk of one statement. A return statement under an active frame sets
/// the frame's has-return flag, and a bare `return;` buffers "expected to
/// return a value" at its own position; a return's argument is not walked.
pub open spec fn gr_stmt(
    o: Oracle,
    name: Option<GetterName>,
    hr: bool,
    errs: Seq<Diagnostic>,
    s: Stmt,
) -> (bool, Seq<Diagnostic>)
    decreases s,
{
    match s {
        Stmt::BlockStmt(b) => gr_block(o, name, hr, errs, b),
        Stmt::ExprStmt { expr, .. } => gr_expr(o, name, hr, errs, *expr),
        Stmt::Return { span, arg } => match name {
            Some(n) => (
                true,
                if arg is None {
                    insert_err(
                        errs,
                        Diagnostic { span, kind: DiagKind::GetterExpectedReturn { name: n } },
                    )
                } else {
                    errs
                },
            ),
            None => (hr, errs),
        },
        Stmt::If { test, cons, alt, .. } => {
            let r1 = gr_expr(o, name, hr, errs, *test);
            let r2 = gr_stmt(o, name, r1.0, r1.1, *cons);
            match alt {
                Some(a) => gr_stmt(o, name, r2.0, r2.1, *a),
                None => r2,
            }
        },
        Stmt::While { test, body, .. } => {
            let r = gr_expr(o, name, hr, errs, *test);
            gr_stmt(o, name, r.0, r.1, *body)
        },
        Stmt::DoWhile { body, test, .. } => {
            let r = gr_expr(o, name, hr, errs, *test);
            gr_stmt(o, name, r.0, r.1, *body)
        },
        Stmt::For { init, test, update, body, .. } => {
            let r1 = match init {
                Some(fi) => gr_for_init(o, name, hr, errs, fi),
                None => (hr, errs),
            };
            let r2 = match test {
                Some(t) => gr_expr(o, name, r1.0, r1.1, *t),
                None => r1,
            };
            let r3 = match update {
                Some(u) => gr_expr(o, name, r2.0, r2.1, *u),
                None => r2,
            };
            gr_stmt(o, name, r3.0, r3.1, *body)
        },
        Stmt::Switch { disc, cases, .. } => {
            let r = gr_expr(o, name, hr, errs, *disc);
            gr_cases(o, name, r.0, r.1, cases@)
        },
        Stmt::Throw { arg, .. } => gr_expr(o, name, hr, errs, *arg),
        Stmt::Break { .. } => (hr, errs),
        Stmt::Continue { .. } => (hr, errs),
        Stmt::VarStmt(d) => gr_var_decl(o, name, hr, errs, d),
        Stmt::ClassDecl { class, .. } => gr_members(o, name, hr, errs, class.members@),
        Stmt::FnDecl { function, .. } => gr_function(o, name, hr, errs, function),
        Stmt::Try { block, handler, finalizer, .. } => {
            let r1 = gr_block(o, name, hr, errs, block);
            let r2 = gr_opt_block(o, name, r1.0, r1.1, handler);
            gr_opt_block(o, name, r2.0, r2.1, finalizer)
        },
        Stmt::Other { .. } => (hr, errs),
    }
}

pub open spec fn gr_stmts(
    o: Oracle,
    name: Option<GetterName>,
    hr: bool,
    errs: Seq<Diagnostic>,
    ss: Seq<Stmt>,
) -> (bool, Seq<Diagnostic>)
    decreases ss,
{
    if ss.len() == 0 {
        (hr, errs)
    } else {
        let r = gr_stmts(o, name, hr, errs, ss.drop_last());
        gr_stmt(o, name, r.0, r.1, ss.last())
    }
}

/// Everything this analysis reports for one module, ordered by position,
/// at most one finding per position.
pub open spec fn getter_return_diags(o: Oracle, m: Module) -> Seq<Diagnostic> {
    gr_stmts(o, None, false, Seq::empty(), m.body@).1
}


/// How `insert_err` lands in a buffer: with every entry before `idx`
/// strictly below the new span and the entry at `idx` (if any) not below
/// it, the insertion replaces an equal-span entry at `idx` or splices the
/// new entry in at `idx`.
proof fn lemma_insert_err_at(s: Seq<Diagnostic>, d: Diagnostic, idx: int)
    requires
        0 <= idx <= s.len(),
        forall|k: int| 0 <= k < idx ==> span_lt(s[k].span, d.span),
        idx < s.len() ==> !span_lt(s[idx].span, d.span),
    ensures
        insert_err(s, d) == if idx < s.len() && s[idx].span == d.span {
            s.take(idx) + seq![d] + s.skip(idx + 1)
        } else {
            s.take(idx) + seq![d] + s.skip(idx)
        },
    decreases idx,
{
    if idx == 0 {
        if s.len() == 0 {
            assert(insert_err(s, d) =~= s.take(0) + seq![d] + s.skip(0));
        } else if span_lt(d.span, s[0].span) {
            assert(seq![d] + s =~= s.take(0) + seq![d] + s.skip(0));
        } else if d.span == s[0].span {
            assert(seq![d] + s.drop_first() =~= s.take(0) + seq![d] + s.skip(1));
        } else {
            assert(s[0].span.lo == d.span.lo && s[0].span.hi == d.span.hi);
            assert(false);
        }
    } else {
        lemma_insert_err_at(s.drop_first(), d, idx - 1);
        let t = s.drop_first();
        if idx < s.len() && s[idx].span == d.span {
            assert(t[idx - 1].span == d.span);
            assert(seq![s[0]] + (t.take(idx - 1) + seq![d] + t.skip(idx)) =~= s.take(idx)
                + seq![d] + s.skip(idx + 1));
        } else {
            assert(seq![s[0]] + (t.take(idx - 1) + seq![d] + t.skip(idx - 1)) =~= s.take(idx)
                + seq![d] + s.skip(idx));
        }
    }
}

/// The tree walker of the analysis: the one active getter frame — the
/// name's position and whether a return was seen — and the position-ordered
/// finding buffer.
struct GetterReturnVisitor {
    getter_name: Option<GetterName>,
    has_return: bool,
    errors: Vec<Diagnostic>,
}

impl GetterReturnVisitor {
    fn new() -> (r: GetterReturnVisitor)
        ensures
            r.getter_name is None,
            !r.has_return,
            r.errors@ =~= Seq::<Diagnostic>::empty(),
    {
        GetterReturnVisitor { getter_name: None, has_return: false, errors: Vec::new() }
    }

    /// Buffers one finding, keeping the buffer ordered by position with at
    /// most one entry per position.
    fn buffer_err(&mut self, d: Diagnostic)
        ensures
            final(self).getter_name == old(self).getter_name,
            final(self).has_return == old(self).has_return,
            final(self).errors@ == insert_err(old(self).errors@, d),
    {
        let mut idx: usize = 0;
        while idx < self.errors.len() && self.errors[idx].span.is_before(&d.span)
            invariant
                self == old(self),
                idx <= self.errors@.len(),
                forall|k: int| 0 <= k < idx ==> span_lt(self.errors@[k].span, d.span),
            decreases self.errors@.len() - idx,
    {
            idx = idx + 1;
        }
        proof {
            lemma_insert_err_at(self.errors@, d, idx as int);
        }
        if idx < self.errors.len() && self.errors[idx].span == d.span {
            self.errors.set(idx, d);
            proof {
                assert(self.errors@ =~= old(self).errors@.take(idx as int) + seq![d] + old(
                    self,
                ).errors@.skip(idx as int + 1));
            }
        } else {
            self.errors.insert(idx, d);
            proof {
                assert(self.errors@ =~= old(self).errors@.take(idx as int) + seq![d] + old(
                    self,
                ).errors@.skip(idx as int));
            }
        }
    }

    /// Resolves a property key to a getter name.
    fn resolve_name(&self, k: &PropName) -> (r: GetterName)
        ensures
            r == spec_resolve_name(*k),
    {
        match k {
            PropName::Ident { span, .. } => GetterName::Key(*span),
            PropName::Str { span, .. } => GetterName::Key(*span),
            PropName::Computed { .. } => GetterName::Unresolved,
            PropName::Other { .. } => GetterName::Unresolved,
        }
    }

    /// The end-of-body outcome of one getter, queried from the oracle at
    /// the body's start position.
    fn check_getter(&mut self, o: &Oracle, body_span: Span, getter_span: Span)
        ensures
            final(self).getter_name == old(self).getter_name,
            final(self).has_return == old(self).has_return,
            final(self).errors@ == gr_check_getter(
                *o,
                old(self).getter_name,
                old(self).has_return,
                old(self).errors@,
                body_span,
                getter_span,
            ),
    {
        if let Some(n) = self.getter_name {
            if o.continues_at(body_span.lo) {
                let kind = if self.has_return {
                    DiagKind::GetterAlwaysExpected { name: n }
                } else {
                    DiagKind::GetterExpectedReturn { name: n }
                };
                self.buffer_err(Diagnostic { span: getter_span, kind });
            }
        }
    }

    /// The walk of one getter body found in a static-property-definition
    /// call, under a fresh frame; the enclosing frame is restored exactly.
    fn def_body(&mut self, o: &Oracle, prop_span: Span, name: GetterName, b: &Block)
        ensures
            final(self).getter_name == old(self).getter_name,
            final(self).has_return == old(self).has_return,
            final(self).errors@ == gr_def_body(*o, old(self).errors@, prop_span, name, *b),
        decreases *b,
    {
        let saved_name = self.getter_name;
        let saved_hr = self.has_return;
        self.getter_name = Some(name);
        self.has_return = false;
        self.visit_stmts(o, &b.stmts);
        self.check_getter(o, b.span, prop_span);
        self.getter_name = saved_name;
        self.has_return = saved_hr;
    }

    /// The `get` value of a `key: value` option entry.
    fn def_kv(&mut self, o: &Oracle, prop_span: Span, name: GetterName, value: &Expr)
        ensures
            final(self).getter_name == old(self).getter_name,
            final(self).has_return == old(self).has_return,
            final(self).errors@ == gr_def_kv(*o, old(self).errors@, prop_span, name, *value),
        decreases *value,
    {
        match value {
            Expr::Func { function, .. } => {
                if let Some(b) = &function.body {
                    self.def_body(o, prop_span, name, b);
                }
            },
            Expr::Arrow { body: ArrowBody::BlockBody(b), .. } => {
                self.def_body(o, prop_span, name, b);
            },
            _ => {},
        }
    }

    /// The static-property-definition hook on a call.
    fn call_hook(&mut self, o: &Oracle, callee: &ExprOrSuper, args: &Vec<Expr>)
        ensures
            final(self).getter_name == old(self).getter_name,
            final(self).has_return == old(self).has_return,
            final(self).errors@ == gr_call_hook(*o, old(self).errors@, *callee, args@),
        decreases args@,
    {
        if args.len() != 3 {
            return ;
        }
        if let ExprOrSuper::ExprCallee(ce) = callee {
            if let Expr::Member { obj, prop, .. } = &**ce {
                if let ExprOrSuper::ExprCallee(oe) = obj {
                    if let Expr::Ident { name, .. } = &**oe {
                        if !bytes_eq(name, &object_bytes()) {
                            return ;
                        }
                    }
                }
                if let Expr::Ident { name, .. } = &**prop {
                    if !bytes_eq(name, &define_property_bytes()) {
                        return ;
                    }
                }
            }
        }
        if let Expr::Object { props, .. } = &args[2] {
            let ghost errs0 = self.errors@;
            let ghost full = gr_def_props(*o, errs0, props@);
            proof {
                assert(props@.skip(0) =~= props@);
                assert(decreases_to!(args@ => args@[2 as int]));
                assert(decreases_to!(args@[2 as int] => props@));
            }
            for i in 0..props.len()
                invariant
                    self.getter_name == old(self).getter_name,
                    self.has_return == old(self).has_return,
                    errs0 == old(self).errors@,
                    gr_call_hook(*o, errs0, *callee, args@) == full,
                    full == gr_def_props(*o, self.errors@, props@.skip(i as int)),
                    decreases_to!(args@ => props@),
            {
                proof {
                    assert(props@.skip(i as int).drop_first() =~= props@.skip(i as int + 1));
                    assert(props@.skip(i as int)[0] == props@[i as int]);
                    assert(decreases_to!(props@ => props@[i as int]));
                }
                match &props[i] {
                    Prop::KeyValue { span, key, value } => {
                        if let PropName::Ident { span: kspan, name } = key {
                            if bytes_eq(name, &get_bytes()) {
                                proof {
                                    assert(decreases_to!(props@[i as int] => **value));
                                }
                                self.def_kv(o, *span, GetterName::Key(*kspan), &**value);
                            } else {
                                proof {
                                    assert(gr_def_props(*o, self.errors@, props@.skip(i as int))
                                        == self.errors@);
                                }
                                return ;
                            }
                        }
                    },
                    Prop::Method { span, key, function } => {
                        if let PropName::Ident { span: kspan, name } = key {
                            if bytes_eq(name, &get_bytes()) {
                                if let Some(b) = &function.body {
                                    proof {
                                        assert(decreases_to!(props@[i as int] => *b));
                                    }
                                    self.def_body(o, *span, GetterName::Key(*kspan), b);
                                }
                            } else {
                                proof {
                                    assert(gr_def_props(*o, self.errors@, props@.skip(i as int))
                                        == self.errors@);
                                }
                                return ;
                            }
                        }
                    },
                    _ => {},
                }
            }
            proof {
                assert(props@.skip(props@.len() as int).len() == 0);
            }
        }
    }

    fn visit_expr(&mut self, o: &Oracle, e: &Expr)
        ensures
            final(self).getter_name == old(self).getter_name,
            (final(self).has_return, final(self).errors@) == gr_expr(
                *o,
                old(self).getter_name,
                old(self).has_return,
                old(self).errors@,
                *e,
            ),
        decreases *e,
    {
        match e {
            Expr::Ident { .. } => {},
            Expr::Assign { target, value, .. } => {
                self.visit_expr(o, &**target);
                self.visit_expr(o, &**value);
            },
            Expr::Bin { left, right, .. } => {
                self.visit_expr(o, &**left);
                self.visit_expr(o, &**right);
            },
            Expr::Paren { expr, .. } => {
                self.visit_expr(o, &**expr);
            },
            Expr::Ternary { test, cons, alt, .. } => {
                self.visit_expr(o, &**test);
                self.visit_expr(o, &**cons);
                self.visit_expr(o, &**alt);
            },
            Expr::Func { function, .. } => {
                self.visit_function(o, function);
            },
            Expr::Arrow { body, .. } => {
                self.visit_arrow_body(o, body);
            },
            Expr::New { callee, args, .. } => {
                self.visit_expr(o, &**callee);
                if let Some(v) = args {
                    self.visit_exprs(o, v);
                }
            },
            Expr::Call { callee, args, .. } => {
                self.visit_callee(o, callee);
                self.visit_exprs(o, args);
                self.call_hook(o, callee, args);
            },
            Expr::Member { obj, prop, .. } => {
                self.visit_callee(o, obj);
                self.visit_expr(o, &**prop);
            },
            Expr::Object { props, .. } => {
                self.visit_props(o, props);
            },
            Expr::ClassExpr { class, .. } => {
                self.visit_members(o, &class.members);
            },
            Expr::Unary { arg, .. } => {
                self.visit_expr(o, &**arg);
            },
            Expr::OptChain { expr, .. } => {
                self.visit_expr(o, &**expr);
            },
            Expr::Lit { .. } => {},
            Expr::Other { .. } => {},
        }
    }

    fn visit_exprs(&mut self, o: &Oracle, es: &Vec<Expr>)
        ensures
            final(self).getter_name == old(self).getter_name,
            (final(self).has_return, final(self).errors@) == gr_exprs(
                *o,
                old(self).getter_name,
                old(self).has_return,
                old(self).errors@,
                es@,
            ),
        decreases es@,
    {
        for i in 0..es.len()
            invariant
                self.getter_name == old(self).getter_name,
                (self.has_return, self.errors@) == gr_exprs(
                    *o,
                    old(self).getter_name,
                    old(self).has_return,
                    old(self).errors@,
                    es@.take(i as int),
                ),
        {
            proof {
                assert(es@.take(i as int + 1).drop_last() =~= es@.take(i as int));
            }
            self.visit_expr(o, &es[i]);
        }
        proof {
            assert(es@.take(es@.len() as int) =~= es@);
        }
    }

    fn visit_callee(&mut self, o: &Oracle, c: &ExprOrSuper)
        ensures
            final(self).getter_name == old(self).getter_name,
            (final(self).has_return, final(self).errors@) == gr_callee(
                *o,
                old(self).getter_name,
                old(self).has_return,
                old(self).errors@,
                *c,
            ),
        decreases *c,
    {
        match c {
            ExprOrSuper::ExprCallee(e) => {
                self.visit_expr(o, &**e);
            },
            ExprOrSuper::SuperCallee(_) => {},
        }
    }

    fn visit_function(&mut self, o: &Oracle, f: &Function)
        ensures
            final(self).getter_name == old(self).getter_name,
            (final(self).has_return, final(self).errors@) == gr_function(
                *o,
                old(self).getter_name,
                old(self).has_return,
                old(self).errors@,
                *f,
            ),
        decreases *f,
    {
        if let Some(b) = &f.body {
            self.visit_block(o, b);
        }
    }

    fn visit_block(&mut self, o: &Oracle, b: &Block)
        ensures
            final(self).getter_name == old(self).getter_name,
            (final(self).has_return, final(self).errors@) == gr_block(
                *o,
                old(self).getter_name,
                old(self).has_return,
                old(self).errors@,
                *b,
            ),
        decreases *b,
    {
        self.visit_stmts(o, &b.stmts);
    }

    fn visit_opt_block(&mut self, o: &Oracle, b: &Option<Block>)
        ensures
            final(self).getter_name == old(self).getter_name,
            (final(self).has_return, final(self).errors@) == gr_opt_block(
                *o,
                old(self).getter_name,
                old(self).has_return,
                old(self).errors@,
                *b,
            ),
        decreases *b,
    {
        if let Some(bl) = b {
            self.visit_block(o, bl);
        }
    }

    fn visit_arrow_body(&mut self, o: &Oracle, b: &ArrowBody)
        ensures
            final(self).getter_name == old(self).getter_name,
            (final(self).has_return, final(self).errors@) == gr_arrow_body(
                *o,
                old(self).getter_name,
                old(self).has_return,
                old(self).errors@,
                *b,
            ),
        decreases *b,
    {
        match b {
            ArrowBody::BlockBody(bl) => {
                self.visit_block(o, bl);
            },
            ArrowBody::ExprBody(e) => {
                self.visit_expr(o, &**e);
            },
        }
    }

    fn visit_props(&mut self, o: &Oracle, ps: &Vec<Prop>)
        ensures
            final(self).getter_name == old(self).getter_name,
            (final(self).has_return, final(self).errors@) == gr_props(
                *o,
                old(self).getter_name,
                old(self).has_return,
                old(self).errors@,
                ps@,
            ),
        decreases ps@,
    {
        for i in 0..ps.len()
            invariant
                self.getter_name == old(self).getter_name,
                (self.has_return, self.errors@) == gr_props(
                    *o,
                    old(self).getter_name,
                    old(self).has_return,
                    old(self).errors@,
                    ps@.take(i as int),
                ),
        {
            proof {
                assert(ps@.take(i as int + 1).drop_last() =~= ps@.take(i as int));
            }
            self.visit_prop(o, &ps[i]);
        }
        proof {
            assert(ps@.take(ps@.len() as int) =~= ps@);
        }
    }

    fn visit_prop(&mut self, o: &Oracle, p: &Prop)
        ensures
            final(self).getter_name == old(self).getter_name,
            (final(self).has_return, final(self).errors@) == gr_prop(
                *o,
                old(self).getter_name,
                old(self).has_return,
                old(self).errors@,
                *p,
            ),
        decreases *p,
    {
        match p {
            Prop::KeyValue { value, .. } => {
                self.visit_expr(o, &**value);
            },
            Prop::Getter { span, key, body } => {
                let saved_name = self.getter_name;
                let saved_hr = self.has_return;
                let inner = self.resolve_name(key);
                self.getter_name = Some(inner);
                self.has_return = false;
                self.visit_opt_block(o, body);
                if let Some(b) = body {
                    self.check_getter(o, b.span, *span);
                }
                self.getter_name = saved_name;
                self.has_return = saved_hr;
            },
            Prop::Method { function, .. } => {
                self.visit_function(o, function);
            },
            Prop::Spread { expr, .. } => {
                self.visit_expr(o, &**expr);
            },
            Prop::Other { .. } => {},
        }
    }

    fn visit_members(&mut self, o: &Oracle, ms: &Vec<ClassMember>)
        ensures
            final(self).getter_name == old(self).getter_name,
            (final(self).has_return, final(self).errors@) == gr_members(
                *o,
                old(self).getter_name,
                old(self).has_return,
                old(self).errors@,
                ms@,
            ),
        decreases ms@,
    {
        for i in 0..ms.len()
            invariant
                self.getter_name == old(self).getter_name,
                (self.has_return, self.errors@) == gr_members(
                    *o,
                    old(self).getter_name,
                    old(self).has_return,
                    old(self).errors@,
                    ms@.take(i as int),
                ),
        {
            proof {
                assert(ms@.take(i as int + 1).drop_last() =~= ms@.take(i as int));
            }
            self.visit_member(o, &ms[i]);
        }
        proof {
            assert(ms@.take(ms@.len() as int) =~= ms@);
        }
    }

    fn visit_member(&mut self, o: &Oracle, m: &ClassMember)
        ensures
            final(self).getter_name == old(self).getter_name,
            (final(self).has_return, final(self).errors@) == gr_member(
                *o,
                old(self).getter_name,
                old(self).has_return,
                old(self).errors@,
                *m,
            ),
        decreases *m,
    {
        match m {
            ClassMember::Method { span, key, kind, function } => {
                let saved_name = self.getter_name;
                let saved_hr = self.has_return;
                let inner = if *kind == MethodKind::Getter {
                    Some(self.resolve_name(key))
                } else {
                    None
                };
                self.getter_name = inner;
                self.has_return = false;
                self.visit_function(o, function);
                if let Some(b) = &function.body {
                    self.check_getter(o, b.span, *span);
                }
                self.getter_name = saved_name;
                self.has_return = saved_hr;
            },
            ClassMember::PrivateMethod { span, key_span, kind, function } => {
                let saved_name = self.getter_name;
                let saved_hr = self.has_return;
                let inner = if *kind == MethodKind::Getter {
                    Some(GetterName::Key(*key_span))
                } else {
                    None
                };
                self.getter_name = inner;
                self.has_return = false;
                self.visit_function(o, function);
                if let Some(b) = &function.body {
                    self.check_getter(o, b.span, *span);
                }
                self.getter_name = saved_name;
                self.has_return = saved_hr;
            },
            ClassMember::Other { .. } => {},
        }
    }

    fn visit_case(&mut self, o: &Oracle, c: &SwitchCase)
        ensures
            final(self).getter_name == old(self).getter_name,
            (final(self).has_return, final(self).errors@) == gr_case(
                *o,
                old(self).getter_name,
                old(self).has_return,
                old(self).errors@,
                *c,
            ),
        decreases *c,
    {
        if let Some(t) = &c.test {
            self.visit_expr(o, &**t);
        }
        self.visit_stmts(o, &c.cons);
    }

    fn visit_cases(&mut self, o: &Oracle, cs: &Vec<SwitchCase>)
        ensures
            final(self).getter_name == old(self).getter_name,
            (final(self).has_return, final(self).errors@) == gr_cases(
                *o,
                old(self).getter_name,
                old(self).has_return,
                old(self).errors@,
                cs@,
            ),
        decreases cs@,
    {
        for i in 0..cs.len()
            invariant
                self.getter_name == old(self).getter_name,
                (self.has_return, self.errors@) == gr_cases(
                    *o,
                    old(self).getter_name,
                    old(self).has_return,
                    old(self).errors@,
                    cs@.take(i as int),
                ),
        {
            proof {
                assert(cs@.take(i as int + 1).drop_last() =~= cs@.take(i as int));
            }
            self.visit_case(o, &cs[i]);
        }
        proof {
            assert(cs@.take(cs@.len() as int) =~= cs@);
        }
    }

    fn visit_var_decl(&mut self, o: &Oracle, d: &VarDecl)
        ensures
            final(self).getter_name == old(self).getter_name,
            (final(self).has_return, final(self).errors@) == gr_var_decl(
                *o,
                old(self).getter_name,
                old(self).has_return,
                old(self).errors@,
                *d,
            ),
        decreases *d,
    {
        self.visit_exprs(o, &d.inits);
    }

    fn visit_for_init(&mut self, o: &Oracle, fi: &ForInit)
        ensures
            final(self).getter_name == old(self).getter_name,
            (final(self).has_return, final(self).errors@) == gr_for_init(
                *o,
                old(self).getter_name,
                old(self).has_return,
                old(self).errors@,
                *fi,
            ),
        decreases *fi,
    {
        match fi {
            ForInit::VarInit(d) => {
                self.visit_var_decl(o, d);
            },
            ForInit::ExprInit(e) => {
                self.visit_expr(o, &**e);
            },
        }
    }

    fn visit_stmt(&mut self, o: &Oracle, s: &Stmt)
        ensures
            final(self).getter_name == old(self).getter_name,
            (final(self).has_return, final(self).errors@) == gr_stmt(
                *o,
                old(self).getter_name,
                old(self).has_return,
                old(self).errors@,
                *s,
            ),
        decreases *s,
    {
        match s {
            Stmt::BlockStmt(b) => {
                self.visit_block(o, b);
            },
            Stmt::ExprStmt { expr, .. } => {
                self.visit_expr(o, &**expr);
            },
            Stmt::Return { span, arg } => {
                if let Some(n) = self.getter_name {
                    self.has_return = true;
                    if arg.is_none() {
                        self.buffer_err(
                            Diagnostic {
                                span: *span,
                                kind: DiagKind::GetterExpectedReturn { name: n },
                            },
                        );
                    }
                }
            },
            Stmt::If { test, cons, alt, .. } => {
                self.visit_expr(o, &**test);
                self.visit_stmt(o, &**cons);
                if let Some(a) = alt {
                    self.visit_stmt(o, &**a);
                }
            },
            Stmt::While { test, body, .. } => {
                self.visit_expr(o, &**test);
                self.visit_stmt(o, &**body);
            },
            Stmt::DoWhile { body, test, .. } => {
                self.visit_expr(o, &**test);
                self.visit_stmt(o, &**body);
            },
            Stmt::For { init, test, update, body, .. } => {
                if let Some(fi) = init {
                    self.visit_for_init(o, fi);
                }
                if let Some(t) = test {
                    self.visit_expr(o, &**t);
                }
                if let Some(u) = update {
                    self.visit_expr(o, &**u);
                }
                self.visit_stmt(o, &**body);
            },
            Stmt::Switch { disc, cases, .. } => {
                self.visit_expr(o, &**disc);
                self.visit_cases(o, cases);
            },
            Stmt::Throw { arg, .. } => {
                self.visit_expr(o, &**arg);
            },
            Stmt::Break { .. } => {},
            Stmt::Continue { .. } => {},
            Stmt::VarStmt(d) => {
                self.visit_var_decl(o, d);
            },
            Stmt::ClassDecl { class, .. } => {
                self.visit_members(o, &class.members);
            },
            Stmt::FnDecl { function, .. } => {
                self.visit_function(o, function);
            },
            Stmt::Try { block, handler, finalizer, .. } => {
                self.visit_block(o, block);
                self.visit_opt_block(o, handler);
                self.visit_opt_block(o, finalizer);
            },
            Stmt::Other { .. } => {},
        }
    }

    fn visit_stmts(&mut self, o: &Oracle, ss: &Vec<Stmt>)
        ensures
            final(self).getter_name == old(self).getter_name,
            (final(self).has_return, final(self).errors@) == gr_stmts(
                *o,
                old(self).getter_name,
                old(self).has_return,
                old(self).errors@,
                ss@,
            ),
        decreases ss@,
    {
        for i in 0..ss.len()
            invariant
                self.getter_name == old(self).getter_name,
                (self.has_return, self.errors@) == gr_stmts(
                    *o,
                    old(self).getter_name,
                    old(self).has_return,
                    old(self).errors@,
                    ss@.take(i as int),
                ),
        {
            proof {
                assert(ss@.take(i as int + 1).drop_last() =~= ss@.take(i as int));
            }
            self.visit_stmt(o, &ss[i]);
        }
        proof {
            assert(ss@.take(ss@.len() as int) =~= ss@);
        }
    }

    /// Empties the buffer into the sink, in its order: ascending by
    /// position, one finding per position.
    fn report(&self, ctx: &mut Context)
        ensures
            same_inputs(*old(ctx), *final(ctx)),
            final(ctx).diagnostics@ == old(ctx).diagnostics@ + self.errors@,
    {
        let ghost d0 = ctx.diagnostics@;
        for i in 0..self.errors.len()
            invariant
                same_inputs(*old(ctx), *ctx),
                d0 == old(ctx).diagnostics@,
                ctx.diagnostics@ == d0 + self.errors@.take(i as int),
        {
            ctx.add_diagnostic(self.errors[i].span, self.errors[i].kind);
            proof {
                assert(self.errors@.take(i as int + 1) =~= self.errors@.take(i as int)
                    + seq![self.errors@[i as int]]);
            }
        }
        proof {
            assert(self.errors@.take(self.errors@.len() as int) =~= self.errors@);
        }
    }
}

/// The getter-return rule.
pub struct GetterReturn;

impl GetterReturn {
    pub fn new() -> (r: GetterReturn) {
        GetterReturn
    }

    /// The rule's stable identifier.
    pub fn code(&self) -> (r: String)
        ensures
            r@ == "getter-return"@,
    {
        "getter-return".to_owned()
    }

    /// The rule's classification tags.
    pub fn tags(&self) -> (r: Vec<String>)
        ensures
            r@.len() == 1,
            r@[0]@ == "recommended"@,
    {
        let mut v: Vec<String> = Vec::new();
        v.push("recommended".to_owned());
        v
    }

    /// Walks one module and reports every getter that can exit normally
    /// without producing a value, ordered by position with at most one
    /// finding per position. The tree and the context's lookups are
    /// read-only; only the sink grows.
    pub fn lint_module(&self, ctx: &mut Context, module: &Module)
        ensures
            same_inputs(*old(ctx), *final(ctx)),
            final(ctx).diagnostics@ == old(ctx).diagnostics@ + getter_return_diags(
                old(ctx).oracle,
                *module,
            ),
    {
        let mut visitor = GetterReturnVisitor::new();
        visitor.visit_stmts(&ctx.oracle, &module.body);
        visitor.report(ctx);
    }

    /// The rule's documentation, with worked examples.
    pub fn docs(&self) -> (r: String) {
        "Requires all property getter functions to return a value

Getter functions return the value of a property. If the function returns no
value then this contract is broken.

### Valid:
```typescript
let foo = {
  get bar() {
    return true;
  }
};

class Person {
  get name() {
    return \"alice\";
  }
}
```

### Invalid:
```typescript
let foo = {
  get bar() {}
};

class Person {
  get name() {}
}
```".to_owned()
    }
}

} // verus!
