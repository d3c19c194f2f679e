//! The shared analysis context: the reachability oracle and the comment
//! lookups supplied by the host, and the diagnostic sink the rules report
//! into.

use vstd::prelude::*;
use crate::ast::Span;

verus! {

/// One comment, with its position and raw text bytes.
#[derive(Clone, PartialEq, Eq, Debug)]
pub struct Comment {
    pub span: Span,
    pub text: Vec<u8>,
}

/// What the host's control-flow analysis knows about one source position.
#[derive(Clone, Copy, PartialEq, Eq, Structural, Debug)]
pub struct ReachFacts {
    /// Control can still fall through to the point after this position.
    pub continues_execution: bool,
    /// The statement at this position unconditionally stops execution of its
    /// block (a return, throw, break or continue on every path).
    pub stops_execution: bool,
}

/// One oracle record: the facts the host precomputed for a position.
#[derive(Clone, Copy, PartialEq, Eq, Structural, Debug)]
pub struct OracleEntry {
    pub pos: u32,
    pub facts: ReachFacts,
}

/// The precomputed, read-only reachability oracle. A position with no record
/// means "no information": both queries then answer `false`, so a miss never
/// produces a diagnostic and never aborts an analysis.
#[derive(Clone, PartialEq, Eq, Debug)]
pub struct Oracle {
    pub entries: Vec<OracleEntry>,
}

/// The first record for `pos`, if any.
pub open spec fn spec_oracle_find(entries: Seq<OracleEntry>, pos: u32) -> Option<ReachFacts>
    decreases entries.len(),
{
    if entries.len() == 0 {
        None
    } else if entries[0].pos == pos {
        Some(entries[0].facts)
    } else {
        spec_oracle_find(entries.drop_first(), pos)
    }
}

/// Whether the oracle says control can still fall through past `pos`; a miss
/// counts as "no".
pub open spec fn spec_continues_at(o: Oracle, pos: u32) -> bool {
    match spec_oracle_find(o.entries@, pos) {
        Some(f) => f.continues_execution,
        None => false,
    }
}

/// Whether the oracle says the statement at `pos` unconditionally stops
/// execution; a miss counts as "no".
pub open spec fn spec_stops_at(o: Oracle, pos: u32) -> bool {
    match spec_oracle_find(o.entries@, pos) {
        Some(f) => f.stops_execution,
        None => false,
    }
}

impl Oracle {
    /// An oracle with no records: every query answers "no information".
    pub fn new() -> (r: Oracle)
        ensures
            r.entries@ =~= Seq::<OracleEntry>::empty(),
    {
        Oracle { entries: Vec::new() }
    }

    /// Records `facts` for `pos`. Host-side setup; the first record for a
    /// position wins on lookup.
    pub fn record(&mut self, pos: u32, continues_execution: bool, stops_execution: bool)
        ensures
            final(self).entries@ == old(self).entries@.push(
                OracleEntry { pos, facts: ReachFacts { continues_execution, stops_execution } },
            ),
    {
        self.entries.push(OracleEntry {
            pos,
            facts: ReachFacts { continues_execution, stops_execution },
        });
    }

    fn find(&self, pos: u32) -> (r: Option<ReachFacts>)
        ensures
            r == spec_oracle_find(self.entries@, pos),
    {
        proof {
            assert(self.entries@.skip(0) =~= self.entries@);
        }
        for i in 0..self.entries.len()
            invariant
                forall|j: int| 0 <= j < i ==> self.entries@[j].pos != pos,
                spec_oracle_find(self.entries@, pos) == spec_oracle_find(
                    self.entries@.skip(i as int),
                    pos,
                ),
        {
            proof {
                assert(self.entries@.skip(i as int).drop_first() =~= self.entries@.skip(
                    i as int + 1,
                ));
            }
            if self.entries[i].pos == pos {
                return Some(self.entries[i].facts);
            }
        }
        proof {
            assert(self.entries@.skip(self.entries@.len() as int).len() == 0);
        }
        None
    }

    /// Answers "control can still fall through past `pos`".
    pub fn continues_at(&self, pos: u32) -> (r: bool)
        ensures
            r == spec_continues_at(*self, pos),
    {
        match self.find(pos) {
            Some(f) => f.continues_execution,
            None => false,
        }
    }

    /// Answers "the statement at `pos` unconditionally stops execution".
    pub fn stops_at(&self, pos: u32) -> (r: bool)
        ensures
            r == spec_stops_at(*self, pos),
    {
        match self.find(pos) {
            Some(f) => f.stops_execution,
            None => false,
        }
    }
}

/// One record of a comment lookup: the comments attached at a position.
#[derive(Clone, PartialEq, Eq, Debug)]
pub struct CommentsAt {
    pub pos: u32,
    pub comments: Vec<Comment>,
}

/// A position-keyed comment lookup (leading or trailing). A position with no
/// record has no comments.
#[derive(Clone, PartialEq, Eq, Debug)]
pub struct CommentMap {
    pub entries: Vec<CommentsAt>,
}

/// The comments the map attaches at `pos`: the first record wins, and a miss
/// is an empty sequence.
pub open spec fn spec_comments_at(entries: Seq<CommentsAt>, pos: u32) -> Seq<Comment>
    decreases entries.len(),
{
    if entries.len() == 0 {
        Seq::empty()
    } else if entries[0].pos == pos {
        entries[0].comments@
    } else {
        spec_comments_at(entries.drop_first(), pos)
    }
}

impl CommentMap {
    /// A lookup with no records.
    pub fn new() -> (r: CommentMap)
        ensures
            r.entries@ =~= Seq::<CommentsAt>::empty(),
    {
        CommentMap { entries: Vec::new() }
    }

    /// Attaches `comments` at `pos`. Host-side setup; the first record for a
    /// position wins on lookup.
    pub fn attach(&mut self, pos: u32, comments: Vec<Comment>)
        ensures
            final(self).entries@ == old(self).entries@.push(CommentsAt { pos, comments }),
    {
        self.entries.push(CommentsAt { pos, comments });
    }

    /// The comments attached at `pos`, or `None` when the position has no
    /// record.
    pub fn comments_at(&self, pos: u32) -> (r: Option<&Vec<Comment>>)
        ensures
            match r {
                Some(v) => v@ == spec_comments_at(self.entries@, pos) && spec_comments_at(
                    self.entries@,
                    pos,
                ) == v@,
                None => spec_comments_at(self.entries@, pos) =~= Seq::<Comment>::empty(),
            },
    {
        proof {
            assert(self.entries@.skip(0) =~= self.entries@);
        }
        for i in 0..self.entries.len()
            invariant
                forall|j: int| 0 <= j < i ==> self.entries@[j].pos != pos,
                spec_comments_at(self.entries@, pos) == spec_comments_at(
                    self.entries@.skip(i as int),
                    pos,
                ),
        {
            proof {
                assert(self.entries@.skip(i as int).drop_first() =~= self.entries@.skip(
                    i as int + 1,
                ));
            }
            if self.entries[i].pos == pos {
                return Some(&self.entries[i].comments);
            }
        }
        proof {
            assert(self.entries@.skip(self.entries@.len() as int).len() == 0);
        }
        None
    }
}

/// Where a getter's name can be read from: the source span of its key, from
/// which the host renders the name text, or `Unresolved` where the key
/// cannot be statically resolved (a computed key, say), which the host
/// renders as a placeholder label.
#[derive(Clone, Copy, PartialEq, Eq, Structural, Debug)]
pub enum GetterName {
    Key(Span),
    Unresolved,
}

/// What a diagnostic reports. The rule code and message text follow from the
/// variant; the host renders them.
#[derive(Clone, Copy, PartialEq, Eq, Structural, Debug)]
pub enum DiagKind {
    /// getter-return: a getter (or a bare `return;` in one) yields no value.
    GetterExpectedReturn { name: GetterName },
    /// getter-return: a getter returns somewhere but some path falls through.
    GetterAlwaysExpected { name: GetterName },
    /// no-cond-assign: an assignment stands as a condition.
    CondAssign,
    /// no-fallthrough: a switch case falls through without a marker comment.
    Fallthrough,
    /// no-async-promise-executor: a promise executor is an async function.
    AsyncPromiseExecutor,
}

/// One finding: where, and what.
#[derive(Clone, Copy, PartialEq, Eq, Structural, Debug)]
pub struct Diagnostic {
    pub span: Span,
    pub kind: DiagKind,
}

/// The shared analysis context: the two read-only lookups and the ordered
/// diagnostic sink. One context serves one module analysis.
pub struct Context {
    pub oracle: Oracle,
    pub leading: CommentMap,
    pub trailing: CommentMap,
    pub diagnostics: Vec<Diagnostic>,
}

/// The post-state of a context mutation keeps the read-only inputs of the
/// pre-state: the oracle and the two comment lookups are untouched.
pub open spec fn same_inputs(before: Context, after: Context) -> bool {
    &&& after.oracle == before.oracle
    &&& after.leading == before.leading
    &&& after.trailing == before.trailing
}

impl Context {
    /// A fresh context over the host's lookups, with an empty sink.
    pub fn new(oracle: Oracle, leading: CommentMap, trailing: CommentMap) -> (r: Context)
        ensures
            r.oracle == oracle,
            r.leading == leading,
            r.trailing == trailing,
            r.diagnostics@ =~= Seq::<Diagnostic>::empty(),
    {
        Context { oracle, leading, trailing, diagnostics: Vec::new() }
    }

    /// Appends one finding to the sink; the lookups are untouched.
    pub fn add_diagnostic(&mut self, span: Span, kind: DiagKind)
        ensures
            final(self).diagnostics@ == old(self).diagnostics@.push(Diagnostic { span, kind }),
            final(self).diagnostics@ == old(self).diagnostics@ + seq![
                Diagnostic { span, kind },
            ],
            final(self).oracle == old(self).oracle,
            final(self).leading == old(self).leading,
            final(self).trailing == old(self).trailing,
    {
        self.diagnostics.push(Diagnostic { span, kind });
        proof {
            assert(old(self).diagnostics@.push(Diagnostic { span, kind }) =~= old(
                self,
            ).diagnostics@ + seq![Diagnostic { span, kind }]);
        }
    }
}

} // verus!
