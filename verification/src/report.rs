//! The verbosity reporter: a reporting policy (level and failures-only
//! flag) and an accumulating list of typed report lines. The policy only
//! shapes the text that is kept; it never influences a verdict.

use vstd::prelude::*;

verus! {

/// What a report line announces.
#[derive(Clone, Copy, PartialEq, Eq, Structural, Debug)]
pub enum LineKind {
    /// A heading or progress note.
    Info,
    /// A passing check.
    Pass,
    /// A failing check.
    Fail,
    /// The final verdict.
    Summary,
}

pub struct ReportLine {
    pub kind: LineKind,
    pub text: String,
}

/// The reporting policy taken from the command line: a verbosity level from
/// silent to per-variable detail, and the failures-only modifier.
#[derive(Clone, Copy, PartialEq, Eq, Structural, Debug)]
pub struct CmdLineArgs {
    pub verbosity: i8,
    pub failures_only: bool,
}

/// The accumulated report.
pub struct Report {
    pub policy: CmdLineArgs,
    pub lines: Vec<ReportLine>,
}

pub open spec fn line_is(l: ReportLine, k: LineKind, t: Seq<char>) -> bool {
    l.kind == k && l.text@ == t
}

/// The new report keeps the old lines and policy and appends one line.
pub open spec fn appended_one(old: Report, new: Report, k: LineKind, t: Seq<char>) -> bool {
    &&& new.policy == old.policy
    &&& new.lines@.len() == old.lines@.len() + 1
    &&& new.lines@.take(old.lines@.len() as int) =~= old.lines@
    &&& line_is(new.lines@.last(), k, t)
}

/// The report is untouched.
pub open spec fn unchanged_rep(old: Report, new: Report) -> bool {
    new.policy == old.policy && new.lines@ =~= old.lines@
}

/// The new report keeps the old lines and policy and appends two lines.
pub open spec fn appended_two(
    old: Report,
    new: Report,
    k1: LineKind,
    t1: Seq<char>,
    k2: LineKind,
    t2: Seq<char>,
) -> bool {
    &&& new.policy == old.policy
    &&& new.lines@.len() == old.lines@.len() + 2
    &&& new.lines@.take(old.lines@.len() as int) =~= old.lines@
    &&& line_is(new.lines@[new.lines@.len() - 2], k1, t1)
    &&& line_is(new.lines@.last(), k2, t2)
}

/// The new report keeps the old lines and policy, possibly adding more.
pub open spec fn extends(old: Report, new: Report) -> bool {
    &&& new.policy == old.policy
    &&& new.lines@.len() >= old.lines@.len()
    &&& new.lines@.take(old.lines@.len() as int) =~= old.lines@
}

impl Report {
    /// In failures-only mode no pass line is ever kept.
    pub open spec fn wf(&self) -> bool {
        self.policy.failures_only ==> forall|i: int|
            0 <= i < self.lines@.len() ==> (#[trigger] self.lines@[i].kind) != LineKind::Pass
    }

    pub fn new(policy: CmdLineArgs) -> (r: Report)
        ensures
            r.wf(),
            r.policy == policy,
            r.lines@.len() == 0,
    {
        Report { policy, lines: Vec::new() }
    }

    /// Keeps a heading line when `gate` holds.
    pub fn info(&mut self, gate: bool, text: String)
        ensures
            final(self).wf() == old(self).wf(),
            if gate {
                appended_one(*old(self), *final(self), LineKind::Info, text@)
            } else {
                unchanged_rep(*old(self), *final(self))
            },
    {
        if gate {
            let ghost oldlines = self.lines@;
            self.lines.push(ReportLine { kind: LineKind::Info, text });
            proof {
                assert(self.lines@.take(oldlines.len() as int) =~= oldlines);
            }
        }
    }

    /// Keeps a pass line when `gate` holds, unless failures-only is set.
    pub fn pass(&mut self, gate: bool, text: String)
        requires
            old(self).wf(),
        ensures
            final(self).wf(),
            if gate && !old(self).policy.failures_only {
                appended_one(*old(self), *final(self), LineKind::Pass, text@)
            } else {
                unchanged_rep(*old(self), *final(self))
            },
    {
        if gate && !self.policy.failures_only {
            let ghost oldlines = self.lines@;
            self.lines.push(ReportLine { kind: LineKind::Pass, text });
            proof {
                assert(self.lines@.take(oldlines.len() as int) =~= oldlines);
            }
        }
    }

    /// Keeps a fail line when `gate` holds, regardless of failures-only.
    pub fn fail(&mut self, gate: bool, text: String)
        ensures
            final(self).wf() == old(self).wf(),
            if gate {
                appended_one(*old(self), *final(self), LineKind::Fail, text@)
            } else {
                unchanged_rep(*old(self), *final(self))
            },
    {
        if gate {
            let ghost oldlines = self.lines@;
            self.lines.push(ReportLine { kind: LineKind::Fail, text });
            proof {
                assert(self.lines@.take(oldlines.len() as int) =~= oldlines);
            }
        }
    }

    /// Keeps a verdict line when `gate` holds.
    pub fn summary(&mut self, gate: bool, text: String)
        ensures
            final(self).wf() == old(self).wf(),
            if gate {
                appended_one(*old(self), *final(self), LineKind::Summary, text@)
            } else {
                unchanged_rep(*old(self), *final(self))
            },
    {
        if gate {
            let ghost oldlines = self.lines@;
            self.lines.push(ReportLine { kind: LineKind::Summary, text });
            proof {
                assert(self.lines@.take(oldlines.len() as int) =~= oldlines);
            }
        }
    }
}

/// With failures-only set, a well-formed report holds no pass line at any
/// verbosity level.
pub proof fn lemma_failures_only_suppresses_pass(r: Report)
    requires
        r.wf(),
        r.policy.failures_only,
    ensures
        forall|i: int| 0 <= i < r.lines@.len() ==> (#[trigger] r.lines@[i].kind) != LineKind::Pass,
{
}

pub proof fn lemma_extends_trans(a: Report, b: Report, c: Report)
    requires
        extends(a, b),
        extends(b, c),
    ensures
        extends(a, c),
{
    assert(c.lines@.take(a.lines@.len() as int) =~= b.lines@.take(a.lines@.len() as int));
}

/// A single reporter step (one line kept, or nothing) extends the report.
pub proof fn lemma_case_extends(a: Report, b: Report, k: LineKind, t: Seq<char>)
    requires
        appended_one(a, b, k, t) || unchanged_rep(a, b),
    ensures
        extends(a, b),
{
    if unchanged_rep(a, b) {
        assert(b.lines@.take(a.lines@.len() as int) =~= a.lines@);
    }
}

pub proof fn lemma_unchanged_extends(a: Report, b: Report)
    requires
        unchanged_rep(a, b),
    ensures
        extends(a, b),
{
    assert(b.lines@.take(a.lines@.len() as int) =~= a.lines@);
}

} // verus!
