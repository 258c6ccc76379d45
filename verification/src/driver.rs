//! The driver: builds the reference registry, runs every check category in
//! fixed order without short-circuiting, and renders the final verdict.

use vstd::prelude::*;
use vstd::string::*;
use crate::checks::{
    adcfs_outcome, aicfs_outcome, sfs_outcome, included_outcome, versions_outcome, ingaas_outcome,
    opt_and, check_adcfs, check_aicfs, check_window_scale_factors, check_included_windows,
    check_program_versions, check_ingaas_variables,
};
use crate::report::{Report, LineKind, extends, line_is};
use crate::source::SourceData;
use crate::tables::ReferenceRegistry;

verus! {

/// The aggregate outcome: the conjunction of every category, or nothing
/// when any category aborts the run.
pub open spec fn overall_outcome(data: SourceData, reg: ReferenceRegistry) -> Option<bool> {
    opt_and(
        opt_and(
            opt_and(
                opt_and(
                    opt_and(
                        adcfs_outcome(data, reg.adcfs@),
                        aicfs_outcome(data, reg.aicfs@),
                    ),
                    sfs_outcome(data, reg.windows@),
                ),
                Some(included_outcome(data, reg.windows@, reg.skipped_windows@)),
            ),
            versions_outcome(data),
        ),
        ingaas_outcome(data),
    )
}

/// The final verdict line.
pub open spec fn verdict_text(file: Seq<char>, ok: bool) -> Seq<char> {
    if ok {
        file + " PASSES all tests - it appears to be a correct Phase 2 file"@
    } else {
        file + " FAILS at least one test - it may be a Phase 1 file or there was a problem in processing."@
    }
}

/// Runs every check category against the source in fixed order, always to
/// completion, and appends the final verdict; the result is the logical
/// conjunction of all categories.
pub fn run_checks(
    data: &SourceData,
    reg: &ReferenceRegistry,
    nc_file: &str,
    rep: &mut Report,
) -> (r: Result<bool, String>)
    requires
        old(rep).wf(),
        reg.wf(),
    ensures
        final(rep).wf(),
        extends(*old(rep), *final(rep)),
        old(rep).policy.verbosity < 0 ==> crate::report::unchanged_rep(*old(rep), *final(rep)),
        match overall_outcome(*data, *reg) {
            Some(b) => r == Ok::<bool, String>(b),
            None => r is Err,
        },
        r matches Ok(b) ==> (old(rep).policy.verbosity >= 0 ==> final(rep).lines@.len() >= 1
            && line_is(final(rep).lines@.last(), LineKind::Summary, verdict_text(nc_file@, b))),
        r is Ok ==> (old(rep).policy.verbosity > 0 ==> final(rep).lines@.len() >= 2 && line_is(
            final(rep).lines@[final(rep).lines@.len() - 2],
            LineKind::Info,
            Seq::<char>::empty(),
        )),
{
    proof {
        assert forall|i: int|
            0 <= i < reg.adcfs@.len() implies crate::tables::adcf_bounded(
            #[trigger] reg.adcfs@[i].val@,
        ) by {
            crate::tables::lemma_registry_adcf_bounds(*reg, i);
        }
    }
    let ghost r0 = *rep;
    let adcfs_ok = match check_adcfs(data, &reg.adcfs, rep) {
        Ok(b) => b,
        Err(e) => {
            return Err(e);
        },
    };
    let ghost r1 = *rep;
    let aicfs_ok = match check_aicfs(data, &reg.aicfs, rep) {
        Ok(b) => b,
        Err(e) => {
            proof {
                crate::report::lemma_extends_trans(r0, r1, *rep);
            }
            return Err(e);
        },
    };
    proof {
        crate::report::lemma_extends_trans(r0, r1, *rep);
    }
    let ghost r2 = *rep;
    let sfs_ok = match check_window_scale_factors(data, &reg.windows, rep) {
        Ok(b) => b,
        Err(e) => {
            proof {
                crate::report::lemma_extends_trans(r0, r2, *rep);
            }
            return Err(e);
        },
    };
    proof {
        crate::report::lemma_extends_trans(r0, r2, *rep);
    }
    let ghost r3 = *rep;
    let windows_ok = match check_included_windows(data, &reg.windows, &reg.skipped_windows, rep) {
        Ok(b) => b,
        Err(e) => {
            proof {
                assert(false);
            }
            return Err(e);
        },
    };
    proof {
        crate::report::lemma_extends_trans(r0, r3, *rep);
    }
    let ghost r4 = *rep;
    let versions_ok = match check_program_versions(data, rep) {
        Ok(b) => b,
        Err(e) => {
            proof {
                crate::report::lemma_extends_trans(r0, r4, *rep);
            }
            return Err(e);
        },
    };
    proof {
        crate::report::lemma_extends_trans(r0, r4, *rep);
    }
    let ghost r5 = *rep;
    let ingaas_ok = match check_ingaas_variables(data, rep) {
        Ok(b) => b,
        Err(e) => {
            proof {
                crate::report::lemma_extends_trans(r0, r5, *rep);
            }
            return Err(e);
        },
    };
    proof {
        crate::report::lemma_extends_trans(r0, r5, *rep);
    }
    let overall_ok = adcfs_ok && aicfs_ok && sfs_ok && windows_ok && versions_ok && ingaas_ok;
    let ghost r6 = *rep;
    rep.info(rep.policy.verbosity > 0, "".to_owned());
    proof {
        crate::report::lemma_case_extends(r6, *rep, LineKind::Info, ""@);
        crate::report::lemma_extends_trans(r0, r6, *rep);
    }
    let ghost r7 = *rep;
    let mut t = String::new();
    t.append(nc_file);
    if overall_ok {
        t.append(" PASSES all tests - it appears to be a correct Phase 2 file");
    } else {
        t.append(" FAILS at least one test - it may be a Phase 1 file or there was a problem in processing.");
    }
    proof {
        assert(t@ =~= verdict_text(nc_file@, overall_ok));
        assert(""@ =~= Seq::<char>::empty()) by {
            reveal_strlit("");
        }
    }
    rep.summary(rep.policy.verbosity >= 0, t);
    proof {
        crate::report::lemma_case_extends(
            r7,
            *rep,
            LineKind::Summary,
            verdict_text(nc_file@, overall_ok),
        );
        crate::report::lemma_extends_trans(r0, r7, *rep);
    }
    Ok(overall_ok)
}

/// Builds the registry from the embedded tables and validates the source
/// against it.
pub fn driver(data: &SourceData, nc_file: &str, rep: &mut Report) -> (r: Result<bool, String>)
    requires
        old(rep).wf(),
    ensures
        final(rep).wf(),
        extends(*old(rep), *final(rep)),
        r matches Ok(b) ==> exists|reg: ReferenceRegistry|
            (#[trigger] reg.wf()) && overall_outcome(*data, reg) == Some(b),
        old(rep).policy.verbosity < 0 ==> crate::report::unchanged_rep(*old(rep), *final(rep)),
        r is Err ==> {
            ||| !crate::refdata::ADCF_TABLE.is_ascii()
            ||| crate::tables::adcf_table_map(crate::refdata::ADCF_TABLE@) is None
            ||| !crate::refdata::AICF_TABLE.is_ascii()
            ||| crate::tables::aicf_table_map(crate::refdata::AICF_TABLE@) is None
            ||| !crate::refdata::WINDOWS_TABLE.is_ascii()
            ||| crate::tables::windows_table_map(crate::refdata::WINDOWS_TABLE@) is None
            ||| exists|reg: ReferenceRegistry|
                (#[trigger] reg.wf()) && overall_outcome(*data, reg) is None
        },
        r matches Ok(b) ==> (old(rep).policy.verbosity >= 0 ==> final(rep).lines@.len() >= 1
            && line_is(final(rep).lines@.last(), LineKind::Summary, verdict_text(nc_file@, b))),
        r is Ok ==> (old(rep).policy.verbosity > 0 ==> final(rep).lines@.len() >= 2 && line_is(
            final(rep).lines@[final(rep).lines@.len() - 2],
            LineKind::Info,
            Seq::<char>::empty(),
        )),
{
    let reg = match ReferenceRegistry::build() {
        Ok(r) => r,
        Err(e) => {
            proof {
                crate::report::lemma_unchanged_extends(*old(rep), *rep);
            }
            return Err(e);
        },
    };
    let r = run_checks(data, &reg, nc_file, rep);
    proof {
        if r is Ok {
            assert(reg.wf() && overall_outcome(*data, reg) == Some(r->Ok_0));
        } else {
            assert(reg.wf() && overall_outcome(*data, reg) is None);
        }
    }
    r
}

} // verus!
