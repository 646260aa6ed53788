//! Decisions and reporting of the checkout orchestrator.
//!
//! Checking out a branch visits the superproject first, then every
//! sub-repository; each failure is collected, never fatal to the others.
//! This module decides whether a repository may be checked out at all and
//! assembles the final partitioned report; running the checkout command is
//! the caller's job.

use vstd::prelude::*;
use crate::error::GGRError;

verus! {

/// Rejects bare repositories: a checkout needs a working tree.  `Ok` means
/// the checkout command may run.
pub fn checkout_guard(is_bare: bool) -> (r: Result<(), GGRError>)
    ensures
        r is Ok <==> !is_bare,
        r matches Err(e) ==> (e matches GGRError::General(m) && m@
            == "repository needs to be a workdir and not bare"@),
{
    if is_bare {
        Err(GGRError::General("repository needs to be a workdir and not bare".to_owned()))
    } else {
        Ok(())
    }
}

/// Each entry prefixed with `* `.
pub open spec fn bulleted(entries: Seq<Seq<char>>) -> Seq<Seq<char>> {
    entries.map_values(|e: Seq<char>| "* "@ + e)
}

/// The report printed after all checkout attempts: the repositories where
/// checkout failed (when any did), then those where it succeeded — or the
/// explicit statement that nothing happened when none did.
pub open spec fn checkout_report_spec(
    branch: Seq<char>,
    ok: Seq<Seq<char>>,
    ko: Seq<Seq<char>>,
) -> Seq<Seq<char>> {
    (if ko.len() > 0 {
        seq!["Not possible to checkout '"@ + branch + "' on this repositories:"@] + bulleted(ko)
    } else {
        Seq::empty()
    }) + (if ok.len() > 0 {
        seq!["Successfull checkout of '"@ + branch + "' on this repositories:"@] + bulleted(ok)
    } else {
        seq!["No checkout happened"@]
    })
}

fn push_bullets(lines: &mut Vec<String>, entries: &Vec<String>)
    ensures
        final(lines).deep_view() == old(lines).deep_view() + bulleted(entries.deep_view()),
{
    let ghost base = lines.deep_view();
    let ghost es = entries.deep_view();
    let mut i: usize = 0;
    while i < entries.len()
        invariant
            i <= entries.len(),
            base == old(lines).deep_view(),
            es == entries.deep_view(),
            lines.deep_view() == base + bulleted(es.take(i as int)),
        decreases entries.len() - i,
    {
        let mut b = String::from_str("* ");
        b.append(entries[i].as_str());
        let ghost prevdv = lines.deep_view();
        lines.push(b);
        proof {
            assert(b@ == "* "@ + es[i as int]);
            assert(lines.deep_view() =~= prevdv.push(b@));
            assert(bulleted(es.take(i + 1)) =~= bulleted(es.take(i as int)).push(
                "* "@ + es[i as int],
            ));
            assert(lines.deep_view() =~= base + bulleted(es.take(i + 1)));
        }
        i += 1;
    }
    proof {
        assert(es.take(entries.len() as int) =~= es);
        assert(final(lines).deep_view() == base + bulleted(es));
    }
}

/// Assembles the checkout report for branch `branchname` out of the
/// collected success and failure entries.
pub fn checkout_report(branchname: &str, out_ok: &Vec<String>, out_ko: &Vec<String>) -> (r: Vec<
    String,
>)
    ensures
        r.deep_view() == checkout_report_spec(branchname@, out_ok.deep_view(), out_ko.deep_view()),
{
    let mut lines: Vec<String> = Vec::new();
    if out_ko.len() > 0 {
        let mut h = String::from_str("Not possible to checkout '");
        h.append(branchname);
        h.append("' on this repositories:");
        let ghost d0 = lines.deep_view();
        lines.push(h);
        proof {
            assert(lines.deep_view() =~= d0.push(h@));
        }
        push_bullets(&mut lines, out_ko);
    }
    proof {
        assert(lines.deep_view() =~= (if out_ko.deep_view().len() > 0 {
            seq!["Not possible to checkout '"@ + branchname@ + "' on this repositories:"@]
                + bulleted(out_ko.deep_view())
        } else {
            Seq::<Seq<char>>::empty()
        }));
    }
    let ghost first = lines.deep_view();
    if out_ok.len() > 0 {
        let mut h = String::from_str("Successfull checkout of '");
        h.append(branchname);
        h.append("' on this repositories:");
        let ghost d1 = lines.deep_view();
        lines.push(h);
        proof {
            assert(lines.deep_view() =~= d1.push(h@));
        }
        push_bullets(&mut lines, out_ok);
        proof {
            assert(lines.deep_view() =~= first + (seq![
                "Successfull checkout of '"@ + branchname@ + "' on this repositories:"@,
            ] + bulleted(out_ok.deep_view())));
        }
    } else {
        let ghost d1 = lines.deep_view();
        lines.push("No checkout happened".to_owned());
        proof {
            assert(lines.deep_view() =~= d1.push("No checkout happened"@));
            assert(lines.deep_view() =~= first + seq!["No checkout happened"@]);
        }
    }
    proof {
        assert(lines.deep_view() == checkout_report_spec(
            branchname@,
            out_ok.deep_view(),
            out_ko.deep_view(),
        ));
    }
    lines
}

} // verus!
