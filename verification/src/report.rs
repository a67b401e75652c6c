//! Assembly of the text report returned by an unmetered call: the
//! captured stdout entries joined, and, when any stderr text was captured,
//! a two-part report with labeled sections.

use vstd::prelude::*;

use crate::text::{concat_all, join_with, lemma_join_with_push};

verus! {

/// The combined report over the captured stdout and stderr entries: the
/// joined stdout text alone when the joined stderr text is empty, else the
/// two texts under `STDOUT:` and `STDERR:` section markers.
pub open spec fn report_spec(output: Seq<Seq<char>>, errors: Seq<Seq<char>>) -> Seq<char> {
    let so = concat_all(output);
    let se = concat_all(errors);
    if se.len() == 0 {
        so
    } else {
        "STDOUT:\n"@ + so + "\n\nSTDERR:\n"@ + se
    }
}

/// When no stderr text was captured, the report is exactly the
/// concatenation of the stdout entries, in capture order, with no section
/// markers around it.
pub proof fn lemma_report_stdout_only(output: Seq<Seq<char>>, errors: Seq<Seq<char>>)
    requires
        concat_all(errors).len() == 0,
    ensures
        report_spec(output, errors) == concat_all(output),
{
}

/// When any stderr text was captured, the report is the literal stdout
/// text followed by a labeled stderr section holding the literal stderr
/// text, in that order.
pub proof fn lemma_report_sections(output: Seq<Seq<char>>, errors: Seq<Seq<char>>)
    requires
        concat_all(errors).len() > 0,
    ensures
        report_spec(output, errors) == "STDOUT:\n"@ + concat_all(output) + "\n\nSTDERR:\n"@
            + concat_all(errors),
{
}

/// Join the captured entries of one stream into one text, in order.
pub fn join_entries(entries: &Vec<String>) -> (r: String)
    ensures
        r@ == concat_all(entries.deep_view()),
{
    let ghost all = entries.deep_view();
    let mut out = String::new();
    let mut i: usize = 0;
    proof {
        assert(all.subrange(0, all.len() as int) =~= all);
    }
    while i < entries.len()
        invariant
            0 <= i <= entries.len(),
            all == entries.deep_view(),
            all.len() == entries.len(),
            out@ + concat_all(all.subrange(i as int, all.len() as int)) == concat_all(all),
        decreases entries.len() - i,
    {
        let ghost pre = out@;
        out.append(entries[i].as_str());
        proof {
            let tail = all.subrange(i as int, all.len() as int);
            assert(tail[0] == all[i as int]);
            assert(tail.drop_first() =~= all.subrange(i + 1, all.len() as int));
            assert(out@ + concat_all(all.subrange(i + 1, all.len() as int)) =~= pre + concat_all(
                tail,
            ));
        }
        i = i + 1;
    }
    proof {
        assert(concat_all(all.subrange(i as int, all.len() as int)).len() == 0);
        assert(out@ =~= concat_all(all));
    }
    out
}

/// Join parts with single spaces, as the core module's logging surface
/// joins its arguments.
pub fn join_spaced(args: &Vec<String>) -> (r: String)
    ensures
        r@ == join_with(args.deep_view(), seq![' ']),
{
    let ghost all = args.deep_view();
    let mut out = String::new();
    let mut i: usize = 0;
    while i < args.len()
        invariant
            0 <= i <= args.len(),
            all == args.deep_view(),
            all.len() == args.len(),
            out@ == join_with(all.subrange(0, i as int), seq![' ']),
        decreases args.len() - i,
    {
        let ghost pre = out@;
        if i > 0 {
            out.append(" ");
        }
        out.append(args[i].as_str());
        proof {
            reveal_strlit(" ");
            assert(" "@ =~= seq![' ']);
            lemma_join_with_push(all.subrange(0, i as int), all[i as int], seq![' ']);
            assert(all.subrange(0, i + 1) =~= all.subrange(0, i as int).push(all[i as int]));
            assert(out@ =~= join_with(all.subrange(0, i + 1), seq![' ']));
        }
        i = i + 1;
    }
    proof {
        assert(all.subrange(0, all.len() as int) =~= all);
    }
    out
}

/// Assemble the combined text report from the captured streams.
pub fn build_report(output: &Vec<String>, errors: &Vec<String>) -> (r: String)
    ensures
        r@ == report_spec(output.deep_view(), errors.deep_view()),
{
    let so = join_entries(output);
    let se = join_entries(errors);
    if se.unicode_len() == 0 {
        so
    } else {
        let mut out = String::from_str("STDOUT:\n");
        out.append(so.as_str());
        out.append("\n\nSTDERR:\n");
        out.append(se.as_str());
        proof {
            assert(out@ =~= report_spec(output.deep_view(), errors.deep_view()));
        }
        out
    }
}

} // verus!
