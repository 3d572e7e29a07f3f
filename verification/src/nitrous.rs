//! The two operations of the tool: generating tokens and checking them.
//!
//! `generate` produces the requested number of random tokens; the
//! application writes them to the codes file, one per line. `check` is
//! the pipeline's core with the network taken as input: given each
//! code's response status — gathered by the application's request tasks
//! in whatever order they complete — it partitions the codes into the
//! valid and invalid sinks and accounts for every one of them.

use vstd::prelude::*;

use crate::check::ResultSink;
use crate::check::invalid_of;
use crate::check::lemma_outcome_counts;
use crate::check::valid_of;
use crate::codes::code_wf;
use crate::codes::generate_code;
use crate::strutil::clone_string;

verus! {

/// The tool's verified core.
pub struct Nitrous;

impl Nitrous {
    /// Generates `amount` independent random tokens, each of 16
    /// alphanumeric characters.
    pub fn generate(amount: usize) -> (r: Vec<String>)
        ensures
            r@.len() == amount,
            forall|i: int| 0 <= i < r@.len() ==> code_wf(#[trigger] r@[i]@),
    {
        let mut out: Vec<String> = Vec::new();
        let mut i: usize = 0;
        while i < amount
            invariant
                i <= amount,
                out@.len() == i,
                forall|j: int| 0 <= j < i ==> code_wf(#[trigger] out@[j]@),
            decreases amount - i,
        {
            out.push(generate_code());
            i += 1;
        }
        out
    }

    /// Records every code's outcome, in the given order: the result
    /// holds the accepted codes in the valid sink and the rejected ones
    /// in the invalid sink, and their counts sum to the number checked.
    pub fn check(codes: &Vec<String>, statuses: &Vec<u16>) -> (r: ResultSink)
        requires
            codes@.len() == statuses@.len(),
        ensures
            r.valid_view() == valid_of(codes.deep_view(), statuses@),
            r.invalid_view() == invalid_of(codes.deep_view(), statuses@),
            r.valid_view().len() + r.invalid_view().len() == codes@.len(),
    {
        let ghost cd = codes.deep_view();
        let ghost st = statuses@;
        let n = codes.len();
        let mut sink = ResultSink::new();
        let mut i: usize = 0;
        while i < n
            invariant
                n == codes@.len(),
                n == statuses@.len(),
                cd == codes.deep_view(),
                st == statuses@,
                i <= n,
                sink.valid_view() == valid_of(cd.take(i as int), st.take(i as int)),
                sink.invalid_view() == invalid_of(cd.take(i as int), st.take(i as int)),
            decreases n - i,
        {
            let code = clone_string(&codes[i]);
            let status = statuses[i];
            proof {
                assert(code@ == cd[i as int]);
                assert(cd.take(i + 1).drop_last() =~= cd.take(i as int));
                assert(st.take(i + 1).drop_last() =~= st.take(i as int));
                assert(cd.take(i + 1).last() == cd[i as int]);
                assert(st.take(i + 1).last() == st[i as int]);
            }
            sink.record(code, status);
            i += 1;
        }
        proof {
            assert(cd.take(n as int) =~= cd);
            assert(st.take(n as int) =~= st);
            lemma_outcome_counts(cd, st);
        }
        sink
    }
}

} // verus!
