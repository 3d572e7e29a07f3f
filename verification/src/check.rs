//! Classification and recording of check outcomes.
//!
//! For each code the checker issues one GET request through a proxy and
//! classifies the response: status 200 is accepted, any other status —
//! including 0, which stands for a transport or client-build failure —
//! is rejected. An accepted code goes to the valid sink, a rejected one
//! to the invalid sink; every code lands in exactly one of the two.

use vstd::prelude::*;

use crate::proxy::ProxyType;
use crate::proxy::outer_scheme_of;

verus! {

/// An outcome is accepted exactly when the HTTP status is 200. Any other
/// status, and any transport failure (reported as status 0), is rejected.
pub open spec fn accepted(status: u16) -> bool {
    status == 200
}

/// Classifies one response status.
pub fn classify(status: u16) -> (r: bool)
    ensures
        r == accepted(status),
{
    status == 200
}

/// The URL one code is checked against: the outer scheme, the fixed
/// endpoint path, the code, and the fixed query string.
pub open spec fn check_url_of(pt: ProxyType, code: Seq<char>) -> Seq<char> {
    outer_scheme_of(pt) + "://discordapp.com/api/v6/entitlements/gift-codes/"@ + code
        + "?with_application=false&with_subscription_plan=true"@
}

/// Builds the request URL for one code.
pub fn check_url(pt: ProxyType, code: &str) -> (r: String)
    ensures
        r@ == check_url_of(pt, code@),
{
    let mut s = String::from_str(pt.outer_scheme());
    s.append("://discordapp.com/api/v6/entitlements/gift-codes/");
    s.append(code);
    s.append("?with_application=false&with_subscription_plan=true");
    s
}

/// The two output sinks of a run: the accepted codes and the rejected
/// ones, in completion order, together with their counts.
pub struct ResultSink {
    valid: Vec<String>,
    invalid: Vec<String>,
}

impl ResultSink {
    /// The accepted codes, in the order they were recorded.
    pub closed spec fn valid_view(&self) -> Seq<Seq<char>> {
        self.valid.deep_view()
    }

    /// The rejected codes, in the order they were recorded.
    pub closed spec fn invalid_view(&self) -> Seq<Seq<char>> {
        self.invalid.deep_view()
    }

    /// A fresh sink with both outputs empty.
    pub fn new() -> (r: ResultSink)
        ensures
            r.valid_view() == Seq::<Seq<char>>::empty(),
            r.invalid_view() == Seq::<Seq<char>>::empty(),
    {
        let r = ResultSink { valid: Vec::new(), invalid: Vec::new() };
        proof {
            assert(r.valid_view() =~= Seq::<Seq<char>>::empty());
            assert(r.invalid_view() =~= Seq::<Seq<char>>::empty());
        }
        r
    }

    /// Records one completed check: an accepted code is appended to the
    /// valid sink and a rejected one to the invalid sink, exactly one of
    /// the two, and the other sink is untouched.
    pub fn record(&mut self, code: String, status: u16)
        ensures
            accepted(status) ==> final(self).valid_view() == old(self).valid_view().push(code@)
                && final(self).invalid_view() == old(self).invalid_view(),
            !accepted(status) ==> final(self).invalid_view() == old(self).invalid_view().push(
                code@,
            ) && final(self).valid_view() == old(self).valid_view(),
    {
        let ghost c = code@;
        if classify(status) {
            self.valid.push(code);
            proof {
                assert(self.valid_view() =~= old(self).valid_view().push(c));
            }
        } else {
            self.invalid.push(code);
            proof {
                assert(self.invalid_view() =~= old(self).invalid_view().push(c));
            }
        }
    }

    /// How many codes were accepted so far.
    pub fn valid_count(&self) -> (r: usize)
        ensures
            r == self.valid_view().len(),
    {
        self.valid.len()
    }

    /// How many codes were rejected so far.
    pub fn invalid_count(&self) -> (r: usize)
        ensures
            r == self.invalid_view().len(),
    {
        self.invalid.len()
    }

    /// The accepted codes themselves.
    pub fn valid_codes(&self) -> (r: &Vec<String>)
        ensures
            r.deep_view() == self.valid_view(),
    {
        &self.valid
    }

    /// The rejected codes themselves.
    pub fn invalid_codes(&self) -> (r: &Vec<String>)
        ensures
            r.deep_view() == self.invalid_view(),
    {
        &self.invalid
    }
}

/// The accepted codes of a run, given each code's response status, in
/// input order.
pub open spec fn valid_of(codes: Seq<Seq<char>>, statuses: Seq<u16>) -> Seq<Seq<char>>
    decreases codes.len(),
{
    if codes.len() == 0 {
        Seq::empty()
    } else {
        let rest = valid_of(codes.drop_last(), statuses.drop_last());
        if accepted(statuses.last()) {
            rest.push(codes.last())
        } else {
            rest
        }
    }
}

/// The rejected codes of a run, given each code's response status, in
/// input order.
pub open spec fn invalid_of(codes: Seq<Seq<char>>, statuses: Seq<u16>) -> Seq<Seq<char>>
    decreases codes.len(),
{
    if codes.len() == 0 {
        Seq::empty()
    } else {
        let rest = invalid_of(codes.drop_last(), statuses.drop_last());
        if accepted(statuses.last()) {
            rest
        } else {
            rest.push(codes.last())
        }
    }
}

/// Law: a run loses no code and invents none — the number of accepted
/// codes plus the number of rejected ones equals the number checked.
pub proof fn lemma_outcome_counts(codes: Seq<Seq<char>>, statuses: Seq<u16>)
    requires
        codes.len() == statuses.len(),
    ensures
        valid_of(codes, statuses).len() + invalid_of(codes, statuses).len() == codes.len(),
    decreases codes.len(),
{
    if codes.len() > 0 {
        lemma_outcome_counts(codes.drop_last(), statuses.drop_last());
    }
}

/// Law: every code lands in exactly one of the two sinks — never both,
/// never neither. Together the valid and invalid outputs hold exactly
/// the checked codes, duplicates included.
pub proof fn lemma_outcome_partition(codes: Seq<Seq<char>>, statuses: Seq<u16>)
    requires
        codes.len() == statuses.len(),
    ensures
        valid_of(codes, statuses).to_multiset().add(invalid_of(codes, statuses).to_multiset())
            =~= codes.to_multiset(),
    decreases codes.len(),
{
    broadcast use vstd::seq_lib::group_to_multiset_ensures;
    broadcast use vstd::multiset::group_multiset_axioms;

    if codes.len() == 0 {
        assert(codes.to_multiset().len() == 0);
        assert(valid_of(codes, statuses).to_multiset().len() == 0);
        assert(invalid_of(codes, statuses).to_multiset().len() == 0);
    } else {
        let cs = codes.drop_last();
        let ss = statuses.drop_last();
        lemma_outcome_partition(cs, ss);
        assert(codes =~= cs.push(codes.last()));
        assert(codes.to_multiset() =~= cs.push(codes.last()).to_multiset());
        if accepted(statuses.last()) {
            assert(valid_of(codes, statuses) == valid_of(cs, ss).push(codes.last()));
        } else {
            assert(invalid_of(codes, statuses) == invalid_of(cs, ss).push(codes.last()));
        }
    }
}

} // verus!
