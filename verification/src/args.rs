//! Add-mode command-line arguments: `url` or `url+identifier`, split at the
//! first `+`, with the local identifier rule applied before anything is
//! sent.

use crate::ident::is_valid;
use crate::ident::valid_strid;
use crate::text::contains_char;
use crate::text::head_before;
use crate::text::is_first_index_of;
use crate::text::lemma_first_index_exists;
use crate::text::lemma_split_at_first;
use crate::text::rest_after;
use crate::text::split_at_first;
use vstd::prelude::*;

verus! {

/// Spec-level split of one add-mode argument at the first `+`: the URL,
/// and the requested identifier when a `+` occurs at all.
pub open spec fn spec_split_arg(s: Seq<char>) -> (Seq<char>, Option<Seq<char>>) {
    (head_before(s, '+'), rest_after(s, '+'))
}

/// An argument without `+` is all URL: no identifier is requested.
pub proof fn lemma_split_arg_no_plus(s: Seq<char>)
    requires
        !contains_char(s, '+'),
    ensures
        spec_split_arg(s) == (s, None::<Seq<char>>),
{
}

/// `A+B` splits into URL `A` and requested identifier `B`, even when `B`
/// holds further `+` characters: only the first `+` separates.
pub proof fn lemma_split_arg_first_plus(a: Seq<char>, b: Seq<char>)
    requires
        !contains_char(a, '+'),
    ensures
        spec_split_arg(a + seq!['+'] + b) == (a, Some(b)),
{
    let s = a + seq!['+'] + b;
    assert(s[a.len() as int] == '+');
    assert forall|i: int| 0 <= i < a.len() implies s[i] != '+' by {
        assert(s[i] == a[i]);
    }
    assert(is_first_index_of(s, '+', a.len() as int));
    lemma_split_at_first(s, '+', a.len() as int);
    assert(s.subrange(0, a.len() as int) =~= a);
    assert(s.subrange(a.len() as int + 1, s.len() as int) =~= b);
}

/// The converse: whenever a `+` occurs, the split yields an identifier,
/// the URL part holds no `+`, and URL, separator and identifier together
/// rebuild the argument. With the two lemmas above this pins the split
/// completely.
pub proof fn lemma_split_arg_rebuild(s: Seq<char>)
    requires
        contains_char(s, '+'),
    ensures
        !contains_char(spec_split_arg(s).0, '+'),
        spec_split_arg(s).1 matches Some(t) && s == spec_split_arg(s).0 + seq!['+'] + t,
{
    lemma_first_index_exists(s, '+');
    let k = choose|k: int| is_first_index_of(s, '+', k);
    lemma_split_at_first(s, '+', k);
    let u = s.subrange(0, k);
    let t = s.subrange(k + 1, s.len() as int);
    assert forall|i: int| 0 <= i < u.len() implies u[i] != '+' by {
        assert(u[i] == s[i]);
    }
    assert(s =~= u + seq!['+'] + t);
}

/// Splits one add-mode argument at the first `+`.
pub fn split_arg<'a>(arg: &'a str) -> (r: (&'a str, Option<&'a str>))
    ensures
        r.0@ == spec_split_arg(arg@).0,
        match r.1 {
            Some(t) => spec_split_arg(arg@).1 == Some(t@),
            None => spec_split_arg(arg@).1 is None,
        },
{
    split_at_first(arg, '+')
}

/// What the shell should do with one add-mode argument.
#[derive(Debug, PartialEq)]
pub enum AddPlan {
    /// No identifier was requested: submit the URL and let the service
    /// pick one.
    Submit { url: String },
    /// A valid identifier was requested: submit both.
    SubmitWithId { url: String, strid: String },
    /// The requested identifier breaks the character rule: reject locally,
    /// with no network call, and go on with the next argument.
    RejectInvalidId { strid: String },
}

/// Decides one add-mode argument: splits it at the first `+` and applies
/// the local identifier rule. Only the two submit plans are meant to reach
/// the network; `RejectInvalidId` never does.
pub fn plan_add_arg(arg: &str) -> (p: AddPlan)
    ensures
        match p {
            AddPlan::Submit { url } => spec_split_arg(arg@) == (url@, None::<Seq<char>>),
            AddPlan::SubmitWithId { url, strid } => {
                &&& spec_split_arg(arg@) == (url@, Some(strid@))
                &&& valid_strid(strid@)
            },
            AddPlan::RejectInvalidId { strid } => {
                &&& spec_split_arg(arg@).1 == Some(strid@)
                &&& !valid_strid(strid@)
            },
        },
{
    let (url, strid) = split_arg(arg);
    match strid {
        None => AddPlan::Submit { url: url.to_owned() },
        Some(sid) => {
            if is_valid(sid) {
                AddPlan::SubmitWithId { url: url.to_owned(), strid: sid.to_owned() }
            } else {
                AddPlan::RejectInvalidId { strid: sid.to_owned() }
            }
        },
    }
}

} // verus!
