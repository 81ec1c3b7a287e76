//! The parallel range search: fan a numeric range out across workers, each
//! repeatedly building a candidate, hashing it, matching it against the
//! pattern, and verifying a hit before it is reported. The first verified
//! match found by any worker wins and cancels the rest; an exhausted range is
//! a normal `None`.

use vstd::prelude::*;

use rayon::iter::IntoParallelIterator;
use rayon::iter::ParallelIterator;

use crate::candidate::build_candidate;
use crate::candidate::spec_candidate;
use crate::counter::HashCounter;
use crate::digest::calculate_keccak_256;
use crate::digest::keccak256_of;
use crate::digest::verify_result;
use crate::pattern::compare_hash;
use crate::pattern::pattern_matches;
use crate::pattern::valid_pattern;

verus! {

/// The parameter list wrapped in parentheses: the shared suffix of every
/// candidate of a search.
pub open spec fn paren_wrap(parameters: Seq<u8>) -> Seq<u8> {
    seq![40u8] + parameters + seq![41u8]
}

/// Index `index` is a hit: the digest of its candidate matches the pattern.
pub open spec fn candidate_matches(
    index: u64,
    pattern: Seq<u8>,
    prefix: Seq<u8>,
    suffix: Seq<u8>,
) -> bool {
    pattern_matches(keccak256_of(spec_candidate(prefix, suffix, index)), pattern)
}

/// The exclusive upper end of a search: an absent bound saturates to the top
/// of the index domain.
pub open spec fn range_end(end: Option<u64>) -> u64 {
    match end {
        Some(e) => e,
        None => u64::MAX,
    }
}

/// Everything a search promises of its result: a reported index lies in the
/// range and is a hit; `None` means no index in the range is a hit.
pub open spec fn search_post(
    r: Option<u64>,
    start: u64,
    end: u64,
    pattern: Seq<u8>,
    name: Seq<u8>,
    parameters: Seq<u8>,
) -> bool {
    match r {
        Some(i) => start <= i < end && candidate_matches(i, pattern, name, paren_wrap(parameters)),
        None => forall|i: u64|
            start <= i < end ==> !candidate_matches(i, pattern, name, paren_wrap(parameters)),
    }
}

/// One worker step: build the candidate for `index` in a buffer of this
/// call's own, hash it, count the hash on the sampling boundary, test the
/// digest against the pattern, and verify a hit by recomputing the digest
/// from the buffer before reporting it.
fn check_index(
    index: u64,
    pattern: &[u8],
    prefix: &[u8],
    suffix: &[u8],
    counter: &HashCounter,
) -> (r: bool)
    requires
        pattern@.len() <= 8,
    ensures
        r == candidate_matches(index, pattern@, prefix@, suffix@),
{
    let buffer = build_candidate(prefix, suffix, index);
    let hash = calculate_keccak_256(buffer.as_slice());
    if index & 0xFFFFF == 0 {
        counter.add(1048575);
    }
    if compare_hash(hash, pattern) {
        verify_result(buffer.as_slice(), &hash)
    } else {
        false
    }
}

/// Relies on rayon's `into_par_iter().find_any` over `start..end`: it returns
/// `Some` of an element on which the predicate returned true, stopping the
/// remaining workers as soon as practical, and returns `None` only after
/// every element of the range was tested without a match. Which of several
/// hits is returned depends on scheduling, so nothing more is stated.
#[verifier::external_body]
fn par_find_index(
    start: u64,
    end: u64,
    pattern: &[u8],
    prefix: &[u8],
    suffix: &[u8],
    counter: &HashCounter,
) -> (r: Option<u64>)
    requires
        pattern@.len() <= 8,
    ensures
        match r {
            Some(i) => start <= i < end && candidate_matches(i, pattern@, prefix@, suffix@),
            None => forall|i: u64|
                start <= i < end ==> !candidate_matches(i, pattern@, prefix@, suffix@),
        },
{
    (start..end).into_par_iter().find_any(|&num| check_index(num, pattern, prefix, suffix, counter))
}

/// Searches `[range_start, end)` (the bound saturating to the top of the
/// domain when absent) for an index whose candidate digest matches the
/// pattern, counting hashes into `counter`. Returns a verified hit from the
/// range, or `None` exactly when the range holds none.
pub fn search_range(
    pattern: &[u8],
    name: &[u8],
    parameters: &[u8],
    range_start: u64,
    end: Option<u64>,
    counter: &HashCounter,
) -> (r: Option<u64>)
    requires
        valid_pattern(pattern@),
    ensures
        search_post(r, range_start, range_end(end), pattern@, name@, parameters@),
{
    let mut suffix: Vec<u8> = Vec::new();
    suffix.push(40);
    crate::candidate::append_bytes(&mut suffix, parameters);
    suffix.push(41);
    proof {
        assert(suffix@ =~= paren_wrap(parameters@));
    }
    let end_value: u64 = match end {
        Some(e) => e,
        None => u64::MAX,
    };
    par_find_index(range_start, end_value, pattern, name, suffix.as_slice(), counter)
}

/// Searches the range with a counter of the invocation's own, discarded when
/// the search returns.
pub fn generate_vanity_function_name(
    pattern: &[u8],
    name: &[u8],
    parameters: &[u8],
    range_start: u64,
    end: Option<u64>,
) -> (r: Option<u64>)
    requires
        valid_pattern(pattern@),
    ensures
        search_post(r, range_start, range_end(end), pattern@, name@, parameters@),
{
    let counter = HashCounter::new();
    search_range(pattern, name, parameters, range_start, end, &counter)
}

/// Range completeness, first half: when exactly one index in the range is a
/// hit, any result that meets the search's contract reports that index.
pub proof fn lemma_unique_solution_found(
    r: Option<u64>,
    start: u64,
    end: u64,
    pattern: Seq<u8>,
    name: Seq<u8>,
    parameters: Seq<u8>,
    i: u64,
)
    requires
        search_post(r, start, end, pattern, name, parameters),
        start <= i < end,
        candidate_matches(i, pattern, name, paren_wrap(parameters)),
        forall|j: u64|
            start <= j < end && j != i ==> !candidate_matches(
                j,
                pattern,
                name,
                paren_wrap(parameters),
            ),
    ensures
        r == Some(i),
{
    match r {
        Some(k) => {
            if k != i {
                assert(!candidate_matches(k, pattern, name, paren_wrap(parameters)));
            }
        },
        None => {
            assert(!candidate_matches(i, pattern, name, paren_wrap(parameters)));
        },
    }
}

/// Range completeness, second half: over a range with no hit at all, any
/// result that meets the search's contract is `None`.
pub proof fn lemma_exhausted_range(
    r: Option<u64>,
    start: u64,
    end: u64,
    pattern: Seq<u8>,
    name: Seq<u8>,
    parameters: Seq<u8>,
)
    requires
        search_post(r, start, end, pattern, name, parameters),
        forall|j: u64|
            start <= j < end ==> !candidate_matches(j, pattern, name, paren_wrap(parameters)),
    ensures
        r == None::<u64>,
{
    if let Some(k) = r {
        assert(!candidate_matches(k, pattern, name, paren_wrap(parameters)));
    }
}

/// Chunk invariance: the outcome of a search depends only on the set of
/// indices examined, not on how that set was split. A driver that searches
/// `[start, mid)` and then `[mid, end)` and takes the first hit meets the
/// same contract as one search over `[start, end)`.
pub proof fn lemma_chunked_search(
    r1: Option<u64>,
    r2: Option<u64>,
    start: u64,
    mid: u64,
    end: u64,
    pattern: Seq<u8>,
    name: Seq<u8>,
    parameters: Seq<u8>,
)
    requires
        start <= mid <= end,
        search_post(r1, start, mid, pattern, name, parameters),
        search_post(r2, mid, end, pattern, name, parameters),
    ensures
        search_post(
            if r1 is Some {
                r1
            } else {
                r2
            },
            start,
            end,
            pattern,
            name,
            parameters,
        ),
{
    if r1 is None && r2 is None {
        assert forall|i: u64|
            start <= i < end implies !candidate_matches(
            i,
            pattern,
            name,
            paren_wrap(parameters),
        ) by {
            if i < mid {
                assert(start <= i < mid);
            } else {
                assert(mid <= i < end);
            }
        }
    }
}

/// Thread-count invariance for unique solutions: the search's contract does
/// not mention the worker count, so two runs over the same range — with one
/// worker, with many — agree whenever exactly one index in the range is a
/// hit, and both report it.
pub proof fn lemma_unique_solution_agreement(
    r1: Option<u64>,
    r2: Option<u64>,
    start: u64,
    end: u64,
    pattern: Seq<u8>,
    name: Seq<u8>,
    parameters: Seq<u8>,
    i: u64,
)
    requires
        search_post(r1, start, end, pattern, name, parameters),
        search_post(r2, start, end, pattern, name, parameters),
        start <= i < end,
        candidate_matches(i, pattern, name, paren_wrap(parameters)),
        forall|j: u64|
            start <= j < end && j != i ==> !candidate_matches(
                j,
                pattern,
                name,
                paren_wrap(parameters),
            ),
    ensures
        r1 == r2,
        r1 == Some(i),
{
    lemma_unique_solution_found(r1, start, end, pattern, name, parameters, i);
    lemma_unique_solution_found(r2, start, end, pattern, name, parameters, i);
}

} // verus!
