//! Allocation of short codes: candidates are tried against the mapping until
//! one is free, a bounded number of times.

use crate::id::{generate_id, is_code};
use crate::storage::{Error, Storage};
use vstd::prelude::*;

verus! {

/// The largest number of candidates tried for one allocation.
pub const MAX_ATTEMPTS: usize = 5;

/// Why no code was allocated.
#[derive(Debug, PartialEq, Eq, Clone, Copy)]
pub enum AllocationError {
    /// Every attempt met a taken code.
    Exhausted,
    /// The backend failed; the allocation was given up at once.
    Backend,
}

/// What follows from the answer of the store to one write.
#[derive(Debug, Clone, Copy, PartialEq, Eq)]
pub enum Verdict {
    /// The candidate is stored: the allocation ends with it.
    Stored,
    /// The candidate is taken and an attempt is left: the next candidate is
    /// tried.
    Retry,
    /// The allocation ends without a code.
    GiveUp(AllocationError),
}

/// The verdict on the answer to the write that was attempt number `attempt`
/// of at most `bound`, counted from one. A duplicate key leads to a retry as
/// long as an attempt is left and exhausts the allocation otherwise; any
/// other failure ends the allocation whatever is left.
pub open spec fn verdict_of(answer: Result<(), Error>, attempt: nat, bound: nat) -> Verdict {
    match answer {
        Ok(()) => Verdict::Stored,
        Err(Error::DuplicateKey) => if attempt < bound {
            Verdict::Retry
        } else {
            Verdict::GiveUp(AllocationError::Exhausted)
        },
        Err(Error::GenericError) => Verdict::GiveUp(AllocationError::Backend),
    }
}

/// Judges the answer to the write that was attempt number `attempt`.
pub fn judge(answer: &Result<(), Error>, attempt: usize, bound: usize) -> (verdict: Verdict)
    ensures
        verdict == verdict_of(*answer, attempt as nat, bound as nat),
{
    match answer {
        Ok(()) => Verdict::Stored,
        Err(Error::DuplicateKey) => if attempt < bound {
            Verdict::Retry
        } else {
            Verdict::GiveUp(AllocationError::Exhausted)
        },
        Err(Error::GenericError) => Verdict::GiveUp(AllocationError::Backend),
    }
}

/// A forced run of duplicate-key answers costs one retry for each of them
/// while attempts are left: `k` duplicates before a success mean exactly `k`
/// retries, the success ends the allocation, and the duplicate that uses up
/// the last of `bound` attempts exhausts it. With `MAX_ATTEMPTS` as the bound
/// that is the fifth duplicate in a row, and none before it.
pub proof fn law_duplicates_cost_one_retry_each(
    answers: Seq<Result<(), Error>>,
    bound: nat,
    k: int,
)
    requires
        0 <= k < answers.len(),
        k < bound,
        forall|j: int| 0 <= j < k ==> (#[trigger] answers[j]) == Err::<(), Error>(Error::DuplicateKey),
    ensures
        forall|j: int|
            0 <= j < k ==> verdict_of(#[trigger] answers[j], (j + 1) as nat, bound)
                == Verdict::Retry,
        answers[k] is Ok ==> verdict_of(answers[k], (k + 1) as nat, bound) == Verdict::Stored,
        answers[k] == Err::<(), Error>(Error::DuplicateKey) ==> (verdict_of(
            answers[k],
            (k + 1) as nat,
            bound,
        ) == Verdict::GiveUp(AllocationError::Exhausted) <==> k + 1 == bound),
        answers[k] == Err::<(), Error>(Error::GenericError) ==> verdict_of(
            answers[k],
            (k + 1) as nat,
            bound,
        ) == Verdict::GiveUp(AllocationError::Backend),
{
}

/// The candidates as texts.
pub open spec fn texts(candidates: Seq<String>) -> Seq<Seq<char>> {
    Seq::new(candidates.len(), |i: int| candidates[i]@)
}

/// How many of `count` candidates are tried at most.
pub open spec fn attempt_bound(count: nat) -> int {
    if count < MAX_ATTEMPTS {
        count as int
    } else {
        MAX_ATTEMPTS as int
    }
}

/// The number of taken candidates in a row, from position `at` up to the
/// attempt bound.
pub open spec fn collisions_from(
    contents: Map<Seq<char>, Seq<char>>,
    candidates: Seq<Seq<char>>,
    at: int,
) -> int
    decreases attempt_bound(candidates.len()) - at,
{
    if 0 <= at < attempt_bound(candidates.len()) && contents.contains_key(candidates[at]) {
        1 + collisions_from(contents, candidates, at + 1)
    } else {
        0
    }
}

/// The number of duplicate-key answers that an allocation over `contents`
/// meets: the taken candidates before the first free one, or all that are
/// tried.
pub open spec fn collisions(
    contents: Map<Seq<char>, Seq<char>>,
    candidates: Seq<Seq<char>>,
) -> int {
    collisions_from(contents, candidates, 0)
}

/// Whether an allocation over `contents` finds a free candidate in time.
pub open spec fn finds_free(
    contents: Map<Seq<char>, Seq<char>>,
    candidates: Seq<Seq<char>>,
) -> bool {
    collisions(contents, candidates) < attempt_bound(candidates.len())
}

/// What the mapping answers to a lookup.
pub open spec fn lookup(contents: Map<Seq<char>, Seq<char>>, code: Seq<char>) -> Option<
    Seq<char>,
> {
    if contents.contains_key(code) {
        Some(contents[code])
    } else {
        None
    }
}

/// The count of collisions splits at any position that only taken candidates
/// precede.
proof fn lemma_collisions_split(
    contents: Map<Seq<char>, Seq<char>>,
    candidates: Seq<Seq<char>>,
    k: int,
)
    requires
        0 <= k <= attempt_bound(candidates.len()),
        forall|j: int| 0 <= j < k ==> contents.contains_key(#[trigger] candidates[j]),
    ensures
        collisions(contents, candidates) == k + collisions_from(contents, candidates, k),
    decreases k,
{
    if k > 0 {
        lemma_collisions_split(contents, candidates, k - 1);
        assert(contents.contains_key(candidates[k - 1]));
    }
}

/// The count of collisions stays within the attempt bound, and only taken
/// candidates are counted.
proof fn lemma_collisions_range(
    contents: Map<Seq<char>, Seq<char>>,
    candidates: Seq<Seq<char>>,
    at: int,
)
    requires
        0 <= at <= attempt_bound(candidates.len()),
    ensures
        0 <= collisions_from(contents, candidates, at),
        at + collisions_from(contents, candidates, at) <= attempt_bound(candidates.len()),
        forall|j: int|
            at <= j < at + collisions_from(contents, candidates, at) ==> contents.contains_key(
                #[trigger] candidates[j],
            ),
        at + collisions_from(contents, candidates, at) < attempt_bound(candidates.len())
            ==> !contents.contains_key(
            candidates[at + collisions_from(contents, candidates, at)],
        ),
    decreases attempt_bound(candidates.len()) - at,
{
    if at < attempt_bound(candidates.len()) && contents.contains_key(candidates[at]) {
        lemma_collisions_range(contents, candidates, at + 1);
    }
}

/// A forced run of `k` duplicate-key answers, ended by a free candidate or by
/// the attempt bound, costs exactly `k` attempts that fail: the candidate
/// tried next is the one at position `k`, a different entry of the list for
/// every retry.
pub proof fn law_collisions_counted(
    contents: Map<Seq<char>, Seq<char>>,
    candidates: Seq<Seq<char>>,
    k: int,
)
    requires
        0 <= k <= attempt_bound(candidates.len()),
        forall|j: int| 0 <= j < k ==> contents.contains_key(#[trigger] candidates[j]),
        k < attempt_bound(candidates.len()) ==> !contents.contains_key(candidates[k]),
    ensures
        collisions(contents, candidates) == k,
        finds_free(contents, candidates) <==> k < attempt_bound(candidates.len()),
{
    lemma_collisions_split(contents, candidates, k);
}

/// With at least `MAX_ATTEMPTS` candidates, no free code is found exactly
/// when the first `MAX_ATTEMPTS` candidates are all taken: the allocation is
/// exhausted after `MAX_ATTEMPTS` collisions in a row, and not before.
pub proof fn law_exhausted_after_max_attempts(
    contents: Map<Seq<char>, Seq<char>>,
    candidates: Seq<Seq<char>>,
)
    requires
        candidates.len() >= MAX_ATTEMPTS,
    ensures
        !finds_free(contents, candidates) <==> (forall|j: int|
            0 <= j < MAX_ATTEMPTS ==> contents.contains_key(#[trigger] candidates[j])),
        !finds_free(contents, candidates) <==> collisions(contents, candidates) == MAX_ATTEMPTS,
{
    lemma_collisions_range(contents, candidates, 0);
    if forall|j: int| 0 <= j < MAX_ATTEMPTS ==> contents.contains_key(#[trigger] candidates[j]) {
        lemma_collisions_split(contents, candidates, MAX_ATTEMPTS as int);
    }
}

/// A code that an allocation stored resolves to the URL it was stored for,
/// whatever the URL and whatever the mapping held before.
pub proof fn law_stored_code_resolves(
    contents: Map<Seq<char>, Seq<char>>,
    candidates: Seq<Seq<char>>,
    target_url: Seq<char>,
)
    requires
        finds_free(contents, candidates),
    ensures
        ({
            let code = candidates[collisions(contents, candidates)];
            &&& lookup(contents, code) is None
            &&& lookup(contents.insert(code, target_url), code) == Some(target_url)
        }),
{
    lemma_collisions_range(contents, candidates, 0);
}

/// Tries the candidates in order until one is stored as the code of
/// `target_url`. A taken candidate leads to the next one, at most
/// `MAX_ATTEMPTS` times; any other failure of the backend ends the
/// allocation at once.
pub fn allocate_from<S: Storage>(
    store: &mut S,
    candidates: &Vec<String>,
    target_url: &str,
) -> (allocated: Result<String, AllocationError>)
    ensures
        final(store).exact() == old(store).exact(),
        allocated matches Ok(code) ==> exists|i: int|
            0 <= i < attempt_bound(candidates@.len()) && code@ == (#[trigger] candidates@[i])@,
        old(store).exact() ==> match allocated {
            Ok(code) => {
                &&& finds_free(old(store).contents(), texts(candidates@))
                &&& code@ == candidates@[collisions(
                    old(store).contents(),
                    texts(candidates@),
                )]@
                &&& !old(store).contents().contains_key(code@)
                &&& final(store).contents() == old(store).contents().insert(code@, target_url@)
            },
            Err(AllocationError::Exhausted) => {
                &&& !finds_free(old(store).contents(), texts(candidates@))
                &&& final(store).contents() == old(store).contents()
            },
            Err(AllocationError::Backend) => false,
        },
{
    let bound: usize = if candidates.len() < MAX_ATTEMPTS {
        candidates.len()
    } else {
        MAX_ATTEMPTS
    };
    let ghost before = store.contents();
    let ghost codes = texts(candidates@);
    if bound == 0 {
        proof {
            law_collisions_counted(before, codes, 0);
        }
        return Err(AllocationError::Exhausted);
    }
    let mut tried: usize = 0;
    loop
        invariant
            tried < bound,
            bound == attempt_bound(candidates@.len()),
            bound <= candidates@.len(),
            codes == texts(candidates@),
            before == old(store).contents(),
            store.exact() == old(store).exact(),
            store.exact() ==> store.contents() == before,
            store.exact() ==> forall|j: int|
                0 <= j < tried ==> before.contains_key(#[trigger] codes[j]),
        decreases bound - tried,
    {
        let candidate: &String = &candidates[tried];
        assert(codes[tried as int] == candidate@);
        let answer = store.set(candidate.as_str(), target_url);
        match judge(&answer, tried + 1, bound) {
            Verdict::Stored => {
                proof {
                    if old(store).exact() {
                        law_collisions_counted(before, codes, tried as int);
                    }
                }
                return Ok(candidate.clone());
            },
            Verdict::Retry => {
                tried = tried + 1;
            },
            Verdict::GiveUp(error) => {
                proof {
                    if old(store).exact() {
                        law_collisions_counted(before, codes, tried + 1);
                    }
                }
                return Err(error);
            },
        }
    }
}

/// Allocates a fresh random code for `target_url`. A code is generated and
/// written; where it meets a taken key a new one is generated and tried, up
/// to `MAX_ATTEMPTS` codes in all. Any other failure of the backend ends the
/// allocation at once.
pub fn allocate<S: Storage>(store: &mut S, target_url: &str) -> (allocated: Result<String, AllocationError>)
    ensures
        final(store).exact() == old(store).exact(),
        allocated matches Ok(code) ==> is_code(code@),
        old(store).exact() && (forall|code: Seq<char>|
            is_code(code) ==> !old(store).contents().contains_key(code)) ==> allocated is Ok,
        old(store).exact() ==> match allocated {
            Ok(code) => {
                &&& !old(store).contents().contains_key(code@)
                &&& final(store).contents() == old(store).contents().insert(code@, target_url@)
            },
            Err(AllocationError::Exhausted) => {
                &&& final(store).contents() == old(store).contents()
                &&& exists|tried: Seq<Seq<char>>|
                    #![trigger tried.len()]
                    tried.len() == MAX_ATTEMPTS && forall|j: int|
                        0 <= j < tried.len() ==> is_code(#[trigger] tried[j])
                            && old(store).contents().contains_key(tried[j])
            },
            Err(AllocationError::Backend) => false,
        },
{
    let ghost before = store.contents();
    let ghost mut taken: Seq<Seq<char>> = Seq::empty();
    let mut tried: usize = 0;
    loop
        invariant
            tried < MAX_ATTEMPTS,
            before == old(store).contents(),
            store.exact() == old(store).exact(),
            store.exact() ==> store.contents() == before,
            taken.len() == tried,
            store.exact() ==> forall|j: int|
                0 <= j < taken.len() ==> is_code(#[trigger] taken[j]) && before.contains_key(
                    taken[j],
                ),
        decreases MAX_ATTEMPTS - tried,
    {
        let code: String = generate_id();
        let answer = store.set(code.as_str(), target_url);
        match judge(&answer, tried + 1, MAX_ATTEMPTS) {
            Verdict::Stored => {
                return Ok(code);
            },
            Verdict::Retry => {
                proof {
                    taken = taken.push(code@);
                }
                tried = tried + 1;
            },
            Verdict::GiveUp(error) => {
                proof {
                    taken = taken.push(code@);
                    assert(old(store).exact() ==> taken.len() == MAX_ATTEMPTS);
                }
                return Err(error);
            },
        }
    }
}

} // verus!
