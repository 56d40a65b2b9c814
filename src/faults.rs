use crate::random::{get_random_from_range, Range};
use vstd::prelude::*;

verus! {

/// The catalog of simulated error codes and how many of them one request returns.
#[derive(Debug)]
pub struct ErrorCodeConfig {
    pub error_codes: Vec<u16>,
    pub error_count_range: Range,
}

/// How many codes are returned for a drawn count `sampled` when `available`
/// codes exist: the count, clamped to `[0, available]`.
pub open spec fn clamped_count(sampled: int, available: int) -> int {
    if sampled <= 0 {
        0
    } else if sampled <= available {
        sampled
    } else {
        available
    }
}

/// `picked` is a possible answer for the catalog `codes` with the count range
/// `count_range`: its length is the clamp of some count in the range, and it takes
/// each code of the catalog at most as often as the catalog holds it.
pub open spec fn is_error_sample(codes: Seq<u16>, count_range: Range, picked: Seq<u16>) -> bool {
    &&& exists|c: int|
        count_range.contains(c) && picked.len() == #[trigger] clamped_count(c, codes.len() as int)
    &&& picked.to_multiset().subset_of(codes.to_multiset())
}

/// Clamps a drawn count to the number of codes available, and to zero from below.
pub fn error_count(sampled: i32, available: usize) -> (r: usize)
    ensures
        r == clamped_count(sampled as int, available as int),
{
    if sampled <= 0 {
        0
    } else if (sampled as u32 as u64) <= (available as u64) {
        sampled as usize
    } else {
        available
    }
}

/// Relies on `rand::seq::IteratorRandom::choose_multiple`: a reservoir sample of
/// `amount` items of `codes`, each position of `codes` taken at most once, in no
/// promised order. The length is `amount` as the catalog holds enough items.
#[verifier::external_body]
fn choose_codes(rng: &mut rand::rngs::ThreadRng, codes: &Vec<u16>, amount: usize) -> (r: Vec<u16>)
    requires
        amount <= codes@.len(),
    ensures
        r@.len() == amount,
        r@.to_multiset().subset_of(codes@.to_multiset()),
{
    rand::seq::IteratorRandom::choose_multiple(codes.iter().cloned(), rng, amount)
}

/// Draws a count from the configured range, clamps it to the catalog's size, and
/// returns that many codes of the catalog, drawn without replacement.
pub fn get_errors(error_config: &ErrorCodeConfig, rng: &mut rand::rngs::ThreadRng) -> (r: Vec<u16>)
    requires
        error_config.error_count_range.wf(),
    ensures
        is_error_sample(error_config.error_codes@, error_config.error_count_range, r@),
{
    let sampled = get_random_from_range(rng, error_config.error_count_range);
    let count = error_count(sampled, error_config.error_codes.len());
    let r = choose_codes(rng, &error_config.error_codes, count);
    assert(error_config.error_count_range.contains(sampled as int) && r@.len() == clamped_count(
        sampled as int,
        error_config.error_codes@.len() as int,
    ));
    r
}

/// An answer for a catalog without repeated codes repeats no code, takes only
/// codes of the catalog, and is no longer than the catalog or the largest count
/// of the range.
pub proof fn lemma_error_sample_distinct(codes: Seq<u16>, count_range: Range, picked: Seq<u16>)
    requires
        codes.no_duplicates(),
        is_error_sample(codes, count_range, picked),
    ensures
        picked.no_duplicates(),
        forall|i: int| 0 <= i < picked.len() ==> codes.contains(#[trigger] picked[i]),
        picked.len() <= codes.len(),
        picked.len() == 0 || picked.len() <= count_range.max,
{
    broadcast use vstd::seq_lib::group_to_multiset_ensures;

    codes.lemma_multiset_has_no_duplicates();
    assert forall|x: u16| picked.to_multiset().contains(x) implies picked.to_multiset().count(x)
        == 1 by {
        assert(codes.to_multiset().count(x) >= picked.to_multiset().count(x));
    }
    picked.lemma_multiset_has_no_duplicates_conv();
    assert forall|i: int| 0 <= i < picked.len() implies codes.contains(#[trigger] picked[i]) by {
        assert(picked.to_multiset().count(picked[i]) > 0);
        assert(codes.to_multiset().count(picked[i]) > 0);
    }
    let c = choose|c: int|
        count_range.contains(c) && picked.len() == #[trigger] clamped_count(c, codes.len() as int);
}

/// Where every count of the range reaches the catalog's size, an answer holds
/// each code exactly as often as the catalog does, whatever its order.
pub proof fn lemma_error_sample_whole_catalog(codes: Seq<u16>, count_range: Range, picked: Seq<u16>)
    requires
        is_error_sample(codes, count_range, picked),
        count_range.min >= codes.len(),
    ensures
        picked.to_multiset() == codes.to_multiset(),
{
    broadcast use vstd::seq_lib::group_to_multiset_ensures;
    broadcast use vstd::multiset::group_multiset_axioms;

    let c = choose|c: int|
        count_range.contains(c) && picked.len() == #[trigger] clamped_count(c, codes.len() as int);
    assert(picked.len() == codes.len());
    let rest = codes.to_multiset().sub(picked.to_multiset());
    assert(rest.len() == 0);
    vstd::multiset::lemma_multiset_empty_len(rest);
    assert forall|v: u16| picked.to_multiset().count(v) == codes.to_multiset().count(v) by {
        assert(rest.count(v) == 0);
    }
    assert(picked.to_multiset() =~= codes.to_multiset());
}

} // verus!
