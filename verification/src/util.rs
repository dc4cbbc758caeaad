//! Die-pool rolling and small helpers shared by the combat modules.
use rand::Rng;
use vstd::prelude::*;

verus! {

/// Successes contributed by a single die face: 7-9 count one, 10 counts two.
pub open spec fn die_success_value(d: int) -> int {
    if d == 10 {
        2
    } else if 7 <= d <= 9 {
        1
    } else {
        0
    }
}

/// A die face of 1 is a botch.
pub open spec fn die_is_botch(d: int) -> bool {
    d == 1
}

/// Total successes over a pool of die faces.
pub open spec fn pool_successes(s: Seq<i32>) -> int
    decreases s.len(),
{
    if s.len() == 0 {
        0
    } else {
        pool_successes(s.drop_last()) + die_success_value(s.last() as int)
    }
}

/// Total botches over a pool of die faces.
pub open spec fn pool_botches(s: Seq<i32>) -> int
    decreases s.len(),
{
    if s.len() == 0 {
        0
    } else {
        pool_botches(s.drop_last()) + if die_is_botch(s.last() as int) {
            1int
        } else {
            0int
        }
    }
}

/// The outcome of a rolled pool: the success total when positive, otherwise
/// the negated botch count.
pub open spec fn pool_result(s: Seq<i32>) -> int {
    if pool_successes(s) > 0 {
        pool_successes(s)
    } else {
        -pool_botches(s)
    }
}

pub proof fn lemma_pool_bounds(s: Seq<i32>)
    ensures
        0 <= pool_successes(s) <= 2 * s.len(),
        0 <= pool_botches(s) <= s.len(),
    decreases s.len(),
{
    if s.len() > 0 {
        lemma_pool_bounds(s.drop_last());
    }
}

/// Relies on rand::thread_rng and rand::Rng::gen_range: a draw from the
/// non-empty inclusive range 1..=10 lies within that range.
#[verifier::external_body]
fn roll_d10() -> (r: i32)
    ensures
        1 <= r <= 10,
{
    rand::thread_rng().gen_range(1..=10)
}

/// Score a pool of already-drawn die faces.
pub fn score_pool(draws: &Vec<i32>) -> (r: i32)
    requires
        2 * draws@.len() <= i32::MAX,
    ensures
        r == pool_result(draws@),
{
    let mut successes: i32 = 0;
    let mut botches: i32 = 0;
    let mut i: usize = 0;
    while i < draws.len()
        invariant
            0 <= i <= draws@.len(),
            2 * draws@.len() <= i32::MAX,
            successes == pool_successes(draws@.take(i as int)),
            botches == pool_botches(draws@.take(i as int)),
        decreases draws@.len() - i,
    {
        proof {
            lemma_pool_bounds(draws@.take(i as int));
            assert(draws@.take(i + 1).drop_last() =~= draws@.take(i as int));
            assert(draws@.take(i + 1).last() == draws@[i as int]);
        }
        let d = draws[i];
        if d == 10 {
            successes = successes + 2;
        } else if 7 <= d && d <= 9 {
            successes = successes + 1;
        } else if d == 1 {
            botches = botches + 1;
        }
        i = i + 1;
    }
    proof {
        assert(draws@.take(draws@.len() as int) =~= draws@);
        lemma_pool_bounds(draws@);
    }
    if successes > 0 {
        successes
    } else {
        -botches
    }
}

/// Roll `count` ten-sided dice and score the pool; a non-positive count rolls
/// nothing and scores zero.
pub fn roll_dice(count: i32) -> (r: i32)
    requires
        count > 0 ==> 2 * count <= i32::MAX,
    ensures
        count <= 0 ==> r == 0,
        count > 0 ==> -count <= r <= 2 * count,
        exists|draws: Seq<i32>|
            {
                &&& draws.len() == (if count > 0 {
                    count as int
                } else {
                    0int
                })
                &&& (forall|k: int| 0 <= k < draws.len() ==> 1 <= #[trigger] draws[k] <= 10)
                &&& r == pool_result(draws)
            },
{
    let mut draws: Vec<i32> = Vec::new();
    let mut i: i32 = 0;
    while i < count
        invariant
            0 <= i,
            count > 0 ==> i <= count,
            count <= 0 ==> i == 0,
            draws@.len() == i,
            forall|k: int| 0 <= k < draws@.len() ==> 1 <= #[trigger] draws@[k] <= 10,
        decreases count - i,
    {
        let d = roll_d10();
        draws.push(d);
        i = i + 1;
    }
    proof {
        lemma_pool_bounds(draws@);
    }
    score_pool(&draws)
}

/// Relies on char::from_u32: yields the character with the given code point
/// exactly when the code is a Unicode scalar value, that is, not a surrogate
/// and at most 0x10FFFF.
#[verifier::external_body]
pub(crate) fn char_from_u32(code: u32) -> (r: Option<char>)
    ensures
        (r is Some) == (code < 0xD800 || (0xDFFF < code && code <= 0x10FFFF)),
        r matches Some(c) ==> c as u32 == code,
{
    char::from_u32(code)
}

/// Relies on str's PartialEq: two string slices compare equal exactly when
/// their character sequences are equal.
#[verifier::external_body]
pub(crate) fn str_eq(a: &str, b: &str) -> (r: bool)
    ensures
        r == (a@ == b@),
{
    a == b
}

} // verus!
