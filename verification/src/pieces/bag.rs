//! 7-bag tetromino generator.
//!
//! Each "bag" is one shuffled copy of all 7 tetrominoes. When a bag is empty,
//! a fresh shuffled bag is queued. Drawing a whole bag from a bag boundary
//! gives each kind exactly once, removing pathological dry spells that
//! uniform random would allow.
use vstd::prelude::*;

use rand::rngs::StdRng;
use rand::seq::SliceRandom;
use rand::SeedableRng;

use super::tetromino::{TetrominoKind, all_kinds, lemma_all_kinds_complete};

verus! {

broadcast use vstd::seq_lib::group_to_multiset_ensures;

#[verifier::external_type_specification]
#[verifier::external_body]
pub struct ExStdRng(StdRng);

/// Calls `StdRng::try_from_os_rng` (trait `rand::SeedableRng`), which seeds a
/// generator from operating-system entropy, and turns its error into `None`.
/// The generator depends on the entropy drawn, so nothing is stated of it,
/// nor of when the operating system fails to supply entropy.
#[verifier::external_body]
fn rng_from_os() -> Option<StdRng> {
    StdRng::try_from_os_rng().ok()
}

/// The generator `StdRng::seed_from_u64` builds from `seed`.
pub uninterp spec fn seeded_rng(seed: u64) -> StdRng;

/// What `SliceRandom::shuffle` leaves behind when it shuffles `kinds` with
/// the generator `rng`: the shuffled sequence and the generator's new state.
pub uninterp spec fn shuffle_outcome(kinds: Seq<TetrominoKind>, rng: StdRng) -> (
    Seq<TetrominoKind>,
    StdRng,
);

/// Calls `StdRng::seed_from_u64` (trait `rand::SeedableRng`). The contract
/// claims only that the generator is a function of the seed: the default
/// method expands the seed with PCG32 integer arithmetic and hands the bytes
/// to `StdRng::from_seed`, so equal seeds give equal generators. The
/// generator's internal state is not stated.
#[verifier::external_body]
fn rng_from_seed(seed: u64) -> (rng: StdRng)
    ensures
        rng == seeded_rng(seed),
{
    StdRng::seed_from_u64(seed)
}

/// Calls `SliceRandom::shuffle` on the seven kinds. The shuffle performs
/// swaps only, so the result is a permutation of the input. Which permutation,
/// and the generator's state afterwards, are a function of the input and of
/// the generator's state before the call (the shuffle draws its indices from
/// the generator with `u32` arithmetic only); they are named, not stated. On a
/// seven-element slice it only draws bounded indices and swaps in range, so
/// it does not panic.
#[verifier::external_body]
fn shuffle_kinds(kinds: &mut [TetrominoKind; 7], rng: &mut StdRng)
    ensures
        final(kinds)@.to_multiset() == old(kinds)@.to_multiset(),
        (final(kinds)@, *final(rng)) == shuffle_outcome(old(kinds)@, *old(rng)),
    no_unwind
{
    kinds.shuffle(rng);
}

/// The bag that a generator in state `g` deals: all seven kinds, shuffled.
pub open spec fn fresh_bag(g: StdRng) -> Seq<TetrominoKind> {
    shuffle_outcome(all_kinds(), g).0
}

/// The state of a generator in state `g` after it has dealt one bag.
pub open spec fn generator_after_bag(g: StdRng) -> StdRng {
    shuffle_outcome(all_kinds(), g).1
}

/// One draw from queue `q` with generator `g`: the piece drawn, the queue
/// left and the generator afterwards. An empty queue first takes the bag the
/// generator deals.
pub open spec fn next_draw(q: Seq<TetrominoKind>, g: StdRng) -> (
    TetrominoKind,
    Seq<TetrominoKind>,
    StdRng,
) {
    if q.len() > 0 {
        (q[0], q.drop_first(), g)
    } else {
        let b = fresh_bag(g);
        (b[0], b.drop_first(), generator_after_bag(g))
    }
}

/// `s` holds each of the seven kinds exactly once, in some order.
pub open spec fn is_full_bag(s: Seq<TetrominoKind>) -> bool {
    s.to_multiset() == all_kinds().to_multiset()
}

/// `t` is what is left of some full bag after drawing its first pieces.
pub open spec fn is_bag_tail(t: Seq<TetrominoKind>) -> bool {
    exists|b: Seq<TetrominoKind>| is_full_bag(b) && t.len() <= 7 && #[trigger] b.skip(7 - t.len()) == t
}

/// `s` is a concatenation of full bags.
pub open spec fn is_bag_sequence(s: Seq<TetrominoKind>) -> bool
    decreases s.len(),
{
    if s.len() == 0 {
        true
    } else if s.len() < 7 {
        false
    } else {
        is_full_bag(s.take(7)) && is_bag_sequence(s.skip(7))
    }
}

/// A queue of upcoming pieces: the rest of the current bag, followed by
/// whole bags. The length modulo 7 is how many pieces of the current bag are
/// left, so the queue sits on a bag boundary exactly when that is 0.
pub open spec fn queue_wf(q: Seq<TetrominoKind>) -> bool {
    let r = q.len() % 7;
    is_bag_tail(q.take(r as int)) && is_bag_sequence(q.skip(r as int))
}

/// One draw: `drawn` is taken from the front of `before`, leaving `after`;
/// an empty queue is first refilled with a freshly shuffled full bag.
pub open spec fn draw_step(
    before: Seq<TetrominoKind>,
    drawn: TetrominoKind,
    after: Seq<TetrominoKind>,
) -> bool {
    if before.len() > 0 {
        drawn == before[0] && after == before.drop_first()
    } else {
        exists|b: Seq<TetrominoKind>|
            is_full_bag(b) && drawn == #[trigger] b[0] && after == b.drop_first()
    }
}

/// `after` is `before` with one piece, `kind`, drawn: the front of the queue,
/// or, from an empty queue, the first piece of the bag the generator deals.
pub open spec fn drew(before: SevenBag, kind: TetrominoKind, after: SevenBag) -> bool {
    &&& draw_step(before@, kind, after@)
    &&& (kind, after@, after.generator()) == next_draw(before@, before.generator())
}

/// Queue and generator after dealing bags onto queue `q` with generator `g`,
/// at most `n` times, as long as the queue is shorter than `count`.
pub open spec fn refilled(q: Seq<TetrominoKind>, g: StdRng, count: nat, n: nat) -> (
    Seq<TetrominoKind>,
    StdRng,
)
    decreases n,
{
    if n == 0 {
        (q, g)
    } else {
        let (q1, g1) = refilled(q, g, count, (n - 1) as nat);
        if q1.len() >= count {
            (q1, g1)
        } else {
            (q1 + fresh_bag(g1), generator_after_bag(g1))
        }
    }
}

/// Every bag dealt along `refilled(q, g, count, n)` is a full bag.
pub open spec fn refills_full(q: Seq<TetrominoKind>, g: StdRng, count: nat, n: nat) -> bool
    decreases n,
{
    if n == 0 {
        true
    } else {
        let (q1, g1) = refilled(q, g, count, (n - 1) as nat);
        &&& refills_full(q, g, count, (n - 1) as nat)
        &&& (q1.len() >= count || is_full_bag(fresh_bag(g1)))
    }
}

/// The pieces that `n` successive draws give from queue `q` with generator `g`.
pub open spec fn draw_run(q: Seq<TetrominoKind>, g: StdRng, n: nat) -> Seq<TetrominoKind>
    decreases n,
{
    if n == 0 {
        Seq::empty()
    } else {
        let (k, q2, g2) = next_draw(q, g);
        seq![k] + draw_run(q2, g2, (n - 1) as nat)
    }
}

/// The pieces that successive draws give are determined by the queue and the
/// generator the bag starts with: any run of draws that follows `next_draw`
/// yields `draw_run` of its first state. Two bags made from the same seed
/// start in the same state, so they deal the same sequence.
pub proof fn lemma_draws_determined(
    states: Seq<(Seq<TetrominoKind>, StdRng)>,
    items: Seq<TetrominoKind>,
)
    requires
        states.len() == items.len() + 1,
        forall|i: int|
            0 <= i < items.len() ==> (items[i], states[i + 1].0, states[i + 1].1) == next_draw(
                #[trigger] states[i].0,
                states[i].1,
            ),
    ensures
        items == draw_run(states[0].0, states[0].1, items.len()),
    decreases items.len(),
{
    if items.len() > 0 {
        let n = items.len() as int;
        let s2 = states.subrange(1, states.len() as int);
        let i2 = items.subrange(1, n);
        assert forall|i: int| 0 <= i < i2.len() implies (i2[i], s2[i + 1].0, s2[i + 1].1)
            == next_draw(#[trigger] s2[i].0, s2[i].1) by {
            assert(states[i + 1].0 == s2[i].0);
        }
        lemma_draws_determined(s2, i2);
        assert(items =~= seq![items[0]] + i2);
    }
}

/// A full bag has seven pieces, no two alike, and contains every kind.
pub proof fn lemma_full_bag_facts(b: Seq<TetrominoKind>)
    requires
        is_full_bag(b),
    ensures
        b.len() == 7,
        b.no_duplicates(),
        forall|k: TetrominoKind| b.contains(k),
{
    lemma_all_kinds_complete();
    let m = all_kinds().to_multiset();
    all_kinds().lemma_multiset_has_no_duplicates();
    assert(b.len() == b.to_multiset().len());
    assert(all_kinds().len() == m.len());
    b.lemma_multiset_has_no_duplicates_conv();
    assert forall|k: TetrominoKind| b.contains(k) by {
        assert(all_kinds().contains(k));
        assert(m.count(k) > 0);
    }
}

proof fn lemma_bag_sequence_len(s: Seq<TetrominoKind>)
    requires
        is_bag_sequence(s),
    ensures
        s.len() % 7 == 0,
    decreases s.len(),
{
    if s.len() > 0 {
        lemma_bag_sequence_len(s.skip(7));
    }
}

proof fn lemma_bag_sequence_append(s: Seq<TetrominoKind>, b: Seq<TetrominoKind>)
    requires
        is_bag_sequence(s),
        is_full_bag(b),
    ensures
        is_bag_sequence(s + b),
    decreases s.len(),
{
    lemma_full_bag_facts(b);
    if s.len() == 0 {
        assert(s + b =~= b);
        assert(b.take(7) =~= b);
        assert(b.skip(7) =~= Seq::<TetrominoKind>::empty());
        assert(is_bag_sequence(b.skip(7)));
        assert(is_bag_sequence(b));
    } else {
        assert(s.len() >= 7);
        assert(is_full_bag(s.take(7)));
        assert(is_bag_sequence(s.skip(7)));
        lemma_bag_sequence_append(s.skip(7), b);
        assert((s + b).take(7) =~= s.take(7));
        assert((s + b).skip(7) =~= s.skip(7) + b);
        assert(is_bag_sequence((s + b).skip(7)));
    }
}

proof fn lemma_queue_wf_append(q: Seq<TetrominoKind>, b: Seq<TetrominoKind>)
    requires
        queue_wf(q),
        is_full_bag(b),
    ensures
        queue_wf(q + b),
{
    lemma_full_bag_facts(b);
    let r = q.len() % 7;
    assert((q + b).len() % 7 == r);
    assert((q + b).take(r as int) =~= q.take(r as int));
    assert((q + b).skip(r as int) =~= q.skip(r as int) + b);
    lemma_bag_sequence_append(q.skip(r as int), b);
}

proof fn lemma_queue_wf_drop_first(q: Seq<TetrominoKind>)
    requires
        queue_wf(q),
        q.len() > 0,
    ensures
        queue_wf(q.drop_first()),
{
    let r = q.len() % 7;
    let q2 = q.drop_first();
    let t = q.take(r as int);
    if r > 0 {
        assert(q2.len() % 7 == r - 1);
        let b = choose|b: Seq<TetrominoKind>|
            is_full_bag(b) && t.len() <= 7 && #[trigger] b.skip(7 - t.len()) == t;
        lemma_full_bag_facts(b);
        assert(q2.take(r - 1) =~= t.drop_first());
        assert(b.skip(7 - (r - 1)) =~= b.skip(7 - r).drop_first());
        assert(is_bag_tail(q2.take(r - 1)));
        assert(q2.skip(r - 1) =~= q.skip(r as int));
    } else {
        let s = q.skip(0);
        assert(s =~= q);
        assert(q.len() >= 7);
        let b = q.take(7);
        lemma_full_bag_facts(b);
        assert(q2.len() % 7 == 6);
        assert(q2.take(6) =~= b.skip(1));
        assert(b.skip(7 - 6) == q2.take(6));
        assert(is_bag_tail(q2.take(6)));
        assert(q2.skip(6) =~= q.skip(7));
    }
}

proof fn lemma_queue_wf_full_bag(b: Seq<TetrominoKind>)
    requires
        is_full_bag(b),
    ensures
        queue_wf(b),
{
    lemma_full_bag_facts(b);
    let e = Seq::<TetrominoKind>::empty();
    lemma_queue_wf_empty();
    lemma_queue_wf_append(e, b);
    assert(e + b =~= b);
}

proof fn lemma_queue_wf_empty()
    ensures
        queue_wf(Seq::<TetrominoKind>::empty()),
{
    let e = Seq::<TetrominoKind>::empty();
    lemma_all_kinds_complete();
    assert(all_kinds().skip(7) =~= e.take(0));
    assert(is_full_bag(all_kinds()));
    let t = e.take(0);
    assert(t.len() == 0);
    assert(all_kinds().skip(7 - t.len()) == t);
    assert(is_bag_tail(t));
    assert(e.skip(0) =~= e);
}

/// Drawing from a queue that already holds enough pieces yields its front,
/// in order: `n` draws give the first `n` queued pieces.
pub proof fn lemma_draws_follow_queue(states: Seq<Seq<TetrominoKind>>, items: Seq<TetrominoKind>)
    requires
        states.len() == items.len() + 1,
        states[0].len() >= items.len(),
        forall|i: int|
            0 <= i < items.len() ==> draw_step(#[trigger] states[i], items[i], states[i + 1]),
    ensures
        items == states[0].take(items.len() as int),
    decreases items.len(),
{
    if items.len() > 0 {
        let n = items.len() as int;
        let s2 = states.subrange(1, states.len() as int);
        let i2 = items.subrange(1, n);
        assert(draw_step(states[0], items[0], states[1]));
        assert forall|i: int| 0 <= i < i2.len() implies draw_step(
            #[trigger] s2[i],
            i2[i],
            s2[i + 1],
        ) by {
            assert(draw_step(states[i + 1], items[i + 1], states[i + 2]));
        }
        lemma_draws_follow_queue(s2, i2);
        assert(items =~= seq![items[0]] + i2);
        assert(states[0].take(n) =~= seq![states[0][0]] + states[0].drop_first().take(n - 1));
    }
}

/// Seven consecutive draws starting on a bag boundary give each kind exactly once.
pub proof fn lemma_seven_draws_from_boundary(
    states: Seq<Seq<TetrominoKind>>,
    items: Seq<TetrominoKind>,
)
    requires
        states.len() == 8,
        items.len() == 7,
        queue_wf(states[0]),
        states[0].len() % 7 == 0,
        forall|i: int| 0 <= i < 7 ==> draw_step(#[trigger] states[i], items[i], states[i + 1]),
    ensures
        items.no_duplicates(),
        forall|k: TetrominoKind| items.contains(k),
{
    let q = states[0];
    if q.len() == 0 {
        assert(draw_step(states[0], items[0], states[1]));
        let b = choose|b: Seq<TetrominoKind>|
            is_full_bag(b) && items[0] == #[trigger] b[0] && states[1] == b.drop_first();
        lemma_full_bag_facts(b);
        let s2 = states.subrange(1, 8);
        let i2 = items.subrange(1, 7);
        assert forall|i: int| 0 <= i < i2.len() implies draw_step(
            #[trigger] s2[i],
            i2[i],
            s2[i + 1],
        ) by {
            assert(draw_step(states[i + 1], items[i + 1], states[i + 2]));
        }
        lemma_draws_follow_queue(s2, i2);
        assert(items =~= b);
    } else {
        assert(q.skip(0) =~= q);
        assert(q.len() >= 7);
        lemma_draws_follow_queue(states, items);
        lemma_full_bag_facts(q.take(7));
    }
}

/// Dealing one bag onto the queue leaves every later draw as it was: the
/// bag is the one an empty queue would have taken anyway.
pub proof fn lemma_dealt_bag_keeps_draws(q: Seq<TetrominoKind>, g: StdRng, m: nat)
    requires
        is_full_bag(fresh_bag(g)),
    ensures
        draw_run(q + fresh_bag(g), generator_after_bag(g), m) == draw_run(q, g, m),
    decreases m, q.len(),
{
    let b = fresh_bag(g);
    lemma_full_bag_facts(b);
    if m > 0 {
        if q.len() > 0 {
            assert((q + b)[0] == q[0]);
            assert((q + b).drop_first() =~= q.drop_first() + b);
            lemma_dealt_bag_keeps_draws(q.drop_first(), g, (m - 1) as nat);
        } else {
            assert(q + b =~= b);
        }
    }
}

/// Peeking deals bags onto the queue without changing any later draw: from
/// the queue and generator a peek leaves behind, every run of draws gives
/// the same pieces as it would have without the peek.
pub proof fn lemma_refills_keep_draws(q: Seq<TetrominoKind>, g: StdRng, count: nat, n: nat, m: nat)
    requires
        refills_full(q, g, count, n),
    ensures
        draw_run(refilled(q, g, count, n).0, refilled(q, g, count, n).1, m) == draw_run(q, g, m),
    decreases n,
{
    if n > 0 {
        lemma_refills_keep_draws(q, g, count, (n - 1) as nat, m);
        let (q1, g1) = refilled(q, g, count, (n - 1) as nat);
        if q1.len() < count {
            lemma_dealt_bag_keeps_draws(q1, g1, m);
        }
    }
}

/// `after` is `before` with whole bags dealt onto its end, as a peek leaves it.
pub open spec fn appended_bags(before: Seq<TetrominoKind>, after: Seq<TetrominoKind>) -> bool {
    &&& before.is_prefix_of(after)
    &&& is_bag_sequence(after.skip(before.len() as int))
}

proof fn lemma_bag_sequence_concat(s: Seq<TetrominoKind>, t: Seq<TetrominoKind>)
    requires
        is_bag_sequence(s),
        is_bag_sequence(t),
    ensures
        is_bag_sequence(s + t),
    decreases s.len(),
{
    if s.len() == 0 {
        assert(s + t =~= t);
    } else {
        lemma_bag_sequence_concat(s.skip(7), t);
        assert((s + t).take(7) =~= s.take(7));
        assert((s + t).skip(7) =~= s.skip(7) + t);
    }
}

/// Peeks compose: dealing whole bags onto a queue and then dealing more
/// whole bags onto the result is again dealing whole bags onto the queue, so
/// any number of `peek` and `peek_next` calls between two draws count as one.
pub proof fn lemma_appended_bags_compose(
    a: Seq<TetrominoKind>,
    b: Seq<TetrominoKind>,
    c: Seq<TetrominoKind>,
)
    requires
        appended_bags(a, b),
        appended_bags(b, c),
    ensures
        appended_bags(a, c),
{
    let x = b.skip(a.len() as int);
    let y = c.skip(b.len() as int);
    assert(c.skip(a.len() as int) =~= x + y);
    lemma_bag_sequence_concat(x, y);
    assert(a =~= c.subrange(0, a.len() as int));
}

/// Zero peeks: a queue counts as itself with no bags dealt onto it.
pub proof fn lemma_appended_bags_none(a: Seq<TetrominoKind>)
    ensures
        appended_bags(a, a),
{
    assert(a.skip(a.len() as int) =~= Seq::<TetrominoKind>::empty());
    assert(a =~= a.subrange(0, a.len() as int));
}

/// A record of draws from a bag: `items[i]` was drawn from queue `before[i]`,
/// leaving `after[i]`; between two draws, peeks only dealt whole bags; the
/// first draw starts on a bag boundary, as every new bag does.
pub open spec fn draw_history(
    before: Seq<Seq<TetrominoKind>>,
    after: Seq<Seq<TetrominoKind>>,
    items: Seq<TetrominoKind>,
) -> bool {
    &&& before.len() == items.len()
    &&& after.len() == items.len()
    &&& items.len() > 0 ==> queue_wf(before[0]) && before[0].len() % 7 == 0
    &&& forall|i: int|
        0 <= i < items.len() ==> #[trigger] draw_step(before[i], items[i], after[i])
    &&& forall|i: int, j: int|
        0 <= i && j == i + 1 && j < items.len() ==> #[trigger] appended_bags(after[i], before[j])
}

proof fn lemma_queue_wf_append_bags(q: Seq<TetrominoKind>, s: Seq<TetrominoKind>)
    requires
        queue_wf(q),
        is_bag_sequence(s),
    ensures
        queue_wf(q + s),
        (q + s).len() % 7 == q.len() % 7,
    decreases s.len(),
{
    if s.len() == 0 {
        assert(q + s =~= q);
    } else {
        let b = s.take(7);
        lemma_full_bag_facts(b);
        lemma_queue_wf_append(q, b);
        lemma_queue_wf_append_bags(q + b, s.skip(7));
        assert((q + b) + s.skip(7) =~= q + s);
    }
}

/// Before draw `i` the queue is well formed and holds `7 - i mod 7` pieces of
/// the current bag (none when `i` is a multiple of seven).
proof fn lemma_history_aligned(
    before: Seq<Seq<TetrominoKind>>,
    after: Seq<Seq<TetrominoKind>>,
    items: Seq<TetrominoKind>,
    i: int,
)
    requires
        draw_history(before, after, items),
        0 <= i < items.len(),
    ensures
        queue_wf(before[i]),
        (before[i].len() + i) % 7 == 0,
    decreases i,
{
    if i > 0 {
        lemma_history_aligned(before, after, items, i - 1);
        assert(draw_step(before[i - 1], items[i - 1], after[i - 1]));
        assert(appended_bags(after[i - 1], before[i]));
        lemma_step_aligned(before[i - 1], items[i - 1], after[i - 1], before[i]);
        lemma_mod_step(before[i - 1].len() as int, before[i].len() as int, i);
    }
}

proof fn lemma_mod_step(a: int, b: int, i: int)
    requires
        a >= 0,
        b >= 0,
        i >= 1,
        (a + i - 1) % 7 == 0,
        (b + 1) % 7 == a % 7,
    ensures
        (b + i) % 7 == 0,
{
    assert((b + i) % 7 == 0) by (nonlinear_arith)
        requires
            a >= 0,
            b >= 0,
            i >= 1,
            (a + i - 1) % 7 == 0,
            (b + 1) % 7 == a % 7,
    ;
}

/// One draw followed by peeks keeps the queue well formed and takes one
/// piece off the current bag.
proof fn lemma_step_aligned(
    q: Seq<TetrominoKind>,
    item: TetrominoKind,
    a: Seq<TetrominoKind>,
    next: Seq<TetrominoKind>,
)
    requires
        queue_wf(q),
        draw_step(q, item, a),
        appended_bags(a, next),
    ensures
        queue_wf(next),
        (next.len() + 1) % 7 == q.len() % 7,
{
    if q.len() > 0 {
        lemma_queue_wf_drop_first(q);
        assert(a.len() + 1 == q.len());
    } else {
        let b = choose|b: Seq<TetrominoKind>|
            is_full_bag(b) && item == #[trigger] b[0] && a == b.drop_first();
        lemma_full_bag_facts(b);
        lemma_queue_wf_full_bag(b);
        lemma_queue_wf_drop_first(b);
        assert(a.len() == 6);
    }
    let s = next.skip(a.len() as int);
    lemma_queue_wf_append_bags(a, s);
    assert(a + s =~= next);
}

/// Within one bag's worth of draws starting at `start`, the draws follow the
/// bag `bag` in order.
proof fn lemma_block_follows_bag(
    before: Seq<Seq<TetrominoKind>>,
    after: Seq<Seq<TetrominoKind>>,
    items: Seq<TetrominoKind>,
    start: int,
    bag: Seq<TetrominoKind>,
    j: int,
)
    requires
        draw_history(before, after, items),
        0 <= start,
        start + 7 <= items.len(),
        bag.len() == 7,
        1 <= j <= 7,
        items[start] == bag[0],
        bag.skip(1).is_prefix_of(after[start]),
    ensures
        forall|t: int| 0 <= t < j ==> items[start + t] == bag[t],
        bag.skip(j).is_prefix_of(after[start + j - 1]),
    decreases j,
{
    if j > 1 {
        lemma_block_follows_bag(before, after, items, start, bag, j - 1);
        let i = start + j - 1;
        let rest = bag.skip(j - 1);
        assert(appended_bags(after[i - 1], before[i]));
        assert(rest.is_prefix_of(before[i])) by {
            assert forall|t: int| 0 <= t < rest.len() implies #[trigger] rest[t] == before[i][t] by {
                assert(rest[t] == after[i - 1][t]);
                assert(after[i - 1][t] == before[i][t]);
            }
            assert(rest =~= before[i].subrange(0, rest.len() as int));
        }
        assert(draw_step(before[i], items[i], after[i]));
        assert(before[i].len() >= rest.len());
        assert(before[i][0] == rest[0]);
        assert(after[i] == before[i].drop_first());
        assert(bag.skip(j).is_prefix_of(after[i])) by {
            assert forall|t: int| 0 <= t < 7 - j implies #[trigger] bag.skip(j)[t] == after[i][t] by {
                assert(bag.skip(j)[t] == rest[t + 1]);
                assert(rest[t + 1] == before[i][t + 1]);
            }
            assert(bag.skip(j) =~= after[i].subrange(0, 7 - j));
        }
    }
}

/// Every seven draws counted from a new bag are one of each kind, whatever
/// peeks happen between the draws: draws `7k` to `7k + 6` hold each kind
/// exactly once.
pub proof fn lemma_every_seven_draws_are_a_bag(
    before: Seq<Seq<TetrominoKind>>,
    after: Seq<Seq<TetrominoKind>>,
    items: Seq<TetrominoKind>,
    k: int,
)
    requires
        draw_history(before, after, items),
        0 <= k,
        7 * k + 7 <= items.len(),
    ensures
        items.subrange(7 * k, 7 * k + 7).no_duplicates(),
        forall|kind: TetrominoKind| #[trigger] items.subrange(7 * k, 7 * k + 7).contains(kind),
{
    let start = 7 * k;
    lemma_history_aligned(before, after, items, start);
    let q = before[start];
    assert(q.len() % 7 == 0);
    assert(draw_step(q, items[start], after[start]));
    let bag = if q.len() > 0 {
        q.take(7)
    } else {
        choose|b: Seq<TetrominoKind>|
            is_full_bag(b) && items[start] == #[trigger] b[0] && after[start] == b.drop_first()
    };
    if q.len() > 0 {
        assert(q.skip(0) =~= q);
        assert(q.len() >= 7);
        assert(bag.skip(1) =~= after[start].subrange(0, 6));
    } else {
        assert(bag.skip(1) =~= after[start]);
    }
    lemma_full_bag_facts(bag);
    lemma_block_follows_bag(before, after, items, start, bag, 7);
    assert(items.subrange(start, start + 7) =~= bag);
}

/// Seven-bag piece generator.
pub struct SevenBag {
    /// Pieces queued to be drawn next. Front of the queue (index 0) is the
    /// next piece.
    queue: Vec<TetrominoKind>,
    rng: StdRng,
}

impl View for SevenBag {
    type V = Seq<TetrominoKind>;

    /// The queued pieces, next piece first.
    closed spec fn view(&self) -> Seq<TetrominoKind> {
        self.queue@
    }
}

impl SevenBag {
    /// The queue is always the rest of the current bag followed by whole bags.
    #[verifier::type_invariant]
    spec fn queue_is_bags(self) -> bool {
        queue_wf(self.queue@)
    }

    /// The queue is the rest of the current bag followed by whole bags.
    pub open spec fn wf(&self) -> bool {
        queue_wf(self@)
    }

    /// The generator that deals the bags to come.
    pub closed spec fn generator(&self) -> StdRng {
        self.rng
    }

    /// Creates a bag seeded from system entropy, or `None` when the operating
    /// system cannot supply any.
    pub fn new() -> (bag: Option<SevenBag>)
        ensures
            bag matches Some(b) ==> b.wf() && is_full_bag(b@) && exists|g: StdRng|
                b@ == fresh_bag(g) && b.generator() == generator_after_bag(g),
    {
        match rng_from_os() {
            Some(rng) => Some(Self::from_rng(rng)),
            None => None,
        }
    }

    /// Creates a deterministic bag from a fixed seed.
    pub fn from_seed(seed: u64) -> (bag: SevenBag)
        ensures
            bag.wf(),
            is_full_bag(bag@),
            bag@ == fresh_bag(seeded_rng(seed)),
            bag.generator() == generator_after_bag(seeded_rng(seed)),
    {
        Self::from_rng(rng_from_seed(seed))
    }

    /// Creates a bag whose bags are dealt by `rng`.
    pub fn from_rng(rng: StdRng) -> (bag: SevenBag)
        ensures
            bag.wf(),
            is_full_bag(bag@),
            bag@ == fresh_bag(rng),
            bag.generator() == generator_after_bag(rng),
    {
        proof {
            lemma_queue_wf_empty();
        }
        let mut bag = SevenBag { queue: Vec::with_capacity(14), rng };
        bag.refill();
        assert(bag@ =~= Seq::<TetrominoKind>::empty() + bag@.skip(0));
        bag
    }

    /// Draws the next piece, refilling the underlying bag if needed.
    pub fn next(&mut self) -> (kind: TetrominoKind)
        ensures
            final(self).wf(),
            drew(*old(self), kind, *final(self)),
    {
        proof {
            use_type_invariant(&*self);
        }
        if self.queue.len() == 0 {
            self.refill();
            proof {
                assert(self@.skip(0) =~= self@);
                lemma_full_bag_facts(self@);
            }
        }
        let ghost filled = self@;
        proof {
            lemma_queue_wf_drop_first(self@);
            lemma_queue_wf_empty();
        }
        let mut queue: Vec<TetrominoKind> = Vec::new();
        std::mem::swap(&mut queue, &mut self.queue);
        let kind = queue.remove(0);
        self.queue = queue;
        proof {
            assert(self@ =~= filled.drop_first());
            if old(self)@.len() == 0 {
                assert(is_full_bag(filled) && kind == filled[0] && self@ == filled.drop_first());
            }
        }
        kind
    }

    /// Returns the next piece without consuming it. Refills the bag if it has
    /// been drained dry.
    pub fn peek_next(&mut self) -> (kind: TetrominoKind)
        ensures
            final(self).wf(),
            final(self)@.len() > 0,
            kind == final(self)@[0],
            old(self)@.len() > 0 ==> final(self)@ == old(self)@ && final(self).generator()
                == old(self).generator(),
            appended_bags(old(self)@, final(self)@),
            old(self)@.len() == 0 ==> is_full_bag(final(self)@) && final(self)@ == fresh_bag(
                old(self).generator(),
            ) && final(self).generator() == generator_after_bag(old(self).generator()),
    {
        proof {
            use_type_invariant(&*self);
        }
        if self.queue.len() == 0 {
            self.refill();
            proof {
                assert(self@.skip(0) =~= self@);
                lemma_full_bag_facts(self@);
            }
        }
        self.queue[0]
    }

    /// Returns the next `count` pieces without consuming them, refilling the
    /// underlying bag enough times to satisfy the request.
    pub fn peek(&mut self, count: usize) -> (pieces: Vec<TetrominoKind>)
        ensures
            final(self).wf(),
            final(self)@.len() >= count,
            pieces@ == final(self)@.take(count as int),
            old(self)@.is_prefix_of(final(self)@),
            is_bag_sequence(final(self)@.skip(old(self)@.len() as int)),
            appended_bags(old(self)@, final(self)@),
            exists|n: nat|
                (final(self)@, final(self).generator()) == #[trigger] refilled(
                    old(self)@,
                    old(self).generator(),
                    count as nat,
                    n,
                ) && refills_full(old(self)@, old(self).generator(), count as nat, n),
    {
        proof {
            use_type_invariant(&*self);
        }
        let ghost start = self@;
        let ghost g0 = self.generator();
        let ghost mut n: nat = 0;
        assert(self@.skip(start.len() as int) =~= Seq::<TetrominoKind>::empty());
        while self.queue.len() < count
            invariant
                self.wf(),
                start.is_prefix_of(self@),
                is_bag_sequence(self@.skip(start.len() as int)),
                (self@, self.generator()) == refilled(start, g0, count as nat, n),
                refills_full(start, g0, count as nat, n),
            decreases if self@.len() >= count {
                0
            } else {
                count - self@.len()
            },
        {
            let ghost before = self@;
            let ghost gb = self.generator();
            self.refill();
            proof {
                n = n + 1;
                assert(refilled(start, g0, count as nat, n) == (self@, self.generator()));
                assert(is_full_bag(fresh_bag(gb))) by {
                    assert(self@.skip(before.len() as int) =~= fresh_bag(gb));
                }
                assert(refills_full(start, g0, count as nat, n));
                let b = self@.skip(before.len() as int);
                assert(self@ =~= before + b);
                lemma_bag_sequence_append(before.skip(start.len() as int), b);
                assert(self@.skip(start.len() as int) =~= before.skip(start.len() as int) + b);
                lemma_full_bag_facts(b);
            }
        }
        let mut pieces: Vec<TetrominoKind> = Vec::with_capacity(count);
        let mut i: usize = 0;
        while i < count
            invariant
                0 <= i <= count,
                count <= self@.len(),
                pieces@ == self@.take(i as int),
            decreases count - i,
        {
            pieces.push(self.queue[i]);
            i += 1;
            proof {
                assert(pieces@ =~= self@.take(i as int));
            }
        }
        pieces
    }

    fn refill(&mut self)
        ensures
            final(self).wf(),
            final(self)@.len() == old(self)@.len() + 7,
            final(self)@.take(old(self)@.len() as int) == old(self)@,
            is_full_bag(final(self)@.skip(old(self)@.len() as int)),
            final(self)@ == old(self)@ + fresh_bag(old(self).generator()),
            final(self).generator() == generator_after_bag(old(self).generator()),
    {
        proof {
            use_type_invariant(&*self);
        }
        let mut next_bag = TetrominoKind::ALL;
        proof {
            assert(next_bag@ =~= all_kinds());
        }
        shuffle_kinds(&mut next_bag, &mut self.rng);
        proof {
            lemma_full_bag_facts(next_bag@);
            lemma_queue_wf_append(self@, next_bag@);
        }
        let ghost start = self@;
        proof {
            lemma_queue_wf_empty();
        }
        let mut queue: Vec<TetrominoKind> = Vec::new();
        std::mem::swap(&mut queue, &mut self.queue);
        let mut i: usize = 0;
        while i < 7
            invariant
                0 <= i <= 7,
                queue@ == start + next_bag@.take(i as int),
            decreases 7 - i,
        {
            queue.push(next_bag[i]);
            i += 1;
            proof {
                assert(queue@ =~= start + next_bag@.take(i as int));
            }
        }
        proof {
            assert(next_bag@.take(7) =~= next_bag@);
        }
        self.queue = queue;
        proof {
            assert(next_bag@.take(7) =~= next_bag@);
            assert(self@.take(start.len() as int) =~= start);
            assert(self@.skip(start.len() as int) =~= next_bag@);
        }
    }
}

} // verus!
