//! The winner draw: oracle values become distinct participant numbers, a
//! bounded number of values per call, until every winner slot that can be
//! filled is filled.
use vstd::prelude::*;
use crate::state::Raffle;

verus! {

/// The participant number that an oracle value selects among `n`
/// participants: the value modulo `n`, where 0 stands for `n`.
pub open spec fn slot_of(value: u64, n: u64) -> u64 {
    if value % n == 0 {
        n
    } else {
        value % n
    }
}

/// The winners after drawing from `values` in order, starting from `drawn`
/// and stopping once `target` winners are drawn. A value whose participant
/// is already drawn is spent without effect.
pub open spec fn draw_seq(drawn: Seq<u64>, n: u64, target: nat, values: Seq<u64>) -> Seq<u64>
    decreases values.len(),
{
    if drawn.len() >= target || values.len() == 0 {
        drawn
    } else {
        let slot = slot_of(values[0], n);
        let next = if drawn.contains(slot) {
            drawn
        } else {
            drawn.push(slot)
        };
        draw_seq(next, n, target, values.drop_first())
    }
}

/// How many of `values` the draw of `draw_seq` spends.
pub open spec fn draw_attempts(drawn: Seq<u64>, n: u64, target: nat, values: Seq<u64>) -> nat
    decreases values.len(),
{
    if drawn.len() >= target || values.len() == 0 {
        0
    } else {
        let slot = slot_of(values[0], n);
        let next = if drawn.contains(slot) {
            drawn
        } else {
            drawn.push(slot)
        };
        1 + draw_attempts(next, n, target, values.drop_first())
    }
}

/// Distinct participant numbers, each in `[1, n]`.
pub open spec fn valid_winners(s: Seq<u64>, n: u64) -> bool {
    &&& forall|i: int| 0 <= i < s.len() ==> 1 <= #[trigger] s[i] <= n
    &&& s.no_duplicates()
}

/// The participant number that `value` selects among `n` participants.
pub fn slot_for(value: u64, n: u64) -> (r: u64)
    requires
        n >= 1,
    ensures
        r == slot_of(value, n),
        1 <= r <= n,
{
    let m = value % n;
    if m == 0 {
        n
    } else {
        m
    }
}

/// How many winners a complete draw of this raffle yields.
pub fn draw_target(raffle: &Raffle) -> (r: u64)
    ensures
        r == raffle.draw_target(),
{
    if raffle.current_number_of_participants < raffle.winner_count {
        raffle.current_number_of_participants
    } else {
        raffle.winner_count
    }
}

/// Whether `slot` is among the first `count` entries of `winners`.
fn is_drawn(winners: &Vec<u64>, count: u64, slot: u64) -> (r: bool)
    requires
        count <= winners@.len(),
    ensures
        r == winners@.take(count as int).contains(slot),
{
    let mut i: usize = 0;
    while i < winners.len() && (i as u64) < count
        invariant
            count <= winners@.len(),
            i <= count,
            forall|j: int| 0 <= j < i ==> winners@[j] != slot,
        decreases count - i,
    {
        if winners[i] == slot {
            assert(winners@.take(count as int)[i as int] == slot);
            return true;
        }
        i = i + 1;
    }
    assert(!winners@.take(count as int).contains(slot)) by {
        if winners@.take(count as int).contains(slot) {
            let k = choose|k: int| 0 <= k < count && winners@.take(count as int)[k] == slot;
            assert(winners@[k] == slot);
        }
    }
    false
}

/// Takes one oracle value: the participant it selects becomes the next
/// winner, unless already drawn. Returns whether a winner was added.
pub fn record_draw(raffle: &mut Raffle, value: u64) -> (added: bool)
    requires
        old(raffle).wf(),
        old(raffle).current_winner_count < old(raffle).draw_target(),
    ensures
        final(raffle).wf(),
        final(raffle).same_setup(old(raffle)),
        final(raffle).raffle_state == old(raffle).raffle_state,
        final(raffle).current_number_of_participants == old(raffle).current_number_of_participants,
        final(raffle).rewards@ == old(raffle).rewards@,
        final(raffle).number_of_entitled_winners == old(raffle).number_of_entitled_winners,
        final(raffle).fee_collected == old(raffle).fee_collected,
        added == !old(raffle).drawn().contains(
            slot_of(value, old(raffle).current_number_of_participants),
        ),
        final(raffle).drawn() == if added {
            old(raffle).drawn().push(slot_of(value, old(raffle).current_number_of_participants))
        } else {
            old(raffle).drawn()
        },
{
    let n = raffle.current_number_of_participants;
    let slot = slot_for(value, n);
    let count = raffle.current_winner_count;
    if is_drawn(&raffle.winners, count, slot) {
        return false;
    }
    let ghost before = raffle.winners@;
    let len = raffle.winners.len();
    assert(count < len);
    raffle.winners.set(count as usize, slot);
    raffle.current_winner_count = count + 1;
    assert(raffle.winners@ == before.update(count as int, slot));
    assert(raffle.drawn() =~= before.take(count as int).push(slot));
    assert forall|i: int, j: int|
        0 <= i < j < raffle.current_winner_count implies #[trigger] raffle.winners@[i]
            != #[trigger] raffle.winners@[j] by {
        if j == count {
            assert(before.take(count as int)[i] == before[i]);
        }
    }
    true
}

/// Draws from `values` in order, spending at most `limit` of them, until the
/// draw target is met; returns how many values were spent. A call that
/// spends its values without meeting the target keeps what it drew, and a
/// later call goes on from there.
pub fn draw_from_values(raffle: &mut Raffle, values: &Vec<u64>, limit: u64) -> (attempts: u64)
    requires
        old(raffle).wf(),
    ensures
        final(raffle).wf(),
        final(raffle).same_setup(old(raffle)),
        final(raffle).raffle_state == old(raffle).raffle_state,
        final(raffle).current_number_of_participants == old(raffle).current_number_of_participants,
        final(raffle).rewards@ == old(raffle).rewards@,
        final(raffle).number_of_entitled_winners == old(raffle).number_of_entitled_winners,
        final(raffle).fee_collected == old(raffle).fee_collected,
        final(raffle).drawn() == draw_seq(
            old(raffle).drawn(),
            old(raffle).current_number_of_participants,
            old(raffle).draw_target() as nat,
            values@.take(if limit < values@.len() { limit as int } else { values@.len() as int }),
        ),
        attempts == draw_attempts(
            old(raffle).drawn(),
            old(raffle).current_number_of_participants,
            old(raffle).draw_target() as nat,
            values@.take(if limit < values@.len() { limit as int } else { values@.len() as int }),
        ),
{
    let ghost n = raffle.current_number_of_participants;
    let ghost t = raffle.draw_target() as nat;
    let ghost bound: int = if limit < values@.len() { limit as int } else { values@.len() as int };
    let ghost start = raffle.drawn();
    let target = draw_target(raffle);
    let mut i: usize = 0;
    assert(values@.take(bound) =~= values@.subrange(0, bound));
    while i < values.len() && (i as u64) < limit && raffle.current_winner_count < target
        invariant
            raffle.wf(),
            raffle.same_setup(old(raffle)),
            raffle.raffle_state == old(raffle).raffle_state,
            raffle.current_number_of_participants == n,
            raffle.rewards@ == old(raffle).rewards@,
            raffle.number_of_entitled_winners == old(raffle).number_of_entitled_winners,
            raffle.fee_collected == old(raffle).fee_collected,
            target == t,
            t == raffle.draw_target(),
            0 <= i <= bound,
            bound == (if limit < values@.len() { limit as int } else { values@.len() as int }),
            draw_seq(start, n, t, values@.subrange(0, bound)) == draw_seq(
                raffle.drawn(),
                n,
                t,
                values@.subrange(i as int, bound),
            ),
            draw_attempts(start, n, t, values@.subrange(0, bound)) == i + draw_attempts(
                raffle.drawn(),
                n,
                t,
                values@.subrange(i as int, bound),
            ),
        decreases bound - i,
    {
        let ghost rest = values@.subrange(i as int, bound);
        assert(rest.drop_first() =~= values@.subrange(i + 1, bound));
        assert(rest[0] == values@[i as int]);
        record_draw(raffle, values[i]);
        i = i + 1;
    }
    assert(raffle.drawn().len() == raffle.current_winner_count);
    i as u64
}

/// Some value selects participant `x` among `n`.
pub open spec fn selects(values: Seq<u64>, n: u64, x: u64) -> bool {
    exists|i: int| 0 <= i < values.len() && #[trigger] slot_of(values[i], n) == x
}

/// The participant numbers from 1 to `n`.
pub open spec fn all_slots(n: u64) -> Set<u64> {
    Set::new(|x: u64| 1 <= x <= n)
}

proof fn lemma_all_slots_len(n: u64)
    ensures
        all_slots(n).finite(),
        all_slots(n).len() == n,
    decreases n,
{
    if n == 0 {
        assert(all_slots(0) =~= Set::<u64>::empty());
    } else {
        let m = (n - 1) as u64;
        lemma_all_slots_len(m);
        assert(all_slots(n) =~= all_slots(m).insert(n));
    }
}

/// A draw keeps what was drawn before it, in place, and adds to it.
pub proof fn lemma_draw_extends(drawn: Seq<u64>, n: u64, target: nat, values: Seq<u64>)
    ensures
        draw_seq(drawn, n, target, values).len() >= drawn.len(),
        draw_seq(drawn, n, target, values).take(drawn.len() as int) == drawn,
    decreases values.len(),
{
    if drawn.len() >= target || values.len() == 0 {
        assert(drawn.take(drawn.len() as int) =~= drawn);
    } else {
        let slot = slot_of(values[0], n);
        let next = if drawn.contains(slot) {
            drawn
        } else {
            drawn.push(slot)
        };
        lemma_draw_extends(next, n, target, values.drop_first());
        let r = draw_seq(next, n, target, values.drop_first());
        assert(r.take(drawn.len() as int) =~= next.take(drawn.len() as int));
        assert(next.take(drawn.len() as int) =~= drawn);
    }
}

/// Winners stay distinct participant numbers in `[1, n]`, and a draw
/// never goes past its target.
pub proof fn lemma_draw_valid(drawn: Seq<u64>, n: u64, target: nat, values: Seq<u64>)
    requires
        n >= 1,
        valid_winners(drawn, n),
        drawn.len() <= target,
    ensures
        valid_winners(draw_seq(drawn, n, target, values), n),
        draw_seq(drawn, n, target, values).len() <= target,
    decreases values.len(),
{
    if drawn.len() >= target || values.len() == 0 {
    } else {
        let slot = slot_of(values[0], n);
        if !drawn.contains(slot) {
            let next = drawn.push(slot);
            assert forall|i: int, j: int| 0 <= i < next.len() && 0 <= j < next.len() && i != j implies next[i]
                != next[j] by {
                if i == drawn.len() {
                    assert(drawn[j] == next[j]);
                } else if j == drawn.len() {
                    assert(drawn[i] == next[i]);
                }
            }
            assert forall|i: int| 0 <= i < next.len() implies 1 <= #[trigger] next[i] <= n by {
                if i < drawn.len() {
                    assert(next[i] == drawn[i]);
                }
            }
        }
        let next = if drawn.contains(slot) {
            drawn
        } else {
            drawn.push(slot)
        };
        lemma_draw_valid(next, n, target, values.drop_first());
    }
}

/// A draw spread over two calls, the second going on from what the first
/// drew, ends as one call on all the values would.
pub proof fn lemma_draw_resumes(drawn: Seq<u64>, n: u64, target: nat, first: Seq<u64>, second: Seq<u64>)
    ensures
        draw_seq(draw_seq(drawn, n, target, first), n, target, second) == draw_seq(
            drawn,
            n,
            target,
            first + second,
        ),
    decreases first.len(),
{
    if drawn.len() >= target {
        assert(draw_seq(drawn, n, target, first) == drawn);
    } else if first.len() == 0 {
        assert(first + second =~= second);
    } else {
        let slot = slot_of(first[0], n);
        let next = if drawn.contains(slot) {
            drawn
        } else {
            drawn.push(slot)
        };
        assert((first + second).drop_first() =~= first.drop_first() + second);
        assert((first + second)[0] == first[0]);
        lemma_draw_resumes(next, n, target, first.drop_first(), second);
    }
}

/// Either a draw meets its target, or every participant that a value
/// selected is among the winners.
proof fn lemma_draw_covers(drawn: Seq<u64>, n: u64, target: nat, values: Seq<u64>)
    ensures
        draw_seq(drawn, n, target, values).len() >= target || forall|i: int|
            0 <= i < values.len() ==> draw_seq(drawn, n, target, values).contains(
                #[trigger] slot_of(values[i], n),
            ),
    decreases values.len(),
{
    if drawn.len() >= target || values.len() == 0 {
    } else {
        let slot = slot_of(values[0], n);
        let next = if drawn.contains(slot) {
            drawn
        } else {
            drawn.push(slot)
        };
        let rest = values.drop_first();
        lemma_draw_covers(next, n, target, rest);
        let r = draw_seq(next, n, target, rest);
        if r.len() < target {
            if !drawn.contains(slot) {
                assert(next[drawn.len() as int] == slot);
            }
            assert(next.contains(slot));
            lemma_draw_extends(next, n, target, rest);
            let k = choose|k: int| 0 <= k < next.len() && next[k] == slot;
            assert(r.take(next.len() as int)[k] == slot);
            assert(r[k] == slot);
            assert forall|i: int| 0 <= i < values.len() implies r.contains(
                #[trigger] slot_of(values[i], n),
            ) by {
                if i > 0 {
                    assert(values[i] == rest[i - 1]);
                }
            }
        }
    }
}

/// Once the oracle values have selected every participant, the draw has
/// met its target: exactly `target` distinct winners, for any target up to
/// the number of participants.
pub proof fn lemma_draw_completes(drawn: Seq<u64>, n: u64, target: nat, values: Seq<u64>)
    requires
        n >= 1,
        valid_winners(drawn, n),
        drawn.len() <= target <= n,
        forall|x: u64| 1 <= x <= n ==> #[trigger] selects(values, n, x),
    ensures
        draw_seq(drawn, n, target, values).len() == target,
        valid_winners(draw_seq(drawn, n, target, values), n),
{
    lemma_draw_valid(drawn, n, target, values);
    lemma_draw_covers(drawn, n, target, values);
    let r = draw_seq(drawn, n, target, values);
    if r.len() < target {
        assert(all_slots(n).subset_of(r.to_set())) by {
            assert forall|x: u64| all_slots(n).contains(x) implies r.to_set().contains(x) by {
                assert(selects(values, n, x));
                let i = choose|i: int| 0 <= i < values.len() && slot_of(values[i], n) == x;
                assert(r.contains(slot_of(values[i], n)));
            }
        }
        lemma_all_slots_len(n);
        r.lemma_cardinality_of_set();
        vstd::seq_lib::seq_to_set_is_finite(r);
        vstd::set_lib::lemma_len_subset(all_slots(n), r.to_set());
    }
}

} // verus!
