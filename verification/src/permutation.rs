//! Functionality for generating permutations.

use vstd::prelude::*;
use vstd::seq_lib::{group_to_multiset_ensures, to_multiset_update};

verus! {

/// The factorial of `n`.
pub open spec fn spec_factorial(n: nat) -> nat
    decreases n,
{
    if n == 0 {
        1
    } else {
        n * spec_factorial((n - 1) as nat)
    }
}

/// The number whose decimal digits are `digits`, most significant first.
pub open spec fn spec_digits_value(digits: Seq<u64>) -> int
    decreases digits.len(),
{
    if digits.len() == 0 {
        0
    } else {
        spec_digits_value(digits.drop_last()) * 10 + digits.last()
    }
}

/// Ten to the `n`th power.
pub open spec fn pow10(n: nat) -> int
    decreases n,
{
    if n == 0 {
        1
    } else {
        10 * pow10((n - 1) as nat)
    }
}

/// A sequence of `n` decimal digits names a number below ten to the `n`th.
proof fn lemma_digits_value_bound(digits: Seq<u64>)
    requires
        forall|k: int| 0 <= k < digits.len() ==> #[trigger] digits[k] <= 9,
    ensures
        0 <= spec_digits_value(digits) < pow10(digits.len()),
    decreases digits.len(),
{
    if digits.len() > 0 {
        lemma_digits_value_bound(digits.drop_last());
    }
}

/// The decimal number named by all of `digits`.
fn digits_value(digits: &Vec<u64>) -> (v: u64)
    requires
        digits@.len() <= 19,
        forall|k: int| 0 <= k < digits@.len() ==> #[trigger] digits@[k] <= 9,
    ensures
        v as int == spec_digits_value(digits@),
{
    proof {
        reveal_with_fuel(pow10, 20);
    }
    let n = digits.len();
    let mut acc: u64 = 0;
    let mut i: usize = 0;
    while i < n
        invariant
            n == digits@.len() <= 19,
            i <= n,
            forall|k: int| 0 <= k < digits@.len() ==> #[trigger] digits@[k] <= 9,
            acc as int == spec_digits_value(digits@.take(i as int)),
            (acc as int) < pow10(i as nat),
            pow10(19) == 10_000_000_000_000_000_000,
        decreases n - i,
    {
        proof {
            lemma_digits_value_bound(digits@.take(i as int));
            assert(pow10(i as nat) <= pow10(18)) by {
                lemma_pow10_increases(i as nat, 18);
            }
            assert(digits@.take(i as int + 1).drop_last() =~= digits@.take(i as int));
        }
        acc = acc * 10 + digits[i];
        i += 1;
    }
    proof {
        assert(digits@.take(n as int) =~= digits@);
    }
    acc
}

/// `pow10` does not shrink as the exponent grows.
proof fn lemma_pow10_increases(a: nat, b: nat)
    requires
        a <= b,
    ensures
        pow10(a) <= pow10(b),
    decreases b,
{
    if a < b {
        lemma_pow10_increases(a, (b - 1) as nat);
        assert(pow10((b - 1) as nat) >= 1) by {
            lemma_pow10_increases(0, (b - 1) as nat);
        }
    }
}

/// Swaps the entries of `digits` at `a` and `b`.
fn swap_digits(digits: &mut Vec<u64>, a: usize, b: usize)
    requires
        a < old(digits)@.len(),
        b < old(digits)@.len(),
    ensures
        final(digits)@ == old(digits)@.update(a as int, old(digits)@[b as int]).update(
            b as int,
            old(digits)@[a as int],
        ),
        final(digits)@.to_multiset() == old(digits)@.to_multiset(),
{
    let x = digits[a];
    let y = digits[b];
    digits.set(a, y);
    digits.set(b, x);
    proof {
        lemma_swap_preserves_multiset(old(digits)@, a as int, b as int);
    }
}

/// Writing the entry at `j` over the one at `i` and the old entry at `i`
/// over the one at `j` rearranges the sequence without changing what it
/// holds.
pub proof fn lemma_swap_preserves_multiset<A>(s: Seq<A>, i: int, j: int)
    requires
        0 <= i < s.len(),
        0 <= j < s.len(),
    ensures
        s.update(i, s[j]).update(j, s[i]).to_multiset() == s.to_multiset(),
{
    broadcast use group_to_multiset_ensures;
    broadcast use to_multiset_update;
    broadcast use vstd::multiset::group_multiset_axioms;

    let t = s.update(i, s[j]);
    assert(s.contains(s[i]));
    assert(s.contains(s[j]));
    assert(t.to_multiset() == s.to_multiset().insert(s[j]).remove(s[i]));
    assert(t[j] == s[j]);
    assert(t.update(j, s[i]).to_multiset() == t.to_multiset().insert(s[i]).remove(t[j]));
    assert(t.update(j, s[i]).to_multiset() =~= s.to_multiset());
}

/// Whether `v` is the decimal value of some arrangement of the digits of
/// `source`.
pub open spec fn names_arrangement_of(v: u64, source: Seq<u64>) -> bool {
    exists|s: Seq<u64>|
        #![trigger s.to_multiset()]
        s.to_multiset() == source.to_multiset() && v == spec_digits_value(s)
}

/// A value named by an arrangement of one digit sequence is named by an
/// arrangement of any other holding the same digits.
pub proof fn lemma_arrangement_same_digits(v: u64, a: Seq<u64>, b: Seq<u64>)
    requires
        names_arrangement_of(v, a),
        a.to_multiset() == b.to_multiset(),
    ensures
        names_arrangement_of(v, b),
{
    let s = choose|s: Seq<u64>|
        #![trigger s.to_multiset()]
        s.to_multiset() == a.to_multiset() && v == spec_digits_value(s);
    assert(s.to_multiset() == b.to_multiset() && v == spec_digits_value(s));
}

/// The sequence `s` with the entries at `a` and `b` exchanged.
pub open spec fn spec_swap(s: Seq<u64>, a: int, b: int) -> Seq<u64> {
    s.update(a, s[b]).update(b, s[a])
}

/// What one round of Heap's algorithm over the first `remaining` entries of
/// the digit buffer `s` emits, as decimal values in order, paired with what
/// the round leaves in the buffer.
pub open spec fn spec_heap_round(s: Seq<u64>, remaining: nat) -> (Seq<int>, Seq<u64>)
    decreases remaining, remaining + 1nat,
{
    if remaining == 1 {
        (seq![spec_digits_value(s)], s)
    } else {
        spec_heap_rounds_from(s, remaining, 0)
    }
}

/// The tail of a Heap round: what iterations `i` through `remaining - 1`
/// emit from the buffer state `s`, paired with the buffer they leave. Each
/// iteration runs the round for `remaining - 1`, then exchanges the last of
/// the first `remaining` entries with the first one when `remaining` is
/// odd, and with the `i`th one when it is even.
pub open spec fn spec_heap_rounds_from(s: Seq<u64>, remaining: nat, i: nat) -> (Seq<int>, Seq<u64>)
    decreases remaining, remaining - i,
{
    if i >= remaining {
        (Seq::empty(), s)
    } else {
        let sub = spec_heap_round(s, (remaining - 1) as nat);
        let swapped = if remaining % 2 == 1 {
            spec_swap(sub.1, 0, remaining - 1)
        } else {
            spec_swap(sub.1, i as int, remaining - 1)
        };
        let rest = spec_heap_rounds_from(swapped, remaining, i + 1);
        (sub.0 + rest.0, rest.1)
    }
}

/// The full output of Heap's algorithm on `digits`: the decimal values it
/// emits, in the algorithm's order, paired with the buffer it leaves.
pub open spec fn spec_heap_permutation(digits: Seq<u64>) -> (Seq<int>, Seq<u64>) {
    spec_heap_round(digits, digits.len())
}

/// One round of Heap's algorithm: appends to `result` exactly the values
/// that [`spec_heap_round`] names — the decimal value of the digit
/// sequence under every arrangement of its first `remaining` entries —
/// and leaves the buffer exactly as that spec names it.
fn heap_permutation_step(digits: &mut Vec<u64>, remaining: usize, result: &mut Vec<u64>)
    requires
        remaining <= old(digits)@.len(),
        old(digits)@.len() <= 19,
        forall|k: int| 0 <= k < old(digits)@.len() ==> #[trigger] old(digits)@[k] <= 9,
    ensures
        final(digits)@.len() == old(digits)@.len(),
        final(digits)@.to_multiset() == old(digits)@.to_multiset(),
        forall|k: int| 0 <= k < final(digits)@.len() ==> #[trigger] final(digits)@[k] <= 9,
        final(result)@.len() == old(result)@.len() + if remaining == 0 {
            0int
        } else {
            spec_factorial(remaining as nat) as int
        },
        forall|k: int| 0 <= k < old(result)@.len() ==> final(result)@[k] == old(result)@[k],
        forall|k: int|
            old(result)@.len() <= k < final(result)@.len() ==> names_arrangement_of(
                #[trigger] final(result)@[k],
                old(digits)@,
            ),
        final(digits)@ == spec_heap_round(old(digits)@, remaining as nat).1,
        final(result)@.len() == old(result)@.len() + spec_heap_round(
            old(digits)@,
            remaining as nat,
        ).0.len(),
        forall|k: int|
            0 <= k < spec_heap_round(old(digits)@, remaining as nat).0.len()
                ==> final(result)@[old(result)@.len() + k] as int == #[trigger] spec_heap_round(
                old(digits)@,
                remaining as nat,
            ).0[k],
    decreases remaining,
{
    broadcast use group_to_multiset_ensures;

    if remaining == 1 {
        let v = digits_value(digits);
        let ghost arrangement = digits@;
        result.push(v);
        proof {
            assert(spec_factorial(1) == 1) by {
                reveal_with_fuel(spec_factorial, 2);
            }
            assert(arrangement.to_multiset() == arrangement.to_multiset() && v
                == spec_digits_value(arrangement));
            assert(names_arrangement_of(v, old(digits)@));
            assert(spec_heap_round(arrangement, 1nat) == (
                seq![spec_digits_value(arrangement)],
                arrangement,
            ));
            assert(result@[result@.len() - 1] == v);
        }
        return;
    }
    let ghost digits0 = digits@;
    let ghost result0 = result@;
    let ghost mut emitted: Seq<int> = Seq::empty();
    proof {
        assert(Seq::<int>::empty() + spec_heap_rounds_from(digits0, remaining as nat, 0nat).0
            =~= spec_heap_rounds_from(digits0, remaining as nat, 0nat).0);
    }
    let mut i: usize = 0;
    while i < remaining
        invariant
            i <= remaining,
            remaining != 1,
            remaining <= digits@.len(),
            digits@.len() == digits0.len() <= 19,
            digits@.to_multiset() == digits0.to_multiset(),
            forall|k: int| 0 <= k < digits@.len() ==> #[trigger] digits@[k] <= 9,
            result@.len() == result0.len() + i * spec_factorial((remaining - 1) as nat),
            forall|k: int| 0 <= k < result0.len() ==> result@[k] == result0[k],
            forall|k: int|
                result0.len() <= k < result@.len() ==> names_arrangement_of(
                    #[trigger] result@[k],
                    digits0,
                ),
            result@.len() == result0.len() + emitted.len(),
            forall|k: int|
                0 <= k < emitted.len() ==> result@[result0.len() + k] as int
                    == #[trigger] emitted[k],
            spec_heap_rounds_from(digits0, remaining as nat, 0nat).0 == emitted
                + spec_heap_rounds_from(digits@, remaining as nat, i as nat).0,
            spec_heap_rounds_from(digits0, remaining as nat, 0nat).1 == spec_heap_rounds_from(
                digits@,
                remaining as nat,
                i as nat,
            ).1,
        decreases remaining - i,
    {
        proof {
            vstd::arithmetic::mul::lemma_mul_is_distributive_add_other_way(
                spec_factorial((remaining - 1) as nat) as int,
                i as int,
                1,
            );
        }
        let ghost before_call = digits@;
        let ghost pre_emitted = emitted;
        heap_permutation_step(digits, remaining - 1, result);
        proof {
            assert forall|k: int|
                result0.len() <= k < result@.len() implies names_arrangement_of(
                #[trigger] result@[k],
                digits0,
            ) by {
                if !names_arrangement_of(result@[k], digits0) {
                    lemma_arrangement_same_digits(result@[k], before_call, digits0);
                }
            }
            emitted = pre_emitted + spec_heap_round(before_call, (remaining - 1) as nat).0;
            assert forall|k: int|
                0 <= k < emitted.len() implies result@[result0.len() + k] as int
                == #[trigger] emitted[k] by {
                if k >= pre_emitted.len() {
                    assert(emitted[k] == spec_heap_round(before_call, (remaining - 1) as nat).0[
                        k - pre_emitted.len()
                    ]);
                }
            }
        }
        if remaining % 2 == 1 {
            swap_digits(digits, 0, remaining - 1);
        } else {
            swap_digits(digits, i, remaining - 1);
        }
        proof {
            let r_nat = remaining as nat;
            let sub = spec_heap_round(before_call, (remaining - 1) as nat);
            let swapped = if r_nat % 2 == 1 {
                spec_swap(sub.1, 0, r_nat - 1)
            } else {
                spec_swap(sub.1, i as int, r_nat - 1)
            };
            assert(digits@ == swapped);
            let rest = spec_heap_rounds_from(swapped, r_nat, (i + 1) as nat);
            assert(spec_heap_rounds_from(before_call, r_nat, i as nat) == (
                sub.0 + rest.0,
                rest.1,
            ));
            assert(pre_emitted + (sub.0 + rest.0) =~= (pre_emitted + sub.0) + rest.0);
        }
        i += 1;
    }
    proof {
        if remaining != 0 {
            assert(spec_factorial(remaining as nat) == remaining * spec_factorial(
                (remaining - 1) as nat,
            ));
        }
        assert(spec_heap_rounds_from(digits@, remaining as nat, remaining as nat) == (
            Seq::<int>::empty(),
            digits@,
        ));
        assert(emitted + Seq::<int>::empty() =~= emitted);
        assert(spec_heap_round(digits0, remaining as nat) == spec_heap_rounds_from(
            digits0,
            remaining as nat,
            0nat,
        ));
    }
}

/// Creates every permutation of all digits in `digits`, by Heap's
/// algorithm: the result is exactly the value sequence that
/// [`spec_heap_permutation`] names — factorially many decimal values, in
/// the algorithm's order, each the value of an arrangement of the digits.
/// Shuffles `digits` during use: it ends as the buffer that
/// [`spec_heap_permutation`] names, an unspecified-looking but fully
/// determined rearrangement holding exactly the digits it started with.
pub fn heap_permutation(digits: &mut Vec<u64>) -> (result: Vec<u64>)
    requires
        old(digits)@.len() <= 19,
        forall|k: int| 0 <= k < old(digits)@.len() ==> #[trigger] old(digits)@[k] <= 9,
    ensures
        final(digits)@.len() == old(digits)@.len(),
        final(digits)@.to_multiset() == old(digits)@.to_multiset(),
        final(digits)@ == spec_heap_permutation(old(digits)@).1,
        result@.len() == if old(digits)@.len() == 0 {
            0int
        } else {
            spec_factorial(old(digits)@.len()) as int
        },
        result@.len() == spec_heap_permutation(old(digits)@).0.len(),
        forall|k: int|
            0 <= k < result@.len() ==> result@[k] as int == #[trigger] spec_heap_permutation(
                old(digits)@,
            ).0[k],
        forall|k: int|
            0 <= k < result@.len() ==> names_arrangement_of(#[trigger] result@[k], old(digits)@),
{
    let digits_len = digits.len();
    let mut result: Vec<u64> = Vec::new();
    heap_permutation_step(digits, digits_len, &mut result);
    result
}

} // verus!
