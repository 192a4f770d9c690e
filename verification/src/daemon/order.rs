//! The order in which a queue is played.
use vstd::prelude::*;

verus! {

/// One step of a 64-bit xorshift generator.
pub open spec fn xorshift(seed: u64) -> u64 {
    let a = seed ^ (seed << 13);
    let b = a ^ (a >> 7);
    b ^ (b << 17)
}

/// The indices below `len`, ascending.
pub open spec fn ascending(len: nat) -> Seq<usize> {
    Seq::new(len, |i: int| i as usize)
}

/// `s` with the elements at `i` and `j` exchanged.
pub open spec fn swapped(s: Seq<usize>, i: int, j: int) -> Seq<usize> {
    s.update(i, s[j]).update(j, s[i])
}

/// `order` after the swaps that shuffle its first `n` elements, from the last one
/// down to the second, and the seed that is left.
pub open spec fn shuffled(order: Seq<usize>, n: nat, seed: u64) -> (Seq<usize>, u64)
    decreases n,
{
    if n <= 1 {
        (order, seed)
    } else {
        let next = xorshift(seed);
        let other = (next as usize) as int % (n as int);
        shuffled(swapped(order, n - 1, other), (n - 1) as nat, next)
    }
}

/// Whether an index is another one than `index`.
pub open spec fn differs_from(index: usize) -> spec_fn(usize) -> bool {
    |i: usize| i != index
}

/// The indices below `len` but for `index`, ascending.
pub open spec fn others(len: nat, index: usize) -> Seq<usize> {
    ascending(len).filter(differs_from(index))
}

/// The play order of `len` tracks of which the one at `selected` plays now, and the
/// seed that is left: the listed order, or the selected track and then the others
/// shuffled.
pub open spec fn play_order(len: nat, selected: usize, shuffle: bool, seed: u64) -> (Seq<usize>, u64) {
    if shuffle {
        let rest = others(len, selected);
        let (mixed, left) = shuffled(rest, rest.len(), seed);
        (seq![selected] + mixed, left)
    } else {
        (ascending(len), seed)
    }
}

/// Advances the generator and returns its new state.
pub fn next_random(seed: &mut u64) -> (r: u64)
    ensures
        r == xorshift(*old(seed)),
        *final(seed) == xorshift(*old(seed)),
{
    *seed = *seed ^ (*seed << 13);
    *seed = *seed ^ (*seed >> 7);
    *seed = *seed ^ (*seed << 17);
    *seed
}

/// The order in which to play `len` tracks of which the one at `selected_index` plays now.
pub fn make_play_order(len: usize, selected_index: usize, shuffle: bool, seed: &mut u64) -> (r: Vec<
    usize,
>)
    ensures
        r@ == play_order(len as nat, selected_index, shuffle, *old(seed)).0,
        *final(seed) == play_order(len as nat, selected_index, shuffle, *old(seed)).1,
{
    let mut order: Vec<usize> = Vec::new();
    let mut i: usize = 0;
    let ghost keep = differs_from(selected_index);
    if !shuffle {
        while i < len
            invariant
                i <= len,
                order@ =~= ascending(i as nat),
            decreases len - i,
        {
            order.push(i);
            i += 1;
        }
        return order;
    }
    order.push(selected_index);
    assert(ascending(0).filter(keep) =~= seq![]) by {
        reveal(Seq::filter);
    }
    while i < len
        invariant
            i <= len,
            keep == differs_from(selected_index),
            order@ =~= seq![selected_index] + ascending(i as nat).filter(keep),
        decreases len - i,
    {
        proof {
            reveal(Seq::filter);
            assert(ascending((i + 1) as nat).drop_last() =~= ascending(i as nat));
        }
        if i != selected_index {
            order.push(i);
        }
        i += 1;
    }
    let ghost rest = others(len as nat, selected_index);
    assert(order@ =~= seq![selected_index] + rest);
    let mut n: usize = order.len() - 1;
    let ghost mut mixed = rest;
    let ghost start = *seed;
    while n > 1
        invariant
            n <= mixed.len(),
            order@ =~= seq![selected_index] + mixed,
            shuffled(rest, rest.len(), start) == shuffled(mixed, n as nat, *seed),
        decreases n,
    {
        let random: u64 = next_random(seed);
        let other: usize = (#[verifier::truncate] (random as usize)) % n;
        let a = order[n];
        let b = order[other + 1];
        order.set(n, b);
        order.set(other + 1, a);
        proof {
            mixed = swapped(mixed, n - 1, other as int);
        }
        n -= 1;
    }
    order
}

/// Every index below `len`, each once.
pub open spec fn is_order(order: Seq<usize>, len: nat) -> bool {
    &&& order.len() == len
    &&& order.no_duplicates()
    &&& forall|i: int| 0 <= i < order.len() ==> #[trigger] order[i] < len
}

/// `n` distinct indices below `len`, none of them `index`.
spec fn avoids(order: Seq<usize>, n: nat, len: nat, index: usize) -> bool {
    &&& order.len() == n
    &&& order.no_duplicates()
    &&& forall|i: int| 0 <= i < order.len() ==> #[trigger] order[i] < len && order[i] != index
}

proof fn lemma_others(len: nat, index: usize)
    requires
        len <= usize::MAX,
    ensures
        avoids(others(len, index), (if index < len { len - 1 } else { len as int }) as nat, len, index),
    decreases len,
{
    reveal(Seq::filter);
    if len > 0 {
        let n = (len - 1) as nat;
        lemma_others(n, index);
        assert(ascending(len).drop_last() =~= ascending(n));
        assert(ascending(len).last() == n as usize);
    } else {
        assert(ascending(0) =~= seq![]);
    }
}

proof fn lemma_shuffled(order: Seq<usize>, n: nat, seed: u64, len: nat, index: usize)
    requires
        n <= order.len(),
        avoids(order, order.len(), len, index),
    ensures
        avoids(shuffled(order, n, seed).0, order.len(), len, index),
    decreases n,
{
    if n > 1 {
        let next = xorshift(seed);
        let other = (next as usize) as int % (n as int);
        let after = swapped(order, n - 1, other);
        assert(avoids(after, order.len(), len, index));
        lemma_shuffled(after, (n - 1) as nat, next, len, index);
    }
}

/// A play order holds every track of the queue exactly once. A shuffled one starts
/// with the selected track; one that is not shuffled is the listed order.
pub proof fn play_order_is_complete(len: nat, selected: usize, shuffle: bool, seed: u64)
    requires
        selected < len <= usize::MAX,
    ensures
        is_order(play_order(len, selected, shuffle, seed).0, len),
        shuffle ==> play_order(len, selected, shuffle, seed).0[0] == selected,
        !shuffle ==> forall|i: int|
            0 <= i < len ==> #[trigger] play_order(len, selected, shuffle, seed).0[i] == i,
{
    if shuffle {
        let rest = others(len, selected);
        lemma_others(len, selected);
        lemma_shuffled(rest, rest.len(), seed, len, selected);
    }
}

/// A generator that is not at zero never comes to zero, where it would stay.
pub proof fn random_never_sticks(seed: u64)
    requires
        seed != 0,
    ensures
        xorshift(seed) != 0,
{
    let a = seed ^ (seed << 13);
    assert(seed != 0 ==> (seed ^ (seed << 13)) != 0) by (bit_vector);
    let b = a ^ (a >> 7);
    assert(a != 0 ==> (a ^ (a >> 7)) != 0) by (bit_vector);
    assert(b != 0 ==> (b ^ (b << 17)) != 0) by (bit_vector);
}

/// Shuffling never brings the generator to zero.
pub proof fn play_order_keeps_random(len: nat, selected: usize, shuffle: bool, seed: u64)
    requires
        seed != 0,
    ensures
        play_order(len, selected, shuffle, seed).1 != 0,
{
    let rest = others(len, selected);
    lemma_shuffled_seed(rest, rest.len(), seed);
}

proof fn lemma_shuffled_seed(order: Seq<usize>, n: nat, seed: u64)
    requires
        seed != 0,
    ensures
        shuffled(order, n, seed).1 != 0,
    decreases n,
{
    if n > 1 {
        random_never_sticks(seed);
        let other = (xorshift(seed) as usize) as int % (n as int);
        lemma_shuffled_seed(swapped(order, n - 1, other), (n - 1) as nat, xorshift(seed));
    }
}

/// The indices that are left when one is taken out close the gap.
proof fn lemma_others_are(len: nat, index: usize, i: int)
    requires
        len <= usize::MAX,
        0 <= i < others(len, index).len(),
    ensures
        others(len, index)[i] == if i < index {
            i
        } else {
            i + 1
        },
    decreases len,
{
    reveal(Seq::filter);
    lemma_others(len, index);
    if len > 0 {
        let n = (len - 1) as nat;
        lemma_others(n, index);
        assert(ascending(len).drop_last() =~= ascending(n));
        assert(ascending(len).last() == n as usize);
        if i < others(n, index).len() {
            lemma_others_are(n, index, i);
        }
    } else {
        assert(ascending(0) =~= seq![]);
    }
}

/// The swaps leave alone what stands behind the elements that they shuffle.
proof fn lemma_shuffled_keeps_the_end(order: Seq<usize>, n: nat, seed: u64, i: int)
    requires
        n <= i < order.len(),
    ensures
        shuffled(order, n, seed).0.len() == order.len(),
        shuffled(order, n, seed).0[i] == order[i],
    decreases n,
{
    if n > 1 {
        let other = (xorshift(seed) as usize) as int % (n as int);
        lemma_shuffled_keeps_the_end(
            swapped(order, n - 1, other),
            (n - 1) as nat,
            xorshift(seed),
            i,
        );
    }
}

/// The track that a shuffled order plays last is drawn by the first random number, among
/// all tracks but the selected one.
pub proof fn first_draw_decides_the_last_turn(len: nat, selected: usize, seed: u64)
    requires
        selected < len <= usize::MAX,
        len >= 3,
    ensures
        ({
            let drawn = (xorshift(seed) as usize) as int % (len - 1);
            play_order(len, selected, true, seed).0.last() == if drawn < selected {
                drawn
            } else {
                drawn + 1
            }
        }),
{
    let rest = others(len, selected);
    let n = rest.len();
    lemma_others(len, selected);
    lemma_shuffled(rest, n, seed, len, selected);
    let drawn = (xorshift(seed) as usize) as int % (n as int);
    lemma_others_are(len, selected, drawn);
    let after = swapped(rest, n - 1, drawn);
    lemma_shuffled_keeps_the_end(after, (n - 1) as nat, xorshift(seed), n - 1);
}

/// The state of the generator after `n` steps.
pub open spec fn stepped_seed(seed: u64, n: nat) -> u64
    decreases n,
{
    if n == 0 {
        seed
    } else {
        stepped_seed(xorshift(seed), (n - 1) as nat)
    }
}

/// A shuffle draws one number for each track but the selected one and the one that is
/// left in the end; without shuffle none is drawn.
pub proof fn shuffle_draws_one_number_a_turn(len: nat, selected: usize, shuffle: bool, seed: u64)
    requires
        selected < len <= usize::MAX,
    ensures
        play_order(len, selected, shuffle, seed).1 == stepped_seed(
            seed,
            if shuffle && len >= 2 {
                (len - 2) as nat
            } else {
                0
            },
        ),
{
    lemma_others(len, selected);
    let rest = others(len, selected);
    lemma_draws(rest, rest.len(), seed);
}

proof fn lemma_draws(order: Seq<usize>, n: nat, seed: u64)
    ensures
        shuffled(order, n, seed).1 == stepped_seed(
            seed,
            if n >= 1 {
                (n - 1) as nat
            } else {
                0
            },
        ),
    decreases n,
{
    if n > 1 {
        let other = (xorshift(seed) as usize) as int % (n as int);
        lemma_draws(swapped(order, n - 1, other), (n - 1) as nat, xorshift(seed));
    }
}

/// No two states of the generator lead to the same one.
pub proof fn random_is_reversible(a: u64, b: u64)
    requires
        xorshift(a) == xorshift(b),
    ensures
        a == b,
{
    let (x, y) = (a ^ (a << 13), b ^ (b << 13));
    let (p, q) = (x ^ (x >> 7), y ^ (y >> 7));
    assert((p ^ (p << 17)) == (q ^ (q << 17)) ==> p == q) by (bit_vector);
    assert((x ^ (x >> 7)) == (y ^ (y >> 7)) ==> x == y) by (bit_vector);
    assert((a ^ (a << 13)) == (b ^ (b << 13)) ==> a == b) by (bit_vector);
}

} // verus!
