//! Identifiers of workspaces, in the shape of a version 4 UUID: how one is
//! written from a seed, and how a seed is stepped until the identifier is new.

use vstd::prelude::*;
use vstd::string::*;
use crate::calendar::unix_time_nanos;
use crate::text::{
    hexadecimal, hexadecimal_string, lemma_numeral_value, lemma_numeral_width,
    lemma_padding_keeps_value, numeral, numeral_value, power,
};

verus! {

/// The first group: the lowest 32 bits of the seed.
pub open spec fn time_low(seed: u128) -> nat {
    (seed % 0x1_0000_0000) as nat
}

/// The second group: the next 16 bits.
pub open spec fn time_mid(seed: u128) -> nat {
    ((seed / 0x1_0000_0000) % 0x1_0000) as nat
}

/// The third group after its version digit: the next 12 bits.
pub open spec fn time_high(seed: u128) -> nat {
    ((seed / 0x1_0000_0000_0000) % 0x1000) as nat
}

/// The fourth group: six bits under the marker `0x80` in the low byte, and the
/// eight bits from bit 66 on in the high byte.
pub open spec fn clock_seq(seed: u128) -> nat {
    (0x80 + (seed / 0x1000_0000_0000_0000) % 0x40 + 0x100 * ((seed / 0x4_0000_0000_0000_0000)
        % 0x100)) as nat
}

/// The fifth group: the 48 bits from bit 74 on.
pub open spec fn node(seed: u128) -> nat {
    ((seed / 0x400_0000_0000_0000_0000) % 0x1_0000_0000_0000) as nat
}

/// The identifier made from `seed`: five groups of hexadecimal digits, 8, 4, 4, 4
/// and 12 wide, the third starting with the version digit `4`.
pub open spec fn uuid_text(seed: u128) -> Seq<char> {
    hexadecimal(time_low(seed), 8) + seq!['-'] + hexadecimal(time_mid(seed), 4) + seq!['-', '4']
        + hexadecimal(time_high(seed), 3) + seq!['-'] + hexadecimal(clock_seq(seed), 4) + seq!['-']
        + hexadecimal(node(seed), 12)
}

/// Writes the identifier made from `seed`.
pub fn uuid_from_seed(seed: u128) -> (id: String)
    ensures
        id@ == uuid_text(seed),
{
    proof {
        reveal_strlit("-");
        reveal_strlit("-4");
    }
    let low = seed % 0x1_0000_0000;
    let mid = (seed / 0x1_0000_0000) % 0x1_0000;
    let high = (seed / 0x1_0000_0000_0000) % 0x1000;
    let seq = 0x80 + (seed / 0x1000_0000_0000_0000) % 0x40 + 0x100 * ((seed
        / 0x4_0000_0000_0000_0000) % 0x100);
    let node = (seed / 0x400_0000_0000_0000_0000) % 0x1_0000_0000_0000;
    let mut id = hexadecimal_string(low, 8);
    id.append("-");
    id.append(hexadecimal_string(mid, 4).as_str());
    id.append("-4");
    id.append(hexadecimal_string(high, 3).as_str());
    id.append("-");
    id.append(hexadecimal_string(seq, 4).as_str());
    id.append("-");
    id.append(hexadecimal_string(node, 12).as_str());
    assert("-"@ =~= seq!['-']);
    assert("-4"@ =~= seq!['-', '4']);
    id
}

/// An identifier made from the reading of the system clock. It is not held
/// against any identifier that is in use: see `fresh_id` for that.
pub fn uuid_v4() -> (id: String)
    ensures
        exists|seed: u128| id@ == uuid_text(seed),
{
    uuid_from_seed(unix_time_nanos())
}

/// The number of seeds that are written differently: an identifier shows the
/// lowest 122 bits of its seed.
pub const SEEDS: u128 = 0x0400_0000_0000_0000_0000_0000_0000_0000;

proof fn lemma_powers_of_sixteen()
    ensures
        power(16, 3) == 0x1000,
        power(16, 4) == 0x1_0000,
        power(16, 8) == 0x1_0000_0000,
        power(16, 12) == 0x1_0000_0000_0000,
{
    reveal_with_fuel(power, 13);
}

/// Where the groups of an identifier stand: it is 36 characters long, and
/// each group has the width that it is padded to.
pub proof fn lemma_uuid_groups(seed: u128)
    ensures
        uuid_text(seed).len() == 36,
        uuid_text(seed).subrange(0, 8) == hexadecimal(time_low(seed), 8),
        uuid_text(seed).subrange(9, 13) == hexadecimal(time_mid(seed), 4),
        uuid_text(seed).subrange(15, 18) == hexadecimal(time_high(seed), 3),
        uuid_text(seed).subrange(19, 23) == hexadecimal(clock_seq(seed), 4),
        uuid_text(seed).subrange(24, 36) == hexadecimal(node(seed), 12),
{
    lemma_powers_of_sixteen();
    lemma_numeral_width(time_low(seed), 16, 8);
    lemma_numeral_width(time_mid(seed), 16, 4);
    lemma_numeral_width(time_high(seed), 16, 3);
    lemma_numeral_width(clock_seq(seed), 16, 4);
    lemma_numeral_width(node(seed), 16, 12);
    let text = uuid_text(seed);
    assert(text.subrange(0, 8) =~= hexadecimal(time_low(seed), 8));
    assert(text.subrange(9, 13) =~= hexadecimal(time_mid(seed), 4));
    assert(text.subrange(15, 18) =~= hexadecimal(time_high(seed), 3));
    assert(text.subrange(19, 23) =~= hexadecimal(clock_seq(seed), 4));
    assert(text.subrange(24, 36) =~= hexadecimal(node(seed), 12));
}

proof fn lemma_hexadecimal_value(n: nat, width: nat)
    ensures
        numeral_value(hexadecimal(n, width), 16) == n,
{
    lemma_numeral_value(n, 16);
    lemma_padding_keeps_value(numeral(n, 16), width, 16);
}

/// A seed below `SEEDS` is made up of the groups of its identifier.
pub proof fn lemma_groups_make_the_seed(seed: u128)
    requires
        seed < SEEDS,
    ensures
        seed == time_low(seed) + 0x1_0000_0000 * time_mid(seed) + 0x1_0000_0000_0000 * time_high(
            seed,
        ) + 0x1000_0000_0000_0000 * ((clock_seq(seed) - 0x80) % 0x100) + 0x4_0000_0000_0000_0000
            * ((clock_seq(seed) - 0x80) / 0x100) + 0x400_0000_0000_0000_0000 * node(seed),
{
    let a = seed as int;
    let q32 = a / 0x1_0000_0000;
    let q48 = a / 0x1_0000_0000_0000;
    let q60 = a / 0x1000_0000_0000_0000;
    let q66 = a / 0x4_0000_0000_0000_0000;
    let q74 = a / 0x400_0000_0000_0000_0000;
    assert(q48 == q32 / 0x1_0000);
    assert(q60 == q48 / 0x1000);
    assert(q66 == q60 / 0x40);
    assert(q74 == q66 / 0x100);
    assert(q74 < 0x1_0000_0000_0000);
    let low_byte = q60 % 0x40;
    let high_byte = q66 % 0x100;
    assert((low_byte + 0x100 * high_byte) % 0x100 == low_byte);
    assert((low_byte + 0x100 * high_byte) / 0x100 == high_byte);
}

/// Two seeds below `SEEDS` that are written as the same identifier are the same.
pub proof fn lemma_uuid_text_tells_the_seed(a: u128, b: u128)
    requires
        a < SEEDS,
        b < SEEDS,
        uuid_text(a) == uuid_text(b),
    ensures
        a == b,
{
    lemma_uuid_groups(a);
    lemma_uuid_groups(b);
    lemma_hexadecimal_value(time_low(a), 8);
    lemma_hexadecimal_value(time_low(b), 8);
    lemma_hexadecimal_value(time_mid(a), 4);
    lemma_hexadecimal_value(time_mid(b), 4);
    lemma_hexadecimal_value(time_high(a), 3);
    lemma_hexadecimal_value(time_high(b), 3);
    lemma_hexadecimal_value(clock_seq(a), 4);
    lemma_hexadecimal_value(clock_seq(b), 4);
    lemma_hexadecimal_value(node(a), 12);
    lemma_hexadecimal_value(node(b), 12);
    assert(time_low(a) == time_low(b));
    assert(time_mid(a) == time_mid(b));
    assert(time_high(a) == time_high(b));
    assert(clock_seq(a) == clock_seq(b));
    assert(node(a) == node(b));
    lemma_groups_make_the_seed(a);
    lemma_groups_make_the_seed(b);
}

/// The seed that lies `steps` after the reading `now`, among the seeds that
/// are written differently: after the last of them the first one follows.
#[verifier::opaque]
pub open spec fn seed_after(now: u128, steps: nat) -> u128 {
    (((now % SEEDS) + steps) % (SEEDS as int)) as u128
}

/// The seed that follows `seed`.
pub open spec fn next_seed(seed: u128) -> u128 {
    if seed >= SEEDS - 1 {
        0
    } else {
        (seed + 1) as u128
    }
}

/// The seeds after a reading start at the reading, cut down to the seeds that
/// are written differently, and follow each other.
pub proof fn lemma_seed_steps(now: u128, steps: nat)
    ensures
        seed_after(now, 0) == now % SEEDS,
        seed_after(now, steps) < SEEDS,
        seed_after(now, steps + 1) == next_seed(seed_after(now, steps)),
{
    reveal(seed_after);
}

/// The identifier of the seed that lies `steps` after the reading `now`.
pub open spec fn id_after(now: u128, steps: nat) -> Seq<char> {
    uuid_text(seed_after(now, steps))
}

/// Whether `steps` is the least number of steps after which the identifier
/// is none of `ids`.
pub open spec fn is_fresh_step(ids: Seq<Seq<char>>, now: u128, steps: nat) -> bool {
    &&& !ids.contains(id_after(now, steps))
    &&& forall|fewer: nat| fewer < steps ==> ids.contains(#[trigger] id_after(now, fewer))
}

/// The identifier for the reading `now` that is none of `ids`: that of the
/// reading itself, or of the first seed after it whose identifier is new.
pub open spec fn fresh_id(ids: Seq<Seq<char>>, now: u128) -> Seq<char> {
    id_after(now, choose|steps: nat| is_fresh_step(ids, now, steps))
}

/// The first new identifier is what `fresh_id` gives.
pub proof fn lemma_fresh_id_found(ids: Seq<Seq<char>>, now: u128, steps: nat)
    requires
        is_fresh_step(ids, now, steps),
    ensures
        fresh_id(ids, now) == id_after(now, steps),
{
    let chosen = choose|s: nat| is_fresh_step(ids, now, s);
    assert(is_fresh_step(ids, now, chosen));
    if chosen < steps {
        assert(ids.contains(id_after(now, chosen)));
    }
    if steps < chosen {
        assert(ids.contains(id_after(now, steps)));
    }
}

/// Fewer steps than there are seeds lead to different identifiers.
pub proof fn lemma_steps_give_different_ids(now: u128, fewer: nat, more: nat)
    requires
        fewer < more < SEEDS,
    ensures
        id_after(now, fewer) != id_after(now, more),
{
    reveal(seed_after);
    let a = seed_after(now, fewer);
    let b = seed_after(now, more);
    assert(a < SEEDS && b < SEEDS && a != b);
    if uuid_text(a) == uuid_text(b) {
        lemma_uuid_text_tells_the_seed(a, b);
    }
}

/// Identifiers that are all taken, one for each of the first `count` steps,
/// are no more than the identifiers that there are.
pub proof fn lemma_taken_ids_are_counted(ids: Seq<Seq<char>>, now: u128, count: nat)
    requires
        count <= SEEDS,
        forall|steps: nat| steps < count ==> ids.contains(#[trigger] id_after(now, steps)),
    ensures
        count <= ids.len(),
{
    let taken = Seq::new(count, |k: int| id_after(now, k as nat));
    assert forall|i: int, j: int| 0 <= i < taken.len() && 0 <= j < taken.len() && i != j implies taken[i]
        != taken[j] by {
        if i < j {
            lemma_steps_give_different_ids(now, i as nat, j as nat);
        } else {
            lemma_steps_give_different_ids(now, j as nat, i as nat);
        }
    }
    assert(taken.no_duplicates());
    taken.unique_seq_to_set();
    ids.lemma_cardinality_of_set();
    vstd::seq_lib::seq_to_set_is_finite(ids);
    assert(taken.to_set().subset_of(ids.to_set())) by {
        assert forall|id: Seq<char>| taken.to_set().contains(id) implies ids.to_set().contains(
            id,
        ) by {
            let k = choose|k: int| 0 <= k < taken.len() && taken[k] == id;
            assert(ids.contains(id_after(now, k as nat)));
        }
    }
    vstd::set_lib::lemma_len_subset(taken.to_set(), ids.to_set());
}

proof fn lemma_first_fresh_step(ids: Seq<Seq<char>>, now: u128, steps: nat)
    requires
        !ids.contains(id_after(now, steps)),
    ensures
        exists|first: nat| first <= steps && is_fresh_step(ids, now, first),
    decreases steps,
{
    if exists|fewer: nat| fewer < steps && !ids.contains(id_after(now, fewer)) {
        let fewer = choose|fewer: nat| fewer < steps && !ids.contains(id_after(now, fewer));
        lemma_first_fresh_step(ids, now, fewer);
    } else {
        assert(is_fresh_step(ids, now, steps));
    }
}

/// As long as there are fewer identifiers than seeds, the fresh identifier is
/// none of those that there are, and it is found within as many steps as
/// there are identifiers.
pub proof fn lemma_fresh_id_is_new(ids: Seq<Seq<char>>, now: u128)
    requires
        ids.len() < SEEDS,
    ensures
        !ids.contains(fresh_id(ids, now)),
        exists|steps: nat| steps <= ids.len() && is_fresh_step(ids, now, steps),
        ids.len() == 0 ==> fresh_id(ids, now) == uuid_text((now % SEEDS) as u128),
{
    if forall|steps: nat| steps < ids.len() + 1 ==> ids.contains(#[trigger] id_after(now, steps)) {
        lemma_taken_ids_are_counted(ids, now, ids.len() + 1);
    }
    let some = choose|steps: nat| steps < ids.len() + 1 && !ids.contains(id_after(now, steps));
    lemma_first_fresh_step(ids, now, some);
    let first = choose|first: nat| first <= some && is_fresh_step(ids, now, first);
    lemma_fresh_id_found(ids, now, first);
    if ids.len() == 0 {
        assert(first == 0);
        lemma_seed_steps(now, 0);
    }
}

} // verus!
