//! The order in which tokens are handed out.

use crate::chain::Env;
use crate::error::{ContractError, StdError};
use crate::outside::{
    fisher_yates, fisher_yates_shuffle, permutes, rearranged, sha256, sha256_digest, xoshiro_first,
    xoshiro_first_u32,
};
use crate::state::{ascending, places, token_ids, TokenPositionMapping};
use crate::text::{decimal, decimal_string};
use vstd::prelude::*;
use vstd::seq_lib::*;
use vstd::set_lib::*;
use vstd::utf8::encode_utf8;

verus! {

/// How many positions at either end of the sale's order chance picks from.
pub const PICK_RANGE: u32 = 50;

/// The first sixteen bytes of the digest of a text.
pub open spec fn seed_of(text: Seq<char>) -> Seq<u8> {
    sha256(encode_utf8(text)).subrange(0, 16)
}

/// Cuts the first sixteen bytes from a digest.
pub fn cut_seed(digest: &Vec<u8>) -> (seed: [u8; 16])
    requires
        digest@.len() >= 16,
    ensures
        seed@ == digest@.subrange(0, 16),
{
    let seed = [
        digest[0],
        digest[1],
        digest[2],
        digest[3],
        digest[4],
        digest[5],
        digest[6],
        digest[7],
        digest[8],
        digest[9],
        digest[10],
        digest[11],
        digest[12],
        digest[13],
        digest[14],
        digest[15],
    ];
    assert(seed@ =~= digest@.subrange(0, 16));
    seed
}

/// Makes a seed of a text.
fn make_seed(text: &String) -> (seed: [u8; 16])
    ensures
        seed@ == seed_of(text@),
{
    cut_seed(&sha256_digest(text.as_str().as_bytes()))
}

/// The order, as a list of indices, that chance gives in a block to every list of
/// some length.
pub open spec fn index_order(height: u64, length: nat) -> Seq<int> {
    fisher_yates(length, seed_of(decimal(height as nat) + decimal(length)), usize::BITS)
}

/// A list in the order that chance gives to it in a block.
pub open spec fn random_order(height: u64, tokens: Seq<u32>) -> Seq<u32> {
    rearranged(tokens, index_order(height, tokens.len()))
}

/// A list without duplicates of as many numbers as there are in a range holds all
/// of them.
pub proof fn lemma_range_filled(list: Seq<int>, low: int, high: int)
    requires
        low <= high,
        list.len() == high - low,
        list.no_duplicates(),
        forall|i: int| 0 <= i < list.len() ==> low <= #[trigger] list[i] < high,
    ensures
        forall|k: int| low <= k < high ==> #[trigger] list.contains(k),
{
    let range = set_int_range(low, high);
    lemma_int_range(low, high);
    list.unique_seq_to_set();
    assert(list.to_set().subset_of(range));
    lemma_subset_equality(list.to_set(), range);
    assert forall|k: int| low <= k < high implies #[trigger] list.contains(k) by {
        assert(range.contains(k));
        assert(list.to_set().contains(k));
    }
}

/// A list keeps its elements when it is rearranged.
pub proof fn lemma_rearranged(list: Seq<u32>, order: Seq<int>)
    requires
        permutes(order, list.len()),
    ensures
        rearranged(list, order).to_multiset() == list.to_multiset(),
    decreases list.len(),
{
    broadcast use group_to_multiset_ensures;

    let moved = rearranged(list, order);
    if list.len() == 0 {
        assert(moved =~= list);
    } else {
        let last = list.len() - 1;
        lemma_range_filled(order, 0, list.len() as int);
        assert(order.contains(last));
        let at = order.index_of(last);
        let less = order.remove(at);
        assert forall|i: int, j: int|
            0 <= i < less.len() && 0 <= j < less.len() && i != j implies less[i] != less[j] by {
            let a = if i < at {
                i
            } else {
                i + 1
            };
            let b = if j < at {
                j
            } else {
                j + 1
            };
            assert(less[i] == order[a] && less[j] == order[b]);
        }
        assert forall|i: int| 0 <= i < last implies 0 <= #[trigger] less[i] < last by {
            let a = if i < at {
                i
            } else {
                i + 1
            };
            assert(less[i] == order[a]);
            assert(order[a] != order[at]);
        }
        lemma_rearranged(list.drop_last(), less);
        assert(moved.remove(at) =~= rearranged(list.drop_last(), less));
        assert(moved[at] == list.last());
        assert(list =~= list.drop_last().push(list.last()));
        assert(moved =~= moved.remove(at).insert(at, moved[at]));
        to_multiset_insert(moved.remove(at), at, moved[at]);
        assert(list.to_multiset() =~= list.drop_last().to_multiset().insert(list.last()));
    }
}

/// Puts a list in the order that chance gives to it. The list keeps its elements,
/// and their values do not matter.
pub fn random_token_list(env: &Env, tokens: Vec<u32>) -> (r: Result<Vec<u32>, ContractError>)
    ensures
        r is Ok,
        r->Ok_0@ == random_order(env.height, tokens@),
        permutes(index_order(env.height, tokens@.len()), tokens@.len()),
        r->Ok_0@.to_multiset() == tokens@.to_multiset(),
{
    let mut text = decimal_string(env.height as u128);
    let length = decimal_string(tokens.len() as u128);
    text.append(length.as_str());
    let ghost given = tokens@;
    match fisher_yates_shuffle(tokens, make_seed(&text)) {
        Ok(list) => {
            proof {
                lemma_rearranged(given, index_order(env.height, given.len()));
            }
            Ok(list)
        },
        Err(msg) => Err(ContractError::Std(StdError::GenericErr { msg })),
    }
}

/// The numbers from one to `n`.
pub open spec fn numbered(n: nat) -> Seq<u32> {
    Seq::new(n, |i: int| (i + 1) as u32)
}

/// Lists the numbers from one to `n`.
pub fn number(n: u32) -> (list: Vec<u32>)
    ensures
        list@ == numbered(n as nat),
{
    let mut list: Vec<u32> = Vec::new();
    for i in 0..n
        invariant
            list@ =~= numbered(i as nat),
    {
        list.push(i + 1);
    }
    list
}

/// A sale's first table: position `p` holds the token whose number is the place of
/// `p` in the given order.
pub open spec fn first_table(order: Seq<u32>) -> Seq<TokenPositionMapping> {
    Seq::new(
        order.len(),
        |k: int|
            TokenPositionMapping {
                position: (k + 1) as u32,
                token_id: (order.index_of((k + 1) as u32) + 1) as u32,
            },
    )
}

/// A rearrangement of the numbers from one to `n` holds each of them once.
pub proof fn lemma_rearranged_numbers(order: Seq<u32>, n: nat)
    requires
        n <= u32::MAX,
        order.to_multiset() == numbered(n).to_multiset(),
    ensures
        order.len() == n,
        order.no_duplicates(),
        forall|i: int| 0 <= i < n ==> 1 <= #[trigger] order[i] <= n,
        forall|k: int| 1 <= k <= n ==> #[trigger] order.contains(k as u32),
{
    broadcast use group_to_multiset_ensures;

    let list = numbered(n);
    assert(order.len() == order.to_multiset().len());
    assert(list.len() == list.to_multiset().len());
    assert(list.no_duplicates());
    list.lemma_multiset_has_no_duplicates();
    order.lemma_multiset_has_no_duplicates_conv();
    assert forall|i: int| 0 <= i < n implies 1 <= #[trigger] order[i] <= n by {
        assert(order.contains(order[i]));
        assert(order.to_multiset().count(order[i]) > 0);
        assert(list.contains(order[i]));
    }
    assert forall|k: int| 1 <= k <= n implies #[trigger] order.contains(k as u32) by {
        assert(list[k - 1] == k as u32);
        assert(list.contains(k as u32));
        assert(list.to_multiset().count(k as u32) > 0);
    }
}

/// Numbers the tokens in the given order and lists them by position.
pub fn assign_token_ids(order: &Vec<u32>) -> (table: Vec<TokenPositionMapping>)
    requires
        order@.len() < u32::MAX,
        order@.to_multiset() == numbered(order@.len()).to_multiset(),
    ensures
        table@ == first_table(order@),
        ascending(table@),
{
    let n = order.len();
    proof {
        lemma_rearranged_numbers(order@, n as nat);
    }
    let mut table: Vec<TokenPositionMapping> = Vec::new();
    for k in 0..n
        invariant
            n < u32::MAX,
            table@.len() == k,
            forall|j: int| 0 <= j < k ==> (#[trigger] table@[j]).position == j + 1,
    {
        table.push(TokenPositionMapping { position: (k + 1) as u32, token_id: 0 });
    }
    for i in 0..n
        invariant
            n == order@.len(),
            n < u32::MAX,
            order@.no_duplicates(),
            forall|j: int| 0 <= j < n ==> 1 <= #[trigger] order@[j] <= n,
            table@.len() == n,
            forall|j: int| 0 <= j < n ==> (#[trigger] table@[j]).position == j + 1,
            forall|j: int| 0 <= j < i ==> table@[(#[trigger] order@[j]) - 1].token_id == j + 1,
    {
        let position = order[i];
        table.set(
            (position - 1) as usize,
            TokenPositionMapping { position, token_id: (i + 1) as u32 },
        );
    }
    assert forall|k: int| 0 <= k < n implies #[trigger] table@[k] == first_table(order@)[k] by {
        assert(order@.contains((k + 1) as u32));
        let j = order@.index_of((k + 1) as u32);
        assert(0 <= j < n && order@[j] == (k + 1) as u32);
        assert(table@[order@[j] - 1].token_id == j + 1);
    }
    assert(table@ =~= first_table(order@));
    table
}

/// The table with the tokens at two indices exchanged.
pub open spec fn exchanged(
    table: Seq<TokenPositionMapping>,
    i: int,
    j: int,
) -> Seq<TokenPositionMapping> {
    table.update(
        i,
        TokenPositionMapping { position: table[i].position, token_id: table[j].token_id },
    ).update(
        j,
        TokenPositionMapping { position: table[j].position, token_id: table[i].token_id },
    )
}

/// The table after its first `n` positions, one after another, have exchanged
/// their token with the position that the order gives in their place.
pub open spec fn shuffled(
    table: Seq<TokenPositionMapping>,
    order: Seq<u32>,
    n: nat,
) -> Seq<TokenPositionMapping>
    decreases n,
{
    if n == 0 {
        table
    } else {
        exchanged(
            shuffled(table, order, (n - 1) as nat),
            n - 1,
            places(table).index_of(order[n - 1]),
        )
    }
}

/// A shuffle moves no position, and the tokens stay the same.
pub proof fn lemma_shuffled(table: Seq<TokenPositionMapping>, order: Seq<u32>, n: nat)
    requires
        n <= order.len(),
        order.to_multiset() == places(table).to_multiset(),
    ensures
        shuffled(table, order, n).len() == table.len() == order.len(),
        places(shuffled(table, order, n)) == places(table),
        token_ids(shuffled(table, order, n)).to_multiset() == token_ids(table).to_multiset(),
        forall|i: int|
            0 <= i < order.len() ==> places(table).contains(#[trigger] order[i]) && 0 <= places(
                table,
            ).index_of(order[i]) < table.len(),
    decreases n,
{
    broadcast use group_to_multiset_ensures;

    assert(order.len() == order.to_multiset().len());
    assert(places(table).len() == places(table).to_multiset().len());
    assert forall|i: int| 0 <= i < order.len() implies places(table).contains(#[trigger] order[i])
        && 0 <= places(table).index_of(order[i]) < table.len() by {
        assert(order.contains(order[i]));
        assert(order.to_multiset().count(order[i]) > 0);
        assert(places(table).contains(order[i]));
    }
    if n > 0 {
        let before = shuffled(table, order, (n - 1) as nat);
        let i = n - 1;
        let j = places(table).index_of(order[n - 1]);
        lemma_shuffled(table, order, (n - 1) as nat);
        assert(places(table).contains(order[i]));
        lemma_exchanged(before, i, j);
    }
}

/// An exchange moves no position, and the tokens stay the same.
proof fn lemma_exchanged(table: Seq<TokenPositionMapping>, i: int, j: int)
    requires
        0 <= i < table.len(),
        0 <= j < table.len(),
    ensures
        places(exchanged(table, i, j)) == places(table),
        token_ids(exchanged(table, i, j)).to_multiset() == token_ids(table).to_multiset(),
{
    let ids = token_ids(table);
    let after = token_ids(exchanged(table, i, j));
    assert(places(exchanged(table, i, j)) =~= places(table));
    assert(after =~= ids.update(i, ids[j]).update(j, ids[i]));
    to_multiset_update(ids, i, ids[j]);
    to_multiset_update(ids.update(i, ids[j]), j, ids[i]);
    broadcast use group_to_multiset_ensures;

    assert(ids.contains(ids[i]));
    assert(ids.contains(ids[j]));
    assert(ids.to_multiset().count(ids[i]) > 0);
    assert(ids.to_multiset().count(ids[j]) > 0);
    assert(after.to_multiset() =~= ids.to_multiset());
}

/// Finds a position in a table.
fn find_position(table: &Vec<TokenPositionMapping>, position: u32) -> (at: usize)
    requires
        ascending(table@),
        places(table@).contains(position),
    ensures
        at < table@.len(),
        table@[at as int].position == position,
        at == places(table@).index_of(position),
{
    let ghost goal = places(table@).index_of(position);
    assert(0 <= goal < table@.len() && places(table@)[goal] == position);
    let mut low: usize = 0;
    let mut high: usize = table.len() - 1;
    while low < high
        invariant
            low <= goal <= high < table@.len(),
            ascending(table@),
            table@[goal].position == position,
        decreases high - low,
    {
        let middle = low + (high - low) / 2;
        if table[middle].position < position {
            low = middle + 1;
        } else {
            assert(middle < goal ==> table@[middle as int].position < table@[goal].position);
            high = middle;
        }
    }
    low
}

/// Shuffles a table: one after another, the positions exchange their token with
/// the position that the order gives in their place.
pub fn shuffle_positions(table: &mut Vec<TokenPositionMapping>, order: &Vec<u32>)
    requires
        ascending(old(table)@),
        order@.to_multiset() == places(old(table)@).to_multiset(),
    ensures
        final(table)@ == shuffled(old(table)@, order@, order@.len()),
        ascending(final(table)@),
        places(final(table)@) == places(old(table)@),
        token_ids(final(table)@).to_multiset() == token_ids(old(table)@).to_multiset(),
{
    let ghost first = table@;
    proof {
        lemma_shuffled(first, order@, 0);
    }
    for i in 0..order.len()
        invariant
            ascending(first),
            order@.to_multiset() == places(first).to_multiset(),
            first.len() == order@.len(),
            table@ == shuffled(first, order@, i as nat),
    {
        proof {
            lemma_shuffled(first, order@, i as nat);
            lemma_same_places(first, table@);
        }
        let other = find_position(table, order[i]);
        let here = table[i];
        let there = table[other];
        table.set(
            i,
            TokenPositionMapping { position: here.position, token_id: there.token_id },
        );
        table.set(
            other,
            TokenPositionMapping { position: there.position, token_id: here.token_id },
        );
    }
    proof {
        lemma_shuffled(first, order@, order@.len());
        lemma_same_places(first, table@);
    }
}

/// Whether a list ascends is a matter of its positions.
pub proof fn lemma_same_places(a: Seq<TokenPositionMapping>, b: Seq<TokenPositionMapping>)
    requires
        places(a) == places(b),
        ascending(a),
    ensures
        a.len() == b.len(),
        ascending(b),
{
    assert(places(a).len() == a.len());
    assert(places(b).len() == b.len());
    assert forall|i: int, j: int| 0 <= i < j < b.len() implies (#[trigger] b[i]).position < (
    #[trigger] b[j]).position by {
        assert(places(b)[i] == b[i].position);
        assert(places(b)[j] == b[j].position);
        assert(places(a)[i] == a[i].position);
        assert(places(a)[j] == a[j].position);
    }
}

/// Lists the positions of a table.
pub fn list_positions(table: &Vec<TokenPositionMapping>) -> (list: Vec<u32>)
    ensures
        list@ == places(table@),
{
    let mut list: Vec<u32> = Vec::new();
    for i in 0..table.len()
        invariant
            list@ =~= places(table@.take(i as int)),
    {
        list.push(table[i].position);
    }
    assert(table@.take(table@.len() as int) =~= table@);
    list
}

/// Finds the first position that holds a token.
pub fn find_token(table: &Vec<TokenPositionMapping>, token_id: u32) -> (r: Option<usize>)
    ensures
        match r {
            Some(at) => token_ids(table@).index_of_first(token_id) == Some(at as int) && at
                < table@.len(),
            None => token_ids(table@).index_of_first(token_id) is None,
        },
{
    proof {
        token_ids(table@).index_of_first_ensures(token_id);
    }
    let ghost ids = token_ids(table@);
    for i in 0..table.len()
        invariant
            ids == token_ids(table@),
            forall|j: int| 0 <= j < i ==> #[trigger] ids[j] != token_id,
    {
        if table[i].token_id == token_id {
            proof {
                ids.index_of_first_ensures(token_id);
                assert(ids[i as int] == token_id);
                assert(ids.contains(token_id));
                let found = ids.index_of_first(token_id)->0;
                assert(ids[found] == token_id);
            }
            return Some(i);
        }
    }
    None
}

/// The number that chance draws for a mint.
pub open spec fn drawn(sender: Seq<char>, num_tokens: u32, height: u64) -> u32 {
    xoshiro_first(seed_of(sender + decimal(num_tokens as nat) + decimal(height as nat)))
}

/// Draws the number for a mint.
pub fn draw(sender: &String, num_tokens: u32, height: u64) -> (r: u32)
    ensures
        r == drawn(sender@, num_tokens, height),
{
    let mut text = sender.clone();
    let count = decimal_string(num_tokens as u128);
    text.append(count.as_str());
    let block = decimal_string(height as u128);
    text.append(block.as_str());
    xoshiro_first_u32(make_seed(&text))
}

/// How far from its end of the order the drawn number picks.
pub open spec fn pick_offset(num_tokens: u32, r: u32) -> int {
    if num_tokens < PICK_RANGE {
        (r % num_tokens) as int
    } else {
        (r % PICK_RANGE) as int
    }
}

/// The index that a drawn number picks: an odd number counts from the end of the
/// order, an even one from its beginning.
pub open spec fn picked(num_tokens: u32, r: u32) -> int {
    if r % 2 == 1 {
        num_tokens - 1 - pick_offset(num_tokens, r)
    } else {
        pick_offset(num_tokens, r)
    }
}

/// A drawn number picks one of the first or the last fifty tokens that are left.
pub proof fn lemma_picked(num_tokens: u32, r: u32)
    requires
        num_tokens > 0,
    ensures
        0 <= picked(num_tokens, r) < num_tokens,
        picked(num_tokens, r) < PICK_RANGE || num_tokens - picked(num_tokens, r) <= PICK_RANGE,
{
}

/// Picks one of the first or the last fifty tokens that are left.
pub fn pick(num_tokens: u32, r: u32) -> (at: u32)
    requires
        num_tokens > 0,
    ensures
        at == picked(num_tokens, r),
        at < num_tokens,
        at < PICK_RANGE || num_tokens - at <= PICK_RANGE,
{
    let mut rem: u32 = PICK_RANGE;
    if rem > num_tokens {
        rem = num_tokens;
    }
    let n = r % rem;
    if r % 2 == 1 {
        num_tokens - 1 - n
    } else {
        n
    }
}

} // verus!
