//! What holds of a sale at all times.

use crate::fees::NATIVE_DENOM;
use crate::mint::{after_mint, lemma_remove_ascending};
use crate::setup::{
    limit_out_of_bounds, GENESIS_MINT_START_TIME, MAX_TOKEN_LIMIT, MIN_MINT_PRICE,
};
use crate::state::{ascending, places, token_ids, StateView, TokenPositionMapping};
use vstd::prelude::*;
use vstd::seq_lib::*;

verus! {

/// The sum of the counts of all addresses.
pub open spec fn total(minters: Map<Seq<char>, u32>) -> nat
    decreases minters.dom().len(),
    when minters.dom().finite()
{
    if minters.dom().len() == 0 {
        0
    } else {
        let a = minters.dom().choose();
        minters[a] as nat + total(minters.remove(a))
    }
}

/// The sum is that of any one count and of the rest.
proof fn lemma_total_part(minters: Map<Seq<char>, u32>, a: Seq<char>)
    requires
        minters.dom().finite(),
        minters.contains_key(a),
    ensures
        total(minters) == minters[a] as nat + total(minters.remove(a)),
    decreases minters.dom().len(),
{
    let b = minters.dom().choose();
    assert(minters.dom().contains(a));
    assert(minters.dom().len() > 0);
    assert(minters.dom().contains(b));
    if a != b {
        assert(minters.remove(b).dom() =~= minters.dom().remove(b));
        assert(minters.remove(a).dom() =~= minters.dom().remove(a));
        lemma_total_part(minters.remove(b), a);
        lemma_total_part(minters.remove(a), b);
        assert(minters.remove(a).remove(b) =~= minters.remove(b).remove(a));
    }
}

/// One more for one address is one more in all.
proof fn lemma_total_counted(minters: Map<Seq<char>, u32>, a: Seq<char>, before: u32)
    requires
        minters.dom().finite(),
        before < u32::MAX,
        minters.contains_key(a) ==> minters[a] == before,
        !minters.contains_key(a) ==> before == 0,
    ensures
        total(minters.insert(a, (before + 1) as u32)) == total(minters) + 1,
{
    let after = minters.insert(a, (before + 1) as u32);
    assert(after.dom() =~= minters.dom().insert(a));
    lemma_total_part(after, a);
    if minters.contains_key(a) {
        lemma_total_part(minters, a);
        assert(after.remove(a) =~= minters.remove(a));
    } else {
        assert(after.remove(a) =~= minters);
    }
}

/// The tokens of a table are numbers up to `num_tokens`, none of them twice, and so
/// are its positions.
pub open spec fn table_inv(table: Seq<TokenPositionMapping>, num_tokens: u32) -> bool {
    &&& ascending(table)
    &&& token_ids(table).no_duplicates()
    &&& forall|i: int|
        0 <= i < table.len() ==> 1 <= (#[trigger] table[i]).position <= num_tokens && 1
            <= table[i].token_id <= num_tokens
}

impl StateView {
    /// What holds of a sale at all times: its terms are within their bounds, the
    /// tokens that are left are listed, each once, and every token that is not
    /// left counts as minted by one address.
    pub open spec fn inv(self) -> bool {
        &&& self.wf()
        &&& 1 <= self.config.num_tokens <= MAX_TOKEN_LIMIT
        &&& !limit_out_of_bounds(self.config.per_address_limit)
        &&& self.config.unit_price.denom == NATIVE_DENOM@
        &&& self.config.unit_price.amount >= MIN_MINT_PRICE
        &&& self.config.start_time >= GENESIS_MINT_START_TIME
        &&& table_inv(self.positions, self.config.num_tokens)
        &&& self.minters.dom().finite()
        &&& total(self.minters) + self.mintable_num_tokens == self.config.num_tokens
    }

    /// What holds of a sale at its start: nothing is minted.
    pub open spec fn fresh(self) -> bool {
        &&& self.inv()
        &&& self.minters == Map::<Seq<char>, u32>::empty()
        &&& self.mintable_num_tokens == self.config.num_tokens
    }
}

/// A token that has been taken from a table is not in it any more, and the others
/// still are.
pub proof fn lemma_token_removed(table: Seq<TokenPositionMapping>, at: int)
    requires
        0 <= at < table.len(),
        token_ids(table).no_duplicates(),
    ensures
        token_ids(table.remove(at)).no_duplicates(),
        forall|t: u32| #[trigger]
            token_ids(table.remove(at)).contains(t) <==> token_ids(table).contains(t) && t
                != table[at].token_id,
{
    let ids = token_ids(table);
    let less = token_ids(table.remove(at));
    assert(less =~= ids.remove(at));
    assert forall|t: u32| #[trigger] less.contains(t) implies ids.contains(t) && t
        != table[at].token_id by {
        let i = choose|i: int| 0 <= i < less.len() && less[i] == t;
        let j = if i < at {
            i
        } else {
            i + 1
        };
        assert(ids[j] == t);
        assert(ids[at] == table[at].token_id);
    }
    assert forall|t: u32| ids.contains(t) && t != table[at].token_id implies #[trigger] less.contains(
        t,
    ) by {
        let j = choose|j: int| 0 <= j < ids.len() && ids[j] == t;
        assert(ids[at] == table[at].token_id);
        let i = if j < at {
            j
        } else {
            j - 1
        };
        assert(less[i] == t);
    }
    assert forall|i: int, j: int| 0 <= i < less.len() && 0 <= j < less.len() && i != j implies less[i]
        != less[j] by {
        let a = if i < at {
            i
        } else {
            i + 1
        };
        let b = if j < at {
            j
        } else {
            j + 1
        };
        assert(less[i] == ids[a] && less[j] == ids[b]);
    }
}

/// What a table holds without one of its entries it held before.
pub proof fn lemma_ids_left(table: Seq<TokenPositionMapping>, at: int)
    requires
        0 <= at < table.len(),
    ensures
        token_ids(table).contains(table[at].token_id),
        forall|t: u32| #[trigger]
            token_ids(table.remove(at)).contains(t) ==> token_ids(table).contains(t),
{
    let ids = token_ids(table);
    let less = token_ids(table.remove(at));
    assert(ids[at] == table[at].token_id);
    assert forall|t: u32| #[trigger] less.contains(t) implies ids.contains(t) by {
        let i = choose|i: int| 0 <= i < less.len() && less[i] == t;
        let j = if i < at {
            i
        } else {
            i + 1
        };
        assert(ids[j] == t);
    }
}

/// Taking an entry from a table keeps the invariant of the table.
pub proof fn lemma_mint_table_inv(table: Seq<TokenPositionMapping>, at: int, num_tokens: u32)
    requires
        table_inv(table, num_tokens),
        0 <= at < table.len(),
    ensures
        table_inv(table.remove(at), num_tokens),
{
    let less = table.remove(at);
    lemma_remove_ascending(table, at);
    lemma_token_removed(table, at);
    assert forall|i: int| 0 <= i < less.len() implies 1 <= (#[trigger] less[i]).position
        <= num_tokens && 1 <= less[i].token_id <= num_tokens by {
        let j = if i < at {
            i
        } else {
            i + 1
        };
        assert(less[i] == table[j]);
    }
}

/// A mint keeps the invariant.
pub proof fn lemma_mint_inv(state: StateView, sender: Seq<char>, at: int)
    requires
        state.inv(),
        0 <= at < state.positions.len(),
    ensures
        after_mint(state, sender, at).inv(),
{
    let after = after_mint(state, sender, at);
    lemma_mint_table_inv(state.positions, at, state.config.num_tokens);
    if state.minters.contains_key(sender) {
        lemma_total_part(state.minters, sender);
    }
    lemma_total_counted(state.minters, sender, state.mint_count(sender));
    assert(after.minters.dom() =~= state.minters.dom().insert(sender));
    assert forall|a: Seq<char>| #[trigger] after.minters.contains_key(a) implies after.minters[a]
        + after.mintable_num_tokens <= u32::MAX by {
        lemma_total_part(after.minters, a);
    }
}

/// A change of the order of the tokens changes none of them.
pub proof fn lemma_same_ids(table: Seq<TokenPositionMapping>, other: Seq<TokenPositionMapping>)
    requires
        token_ids(other).to_multiset() == token_ids(table).to_multiset(),
    ensures
        forall|t: u32| #[trigger] token_ids(other).contains(t) <==> token_ids(table).contains(t),
{
    broadcast use group_to_multiset_ensures;

    let ids = token_ids(table);
    let others = token_ids(other);
    assert forall|t: u32| #[trigger] others.contains(t) <==> ids.contains(t) by {
        assert(others.contains(t) <==> others.to_multiset().count(t) > 0);
        assert(ids.contains(t) <==> ids.to_multiset().count(t) > 0);
    }
}

/// A change of the order of the tokens keeps the invariant of a table.
pub proof fn lemma_reordered_inv(
    table: Seq<TokenPositionMapping>,
    other: Seq<TokenPositionMapping>,
    num_tokens: u32,
)
    requires
        table_inv(table, num_tokens),
        ascending(other),
        places(other) == places(table),
        token_ids(other).to_multiset() == token_ids(table).to_multiset(),
    ensures
        table_inv(other, num_tokens),
{
    broadcast use group_to_multiset_ensures;

    let ids = token_ids(table);
    let others = token_ids(other);
    ids.lemma_multiset_has_no_duplicates();
    others.lemma_multiset_has_no_duplicates_conv();
    lemma_same_ids(table, other);
    assert(places(other).len() == other.len());
    assert(places(table).len() == table.len());
    assert forall|i: int| 0 <= i < other.len() implies 1 <= (#[trigger] other[i]).position
        <= num_tokens && 1 <= other[i].token_id <= num_tokens by {
        assert(places(other)[i] == other[i].position);
        assert(places(table)[i] == table[i].position);
        assert(others[i] == other[i].token_id);
        assert(others.contains(other[i].token_id));
        assert(ids.contains(other[i].token_id));
        let j = choose|j: int| 0 <= j < ids.len() && ids[j] == other[i].token_id;
        assert(table[j].token_id == other[i].token_id);
    }
}

} // verus!
