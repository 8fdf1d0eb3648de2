//! What a sale keeps between messages.

use crate::chain::{Coin, CoinView};
use vstd::prelude::*;

verus! {

/// How a sale is set up.
#[derive(Debug, PartialEq, Eq)]
pub struct Config {
    pub admin: String,
    pub base_token_uri: String,
    pub num_tokens: u32,
    pub sg721_code_id: u64,
    /// In nanoseconds since the epoch.
    pub start_time: u64,
    pub unit_price: Coin,
    pub per_address_limit: u32,
    pub whitelist: Option<String>,
}

/// The model of a [`Config`].
pub struct ConfigView {
    pub admin: Seq<char>,
    pub base_token_uri: Seq<char>,
    pub num_tokens: u32,
    pub sg721_code_id: u64,
    pub start_time: u64,
    pub unit_price: CoinView,
    pub per_address_limit: u32,
    pub whitelist: Option<Seq<char>>,
}

impl DeepView for Config {
    type V = ConfigView;

    open spec fn deep_view(&self) -> ConfigView {
        ConfigView {
            admin: self.admin@,
            base_token_uri: self.base_token_uri@,
            num_tokens: self.num_tokens,
            sg721_code_id: self.sg721_code_id,
            start_time: self.start_time,
            unit_price: self.unit_price.deep_view(),
            per_address_limit: self.per_address_limit,
            whitelist: self.whitelist.deep_view(),
        }
    }
}

/// A place in the sale's order, and the token that stands there.
#[derive(Debug, Clone, Copy, PartialEq, Eq, Structural)]
pub struct TokenPositionMapping {
    pub position: u32,
    pub token_id: u32,
}

/// How many tokens an address has minted.
#[derive(Debug, PartialEq, Eq)]
pub struct MintCount {
    pub address: String,
    pub count: u32,
}

/// The counts of a list; of two for one address the later one holds.
pub open spec fn counts(list: Seq<MintCount>) -> Map<Seq<char>, u32>
    decreases list.len(),
{
    if list.len() == 0 {
        Map::empty()
    } else {
        counts(list.drop_last()).insert(list.last().address@, list.last().count)
    }
}

proof fn lemma_counts_absent(list: Seq<MintCount>, address: Seq<char>)
    requires
        forall|i: int| 0 <= i < list.len() ==> (#[trigger] list[i]).address@ != address,
    ensures
        !counts(list).contains_key(address),
    decreases list.len(),
{
    if list.len() > 0 {
        lemma_counts_absent(list.drop_last(), address);
        assert(list.last() == list[list.len() - 1]);
    }
}

/// The last entry for an address is the one that counts, and to change it is to
/// change the count.
proof fn lemma_counts_last(list: Seq<MintCount>, at: int, entry: MintCount)
    requires
        0 <= at < list.len(),
        entry.address@ == list[at].address@,
        forall|i: int| at < i < list.len() ==> (#[trigger] list[i]).address@ != entry.address@,
    ensures
        counts(list).contains_key(entry.address@),
        counts(list)[entry.address@] == list[at].count,
        counts(list.update(at, entry)) == counts(list).insert(entry.address@, entry.count),
    decreases list.len(),
{
    let changed = list.update(at, entry);
    if at == list.len() - 1 {
        assert(changed.drop_last() =~= list.drop_last());
        assert(counts(changed) =~= counts(list).insert(entry.address@, entry.count));
    } else {
        lemma_counts_last(list.drop_last(), at, entry);
        assert(changed.drop_last() =~= list.drop_last().update(at, entry));
        assert(list.last() == list[list.len() - 1]);
        assert(counts(changed) =~= counts(list).insert(entry.address@, entry.count));
    }
}

/// How many tokens each address has minted.
#[derive(Debug, PartialEq, Eq)]
pub struct MintCounts {
    pub list: Vec<MintCount>,
}

impl DeepView for MintCounts {
    type V = Map<Seq<char>, u32>;

    open spec fn deep_view(&self) -> Map<Seq<char>, u32> {
        counts(self.list@)
    }
}

/// What a key holds in a map, if anything.
pub open spec fn looked_up(map: Map<Seq<char>, u32>, key: Seq<char>) -> Option<u32> {
    if map.contains_key(key) {
        Some(map[key])
    } else {
        None
    }
}

impl MintCounts {
    /// No address has minted anything.
    pub fn new() -> (r: Self)
        ensures
            r.deep_view() == Map::<Seq<char>, u32>::empty(),
    {
        MintCounts { list: Vec::new() }
    }

    /// Where the last entry for an address is.
    fn find(&self, address: &String) -> (r: Option<usize>)
        ensures
            match r {
                Some(at) => {
                    &&& at < self.list@.len()
                    &&& self.list@[at as int].address@ == address@
                    &&& forall|i: int|
                        at < i < self.list@.len() ==> (#[trigger] self.list@[i]).address@
                            != address@
                },
                None => forall|i: int|
                    0 <= i < self.list@.len() ==> (#[trigger] self.list@[i]).address@ != address@,
            },
    {
        let mut left: usize = self.list.len();
        while left > 0
            invariant
                left <= self.list@.len(),
                forall|i: int|
                    left <= i < self.list@.len() ==> (#[trigger] self.list@[i]).address@
                        != address@,
            decreases left,
        {
            left = left - 1;
            if self.list[left].address == *address {
                return Some(left);
            }
        }
        None
    }

    /// The count of an address, if it has one.
    pub fn get(&self, address: &String) -> (r: Option<u32>)
        ensures
            r == looked_up(self.deep_view(), address@),
    {
        match self.find(address) {
            Some(at) => {
                proof {
                    lemma_counts_last(self.list@, at as int, self.list@[at as int]);
                }
                Some(self.list[at].count)
            },
            None => {
                proof {
                    lemma_counts_absent(self.list@, address@);
                }
                None
            },
        }
    }

    /// Sets the count of an address.
    pub fn set(&mut self, address: &String, count: u32)
        ensures
            final(self).deep_view() == old(self).deep_view().insert(address@, count),
    {
        let entry = MintCount { address: address.clone(), count };
        match self.find(address) {
            Some(at) => {
                proof {
                    lemma_counts_last(self.list@, at as int, entry);
                }
                self.list.set(at, entry);
            },
            None => {
                let ghost before = self.list@;
                self.list.push(entry);
                assert(self.list@.drop_last() =~= before);
            },
        }
    }
}

/// What a sale keeps.
#[derive(Debug, PartialEq, Eq)]
pub struct State {
    pub config: Config,
    /// The token contract, once it is made.
    pub sg721_address: Option<String>,
    /// How many tokens are left.
    pub mintable_num_tokens: u32,
    /// The tokens that are left, by position.
    pub mintable_token_positions: Vec<TokenPositionMapping>,
    pub minter_addrs: MintCounts,
}

/// The model of a [`State`].
#[verifier::ext_equal]
pub struct StateView {
    pub config: ConfigView,
    pub sg721_address: Option<Seq<char>>,
    pub mintable_num_tokens: u32,
    pub positions: Seq<TokenPositionMapping>,
    pub minters: Map<Seq<char>, u32>,
}

impl DeepView for State {
    type V = StateView;

    open spec fn deep_view(&self) -> StateView {
        StateView {
            config: self.config.deep_view(),
            sg721_address: self.sg721_address.deep_view(),
            mintable_num_tokens: self.mintable_num_tokens,
            positions: self.mintable_token_positions@,
            minters: self.minter_addrs.deep_view(),
        }
    }
}

/// The positions of a list ascend, so that none occurs twice.
pub open spec fn ascending(positions: Seq<TokenPositionMapping>) -> bool {
    forall|i: int, j: int|
        0 <= i < j < positions.len() ==> (#[trigger] positions[i]).position < (
        #[trigger] positions[j]).position
}

/// The ids of the tokens in a list.
pub open spec fn token_ids(positions: Seq<TokenPositionMapping>) -> Seq<u32> {
    positions.map_values(|m: TokenPositionMapping| m.token_id)
}

/// The places in a list.
pub open spec fn places(positions: Seq<TokenPositionMapping>) -> Seq<u32> {
    positions.map_values(|m: TokenPositionMapping| m.position)
}

impl StateView {
    /// How many tokens an address has minted.
    pub open spec fn mint_count(self, address: Seq<char>) -> u32 {
        if self.minters.contains_key(address) {
            self.minters[address]
        } else {
            0
        }
    }

    /// What every message may rely on: the tokens that are left are listed by
    /// position, as many as are counted, and each mint that is left can be counted.
    pub open spec fn wf(self) -> bool {
        &&& ascending(self.positions)
        &&& self.positions.len() == self.mintable_num_tokens
        &&& forall|a: Seq<char>| #[trigger]
            self.minters.contains_key(a) ==> self.minters[a] + self.mintable_num_tokens
                <= u32::MAX
    }
}

impl State {
    /// Checks what every message relies on.
    pub fn is_wf(&self) -> (r: bool)
        ensures
            r == self.deep_view().wf(),
    {
        let table = &self.mintable_token_positions;
        if table.len() != self.mintable_num_tokens as usize {
            return false;
        }
        let mut i: usize = 1;
        while i < table.len()
            invariant
                1 <= i,
                i <= table@.len() || table@.len() == 0,
                table@ == self.deep_view().positions,
                forall|a: int, b: int|
                    0 <= a < b < i && b < table@.len() ==> (#[trigger] table@[a]).position < (
                    #[trigger] table@[b]).position,
            decreases table@.len() - i,
        {
            if table[i - 1].position >= table[i].position {
                assert(!self.deep_view().wf());
                return false;
            }
            i = i + 1;
        }
        let list = &self.minter_addrs.list;
        let ghost held = self.minter_addrs.deep_view();
        let mut i: usize = 0;
        while i < list.len()
            invariant
                i <= list@.len(),
                list@ == self.minter_addrs.list@,
                held == self.minter_addrs.deep_view(),
                forall|j: int|
                    0 <= j < i ==> {
                        let a = (#[trigger] list@[j]).address@;
                        held.contains_key(a) ==> held[a] + self.mintable_num_tokens <= u32::MAX
                    },
            decreases list@.len() - i,
        {
            if let Some(count) = self.minter_addrs.get(&list[i].address) {
                if count > u32::MAX - self.mintable_num_tokens {
                    assert(self.deep_view().minters.contains_key(list@[i as int].address@));
                    return false;
                }
            }
            i = i + 1;
        }
        assert forall|a: Seq<char>| #[trigger] held.contains_key(a) implies held[a]
            + self.mintable_num_tokens <= u32::MAX by {
            if forall|j: int| 0 <= j < list@.len() ==> (#[trigger] list@[j]).address@ != a {
                lemma_counts_absent(list@, a);
            }
        }
        true
    }
}

} // verus!
