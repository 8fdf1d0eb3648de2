//! What the lists, texts and orders behind the messages are.

use crate::chain::{
    plain_view, Answers, CoinView, CosmosMsgView, Env, MessageInfo, ReplyOn, ResponseView,
    StepView, SubMsgView,
};
use crate::fees::coins_view;
use crate::laws::minting::{
    count_of, plainly_paid, price_due, price_known, sent, token_can_be_made,
};
use crate::mint::{mint_outcome, mint_response};
use crate::outside::{fisher_yates, mint_json, seconds_text, sha256, xoshiro_first};
use crate::query::pairs;
use crate::state::{
    counts, looked_up, places, token_ids, MintCount, MintCounts, StateView, TokenPositionMapping,
};
use crate::text::{decimal, padded};
use crate::tokens::{drawn, first_table, numbered, picked, random_order};
use vstd::prelude::*;
use vstd::utf8::encode_utf8;

verus! {

/// The number that a text of digits stands for, read from the left.
pub open spec fn value(text: Seq<char>) -> int
    decreases text.len(),
{
    if text.len() == 0 {
        0
    } else {
        10 * value(text.drop_last()) + (text.last() as int - '0' as int)
    }
}

/// Whether a text consists of digits.
pub open spec fn digits(text: Seq<char>) -> bool {
    forall|i: int| 0 <= i < text.len() ==> '0' as int <= #[trigger] text[i] as int <= '9' as int
}

/// A number in decimal consists of digits, reads back as the number, and has no
/// leading zero but for nought itself.
pub proof fn law_decimal_reads_back(n: nat)
    ensures
        value(decimal(n)) == n,
        digits(decimal(n)),
        decimal(n).len() > 0,
        n > 0 ==> decimal(n)[0] != '0',
    decreases n,
{
    let text = decimal(n);
    if n < 10 {
        assert(text.drop_last() =~= Seq::empty());
        assert(value(text.drop_last()) == 0);
    } else {
        law_decimal_reads_back(n / 10);
        assert(text.drop_last() =~= decimal(n / 10));
        assert forall|i: int| 0 <= i < text.len() implies '0' as int <= #[trigger] text[i] as int
            <= '9' as int by {
            if i < text.len() - 1 {
                assert(text[i] == decimal(n / 10)[i]);
            }
        }
        assert(text[0] == decimal(n / 10)[0]);
    }
}

/// A number that is padded to a width consists of that many digits and reads back as
/// its lowest digits.
proof fn lemma_padded_reads_back(n: nat, width: nat, bound: nat)
    requires
        bound == power_of_ten(width),
    ensures
        padded(n, width).len() == width,
        digits(padded(n, width)),
        n < bound ==> value(padded(n, width)) == n,
    decreases width,
{
    let text = padded(n, width);
    if width > 0 {
        let less = power_of_ten((width - 1) as nat);
        lemma_padded_reads_back(n / 10, (width - 1) as nat, less);
        assert(text.drop_last() =~= padded(n / 10, (width - 1) as nat));
        assert forall|i: int| 0 <= i < text.len() implies '0' as int <= #[trigger] text[i] as int
            <= '9' as int by {
            if i < text.len() - 1 {
                assert(text[i] == padded(n / 10, (width - 1) as nat)[i]);
            }
        }
    }
}

/// Ten to some power.
pub open spec fn power_of_ten(n: nat) -> nat
    decreases n,
{
    if n == 0 {
        1
    } else {
        10 * power_of_ten((n - 1) as nat)
    }
}

/// A time as text: the whole seconds, a point, and nine digits for the nanoseconds.
pub proof fn law_time_reads_back(nanos: u64)
    ensures
        ({
            let text = seconds_text(nanos);
            let point = text.len() - 10;
            &&& point > 0
            &&& text[point] == '.'
            &&& digits(text.take(point))
            &&& digits(text.skip(point + 1))
            &&& value(text.take(point)) * 1_000_000_000 + value(text.skip(point + 1)) == nanos
        }),
{
    let whole = decimal((nanos / 1_000_000_000) as nat);
    let rest = padded((nanos % 1_000_000_000) as nat, 9);
    let text = seconds_text(nanos);
    law_decimal_reads_back((nanos / 1_000_000_000) as nat);
    reveal_with_fuel(power_of_ten, 10);
    lemma_padded_reads_back((nanos % 1_000_000_000) as nat, 9, 1_000_000_000);
    assert(text.take(whole.len() as int) =~= whole);
    assert(text.skip(whole.len() as int + 1) =~= rest);
}

/// What chance draws: for a mint, the first number of the generator that the digest of
/// the sender, the number of tokens left and the height of the block seeds; for a
/// list, the order that the digest of the height of the block and the length of the
/// list seeds.
pub proof fn law_what_chance_draws(
    sender: Seq<char>,
    num_tokens: u32,
    height: u64,
    list: Seq<u32>,
    i: int,
)
    requires
        0 <= i < list.len(),
    ensures
        drawn(sender, num_tokens, height) == xoshiro_first(
            sha256(
                encode_utf8(sender + decimal(num_tokens as nat) + decimal(height as nat)),
            ).subrange(0, 16),
        ),
        random_order(height, list).len() == list.len(),
        random_order(height, list)[i] == list[fisher_yates(
            list.len(),
            sha256(encode_utf8(decimal(height as nat) + decimal(list.len()))).subrange(0, 16),
            usize::BITS,
        )[i]],
{
}

/// A drawn number picks by its remainder by fifty, or by the number of tokens if that
/// is less: from the end if it is odd, and from the beginning if it is even.
pub proof fn law_what_a_number_picks(num_tokens: u32, r: u32)
    requires
        num_tokens > 0,
    ensures
        ({
            let span: u32 = if num_tokens < 50 {
                num_tokens
            } else {
                50
            };
            &&& r % 2 == 1 ==> picked(num_tokens, r) + r % span == num_tokens - 1
            &&& r % 2 == 0 ==> picked(num_tokens, r) == r % span
        }),
{
}

/// The lists that are read off a table hold its entries one by one, and the numbers
/// that a sale starts from are those from one on.
pub proof fn law_lists_of_a_table(table: Seq<TokenPositionMapping>, n: nat)
    requires
        n <= u32::MAX,
    ensures
        places(table).len() == table.len(),
        token_ids(table).len() == table.len(),
        pairs(table).len() == table.len(),
        forall|i: int|
            0 <= i < table.len() ==> {
                &&& places(table)[i] == (#[trigger] table[i]).position
                &&& token_ids(table)[i] == table[i].token_id
                &&& pairs(table)[i] == (table[i].position, table[i].token_id)
            },
        numbered(n).len() == n,
        forall|i: int| 0 <= i < n ==> #[trigger] numbered(n)[i] == i + 1,
{
}

/// The first table of a sale gives each position of an order the number of its place
/// in it.
pub proof fn law_first_table(order: Seq<u32>, j: int)
    requires
        order.len() <= u32::MAX,
        order.no_duplicates(),
        0 <= j < order.len(),
        1 <= order[j] <= order.len(),
    ensures
        first_table(order).len() == order.len(),
        first_table(order)[order[j] - 1] == (TokenPositionMapping {
            position: order[j],
            token_id: (j + 1) as u32,
        }),
{
    assert(order.contains(order[j]));
    let at = order.index_of(order[j]);
    assert(0 <= at < order.len() && order[at] == order[j]);
}

/// Of several entries for an address the last one holds, and an address without an
/// entry has no count.
pub proof fn law_last_count_holds(list: Seq<MintCount>, address: Seq<char>, at: int)
    ensures
        0 <= at < list.len() && list[at].address@ == address && (forall|i: int|
            at < i < list.len() ==> (#[trigger] list[i]).address@ != address) ==> looked_up(
            counts(list),
            address,
        ) == Some(list[at].count),
        (forall|i: int| 0 <= i < list.len() ==> (#[trigger] list[i]).address@ != address)
            ==> looked_up(counts(list), address) == None::<u32>,
    decreases list.len(),
{
    if list.len() > 0 {
        let less = list.drop_last();
        law_last_count_holds(less, address, at);
        assert(list.last() == list[list.len() - 1]);
        assert forall|i: int| 0 <= i < less.len() implies #[trigger] less[i] == list[i] by {}
    }
}

/// The count of an address in a sale is the one on record, or nothing; and what is on
/// record is what the list of counts holds.
pub proof fn law_count_of_an_address(state: StateView, address: Seq<char>, kept: MintCounts)
    ensures
        state.mint_count(address) == count_of(state, address),
        kept.deep_view() == counts(kept.list@),
        looked_up(state.minters, address) is Some <==> state.minters.contains_key(address),
        looked_up(state.minters, address) is Some ==> looked_up(state.minters, address)->0
            == state.minters[address],
{
}

/// A message may be taken exactly while the positions that are left ascend, are as
/// many as are counted, and leave room for the count of every mint to come.
pub proof fn law_when_a_message_may_be_taken(state: StateView)
    ensures
        state.wf() <==> {
            &&& state.positions.len() == state.mintable_num_tokens
            &&& forall|i: int, j: int|
                0 <= i < j < state.positions.len() ==> (#[trigger] state.positions[i]).position < (
                #[trigger] state.positions[j]).position
            &&& forall|a: Seq<char>| #[trigger]
                state.minters.contains_key(a) ==> state.minters[a] <= u32::MAX
                    - state.mintable_num_tokens
        },
{
}

/// What a sale that is in order, or fresh, is sure of.
pub proof fn law_a_sale_in_order(state: StateView, i: int, j: int)
    requires
        state.inv(),
    ensures
        state.wf(),
        1 <= state.config.num_tokens <= 10_000,
        1 <= state.config.per_address_limit <= 50,
        state.config.unit_price.denom == "ustars"@,
        state.config.unit_price.amount >= 50_000_000,
        state.config.start_time >= 1_647_032_400_000_000_000,
        state.mintable_num_tokens <= state.config.num_tokens,
        0 <= i < state.positions.len() ==> 1 <= state.positions[i].token_id
            <= state.config.num_tokens && 1 <= state.positions[i].position
            <= state.config.num_tokens,
        0 <= i < j < state.positions.len() ==> state.positions[i].token_id
            != state.positions[j].token_id && state.positions[i].position
            < state.positions[j].position,
        state.fresh() ==> state.mintable_num_tokens == state.config.num_tokens && forall|
            a: Seq<char>,
        | !#[trigger] state.minters.contains_key(a),
{
    if 0 <= i < j < state.positions.len() {
        assert(token_ids(state.positions)[i] == state.positions[i].token_id);
        assert(token_ids(state.positions)[j] == state.positions[j].token_id);
    }
}

/// A list of one coin.
pub proof fn law_one_coin(amount: u128, denom: Seq<char>)
    ensures
        coins_view(amount, denom).len() == 1,
        coins_view(amount, denom)[0].denom == denom,
        coins_view(amount, denom)[0].amount == amount,
{
}

/// How a response is put together: from nothing, entries of the log and messages are
/// added at the end, and on a plain message no report is wanted.
pub proof fn law_responses_are_put_together(
    told: ResponseView,
    key: Seq<char>,
    text: Seq<char>,
    sub: SubMsgView,
    msgs: Seq<CosmosMsgView>,
    msg: CosmosMsgView,
)
    ensures
        ResponseView::empty().attributes.len() == 0,
        ResponseView::empty().messages.len() == 0,
        told.attribute(key, text).attributes == told.attributes + seq![(key, text)],
        told.attribute(key, text).messages == told.messages,
        told.submessage(sub).messages == told.messages + seq![sub],
        told.submessage(sub).attributes == told.attributes,
        told.plain_messages(msgs).attributes == told.attributes,
        told.plain_messages(msgs).messages.len() == told.messages.len() + msgs.len(),
        told.plain_messages(msgs).messages.take(told.messages.len() as int) == told.messages,
        forall|i: int|
            0 <= i < msgs.len() ==> told.plain_messages(msgs).messages[told.messages.len() + i]
                == sent(#[trigger] msgs[i]),
        plain_view(msg) == (SubMsgView { id: 0, msg, gas_limit: None, reply_on: ReplyOn::Never }),
{
    assert(told.attribute(key, text).attributes =~= told.attributes + seq![(key, text)]);
    assert(told.submessage(sub).messages =~= told.messages + seq![sub]);
    assert(told.plain_messages(msgs).messages.take(told.messages.len() as int) =~= told.messages);
}

/// What a recorded mint says: its log names the action, the sender, the recipient, the
/// token, the fee and the price, and the message to the token contract comes after
/// those that dispose of the fee.
pub proof fn law_recorded_mint(
    contract_addr: Seq<char>,
    action: Seq<char>,
    sender: Seq<char>,
    owner: Seq<char>,
    token_id: u32,
    msg: Seq<u8>,
    fee: u128,
    amount: u128,
    fee_msgs: Seq<CosmosMsgView>,
)
    ensures
        ({
            let told = mint_response(
                contract_addr,
                action,
                sender,
                owner,
                token_id,
                msg,
                fee,
                amount,
                fee_msgs,
            );
            &&& told.attributes == seq![
                ("action"@, action),
                ("sender"@, sender),
                ("recipient"@, owner),
                ("token_id"@, decimal(token_id as nat)),
                ("network_fee"@, decimal(fee as nat)),
                ("mint_price"@, decimal(amount as nat)),
            ]
            &&& told.messages.len() == fee_msgs.len() + 1
            &&& forall|i: int|
                0 <= i < fee_msgs.len() ==> told.messages[i] == sent(#[trigger] fee_msgs[i])
            &&& told.messages.last() == sent(
                CosmosMsgView::Execute { contract_addr, msg, funds: Seq::empty() },
            )
        }),
{
    let told = mint_response(
        contract_addr,
        action,
        sender,
        owner,
        token_id,
        msg,
        fee,
        amount,
        fee_msgs,
    );
    assert(told.attributes =~= seq![
        ("action"@, action),
        ("sender"@, sender),
        ("recipient"@, owner),
        ("token_id"@, decimal(token_id as nat)),
        ("network_fee"@, decimal(fee as nat)),
        ("mint_price"@, decimal(amount as nat)),
    ]);
}

/// What all mints share, whoever asks. A mint without a fee is free and one with a fee
/// costs the price that holds, of which a tenth is the fee; the token goes to the
/// recipient, or to the sender where none is given; a given token is taken where it
/// is left, and else one by chance; and the count is that of the sender.
pub proof fn law_what_all_mints_share(
    state: StateView,
    env: Env,
    info: MessageInfo,
    action: Seq<char>,
    admin_no_fee: bool,
    recipient: Option<Seq<char>>,
    token_id: Option<u32>,
    answers: Answers,
    at: int,
)
    requires
        state.wf(),
        token_can_be_made(state),
        !admin_no_fee ==> price_known(state, answers),
        admin_no_fee ==> plainly_paid(state, info, 0),
        !admin_no_fee ==> price_due(state, answers).amount > 0 && state.config.unit_price.denom
            == "ustars"@ && info.funds.deep_view().len() == 1 && info.funds.deep_view()[0] == (
        CoinView { denom: "ustars"@, amount: price_due(state, answers).amount }),
        0 <= at < state.positions.len(),
        token_id is Some ==> {
            &&& 1 <= token_id->0 <= state.config.num_tokens
            &&& state.positions[at].token_id == token_id->0
            &&& forall|i: int|
                0 <= i < at ==> (#[trigger] state.positions[i]).token_id != token_id->0
        },
        token_id is None ==> {
            let n = state.mintable_num_tokens;
            let text = info.sender@ + decimal(n as nat) + decimal(env.height as nat);
            let r = xoshiro_first(sha256(encode_utf8(text)).subrange(0, 16));
            let span: u32 = if n < 50 {
                n
            } else {
                50
            };
            at == if r % 2 == 1 {
                n - 1 - r % span
            } else {
                (r % span) as int
            }
        },
    ensures
        ({
            let out = mint_outcome(
                state,
                env,
                info,
                action,
                admin_no_fee,
                recipient,
                token_id,
                answers,
            );
            let paid: u128 = if admin_no_fee {
                0
            } else {
                info.funds.deep_view()[0].amount
            };
            let fee: u128 = paid / 10;
            let half: u128 = fee / 2;
            let owner = if recipient is Some {
                recipient->0
            } else {
                info.sender@
            };
            let id = decimal(state.positions[at].token_id as nat);
            let make = sent(
                CosmosMsgView::Execute {
                    contract_addr: state.sg721_address->0,
                    msg: mint_json(id, owner, state.config.base_token_uri + "/"@ + id),
                    funds: Seq::empty(),
                },
            );
            &&& out matches StepView::Done(Ok((after, told)))
            &&& told.attributes == seq![
                ("action"@, action),
                ("sender"@, info.sender@),
                ("recipient"@, owner),
                ("token_id"@, id),
                ("network_fee"@, decimal(fee as nat)),
                ("mint_price"@, decimal(paid as nat)),
            ]
            &&& admin_no_fee ==> told.messages == seq![make]
            &&& !admin_no_fee ==> told.messages == seq![
                sent(
                    CosmosMsgView::Burn {
                        amount: seq![CoinView { denom: "ustars"@, amount: half }],
                    },
                ),
                sent(
                    CosmosMsgView::FundCommunityPool {
                        amount: seq![CoinView { denom: "ustars"@, amount: (fee - half) as u128 }],
                    },
                ),
                make,
            ]
            &&& after.config == state.config
            &&& after.sg721_address == state.sg721_address
            &&& after.mintable_num_tokens == state.mintable_num_tokens - 1
            &&& after.positions == state.positions.take(at) + state.positions.skip(at + 1)
            &&& after.minters == state.minters.insert(
                info.sender@,
                (count_of(state, info.sender@) + 1) as u32,
            )
        }),
{
    let out = mint_outcome(
        state,
        env,
        info,
        action,
        admin_no_fee,
        recipient,
        token_id,
        answers,
    );
    let ids = token_ids(state.positions);
    if let Some(wanted) = token_id {
        ids.index_of_first_ensures(wanted);
        assert(ids[at] == wanted);
        assert(ids.contains(wanted));
        let found = ids.index_of_first(wanted)->0;
        assert(ids[found] == state.positions[found].token_id);
        if found < at {
            assert(state.positions[found].token_id == wanted);
        } else if at < found {
            assert(ids[at] != wanted);
        }
    }
    assert(out matches StepView::Done(Ok(_)));
    if let StepView::Done(Ok((after, told))) = out {
        let paid: u128 = if admin_no_fee {
            0
        } else {
            info.funds.deep_view()[0].amount
        };
        let fee: u128 = paid / 10;
        let half: u128 = fee / 2;
        let owner = if recipient is Some {
            recipient->0
        } else {
            info.sender@
        };
        let id = decimal(state.positions[at].token_id as nat);
        let make = sent(
            CosmosMsgView::Execute {
                contract_addr: state.sg721_address->0,
                msg: mint_json(id, owner, state.config.base_token_uri + "/"@ + id),
                funds: Seq::empty(),
            },
        );
        assert(told.attributes =~= seq![
            ("action"@, action),
            ("sender"@, info.sender@),
            ("recipient"@, owner),
            ("token_id"@, id),
            ("network_fee"@, decimal(fee as nat)),
            ("mint_price"@, decimal(paid as nat)),
        ]);
        if admin_no_fee {
            assert(told.messages =~= seq![make]);
        } else {
            assert(told.messages =~= seq![
                sent(
                    CosmosMsgView::Burn {
                        amount: seq![CoinView { denom: "ustars"@, amount: half }],
                    },
                ),
                sent(
                    CosmosMsgView::FundCommunityPool {
                        amount: seq![CoinView { denom: "ustars"@, amount: (fee - half) as u128 }],
                    },
                ),
                make,
            ]);
        }
        assert(after.positions =~= state.positions.take(at) + state.positions.skip(at + 1));
    }
}

} // verus!
