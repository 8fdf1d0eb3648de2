use minter::admin::execute_withdraw;
use minter::chain::{
    Answers, Coin, CosmosMsg, Env, MessageInfo, Question, ReplyOn, Response, Step, SubMsg,
    WhitelistConfig,
};
use minter::contract::{execute, is_stuck};
use minter::error::{ContractError, FeeError, PaymentError, StdError};
use minter::mint::{
    encode_mint, execute_mint_for, execute_mint_sender, execute_mint_to, mint_price,
    random_mintable_token_mapping, record_mint,
};
use minter::msg::{
    CollectionInfo, ConfigResponse, ExecuteMsg, InstantiateMsg, MintCountResponse,
    MintPriceResponse, QueryMsg, QueryResponse, Reply, RoyaltyInfo, Sg721InstantiateMsg,
};
use minter::query::query;
use minter::setup::{check_setup, instantiate, reply, GENESIS_MINT_START_TIME};
use minter::state::{MintCounts, State, TokenPositionMapping};
use minter::tokens::draw;

const START: u64 = GENESIS_MINT_START_TIME + 1_000;
const PRICE: u128 = 100_000_000;

fn coin(amount: u128, denom: &str) -> Coin {
    Coin { denom: denom.to_string(), amount }
}

fn env(time: u64) -> Env {
    Env { height: 12345, time, contract: "minter".to_string() }
}

fn from(sender: &str, funds: Vec<Coin>) -> MessageInfo {
    MessageInfo { sender: sender.to_string(), funds }
}

fn paying(sender: &str, amount: u128) -> MessageInfo {
    from(sender, vec![coin(amount, "ustars")])
}

fn collection() -> CollectionInfo {
    CollectionInfo {
        creator: "creator".to_string(),
        description: "Stargaze Monkeys".to_string(),
        image: "https://example.com/image.png".to_string(),
        external_link: Some("https://example.com/external.html".to_string()),
        royalty_info: Some(RoyaltyInfo {
            payment_address: "creator".to_string(),
            share: 100_000_000_000_000_000,
        }),
    }
}

fn terms(num_tokens: u32) -> InstantiateMsg {
    InstantiateMsg {
        base_token_uri: "ipfs://aldkfjads".to_string(),
        num_tokens,
        sg721_code_id: 7,
        sg721_instantiate_msg: Sg721InstantiateMsg {
            name: "Collection".to_string(),
            symbol: "COL".to_string(),
            minter: "ignored".to_string(),
            collection_info: collection(),
        },
        start_time: START,
        per_address_limit: 2,
        unit_price: coin(PRICE, "ustars"),
        whitelist: None,
    }
}

fn set_up(msg: InstantiateMsg) -> (State, Response) {
    match instantiate(&env(START - 10), &from("creator", vec![]), msg, &Answers::none()) {
        Step::Done(Ok(done)) => done,
        other => panic!("{:?}", other),
    }
}

fn refused(msg: InstantiateMsg) -> ContractError {
    match instantiate(&env(START - 10), &from("creator", vec![]), msg, &Answers::none()) {
        Step::Done(Err(e)) => e,
        other => panic!("{:?}", other),
    }
}

/// The bytes in which the chain reports the address of a new contract.
fn report(address: &str) -> Vec<u8> {
    let mut bytes = vec![0x0a, address.len() as u8];
    bytes.extend_from_slice(address.as_bytes());
    bytes
}

fn sale(num_tokens: u32) -> State {
    let (mut state, _) = set_up(terms(num_tokens));
    let made = Reply { id: 1, result: Ok(Some(report("sg721"))) };
    reply(&mut state, made).unwrap();
    state
}

fn ids(state: &State) -> Vec<u32> {
    let mut ids: Vec<u32> =
        state.mintable_token_positions.iter().map(|m| m.token_id).collect();
    ids.sort();
    ids
}

fn ids_by_position(state: &State) -> Vec<u32> {
    state.mintable_token_positions.iter().map(|m| m.token_id).collect()
}

fn done(step: Step<Response, ContractError>) -> Response {
    match step {
        Step::Done(Ok(response)) => response,
        other => panic!("{:?}", other),
    }
}

fn failed(step: Step<Response, ContractError>) -> ContractError {
    match step {
        Step::Done(Err(e)) => e,
        other => panic!("{:?}", other),
    }
}

fn attribute(response: &Response, key: &str) -> String {
    response.attributes.iter().find(|(k, _)| k == key).unwrap().1.clone()
}

fn address(text: &str) -> Answers {
    let mut answers = Answers::none();
    answers.address = Some(Ok(text.to_string()));
    answers
}

fn no_address() -> Answers {
    let mut answers = Answers::none();
    answers.address = Some(Err(StdError::GenericErr { msg: "invalid".to_string() }));
    answers
}

fn whitelist(is_active: bool) -> WhitelistConfig {
    WhitelistConfig { per_address_limit: 1, unit_price: coin(60_000_000, "ustars"), is_active }
}

fn whitelisted(is_active: bool, member: bool) -> Answers {
    let mut answers = Answers::none();
    answers.whitelist_config = Some(Ok(whitelist(is_active)));
    answers.has_member = Some(Ok(member));
    answers.whitelist_price = Some(Ok(whitelist(is_active)));
    answers
}

fn down() -> StdError {
    StdError::GenericErr { msg: "down".to_string() }
}

#[test]
fn setup_makes_the_token_contract() {
    let (state, response) = set_up(terms(10));
    assert_eq!(state.config.admin, "creator");
    assert_eq!(state.config.num_tokens, 10);
    assert_eq!(state.config.whitelist, None);
    assert_eq!(state.sg721_address, None);
    assert_eq!(state.mintable_num_tokens, 10);
    assert_eq!(state.minter_addrs, MintCounts { list: vec![] });
    let positions: Vec<u32> = state.mintable_token_positions.iter().map(|m| m.position).collect();
    assert_eq!(positions, vec![1, 2, 3, 4, 5, 6, 7, 8, 9, 10]);
    assert_eq!(ids(&state), vec![1, 2, 3, 4, 5, 6, 7, 8, 9, 10]);
    assert_ne!(
        state.mintable_token_positions.iter().map(|m| m.token_id).collect::<Vec<u32>>(),
        positions
    );
    assert!(state.is_wf());
    assert_eq!(
        response,
        Response {
            attributes: vec![
                ("action".to_string(), "instantiate".to_string()),
                ("contract_name".to_string(), "crates.io:sg-minter".to_string()),
                ("contract_version".to_string(), "0.1.0".to_string()),
                ("sender".to_string(), "creator".to_string()),
            ],
            messages: vec![SubMsg {
                id: 1,
                msg: CosmosMsg::Instantiate {
                    admin: Some("creator".to_string()),
                    code_id: 7,
                    msg: Sg721InstantiateMsg {
                        name: "Collection".to_string(),
                        symbol: "COL".to_string(),
                        minter: "minter".to_string(),
                        collection_info: collection(),
                    },
                    funds: vec![],
                    label: "Fixed price minter".to_string(),
                },
                gas_limit: None,
                reply_on: ReplyOn::Success,
            }],
        }
    );
}

#[test]
fn setup_bounds_the_number_of_tokens() {
    assert_eq!(refused(terms(0)), ContractError::InvalidNumTokens { max: 10000, min: 1 });
    assert_eq!(refused(terms(10001)), ContractError::InvalidNumTokens { max: 10000, min: 1 });
    let (state, _) = set_up(terms(10000));
    assert_eq!(ids(&state), (1..=10000).collect::<Vec<u32>>());
    let (state, _) = set_up(terms(1));
    assert_eq!(
        state.mintable_token_positions,
        vec![TokenPositionMapping { position: 1, token_id: 1 }]
    );
}

#[test]
fn setup_bounds_the_limit_per_address() {
    for limit in [0, 51] {
        let mut msg = terms(10);
        msg.per_address_limit = limit;
        assert_eq!(
            refused(msg),
            ContractError::InvalidPerAddressLimit { max: 50, min: 1, got: limit }
        );
    }
    let mut msg = terms(10);
    msg.per_address_limit = 50;
    assert_eq!(set_up(msg).0.config.per_address_limit, 50);
}

#[test]
fn setup_checks_the_base_token_uri() {
    let mut msg = terms(10);
    msg.base_token_uri = "https://aldkfjads".to_string();
    assert_eq!(refused(msg), ContractError::InvalidBaseTokenURI {});
    let mut msg = terms(10);
    msg.base_token_uri = "aldkfjads".to_string();
    assert_eq!(
        refused(msg),
        ContractError::ParseError("relative URL without a base".to_string())
    );
    let mut msg = terms(10);
    msg.base_token_uri = "IPFS://aldkfjads".to_string();
    assert_eq!(set_up(msg).0.config.base_token_uri, "IPFS://aldkfjads");
}

#[test]
fn setup_checks_a_given_scheme() {
    let msg = terms(10);
    let scheme = |text: &str| Ok(text.to_string());
    assert_eq!(check_setup(&env(START), &msg, scheme("ipfs")), Ok(()));
    assert_eq!(
        check_setup(&env(START), &msg, scheme("http")),
        Err(ContractError::InvalidBaseTokenURI {})
    );
    assert_eq!(
        check_setup(&env(START), &msg, Err("why".to_string())),
        Err(ContractError::ParseError("why".to_string()))
    );
}

#[test]
fn setup_checks_the_price() {
    let mut msg = terms(10);
    msg.unit_price = coin(PRICE, "uosmo");
    assert_eq!(
        refused(msg),
        ContractError::InvalidDenom { expected: "ustars".to_string(), got: "uosmo".to_string() }
    );
    let mut msg = terms(10);
    msg.unit_price = coin(49_999_999, "ustars");
    assert_eq!(
        refused(msg),
        ContractError::InsufficientMintPrice { expected: 50_000_000, got: 49_999_999 }
    );
    let mut msg = terms(10);
    msg.unit_price = coin(50_000_000, "ustars");
    assert_eq!(set_up(msg).0.config.unit_price.amount, 50_000_000);
}

#[test]
fn setup_checks_the_start_time() {
    let mut msg = terms(10);
    msg.start_time = GENESIS_MINT_START_TIME - 1;
    assert_eq!(refused(msg), ContractError::BeforeGenesisTime {});
    let mut msg = terms(10);
    msg.start_time = START - 11;
    assert_eq!(refused(msg), ContractError::InvalidStartTime(START - 11, START - 10));
    let mut msg = terms(10);
    msg.start_time = START - 10;
    assert_eq!(set_up(msg).0.config.start_time, START - 10);
}

#[test]
fn setup_asks_for_the_whitelist() {
    let with_whitelist = || {
        let mut msg = terms(10);
        msg.whitelist = Some("wl".to_string());
        msg
    };
    let info = from("creator", vec![]);
    assert_eq!(
        instantiate(&env(START), &info, with_whitelist(), &Answers::none()),
        Step::Ask(Question::ValidateAddress { input: "wl".to_string() })
    );
    match instantiate(&env(START), &info, with_whitelist(), &address("wl1")) {
        Step::Done(Ok((state, _))) => assert_eq!(state.config.whitelist, Some("wl1".to_string())),
        other => panic!("{:?}", other),
    }
    match instantiate(&env(START), &info, with_whitelist(), &no_address()) {
        Step::Done(Ok((state, _))) => assert_eq!(state.config.whitelist, None),
        other => panic!("{:?}", other),
    }
}

#[test]
fn reply_keeps_the_address() {
    let (mut state, _) = set_up(terms(10));
    let response = reply(&mut state, Reply { id: 1, result: Ok(Some(report("sg721"))) }).unwrap();
    assert_eq!(attribute(&response, "action"), "instantiate_sg721_reply");
    assert_eq!(state.sg721_address, Some("sg721".to_string()));
}

#[test]
fn reply_is_refused() {
    let (mut state, _) = set_up(terms(10));
    assert_eq!(
        reply(&mut state, Reply { id: 2, result: Ok(Some(report("sg721"))) }),
        Err(ContractError::InvalidReplyID {})
    );
    for result in [
        Ok(None),
        Err("failed".to_string()),
        Ok(Some(vec![0x0a, 9, b'x'])),
        Ok(Some(vec![0x12, 1, b'x'])),
    ] {
        assert_eq!(
            reply(&mut state, Reply { id: 1, result }),
            Err(ContractError::InstantiateSg721Error {})
        );
    }
    assert_eq!(state.sg721_address, None);
}

#[test]
fn public_mint() {
    let mut state = sale(10);
    let expected = state.mintable_token_positions[4].token_id;
    let info = paying("buyer", PRICE);
    let response = done(execute_mint_sender(&mut state, &env(START), &info, &Answers::none()));

    assert!(!ids(&state).contains(&expected));
    assert_eq!(state.mintable_num_tokens, 9);
    assert_eq!(state.mintable_token_positions.len(), 9);
    assert_eq!(state.minter_addrs.get(&"buyer".to_string()), Some(1));
    assert_eq!(state.minter_addrs.get(&"other".to_string()), None);
    let text = expected.to_string();
    let json = format!(
        "{{\"mint\":{{\"token_id\":\"{}\",\"owner\":\"buyer\",\"token_uri\":\"ipfs://aldkfjads/{}\",\"extension\":{{}}}}}}",
        text, text
    );
    let plain =
        |msg: CosmosMsg| SubMsg { id: 0, msg, gas_limit: None, reply_on: ReplyOn::Never };
    assert_eq!(
        response,
        Response {
            attributes: vec![
                ("action".to_string(), "mint_sender".to_string()),
                ("sender".to_string(), "buyer".to_string()),
                ("recipient".to_string(), "buyer".to_string()),
                ("token_id".to_string(), text),
                ("network_fee".to_string(), "10000000".to_string()),
                ("mint_price".to_string(), "100000000".to_string()),
            ],
            messages: vec![
                plain(CosmosMsg::Burn { amount: vec![coin(5_000_000, "ustars")] }),
                plain(CosmosMsg::FundCommunityPool { amount: vec![coin(5_000_000, "ustars")] }),
                plain(CosmosMsg::Execute {
                    contract_addr: "sg721".to_string(),
                    msg: json.into_bytes(),
                    funds: vec![],
                }),
            ],
        }
    );
}

#[test]
fn mint_is_recorded_with_given_bytes() {
    let mut state = sale(3);
    let taken = state.mintable_token_positions[1];
    let response = record_mint(
        &mut state,
        &from("buyer", vec![]),
        "mint",
        "tokens".to_string(),
        "friend".to_string(),
        1,
        vec![1, 2, 3],
        4,
        40,
        vec![CosmosMsg::Burn { amount: vec![] }],
    );
    assert_eq!(
        state.mintable_token_positions.iter().map(|m| m.position).collect::<Vec<u32>>(),
        vec![1, 3]
    );
    assert!(!ids(&state).contains(&taken.token_id));
    assert_eq!(state.minter_addrs.get(&"buyer".to_string()), Some(1));
    assert_eq!(attribute(&response, "recipient"), "friend");
    assert_eq!(attribute(&response, "network_fee"), "4");
    assert_eq!(attribute(&response, "mint_price"), "40");
    assert_eq!(response.messages[0].msg, CosmosMsg::Burn { amount: vec![] });
    assert_eq!(
        response.messages[1].msg,
        CosmosMsg::Execute {
            contract_addr: "tokens".to_string(),
            msg: vec![1, 2, 3],
            funds: vec![],
        }
    );
}

#[test]
fn encoded_mint_escapes_its_texts() {
    let bytes = encode_mint(&"ipfs://a\"b".to_string(), 12, &"o\\w".to_string()).unwrap();
    assert_eq!(
        String::from_utf8(bytes).unwrap(),
        "{\"mint\":{\"token_id\":\"12\",\"owner\":\"o\\\\w\",\"token_uri\":\"ipfs://a\\\"b/12\",\"extension\":{}}}"
    );
}

#[test]
fn mint_counts_up_to_the_limit() {
    let mut state = sale(10);
    let info = paying("buyer", PRICE);
    done(execute_mint_sender(&mut state, &env(START), &info, &Answers::none()));
    // The next draw is odd and picks the third of nine that are left.
    let expected = state.mintable_token_positions[2].token_id;
    let response = done(execute_mint_sender(&mut state, &env(START), &info, &Answers::none()));
    assert_eq!(attribute(&response, "token_id"), expected.to_string());
    assert_eq!(state.minter_addrs.get(&"buyer".to_string()), Some(2));
    assert_eq!(
        failed(execute_mint_sender(&mut state, &env(START), &info, &Answers::none())),
        ContractError::MaxPerAddressLimitExceeded {}
    );
    done(execute_mint_sender(&mut state, &env(START), &paying("other", PRICE), &Answers::none()));
    assert_eq!(state.mintable_num_tokens, 7);
}

#[test]
fn public_mint_waits_for_the_start() {
    let mut state = sale(10);
    let info = paying("buyer", PRICE);
    assert_eq!(
        failed(execute_mint_sender(&mut state, &env(START - 1), &info, &Answers::none())),
        ContractError::BeforeMintStartTime {}
    );
    assert_eq!(state.mintable_num_tokens, 10);
}

#[test]
fn payment_has_to_be_exact() {
    let mut state = sale(10);
    for sent in [PRICE - 1, PRICE + 1] {
        assert_eq!(
            failed(execute_mint_sender(
                &mut state,
                &env(START),
                &paying("buyer", sent),
                &Answers::none()
            )),
            ContractError::IncorrectPaymentAmount(coin(sent, "ustars"), coin(PRICE, "ustars"))
        );
    }
    assert_eq!(
        failed(execute_mint_sender(
            &mut state,
            &env(START),
            &from("buyer", vec![]),
            &Answers::none()
        )),
        ContractError::IncorrectPaymentAmount(coin(0, "ustars"), coin(PRICE, "ustars"))
    );
    let funds = vec![coin(PRICE, "ustars"), coin(1, "uatom"), coin(2, "uosmo")];
    assert_eq!(
        failed(execute_mint_sender(
            &mut state,
            &env(START),
            &from("buyer", funds),
            &Answers::none()
        )),
        ContractError::Payment(PaymentError::ExtraDenom("uatom".to_string()))
    );
    assert_eq!(state.mintable_num_tokens, 10);
}

#[test]
fn mint_waits_for_the_token_contract() {
    let (mut state, _) = set_up(terms(10));
    assert_eq!(
        failed(execute_mint_sender(
            &mut state,
            &env(START),
            &paying("buyer", PRICE),
            &Answers::none()
        )),
        ContractError::Std(StdError::NotFound {
            kind: "cosmwasm_std::addresses::Addr".to_string()
        })
    );
}

#[test]
fn sold_out() {
    let mut state = sale(3);
    for left in [3, 2, 1] {
        assert_eq!(state.mintable_num_tokens, left);
        let answers = address("friend");
        let info = from("creator", vec![]);
        done(execute_mint_to(&mut state, &env(0), &info, "friend".to_string(), &answers));
    }
    assert_eq!(state.mintable_token_positions, vec![]);
    assert_eq!(state.minter_addrs.get(&"creator".to_string()), Some(3));
    assert_eq!(
        failed(execute_mint_sender(
            &mut state,
            &env(START),
            &paying("buyer", PRICE),
            &Answers::none()
        )),
        ContractError::SoldOut {}
    );
    assert_eq!(
        failed(execute(
            &mut state,
            &env(START),
            &paying("buyer", 500_000_000),
            ExecuteMsg::Shuffle {},
            &Answers::none()
        )),
        ContractError::SoldOut {}
    );
}

#[test]
fn whitelist_is_asked_in_turn() {
    let mut state = sale(10);
    state.config.whitelist = Some("wl".to_string());
    let info = paying("buyer", 60_000_000);
    let mut answers = Answers::none();
    assert_eq!(
        execute_mint_sender(&mut state, &env(START - 1), &info, &answers),
        Step::Ask(Question::WhitelistConfig { whitelist: "wl".to_string() })
    );
    answers.whitelist_config = Some(Ok(whitelist(true)));
    assert_eq!(
        execute_mint_sender(&mut state, &env(START - 1), &info, &answers),
        Step::Ask(Question::HasMember {
            whitelist: "wl".to_string(),
            member: "buyer".to_string()
        })
    );
    answers.has_member = Some(Ok(true));
    assert_eq!(
        execute_mint_sender(&mut state, &env(START - 1), &info, &answers),
        Step::Ask(Question::WhitelistPrice { whitelist: "wl".to_string() })
    );
    answers.whitelist_price = Some(Ok(whitelist(true)));
    let response = done(execute_mint_sender(&mut state, &env(START - 1), &info, &answers));
    assert_eq!(attribute(&response, "mint_price"), "60000000");
    assert_eq!(attribute(&response, "network_fee"), "6000000");
    assert_eq!(
        failed(execute_mint_sender(&mut state, &env(START - 1), &info, &answers)),
        ContractError::MaxPerAddressLimitExceeded {}
    );
}

#[test]
fn whitelist_keeps_others_out() {
    let mut state = sale(10);
    state.config.whitelist = Some("wl".to_string());
    let info = paying("buyer", PRICE);
    assert_eq!(
        failed(execute_mint_sender(&mut state, &env(START), &info, &whitelisted(true, false))),
        ContractError::NotWhitelisted { addr: "buyer".to_string() }
    );
    assert_eq!(
        failed(execute_mint_sender(
            &mut state,
            &env(START - 1),
            &info,
            &whitelisted(false, false)
        )),
        ContractError::BeforeMintStartTime {}
    );
    let response =
        done(execute_mint_sender(&mut state, &env(START), &info, &whitelisted(false, false)));
    assert_eq!(attribute(&response, "mint_price"), "100000000");
}

#[test]
fn failed_questions_end_a_mint() {
    let mut state = sale(10);
    state.config.whitelist = Some("wl".to_string());
    let info = paying("buyer", PRICE);
    let mut answers = whitelisted(true, true);
    answers.whitelist_config = Some(Err(down()));
    assert_eq!(
        failed(execute_mint_sender(&mut state, &env(START), &info, &answers)),
        ContractError::Std(down())
    );
    let unread = || StdError::ParseErr {
        target_type: "ConfigResponse".to_string(),
        msg: "missing field".to_string(),
    };
    answers.whitelist_config = Some(Err(unread()));
    assert_eq!(
        failed(execute_mint_sender(&mut state, &env(START), &info, &answers)),
        ContractError::Std(unread())
    );
    let mut answers = whitelisted(true, true);
    answers.has_member = Some(Err(down()));
    assert_eq!(
        failed(execute_mint_sender(&mut state, &env(START), &info, &answers)),
        ContractError::Std(down())
    );
    let mut answers = whitelisted(true, true);
    answers.whitelist_price = Some(Err(down()));
    assert_eq!(
        failed(execute_mint_sender(&mut state, &env(START), &info, &answers)),
        ContractError::Std(down())
    );
}

#[test]
fn free_whitelist_mint_lacks_its_fee() {
    let mut state = sale(10);
    state.config.whitelist = Some("wl".to_string());
    let mut answers = whitelisted(true, true);
    answers.whitelist_price = Some(Ok(WhitelistConfig {
        per_address_limit: 1,
        unit_price: coin(0, "ustars"),
        is_active: true,
    }));
    assert_eq!(
        failed(execute_mint_sender(&mut state, &env(START), &from("buyer", vec![]), &answers)),
        ContractError::Fee(FeeError::Payment(PaymentError::NoFunds {}))
    );
}

#[test]
fn admin_mints_a_given_token() {
    let mut state = sale(10);
    let info = from("creator", vec![]);
    assert_eq!(
        execute_mint_for(&mut state, &env(0), &info, 7, "friend".to_string(), &Answers::none()),
        Step::Ask(Question::ValidateAddress { input: "friend".to_string() })
    );
    let response = done(execute_mint_for(
        &mut state,
        &env(0),
        &info,
        7,
        "friend".to_string(),
        &address("friend1"),
    ));
    assert_eq!(ids(&state), vec![1, 2, 3, 4, 5, 6, 8, 9, 10]);
    assert_eq!(attribute(&response, "action"), "mint_for");
    assert_eq!(attribute(&response, "recipient"), "friend1");
    assert_eq!(attribute(&response, "token_id"), "7");
    assert_eq!(attribute(&response, "network_fee"), "0");
    assert_eq!(attribute(&response, "mint_price"), "0");
    assert_eq!(response.messages.len(), 1);
    assert_eq!(state.minter_addrs.get(&"creator".to_string()), Some(1));
    assert_eq!(state.minter_addrs.get(&"friend1".to_string()), None);
    assert_eq!(
        failed(execute_mint_for(
            &mut state,
            &env(0),
            &info,
            7,
            "friend".to_string(),
            &address("friend1")
        )),
        ContractError::TokenIdAlreadySold { token_id: 7 }
    );
    for token_id in [0, 11] {
        assert_eq!(
            failed(execute_mint_for(
                &mut state,
                &env(0),
                &info,
                token_id,
                "friend".to_string(),
                &address("friend1")
            )),
            ContractError::InvalidTokenId {}
        );
    }
}

#[test]
fn only_the_admin_mints_for_others() {
    let mut state = sale(10);
    let refused = ContractError::Unauthorized("Sender is not an admin".to_string());
    let info = from("buyer", vec![]);
    assert_eq!(
        failed(execute_mint_to(
            &mut state,
            &env(START),
            &info,
            "friend".to_string(),
            &address("friend")
        )),
        refused
    );
    assert_eq!(
        failed(execute_mint_for(
            &mut state,
            &env(START),
            &info,
            1,
            "friend".to_string(),
            &address("friend")
        )),
        refused
    );
    assert_eq!(
        failed(execute_mint_to(
            &mut state,
            &env(START),
            &info,
            "friend".to_string(),
            &no_address()
        )),
        ContractError::Std(StdError::GenericErr { msg: "invalid".to_string() })
    );
    assert_eq!(
        failed(execute_mint_to(
            &mut state,
            &env(START),
            &paying("creator", 5),
            "friend".to_string(),
            &address("friend")
        )),
        ContractError::IncorrectPaymentAmount(coin(5, "ustars"), coin(0, "ustars"))
    );
}

#[test]
fn admin_mints_past_the_limit() {
    let mut state = sale(10);
    for _ in 0..5 {
        let info = from("creator", vec![]);
        done(execute_mint_to(
            &mut state,
            &env(0),
            &info,
            "friend".to_string(),
            &address("friend"),
        ));
    }
    assert_eq!(state.minter_addrs.get(&"creator".to_string()), Some(5));
    assert_eq!(state.mintable_num_tokens, 5);
}

#[test]
fn funds_that_cannot_be_read() {
    let state = sale(10);
    let twice = from("buyer", vec![coin(1, "ustars"), coin(2, "ustars")]);
    let mint = ExecuteMsg::Mint {};
    assert!(is_stuck(&state, &env(START), &twice, &mint, &Answers::none()));
    assert!(!is_stuck(&state, &env(START - 1), &twice, &mint, &Answers::none()));
    assert!(!is_stuck(&state, &env(START), &twice, &ExecuteMsg::Shuffle {}, &Answers::none()));
    let twice = from("creator", vec![coin(1, "ustars"), coin(2, "ustars")]);
    let mint_to = ExecuteMsg::MintTo { recipient: "friend".to_string() };
    assert!(is_stuck(&state, &env(0), &twice, &mint_to, &address("friend")));
    assert!(!is_stuck(&state, &env(0), &twice, &mint_to, &Answers::none()));
    let mint_for = ExecuteMsg::MintFor { token_id: 1, recipient: "friend".to_string() };
    assert!(is_stuck(&state, &env(0), &twice, &mint_for, &address("friend")));
    assert!(!is_stuck(&state, &env(0), &from("creator", vec![]), &mint_for, &address("friend")));
    let other = from("creator", vec![coin(1, "ustars"), coin(2, "uatom")]);
    assert!(!is_stuck(&state, &env(0), &other, &mint_for, &address("friend")));
}

#[test]
fn anyone_shuffles_for_a_fee() {
    let mut state = sale(10);
    let before = state.mintable_token_positions.iter().map(|m| m.token_id).collect::<Vec<u32>>();
    let info = paying("anyone", 500_000_000);
    let response = done(execute(
        &mut state,
        &env(0),
        &info,
        ExecuteMsg::Shuffle {},
        &Answers::none(),
    ));
    let after = state.mintable_token_positions.iter().map(|m| m.token_id).collect::<Vec<u32>>();
    assert_ne!(before, after);
    assert_eq!(ids(&state), vec![1, 2, 3, 4, 5, 6, 7, 8, 9, 10]);
    assert!(state.is_wf());
    assert_eq!(
        response.attributes,
        vec![
            ("action".to_string(), "shuffle".to_string()),
            ("sender".to_string(), "anyone".to_string()),
        ]
    );
    assert_eq!(
        response.messages.iter().map(|s| format!("{:?}", s.msg)).collect::<Vec<String>>(),
        vec![
            format!("{:?}", CosmosMsg::Burn { amount: vec![coin(250_000_000, "ustars")] }),
            format!(
                "{:?}",
                CosmosMsg::FundCommunityPool { amount: vec![coin(250_000_000, "ustars")] }
            ),
        ]
    );
    assert_eq!(
        failed(execute(
            &mut state,
            &env(0),
            &paying("anyone", 499_999_999),
            ExecuteMsg::Shuffle {},
            &Answers::none()
        )),
        ContractError::Fee(FeeError::InsufficientFee(500_000_000, 499_999_999))
    );
}

#[test]
fn shuffle_fee_has_to_be_exact() {
    let mut state = sale(10);
    let before = ids_by_position(&state);
    for paid in [500_000_001, 1_000_000_000] {
        assert_eq!(
            failed(execute(
                &mut state,
                &env(0),
                &paying("anyone", paid),
                ExecuteMsg::Shuffle {},
                &Answers::none()
            )),
            ContractError::IncorrectPaymentAmount(
                coin(paid, "ustars"),
                coin(500_000_000, "ustars")
            )
        );
        assert_eq!(ids_by_position(&state), before);
    }
}

#[test]
fn withdraw_sends_the_balance() {
    let mut state = sale(10);
    let info = from("creator", vec![]);
    assert_eq!(
        execute_withdraw(&mut state, &env(0), &info, &Answers::none()),
        Step::Ask(Question::Balance {
            address: "minter".to_string(),
            denom: "ustars".to_string()
        })
    );
    let mut answers = Answers::none();
    answers.balance = Some(Ok(coin(77, "ustars")));
    let response = done(execute_withdraw(&mut state, &env(0), &info, &answers));
    assert_eq!(response.attributes, vec![("action".to_string(), "withdraw".to_string())]);
    assert_eq!(
        response.messages,
        vec![SubMsg {
            id: 0,
            msg: CosmosMsg::Send {
                to_address: "creator".to_string(),
                amount: vec![coin(77, "ustars")]
            },
            gas_limit: None,
            reply_on: ReplyOn::Never,
        }]
    );
    answers.balance = Some(Ok(coin(0, "ustars")));
    assert_eq!(
        failed(execute_withdraw(&mut state, &env(0), &info, &answers)),
        ContractError::ZeroBalance {}
    );
    answers.balance = Some(Err(down()));
    assert_eq!(
        failed(execute_withdraw(&mut state, &env(0), &info, &answers)),
        ContractError::Std(down())
    );
    assert_eq!(
        failed(execute_withdraw(&mut state, &env(0), &from("buyer", vec![]), &answers)),
        ContractError::Unauthorized("Sender is not an admin".to_string())
    );
}

#[test]
fn whitelist_is_set_before_the_start() {
    let mut state = sale(10);
    let info = from("creator", vec![]);
    let set = || ExecuteMsg::SetWhitelist { whitelist: "wl".to_string() };
    assert_eq!(
        execute(&mut state, &env(START - 1), &info, set(), &Answers::none()),
        Step::Ask(Question::ValidateAddress { input: "wl".to_string() })
    );
    let response = done(execute(&mut state, &env(START - 1), &info, set(), &address("wl1")));
    assert_eq!(
        response.attributes,
        vec![
            ("action".to_string(), "set_whitelist".to_string()),
            ("whitelist".to_string(), "wl".to_string()),
        ]
    );
    assert_eq!(state.config.whitelist, Some("wl1".to_string()));
    assert_eq!(
        execute(&mut state, &env(START - 1), &info, set(), &address("wl2")),
        Step::Ask(Question::WhitelistConfig { whitelist: "wl1".to_string() })
    );
    let mut answers = address("wl2");
    answers.whitelist_config = Some(Ok(whitelist(true)));
    assert_eq!(
        failed(execute(&mut state, &env(START - 1), &info, set(), &answers)),
        ContractError::WhitelistAlreadyStarted {}
    );
    answers.whitelist_config = Some(Err(down()));
    assert_eq!(
        failed(execute(&mut state, &env(START - 1), &info, set(), &answers)),
        ContractError::Std(down())
    );
    answers.whitelist_config = Some(Ok(whitelist(false)));
    done(execute(&mut state, &env(START - 1), &info, set(), &answers));
    assert_eq!(state.config.whitelist, Some("wl2".to_string()));
    assert_eq!(
        failed(execute(&mut state, &env(START), &info, set(), &answers)),
        ContractError::AlreadyStarted {}
    );
    assert_eq!(
        failed(execute(&mut state, &env(START), &from("buyer", vec![]), set(), &answers)),
        ContractError::Unauthorized("Sender is not an admin".to_string())
    );
}

#[test]
fn start_time_is_changed_before_the_start() {
    let mut state = sale(10);
    let info = from("creator", vec![]);
    let none = Answers::none();
    let to = |time: u64| ExecuteMsg::UpdateStartTime(time);
    let response = done(execute(&mut state, &env(START - 1), &info, to(START + 7), &none));
    assert_eq!(
        response.attributes,
        vec![
            ("action".to_string(), "update_start_time".to_string()),
            ("sender".to_string(), "creator".to_string()),
            ("start_time".to_string(), "1647032400.000001007".to_string()),
        ]
    );
    assert_eq!(state.config.start_time, START + 7);
    assert_eq!(
        failed(execute(&mut state, &env(START), &info, to(START - 1), &none)),
        ContractError::InvalidStartTime(START - 1, START)
    );
    assert_eq!(
        failed(execute(&mut state, &env(5), &info, to(GENESIS_MINT_START_TIME - 1), &none)),
        ContractError::BeforeGenesisTime {}
    );
    assert_eq!(
        failed(execute(&mut state, &env(START + 7), &info, to(START + 9), &none)),
        ContractError::AlreadyStarted {}
    );
    assert_eq!(
        failed(execute(&mut state, &env(5), &from("buyer", vec![]), to(START), &none)),
        ContractError::Unauthorized("Sender is not an admin".to_string())
    );
    assert_eq!(state.config.start_time, START + 7);
}

#[test]
fn limit_per_address_is_changed() {
    let mut state = sale(10);
    let info = from("creator", vec![]);
    let none = Answers::none();
    let to = |per_address_limit: u32| ExecuteMsg::UpdatePerAddressLimit { per_address_limit };
    let response = done(execute(&mut state, &env(START), &info, to(50), &none));
    assert_eq!(
        response.attributes,
        vec![
            ("action".to_string(), "update_per_address_limit".to_string()),
            ("sender".to_string(), "creator".to_string()),
            ("limit".to_string(), "50".to_string()),
        ]
    );
    assert_eq!(state.config.per_address_limit, 50);
    for limit in [0, 51] {
        assert_eq!(
            failed(execute(&mut state, &env(START), &info, to(limit), &none)),
            ContractError::InvalidPerAddressLimit { max: 50, min: 1, got: limit }
        );
    }
    assert_eq!(
        failed(execute(&mut state, &env(START), &from("buyer", vec![]), to(3), &none)),
        ContractError::Unauthorized("Sender is not an admin".to_string())
    );
}

#[test]
fn execute_dispatches() {
    let mut state = sale(10);
    let buyer = paying("buyer", PRICE);
    let response = done(execute(
        &mut state,
        &env(START),
        &buyer,
        ExecuteMsg::Mint {},
        &Answers::none(),
    ));
    assert_eq!(attribute(&response, "action"), "mint_sender");
    let admin = from("creator", vec![]);
    let response = done(execute(
        &mut state,
        &env(START),
        &admin,
        ExecuteMsg::MintTo { recipient: "friend".to_string() },
        &address("friend"),
    ));
    assert_eq!(attribute(&response, "action"), "mint_to");
    let left = ids(&state)[0];
    let response = done(execute(
        &mut state,
        &env(START),
        &admin,
        ExecuteMsg::MintFor { token_id: left, recipient: "friend".to_string() },
        &address("friend"),
    ));
    assert_eq!(attribute(&response, "action"), "mint_for");
    let mut answers = Answers::none();
    answers.balance = Some(Ok(coin(1, "ustars")));
    let response =
        done(execute(&mut state, &env(START), &admin, ExecuteMsg::Withdraw {}, &answers));
    assert_eq!(attribute(&response, "action"), "withdraw");
}

#[test]
fn every_token_is_minted_once() {
    let mut state = sale(60);
    let mut seen: Vec<u32> = vec![];
    for turn in 0..60 {
        if turn % 7 == 3 {
            let info = paying("anyone", 500_000_000);
            done(execute(
                &mut state,
                &env(START),
                &info,
                ExecuteMsg::Shuffle {},
                &Answers::none(),
            ));
        }
        let buyer = format!("buyer{}", turn / 2);
        let info = paying(&buyer, PRICE);
        let response = done(execute(
            &mut state,
            &env(START + turn),
            &info,
            ExecuteMsg::Mint {},
            &Answers::none(),
        ));
        seen.push(attribute(&response, "token_id").parse().unwrap());
        assert!(state.is_wf());
    }
    seen.sort();
    assert_eq!(seen, (1..=60).collect::<Vec<u32>>());
    assert_eq!(state.mintable_num_tokens, 0);
    assert_eq!(state.minter_addrs.list.iter().map(|entry| entry.count).sum::<u32>(), 60);
    let late = execute(
        &mut state,
        &env(START + 60),
        &paying("late", PRICE),
        ExecuteMsg::Mint {},
        &Answers::none(),
    );
    assert_eq!(failed(late), ContractError::SoldOut {});
}

#[test]
fn sold_token_stays_refused() {
    let mut state = sale(10);
    let admin = from("creator", vec![]);
    let ask = || ExecuteMsg::MintFor { token_id: 4, recipient: "friend".to_string() };
    done(execute(&mut state, &env(START), &admin, ask(), &address("friend")));
    let limit = ExecuteMsg::UpdatePerAddressLimit { per_address_limit: 9 };
    done(execute(&mut state, &env(START), &admin, limit, &Answers::none()));
    let fee = paying("anyone", 500_000_000);
    done(execute(&mut state, &env(START), &fee, ExecuteMsg::Shuffle {}, &Answers::none()));
    let buyer = paying("buyer", PRICE);
    done(execute(&mut state, &env(START), &buyer, ExecuteMsg::Mint {}, &Answers::none()));
    assert_eq!(
        failed(execute(&mut state, &env(START), &admin, ask(), &address("friend"))),
        ContractError::TokenIdAlreadySold { token_id: 4 }
    );
    assert_eq!(state.mintable_num_tokens, 8);
}

#[test]
fn pick_depends_on_sender_tokens_and_height() {
    let state = sale(40);
    let mut other = sale(40);
    other.config.start_time = START + 77;
    other.config.per_address_limit = 9;
    other.minter_addrs.set(&"buyer".to_string(), 3);
    let buyer = "buyer".to_string();
    let here = random_mintable_token_mapping(&state, &env(START), &buyer);
    assert_eq!(here, random_mintable_token_mapping(&other, &env(START + 5), &buyer));
    let r = draw(&buyer, 40, env(START).height);
    let distance = (r % 40) as usize;
    assert_eq!(here, if r % 2 == 1 { 39 - distance } else { distance });
}

#[test]
fn prices() {
    let mut state = sale(10);
    let none = Answers::none();
    assert_eq!(mint_price(&state.config, true, &none), Step::Done(Ok(coin(0, "ustars"))));
    assert_eq!(mint_price(&state.config, false, &none), Step::Done(Ok(coin(PRICE, "ustars"))));
    state.config.whitelist = Some("wl".to_string());
    assert_eq!(mint_price(&state.config, true, &none), Step::Done(Ok(coin(0, "ustars"))));
    assert_eq!(
        mint_price(&state.config, false, &none),
        Step::Ask(Question::WhitelistPrice { whitelist: "wl".to_string() })
    );
    assert_eq!(
        mint_price(&state.config, false, &whitelisted(true, false)),
        Step::Done(Ok(coin(60_000_000, "ustars")))
    );
    assert_eq!(
        mint_price(&state.config, false, &whitelisted(false, false)),
        Step::Done(Ok(coin(PRICE, "ustars")))
    );
}

#[test]
fn queries() {
    let mut state = sale(2);
    let none = Answers::none();
    let ok = |r: QueryResponse| Step::Done(Ok(r));
    assert_eq!(
        query(&state, QueryMsg::Config {}, &none),
        ok(QueryResponse::Config(ConfigResponse {
            admin: "creator".to_string(),
            base_token_uri: "ipfs://aldkfjads".to_string(),
            num_tokens: 2,
            per_address_limit: 2,
            sg721_address: "sg721".to_string(),
            sg721_code_id: 7,
            start_time: START,
            unit_price: coin(PRICE, "ustars"),
            whitelist: None,
        }))
    );
    assert_eq!(
        query(&state, QueryMsg::StartTime {}, &none),
        ok(QueryResponse::StartTime { start_time: "1647032400.000001000".to_string() })
    );
    assert_eq!(
        query(&state, QueryMsg::MintableNumTokens {}, &none),
        ok(QueryResponse::MintableNumTokens { count: 2 })
    );
    let expected: Vec<(u32, u32)> =
        state.mintable_token_positions.iter().map(|m| (m.position, m.token_id)).collect();
    assert_eq!(expected.iter().map(|pair| pair.0).collect::<Vec<u32>>(), vec![1, 2]);
    assert_eq!(
        query(&state, QueryMsg::MintableTokens {}, &none),
        ok(QueryResponse::MintableTokens { mintable_tokens: expected })
    );
    let count = || QueryMsg::MintCount { address: "BUYER".to_string() };
    assert_eq!(
        query(&state, count(), &none),
        Step::Ask(Question::ValidateAddress { input: "BUYER".to_string() })
    );
    assert_eq!(
        query(&state, count(), &no_address()),
        Step::Done(Err(StdError::GenericErr { msg: "invalid".to_string() }))
    );
    done(execute_mint_sender(&mut state, &env(START), &paying("buyer", PRICE), &none));
    assert_eq!(
        query(&state, count(), &address("buyer")),
        ok(QueryResponse::MintCount(MintCountResponse { address: "buyer".to_string(), count: 1 }))
    );
    assert_eq!(
        query(&state, count(), &address("other")),
        ok(QueryResponse::MintCount(MintCountResponse { address: "other".to_string(), count: 0 }))
    );
    let (bare, _) = set_up(terms(2));
    assert_eq!(
        query(&bare, QueryMsg::Config {}, &none),
        Step::Done(Err(StdError::NotFound {
            kind: "cosmwasm_std::addresses::Addr".to_string()
        }))
    );
}

#[test]
fn query_of_prices() {
    let mut state = sale(2);
    assert_eq!(
        query(&state, QueryMsg::MintPrice {}, &Answers::none()),
        Step::Done(Ok(QueryResponse::MintPrice(MintPriceResponse {
            public_price: coin(PRICE, "ustars"),
            whitelist_price: None,
            current_price: coin(PRICE, "ustars"),
        })))
    );
    state.config.whitelist = Some("wl".to_string());
    let mut answers = Answers::none();
    assert_eq!(
        query(&state, QueryMsg::MintPrice {}, &answers),
        Step::Ask(Question::WhitelistPrice { whitelist: "wl".to_string() })
    );
    answers.whitelist_price = Some(Ok(whitelist(false)));
    assert_eq!(
        query(&state, QueryMsg::MintPrice {}, &answers),
        Step::Ask(Question::WhitelistConfig { whitelist: "wl".to_string() })
    );
    answers.whitelist_config = Some(Ok(whitelist(false)));
    assert_eq!(
        query(&state, QueryMsg::MintPrice {}, &answers),
        Step::Done(Ok(QueryResponse::MintPrice(MintPriceResponse {
            public_price: coin(PRICE, "ustars"),
            whitelist_price: Some(coin(60_000_000, "ustars")),
            current_price: coin(PRICE, "ustars"),
        })))
    );
    answers.whitelist_config = Some(Err(down()));
    assert_eq!(query(&state, QueryMsg::MintPrice {}, &answers), Step::Done(Err(down())));
}

#[test]
fn mint_counts_are_kept_by_address() {
    let mut counts = MintCounts::new();
    let a = "a".to_string();
    let b = "b".to_string();
    assert_eq!(counts.get(&a), None);
    counts.set(&a, 1);
    counts.set(&b, 5);
    counts.set(&a, 2);
    assert_eq!(counts.get(&a), Some(2));
    assert_eq!(counts.get(&b), Some(5));
    assert_eq!(counts.list.len(), 2);
}

#[test]
fn disordered_state_is_found_out() {
    let mut state = sale(3);
    assert!(state.is_wf());
    state.mintable_num_tokens = 4;
    assert!(!state.is_wf());
    let mut state = sale(3);
    state.mintable_token_positions.swap(0, 1);
    assert!(!state.is_wf());
    let mut state = sale(3);
    state.minter_addrs.set(&"a".to_string(), u32::MAX - 3);
    assert!(state.is_wf());
    state.minter_addrs.set(&"a".to_string(), u32::MAX - 2);
    assert!(!state.is_wf());
}
