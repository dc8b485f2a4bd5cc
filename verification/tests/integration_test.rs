use std::collections::HashMap;

use token_swap::contract::{execute, instantiate, query_info, LpShares};
use token_swap::reply::{instantiate_reply_address, reply};
use token_swap::effects::{Effect, Response};
use token_swap::error::ContractError;
use token_swap::expiration::Expiration;
use token_swap::msg::{ExecuteMsg, InfoResponse, InstantiateMsg, Reply, SubMsgResponse, TokenSelect};
use token_swap::state::Store;
use token_swap::types::{
    Addr, BlockInfo, Coin, ContractInfo, Denom, Env, MessageInfo, Timestamp,
};

const USER: &str = "user";
const NATIVE_DENOM: &str = "udenom";
const NON_DENOM_COIN: &str = "urandom";
const SUPPLY: u128 = 500_000_000u128;
const QUOTE_TOKEN: &str = "contract0";
const AMM: &str = "contract1";
const LP_TOKEN: &str = "contract2";

// A token contract, as far as the pool uses one: balances and allowances.
struct Cw20 {
    balances: HashMap<String, u128>,
    allowances: HashMap<(String, String), u128>,
}

impl Cw20 {
    fn new() -> Cw20 {
        Cw20 { balances: HashMap::new(), allowances: HashMap::new() }
    }

    fn balance(&self, addr: &str) -> u128 {
        *self.balances.get(addr).unwrap_or(&0)
    }

    fn total_supply(&self) -> u128 {
        self.balances.values().sum()
    }

    fn increase_allowance(&mut self, owner: &str, spender: &str, amount: u128) {
        *self.allowances.entry((owner.to_string(), spender.to_string())).or_insert(0) += amount;
    }

    fn spend_allowance(&mut self, owner: &str, spender: &str, amount: u128) -> bool {
        let left = self.allowances.entry((owner.to_string(), spender.to_string())).or_insert(0);
        if *left < amount {
            return false;
        }
        *left -= amount;
        true
    }

    fn take(&mut self, from: &str, amount: u128) -> bool {
        let held = self.balances.entry(from.to_string()).or_insert(0);
        if *held < amount {
            return false;
        }
        *held -= amount;
        true
    }

    fn give(&mut self, to: &str, amount: u128) {
        *self.balances.entry(to.to_string()).or_insert(0) += amount;
    }
}

// The chain around the pool: the bank, the two token contracts, the pool's store.
struct App {
    bank: HashMap<(String, String), u128>,
    quote: Cw20,
    lp: Cw20,
    store: Store,
    height: u64,
}

impl App {
    fn env(&self) -> Env {
        Env {
            block: BlockInfo {
                height: self.height,
                time: Timestamp::from_nanos(1_571_797_419_879_305_533),
                chain_id: "cosmos-testnet-14002".to_string(),
            },
            contract: ContractInfo { address: Addr::unchecked(AMM) },
        }
    }

    fn bank_balance(&self, addr: &str, denom: &str) -> u128 {
        *self.bank.get(&(addr.to_string(), denom.to_string())).unwrap_or(&0)
    }

    // Carries the effects out in order. Gives false, and may leave the ledgers changed, where
    // one of them cannot be done.
    fn settle(&mut self, response: &Response) -> bool {
        for effect in response.messages.iter() {
            let done = match effect {
                Effect::BankSend { to_address, denom, amount } => {
                    let held = self.bank.entry((AMM.to_string(), denom.clone())).or_insert(0);
                    if *held < *amount {
                        false
                    } else {
                        *held -= *amount;
                        *self.bank.entry((to_address.0.clone(), denom.clone())).or_insert(0) +=
                            *amount;
                        true
                    }
                }
                Effect::Cw20Transfer { contract_addr, recipient, amount } => {
                    assert_eq!(contract_addr.0, QUOTE_TOKEN);
                    let ok = self.quote.take(AMM, *amount);
                    if ok {
                        self.quote.give(&recipient.0, *amount);
                    }
                    ok
                }
                Effect::Cw20TransferFrom { contract_addr, owner, recipient, amount } => {
                    assert_eq!(contract_addr.0, QUOTE_TOKEN);
                    let ok = self.quote.spend_allowance(&owner.0, AMM, *amount)
                        && self.quote.take(&owner.0, *amount);
                    if ok {
                        self.quote.give(&recipient.0, *amount);
                    }
                    ok
                }
                Effect::Cw20Mint { contract_addr, recipient, amount } => {
                    assert_eq!(contract_addr.0, LP_TOKEN);
                    self.lp.give(&recipient.0, *amount);
                    true
                }
                Effect::Cw20BurnFrom { contract_addr, owner, amount } => {
                    assert_eq!(contract_addr.0, LP_TOKEN);
                    self.lp.spend_allowance(&owner.0, AMM, *amount)
                        && self.lp.take(&owner.0, *amount)
                }
                Effect::InstantiateLpToken { .. } => false,
            };
            if !done {
                return false;
            }
        }
        true
    }

    // Runs one command as the chain does: the funds move to the pool, the command runs, the
    // effects are carried out, and everything is undone where any step fails.
    fn execute_contract(
        &mut self,
        sender: &str,
        msg: ExecuteMsg,
        funds: &[Coin],
    ) -> Result<Response, String> {
        let bank = self.bank.clone();
        let quote = (self.quote.balances.clone(), self.quote.allowances.clone());
        let lp = (self.lp.balances.clone(), self.lp.allowances.clone());
        let store = self.store.clone();

        let mut result = Ok(());
        for coin in funds {
            let held = self.bank.entry((sender.to_string(), coin.denom.clone())).or_insert(0);
            if *held < coin.amount {
                result = Err("bank: insufficient funds".to_string());
                break;
            }
            *held -= coin.amount;
            *self.bank.entry((AMM.to_string(), coin.denom.clone())).or_insert(0) += coin.amount;
        }
        let result = result.and_then(|_| {
            let info = MessageInfo { sender: Addr::unchecked(sender), funds: funds.to_vec() };
            let shares = LpShares {
                total_supply: self.lp.total_supply(),
                sender_balance: self.lp.balance(sender),
            };
            let env = self.env();
            match execute(&mut self.store, &env, &info, shares, msg) {
                Ok(response) => {
                    if self.settle(&response) {
                        Ok(response)
                    } else {
                        Err("an effect failed".to_string())
                    }
                }
                Err(e) => Err(format!("{:?}", e)),
            }
        });
        if result.is_err() {
            self.bank = bank;
            self.quote.balances = quote.0;
            self.quote.allowances = quote.1;
            self.lp.balances = lp.0;
            self.lp.allowances = lp.1;
            self.store = store;
        }
        result
    }
}

fn mock_app() -> App {
    let mut bank = HashMap::new();
    bank.insert((USER.to_string(), NATIVE_DENOM.to_string()), SUPPLY);
    bank.insert((USER.to_string(), NON_DENOM_COIN.to_string()), SUPPLY);
    App { bank, quote: Cw20::new(), lp: Cw20::new(), store: Store::new(), height: 12_345 }
}

// Gives `owner` all of the quote token.
fn create_cw20_quote_token(app: &mut App, owner: &str, balance: u128) -> Addr {
    app.quote.give(owner, balance);
    Addr::unchecked(QUOTE_TOKEN)
}

// Sets the pool up and answers the sub-call that creates the share contract.
fn instantiate_amm(app: &mut App, quote_token_addr: Addr) -> Addr {
    let msg = InstantiateMsg {
        native_denom: Denom::Native(NATIVE_DENOM.to_string()),
        base_denom: Denom::Native(NATIVE_DENOM.to_string()),
        quote_denom: Denom::Cw20(quote_token_addr),
        lp_token_code_id: 2,
    };
    let info = MessageInfo { sender: Addr::unchecked(USER), funds: vec![] };
    let env = app.env();
    let response = instantiate(&mut app.store, &env, &info, msg).unwrap();
    let reply_id = match &response.messages[0] {
        Effect::InstantiateLpToken { reply_id, minter, .. } => {
            assert_eq!(minter, &Addr::unchecked(AMM));
            *reply_id
        }
        other => panic!("unexpected effect: {:?}", other),
    };

    // field 1, nine bytes: the address of the new contract
    let mut data = vec![10u8, LP_TOKEN.len() as u8];
    data.extend_from_slice(LP_TOKEN.as_bytes());
    let msg = Reply { id: reply_id, result: Ok(SubMsgResponse { data: Some(data) }) };
    let validated = instantiate_reply_address(&msg).map(|a| Addr::unchecked(&a));
    reply(&mut app.store, &msg, validated).unwrap();

    Addr::unchecked(AMM)
}

fn get_amm_contract_info(app: &App) -> InfoResponse {
    query_info(&app.store, app.lp.total_supply()).unwrap()
}

fn native(amount: u128) -> Vec<Coin> {
    vec![Coin { denom: NATIVE_DENOM.into(), amount }]
}

#[test]
fn integration_test_test_instantiate() {
    let mut app = mock_app();

    let quote_token_contract = create_cw20_quote_token(&mut app, USER, 500_000_000);
    let _amm_addr = instantiate_amm(&mut app, quote_token_contract.clone());

    let info = get_amm_contract_info(&app);

    assert_eq!(
        info,
        InfoResponse {
            base_denom: Denom::Native(NATIVE_DENOM.to_string()),
            base_reserve: 0,
            quote_reserve: 0,
            quote_denom: Denom::Cw20(quote_token_contract),
            lp_token_supply: 0,
            lp_token_address: Addr::unchecked("contract2"),
        }
    );
}

#[test]
fn test_add_liquidity() {
    let mut router = mock_app();
    let owner = USER;

    let quote_token_contract = create_cw20_quote_token(&mut router, owner, 5000);
    let amm_addr = instantiate_amm(&mut router, quote_token_contract.clone());
    assert_ne!(quote_token_contract, amm_addr);

    let info = get_amm_contract_info(&router);
    assert_eq!(info.lp_token_address, Addr::unchecked(LP_TOKEN));

    assert_eq!(router.quote.balance(owner), 5000);

    router.quote.increase_allowance(owner, AMM, 100);

    // ContractError::MsgExpirationError {}
    let add_liquidity_msg = ExecuteMsg::AddLiquidity {
        base_token_amount: 100,
        max_quote_token_amount: 100,
        expiration: Some(Expiration::AtHeight(0)),
    };
    let err = router.execute_contract(owner, add_liquidity_msg, &native(100)).unwrap_err();
    assert_eq!(err, format!("{:?}", ContractError::MsgExpirationError));

    // ContractError::NonZeroInputAmountExpected {}
    let add_liquidity_msg = ExecuteMsg::AddLiquidity {
        base_token_amount: 100,
        max_quote_token_amount: 0,
        expiration: None,
    };
    let err = router.execute_contract(owner, add_liquidity_msg, &native(100)).unwrap_err();
    assert_eq!(err, format!("{:?}", ContractError::NonZeroInputAmountExpected));

    // ContractError::InsufficientFunds {}
    let add_liquidity_msg = ExecuteMsg::AddLiquidity {
        base_token_amount: 100,
        max_quote_token_amount: 100,
        expiration: None,
    };
    let err = router.execute_contract(owner, add_liquidity_msg, &native(50)).unwrap_err();
    assert_eq!(err, format!("{:?}", ContractError::InsufficientFunds));

    // ContractError::InsufficientFunds {} also when another coin comes as funds
    let add_liquidity_msg = ExecuteMsg::AddLiquidity {
        base_token_amount: 100,
        max_quote_token_amount: 100,
        expiration: None,
    };
    let err = router
        .execute_contract(
            owner,
            add_liquidity_msg,
            &[Coin { denom: NON_DENOM_COIN.into(), amount: 100 }],
        )
        .unwrap_err();
    assert_eq!(err, format!("{:?}", ContractError::InsufficientFunds));

    // ContractError::MaxQuoteTokenAmountExceeded {}
    let add_liquidity_msg = ExecuteMsg::AddLiquidity {
        base_token_amount: 100,
        max_quote_token_amount: 80,
        expiration: None,
    };
    let err = router.execute_contract(owner, add_liquidity_msg, &native(100)).unwrap_err();
    assert_eq!(
        err,
        format!(
            "{:?}",
            ContractError::MaxQuoteTokenAmountExceeded {
                max_quote_token_amount: 80,
                required_quote_token_amount: 100,
            }
        )
    );

    // nothing has moved so far
    assert_eq!(router.bank_balance(owner, NATIVE_DENOM), SUPPLY);
    assert_eq!(get_amm_contract_info(&router).base_reserve, 0);

    // Add initial liquidity proper and ensure balances are updated
    let add_liquidity_msg = ExecuteMsg::AddLiquidity {
        base_token_amount: 100,
        max_quote_token_amount: 100,
        expiration: None,
    };
    router.execute_contract(owner, add_liquidity_msg, &native(100)).unwrap();

    assert_eq!(router.quote.balance(owner), 4900);
    assert_eq!(router.quote.balance(AMM), 100);
    assert_eq!(router.lp.balance(owner), 100);

    // Top-up liquidity and ensure balances are updated
    router.quote.increase_allowance(owner, AMM, 50);

    let add_liquidity_msg = ExecuteMsg::AddLiquidity {
        base_token_amount: 50,
        max_quote_token_amount: 50,
        expiration: None,
    };
    router.execute_contract(owner, add_liquidity_msg, &native(50)).unwrap();

    assert_eq!(router.quote.balance(owner), 4850);
    assert_eq!(router.quote.balance(AMM), 150);
    assert_eq!(router.lp.balance(owner), 150);

    // the reserves are what the pool holds
    let info = get_amm_contract_info(&router);
    assert_eq!(info.base_reserve, 150);
    assert_eq!(info.quote_reserve, 150);
    assert_eq!(info.lp_token_supply, 150);
    assert_eq!(router.bank_balance(AMM, NATIVE_DENOM), 150);
}

#[test]
fn test_remove_liquidity() {
    let mut router = mock_app();
    let owner = USER;

    let quote_token_contract = create_cw20_quote_token(&mut router, owner, 5000);
    let amm_addr = instantiate_amm(&mut router, quote_token_contract.clone());
    assert_ne!(quote_token_contract, amm_addr);

    assert_eq!(router.quote.balance(owner), 5000);

    router.quote.increase_allowance(owner, AMM, 100);

    let add_liquidity_msg = ExecuteMsg::AddLiquidity {
        base_token_amount: 100,
        max_quote_token_amount: 100,
        expiration: None,
    };
    router.execute_contract(owner, add_liquidity_msg, &native(100)).unwrap();

    assert_eq!(router.quote.balance(owner), 4900);
    assert_eq!(router.quote.balance(AMM), 100);
    assert_eq!(router.lp.balance(owner), 100);

    // ContractError::MsgExpirationError {}
    let err = router
        .execute_contract(
            owner,
            ExecuteMsg::RemoveLiquidity {
                amount: 100,
                min_base_token_output: 100,
                min_quote_token_output: 100,
                expiration: Some(Expiration::AtHeight(0)),
            },
            &[],
        )
        .unwrap_err();
    assert_eq!(err, format!("{:?}", ContractError::MsgExpirationError));

    // ContractError::InsufficientLiquidityError {}
    let err = router
        .execute_contract(
            owner,
            ExecuteMsg::RemoveLiquidity {
                amount: 200,
                min_base_token_output: 100,
                min_quote_token_output: 100,
                expiration: None,
            },
            &[],
        )
        .unwrap_err();
    assert_eq!(
        err,
        format!("{:?}", ContractError::InsufficientLiquidityError { requested: 200, available: 100 })
    );

    // ContractError::MinBaseTokenOutputError {}
    let err = router
        .execute_contract(
            owner,
            ExecuteMsg::RemoveLiquidity {
                amount: 100,
                min_base_token_output: 200,
                min_quote_token_output: 100,
                expiration: None,
            },
            &[],
        )
        .unwrap_err();
    assert_eq!(
        err,
        format!("{:?}", ContractError::MinBaseTokenOutputError { requested: 200, available: 100 })
    );

    // ContractError::MinQuoteTokenOutputError {}
    let err = router
        .execute_contract(
            owner,
            ExecuteMsg::RemoveLiquidity {
                amount: 100,
                min_base_token_output: 100,
                min_quote_token_output: 200,
                expiration: None,
            },
            &[],
        )
        .unwrap_err();
    assert_eq!(
        err,
        format!("{:?}", ContractError::MinQuoteTokenOutputError { requested: 200, available: 100 })
    );

    // Remove some liquidity and ensure balances are updated. The pool needs the right to burn
    // shares on behalf of the sender.
    router.lp.increase_allowance(owner, AMM, 50);

    router
        .execute_contract(
            owner,
            ExecuteMsg::RemoveLiquidity {
                amount: 50,
                min_base_token_output: 50,
                min_quote_token_output: 50,
                expiration: None,
            },
            &[],
        )
        .unwrap();

    assert_eq!(router.quote.balance(owner), 4950);
    assert_eq!(router.quote.balance(AMM), 50);
    assert_eq!(router.lp.balance(owner), 50);

    // Remove all remaining liquidity and ensure balances are updated
    router.lp.increase_allowance(owner, AMM, 50);

    router
        .execute_contract(
            owner,
            ExecuteMsg::RemoveLiquidity {
                amount: 50,
                min_base_token_output: 50,
                min_quote_token_output: 50,
                expiration: None,
            },
            &[],
        )
        .unwrap();

    assert_eq!(router.quote.balance(owner), 5000);
    assert_eq!(router.quote.balance(AMM), 0);
    assert_eq!(router.lp.balance(owner), 0);

    let info = get_amm_contract_info(&router);
    assert_eq!(info.base_reserve, 0);
    assert_eq!(info.quote_reserve, 0);
    assert_eq!(router.bank_balance(owner, NATIVE_DENOM), SUPPLY);
}

#[test]
fn test_swap() {
    let mut router = mock_app();
    let owner = USER;

    let quote_token_contract = create_cw20_quote_token(&mut router, owner, 200_000);
    let amm_addr = instantiate_amm(&mut router, quote_token_contract.clone());
    assert_ne!(quote_token_contract, amm_addr);

    assert_eq!(router.quote.balance(owner), 200_000);

    router.quote.increase_allowance(owner, AMM, 100_000);

    let add_liquidity_msg = ExecuteMsg::AddLiquidity {
        base_token_amount: 100_000,
        max_quote_token_amount: 100_000,
        expiration: None,
    };
    router.execute_contract(owner, add_liquidity_msg, &native(100_000)).unwrap();

    assert_eq!(router.quote.balance(owner), 100_000);
    assert_eq!(router.quote.balance(AMM), 100_000);
    assert_eq!(router.lp.balance(owner), 100_000);

    // ContractError::MsgExpirationError {}
    let err = router
        .execute_contract(
            owner,
            ExecuteMsg::Swap {
                input_token: TokenSelect::Base,
                input_amount: 10_000,
                output_amount: 9063,
                expiration: Some(Expiration::AtHeight(0)),
            },
            &native(10_000),
        )
        .unwrap_err();
    assert_eq!(err, format!("{:?}", ContractError::MsgExpirationError));

    // ContractError::SwapMinError {}
    let err = router
        .execute_contract(
            owner,
            ExecuteMsg::Swap {
                input_token: TokenSelect::Base,
                input_amount: 10_000,
                // the sale pays out 9063
                output_amount: 9064,
                expiration: None,
            },
            &native(10_000),
        )
        .unwrap_err();
    assert_eq!(err, format!("{:?}", ContractError::SwapMinError { min: 9064, available: 9063 }));

    // ContractError::SwapMaxError {}
    let err = router
        .execute_contract(
            owner,
            ExecuteMsg::Swap {
                input_token: TokenSelect::Quote,
                // the purchase costs 11144
                input_amount: 11143,
                output_amount: 10_000,
                expiration: None,
            },
            &[],
        )
        .unwrap_err();
    assert_eq!(err, format!("{:?}", ContractError::SwapMaxError { max: 11143, required: 11144 }));

    // ContractError::InsufficientFunds {}
    let err = router
        .execute_contract(
            owner,
            ExecuteMsg::Swap {
                input_token: TokenSelect::Base,
                input_amount: 10_000,
                output_amount: 9063,
                expiration: None,
            },
            &[],
        )
        .unwrap_err();
    assert_eq!(err, format!("{:?}", ContractError::InsufficientFunds));

    // Do a swap from base token to quote tokens and verify token balances
    router
        .execute_contract(
            owner,
            ExecuteMsg::Swap {
                input_token: TokenSelect::Base,
                input_amount: 10_000,
                output_amount: 9063,
                expiration: None,
            },
            &native(10_000),
        )
        .unwrap();

    assert_eq!(router.quote.balance(AMM), 90937);
    assert_eq!(router.quote.balance(owner), 109_063);

    let info = get_amm_contract_info(&router);
    assert_eq!(info.quote_reserve, 90937);
    assert_eq!(info.base_reserve, 110_000);

    // The quote that buys 10_000 base back: 90937 * 10000 / (110_000 - 10000) = 9093, and the
    // fee of 27 on it.
    let max_quote_input = 9120u128;
    router.quote.increase_allowance(owner, AMM, max_quote_input);

    router
        .execute_contract(
            owner,
            ExecuteMsg::Swap {
                input_token: TokenSelect::Quote,
                input_amount: max_quote_input,
                output_amount: 10_000,
                expiration: None,
            },
            &[],
        )
        .unwrap();

    assert_eq!(router.quote.balance(AMM), 90937 + max_quote_input);
    assert_eq!(router.quote.balance(owner), 109_063 - max_quote_input);

    let info = get_amm_contract_info(&router);
    assert_eq!(info.quote_reserve, 90937 + max_quote_input);
    assert_eq!(info.base_reserve, 100_000);
    assert_eq!(router.bank_balance(AMM, NATIVE_DENOM), 100_000);
    assert_eq!(router.bank_balance(owner, NATIVE_DENOM), SUPPLY - 100_000);
}

#[test]
fn swap_and_send_to_pays_the_recipient() {
    let mut router = mock_app();
    let owner = USER;
    create_cw20_quote_token(&mut router, owner, 200_000);
    instantiate_amm(&mut router, Addr::unchecked(QUOTE_TOKEN));
    router.quote.increase_allowance(owner, AMM, 100_000);
    router
        .execute_contract(
            owner,
            ExecuteMsg::AddLiquidity {
                base_token_amount: 100_000,
                max_quote_token_amount: 100_000,
                expiration: None,
            },
            &native(100_000),
        )
        .unwrap();

    let response = router
        .execute_contract(
            owner,
            ExecuteMsg::SwapAndSendTo {
                input_token: TokenSelect::Base,
                input_amount: 10_000,
                output_amount: 9063,
                recipient: Addr::unchecked("friend"),
                expiration: None,
            },
            &native(10_000),
        )
        .unwrap();
    assert_eq!(
        response.messages,
        vec![Effect::Cw20Transfer {
            contract_addr: Addr::unchecked(QUOTE_TOKEN),
            recipient: Addr::unchecked("friend"),
            amount: 9063,
        }]
    );
    assert_eq!(router.quote.balance("friend"), 9063);
    assert_eq!(router.quote.balance(owner), 100_000);

    // and base bought with quote goes to the recipient through the bank
    router.quote.increase_allowance(owner, AMM, 9120);
    let response = router
        .execute_contract(
            owner,
            ExecuteMsg::SwapAndSendTo {
                input_token: TokenSelect::Quote,
                input_amount: 9120,
                output_amount: 10_000,
                recipient: Addr::unchecked("friend"),
                expiration: None,
            },
            &[],
        )
        .unwrap();
    assert_eq!(
        response.messages,
        vec![
            Effect::Cw20TransferFrom {
                contract_addr: Addr::unchecked(QUOTE_TOKEN),
                owner: Addr::unchecked(owner),
                recipient: Addr::unchecked(AMM),
                amount: 9120,
            },
            Effect::BankSend {
                to_address: Addr::unchecked("friend"),
                denom: NATIVE_DENOM.to_string(),
                amount: 10_000,
            },
        ]
    );
    assert_eq!(router.bank_balance("friend", NATIVE_DENOM), 10_000);
}

#[test]
fn pass_through_swap_has_no_effect() {
    let mut router = mock_app();
    create_cw20_quote_token(&mut router, USER, 200_000);
    instantiate_amm(&mut router, Addr::unchecked(QUOTE_TOKEN));
    let before = router.store.clone();
    let response = router
        .execute_contract(
            USER,
            ExecuteMsg::PassThroughSwap {
                output_amm_address: Addr::unchecked("other"),
                input_token: TokenSelect::Base,
                input_token_amount: 5,
                output_min_token: 1,
                expiration: Some(Expiration::AtHeight(0)),
            },
            &[],
        )
        .unwrap();
    assert!(response.messages.is_empty());
    assert!(response.attributes.is_empty());
    assert_eq!(router.store, before);
}
