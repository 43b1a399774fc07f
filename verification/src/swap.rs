//! The settlement orchestrator: the pool's state and the swap protocol.
//!
//! A swap runs as a chain of asynchronous remote calls against the two
//! ledger services.  The orchestrator itself never performs a remote
//! call: each step that needs one returns a [`LedgerCall`] describing it,
//! and the continuation steps take the calls' outcomes back as plain
//! values.  A host executes the described calls, in any completion
//! order, and resumes the continuations:
//!
//! 1. [`DeFi::swap_token`] validates the symbol, takes the pending lock,
//!    and hands out a [`SwapDispatch`]: two balance queries and the
//!    deposit transfer, all to be dispatched concurrently.  The balance
//!    read may therefore race the deposit's completion — an acknowledged
//!    ordering hazard of the protocol, preserved here, not a snapshot
//!    guarantee.
//! 2. Once both balance queries settle, [`DeFi::calculate_target_token`]
//!    joins them and prices the payout.
//! 3. Once both the pricing and the deposit transfer settle,
//!    [`DeFi::swap_token_withdraw`] reconciles the two outcomes and
//!    releases the lock, whatever happened.
//!
//! On the partial-failure path where the pricing fails but the deposit
//! went through, the deposit is retained in the pool's custody: no refund
//! is issued.  That is a documented gap of the protocol, kept as such.

use vstd::prelude::*;

use crate::errors::SwapError;
use crate::lock::PendingLock;
use crate::ratio::{compute_pool_ratio, compute_target, spec_compute_pool_ratio,
    spec_compute_target};
use crate::registry::{lookup_in, unique_symbols, TokenConfig, TokenConfigV, TokenInfo,
    TokenInfoV, TokenMetadata, TokenRegistry};

verus! {

/// A remote ledger call that failed or was rejected by the remote
/// service.  The protocol learns nothing from such an outcome beyond the
/// failure itself.
#[derive(Clone, Copy, Debug, PartialEq, Eq, Structural)]
pub struct RemoteFailure;

/// One remote call to a ledger service, described but not performed: the
/// host executes it and returns its outcome to the continuation steps.
#[derive(Clone, Debug, PartialEq, Eq)]
pub enum LedgerCall {
    /// Query the token balance of `account` at the ledger `ledger`.
    BalanceOf { ledger: String, account: String },
    /// Transfer `amount` of the ledger's token from the caller to
    /// `receiver`, at the ledger `ledger`.
    Transfer { ledger: String, receiver: String, amount: u128 },
    /// Fetch the token metadata of the ledger `ledger`.
    Metadata { ledger: String },
}

/// The mathematical value of a `LedgerCall`.
#[verifier::ext_equal]
pub ghost enum LedgerCallV {
    BalanceOf { ledger: Seq<char>, account: Seq<char> },
    Transfer { ledger: Seq<char>, receiver: Seq<char>, amount: u128 },
    Metadata { ledger: Seq<char> },
}

impl View for LedgerCall {
    type V = LedgerCallV;

    open spec fn view(&self) -> LedgerCallV {
        match self {
            LedgerCall::BalanceOf { ledger, account } => LedgerCallV::BalanceOf {
                ledger: ledger@,
                account: account@,
            },
            LedgerCall::Transfer { ledger, receiver, amount } => LedgerCallV::Transfer {
                ledger: ledger@,
                receiver: receiver@,
                amount: *amount,
            },
            LedgerCall::Metadata { ledger } => LedgerCallV::Metadata { ledger: ledger@ },
        }
    }
}

/// The remote calls one accepted swap dispatches, all concurrently
/// pending from the moment the request is accepted.
#[derive(Clone, Debug, PartialEq, Eq)]
pub struct SwapDispatch {
    /// The pool's holdings of the deposited token.
    pub balance_in_query: LedgerCall,
    /// The pool's holdings of the counter token.
    pub balance_out_query: LedgerCall,
    /// The caller's deposit into the pool's custody address.
    pub deposit_transfer: LedgerCall,
}

/// The mathematical value of a `SwapDispatch`.
#[verifier::ext_equal]
pub ghost struct SwapDispatchV {
    pub balance_in_query: LedgerCallV,
    pub balance_out_query: LedgerCallV,
    pub deposit_transfer: LedgerCallV,
}

impl View for SwapDispatch {
    type V = SwapDispatchV;

    open spec fn view(&self) -> SwapDispatchV {
        SwapDispatchV {
            balance_in_query: self.balance_in_query@,
            balance_out_query: self.balance_out_query@,
            deposit_transfer: self.deposit_transfer@,
        }
    }
}

/// The two balance queries the diagnostic ratio metric joins.
#[derive(Clone, Debug, PartialEq, Eq)]
pub struct RatioDispatch {
    pub balance_a_query: LedgerCall,
    pub balance_b_query: LedgerCall,
}

/// The mathematical value of a `RatioDispatch`.
#[verifier::ext_equal]
pub ghost struct RatioDispatchV {
    pub balance_a_query: LedgerCallV,
    pub balance_b_query: LedgerCallV,
}

impl View for RatioDispatch {
    type V = RatioDispatchV;

    open spec fn view(&self) -> RatioDispatchV {
        RatioDispatchV {
            balance_a_query: self.balance_a_query@,
            balance_b_query: self.balance_b_query@,
        }
    }
}

/// The mathematical value of the pool's whole state.
#[verifier::ext_equal]
pub ghost struct PoolState {
    pub owner_id: Seq<char>,
    pub address_a: Seq<char>,
    pub address_b: Seq<char>,
    pub ratio: u128,
    pub tokens: Seq<TokenInfoV>,
    pub tickers: Seq<TokenConfigV>,
    pub pending: bool,
}

/// The two symbols the pool swaps between.
pub open spec fn is_swap_symbol(symbol: Seq<char>) -> bool {
    symbol == "TokenA"@ || symbol == "TokenB"@
}

/// The symbol a deposit of `symbol` is paid out in.
pub open spec fn counter_symbol(symbol: Seq<char>) -> Seq<char> {
    if symbol == "TokenA"@ {
        "TokenB"@
    } else {
        "TokenA"@
    }
}

/// The pool's custody address for a token: the first custody address for
/// `TokenA`, the second for every other symbol.
pub open spec fn custody_of(s: PoolState, symbol: Seq<char>) -> Seq<char> {
    if symbol == "TokenA"@ {
        s.address_a
    } else {
        s.address_b
    }
}

/// Whether a swap request for `symbol` is accepted in state `s`: the
/// symbol must be one of the two swap symbols and no swap may already be
/// in flight.
pub open spec fn spec_request_accepted(s: PoolState, symbol: Seq<char>) -> bool {
    is_swap_symbol(symbol) && !s.pending
}

/// The entry step of the protocol: an accepted request takes the pending
/// lock; a rejected one leaves the state untouched.
pub open spec fn spec_request_step(s: PoolState, symbol: Seq<char>) -> PoolState {
    if spec_request_accepted(s, symbol) {
        PoolState { pending: true, ..s }
    } else {
        s
    }
}

/// The finalization step of the protocol: the pending lock is released
/// unconditionally, whatever the settlement outcome was.
pub open spec fn spec_finalize_step(s: PoolState) -> PoolState {
    PoolState { pending: false, ..s }
}

/// The pool: a singleton aggregate holding the owner identity, the two
/// custody addresses, the token registry, the ticker table, and the
/// pending lock that serializes swaps.
pub struct DeFi {
    owner_id: String,
    address_a: String,
    address_b: String,
    ratio: u128,
    tokens: TokenRegistry,
    tickers: Vec<TokenConfig>,
    pending: PendingLock,
}

impl View for DeFi {
    type V = PoolState;

    closed spec fn view(&self) -> PoolState {
        PoolState {
            owner_id: self.owner_id@,
            address_a: self.address_a@,
            address_b: self.address_b@,
            ratio: self.ratio,
            tokens: self.tokens@,
            tickers: Seq::new(self.tickers@.len(), |i: int| self.tickers@[i]@),
            pending: self.pending.is_in_flight(),
        }
    }
}

impl DeFi {
    /// The pool's invariant: the registry keys at most one entry per
    /// symbol.
    pub open spec fn wf(self) -> bool {
        unique_symbols(self@.tokens)
    }

    /// A fresh pool for the given owner, token configurations and custody
    /// addresses: empty registry, both tickers recorded, ratio zero, no
    /// swap in flight.
    ///
    /// Provisioning the custody accounts themselves, and the one-time
    /// guard against re-initialization, are the host's part; the host
    /// hands the custody addresses in.
    pub fn new(
        owner_id: String,
        token_a: TokenConfig,
        token_b: TokenConfig,
        address_a: String,
        address_b: String,
    ) -> (r: DeFi)
        ensures
            r@ == (PoolState {
                owner_id: owner_id@,
                address_a: address_a@,
                address_b: address_b@,
                ratio: 0,
                tokens: Seq::<TokenInfoV>::empty(),
                tickers: seq![token_a@, token_b@],
                pending: false,
            }),
            r.wf(),
    {
        let ghost token_a_v = token_a@;
        let ghost token_b_v = token_b@;
        let mut tickers: Vec<TokenConfig> = Vec::new();
        tickers.push(token_a);
        tickers.push(token_b);
        let r = DeFi {
            owner_id,
            address_a,
            address_b,
            ratio: 0,
            tokens: TokenRegistry::new(),
            tickers,
            pending: PendingLock::new(),
        };
        proof {
            assert(Seq::new(r.tickers@.len(), |i: int| r.tickers@[i]@) =~= seq![
                token_a_v,
                token_b_v,
            ]);
        }
        r
    }

    /// The setup step that fetches a token's metadata: describes the
    /// metadata call against `token_address`; the host performs it and
    /// resumes with `set_token_info_callback`.
    pub fn set_token_info(&mut self, token_address: String) -> (r: LedgerCall)
        ensures
            final(self)@ == old(self)@,
            r@ == (LedgerCallV::Metadata { ledger: token_address@ }),
    {
        LedgerCall::Metadata { ledger: token_address }
    }

    /// The continuation of `set_token_info`: on success, stores the
    /// reported metadata under the reported symbol (last write wins); on
    /// remote failure, leaves the registry unchanged.
    pub fn set_token_info_callback(
        &mut self,
        token_address: String,
        call_result: Result<TokenMetadata, RemoteFailure>,
    )
        requires
            old(self).wf(),
        ensures
            final(self).wf(),
            final(self)@ == (PoolState { tokens: final(self)@.tokens, ..old(self)@ }),
            match call_result {
                Ok(meta) => {
                    &&& lookup_in(final(self)@.tokens, meta.symbol@) == Some(
                        TokenInfoV {
                            contract_address: token_address@,
                            name: meta.name@,
                            symbol: meta.symbol@,
                            decimals: meta.decimals,
                        },
                    )
                    &&& forall|k: Seq<char>|
                        k != meta.symbol@ ==> lookup_in(final(self)@.tokens, k) == lookup_in(
                            old(self)@.tokens,
                            k,
                        )
                },
                Err(_) => final(self)@ == old(self)@,
            },
    {
        match call_result {
            Err(_) => {},
            Ok(meta) => {
                let info = TokenInfo {
                    contract_address: token_address,
                    name: meta.name,
                    symbol: meta.symbol,
                    decimals: meta.decimals,
                };
                self.tokens.insert(info);
            },
        }
    }

    /// The entry the registry holds for `symbol`, or absent.
    pub fn get_token_info(&self, symbol: String) -> (r: Option<TokenInfo>)
        ensures
            match r {
                Some(info) => lookup_in(self@.tokens, symbol@) == Some(info@),
                None => lookup_in(self@.tokens, symbol@) is None,
            },
    {
        self.tokens.get(&symbol)
    }

    /// The ledger-service address of a registered token.
    fn get_contract_address(&self, symbol: &String) -> (r: String)
        requires
            lookup_in(self@.tokens, symbol@) is Some,
        ensures
            lookup_in(self@.tokens, symbol@) matches Some(info) && r@ == info.contract_address,
    {
        match self.tokens.get(symbol) {
            Some(info) => info.contract_address,
            None => vstd::pervasive::unreached(),
        }
    }

    /// The pool's custody address for one of the two swap symbols.
    fn get_token_address(&self, symbol: &String) -> (r: String)
        requires
            is_swap_symbol(symbol@),
        ensures
            r@ == custody_of(self@, symbol@),
    {
        if *symbol == "TokenA".to_owned() {
            self.address_a.clone()
        } else {
            self.address_b.clone()
        }
    }

    /// Describes the balance query for the pool's own holdings of
    /// `symbol`: the custody account's balance at the token's ledger
    /// service.
    pub fn get_swap_token(&mut self, symbol: String) -> (r: LedgerCall)
        requires
            lookup_in(old(self)@.tokens, symbol@) is Some,
        ensures
            final(self)@ == old(self)@,
            lookup_in(old(self)@.tokens, symbol@) matches Some(info) && r@ == (
            LedgerCallV::BalanceOf {
                ledger: info.contract_address,
                account: custody_of(old(self)@, symbol@),
            }),
    {
        let address = if symbol == "TokenA".to_owned() {
            self.address_a.clone()
        } else {
            self.address_b.clone()
        };
        let token_address = self.get_contract_address(&symbol);
        LedgerCall::BalanceOf { ledger: token_address, account: address }
    }

    /// The continuation of a single balance query: the balance on
    /// success, absent on remote failure.
    pub fn update_pool_token_callback(&mut self, call_result: Result<u128, RemoteFailure>) -> (r:
        Option<u128>)
        ensures
            final(self)@ == old(self)@,
            r == (match call_result {
                Ok(balance) => Some(balance),
                Err(_) => None::<u128>,
            }),
    {
        match call_result {
            Err(_) => None,
            Ok(balance) => Some(balance),
        }
    }

    /// Whether a swap is currently between acceptance and finalization.
    pub fn is_pending(&self) -> (r: bool)
        ensures
            r == self@.pending,
    {
        self.pending.in_flight()
    }

    /// The public swap entry point.
    ///
    /// An unknown symbol, or a swap already in flight, is rejected at
    /// once: the result is `false`, no remote call is described, and the
    /// state is untouched.  An accepted request takes the pending lock
    /// and describes the three remote calls to dispatch concurrently; the
    /// boolean settlement outcome is produced later, by
    /// `swap_token_withdraw`.
    pub fn swap_token(&mut self, symbol: String, amount: u128) -> (r: (bool, Option<SwapDispatch>))
        requires
            spec_request_accepted(old(self)@, symbol@) ==> lookup_in(old(self)@.tokens, symbol@)
                is Some && lookup_in(old(self)@.tokens, counter_symbol(symbol@)) is Some,
        ensures
            final(self)@ == spec_request_step(old(self)@, symbol@),
            r.0 == spec_request_accepted(old(self)@, symbol@),
            !r.0 ==> r.1 is None,
            r.0 ==> (r.1 matches Some(d) && lookup_in(old(self)@.tokens, symbol@) matches Some(
                info,
            ) && lookup_in(old(self)@.tokens, counter_symbol(symbol@)) matches Some(info_target)
                && d@ == (SwapDispatchV {
                balance_in_query: LedgerCallV::BalanceOf {
                    ledger: info.contract_address,
                    account: old(self)@.owner_id,
                },
                balance_out_query: LedgerCallV::BalanceOf {
                    ledger: info_target.contract_address,
                    account: old(self)@.owner_id,
                },
                deposit_transfer: LedgerCallV::Transfer {
                    ledger: info.contract_address,
                    receiver: custody_of(old(self)@, symbol@),
                    amount: amount,
                },
            })),
    {
        proof {
            reveal_strlit("TokenA");
            reveal_strlit("TokenB");
        }
        let symbol_target: String = if symbol == "TokenA".to_owned() {
            "TokenB".to_owned()
        } else if symbol == "TokenB".to_owned() {
            "TokenA".to_owned()
        } else {
            return (false, None);
        };
        if self.pending.in_flight() {
            return (false, None);
        }
        let token_info = match self.tokens.get(&symbol) {
            Some(info) => info,
            None => vstd::pervasive::unreached(),
        };
        let token_info_target = match self.tokens.get(&symbol_target) {
            Some(info) => info,
            None => vstd::pervasive::unreached(),
        };
        let contract_address = token_info.contract_address;
        let contract_address_target = token_info_target.contract_address;
        let token_address = self.get_token_address(&symbol);

        let _ = self.pending.try_acquire();

        let dispatch = SwapDispatch {
            balance_in_query: LedgerCall::BalanceOf {
                ledger: contract_address.clone(),
                account: self.owner_id.clone(),
            },
            balance_out_query: LedgerCall::BalanceOf {
                ledger: contract_address_target,
                account: self.owner_id.clone(),
            },
            deposit_transfer: LedgerCall::Transfer {
                ledger: contract_address,
                receiver: token_address,
                amount,
            },
        };
        (true, Some(dispatch))
    }

    /// The finalization of one swap: joins the outcome of the pricing
    /// with the outcome of the deposit transfer, once both have settled.
    ///
    /// Every path releases the pending lock; the swap succeeds if and
    /// only if both joined outcomes did.  No compensating transfer is
    /// issued on the partial-failure paths: a deposit that went through
    /// while the pricing failed stays in the pool's custody, the
    /// documented gap of the protocol.  The payout transfer itself, on
    /// the success path, is likewise left to the host.
    #[allow(unused_variables)]
    pub fn swap_token_withdraw(
        &mut self,
        contract_address_target: String,
        user_account_id: String,
        withdraw_balance: Result<u128, SwapError>,
        deposit_result: Result<(), RemoteFailure>,
    ) -> (r: bool)
        ensures
            final(self)@ == spec_finalize_step(old(self)@),
            r == (withdraw_balance is Ok && deposit_result is Ok),
    {
        match (withdraw_balance, deposit_result) {
            (Err(_), Err(_)) => {
                self.pending.release();
                false
            },
            (Err(_), Ok(_)) => {
                self.pending.release();
                false
            },
            (Ok(_), Err(_)) => {
                self.pending.release();
                false
            },
            (Ok(_), Ok(_)) => {
                self.pending.release();
                true
            },
        }
    }

    /// The pricing continuation: joins the two balance queries of one
    /// swap and computes the payout for `user_balance` deposited, or the
    /// reason it cannot be paid.
    pub fn calculate_target_token(
        &self,
        user_balance: u128,
        token: Result<u128, RemoteFailure>,
        token_target: Result<u128, RemoteFailure>,
    ) -> (r: Result<u128, SwapError>)
        ensures
            r == (match (token, token_target) {
                (Ok(balance), Ok(balance_target)) => spec_compute_target(
                    user_balance,
                    balance,
                    balance_target,
                ),
                _ => Err::<u128, SwapError>(SwapError::RemoteCall),
            }),
    {
        match (token, token_target) {
            (Ok(balance), Ok(balance_target)) => compute_target(
                user_balance,
                balance,
                balance_target,
            ),
            _ => Err(SwapError::RemoteCall),
        }
    }

    /// Rebalancing in the withdraw direction is left unprovided in this
    /// pool: the call describes no transfer and the state is untouched.
    #[allow(unused_variables)]
    pub fn withdraw_token(&self, symbol: String, amount: u128) -> (r: Option<LedgerCall>)
        ensures
            r is None,
    {
        None
    }

    /// Rebalancing in the deposit direction: describes the transfer of
    /// `amount` of `symbol` into the pool's custody address for it.
    pub fn deposit_token(&self, symbol: String, amount: u128) -> (r: LedgerCall)
        requires
            is_swap_symbol(symbol@),
            lookup_in(self@.tokens, symbol@) is Some,
        ensures
            lookup_in(self@.tokens, symbol@) matches Some(info) && r@ == (LedgerCallV::Transfer {
                ledger: info.contract_address,
                receiver: custody_of(self@, symbol@),
                amount: amount,
            }),
    {
        let contract_address = self.get_contract_address(&symbol);
        let token_address = self.get_token_address(&symbol);
        LedgerCall::Transfer { ledger: contract_address, receiver: token_address, amount }
    }

    /// Describes the two concurrent balance queries the diagnostic ratio
    /// metric joins: each custody account's balance at its own token's
    /// ledger service.
    pub fn get_token_ratio(&self) -> (r: RatioDispatch)
        requires
            lookup_in(self@.tokens, "TokenA"@) is Some,
            lookup_in(self@.tokens, "TokenB"@) is Some,
        ensures
            lookup_in(self@.tokens, "TokenA"@) matches Some(info_a) && lookup_in(
                self@.tokens,
                "TokenB"@,
            ) matches Some(info_b) && r@ == (RatioDispatchV {
                balance_a_query: LedgerCallV::BalanceOf {
                    ledger: info_a.contract_address,
                    account: self@.address_a,
                },
                balance_b_query: LedgerCallV::BalanceOf {
                    ledger: info_b.contract_address,
                    account: self@.address_b,
                },
            }),
    {
        let contract_address_a = self.get_contract_address(&"TokenA".to_owned());
        let contract_address_b = self.get_contract_address(&"TokenB".to_owned());
        RatioDispatch {
            balance_a_query: LedgerCall::BalanceOf {
                ledger: contract_address_a,
                account: self.address_a.clone(),
            },
            balance_b_query: LedgerCall::BalanceOf {
                ledger: contract_address_b,
                account: self.address_b.clone(),
            },
        }
    }

    /// The continuation of the ratio metric: joins the two balance
    /// queries and returns the checked product of the balances, or the
    /// reason there is none.
    pub fn do_calculate_ratio(
        &self,
        balance_a: Result<u128, RemoteFailure>,
        balance_b: Result<u128, RemoteFailure>,
    ) -> (r: Result<u128, SwapError>)
        ensures
            r == (match (balance_a, balance_b) {
                (Ok(a), Ok(b)) => spec_compute_pool_ratio(a, b),
                _ => Err::<u128, SwapError>(SwapError::RemoteCall),
            }),
    {
        match (balance_a, balance_b) {
            (Ok(a), Ok(b)) => compute_pool_ratio(a, b),
            _ => Err(SwapError::RemoteCall),
        }
    }
}

} // verus!
