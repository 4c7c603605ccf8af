//! The wallet: one master key, the accounts derived from it so far, the
//! known tokens and the record of submitted transfers.
//!
//! The wallet never talks to a chain node itself. A refresh is handed the
//! answers of the balance queries; a transfer is first turned into a
//! request, which the caller signs and submits, and then recorded with
//! what the node answered.

use vstd::prelude::*;
use vstd::string::*;
use crate::account::{
    answers_complete, refresh_complete, snapshot_of, AccountView, TokenBalance, WalletAccount,
};
use crate::codec::{is_address, is_address_text};
use crate::error::WalletError;
use crate::keys::{
    address_of, child_wallet_of, derivation_path, derivation_path_text,
    derive_master_key, master_key_from_entropy, master_key_of, master_key_of_entropy,
    signing_key_of, MasterKey,
};
use crate::ledger::{TransactionLedger, TransactionRecord};
use crate::registry::{has_symbol, symbol_index, unique_symbols, TokenInfo, TokenRegistry};
use crate::codec::{decimal_value, lemma_decimal_text_injective, decimal_text};
use crate::uint::{is_amount_text, U256};

verus! {

/// What a caller hands in to have a wallet made.
#[derive(Debug)]
pub struct CreateWalletRequest {
    /// The secret from which the master key is derived, as text.
    pub passkey: String,
}

/// The public state of a wallet.
#[derive(Debug)]
pub struct WalletResponse {
    pub accounts: Vec<WalletAccount>,
    pub supported_tokens: Vec<TokenInfo>,
}

/// A transfer that passed every check and is ready to be signed and
/// submitted.
#[derive(Debug)]
pub struct TransferRequest {
    /// The index of the paying account; its signing key signs the transfer.
    pub from_index: usize,
    pub from_address: String,
    /// The receiving address, as the caller wrote it.
    pub to_address: String,
    /// The amount in the smallest unit of the asset. It is never scaled by a
    /// token's decimals.
    pub amount: U256,
    pub gas_price: Option<U256>,
    /// `None` for the native asset. Otherwise the token whose contract is
    /// to be called with the receiver and the amount.
    pub token: Option<TokenInfo>,
}

/// The views of a list of accounts.
pub open spec fn account_views(accounts: Seq<WalletAccount>) -> Seq<AccountView> {
    Seq::new(accounts.len(), |i: int| accounts[i]@)
}

/// Whether the account is the one that `master` yields at `position`, with
/// a well-formed address.
pub open spec fn account_derived(master: Seq<u8>, account: AccountView, position: int) -> bool {
    &&& account.index == position
    &&& account.path == derivation_path(account.index)
    &&& address_of(master, account.index) == Some(account.address)
    &&& is_address_text(account.address)
}

/// The account that is derived next when `count` accounts exist: it has the
/// index `count`, the canonical path of that index, the address of the child
/// key at that path, and no balance yet. There is none where the index does
/// not fit 32 bits or the child key does not exist.
pub open spec fn next_account(master: Seq<u8>, count: nat) -> Option<AccountView> {
    if count > u32::MAX {
        None
    } else {
        match address_of(master, count as u32) {
            None => None,
            Some(address) => Some(
                AccountView {
                    address,
                    path: derivation_path(count as u32),
                    index: count as u32,
                    balance: U256 { w0: 0, w1: 0, w2: 0, w3: 0 },
                    tokens: Seq::empty(),
                },
            ),
        }
    }
}

/// The characters of an optional text.
pub open spec fn text_of(text: Option<&str>) -> Option<Seq<char>> {
    match text {
        Some(s) => Some(s@),
        None => None,
    }
}

/// The first reason, if any, for which a transfer is refused. The paying
/// account is looked at first, then the receiving address, then the amount,
/// then the gas price, and the token last.
pub open spec fn transfer_error(
    count: nat,
    tokens: Seq<TokenInfo>,
    from_index: usize,
    to: Seq<char>,
    amount: Seq<char>,
    token_symbol: Option<Seq<char>>,
    gas_price: Option<Seq<char>>,
) -> Option<WalletError> {
    if from_index >= count {
        Some(WalletError::UnknownAccount)
    } else if !is_address_text(to) {
        Some(WalletError::InvalidAddress)
    } else if !is_amount_text(amount) {
        Some(WalletError::InvalidAmount)
    } else if gas_price.is_some() && !is_amount_text(gas_price.unwrap()) {
        Some(WalletError::InvalidAmount)
    } else if token_symbol.is_some() && !has_symbol(tokens, token_symbol.unwrap()) {
        Some(WalletError::UnknownToken)
    } else {
        None
    }
}

/// The record of a request that the chain accepted under `hash`.
pub open spec fn record_of(request: TransferRequest, hash: String, timestamp: u64)
    -> TransactionRecord {
    TransactionRecord {
        hash,
        from_address: request.from_address,
        to_address: request.to_address,
        value: request.amount,
        token_symbol: match request.token {
            Some(token) => Some(token.symbol),
            None => None,
        },
        timestamp,
        submitted: true,
    }
}

/// A hierarchical-deterministic wallet.
pub struct HDWallet {
    master_key: MasterKey,
    accounts: Vec<WalletAccount>,
    registry: TokenRegistry,
    ledger: TransactionLedger,
}

impl HDWallet {
    /// The encoded master key.
    pub closed spec fn master(&self) -> Seq<u8> {
        self.master_key@
    }

    /// The accounts derived so far, in the order of their derivation.
    pub closed spec fn accounts(&self) -> Seq<AccountView> {
        account_views(self.accounts@)
    }

    /// The known tokens.
    pub closed spec fn tokens(&self) -> Seq<TokenInfo> {
        self.registry@
    }

    /// The submitted transfers, oldest first.
    pub closed spec fn history(&self) -> Seq<TransactionRecord> {
        self.ledger@
    }

    /// The wallet's invariant: token symbols are unique, and the account at
    /// each position is the one that the master key yields there.
    pub open spec fn wf(&self) -> bool {
        &&& unique_symbols(self.tokens())
        &&& self.accounts().len() <= 0x1_0000_0000
        &&& forall|i: int|
            0 <= i < self.accounts().len() ==> account_derived(
                self.master(),
                #[trigger] self.accounts()[i],
                i,
            )
    }

    /// The token with the given symbol, where it is known.
    pub open spec fn token_of(&self, symbol: Seq<char>) -> TokenInfo {
        self.tokens()[symbol_index(self.tokens(), symbol)]
    }

    /// Whether `request` asks for exactly the given transfer from the
    /// account at `from_index`.
    pub open spec fn request_is(
        &self,
        request: TransferRequest,
        from_index: usize,
        to: Seq<char>,
        amount: U256,
        gas_price: Option<U256>,
        token: Option<TokenInfo>,
    ) -> bool {
        &&& request.from_index == from_index
        &&& request.from_address@ == self.accounts()[from_index as int].address
        &&& request.to_address@ == to
        &&& request.amount == amount
        &&& request.gas_price == gas_price
        &&& request.token == token
    }

    fn with_master_key(master_key: MasterKey, registry: TokenRegistry) -> (r: HDWallet)
        requires
            registry.wf(),
        ensures
            r.wf(),
            r.master() == master_key@,
            r.accounts().len() == 0,
            r.tokens() == registry@,
            r.history().len() == 0,
    {
        HDWallet { master_key, accounts: Vec::new(), registry, ledger: TransactionLedger::new() }
    }

    /// Makes a wallet from a secret and the known tokens. It has no account
    /// and no record yet.
    pub fn new(passkey: &[u8], registry: TokenRegistry) -> (r: Result<HDWallet, WalletError>)
        requires
            registry.wf(),
        ensures
            match master_key_of(passkey@) {
                Ok(key) => r matches Ok(w) && w.wf() && w.master() == key && w.accounts().len()
                    == 0 && w.tokens() == registry@ && w.history().len() == 0,
                Err(e) => r matches Err(x) && x == e,
            },
    {
        match derive_master_key(passkey) {
            Ok(master_key) => Ok(HDWallet::with_master_key(master_key, registry)),
            Err(e) => Err(e),
        }
    }

    /// Makes a wallet from the entropy of a recovery phrase and the known
    /// tokens. It has no account and no record yet.
    pub fn from_entropy(entropy: &[u8], registry: TokenRegistry) -> (r: Result<
        HDWallet,
        WalletError,
    >)
        requires
            registry.wf(),
        ensures
            match master_key_of_entropy(entropy@) {
                Ok(key) => r matches Ok(w) && w.wf() && w.master() == key && w.accounts().len()
                    == 0 && w.tokens() == registry@ && w.history().len() == 0,
                Err(e) => r matches Err(x) && x == e,
            },
    {
        match master_key_from_entropy(entropy) {
            Ok(master_key) => Ok(HDWallet::with_master_key(master_key, registry)),
            Err(e) => Err(e),
        }
    }

    /// The encoded extended public key of the child wallet at `index`. It
    /// belongs to no account and changes nothing.
    pub fn derive_child_wallet(&self, index: u32) -> (r: Result<Vec<u8>, WalletError>)
        ensures
            match child_wallet_of(self.master(), index) {
                Some(key) => r matches Ok(k) && k@ == key,
                None => r matches Err(x) && x == WalletError::KeyDerivationError,
            },
    {
        self.master_key.child_wallet(index)
    }

    /// Derives the next account, stores it behind the others and returns a
    /// copy. Accounts that exist are left as they are.
    pub fn derive_account(&mut self) -> (r: Result<WalletAccount, WalletError>)
        requires
            old(self).wf(),
        ensures
            final(self).wf(),
            final(self).master() == old(self).master(),
            final(self).tokens() == old(self).tokens(),
            final(self).history() == old(self).history(),
            match next_account(old(self).master(), old(self).accounts().len()) {
                Some(account) => {
                    &&& r matches Ok(a) && a@ == account
                    &&& final(self).accounts() == old(self).accounts().push(account)
                },
                None => {
                    &&& r matches Err(e) && e == WalletError::KeyDerivationError
                    &&& final(self).accounts() == old(self).accounts()
                },
            },
    {
        let count: usize = self.accounts.len();
        if count > 0xFFFF_FFFF {
            return Err(WalletError::KeyDerivationError);
        }
        let index: u32 = count as u32;
        let address = match self.master_key.address(index) {
            Ok(address) => address,
            Err(_) => {
                return Err(WalletError::KeyDerivationError);
            },
        };
        let account = WalletAccount {
            address,
            path: derivation_path_text(index),
            index,
            balance: U256::zero(),
            tokens: Vec::new(),
        };
        let copy = account.clone();
        self.accounts.push(account);
        proof {
            assert(self.accounts() =~= old(self).accounts().push(account@));
            assert(copy@.tokens =~= Seq::<TokenBalance>::empty());
        }
        Ok(copy)
    }

    /// The account at `index`.
    pub fn get_account(&self, index: usize) -> (r: Result<&WalletAccount, WalletError>)
        ensures
            index < self.accounts().len() ==> (r matches Ok(a) && a@
                == self.accounts()[index as int]),
            index >= self.accounts().len() ==> (r matches Err(e) && e
                == WalletError::UnknownAccount),
    {
        if index < self.accounts.len() {
            Ok(&self.accounts[index])
        } else {
            Err(WalletError::UnknownAccount)
        }
    }

    /// The number of accounts derived so far.
    pub fn get_account_count(&self) -> (r: usize)
        ensures
            r == self.accounts().len(),
    {
        self.accounts.len()
    }

    /// The key that signs for the account at `index`. It is meant for the
    /// code that signs a transfer and for nobody else.
    pub fn signing_key_for(&self, index: usize) -> (r: Result<Vec<u8>, WalletError>)
        requires
            self.wf(),
        ensures
            index < self.accounts().len() ==> (r matches Ok(key) && signing_key_of(
                self.master(),
                index as u32,
            ) == Some(key@)),
            index >= self.accounts().len() ==> (r matches Err(e) && e
                == WalletError::UnknownAccount),
    {
        if index >= self.accounts.len() {
            return Err(WalletError::UnknownAccount);
        }
        assert(account_derived(self.master(), self.accounts()[index as int], index as int));
        self.master_key.signing_key(self.accounts[index].index)
    }

    /// The known tokens.
    pub fn registry(&self) -> (r: &TokenRegistry)
        ensures
            r@ == self.tokens(),
    {
        &self.registry
    }

    /// The contract address and the decimals of the token with the given
    /// symbol.
    pub fn get_token_info(&self, symbol: &str) -> (r: Result<(&str, u8), WalletError>)
        requires
            self.wf(),
        ensures
            has_symbol(self.tokens(), symbol@) ==> (r matches Ok(info) && info.0@ == self.token_of(
                symbol@,
            ).address@ && info.1 == self.token_of(symbol@).decimals),
            !has_symbol(self.tokens(), symbol@) ==> (r matches Err(e) && e
                == WalletError::UnknownToken),
    {
        match self.registry.lookup(symbol) {
            Ok(token) => Ok((token.address.as_str(), token.decimals)),
            Err(e) => Err(e),
        }
    }

    /// The symbols of the known tokens, in the registry's order.
    pub fn list_supported_tokens(&self) -> (r: Vec<String>)
        ensures
            r@.len() == self.tokens().len(),
            forall|i: int| 0 <= i < r@.len() ==> (#[trigger] r@[i])@ == self.tokens()[i].symbol@,
    {
        self.registry.list_symbols()
    }

    /// Builds the token balances of an account from the answers of the
    /// balance queries, one answer for each known token in the registry's
    /// order, `None` where a query failed. One missing answer fails the
    /// whole.
    pub fn load_token_balances(&self, answers: &Vec<Option<U256>>) -> (r: Result<
        Vec<TokenBalance>,
        WalletError,
    >)
        ensures
            answers_complete(self.tokens(), answers@)
                ==> (r matches Ok(balances) && balances@ == snapshot_of(self.tokens(), answers@)),
            !answers_complete(self.tokens(), answers@)
                ==> (r matches Err(e) && e == WalletError::ChainQueryError),
    {
        let n: usize = self.registry.len();
        if answers.len() != n {
            return Err(WalletError::ChainQueryError);
        }
        let mut out: Vec<TokenBalance> = Vec::new();
        let mut i: usize = 0;
        while i < n
            invariant
                i <= n,
                n == self.tokens().len(),
                n == answers@.len(),
                out@.len() == i,
                forall|k: int| 0 <= k < i ==> (#[trigger] answers@[k]).is_some(),
                forall|k: int|
                    0 <= k < i ==> #[trigger] out@[k] == snapshot_of(self.tokens(), answers@)[k],
            decreases n - i,
        {
            let answer: Option<U256> = answers[i];
            let entry = self.registry.entry(i);
            match (answer, entry) {
                (Some(balance), Some(token)) => {
                    out.push(
                        TokenBalance {
                            symbol: token.symbol.clone(),
                            balance,
                            decimal: token.decimals,
                            contract_address: token.address.clone(),
                        },
                    );
                },
                _ => {
                    return Err(WalletError::ChainQueryError);
                },
            }
            i = i + 1;
        }
        assert(out@ =~= snapshot_of(self.tokens(), answers@));
        Ok(out)
    }

    /// Takes over a refresh of the account at `index`: its native balance
    /// and all its token balances are replaced together, or, where any
    /// answer is missing, nothing is changed.
    pub fn update_account_balances(
        &mut self,
        index: usize,
        native: Option<U256>,
        answers: &Vec<Option<U256>>,
    ) -> (r: Result<(), WalletError>)
        requires
            old(self).wf(),
        ensures
            final(self).wf(),
            final(self).master() == old(self).master(),
            final(self).tokens() == old(self).tokens(),
            final(self).history() == old(self).history(),
            index >= old(self).accounts().len() ==> (r matches Err(e) && e
                == WalletError::UnknownAccount && final(self).accounts() == old(self).accounts()),
            index < old(self).accounts().len() && !refresh_complete(
                old(self).tokens(),
                native,
                answers@,
            ) ==> (r matches Err(e) && e == WalletError::ChainQueryError && final(self).accounts()
                == old(self).accounts()),
            index < old(self).accounts().len() && refresh_complete(
                old(self).tokens(),
                native,
                answers@,
            ) ==> r.is_ok() && final(self).accounts() == old(self).accounts().update(
                index as int,
                (AccountView {
                    address: old(self).accounts()[index as int].address,
                    path: old(self).accounts()[index as int].path,
                    index: old(self).accounts()[index as int].index,
                    balance: native.unwrap(),
                    tokens: snapshot_of(old(self).tokens(), answers@),
                }),
            ),
    {
        if index >= self.accounts.len() {
            return Err(WalletError::UnknownAccount);
        }
        let balance: U256 = match native {
            Some(balance) => balance,
            None => {
                return Err(WalletError::ChainQueryError);
            },
        };
        let tokens = match self.load_token_balances(answers) {
            Ok(tokens) => tokens,
            Err(e) => {
                return Err(e);
            },
        };
        let account = WalletAccount {
            address: self.accounts[index].address.clone(),
            path: self.accounts[index].path.clone(),
            index: self.accounts[index].index,
            balance,
            tokens,
        };
        let ghost updated = account@;
        self.accounts[index] = account;
        proof {
            assert(self.accounts() =~= old(self).accounts().update(index as int, updated));
            assert(account_derived(
                old(self).master(),
                old(self).accounts()[index as int],
                index as int,
            ));
        }
        Ok(())
    }

    /// Checks a transfer of the native asset and describes it.
    pub fn send_eth(&self, from_index: usize, to: &str, amount: U256, gas_price: Option<U256>)
        -> (r: Result<TransferRequest, WalletError>)
        ensures
            from_index >= self.accounts().len() ==> (r matches Err(e) && e
                == WalletError::UnknownAccount),
            from_index < self.accounts().len() && !is_address_text(to@) ==> (r matches Err(e) && e
                == WalletError::InvalidAddress),
            from_index < self.accounts().len() && is_address_text(to@) ==> (r matches Ok(request)
                && self.request_is(request, from_index, to@, amount, gas_price, None)),
    {
        if from_index >= self.accounts.len() {
            return Err(WalletError::UnknownAccount);
        }
        if !is_address(to) {
            return Err(WalletError::InvalidAddress);
        }
        Ok(
            TransferRequest {
                from_index,
                from_address: self.accounts[from_index].address.clone(),
                to_address: String::from_str(to),
                amount,
                gas_price,
                token: None,
            },
        )
    }

    /// Checks a transfer of a token and describes it. The amount is passed
    /// on as it is.
    pub fn send_token(
        &self,
        from_index: usize,
        token_symbol: &str,
        to: &str,
        amount: U256,
        gas_price: Option<U256>,
    ) -> (r: Result<TransferRequest, WalletError>)
        requires
            self.wf(),
        ensures
            from_index >= self.accounts().len() ==> (r matches Err(e) && e
                == WalletError::UnknownAccount),
            from_index < self.accounts().len() && !is_address_text(to@) ==> (r matches Err(e) && e
                == WalletError::InvalidAddress),
            from_index < self.accounts().len() && is_address_text(to@) && !has_symbol(
                self.tokens(),
                token_symbol@,
            ) ==> (r matches Err(e) && e == WalletError::UnknownToken),
            from_index < self.accounts().len() && is_address_text(to@) && has_symbol(
                self.tokens(),
                token_symbol@,
            ) ==> (r matches Ok(request) && self.request_is(
                request,
                from_index,
                to@,
                amount,
                gas_price,
                Some(self.token_of(token_symbol@)),
            )),
    {
        if from_index >= self.accounts.len() {
            return Err(WalletError::UnknownAccount);
        }
        if !is_address(to) {
            return Err(WalletError::InvalidAddress);
        }
        let token = match self.registry.lookup(token_symbol) {
            Ok(token) => token.clone(),
            Err(e) => {
                return Err(e);
            },
        };
        Ok(
            TransferRequest {
                from_index,
                from_address: self.accounts[from_index].address.clone(),
                to_address: String::from_str(to),
                amount,
                gas_price,
                token: Some(token),
            },
        )
    }

    /// Checks a transfer whose amount and gas price are written in decimal
    /// digits, and describes it. Nothing is submitted and nothing changes:
    /// a refused transfer never reaches the chain.
    pub fn transfer(
        &self,
        from_index: usize,
        to: &str,
        amount: &str,
        token_symbol: Option<&str>,
        gas_price: Option<&str>,
    ) -> (r: Result<TransferRequest, WalletError>)
        requires
            self.wf(),
        ensures
            match transfer_error(
                self.accounts().len(),
                self.tokens(),
                from_index,
                to@,
                amount@,
                text_of(token_symbol),
                text_of(gas_price),
            ) {
                Some(e) => r matches Err(x) && x == e,
                None => r matches Ok(request) && self.request_is(
                    request,
                    from_index,
                    to@,
                    request.amount,
                    request.gas_price,
                    match token_symbol {
                        Some(symbol) => Some(self.token_of(symbol@)),
                        None => None,
                    },
                ) && request.amount.value() == decimal_value(amount@) && match gas_price {
                    Some(price) => request.gas_price.is_some()
                        && request.gas_price.unwrap().value() == decimal_value(price@),
                    None => request.gas_price.is_none(),
                },
            },
    {
        if from_index >= self.accounts.len() {
            return Err(WalletError::UnknownAccount);
        }
        if !is_address(to) {
            return Err(WalletError::InvalidAddress);
        }
        let value: U256 = match U256::from_dec_str(amount) {
            Ok(value) => value,
            Err(e) => {
                return Err(e);
            },
        };
        let price: Option<U256> = match gas_price {
            Some(text) => match U256::from_dec_str(text) {
                Ok(price) => Some(price),
                Err(e) => {
                    return Err(e);
                },
            },
            None => None,
        };
        match token_symbol {
            Some(symbol) => self.send_token(from_index, symbol, to, value, price),
            None => self.send_eth(from_index, to, value, price),
        }
    }

    /// Records what became of a submitted request. Where the chain answered
    /// with a hash, a record is added behind all others and returned; where
    /// the submission failed, nothing is recorded. Each call with a hash
    /// adds a record: the same request submitted twice is recorded twice.
    pub fn record_transfer(
        &mut self,
        request: &TransferRequest,
        outcome: Option<String>,
        timestamp: u64,
    ) -> (r: Result<TransactionRecord, WalletError>)
        ensures
            final(self).wf() == old(self).wf(),
            final(self).master() == old(self).master(),
            final(self).tokens() == old(self).tokens(),
            final(self).accounts() == old(self).accounts(),
            outcome.is_none() ==> (r matches Err(e) && e == WalletError::ChainBroadcastError
                && final(self).history() == old(self).history()),
            outcome matches Some(hash) ==> (r matches Ok(record) && record == record_of(
                *request,
                hash,
                timestamp,
            ) && final(self).history() == old(self).history().push(record)),
    {
        match outcome {
            None => Err(WalletError::ChainBroadcastError),
            Some(hash) => {
                let symbol: Option<String> = match &request.token {
                    Some(token) => Some(token.symbol.clone()),
                    None => None,
                };
                let record = TransactionRecord {
                    hash,
                    from_address: request.from_address.clone(),
                    to_address: request.to_address.clone(),
                    value: request.amount,
                    token_symbol: symbol,
                    timestamp,
                    submitted: true,
                };
                let copy = record.clone();
                self.ledger.append(record);
                Ok(copy)
            },
        }
    }

    /// The accounts and the known tokens, copied out.
    pub fn get_wallet_info(&self) -> (r: WalletResponse)
        ensures
            account_views(r.accounts@) == self.accounts(),
            r.supported_tokens@ == self.tokens(),
    {
        let mut accounts: Vec<WalletAccount> = Vec::new();
        let mut i: usize = 0;
        while i < self.accounts.len()
            invariant
                i <= self.accounts.len(),
                accounts@.len() == i,
                forall|k: int| 0 <= k < i ==> (#[trigger] accounts@[k])@ == self.accounts@[k]@,
            decreases self.accounts.len() - i,
        {
            accounts.push(self.accounts[i].clone());
            i = i + 1;
        }
        let entries = self.registry.entries();
        let mut supported_tokens: Vec<TokenInfo> = Vec::new();
        let mut j: usize = 0;
        while j < entries.len()
            invariant
                j <= entries.len(),
                supported_tokens@.len() == j,
                forall|k: int| 0 <= k < j ==> #[trigger] supported_tokens@[k] == entries@[k],
            decreases entries.len() - j,
        {
            supported_tokens.push(entries[j].clone());
            j = j + 1;
        }
        assert(account_views(accounts@) =~= self.accounts());
        assert(supported_tokens@ =~= self.tokens());
        WalletResponse { accounts, supported_tokens }
    }

    /// All submitted transfers, oldest first.
    pub fn transactions(&self) -> (r: &Vec<TransactionRecord>)
        ensures
            r@ == self.history(),
    {
        self.ledger.all()
    }

    /// The submitted transfers from or to an address, oldest first.
    pub fn transactions_of(&self, address: &str) -> (r: Vec<TransactionRecord>)
        ensures
            r@ == crate::ledger::records_of(self.history(), address@),
    {
        self.ledger.by_account(address)
    }
}

/// Makes a wallet from a request: the bytes of the passkey text are the
/// secret.
pub fn create_wallet(request: &CreateWalletRequest, registry: TokenRegistry) -> (r: Result<
    HDWallet,
    WalletError,
>)
    requires
        registry.wf(),
    ensures
        match master_key_of(vstd::utf8::encode_utf8(request.passkey@)) {
            Ok(key) => r matches Ok(w) && w.wf() && w.master() == key && w.accounts().len() == 0
                && w.tokens() == registry@ && w.history().len() == 0,
            Err(e) => r matches Err(x) && x == e,
        },
{
    HDWallet::new(request.passkey.as_str().as_bytes(), registry)
}

/// Accounts stand in the order of their indices: the account at position
/// `i` has the index `i`, so indices grow strictly along the sequence, and
/// no two accounts share an index or a path.
pub proof fn lemma_accounts_in_sequence(wallet: HDWallet, i: int, j: int)
    requires
        wallet.wf(),
        0 <= i < j < wallet.accounts().len(),
    ensures
        wallet.accounts()[i].index == i,
        wallet.accounts()[j].index == j,
        wallet.accounts()[i].index < wallet.accounts()[j].index,
        wallet.accounts()[i].path != wallet.accounts()[j].path,
{
    let a = wallet.accounts()[i];
    let b = wallet.accounts()[j];
    assert(account_derived(wallet.master(), a, i));
    assert(account_derived(wallet.master(), b, j));
    if a.path == b.path {
        let prefix = "m/44'/60'/0'/0/"@;
        let x = decimal_text(a.index as nat);
        let y = decimal_text(b.index as nat);
        assert((prefix + x).subrange(prefix.len() as int, (prefix + x).len() as int) =~= x);
        assert((prefix + y).subrange(prefix.len() as int, (prefix + y).len() as int) =~= y);
        lemma_decimal_text_injective(a.index as nat, b.index as nat);
    }
}

/// An index keeps its address: two states of a wallet, or two wallets, with
/// the same master key hold the same index, path and address at every
/// position that both have. Every operation keeps the master key, so none
/// gives an index another address.
pub proof fn lemma_address_is_permanent(before: HDWallet, after: HDWallet, i: int)
    requires
        before.wf(),
        after.wf(),
        before.master() == after.master(),
        0 <= i < before.accounts().len(),
        i < after.accounts().len(),
    ensures
        after.accounts()[i].index == before.accounts()[i].index,
        after.accounts()[i].path == before.accounts()[i].path,
        after.accounts()[i].address == before.accounts()[i].address,
{
    assert(account_derived(before.master(), before.accounts()[i], i));
    assert(account_derived(after.master(), after.accounts()[i], i));
}

/// A paying account that does not exist is what a transfer is refused for,
/// whatever the other arguments are.
pub proof fn lemma_unknown_account_first(
    count: nat,
    tokens: Seq<TokenInfo>,
    from_index: usize,
    to: Seq<char>,
    amount: Seq<char>,
    token_symbol: Option<Seq<char>>,
    gas_price: Option<Seq<char>>,
)
    requires
        from_index >= count,
    ensures
        transfer_error(count, tokens, from_index, to, amount, token_symbol, gas_price) == Some(
            WalletError::UnknownAccount,
        ),
{
}

/// A transfer of an unknown token from an existing account, to a
/// well-formed address and of a well-formed amount and gas price, is
/// refused for the token.
pub proof fn lemma_unknown_token_refused(
    count: nat,
    tokens: Seq<TokenInfo>,
    from_index: usize,
    to: Seq<char>,
    amount: Seq<char>,
    symbol: Seq<char>,
    gas_price: Option<Seq<char>>,
)
    requires
        from_index < count,
        is_address_text(to),
        is_amount_text(amount),
        gas_price matches Some(price) ==> is_amount_text(price),
        !has_symbol(tokens, symbol),
    ensures
        transfer_error(count, tokens, from_index, to, amount, Some(symbol), gas_price) == Some(
            WalletError::UnknownToken,
        ),
{
}

/// A transfer of the native asset between two accounts of the wallet is
/// never refused for its addresses: with a well-formed amount and gas price
/// it is accepted.
pub proof fn lemma_own_accounts_can_be_paid(
    wallet: HDWallet,
    from_index: usize,
    to_index: usize,
    amount: Seq<char>,
    gas_price: Option<Seq<char>>,
)
    requires
        wallet.wf(),
        from_index < wallet.accounts().len(),
        to_index < wallet.accounts().len(),
        is_amount_text(amount),
        gas_price matches Some(price) ==> is_amount_text(price),
    ensures
        transfer_error(
            wallet.accounts().len(),
            wallet.tokens(),
            from_index,
            wallet.accounts()[to_index as int].address,
            amount,
            None,
            gas_price,
        ).is_none(),
{
    assert(account_derived(
        wallet.master(),
        wallet.accounts()[to_index as int],
        to_index as int,
    ));
}

} // verus!
