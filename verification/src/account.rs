//! Accounts and their balance snapshots.

use vstd::prelude::*;
use vstd::string::*;
use crate::registry::{same_text, TokenInfo};
use crate::uint::U256;

verus! {

/// The last balance seen of one token on one account.
#[derive(Debug)]
pub struct TokenBalance {
    pub symbol: String,
    pub balance: U256,
    pub decimal: u8,
    pub contract_address: String,
}

impl Clone for TokenBalance {
    fn clone(&self) -> (r: Self)
        ensures
            r == *self,
    {
        TokenBalance {
            symbol: self.symbol.clone(),
            balance: self.balance,
            decimal: self.decimal,
            contract_address: self.contract_address.clone(),
        }
    }
}

/// One derived account: the public side of a child key.
#[derive(Debug)]
pub struct WalletAccount {
    pub address: String,
    pub path: String,
    pub index: u32,
    /// The last native balance seen.
    pub balance: U256,
    /// The last token balances seen, one for each known token, in the
    /// registry's order.
    pub tokens: Vec<TokenBalance>,
}

/// What an account holds, as mathematical values.
pub struct AccountView {
    pub address: Seq<char>,
    pub path: Seq<char>,
    pub index: u32,
    pub balance: U256,
    pub tokens: Seq<TokenBalance>,
}

impl View for WalletAccount {
    type V = AccountView;

    open spec fn view(&self) -> AccountView {
        AccountView {
            address: self.address@,
            path: self.path@,
            index: self.index,
            balance: self.balance,
            tokens: self.tokens@,
        }
    }
}

/// A copy of a list of token balances.
pub fn clone_balances(balances: &Vec<TokenBalance>) -> (r: Vec<TokenBalance>)
    ensures
        r@ == balances@,
{
    let mut out: Vec<TokenBalance> = Vec::new();
    let mut i: usize = 0;
    while i < balances.len()
        invariant
            i <= balances.len(),
            out@ == balances@.take(i as int),
        decreases balances.len() - i,
    {
        out.push(balances[i].clone());
        assert(out@ =~= balances@.take(i + 1));
        i = i + 1;
    }
    assert(balances@.take(i as int) =~= balances@);
    out
}

impl Clone for WalletAccount {
    fn clone(&self) -> (r: Self)
        ensures
            r@ == self@,
    {
        WalletAccount {
            address: self.address.clone(),
            path: self.path.clone(),
            index: self.index,
            balance: self.balance,
            tokens: clone_balances(&self.tokens),
        }
    }
}

/// Whether `position` is the first place in `balances` at which the symbol
/// stands.
pub open spec fn first_with_symbol(balances: Seq<TokenBalance>, symbol: Seq<char>, position: int)
    -> bool {
    &&& 0 <= position < balances.len()
    &&& balances[position].symbol@ == symbol
    &&& forall|j: int| 0 <= j < position ==> (#[trigger] balances[j]).symbol@ != symbol
}

impl WalletAccount {
    /// The balance last seen of the token with the given symbol, which must
    /// match exactly. There is none before the first refresh and for a
    /// token that is not known.
    pub fn token_balance(&self, symbol: &str) -> (r: Option<&TokenBalance>)
        ensures
            match r {
                Some(balance) => exists|i: int|
                    first_with_symbol(self.tokens@, symbol@, i) && self.tokens@[i] == *balance,
                None => forall|i: int|
                    0 <= i < self.tokens@.len() ==> (#[trigger] self.tokens@[i]).symbol@
                        != symbol@,
            },
    {
        let mut i: usize = 0;
        while i < self.tokens.len()
            invariant
                i <= self.tokens.len(),
                forall|j: int| 0 <= j < i ==> (#[trigger] self.tokens@[j]).symbol@ != symbol@,
            decreases self.tokens.len() - i,
        {
            if same_text(&self.tokens[i].symbol, symbol) {
                assert(first_with_symbol(self.tokens@, symbol@, i as int));
                return Some(&self.tokens[i]);
            }
            i = i + 1;
        }
        None
    }
}

/// Whether every query of a refresh was answered.
pub open spec fn all_answered(answers: Seq<Option<U256>>) -> bool {
    forall|i: int| 0 <= i < answers.len() ==> (#[trigger] answers[i]).is_some()
}

/// The balance snapshot that the answers give: one entry for each known
/// token, in the registry's order, with the token's own symbol, contract and
/// decimals and the balance that was answered for it.
pub open spec fn snapshot_of(tokens: Seq<TokenInfo>, answers: Seq<Option<U256>>) -> Seq<
    TokenBalance,
> {
    Seq::new(
        tokens.len(),
        |i: int|
            TokenBalance {
                symbol: tokens[i].symbol,
                balance: answers[i].unwrap(),
                decimal: tokens[i].decimals,
                contract_address: tokens[i].address,
            },
    )
}

/// Whether the token queries were answered in full: one answer for each
/// known token, and none missing.
pub open spec fn answers_complete(tokens: Seq<TokenInfo>, answers: Seq<Option<U256>>) -> bool {
    answers.len() == tokens.len() && all_answered(answers)
}

/// Whether a refresh is taken over: the native balance and every token
/// balance were answered. A refresh is taken over whole or not at all.
pub open spec fn refresh_complete(
    tokens: Seq<TokenInfo>,
    native: Option<U256>,
    answers: Seq<Option<U256>>,
) -> bool {
    native.is_some() && answers_complete(tokens, answers)
}

/// Without known tokens a refresh needs the native balance only, and leaves
/// the token balances empty.
pub proof fn lemma_refresh_without_tokens(tokens: Seq<TokenInfo>, native: U256)
    requires
        tokens.len() == 0,
    ensures
        refresh_complete(tokens, Some(native), Seq::empty()),
        snapshot_of(tokens, Seq::empty()).len() == 0,
{
}

} // verus!
