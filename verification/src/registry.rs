//! The fungible tokens that the wallet knows.

use vstd::prelude::*;
use vstd::string::*;
use crate::error::WalletError;

verus! {

/// One known token: its symbol, its contract and the number of decimals in
/// which its amounts are counted.
#[derive(Debug)]
pub struct TokenInfo {
    pub symbol: String,
    pub address: String,
    pub decimals: u8,
}

impl Clone for TokenInfo {
    fn clone(&self) -> (r: Self)
        ensures
            r == *self,
    {
        TokenInfo {
            symbol: self.symbol.clone(),
            address: self.address.clone(),
            decimals: self.decimals,
        }
    }
}

/// Whether no two entries share a symbol.
pub open spec fn unique_symbols(tokens: Seq<TokenInfo>) -> bool {
    forall|i: int, j: int|
        #![trigger tokens[i], tokens[j]]
        0 <= i < j < tokens.len() ==> tokens[i].symbol@ != tokens[j].symbol@
}

/// Whether some entry has the symbol. Symbols are compared exactly, case
/// included.
pub open spec fn has_symbol(tokens: Seq<TokenInfo>, symbol: Seq<char>) -> bool {
    exists|i: int| 0 <= i < tokens.len() && (#[trigger] tokens[i]).symbol@ == symbol
}

/// The position of an entry with the symbol.
pub open spec fn symbol_index(tokens: Seq<TokenInfo>, symbol: Seq<char>) -> int {
    choose|i: int| 0 <= i < tokens.len() && (#[trigger] tokens[i]).symbol@ == symbol
}

/// The known tokens, in the order in which they were configured. No symbol
/// occurs twice.
pub struct TokenRegistry {
    tokens: Vec<TokenInfo>,
}

impl View for TokenRegistry {
    type V = Seq<TokenInfo>;

    closed spec fn view(&self) -> Seq<TokenInfo> {
        self.tokens@
    }
}

/// Whether the text and the string hold the same characters.
pub fn same_text(a: &String, b: &str) -> (r: bool)
    ensures
        r == (a@ == b@),
{
    let other = String::from_str(b);
    *a == other
}

impl TokenRegistry {
    /// The registry's invariant: symbols are unique.
    pub open spec fn wf(&self) -> bool {
        unique_symbols(self@)
    }

    /// The entry with the given symbol, where there is one.
    pub open spec fn token_of(&self, symbol: Seq<char>) -> TokenInfo {
        self@[symbol_index(self@, symbol)]
    }

    /// A registry without tokens.
    pub fn new() -> (r: TokenRegistry)
        ensures
            r@.len() == 0,
            r.wf(),
    {
        TokenRegistry { tokens: Vec::new() }
    }

    /// A registry of the given entries, in their order. Entries of which two
    /// share a symbol are refused.
    pub fn from_entries(entries: Vec<TokenInfo>) -> (r: Option<TokenRegistry>)
        ensures
            r.is_some() == unique_symbols(entries@),
            r matches Some(registry) ==> registry@ == entries@ && registry.wf(),
    {
        let n: usize = entries.len();
        let mut i: usize = 0;
        while i < n
            invariant
                i <= n,
                n == entries@.len(),
                unique_symbols(entries@.take(i as int)),
            decreases n - i,
        {
            let mut j: usize = 0;
            while j < i
                invariant
                    j <= i < n,
                    n == entries@.len(),
                    forall|a: int|
                        0 <= a < j ==> (#[trigger] entries@[a]).symbol@
                            != entries@[i as int].symbol@,
                decreases i - j,
            {
                if entries[j].symbol == entries[i].symbol {
                    assert(entries@[j as int].symbol@ == entries@[i as int].symbol@);
                    return None;
                }
                j = j + 1;
            }
            proof {
                let next = entries@.take(i + 1);
                assert forall|a: int, b: int|
                    #![trigger next[a], next[b]]
                    0 <= a < b < next.len() implies next[a].symbol@ != next[b].symbol@ by {
                    if b < i {
                        let prev = entries@.take(i as int);
                        assert(prev[a] == next[a] && prev[b] == next[b]);
                    } else {
                        assert(next[a] == entries@[a]);
                    }
                }
            }
            i = i + 1;
        }
        assert(entries@.take(n as int) =~= entries@);
        Some(TokenRegistry { tokens: entries })
    }

    /// All entries, in the registry's order.
    pub fn entries(&self) -> (r: &Vec<TokenInfo>)
        ensures
            r@ == self@,
    {
        &self.tokens
    }

    /// The number of known tokens.
    pub fn len(&self) -> (r: usize)
        ensures
            r == self@.len(),
    {
        self.tokens.len()
    }

    /// The entry at a position.
    pub fn entry(&self, position: usize) -> (r: Option<&TokenInfo>)
        ensures
            position < self@.len() ==> r == Some(&self@[position as int]),
            position >= self@.len() ==> r.is_none(),
    {
        if position < self.tokens.len() {
            Some(&self.tokens[position])
        } else {
            None
        }
    }

    /// Finds a token by its symbol, which must match exactly.
    pub fn lookup(&self, symbol: &str) -> (r: Result<&TokenInfo, WalletError>)
        requires
            self.wf(),
        ensures
            has_symbol(self@, symbol@) ==> r == Ok::<&TokenInfo, WalletError>(
                &self.token_of(symbol@),
            ),
            !has_symbol(self@, symbol@) ==> r == Err::<&TokenInfo, WalletError>(
                WalletError::UnknownToken,
            ),
            r matches Ok(t) ==> t.symbol@ == symbol@,
    {
        let mut i: usize = 0;
        while i < self.tokens.len()
            invariant
                i <= self.tokens.len(),
                self.wf(),
                forall|a: int| 0 <= a < i ==> (#[trigger] self@[a]).symbol@ != symbol@,
            decreases self.tokens.len() - i,
        {
            if same_text(&self.tokens[i].symbol, symbol) {
                proof {
                    let found = self@[i as int];
                    assert(found.symbol@ == symbol@);
                    let k = symbol_index(self@, symbol@);
                    let chosen = self@[k];
                    assert(chosen.symbol@ == symbol@);
                    if k < i {
                        assert(self@[k].symbol@ != self@[i as int].symbol@);
                    } else if i < k {
                        assert(self@[i as int].symbol@ != self@[k].symbol@);
                    }
                }
                return Ok(&self.tokens[i]);
            }
            i = i + 1;
        }
        Err(WalletError::UnknownToken)
    }

    /// The symbols of all known tokens, in the registry's order.
    pub fn list_symbols(&self) -> (r: Vec<String>)
        ensures
            r@.len() == self@.len(),
            forall|i: int| 0 <= i < r@.len() ==> (#[trigger] r@[i])@ == self@[i].symbol@,
    {
        let mut out: Vec<String> = Vec::new();
        let mut i: usize = 0;
        while i < self.tokens.len()
            invariant
                i <= self.tokens.len(),
                out@.len() == i,
                forall|k: int| 0 <= k < i ==> (#[trigger] out@[k])@ == self@[k].symbol@,
            decreases self.tokens.len() - i,
        {
            out.push(self.tokens[i].symbol.clone());
            i = i + 1;
        }
        out
    }
}

} // verus!
