//! The token registry: a keyed store from a token symbol to the ledger
//! address and metadata of that token.
//!
//! The registry is populated during setup (from metadata the ledger
//! services report) and read by every later step of the swap protocol.
//! Insertion is last-write-wins; lookup of an unknown symbol is absent.

use vstd::prelude::*;

verus! {

/// Names the pool's two persisted keyed stores: token info keyed by
/// symbol, and tickers keyed by ledger address.  A host that persists the
/// pool state keys its storage by these.
#[derive(Clone, Copy, Debug, PartialEq, Eq, Structural)]
pub enum StoreKey {
    Token,
    Decimals,
}

/// The setup-time description of one token: the address of its ledger
/// service and its ticker.
#[derive(Clone, Debug)]
pub struct TokenConfig {
    pub address: String,
    pub ticker: String,
}

/// The mathematical value of a `TokenConfig`.
pub ghost struct TokenConfigV {
    pub address: Seq<char>,
    pub ticker: Seq<char>,
}

impl View for TokenConfig {
    type V = TokenConfigV;

    open spec fn view(&self) -> TokenConfigV {
        TokenConfigV { address: self.address@, ticker: self.ticker@ }
    }
}

/// The metadata record a ledger service reports for its token: the fields
/// of it that the registry stores.
#[derive(Clone, Debug)]
pub struct TokenMetadata {
    pub name: String,
    pub symbol: String,
    pub decimals: u8,
}

/// A registered token: its ledger-service address and metadata, keyed in
/// the registry by `symbol`.  Immutable once inserted.
#[derive(Debug, PartialEq, Eq)]
pub struct TokenInfo {
    pub contract_address: String,
    pub name: String,
    pub symbol: String,
    pub decimals: u8,
}

/// The mathematical value of a `TokenInfo`.
pub ghost struct TokenInfoV {
    pub contract_address: Seq<char>,
    pub name: Seq<char>,
    pub symbol: Seq<char>,
    pub decimals: u8,
}

impl View for TokenInfo {
    type V = TokenInfoV;

    open spec fn view(&self) -> TokenInfoV {
        TokenInfoV {
            contract_address: self.contract_address@,
            name: self.name@,
            symbol: self.symbol@,
            decimals: self.decimals,
        }
    }
}

impl Clone for TokenInfo {
    fn clone(&self) -> (res: Self)
        ensures
            res == *self,
    {
        TokenInfo {
            contract_address: self.contract_address.clone(),
            name: self.name.clone(),
            symbol: self.symbol.clone(),
            decimals: self.decimals,
        }
    }
}

/// The entry a sequence of registered tokens holds for `symbol`: the
/// first entry with that symbol, or absent.  With unique symbols this is
/// the map the registry stands for.
pub open spec fn lookup_in(entries: Seq<TokenInfoV>, symbol: Seq<char>) -> Option<TokenInfoV>
    decreases entries.len(),
{
    if entries.len() == 0 {
        None
    } else if entries[0].symbol == symbol {
        Some(entries[0])
    } else {
        lookup_in(entries.subrange(1, entries.len() as int), symbol)
    }
}

/// No two entries share a symbol.
pub open spec fn unique_symbols(entries: Seq<TokenInfoV>) -> bool {
    forall|i: int, j: int|
        0 <= i < j < entries.len() ==> entries[i].symbol != entries[j].symbol
}

/// If `entries[i]` carries `symbol` and no earlier entry does, the lookup
/// finds exactly that entry.
pub proof fn lemma_lookup_first_match(entries: Seq<TokenInfoV>, i: int, symbol: Seq<char>)
    requires
        0 <= i < entries.len(),
        entries[i].symbol == symbol,
        forall|j: int| 0 <= j < i ==> entries[j].symbol != symbol,
    ensures
        lookup_in(entries, symbol) == Some(entries[i]),
    decreases i,
{
    if i > 0 {
        let rest = entries.subrange(1, entries.len() as int);
        lemma_lookup_first_match(rest, i - 1, symbol);
    }
}

/// A symbol no entry carries is absent.
pub proof fn lemma_lookup_none(entries: Seq<TokenInfoV>, symbol: Seq<char>)
    requires
        forall|j: int| 0 <= j < entries.len() ==> entries[j].symbol != symbol,
    ensures
        lookup_in(entries, symbol) is None,
    decreases entries.len(),
{
    if entries.len() > 0 {
        let rest = entries.subrange(1, entries.len() as int);
        lemma_lookup_none(rest, symbol);
    }
}

/// Two entry sequences that agree on every position that carries `symbol`
/// (and on which positions those are) agree on the lookup of `symbol`.
pub proof fn lemma_lookup_agrees(s: Seq<TokenInfoV>, t: Seq<TokenInfoV>, symbol: Seq<char>)
    requires
        s.len() == t.len(),
        forall|j: int|
            0 <= j < s.len() ==> ((s[j].symbol == symbol <==> t[j].symbol == symbol) && (s[j].symbol
                == symbol ==> s[j] == t[j])),
    ensures
        lookup_in(s, symbol) == lookup_in(t, symbol),
    decreases s.len(),
{
    if s.len() > 0 && s[0].symbol != symbol {
        lemma_lookup_agrees(
            s.subrange(1, s.len() as int),
            t.subrange(1, t.len() as int),
            symbol,
        );
    }
}

/// Appending an entry with a different symbol leaves a lookup unchanged.
pub proof fn lemma_lookup_push_other(entries: Seq<TokenInfoV>, v: TokenInfoV, symbol: Seq<char>)
    requires
        v.symbol != symbol,
    ensures
        lookup_in(entries.push(v), symbol) == lookup_in(entries, symbol),
    decreases entries.len(),
{
    let p = entries.push(v);
    assert(p.len() == entries.len() + 1);
    if entries.len() == 0 {
        assert(p[0] == v);
        assert(p[0].symbol != symbol);
        assert(p.subrange(1, 1) =~= Seq::<TokenInfoV>::empty());
        assert(lookup_in(p, symbol) == lookup_in(p.subrange(1, 1), symbol));
        assert(lookup_in(p.subrange(1, 1), symbol) is None);
    } else {
        assert(p[0] == entries[0]);
        if entries[0].symbol != symbol {
            assert(p.subrange(1, entries.len() as int + 1) =~= entries.subrange(
                1,
                entries.len() as int,
            ).push(v));
            lemma_lookup_push_other(entries.subrange(1, entries.len() as int), v, symbol);
        }
    }
}

/// The keyed store from a token symbol to its `TokenInfo`.
pub struct TokenRegistry {
    entries: Vec<TokenInfo>,
}

impl View for TokenRegistry {
    type V = Seq<TokenInfoV>;

    closed spec fn view(&self) -> Seq<TokenInfoV> {
        Seq::new(self.entries@.len(), |i: int| self.entries@[i]@)
    }
}

impl TokenRegistry {
    /// The registry's invariant: symbols key at most one entry each.
    pub open spec fn wf(self) -> bool {
        unique_symbols(self@)
    }

    /// An empty registry.
    pub fn new() -> (r: TokenRegistry)
        ensures
            r@ == Seq::<TokenInfoV>::empty(),
            r.wf(),
    {
        let r = TokenRegistry { entries: Vec::new() };
        proof {
            assert(r@ =~= Seq::<TokenInfoV>::empty());
        }
        r
    }

    /// Store `info` under its symbol, replacing any entry that symbol
    /// already keys (last write wins).  Every other symbol's entry is
    /// untouched.
    pub fn insert(&mut self, info: TokenInfo)
        requires
            old(self).wf(),
        ensures
            final(self).wf(),
            lookup_in(final(self)@, info@.symbol) == Some(info@),
            forall|k: Seq<char>|
                k != info@.symbol ==> lookup_in(final(self)@, k) == lookup_in(old(self)@, k),
    {
        let n = self.entries.len();
        let mut i: usize = 0;
        while i < n
            invariant
                n == self.entries.len(),
                i <= n,
                *self == *old(self),
                old(self).wf(),
                forall|j: int| 0 <= j < i ==> self@[j].symbol != info@.symbol,
            decreases n - i,
        {
            if self.entries[i].symbol == info.symbol {
                let ghost prev = self@;
                self.entries[i] = info;
                proof {
                    let cur = self@;
                    assert(cur =~= prev.update(i as int, info@));
                    assert(prev[i as int].symbol == info@.symbol);
                    assert forall|j: int| 0 <= j < cur.len() implies cur[j].symbol
                        == prev[j].symbol by {
                        if j != i {
                            assert(cur[j] == prev[j]);
                        }
                    }
                    assert forall|a: int, b: int| 0 <= a < b < cur.len() implies cur[a].symbol
                        != cur[b].symbol by {
                        assert(cur[a].symbol == prev[a].symbol);
                        assert(cur[b].symbol == prev[b].symbol);
                    }
                    lemma_lookup_first_match(cur, i as int, info@.symbol);
                    assert forall|k: Seq<char>| k != info@.symbol implies lookup_in(cur, k)
                        == lookup_in(prev, k) by {
                        assert forall|j: int|
                            0 <= j < cur.len() implies ((cur[j].symbol == k <==> prev[j].symbol
                            == k) && (cur[j].symbol == k ==> cur[j] == prev[j])) by {
                            if j != i {
                                assert(cur[j] == prev[j]);
                            } else {
                                assert(cur[j].symbol == info@.symbol);
                                assert(prev[j].symbol == info@.symbol);
                            }
                        }
                        lemma_lookup_agrees(cur, prev, k);
                    }
                    assert(lookup_in(cur, info@.symbol) == Some(info@));
                }
                return ;
            }
            i += 1;
        }
        let ghost prev = self@;
        self.entries.push(info);
        proof {
            let cur = self@;
            assert(cur =~= prev.push(info@));
            assert forall|a: int, b: int| 0 <= a < b < cur.len() implies cur[a].symbol
                != cur[b].symbol by {
                if b < prev.len() {
                    assert(cur[a] == prev[a]);
                    assert(cur[b] == prev[b]);
                } else {
                    assert(cur[a] == prev[a]);
                    assert(cur[b] == info@);
                    assert(prev[a].symbol != info@.symbol);
                }
            }
            assert(forall|j: int| 0 <= j < prev.len() ==> prev[j].symbol != info@.symbol);
            lemma_lookup_first_match(cur, prev.len() as int, info@.symbol);
            assert forall|k: Seq<char>| k != info@.symbol implies lookup_in(cur, k) == lookup_in(
                prev,
                k,
            ) by {
                lemma_lookup_push_other(prev, info@, k);
                assert(lookup_in(prev.push(info@), k) == lookup_in(prev, k));
            }
        }
    }

    /// The entry stored under `symbol`, or absent.
    pub fn get(&self, symbol: &String) -> (r: Option<TokenInfo>)
        ensures
            match r {
                Some(info) => lookup_in(self@, symbol@) == Some(info@),
                None => lookup_in(self@, symbol@) is None,
            },
    {
        let n = self.entries.len();
        let mut i: usize = 0;
        while i < n
            invariant
                n == self.entries.len(),
                i <= n,
                forall|j: int| 0 <= j < i ==> self@[j].symbol != symbol@,
            decreases n - i,
        {
            if self.entries[i].symbol == *symbol {
                let found = self.entries[i].clone();
                proof {
                    lemma_lookup_first_match(self@, i as int, symbol@);
                }
                return Some(found);
            }
            i += 1;
        }
        proof {
            lemma_lookup_none(self@, symbol@);
        }
        None
    }

    /// How many tokens are registered.
    pub fn len(&self) -> (r: usize)
        ensures
            r == self@.len(),
    {
        self.entries.len()
    }
}

} // verus!
