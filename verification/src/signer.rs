//! Signing identity: the key, the wallet address and the cache of exchange
//! asset indices used when actions are signed.

use crate::textmap::TextMap;
use vstd::prelude::*;

verus! {

/// Asset indices after recording the exchange universe `names` over `m`:
/// the asset at position `i` gets index `i`; a name listed twice keeps its
/// last position; unnamed positions are skipped.
pub open spec fn with_universe(m: Map<Seq<char>, i64>, names: Seq<Option<String>>) -> Map<
    Seq<char>,
    i64,
>
    decreases names.len(),
{
    if names.len() == 0 {
        m
    } else {
        let before = with_universe(m, names.drop_last());
        match names.last() {
            Some(n) => before.insert(n@, (names.len() - 1) as i64),
            None => before,
        }
    }
}

/// Private key, wallet address and cached asset indices.
pub struct Signer {
    private_key: String,
    address: String,
    asset_indices: TextMap<i64>,
}

impl Signer {
    /// Keys of the index cache are distinct.
    pub closed spec fn wf(&self) -> bool {
        self.asset_indices.wf()
    }

    /// Cached asset index of every known coin.
    pub closed spec fn indices(&self) -> Map<Seq<char>, i64> {
        self.asset_indices@
    }

    pub closed spec fn spec_address(&self) -> Seq<char> {
        self.address@
    }

    pub closed spec fn spec_private_key(&self) -> Seq<char> {
        self.private_key@
    }

    /// A signer for a hex private key and its wallet address, with an empty
    /// index cache.
    pub fn new(private_key_hex: String, address: String) -> (r: Signer)
        ensures
            r.wf(),
            r.spec_private_key() == private_key_hex@,
            r.spec_address() == address@,
            r.indices() == Map::<Seq<char>, i64>::empty(),
    {
        Signer { private_key: private_key_hex, address, asset_indices: TextMap::new() }
    }

    /// The wallet address.
    pub fn address(&self) -> (r: &str)
        ensures
            r@ == self.spec_address(),
    {
        self.address.as_str()
    }

    /// The private key handed to the signing script.
    pub fn private_key(&self) -> (r: &str)
        ensures
            r@ == self.spec_private_key(),
    {
        self.private_key.as_str()
    }

    /// Cached asset index of a coin, 0 when unknown.
    pub fn asset_index_for(&self, coin: &str) -> (r: i64)
        requires
            self.wf(),
        ensures
            r == (if self.indices().contains_key(coin@) {
                self.indices()[coin@]
            } else {
                0
            }),
    {
        match self.asset_indices.get(coin) {
            Some(i) => *i,
            None => 0,
        }
    }

    /// Whether the coin has a cached asset index.
    pub fn knows_asset(&self, coin: &str) -> (r: bool)
        requires
            self.wf(),
        ensures
            r == self.indices().contains_key(coin@),
    {
        self.asset_indices.find(coin).is_some()
    }

    /// Number of cached asset indices.
    pub fn cached_count(&self) -> (r: usize)
        requires
            self.wf(),
        ensures
            r == self.indices().len(),
    {
        proof {
            self.asset_indices.lemma_dom_len();
        }
        self.asset_indices.len()
    }

    /// Record the exchange universe (asset names by position) in the index
    /// cache.
    pub fn cache_asset_indices(&mut self, names: &Vec<Option<String>>)
        requires
            old(self).wf(),
            names@.len() <= i64::MAX,
        ensures
            final(self).wf(),
            final(self).indices() == with_universe(old(self).indices(), names@),
            final(self).spec_address() == old(self).spec_address(),
            final(self).spec_private_key() == old(self).spec_private_key(),
    {
        let mut i: usize = 0;
        while i < names.len()
            invariant
                i <= names@.len(),
                names@.len() <= i64::MAX,
                self.asset_indices.wf(),
                self.asset_indices@ == with_universe(old(self).indices(), names@.take(i as int)),
                self.address == old(self).address,
                self.private_key == old(self).private_key,
            decreases names@.len() - i,
        {
            if let Some(n) = &names[i] {
                self.asset_indices.insert(n.clone(), i as i64);
            }
            proof {
                assert(names@.take(i + 1).drop_last() =~= names@.take(i as int));
            }
            i = i + 1;
        }
        proof {
            assert(names@.take(names@.len() as int) =~= names@);
        }
    }
}

/// A signed action ready for the exchange REST API.
#[derive(Debug, Clone)]
pub struct SignedAction {
    pub r: String,
    pub s: String,
    pub v: u32,
    /// Exact price string used in the signed action
    pub px_str: Option<String>,
    /// Exact size string used in the signed action
    pub sz_str: Option<String>,
    /// Asset index of the coin
    pub asset_idx: u32,
    pub action_type: String,
}

} // verus!
