use vstd::prelude::*;

verus! {

/// One native coin: a denomination paired with a quantity.
#[derive(Debug, Clone, PartialEq, Eq)]
pub struct Coin {
    pub denom: String,
    pub amount: u128,
}

/// Mathematical model of a `Coin`.
pub ghost struct CoinV {
    pub denom: Seq<char>,
    pub amount: u128,
}

impl View for Coin {
    type V = CoinV;

    open spec fn view(&self) -> CoinV {
        CoinV { denom: self.denom@, amount: self.amount }
    }
}

/// One token entry: the token contract's address paired with a quantity.
#[derive(Debug, Clone, PartialEq, Eq)]
pub struct TokenAmount {
    pub address: String,
    pub amount: u128,
}

/// Mathematical model of a `TokenAmount`.
pub ghost struct TokenAmountV {
    pub address: Seq<char>,
    pub amount: u128,
}

impl View for TokenAmount {
    type V = TokenAmountV;

    open spec fn view(&self) -> TokenAmountV {
        TokenAmountV { address: self.address@, amount: self.amount }
    }
}

/// Everything owed to one recipient in one disbursement: a set of native
/// coins and a sequence of token entries.
#[derive(Debug, Clone, PartialEq, Eq)]
pub struct AssetBundle {
    pub native: Vec<Coin>,
    pub tokens: Vec<TokenAmount>,
}

/// Mathematical model of an `AssetBundle`.
pub ghost struct AssetBundleV {
    pub native: Seq<CoinV>,
    pub tokens: Seq<TokenAmountV>,
}

pub open spec fn coins_view(s: Seq<Coin>) -> Seq<CoinV> {
    s.map_values(|c: Coin| c@)
}

pub open spec fn tokens_view(s: Seq<TokenAmount>) -> Seq<TokenAmountV> {
    s.map_values(|t: TokenAmount| t@)
}

impl View for AssetBundle {
    type V = AssetBundleV;

    open spec fn view(&self) -> AssetBundleV {
        AssetBundleV { native: coins_view(self.native@), tokens: tokens_view(self.tokens@) }
    }
}

/// An address paired with the multi-asset amount owed to it.
#[derive(Debug, Clone, PartialEq, Eq)]
pub struct Recipient {
    pub address: String,
    pub amount: AssetBundle,
}

/// Mathematical model of a `Recipient`.
pub ghost struct RecipientV {
    pub address: Seq<char>,
    pub amount: AssetBundleV,
}

impl View for Recipient {
    type V = RecipientV;

    open spec fn view(&self) -> RecipientV {
        RecipientV { address: self.address@, amount: self.amount@ }
    }
}

pub open spec fn recipients_view(s: Seq<Recipient>) -> Seq<RecipientV> {
    s.map_values(|r: Recipient| r@)
}

/// Copies a coin list value for value.
pub fn clone_coins(coins: &Vec<Coin>) -> (out: Vec<Coin>)
    ensures
        coins_view(out@) == coins_view(coins@),
{
    let mut out: Vec<Coin> = Vec::new();
    let n = coins.len();
    for i in 0..n
        invariant
            n == coins.len(),
            coins_view(out@) == coins_view(coins@).take(i as int),
    {
        let c = &coins[i];
        let ghost prev = out@;
        out.push(Coin { denom: c.denom.clone(), amount: c.amount });
        proof {
            assert(coins_view(prev).len() == prev.len());
            assert(prev.len() == i);
            assert(coins_view(out@).len() == i + 1);
            assert(out@.last()@ == coins@[i as int]@);
            assert forall|j: int| 0 <= j < out@.len() implies coins_view(out@)[j] == coins_view(
                coins@,
            ).take(i + 1)[j] by {
                if j < i {
                    assert(coins_view(prev)[j] == coins_view(coins@).take(i as int)[j]);
                }
            }
            assert(coins_view(out@) =~= coins_view(coins@).take(i + 1));
        }
    }
    proof {
        assert(coins_view(coins@).take(coins@.len() as int) =~= coins_view(coins@));
    }
    out
}

} // verus!
