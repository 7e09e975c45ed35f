use vstd::prelude::*;
use vstd::string::*;

use crate::error::ContractError;

verus! {

// ---------------------------------------------------------------------------
// Values the contract receives from, and hands back to, the chain.
// ---------------------------------------------------------------------------

/// An amount of one bank denom.
#[derive(Debug, Clone, PartialEq, Eq)]
pub struct Coin {
    pub denom: String,
    pub amount: u128,
}

/// The mathematical value of a [`Coin`].
pub struct CoinView {
    pub denom: Seq<char>,
    pub amount: u128,
}

impl View for Coin {
    type V = CoinView;

    open spec fn view(&self) -> CoinView {
        CoinView { denom: self.denom@, amount: self.amount }
    }
}

/// Who sent a message and which funds came with it.
#[derive(Debug, Clone, PartialEq, Eq)]
pub struct MessageInfo {
    pub sender: String,
    pub funds: Vec<Coin>,
}

/// What the contract knows of its own deployment: its address.
#[derive(Debug, Clone, PartialEq, Eq)]
pub struct Env {
    pub contract_address: String,
}

/// What a CW20 contract reports of its token.
#[derive(Debug, Clone, PartialEq, Eq)]
pub struct TokenInfo {
    pub name: String,
    pub symbol: String,
    pub decimals: u8,
}

/// A message the adapter asks the chain to dispatch.
#[derive(Debug, Clone, PartialEq, Eq)]
pub enum AdapterMsg {
    /// Token factory: `sender` (the adapter) mints `amount` to `mint_to`.
    MintTokens { sender: String, amount: Coin, mint_to: String },
    /// Token factory: `sender` (the adapter) burns `amount` from its own balance.
    BurnTokens { sender: String, amount: Coin },
    /// Token factory: set the display metadata of `denom`.
    SetTokenMetadata { denom: String, name: String, symbol: String, decimals: u8 },
    /// Token factory: `sender` creates the denom `factory/{sender}/{subdenom}`.
    CreateDenom { sender: String, subdenom: String },
    /// Execute the adaptor transfer of the CW20 contract `contract_addr`, which
    /// moves `amount` of its tokens from `sender` to `recipient`; no funds attached.
    AdaptorTransfer { contract_addr: String, sender: String, recipient: String, amount: u128 },
}

/// The mathematical value of an [`AdapterMsg`].
pub enum MsgView {
    MintTokens { sender: Seq<char>, amount: CoinView, mint_to: Seq<char> },
    BurnTokens { sender: Seq<char>, amount: CoinView },
    SetTokenMetadata { denom: Seq<char>, name: Seq<char>, symbol: Seq<char>, decimals: u8 },
    CreateDenom { sender: Seq<char>, subdenom: Seq<char> },
    AdaptorTransfer { contract_addr: Seq<char>, sender: Seq<char>, recipient: Seq<char>, amount: u128 },
}

impl View for AdapterMsg {
    type V = MsgView;

    open spec fn view(&self) -> MsgView {
        match self {
            AdapterMsg::MintTokens { sender, amount, mint_to } =>
                MsgView::MintTokens { sender: sender@, amount: amount@, mint_to: mint_to@ },
            AdapterMsg::BurnTokens { sender, amount } =>
                MsgView::BurnTokens { sender: sender@, amount: amount@ },
            AdapterMsg::SetTokenMetadata { denom, name, symbol, decimals } =>
                MsgView::SetTokenMetadata { denom: denom@, name: name@, symbol: symbol@, decimals: *decimals },
            AdapterMsg::CreateDenom { sender, subdenom } =>
                MsgView::CreateDenom { sender: sender@, subdenom: subdenom@ },
            AdapterMsg::AdaptorTransfer { contract_addr, sender, recipient, amount } =>
                MsgView::AdaptorTransfer {
                    contract_addr: contract_addr@,
                    sender: sender@,
                    recipient: recipient@,
                    amount: *amount,
                },
        }
    }
}

/// The answer to an accepted request: the messages to dispatch, in order.
#[derive(Debug, Clone, PartialEq, Eq)]
pub struct Response {
    pub messages: Vec<AdapterMsg>,
}

impl View for Response {
    type V = Seq<MsgView>;

    open spec fn view(&self) -> Seq<MsgView> {
        self.messages@.map_values(|m: AdapterMsg| m@)
    }
}

/// The value of a handler's answer: the messages it dispatches, or its error.
pub open spec fn outcome(r: Result<Response, ContractError>) -> Result<Seq<MsgView>, ContractError> {
    match r {
        Ok(resp) => Ok(resp@),
        Err(e) => Err(e),
    }
}

// ---------------------------------------------------------------------------
// Adapter denoms: `factory/{adapter}/{cw20}`.
// ---------------------------------------------------------------------------

/// The prefix of every token-factory denom.
pub open spec fn denom_prefix() -> Seq<char> {
    seq!['f', 'a', 'c', 't', 'o', 'r', 'y', '/']
}

/// An address as it may stand in a denom: not empty, and free of `/`.
pub open spec fn is_denom_part(s: Seq<char>) -> bool {
    s.len() > 0 && !s.contains('/')
}

/// The token-factory denom that the adapter `adapter` keeps for the CW20 contract `cw20`.
pub open spec fn denom_of(adapter: Seq<char>, cw20: Seq<char>) -> Seq<char> {
    denom_prefix() + adapter + seq!['/'] + cw20
}

/// `d` is the denom of some adapter for some CW20 contract.
pub open spec fn is_adapter_denom(d: Seq<char>) -> bool {
    exists|p: (Seq<char>, Seq<char>)|
        is_denom_part(p.0) && is_denom_part(p.1) && d == #[trigger] denom_of(p.0, p.1)
}

/// The adapter address and the CW20 address that the adapter denom `d` is made of.
pub open spec fn denom_parts(d: Seq<char>) -> (Seq<char>, Seq<char>) {
    choose|p: (Seq<char>, Seq<char>)|
        is_denom_part(p.0) && is_denom_part(p.1) && d == #[trigger] denom_of(p.0, p.1)
}

/// The shape of `denom_of(a, c)`, index by index.
proof fn lemma_denom_shape(a: Seq<char>, c: Seq<char>)
    requires
        is_denom_part(a),
        is_denom_part(c),
    ensures
        ({
            let d = denom_of(a, c);
            &&& d.len() == 9 + a.len() + c.len()
            &&& forall|k: int| 0 <= k < 8 ==> d[k] == denom_prefix()[k]
            &&& forall|k: int| 8 <= k < 8 + a.len() ==> d[k] == a[k - 8] && d[k] != '/'
            &&& d[8 + a.len() as int] == '/'
            &&& forall|k: int| 9 + a.len() <= k < d.len() ==> d[k] == c[k - 9 - a.len()] && d[k] != '/'
        }),
{
    let d = denom_of(a, c);
    assert forall|k: int| 8 <= k < 8 + a.len() implies d[k] == a[k - 8] && d[k] != '/' by {
        if d[k] == '/' {
            assert(a[k - 8] == '/');
            assert(a.contains('/'));
        }
    }
    assert forall|k: int| 9 + a.len() <= k < d.len() implies d[k] == c[k - 9 - a.len()] && d[k] != '/' by {
        if d[k] == '/' {
            assert(c[k - 9 - a.len()] == '/');
            assert(c.contains('/'));
        }
    }
}

/// Two adapter denoms are equal only when their parts are.
proof fn lemma_denom_of_injective(a1: Seq<char>, c1: Seq<char>, a2: Seq<char>, c2: Seq<char>)
    requires
        is_denom_part(a1),
        is_denom_part(c1),
        is_denom_part(a2),
        is_denom_part(c2),
        denom_of(a1, c1) == denom_of(a2, c2),
    ensures
        a1 == a2,
        c1 == c2,
{
    lemma_denom_shape(a1, c1);
    lemma_denom_shape(a2, c2);
    let d = denom_of(a1, c1);
    if a1.len() < a2.len() {
        assert(d[8 + a1.len() as int] == '/');
    } else if a2.len() < a1.len() {
        assert(d[8 + a2.len() as int] == '/');
    }
    assert(a1 =~= a2) by {
        assert forall|k: int| 0 <= k < a1.len() implies a1[k] == a2[k] by {
            assert(d[k + 8] == a1[k]);
        }
    }
    assert(c1 =~= c2) by {
        assert forall|k: int| 0 <= k < c1.len() implies c1[k] == c2[k] by {
            assert(d[k + 9 + a1.len()] == c1[k]);
        }
    }
}

/// Law: the denom the adapter keeps for a CW20 contract parses back into the
/// adapter's address and the CW20 contract's address.
pub proof fn law_denom_round_trip(adapter: Seq<char>, cw20: Seq<char>)
    requires
        is_denom_part(adapter),
        is_denom_part(cw20),
    ensures
        is_adapter_denom(denom_of(adapter, cw20)),
        denom_parts(denom_of(adapter, cw20)) == (adapter, cw20),
{
    let d = denom_of(adapter, cw20);
    let w = (adapter, cw20);
    assert(is_denom_part(w.0) && is_denom_part(w.1) && d == denom_of(w.0, w.1));
    let p = denom_parts(d);
    lemma_denom_of_injective(p.0, p.1, adapter, cw20);
}

/// Law: an adapter denom is rebuilt exactly from its parts.
pub proof fn law_denom_rebuilt_from_parts(d: Seq<char>)
    requires
        is_adapter_denom(d),
    ensures
        is_denom_part(denom_parts(d).0),
        is_denom_part(denom_parts(d).1),
        denom_of(denom_parts(d).0, denom_parts(d).1) == d,
{
}

/// The denom `factory/{adapter}/{cw20}`.
pub fn get_denom(adapter: &str, cw20: &str) -> (denom: String)
    ensures
        denom@ == denom_of(adapter@, cw20@),
{
    proof {
        reveal_strlit("factory/");
        reveal_strlit("/");
    }
    let mut denom = "factory/".to_owned();
    denom.append(adapter);
    denom.append("/");
    denom.append(cw20);
    assert(denom@ =~= denom_of(adapter@, cw20@));
    denom
}

/// An adapter denom taken apart.
#[derive(Debug, Clone, PartialEq, Eq)]
pub struct AdapterDenom {
    pub adapter_addr: String,
    pub cw20_addr: String,
}

impl AdapterDenom {
    /// Parses `factory/{adapter}/{cw20}`, where both addresses are non-empty and
    /// free of `/`; any other denom is refused with `NotCw20Address`.
    pub fn new(denom: &str) -> (res: Result<AdapterDenom, ContractError>)
        ensures
            res is Ok <==> is_adapter_denom(denom@),
            res matches Ok(ad) ==> (ad.adapter_addr@, ad.cw20_addr@) == denom_parts(denom@),
            res matches Err(e) ==> e == ContractError::NotCw20Address,
    {
        let ghost d = denom@;
        let n = denom.unicode_len();
        proof {
            reveal_strlit("factory/");
        }
        let prefix = "factory/";
        assert(prefix@ == denom_prefix());
        if n < 9 {
            proof {
                if is_adapter_denom(d) {
                    let (a, c) = denom_parts(d);
                    lemma_denom_shape(a, c);
                }
            }
            return Err(ContractError::NotCw20Address);
        }
        let mut i: usize = 0;
        while i < 8
            invariant
                i <= 8,
                d == denom@,
                n == d.len(),
                n >= 9,
                prefix@ == denom_prefix(),
                forall|k: int| 0 <= k < i ==> d[k] == denom_prefix()[k],
            decreases 8 - i,
        {
            if denom.get_char(i) != prefix.get_char(i) {
                proof {
                    if is_adapter_denom(d) {
                        let (a, c) = denom_parts(d);
                        lemma_denom_shape(a, c);
                    }
                }
                return Err(ContractError::NotCw20Address);
            }
            i = i + 1;
        }
        // The first `/` after the prefix ends the adapter's address.
        let mut j: usize = 8;
        while j < n && denom.get_char(j) != '/'
            invariant
                8 <= j <= n,
                d == denom@,
                n == d.len(),
                forall|k: int| 8 <= k < j ==> d[k] != '/',
            decreases n - j,
        {
            j = j + 1;
        }
        if j == n || j == 8 || j + 1 == n {
            proof {
                if is_adapter_denom(d) {
                    let (a, c) = denom_parts(d);
                    lemma_denom_shape(a, c);
                    assert(d[8 + a.len() as int] == '/');
                }
            }
            return Err(ContractError::NotCw20Address);
        }
        // The rest is the CW20 address, which holds no further `/`.
        let mut k: usize = j + 1;
        while k < n
            invariant
                j + 1 <= k <= n,
                8 < j < n,
                d[j as int] == '/',
                forall|m: int| 8 <= m < j ==> d[m] != '/',
                d == denom@,
                n == d.len(),
                forall|m: int| j < m < k ==> d[m] != '/',
            decreases n - k,
        {
            if denom.get_char(k) == '/' {
                proof {
                    if is_adapter_denom(d) {
                        let (a, c) = denom_parts(d);
                        lemma_denom_shape(a, c);
                        assert(d[8 + a.len() as int] == '/');
                    }
                }
                return Err(ContractError::NotCw20Address);
            }
            k = k + 1;
        }
        let adapter_addr = denom.substring_char(8, j).to_owned();
        let cw20_addr = denom.substring_char(j + 1, n).to_owned();
        proof {
            let a = adapter_addr@;
            let c = cw20_addr@;
            assert(a =~= d.subrange(8, j as int));
            assert(c =~= d.subrange(j + 1, n as int));
            assert(!a.contains('/')) by {
                if a.contains('/') {
                    let m = choose|m: int| 0 <= m < a.len() && a[m] == '/';
                    assert(d[m + 8] == '/');
                }
            }
            assert(!c.contains('/')) by {
                if c.contains('/') {
                    let m = choose|m: int| 0 <= m < c.len() && c[m] == '/';
                    assert(d[m + j + 1] == '/');
                }
            }
            assert(d =~= denom_of(a, c));
            law_denom_round_trip(a, c);
        }
        Ok(AdapterDenom { adapter_addr, cw20_addr })
    }

    /// The denom these parts make up again.
    pub fn as_string(&self) -> (denom: String)
        ensures
            denom@ == denom_of(self.adapter_addr@, self.cw20_addr@),
    {
        get_denom(self.adapter_addr.as_str(), self.cw20_addr.as_str())
    }
}

/// An amount of an adapter denom.
#[derive(Debug, Clone, PartialEq, Eq)]
pub struct AdapterCoin {
    pub amount: u128,
    pub denom: AdapterDenom,
}

impl AdapterCoin {
    /// The coin as a bank coin of the denom rebuilt from its parts.
    pub fn as_coin(&self) -> (coin: Coin)
        ensures
            coin@ == (CoinView {
                denom: denom_of(self.denom.adapter_addr@, self.denom.cw20_addr@),
                amount: self.amount,
            }),
    {
        Coin { denom: self.denom.as_string(), amount: self.amount }
    }
}

} // verus!
