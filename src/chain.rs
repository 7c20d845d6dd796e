use vstd::prelude::*;

use crate::types::{copy_bytes, Address, Word};

verus! {

/// The JSON-RPC endpoint registered for a chain name.
pub open spec fn rpc_url_of(name: Seq<char>) -> Option<Seq<char>> {
    if name == "ETH"@ {
        Some("https://eth.llamarpc.com"@)
    } else if name == "BSC"@ {
        Some("https://bsc-dataseed.binance.org/"@)
    } else if name == "BSC_TESTNET"@ {
        Some("https://data-seed-prebsc-1-s1.binance.org:8545/"@)
    } else if name == "POLYGON"@ {
        Some("https://rpc-mainnet.maticvigil.com/"@)
    } else if name == "MUMBAI"@ {
        Some("https://rpc-mumbai.maticvigil.com/"@)
    } else if name == "ARBITRUM"@ {
        Some("https://arb1.arbitrum.io/rpc"@)
    } else {
        None
    }
}

fn is_named(name: &String, lit: &str) -> (r: bool)
    ensures
        r == (name@ == lit@),
{
    *name == lit.to_owned()
}

/// The JSON-RPC endpoint of the chain called `name`; `None` for a chain that is
/// not registered.
pub fn get_rpc_url(name: String) -> (r: Option<&'static str>)
    ensures
        match r {
            Some(u) => rpc_url_of(name@) == Some(u@),
            None => rpc_url_of(name@) is None,
        },
{
    if is_named(&name, "ETH") {
        Some("https://eth.llamarpc.com")
    } else if is_named(&name, "BSC") {
        Some("https://bsc-dataseed.binance.org/")
    } else if is_named(&name, "BSC_TESTNET") {
        Some("https://data-seed-prebsc-1-s1.binance.org:8545/")
    } else if is_named(&name, "POLYGON") {
        Some("https://rpc-mainnet.maticvigil.com/")
    } else if is_named(&name, "MUMBAI") {
        Some("https://rpc-mumbai.maticvigil.com/")
    } else if is_named(&name, "ARBITRUM") {
        Some("https://arb1.arbitrum.io/rpc")
    } else {
        None
    }
}

/// The Uniswap-V2 router, the wrapped native token and the chain id of a
/// network on which tokens can be bought.
pub open spec fn router_and_weth_of(network: Seq<char>) -> Option<(Seq<u8>, Seq<u8>, u8)> {
    if network == "ETH"@ {
        Some((seq![0x7au8, 0x25u8, 0x0du8, 0x56u8, 0x30u8, 0xb4u8, 0xcfu8, 0x53u8, 0x97u8, 0x39u8, 0xdfu8, 0x2cu8, 0x5du8, 0xacu8, 0xb4u8, 0xc6u8, 0x59u8, 0xf2u8, 0x48u8, 0x8du8], seq![0xc0u8, 0x2au8, 0xaau8, 0x39u8, 0xb2u8, 0x23u8, 0xfeu8, 0x8du8, 0x0au8, 0x0eu8, 0x5cu8, 0x4fu8, 0x27u8, 0xeau8, 0xd9u8, 0x08u8, 0x3cu8, 0x75u8, 0x6cu8, 0xc2u8], 1u8))
    } else if network == "BSC"@ {
        Some((seq![0x05u8, 0xffu8, 0x2bu8, 0x0du8, 0xb6u8, 0x94u8, 0x58u8, 0xa0u8, 0x75u8, 0x0bu8, 0xadu8, 0xebu8, 0xc4u8, 0xf9u8, 0xe1u8, 0x3au8, 0xddu8, 0x60u8, 0x8cu8, 0x7fu8], seq![0xbbu8, 0x4cu8, 0xdbu8, 0x9cu8, 0xbdu8, 0x36u8, 0xb0u8, 0x1bu8, 0xd1u8, 0xcbu8, 0xaeu8, 0xbfu8, 0x2du8, 0xe0u8, 0x8du8, 0x91u8, 0x73u8, 0xbcu8, 0x09u8, 0x5cu8], 56u8))
    } else if network == "POLYGON"@ {
        Some((seq![0x1bu8, 0x02u8, 0xdau8, 0x8cu8, 0xb0u8, 0xd0u8, 0x97u8, 0xebu8, 0x8du8, 0x57u8, 0xa1u8, 0x75u8, 0xb8u8, 0x8cu8, 0x7du8, 0x8bu8, 0x47u8, 0x99u8, 0x75u8, 0x06u8], seq![0x0du8, 0x50u8, 0x0bu8, 0x1du8, 0x8eu8, 0x8eu8, 0xf3u8, 0x1eu8, 0x21u8, 0xc9u8, 0x9du8, 0x1du8, 0xb9u8, 0xa6u8, 0x44u8, 0x4du8, 0x3au8, 0xdfu8, 0x12u8, 0x70u8], 137u8))
    } else {
        None
    }
}

fn is_str(a: &str, lit: &str) -> (r: bool)
    ensures
        r == (a@ == lit@),
{
    a.to_owned() == lit.to_owned()
}

/// The router, wrapped native token and chain id of `network`; `None` where
/// buying is not supported.
pub fn get_router_and_weth(network: &str) -> (r: Option<(Address, Address, u8)>)
    ensures
        match r {
            Some(t) => router_and_weth_of(network@) == Some((t.0@, t.1@, t.2)),
            None => router_and_weth_of(network@) is None,
        },
{
    if is_str(network, "ETH") {
        let router: [u8; 20] = [0x7a, 0x25, 0x0d, 0x56, 0x30, 0xb4, 0xcf, 0x53, 0x97, 0x39, 0xdf, 0x2c, 0x5d, 0xac, 0xb4, 0xc6, 0x59, 0xf2, 0x48, 0x8d];
        let weth: [u8; 20] = [0xc0, 0x2a, 0xaa, 0x39, 0xb2, 0x23, 0xfe, 0x8d, 0x0a, 0x0e, 0x5c, 0x4f, 0x27, 0xea, 0xd9, 0x08, 0x3c, 0x75, 0x6c, 0xc2];
        assert(router@ =~= seq![0x7au8, 0x25u8, 0x0du8, 0x56u8, 0x30u8, 0xb4u8, 0xcfu8, 0x53u8, 0x97u8, 0x39u8, 0xdfu8, 0x2cu8, 0x5du8, 0xacu8, 0xb4u8, 0xc6u8, 0x59u8, 0xf2u8, 0x48u8, 0x8du8]);
        assert(weth@ =~= seq![0xc0u8, 0x2au8, 0xaau8, 0x39u8, 0xb2u8, 0x23u8, 0xfeu8, 0x8du8, 0x0au8, 0x0eu8, 0x5cu8, 0x4fu8, 0x27u8, 0xeau8, 0xd9u8, 0x08u8, 0x3cu8, 0x75u8, 0x6cu8, 0xc2u8]);
        Some((Address::new(router), Address::new(weth), 1))
    } else if is_str(network, "BSC") {
        let router: [u8; 20] = [0x05, 0xff, 0x2b, 0x0d, 0xb6, 0x94, 0x58, 0xa0, 0x75, 0x0b, 0xad, 0xeb, 0xc4, 0xf9, 0xe1, 0x3a, 0xdd, 0x60, 0x8c, 0x7f];
        let weth: [u8; 20] = [0xbb, 0x4c, 0xdb, 0x9c, 0xbd, 0x36, 0xb0, 0x1b, 0xd1, 0xcb, 0xae, 0xbf, 0x2d, 0xe0, 0x8d, 0x91, 0x73, 0xbc, 0x09, 0x5c];
        assert(router@ =~= seq![0x05u8, 0xffu8, 0x2bu8, 0x0du8, 0xb6u8, 0x94u8, 0x58u8, 0xa0u8, 0x75u8, 0x0bu8, 0xadu8, 0xebu8, 0xc4u8, 0xf9u8, 0xe1u8, 0x3au8, 0xddu8, 0x60u8, 0x8cu8, 0x7fu8]);
        assert(weth@ =~= seq![0xbbu8, 0x4cu8, 0xdbu8, 0x9cu8, 0xbdu8, 0x36u8, 0xb0u8, 0x1bu8, 0xd1u8, 0xcbu8, 0xaeu8, 0xbfu8, 0x2du8, 0xe0u8, 0x8du8, 0x91u8, 0x73u8, 0xbcu8, 0x09u8, 0x5cu8]);
        Some((Address::new(router), Address::new(weth), 56))
    } else if is_str(network, "POLYGON") {
        let router: [u8; 20] = [0x1b, 0x02, 0xda, 0x8c, 0xb0, 0xd0, 0x97, 0xeb, 0x8d, 0x57, 0xa1, 0x75, 0xb8, 0x8c, 0x7d, 0x8b, 0x47, 0x99, 0x75, 0x06];
        let weth: [u8; 20] = [0x0d, 0x50, 0x0b, 0x1d, 0x8e, 0x8e, 0xf3, 0x1e, 0x21, 0xc9, 0x9d, 0x1d, 0xb9, 0xa6, 0x44, 0x4d, 0x3a, 0xdf, 0x12, 0x70];
        assert(router@ =~= seq![0x1bu8, 0x02u8, 0xdau8, 0x8cu8, 0xb0u8, 0xd0u8, 0x97u8, 0xebu8, 0x8du8, 0x57u8, 0xa1u8, 0x75u8, 0xb8u8, 0x8cu8, 0x7du8, 0x8bu8, 0x47u8, 0x99u8, 0x75u8, 0x06u8]);
        assert(weth@ =~= seq![0x0du8, 0x50u8, 0x0bu8, 0x1du8, 0x8eu8, 0x8eu8, 0xf3u8, 0x1eu8, 0x21u8, 0xc9u8, 0x9du8, 0x1du8, 0xb9u8, 0xa6u8, 0x44u8, 0x4du8, 0x3au8, 0xdfu8, 0x12u8, 0x70u8]);
        Some((Address::new(router), Address::new(weth), 137))
    } else {
        None
    }
}

/// The calldata of the wrapped token's `deposit()`.
pub open spec fn deposit_calldata() -> Seq<u8> {
    seq![0xd0u8, 0xe3u8, 0x0du8, 0xb0u8]
}

/// How an amount of a token is bought on a network.
#[derive(Debug)]
pub enum Purchase {
    /// Send `value` to the wrapped native token `to` with calldata `data`.
    Deposit { value: Word, to: Address, data: Vec<u8> },
    /// Ask the swap aggregator for a route on the chain with this id.
    Swap { chain_id: u8 },
}

/// How to buy `amount` of `token` on `network`: wrapping the native coin when
/// the token is the wrapped native token, else a swap on that chain; `None`
/// where buying is not supported.
pub fn plan_purchase(token: &Address, amount: Word, network: &str) -> (r: Option<Purchase>)
    ensures
        match router_and_weth_of(network@) {
            None => r is None,
            Some(t) => match r {
                Some(Purchase::Deposit { value, to, data }) => {
                    &&& token@ == t.1
                    &&& value@ == amount@
                    &&& to@ == t.1
                    &&& data@ == deposit_calldata()
                },
                Some(Purchase::Swap { chain_id }) => token@ != t.1 && chain_id == t.2,
                None => false,
            },
        },
{
    match get_router_and_weth(network) {
        None => None,
        Some((_, weth, chain_id)) => {
            if token.same_as(&weth) {
                let data: [u8; 4] = [0xd0, 0xe3, 0x0d, 0xb0];
                assert(data@ =~= deposit_calldata());
                Some(Purchase::Deposit { value: amount, to: weth, data: copy_bytes(&data) })
            } else {
                Some(Purchase::Swap { chain_id })
            }
        },
    }
}

/// Routes longer than this are not considered.
pub const MAX_ROUTE_LEN: usize = 100000;

/// One hop of a swap route offered by the aggregator: how many parts the hop is
/// split into, and the tokens of its first part.
#[derive(Clone, Copy, Debug)]
pub struct SwapHop {
    pub parts: usize,
    pub from_token: Address,
    pub to_token: Address,
}

/// A route whose every hop goes through a single pool.
pub open spec fn is_proper_route(route: Seq<SwapHop>) -> bool {
    forall|h: int| 0 <= h < route.len() ==> (#[trigger] route[h]).parts == 1
}

/// A proper route short enough to be considered.
pub open spec fn is_candidate(route: Seq<SwapHop>) -> bool {
    is_proper_route(route) && route.len() < MAX_ROUTE_LEN
}

/// Route `i` is the first of the shortest candidates.
pub open spec fn is_best_route(routes: Seq<Seq<SwapHop>>, i: int) -> bool {
    &&& 0 <= i < routes.len()
    &&& is_candidate(routes[i])
    &&& forall|j: int| 0 <= j < routes.len() && is_candidate(#[trigger] routes[j]) ==> routes[i].len() <= routes[j].len()
    &&& forall|j: int| 0 <= j < i && is_candidate(#[trigger] routes[j]) ==> routes[i].len() < routes[j].len()
}

/// The tokens a route passes through: where its first hop starts, then where each hop ends.
pub open spec fn route_tokens(route: Seq<SwapHop>) -> Seq<Seq<u8>> {
    seq![route[0].from_token@] + Seq::new(route.len(), |h: int| route[h].to_token@)
}

/// The views of a sequence of routes.
pub open spec fn routes_view(routes: Seq<Vec<SwapHop>>) -> Seq<Seq<SwapHop>> {
    Seq::new(routes.len(), |i: int| routes[i]@)
}

fn is_proper(route: &Vec<SwapHop>) -> (r: bool)
    ensures
        r == is_proper_route(route@),
{
    let mut h: usize = 0;
    while h < route.len()
        invariant
            h <= route@.len(),
            forall|k: int| 0 <= k < h ==> (#[trigger] route@[k]).parts == 1,
        decreases route@.len() - h,
    {
        if route[h].parts != 1 {
            return false;
        }
        h = h + 1;
    }
    true
}

/// The tokens of the first of the shortest routes whose hops each go through a
/// single pool; `None` where there is no such route, or where it is empty.
pub fn best_swap_path(routes: &Vec<Vec<SwapHop>>) -> (r: Option<Vec<Address>>)
    ensures
        match r {
            Some(tokens) => exists|i: int| {
                &&& is_best_route(routes_view(routes@), i)
                &&& routes@[i]@.len() > 0
                &&& Seq::new(tokens@.len(), |t: int| tokens@[t]@) == route_tokens(routes@[i]@)
            },
            None => forall|i: int| is_best_route(routes_view(routes@), i) ==> routes@[i]@.len() == 0,
        },
{
    let ghost rv = routes_view(routes@);
    let mut best: Option<usize> = None;
    let mut i: usize = 0;
    while i < routes.len()
        invariant
            i <= routes@.len(),
            rv == routes_view(routes@),
            match best {
                Some(b) => {
                    &&& b < i
                    &&& is_candidate(rv[b as int])
                    &&& forall|j: int| 0 <= j < i && is_candidate(#[trigger] rv[j]) ==> rv[b as int].len() <= rv[j].len()
                    &&& forall|j: int| 0 <= j < b && is_candidate(#[trigger] rv[j]) ==> rv[b as int].len() < rv[j].len()
                },
                None => forall|j: int| 0 <= j < i ==> !is_candidate(#[trigger] rv[j]),
            },
        decreases routes@.len() - i,
    {
        let limit = match best {
            Some(b) => routes[b].len(),
            None => MAX_ROUTE_LEN,
        };
        assert(rv[i as int] == routes@[i as int]@);
        if is_proper(&routes[i]) && routes[i].len() < limit {
            best = Some(i);
        }
        i = i + 1;
    }
    let b = match best {
        Some(b) => b,
        None => {
            return None;
        },
    };
    assert(is_best_route(rv, b as int));
    proof {
        assert forall|k: int| is_best_route(rv, k) implies k == b by {
            if k < b {
                assert(rv[b as int].len() < rv[k].len());
            }
            if k > b {
                assert(rv[k].len() < rv[b as int].len());
            }
        }
    }
    let route = &routes[b];
    assert(rv[b as int] == route@);
    if route.len() == 0 {
        return None;
    }
    let mut tokens: Vec<Address> = Vec::new();
    tokens.push(route[0].from_token);
    let mut h: usize = 0;
    while h < route.len()
        invariant
            h <= route@.len(),
            route@.len() > 0,
            tokens@.len() == h + 1,
            tokens@[0]@ == route@[0].from_token@,
            forall|t: int| 0 <= t < h ==> (#[trigger] tokens@[t + 1])@ == route@[t].to_token@,
        decreases route@.len() - h,
    {
        tokens.push(route[h].to_token);
        h = h + 1;
    }
    assert forall|t: int| 1 <= t < tokens@.len() implies tokens@[t]@ == route@[t - 1].to_token@ by {
        assert(tokens@[(t - 1) + 1] == tokens@[t]);
    }
    assert(Seq::new(tokens@.len(), |t: int| tokens@[t]@) =~= route_tokens(route@));
    Some(tokens)
}

} // verus!
