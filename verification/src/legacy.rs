//! Key stores of other layouts, from which keys are imported.

use crate::platform::Platform;
use crate::text::{join, joined};
use vstd::prelude::*;

verus! {

/// Geth's key store under its data directory `root`: the test network has a
/// directory of its own.
pub open spec fn geth_keystore(root: Seq<char>, testnet: bool) -> Seq<char> {
    if testnet {
        root + "/testnet/keystore"@
    } else {
        root + "/keystore"@
    }
}

/// Geth path
pub fn geth(platform: Platform, home: &str, testnet: bool) -> (path: String)
    ensures
        path@ == geth_keystore(platform.geth_root(home@), testnet),
{
    let mut base = platform.geth_base(home);
    if testnet {
        base = join(base, "testnet");
    }
    base = join(base, "keystore");
    proof {
        reveal_strlit("testnet");
        reveal_strlit("keystore");
        reveal_strlit("/testnet/keystore");
        reveal_strlit("/keystore");
        assert(base@ =~= geth_keystore(platform.geth_root(home@), testnet));
    }
    base
}

/// Parity path for specific chain
pub fn parity(platform: Platform, home: &str, chain: &str) -> (path: String)
    ensures
        path@ == joined(platform.parity_root(home@), chain@),
{
    join(platform.parity_base(home), chain)
}

} // verus!
