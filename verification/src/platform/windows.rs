//! The profile of Windows.
//!
//! Paths are written with forward slashes, which Windows accepts.

use crate::text::join;
use vstd::prelude::*;

verus! {

/// Vendor under which the application registers its directories.
pub const AUTHOR: &'static str = "Parity";

/// Product under which the application registers its directories.
pub const PRODUCT: &'static str = "Ethereum";

/// Product under which the updater registers its directories.
pub const PRODUCT_HYPERVISOR: &'static str = "EthereumUpdates";

/// Template of the chain database directory: it is kept on the machine and
/// does not roam.
pub const CHAINS_PATH: &'static str = "$LOCAL/chains";

/// Template of the cache directory: it is kept on the machine and does not
/// roam.
pub const CACHE_PATH: &'static str = "$LOCAL/cache";

/// Where the application kept its keys before they were laid out by chain.
pub open spec fn parity_root(home: Seq<char>) -> Seq<char> {
    home + "/AppData/Roaming/Parity/Ethereum/keys"@
}

/// Where Geth keeps its data.
pub open spec fn geth_root(home: Seq<char>) -> Seq<char> {
    home + "/AppData/Roaming/Ethereum"@
}

/// The directory in which the application kept its keys before they were laid
/// out by chain.
pub fn parity_base(home: &str) -> (base: String)
    ensures
        base@ == parity_root(home@),
{
    let base = String::from_str(home);
    let base = join(base, "AppData");
    let base = join(base, "Roaming");
    let base = join(base, "Parity");
    let base = join(base, "Ethereum");
    let base = join(base, "keys");
    proof {
        reveal_strlit("AppData");
        reveal_strlit("Roaming");
        reveal_strlit("Parity");
        reveal_strlit("Ethereum");
        reveal_strlit("keys");
        reveal_strlit("/AppData/Roaming/Parity/Ethereum/keys");
        assert(base@ =~= parity_root(home@));
    }
    base
}

/// Geth's data directory.
pub fn geth_base(home: &str) -> (base: String)
    ensures
        base@ == geth_root(home@),
{
    let base = String::from_str(home);
    let base = join(base, "AppData");
    let base = join(base, "Roaming");
    let base = join(base, "Ethereum");
    proof {
        reveal_strlit("AppData");
        reveal_strlit("Roaming");
        reveal_strlit("Ethereum");
        reveal_strlit("/AppData/Roaming/Ethereum");
        assert(base@ =~= geth_root(home@));
    }
    base
}

} // verus!
