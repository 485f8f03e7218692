//! The profile of Unix-like systems other than macOS.

use crate::text::join;
use vstd::prelude::*;

verus! {

/// Vendor under which the application registers its directories.
pub const AUTHOR: &'static str = "parity";

/// Product under which the application registers its directories.
pub const PRODUCT: &'static str = "io.parity.ethereum";

/// Product under which the updater registers its directories.
pub const PRODUCT_HYPERVISOR: &'static str = "io.parity.ethereum-updates";

/// Template of the chain database directory.
pub const CHAINS_PATH: &'static str = "$BASE/chains";

/// Template of the cache directory.
pub const CACHE_PATH: &'static str = "$BASE/cache";

/// Where the application kept its keys before they were laid out by chain.
pub open spec fn parity_root(home: Seq<char>) -> Seq<char> {
    home + "/.local/share/io.parity.ethereum/keys"@
}

/// Where Geth keeps its data.
pub open spec fn geth_root(home: Seq<char>) -> Seq<char> {
    home + "/.ethereum"@
}

/// The directory in which the application kept its keys before they were laid
/// out by chain.
pub fn parity_base(home: &str) -> (base: String)
    ensures
        base@ == parity_root(home@),
{
    let base = String::from_str(home);
    let base = join(base, ".local");
    let base = join(base, "share");
    let base = join(base, "io.parity.ethereum");
    let base = join(base, "keys");
    proof {
        reveal_strlit(".local");
        reveal_strlit("share");
        reveal_strlit("io.parity.ethereum");
        reveal_strlit("keys");
        reveal_strlit("/.local/share/io.parity.ethereum/keys");
        assert(base@ =~= parity_root(home@));
    }
    base
}

/// Geth's data directory.
pub fn geth_base(home: &str) -> (base: String)
    ensures
        base@ == geth_root(home@),
{
    let base = join(String::from_str(home), ".ethereum");
    proof {
        reveal_strlit(".ethereum");
        reveal_strlit("/.ethereum");
        assert(base@ =~= geth_root(home@));
    }
    base
}

} // verus!
