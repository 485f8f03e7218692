//! The roots under which the directories are laid out.
//!
//! The operating system is asked where an application of a given vendor and
//! product keeps its data. Where it has no answer, the root is a fixed
//! directory under the user's home directory.

use crate::helpers::{lemma_tokens, HOME_TOKEN};
use crate::platform::Platform;
use crate::text::{
    ends_with, lemma_absent_token, lemma_lacking_last_char, lemma_leading_token, substitute,
    substituted,
};
use app_dirs::{get_app_root, AppDataType, AppInfo};
use vstd::prelude::*;

verus! {

/// Template of the root of the application's data where the operating system
/// names none.
pub const DATA_FALLBACK: &'static str = "$HOME/.parity";

/// Template of the root of the updater's data where the operating system names
/// none.
pub const HYPERVISOR_FALLBACK: &'static str = "$HOME/.parity-hypervisor";

/// The class of data that a root is asked for.
#[derive(Clone, Copy, Debug, PartialEq, Eq, Structural)]
pub enum DataClass {
    /// Data that lasts and may follow the user from machine to machine.
    UserData,
    /// Data that stays on the machine, such as a cache.
    UserCache,
}

/// A name that is made of letters, digits, spaces, hyphens, underscores and
/// periods, the first character being no period.
pub open spec fn is_plain_name(name: Seq<char>) -> bool {
    forall|i: int|
        0 <= i < name.len() ==> {
            let c = #[trigger] name[i];
            ||| 'a' <= c <= 'z'
            ||| 'A' <= c <= 'Z'
            ||| '0' <= c <= '9'
            ||| c == ' '
            ||| c == '-'
            ||| c == '_'
            ||| c == '.' && i != 0
        }
}

/// Asks `app_dirs::get_app_root` for the root of the application `name` of the
/// vendor `author`, for data of class `class`, and hands the path on as text,
/// or `None` where the call fails. No directory is created.
///
/// The answer depends on the operating system and on the user's environment.
/// Two things hold of every answer. The call fails where the name or the author
/// is empty. And the root that it gives has the name as its last component:
/// the name is appended to the directory that the system names, as it is where
/// it is plain, so the path ends with it.
#[verifier::external_body]
fn app_root(class: DataClass, name: &'static str, author: &'static str) -> (found: Option<String>)
    ensures
        name@.len() == 0 || author@.len() == 0 ==> found is None,
        found is Some && is_plain_name(name@) ==> ends_with(found->Some_0@, name@),
{
    let kind = match class {
        DataClass::UserData => AppDataType::UserData,
        DataClass::UserCache => AppDataType::UserCache,
    };
    match get_app_root(kind, &AppInfo { name, author }) {
        Ok(path) => Some(path.to_string_lossy().into_owned()),
        Err(_) => None,
    }
}

/// The product names of every platform are plain.
proof fn lemma_plain_products(platform: Platform)
    ensures
        is_plain_name(platform.product_name()),
        is_plain_name(platform.hypervisor_product_name()),
{
    reveal_strlit("io.parity.ethereum");
    reveal_strlit("io.parity.ethereum-updates");
    reveal_strlit("Ethereum");
    reveal_strlit("EthereumUpdates");
}

/// The root to use: the one that was found, or else `fallback` with the home
/// placeholder replaced by `home`.
pub open spec fn chosen_root(found: Option<Seq<char>>, home: Seq<char>, fallback: Seq<char>) -> Seq<
    char,
> {
    match found {
        Some(path) => path,
        None => substituted(fallback, HOME_TOKEN@, home),
    }
}

/// The text of a path that may be missing.
pub open spec fn text_of(found: Option<String>) -> Option<Seq<char>> {
    match found {
        Some(path) => Some(path@),
        None => None,
    }
}

/// Chooses the root: the one that the operating system named, or else the
/// fallback under the user's home directory.
pub fn root_or_fallback(found: Option<String>, home: &str, fallback: &str) -> (root: String)
    ensures
        root@ == chosen_root(text_of(found), home@, fallback@),
{
    match found {
        Some(path) => path,
        None => substitute(fallback, HOME_TOKEN, home),
    }
}

/// Default data path: where the application keeps what lasts.
///
/// It is the root that the operating system names for the application, which
/// ends with the product's name, or else `.parity` under the home directory.
/// Which of the two it is, and what the system names, is not known before the
/// call.
pub fn default_data_path(platform: Platform, home: &str) -> (path: String)
    ensures
        path@ == home@ + "/.parity"@ || ends_with(path@, platform.product_name()),
{
    let found = app_root(DataClass::UserData, platform.product(), platform.author());
    proof {
        lemma_plain_products(platform);
        law_fallbacks(home@);
    }
    root_or_fallback(found, home, DATA_FALLBACK)
}

/// Default local path: where the application keeps what stays on the machine.
///
/// It is the root that the operating system names for the application's
/// cache, which ends with the product's name, or else `.parity` under the home
/// directory. Which of the two it is, and what the system names, is not known
/// before the call.
pub fn default_local_path(platform: Platform, home: &str) -> (path: String)
    ensures
        path@ == home@ + "/.parity"@ || ends_with(path@, platform.product_name()),
{
    let found = app_root(DataClass::UserCache, platform.product(), platform.author());
    proof {
        lemma_plain_products(platform);
        law_fallbacks(home@);
    }
    root_or_fallback(found, home, DATA_FALLBACK)
}

/// Default hypervisor path: where the updater keeps its data.
///
/// It is the root that the operating system names for the updater, which ends
/// with the updater's product name, or else `.parity-hypervisor` under the
/// home directory. Which of the two it is, and what the system names, is not
/// known before the call.
pub fn default_hypervisor_path(platform: Platform, home: &str) -> (path: String)
    ensures
        path@ == home@ + "/.parity-hypervisor"@ || ends_with(
            path@,
            platform.hypervisor_product_name(),
        ),
{
    let found = app_root(DataClass::UserData, platform.product_hypervisor(), platform.author());
    proof {
        lemma_plain_products(platform);
        law_fallbacks(home@);
    }
    root_or_fallback(found, home, HYPERVISOR_FALLBACK)
}

/// Where the operating system names no root, the application's data lie in
/// `.parity` under the home directory and the updater's in `.parity-hypervisor`.
pub proof fn law_fallbacks(home: Seq<char>)
    ensures
        chosen_root(None, home, DATA_FALLBACK@) == home + "/.parity"@,
        chosen_root(None, home, HYPERVISOR_FALLBACK@) == home + "/.parity-hypervisor"@,
{
    lemma_tokens();
    reveal_strlit("$HOME/.parity");
    reveal_strlit("$HOME/.parity-hypervisor");
    reveal_strlit("/.parity");
    reveal_strlit("/.parity-hypervisor");
    assert(DATA_FALLBACK@ =~= HOME_TOKEN@ + "/.parity"@);
    assert(HYPERVISOR_FALLBACK@ =~= HOME_TOKEN@ + "/.parity-hypervisor"@);
    lemma_leading_token(HOME_TOKEN@, "/.parity"@, home);
    lemma_lacking_last_char("/.parity"@, HOME_TOKEN@);
    lemma_absent_token("/.parity"@, HOME_TOKEN@, home);
    lemma_leading_token(HOME_TOKEN@, "/.parity-hypervisor"@, home);
    lemma_lacking_last_char("/.parity-hypervisor"@, HOME_TOKEN@);
    lemma_absent_token("/.parity-hypervisor"@, HOME_TOKEN@, home);
}

} // verus!
