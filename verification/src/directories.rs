//! The directories of the application and the paths derived from them.

use crate::helpers::{
    home_and_local_resolved, home_resolved, is_resolved, lemma_base_rooted, lemma_local_rooted,
    lemma_tokens, replace_home, replace_home_and_local, BASE_TOKEN, HOME_TOKEN, LOCAL_TOKEN,
};
use crate::platform::Platform;
use crate::roots::{default_data_path, default_local_path};
use crate::text::{
    contains, ends_with, join, joined, lacks_char, lemma_absent_token,
    lemma_tail_adds_no_occurrence, substituted,
};
use vstd::prelude::*;

verus! {

/// Template of the base directory.
pub const BASE_PATH: &'static str = "$BASE";

/// Template of the directory that holds the keys.
pub const KEYS_PATH: &'static str = "$BASE/keys";

/// Template of the signer's directory.
pub const SIGNER_PATH: &'static str = "$BASE/signer";

/// Template of the directory that holds the dapps.
pub const DAPPS_PATH: &'static str = "$BASE/dapps";

/// Template of the secret store's directory.
pub const SECRETSTORE_PATH: &'static str = "$BASE/secretstore";

/// The application's local data directories.
#[derive(Debug)]
pub struct Directories {
    /// Base dir
    pub base: String,
    /// Database dir
    pub db: String,
    /// Cache dir
    pub cache: String,
    /// Dir to store keys
    pub keys: String,
    /// Signer dir
    pub signer: String,
    /// Dir to store dapps
    pub dapps: String,
    /// Secrets dir
    pub secretstore: String,
}

/// The seven directories as texts: what a [`Directories`] value stands for.
pub ghost struct Layout {
    pub base: Seq<char>,
    pub db: Seq<char>,
    pub cache: Seq<char>,
    pub keys: Seq<char>,
    pub signer: Seq<char>,
    pub dapps: Seq<char>,
    pub secretstore: Seq<char>,
}

impl Layout {
    /// The layout that the templates give for a platform and its three roots.
    ///
    /// Only the chain database and the cache may lie under the local directory;
    /// every other directory lies under the data directory.
    pub open spec fn resolved(
        platform: Platform,
        home: Seq<char>,
        data: Seq<char>,
        local: Seq<char>,
    ) -> Layout {
        Layout {
            base: home_resolved(home, data, BASE_PATH@),
            db: home_and_local_resolved(home, data, local, platform.chains_template()),
            cache: home_and_local_resolved(home, data, local, platform.cache_template()),
            keys: home_resolved(home, data, KEYS_PATH@),
            signer: home_resolved(home, data, SIGNER_PATH@),
            dapps: home_resolved(home, data, DAPPS_PATH@),
            secretstore: home_resolved(home, data, SECRETSTORE_PATH@),
        }
    }

    /// No placeholder is left in any of the seven directories.
    pub open spec fn is_resolved(self) -> bool {
        &&& is_resolved(self.base)
        &&& is_resolved(self.db)
        &&& is_resolved(self.cache)
        &&& is_resolved(self.keys)
        &&& is_resolved(self.signer)
        &&& is_resolved(self.dapps)
        &&& is_resolved(self.secretstore)
    }

    /// The directories to create, in the order of their creation: the base,
    /// database, cache and key directories always, then the signer's, the
    /// dapps' and the secret store's, each only where it is enabled.
    pub open spec fn creation_order(
        self,
        dapps_enabled: bool,
        signer_enabled: bool,
        secretstore_enabled: bool,
    ) -> Seq<Seq<char>> {
        seq![self.base, self.db, self.cache, self.keys] + (if signer_enabled {
            seq![self.signer]
        } else {
            seq![]
        }) + (if dapps_enabled {
            seq![self.dapps]
        } else {
            seq![]
        }) + (if secretstore_enabled {
            seq![self.secretstore]
        } else {
            seq![]
        })
    }

    /// The step that follows `attempted` creations of which `last` is the
    /// outcome of the latest: the failure, if that one failed; else the next
    /// directory to create, or none when all are created.
    pub open spec fn creation_step(
        self,
        dapps_enabled: bool,
        signer_enabled: bool,
        secretstore_enabled: bool,
        attempted: nat,
        last: Result<(), Seq<char>>,
    ) -> Result<Option<Seq<char>>, Seq<char>> {
        let order = self.creation_order(dapps_enabled, signer_enabled, secretstore_enabled);
        match last {
            Err(message) => Err(message),
            Ok(_) => if attempted < order.len() {
                Ok(Some(order[attempted as int]))
            } else {
                Ok(None)
            },
        }
    }
}

/// The outcome of one creation, with the message of a failure as text.
pub open spec fn outcome_view(outcome: Result<(), String>) -> Result<(), Seq<char>> {
    match outcome {
        Ok(_) => Ok(()),
        Err(message) => Err(message@),
    }
}

/// A step of the creation, with its directory or its message as text.
pub open spec fn step_view(step: Result<Option<String>, String>) -> Result<
    Option<Seq<char>>,
    Seq<char>,
> {
    match step {
        Ok(Some(dir)) => Ok(Some(dir@)),
        Ok(None) => Ok(None),
        Err(message) => Err(message@),
    }
}

impl View for Directories {
    type V = Layout;

    open spec fn view(&self) -> Layout {
        Layout {
            base: self.base@,
            db: self.db@,
            cache: self.cache@,
            keys: self.keys@,
            signer: self.signer@,
            dapps: self.dapps@,
            secretstore: self.secretstore@,
        }
    }
}

impl PartialEq for Directories {
    fn eq(&self, other: &Directories) -> (equal: bool) {
        self.base == other.base && self.db == other.db && self.cache == other.cache && self.keys
            == other.keys && self.signer == other.signer && self.dapps == other.dapps
            && self.secretstore == other.secretstore
    }
}

impl vstd::std_specs::cmp::PartialEqSpecImpl for Directories {
    open spec fn obeys_eq_spec() -> bool {
        true
    }

    open spec fn eq_spec(&self, other: &Directories) -> bool {
        self.base@ == other.base@ && self.db@ == other.db@ && self.cache@ == other.cache@
            && self.keys@ == other.keys@ && self.signer@ == other.signer@ && self.dapps@
            == other.dapps@ && self.secretstore@ == other.secretstore@
    }
}

impl Directories {
    /// Lays the directories out for `platform`, under the data directory
    /// `data_dir` and the local directory `local_dir`, for the user whose home
    /// directory is `home`.
    pub fn new(platform: Platform, home: &str, data_dir: &str, local_dir: &str) -> (dirs:
        Directories)
        ensures
            dirs@ == Layout::resolved(platform, home@, data_dir@, local_dir@),
    {
        Directories {
            base: replace_home(home, data_dir, BASE_PATH),
            db: replace_home_and_local(home, data_dir, local_dir, platform.chains_path()),
            cache: replace_home_and_local(home, data_dir, local_dir, platform.cache_path()),
            keys: replace_home(home, data_dir, KEYS_PATH),
            signer: replace_home(home, data_dir, SIGNER_PATH),
            dapps: replace_home(home, data_dir, DAPPS_PATH),
            secretstore: replace_home(home, data_dir, SECRETSTORE_PATH),
        }
    }

    /// Lays the directories out for `platform` under the roots that the
    /// operating system names, or under their fallbacks in the home directory
    /// `home`.
    ///
    /// The roots are not known before the call, so the result is the layout of
    /// some pair of roots. Its base directory is the data directory that the
    /// system names, which ends with the product's name, or else `.parity`
    /// under the home directory.
    pub fn default_for(platform: Platform, home: &str) -> (dirs: Directories)
        ensures
            exists|data: Seq<char>, local: Seq<char>|
                dirs@ == Layout::resolved(platform, home@, data, local),
            dirs@.base == home@ + "/.parity"@ || ends_with(dirs@.base, platform.product_name()),
            dirs@.keys == dirs@.base + "/keys"@,
            dirs@.signer == dirs@.base + "/signer"@,
            dirs@.dapps == dirs@.base + "/dapps"@,
            dirs@.secretstore == dirs@.base + "/secretstore"@,
            ends_with(dirs@.db, "/chains"@),
            ends_with(dirs@.cache, "/cache"@),
    {
        let data_dir = default_data_path(platform, home);
        let local_dir = default_local_path(platform, home);
        proof {
            law_layout_under_roots(platform, home@, data_dir@, local_dir@);
            law_db_and_cache_names(platform, home@, data_dir@, local_dir@);
        }
        Directories::new(platform, home, data_dir.as_str(), local_dir.as_str())
    }

    /// The directories to create, in the order of their creation.
    pub fn dirs_to_create(
        &self,
        dapps_enabled: bool,
        signer_enabled: bool,
        secretstore_enabled: bool,
    ) -> (order: Vec<String>)
        ensures
            order.deep_view() == self@.creation_order(
                dapps_enabled,
                signer_enabled,
                secretstore_enabled,
            ),
    {
        let mut order: Vec<String> = Vec::new();
        order.push(self.base.clone());
        order.push(self.db.clone());
        order.push(self.cache.clone());
        order.push(self.keys.clone());
        if signer_enabled {
            order.push(self.signer.clone());
        }
        if dapps_enabled {
            order.push(self.dapps.clone());
        }
        if secretstore_enabled {
            order.push(self.secretstore.clone());
        }
        proof {
            assert(order.deep_view() =~= self@.creation_order(
                dapps_enabled,
                signer_enabled,
                secretstore_enabled,
            ));
        }
        order
    }

    /// What to do next while the directories are created, after `attempted`
    /// creations of which `last` is the outcome of the latest (`Ok` before the
    /// first).
    ///
    /// A failure ends the creation at once and is handed on with its message:
    /// what was created before stays. Otherwise the next directory of
    /// [`Layout::creation_order`] is to be created, and after the last one the
    /// creation has succeeded.
    pub fn create_dirs_step(
        &self,
        dapps_enabled: bool,
        signer_enabled: bool,
        secretstore_enabled: bool,
        attempted: usize,
        last: Result<(), String>,
    ) -> (next: Result<Option<String>, String>)
        ensures
            step_view(next) == self@.creation_step(
                dapps_enabled,
                signer_enabled,
                secretstore_enabled,
                attempted as nat,
                outcome_view(last),
            ),
    {
        match last {
            Err(message) => Err(message),
            Ok(_) => {
                let order = self.dirs_to_create(dapps_enabled, signer_enabled, secretstore_enabled);
                if attempted < order.len() {
                    Ok(Some(order[attempted].clone()))
                } else {
                    Ok(None)
                }
            },
        }
    }

    /// Get the ipc sockets path
    pub fn ipc_path(&self) -> (path: String)
        ensures
            path@ == self@.base + "/ipc"@,
    {
        let path = join(self.base.clone(), "ipc");
        proof {
            reveal_strlit("ipc");
            reveal_strlit("/ipc");
            assert(path@ =~= self@.base + "/ipc"@);
        }
        path
    }

    /// The keys path of the layout that did not tell the chains apart.
    pub fn legacy_keys_path(&self, testnet: bool) -> (path: String)
        ensures
            testnet ==> path@ == self@.base + "/testnet_keys"@,
            !testnet ==> path@ == self@.base + "/keys"@,
            testnet ==> ends_with(path@, "/testnet_keys"@),
            !testnet ==> ends_with(path@, "/keys"@),
    {
        let path = if testnet {
            join(self.base.clone(), "testnet_keys")
        } else {
            join(self.base.clone(), "keys")
        };
        proof {
            reveal_strlit("testnet_keys");
            reveal_strlit("/testnet_keys");
            reveal_strlit("keys");
            reveal_strlit("/keys");
            if testnet {
                assert(path@ =~= self@.base + "/testnet_keys"@);
                assert(path@.skip(path@.len() - 13) =~= "/testnet_keys"@);
            } else {
                assert(path@ =~= self@.base + "/keys"@);
                assert(path@.skip(path@.len() - 5) =~= "/keys"@);
            }
        }
        path
    }

    /// Get the keys path
    pub fn keys_path(&self, spec_name: &str) -> (path: String)
        ensures
            path@ == joined(self@.keys, spec_name@),
    {
        join(self.keys.clone(), spec_name)
    }
}

/// The directory under which `platform` keeps the chain database and the
/// cache: the local directory on Windows; elsewhere the data directory, in which
/// the local placeholder, were it to occur, is replaced too.
pub open spec fn machine_root(platform: Platform, data: Seq<char>, local: Seq<char>) -> Seq<char> {
    if platform == Platform::Windows {
        local
    } else {
        substituted(data, LOCAL_TOKEN@, local)
    }
}

/// What the templates are made of: each is a placeholder followed by a tail in
/// which no placeholder can end.
proof fn lemma_templates(platform: Platform)
    ensures
        BASE_PATH@ == BASE_TOKEN@ + Seq::<char>::empty(),
        KEYS_PATH@ == BASE_TOKEN@ + "/keys"@,
        SIGNER_PATH@ == BASE_TOKEN@ + "/signer"@,
        DAPPS_PATH@ == BASE_TOKEN@ + "/dapps"@,
        SECRETSTORE_PATH@ == BASE_TOKEN@ + "/secretstore"@,
        platform == Platform::Windows ==> platform.chains_template() == LOCAL_TOKEN@ + "/chains"@,
        platform == Platform::Windows ==> platform.cache_template() == LOCAL_TOKEN@ + "/cache"@,
        platform != Platform::Windows ==> platform.chains_template() == BASE_TOKEN@ + "/chains"@,
        platform != Platform::Windows ==> platform.cache_template() == BASE_TOKEN@ + "/cache"@,
        lacks_char(Seq::<char>::empty(), 'E') && lacks_char(Seq::<char>::empty(), 'L'),
        lacks_char("/keys"@, 'E') && lacks_char("/keys"@, 'L'),
        lacks_char("/signer"@, 'E') && lacks_char("/signer"@, 'L'),
        lacks_char("/dapps"@, 'E') && lacks_char("/dapps"@, 'L'),
        lacks_char("/secretstore"@, 'E') && lacks_char("/secretstore"@, 'L'),
        lacks_char("/chains"@, 'E') && lacks_char("/chains"@, 'L'),
        lacks_char("/cache"@, 'E') && lacks_char("/cache"@, 'L'),
{
    lemma_tokens();
    reveal_strlit("$BASE");
    reveal_strlit("$BASE/keys");
    reveal_strlit("$BASE/signer");
    reveal_strlit("$BASE/dapps");
    reveal_strlit("$BASE/secretstore");
    reveal_strlit("$BASE/chains");
    reveal_strlit("$BASE/cache");
    reveal_strlit("$LOCAL/chains");
    reveal_strlit("$LOCAL/cache");
    reveal_strlit("/keys");
    reveal_strlit("/signer");
    reveal_strlit("/dapps");
    reveal_strlit("/secretstore");
    reveal_strlit("/chains");
    reveal_strlit("/cache");
    assert(BASE_PATH@ =~= BASE_TOKEN@ + Seq::<char>::empty());
    assert(KEYS_PATH@ =~= BASE_TOKEN@ + "/keys"@);
    assert(SIGNER_PATH@ =~= BASE_TOKEN@ + "/signer"@);
    assert(DAPPS_PATH@ =~= BASE_TOKEN@ + "/dapps"@);
    assert(SECRETSTORE_PATH@ =~= BASE_TOKEN@ + "/secretstore"@);
    assert("$BASE/chains"@ =~= BASE_TOKEN@ + "/chains"@);
    assert("$BASE/cache"@ =~= BASE_TOKEN@ + "/cache"@);
    assert("$LOCAL/chains"@ =~= LOCAL_TOKEN@ + "/chains"@);
    assert("$LOCAL/cache"@ =~= LOCAL_TOKEN@ + "/cache"@);
}

/// Every directory is its root followed by its own name: the base directory is
/// the data directory itself, the key, signer, dapps and secret store
/// directories lie under the data directory, the chain database and the cache
/// under the machine root.
pub proof fn law_layout_under_roots(
    platform: Platform,
    home: Seq<char>,
    data: Seq<char>,
    local: Seq<char>,
)
    ensures
        ({
            let layout = Layout::resolved(platform, home, data, local);
            &&& layout.base == data
            &&& layout.db == machine_root(platform, data, local) + "/chains"@
            &&& layout.cache == machine_root(platform, data, local) + "/cache"@
            &&& layout.keys == data + "/keys"@
            &&& layout.signer == data + "/signer"@
            &&& layout.dapps == data + "/dapps"@
            &&& layout.secretstore == data + "/secretstore"@
        }),
{
    lemma_templates(platform);
    lemma_base_rooted(home, data, local, Seq::<char>::empty());
    assert(data + Seq::<char>::empty() =~= data);
    lemma_base_rooted(home, data, local, "/keys"@);
    lemma_base_rooted(home, data, local, "/signer"@);
    lemma_base_rooted(home, data, local, "/dapps"@);
    lemma_base_rooted(home, data, local, "/secretstore"@);
    if platform == Platform::Windows {
        lemma_local_rooted(home, data, local, "/chains"@);
        lemma_local_rooted(home, data, local, "/cache"@);
    } else {
        lemma_base_rooted(home, data, local, "/chains"@);
        lemma_base_rooted(home, data, local, "/cache"@);
    }
}

/// Whatever the roots, the chain database ends in `/chains` and the cache in
/// `/cache`.
pub proof fn law_db_and_cache_names(
    platform: Platform,
    home: Seq<char>,
    data: Seq<char>,
    local: Seq<char>,
)
    ensures
        ends_with(Layout::resolved(platform, home, data, local).db, "/chains"@),
        ends_with(Layout::resolved(platform, home, data, local).cache, "/cache"@),
{
    law_layout_under_roots(platform, home, data, local);
    let layout = Layout::resolved(platform, home, data, local);
    let root = machine_root(platform, data, local);
    assert(layout.db.skip(layout.db.len() - "/chains"@.len()) =~= "/chains"@);
    assert(layout.cache.skip(layout.cache.len() - "/cache"@.len()) =~= "/cache"@);
}

/// The chain database and the cache lie under the local directory on Windows
/// and under the data directory elsewhere, provided that, off Windows, replacing
/// the local placeholder leaves the data directory as it is.
pub proof fn law_db_and_cache_roots(
    platform: Platform,
    home: Seq<char>,
    data: Seq<char>,
    local: Seq<char>,
)
    requires
        platform != Platform::Windows ==> substituted(data, LOCAL_TOKEN@, local) == data,
    ensures
        ({
            let layout = Layout::resolved(platform, home, data, local);
            let root = if platform == Platform::Windows {
                local
            } else {
                data
            };
            &&& layout.db == root + "/chains"@
            &&& layout.cache == root + "/cache"@
        }),
{
    law_layout_under_roots(platform, home, data, local);
}

/// A data directory without the local placeholder is left as it is when that
/// placeholder is replaced: such a directory meets the condition of
/// [`law_db_and_cache_roots`].
pub proof fn law_plain_data_dir_is_kept(data: Seq<char>, local: Seq<char>)
    requires
        !contains(data, LOCAL_TOKEN@),
    ensures
        substituted(data, LOCAL_TOKEN@, local) == data,
{
    lemma_absent_token(data, LOCAL_TOKEN@, local);
}

/// No placeholder is left in the base directory where none stands in the data
/// directory.
pub proof fn law_base_is_resolved(
    platform: Platform,
    home: Seq<char>,
    data: Seq<char>,
    local: Seq<char>,
)
    requires
        is_resolved(data),
    ensures
        is_resolved(Layout::resolved(platform, home, data, local).base),
{
    law_layout_under_roots(platform, home, data, local);
}

/// A directory made of a resolved root and a tail in lower case is resolved.
proof fn lemma_resolved_with_tail(root: Seq<char>, tail: Seq<char>)
    requires
        is_resolved(root),
        lacks_char(tail, 'E'),
        lacks_char(tail, 'L'),
    ensures
        is_resolved(root + tail),
{
    lemma_tokens();
    lemma_tail_adds_no_occurrence(root, tail, HOME_TOKEN@);
    lemma_tail_adds_no_occurrence(root, tail, BASE_TOKEN@);
    lemma_tail_adds_no_occurrence(root, tail, LOCAL_TOKEN@);
}

/// No placeholder is left in any directory where none stands in the data
/// directory nor in the local directory.
pub proof fn law_layout_is_resolved(
    platform: Platform,
    home: Seq<char>,
    data: Seq<char>,
    local: Seq<char>,
)
    requires
        is_resolved(data),
        is_resolved(local),
    ensures
        Layout::resolved(platform, home, data, local).is_resolved(),
{
    law_layout_under_roots(platform, home, data, local);
    lemma_templates(platform);
    lemma_absent_token(data, LOCAL_TOKEN@, local);
    let root = machine_root(platform, data, local);
    lemma_resolved_with_tail(root, "/chains"@);
    lemma_resolved_with_tail(root, "/cache"@);
    lemma_resolved_with_tail(data, "/keys"@);
    lemma_resolved_with_tail(data, "/signer"@);
    lemma_resolved_with_tail(data, "/dapps"@);
    lemma_resolved_with_tail(data, "/secretstore"@);
}

/// With nothing enabled, exactly the base, database, cache and key directories
/// are created, in this order, and after the fourth the creation is over.
pub proof fn law_minimal_creation(layout: Layout)
    ensures
        layout.creation_order(false, false, false) == seq![
            layout.base,
            layout.db,
            layout.cache,
            layout.keys,
        ],
        forall|attempted: nat|
            attempted >= 4 ==> #[trigger] layout.creation_step(
                false,
                false,
                false,
                attempted,
                Ok(()),
            ) == Ok::<Option<Seq<char>>, Seq<char>>(None),
{
    assert(layout.creation_order(false, false, false) =~= seq![
        layout.base,
        layout.db,
        layout.cache,
        layout.keys,
    ]);
}

/// A failure ends the creation, whatever was still to be created, and its
/// message is handed on as it is.
pub proof fn law_failure_ends_creation(
    layout: Layout,
    dapps_enabled: bool,
    signer_enabled: bool,
    secretstore_enabled: bool,
    attempted: nat,
    message: Seq<char>,
)
    ensures
        layout.creation_step(
            dapps_enabled,
            signer_enabled,
            secretstore_enabled,
            attempted,
            Err(message),
        ) == Err::<Option<Seq<char>>, Seq<char>>(message),
{
}

/// The base, database, cache and key directories are created first whatever is
/// enabled, and one more directory is created for each thing enabled.
pub proof fn law_creation_order(
    layout: Layout,
    dapps_enabled: bool,
    signer_enabled: bool,
    secretstore_enabled: bool,
)
    ensures
        ({
            let order = layout.creation_order(dapps_enabled, signer_enabled, secretstore_enabled);
            let optional = (if signer_enabled {
                1int
            } else {
                0int
            }) + (if dapps_enabled {
                1int
            } else {
                0int
            }) + (if secretstore_enabled {
                1int
            } else {
                0int
            });
            &&& order.len() == 4 + optional
            &&& order.take(4) == layout.creation_order(false, false, false)
        }),
{
    let order = layout.creation_order(dapps_enabled, signer_enabled, secretstore_enabled);
    assert(order.take(4) =~= layout.creation_order(false, false, false));
}

} // verus!
