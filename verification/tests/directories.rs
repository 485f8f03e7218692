use dir::directories::Directories;
use dir::helpers::{replace_home, replace_home_and_local};
use dir::platform::Platform;
use dir::roots::{default_data_path, default_local_path};

const HOME: &str = "/home/u";

fn layout(platform: Platform, data: &str, local: &str) -> Directories {
    Directories::new(platform, HOME, data, local)
}

fn expected_default(platform: Platform) -> Directories {
    let windows = platform == Platform::Windows;
    let data_dir = default_data_path(platform, HOME);
    let local_dir = default_local_path(platform, HOME);
    Directories {
        base: replace_home(HOME, &data_dir, "$BASE"),
        db: replace_home_and_local(
            HOME,
            &data_dir,
            &local_dir,
            if windows { "$LOCAL/chains" } else { "$BASE/chains" },
        ),
        cache: replace_home_and_local(
            HOME,
            &data_dir,
            &local_dir,
            if windows { "$LOCAL/cache" } else { "$BASE/cache" },
        ),
        keys: replace_home(HOME, &data_dir, "$BASE/keys"),
        signer: replace_home(HOME, &data_dir, "$BASE/signer"),
        dapps: replace_home(HOME, &data_dir, "$BASE/dapps"),
        secretstore: replace_home(HOME, &data_dir, "$BASE/secretstore"),
    }
}

#[test]
fn test_default_directories() {
    assert_eq!(expected_default(Platform::Unix), Directories::default_for(Platform::Unix, HOME));
    assert_eq!(expected_default(Platform::MacOs), Directories::default_for(Platform::MacOs, HOME));
    assert_eq!(
        expected_default(Platform::Windows),
        Directories::default_for(Platform::Windows, HOME)
    );
}

#[test]
fn unix_layout_with_one_root() {
    let root = "/home/u/.local/share/app";
    let dirs = layout(Platform::Unix, root, root);
    assert_eq!(dirs.base, "/home/u/.local/share/app");
    assert_eq!(dirs.db, "/home/u/.local/share/app/chains");
    assert_eq!(dirs.cache, "/home/u/.local/share/app/cache");
    assert_eq!(dirs.keys, "/home/u/.local/share/app/keys");
    assert_eq!(dirs.signer, "/home/u/.local/share/app/signer");
    assert_eq!(dirs.dapps, "/home/u/.local/share/app/dapps");
    assert_eq!(dirs.secretstore, "/home/u/.local/share/app/secretstore");
}

#[test]
fn unix_and_macos_keep_everything_under_the_data_directory() {
    for platform in [Platform::Unix, Platform::MacOs] {
        let dirs = layout(platform, "/data/app", "/cache/app");
        assert_eq!(dirs.base, "/data/app");
        assert_eq!(dirs.db, "/data/app/chains");
        assert_eq!(dirs.cache, "/data/app/cache");
        assert_eq!(dirs.keys, "/data/app/keys");
    }
}

#[test]
fn windows_keeps_database_and_cache_under_the_local_directory() {
    let dirs = layout(
        Platform::Windows,
        "C:/Users/u/AppData/Roaming/Parity/Ethereum",
        "C:/Users/u/AppData/Local/Parity/Ethereum",
    );
    assert_eq!(dirs.base, "C:/Users/u/AppData/Roaming/Parity/Ethereum");
    assert_eq!(dirs.db, "C:/Users/u/AppData/Local/Parity/Ethereum/chains");
    assert_eq!(dirs.cache, "C:/Users/u/AppData/Local/Parity/Ethereum/cache");
    assert_eq!(dirs.keys, "C:/Users/u/AppData/Roaming/Parity/Ethereum/keys");
    assert_eq!(dirs.signer, "C:/Users/u/AppData/Roaming/Parity/Ethereum/signer");
    assert_eq!(dirs.dapps, "C:/Users/u/AppData/Roaming/Parity/Ethereum/dapps");
    assert_eq!(dirs.secretstore, "C:/Users/u/AppData/Roaming/Parity/Ethereum/secretstore");
}

#[test]
fn no_placeholder_is_left_in_the_layout() {
    for platform in [Platform::Unix, Platform::MacOs, Platform::Windows] {
        let dirs = layout(platform, "/data/app", "/cache/app");
        for dir in [
            &dirs.base,
            &dirs.db,
            &dirs.cache,
            &dirs.keys,
            &dirs.signer,
            &dirs.dapps,
            &dirs.secretstore,
        ] {
            assert!(!dir.contains("$BASE"));
            assert!(!dir.contains("$LOCAL"));
            assert!(!dir.contains("$HOME"));
        }
    }
}

#[test]
fn local_placeholder_in_the_data_directory_is_replaced_off_windows() {
    let dirs = layout(Platform::Unix, "/srv/$LOCAL", "/var/cache");
    assert_eq!(dirs.base, "/srv/$LOCAL");
    assert_eq!(dirs.db, "/srv//var/cache/chains");
    assert_eq!(dirs.cache, "/srv//var/cache/cache");
    assert_eq!(dirs.keys, "/srv/$LOCAL/keys");
}

#[test]
fn the_home_directory_does_not_show_in_the_layout() {
    let one = Directories::new(Platform::Unix, "/home/a", "/data", "/local");
    let other = Directories::new(Platform::Unix, "/home/b", "/data", "/local");
    assert_eq!(one, other);
}

#[test]
fn layouts_differ_where_a_directory_differs() {
    let one = layout(Platform::Windows, "/data", "/local");
    let other = layout(Platform::Windows, "/data", "/elsewhere");
    assert_ne!(one, other);
    assert_eq!(one, layout(Platform::Windows, "/data", "/local"));
}

#[test]
fn ipc_path_lies_under_the_base_directory() {
    let dirs = layout(Platform::Unix, "/data/app", "/cache/app");
    assert_eq!(dirs.ipc_path(), "/data/app/ipc");
}

#[test]
fn legacy_keys_path_tells_the_test_network_apart() {
    let dirs = layout(Platform::Unix, "/data/app", "/cache/app");
    assert_eq!(dirs.legacy_keys_path(true), "/data/app/testnet_keys");
    assert_eq!(dirs.legacy_keys_path(false), "/data/app/keys");
    assert!(dirs.legacy_keys_path(true).ends_with("/testnet_keys"));
    assert!(dirs.legacy_keys_path(false).ends_with("/keys"));
}

#[test]
fn keys_path_appends_the_chain_name() {
    let dirs = layout(Platform::Unix, "/data/app", "/cache/app");
    assert_eq!(dirs.keys_path("foo"), "/data/app/keys/foo");
    assert_eq!(dirs.keys_path("ropsten"), "/data/app/keys/ropsten");
}

#[test]
fn keys_path_does_not_sanitize_the_chain_name() {
    let dirs = layout(Platform::Unix, "/data/app", "/cache/app");
    assert_eq!(dirs.keys_path("a/b"), "/data/app/keys/a/b");
    assert_eq!(dirs.keys_path("../up"), "/data/app/keys/../up");
    assert_eq!(dirs.keys_path("/abs"), "/data/app/keys//abs");
    assert_eq!(dirs.keys_path(""), "/data/app/keys/");
}

#[test]
fn nothing_enabled_creates_the_four_directories() {
    let dirs = layout(Platform::Unix, "/data/app", "/cache/app");
    assert_eq!(
        dirs.dirs_to_create(false, false, false),
        vec!["/data/app", "/data/app/chains", "/data/app/cache", "/data/app/keys"]
    );
}

#[test]
fn each_flag_adds_its_directory() {
    let dirs = layout(Platform::Windows, "/data/app", "/cache/app");
    let always = vec!["/data/app", "/cache/app/chains", "/cache/app/cache", "/data/app/keys"];
    let with = |extra: &[&str]| {
        let mut all: Vec<String> = always.iter().map(|s| s.to_string()).collect();
        all.extend(extra.iter().map(|s| s.to_string()));
        all
    };
    assert_eq!(dirs.dirs_to_create(true, false, false), with(&["/data/app/dapps"]));
    assert_eq!(dirs.dirs_to_create(false, true, false), with(&["/data/app/signer"]));
    assert_eq!(dirs.dirs_to_create(false, false, true), with(&["/data/app/secretstore"]));
    assert_eq!(
        dirs.dirs_to_create(true, true, true),
        with(&["/data/app/signer", "/data/app/dapps", "/data/app/secretstore"])
    );
    assert_eq!(
        dirs.dirs_to_create(true, false, true),
        with(&["/data/app/dapps", "/data/app/secretstore"])
    );
}

fn run_creation(dirs: &Directories, flags: (bool, bool, bool), fail_at: Option<usize>) -> (Vec<String>, Result<(), String>) {
    let mut asked = Vec::new();
    let mut last = Ok(());
    loop {
        match dirs.create_dirs_step(flags.0, flags.1, flags.2, asked.len(), last) {
            Ok(Some(dir)) => {
                last = if fail_at == Some(asked.len()) {
                    Err(format!("cannot create {}", dir))
                } else {
                    Ok(())
                };
                asked.push(dir);
            }
            Ok(None) => return (asked, Ok(())),
            Err(message) => return (asked, Err(message)),
        }
    }
}

#[test]
fn creation_without_failure_goes_through_the_whole_order() {
    let dirs = layout(Platform::Unix, "/data/app", "/cache/app");
    for flags in [(false, false, false), (true, false, true), (true, true, true)] {
        let (asked, result) = run_creation(&dirs, flags, None);
        assert_eq!(asked, dirs.dirs_to_create(flags.0, flags.1, flags.2));
        assert_eq!(result, Ok(()));
    }
}

#[test]
fn creation_with_nothing_enabled_asks_for_four_directories() {
    let dirs = layout(Platform::Unix, "/data/app", "/cache/app");
    let (asked, result) = run_creation(&dirs, (false, false, false), None);
    assert_eq!(asked, vec!["/data/app", "/data/app/chains", "/data/app/cache", "/data/app/keys"]);
    assert_eq!(result, Ok(()));
    assert_eq!(dirs.create_dirs_step(false, false, false, 4, Ok(())), Ok(None));
    assert_eq!(dirs.create_dirs_step(false, false, false, 9, Ok(())), Ok(None));
}

#[test]
fn creation_stops_at_the_first_failure() {
    let dirs = layout(Platform::Unix, "/data/app", "/cache/app");
    let (asked, result) = run_creation(&dirs, (true, true, true), Some(1));
    assert_eq!(asked, vec!["/data/app", "/data/app/chains"]);
    assert_eq!(result, Err("cannot create /data/app/chains".to_string()));
    let (asked, result) = run_creation(&dirs, (true, true, true), Some(6));
    assert_eq!(asked.len(), 7);
    assert_eq!(result, Err("cannot create /data/app/secretstore".to_string()));
    let (asked, result) = run_creation(&dirs, (false, false, false), Some(0));
    assert_eq!(asked, vec!["/data/app"]);
    assert_eq!(result, Err("cannot create /data/app".to_string()));
}

#[test]
fn creation_step_by_step() {
    let dirs = layout(Platform::Windows, "/data/app", "/cache/app");
    assert_eq!(
        dirs.create_dirs_step(false, true, false, 0, Ok(())),
        Ok(Some("/data/app".to_string()))
    );
    assert_eq!(
        dirs.create_dirs_step(false, true, false, 1, Ok(())),
        Ok(Some("/cache/app/chains".to_string()))
    );
    assert_eq!(
        dirs.create_dirs_step(false, true, false, 4, Ok(())),
        Ok(Some("/data/app/signer".to_string()))
    );
    assert_eq!(dirs.create_dirs_step(false, true, false, 5, Ok(())), Ok(None));
    assert_eq!(
        dirs.create_dirs_step(false, true, false, 2, Err("disk full".to_string())),
        Err("disk full".to_string())
    );
}

#[test]
fn creation_asks_for_the_same_directories_each_time() {
    let dirs = layout(Platform::MacOs, "/data/app", "/cache/app");
    let first = run_creation(&dirs, (true, false, false), None);
    let second = run_creation(&dirs, (true, false, false), None);
    assert_eq!(first.1, Ok(()));
    assert_eq!(second.1, Ok(()));
    assert_eq!(first.0, second.0);
}

#[test]
fn default_layout_lies_under_the_default_data_path() {
    for platform in [Platform::Unix, Platform::MacOs, Platform::Windows] {
        let dirs = Directories::default_for(platform, HOME);
        assert_eq!(dirs.base, default_data_path(platform, HOME));
        assert_eq!(dirs.keys, format!("{}/keys", dirs.base));
        assert_eq!(dirs.signer, format!("{}/signer", dirs.base));
        assert_eq!(dirs.dapps, format!("{}/dapps", dirs.base));
        assert_eq!(dirs.secretstore, format!("{}/secretstore", dirs.base));
        assert!(dirs.db.ends_with("/chains"));
        assert!(dirs.cache.ends_with("/cache"));
    }
}
