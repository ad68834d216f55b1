use wineprefix::debug::{DebugChannel, DebugRules};
use wineprefix::prefix::{EnvVar, Prefix, PrefixConfig, PrefixError};
use wineprefix::text::{join_path, join_strings};

fn env_lookup(env: &Vec<EnvVar>, name: &str) -> Option<String> {
    for var in env {
        if var.name == name {
            return Some(var.value.clone());
        }
    }
    None
}

fn config(esync: bool, msync: bool) -> PrefixConfig {
    PrefixConfig { esync, msync }
}

fn prefix_at(root: &str, dirs: Vec<&str>, config: PrefixConfig) -> Prefix {
    let dirs: Vec<String> = dirs.into_iter().map(String::from).collect();
    Prefix::at(root, &dirs, config, true).unwrap()
}

#[test]
fn joining_no_directories_yields_empty_string() {
    assert_eq!(join_strings(&vec![], ":"), "");
}

#[test]
fn joining_two_directories_separates_with_colon() {
    let dirs = vec![String::from("/a"), String::from("/b")];
    assert_eq!(join_strings(&dirs, ":"), "/a:/b");
}

#[test]
fn join_path_inserts_separator() {
    assert_eq!(join_path("/opt/runtime", "bin/wine"), "/opt/runtime/bin/wine");
}

#[test]
fn join_path_keeps_existing_trailing_separator() {
    assert_eq!(join_path("/opt/runtime/", "bin/wine"), "/opt/runtime/bin/wine");
}

#[test]
fn join_path_on_empty_root_is_the_subpath() {
    assert_eq!(join_path("", "bin/wine"), "bin/wine");
}

#[test]
fn missing_main_launcher_fails_construction() {
    let result = Prefix::at("/nowhere", &vec![], config(false, false), false);
    assert_eq!(result.unwrap_err(), PrefixError::InvalidPrefix);
}

#[test]
fn present_main_launcher_allows_construction() {
    assert!(Prefix::at("/opt/runtime", &vec![], config(false, false), true).is_ok());
}

#[test]
fn command_targets_the_main_launcher_from_the_root() {
    let prefix = prefix_at("/opt/runtime", vec![], config(false, false));
    let command = prefix.command(false, "game.exe", &DebugRules::new());
    assert_eq!(command.executable, "/opt/runtime/bin/wine");
    assert_eq!(command.working_dir, "/opt/runtime");
}

#[test]
fn command_always_sets_identity_and_search_path() {
    let prefix = prefix_at("/opt/runtime", vec!["/a", "/b"], config(false, false));
    let command = prefix.command(false, "game.exe", &DebugRules::new());
    assert_eq!(
        env_lookup(&command.env, "WINEPREFIX"),
        Some(String::from("/opt/runtime"))
    );
    assert_eq!(
        env_lookup(&command.env, "DYLD_FALLBACK_LIBRARY_PATH"),
        Some(String::from("/a:/b"))
    );
}

#[test]
fn start_token_first_program_last() {
    let prefix = prefix_at("/opt/runtime", vec![], config(false, false));
    let rules = DebugRules::new()
        .enable(DebugChannel::Heap)
        .disable(DebugChannel::Seh);
    let command = prefix.command(true, "game.exe", &rules);
    assert_eq!(command.args.first().map(String::as_str), Some("start"));
    assert_eq!(command.args.last().map(String::as_str), Some("game.exe"));
    assert_eq!(command.args.len(), 2);
}

#[test]
fn without_start_token_program_is_the_only_argument() {
    let prefix = prefix_at("/opt/runtime", vec![], config(false, false));
    let command = prefix.command(false, "game.exe", &DebugRules::new());
    assert_eq!(command.args, vec![String::from("game.exe")]);
}

#[test]
fn empty_rule_set_sets_no_logging_variable() {
    let prefix = prefix_at("/opt/runtime", vec![], config(false, false));
    let command = prefix.command(false, "game.exe", &DebugRules::new());
    assert_eq!(env_lookup(&command.env, "WINEDEBUG"), None);
}

#[test]
fn non_empty_rule_set_sets_the_logging_variable() {
    let prefix = prefix_at("/opt/runtime", vec![], config(false, false));
    let rules = DebugRules::new()
        .enable(DebugChannel::Heap)
        .disable(DebugChannel::Seh);
    let command = prefix.command(false, "game.exe", &rules);
    assert_eq!(
        env_lookup(&command.env, "WINEDEBUG"),
        Some(String::from("+heap,-seh"))
    );
}

#[test]
fn esync_alone_sets_exactly_one_sync_variable() {
    let prefix = prefix_at("/opt/runtime", vec![], config(true, false));
    let command = prefix.command(false, "game.exe", &DebugRules::new());
    assert_eq!(env_lookup(&command.env, "ESYNC"), Some(String::from("1")));
    assert_eq!(env_lookup(&command.env, "MSYNC"), None);
}

#[test]
fn msync_alone_sets_exactly_one_sync_variable() {
    let prefix = prefix_at("/opt/runtime", vec![], config(false, true));
    let command = prefix.command(false, "game.exe", &DebugRules::new());
    assert_eq!(env_lookup(&command.env, "ESYNC"), None);
    assert_eq!(env_lookup(&command.env, "MSYNC"), Some(String::from("1")));
}

#[test]
fn no_sync_flags_set_no_sync_variables() {
    let prefix = prefix_at("/opt/runtime", vec![], config(false, false));
    let command = prefix.command(false, "game.exe", &DebugRules::new());
    assert_eq!(env_lookup(&command.env, "ESYNC"), None);
    assert_eq!(env_lookup(&command.env, "MSYNC"), None);
}

#[test]
fn both_sync_flags_set_both_variables() {
    let prefix = prefix_at("/opt/runtime", vec![], config(true, true));
    let command = prefix.command(false, "game.exe", &DebugRules::new());
    assert_eq!(env_lookup(&command.env, "ESYNC"), Some(String::from("1")));
    assert_eq!(env_lookup(&command.env, "MSYNC"), Some(String::from("1")));
}

#[test]
fn kill_all_targets_the_server_terminator_from_the_root() {
    let prefix = prefix_at("/opt/runtime", vec![], config(false, false));
    let command = prefix.kill_all();
    assert_eq!(command.executable, "/opt/runtime/bin/wineserver");
    assert_eq!(command.working_dir, "/opt/runtime");
    assert_eq!(command.args, vec![String::from("-k")]);
    assert_eq!(command.env.len(), 1);
    assert_eq!(
        env_lookup(&command.env, "WINEPREFIX"),
        Some(String::from("/opt/runtime"))
    );
}

#[test]
fn kill_all_ignores_settings_and_search_paths() {
    let plain = prefix_at("/opt/runtime", vec![], config(false, false));
    let loaded = prefix_at("/opt/runtime", vec!["/a", "/b"], config(true, true));
    assert_eq!(plain.kill_all(), loaded.kill_all());
}

#[test]
fn cloned_prefix_assembles_the_same_commands() {
    let prefix = prefix_at("/opt/runtime", vec!["/a"], config(true, false));
    let clone = prefix.clone();
    assert_eq!(
        prefix.command(true, "game.exe", &DebugRules::new()),
        clone.command(true, "game.exe", &DebugRules::new())
    );
    assert_eq!(prefix.kill_all(), clone.kill_all());
}
