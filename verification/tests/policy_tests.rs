use decargot::config::{unix_config, windows_config};
use decargot::policy::should_prune;

#[test]
fn noise_names_are_pruned_below_the_root() {
    let cfg = unix_config();
    assert!(should_prune(&cfg, "/home/u/node_modules", "node_modules", 1));
    assert!(should_prune(&cfg, "/home/u/proj/.git", ".git", 2));
    assert!(should_prune(&cfg, "/home/u/proj/build", "build", 2));
}

#[test]
fn name_rule_is_case_insensitive() {
    let cfg = unix_config();
    assert!(should_prune(&cfg, "/h/NODE_MODULES", "NODE_MODULES", 1));
    assert!(should_prune(&cfg, "/h/Dist", "Dist", 3));
}

#[test]
fn name_rule_never_applies_at_the_root() {
    let cfg = unix_config();
    assert!(!should_prune(&cfg, "/home/u/node_modules", "node_modules", 0));
}

#[test]
fn system_path_prefixes_are_pruned_at_any_depth() {
    let cfg = unix_config();
    assert!(should_prune(&cfg, "/tmp", "tmp", 1));
    assert!(should_prune(&cfg, "/tmp/whatever", "whatever", 2));
    assert!(should_prune(&cfg, "/tmp/whatever", "whatever", 0));
}

#[test]
fn path_equality_ignores_case_but_prefix_does_not() {
    let cfg = unix_config();
    assert!(should_prune(&cfg, "/TMP", "TMP", 0));
    assert!(!should_prune(&cfg, "/Tmp/x", "x", 0));
}

#[test]
fn ordinary_directories_are_kept() {
    let cfg = unix_config();
    assert!(!should_prune(&cfg, "/home/u/proj", "proj", 1));
    assert!(!should_prune(&cfg, "/home", "home", 1));
}

#[test]
fn windows_denylist_uses_windows_paths() {
    let cfg = windows_config();
    assert_eq!(cfg.separator, "\\");
    assert!(should_prune(&cfg, "C:\\Windows\\System32", "System32", 2));
    assert!(should_prune(&cfg, "c:\\windows", "windows", 0));
    assert!(!should_prune(&cfg, "C:\\Work\\proj", "proj", 1));
}

#[test]
fn unix_config_lists_expected_entries() {
    let cfg = unix_config();
    assert_eq!(cfg.separator, "/");
    assert!(cfg.ignored_names.iter().any(|n| n == "node_modules"));
    assert!(cfg.ignored_names.iter().any(|n| n == ".vscode"));
    assert!(cfg.ignored_dirs.iter().any(|d| d == "/proc"));
    assert!(cfg.ignored_dirs.iter().any(|d| d == "/lost+found"));
    assert_eq!(cfg.ignored_names.len(), 15);
    assert_eq!(cfg.ignored_dirs.len(), 12);
}
