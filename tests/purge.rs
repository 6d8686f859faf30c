use purge::gate::{answer_deletes, confirms, gate_action, is_yes, GateAction};
use purge::matcher::MatchConfig;
use purge::name::decompose;
use purge::options::{ConfigError, Options};
use purge::text::{has_prefix, has_suffix, same_text};
use purge::walk::{Entry, EntryKind, Step, Walker};

fn split(name: &str, multi: bool) -> (String, String) {
    let d = decompose(name, multi);
    (d.base, d.extension)
}

fn rules(query: &str, start: bool, end: bool, ext: bool, ci: bool, multi: bool) -> MatchConfig {
    MatchConfig::new(query, start, end, ext, ci, multi)
}

fn args(list: &[&str]) -> Vec<String> {
    list.iter().map(|s| s.to_string()).collect()
}

fn entry(path: &str, name: &str, kind: EntryKind) -> Entry {
    Entry { path: path.to_string(), name: name.to_string(), kind }
}

#[test]
fn no_dot_name_is_its_own_base() {
    for multi in [false, true] {
        assert_eq!(split("Makefile", multi), ("Makefile".to_string(), String::new()));
        assert_eq!(split("", multi), (String::new(), String::new()));
    }
}

#[test]
fn one_dot_policies_agree() {
    for name in ["foo.txt", ".bashrc", "trailing.", "x.y"] {
        assert_eq!(split(name, false), split(name, true));
    }
    assert_eq!(split(".bashrc", false), (String::new(), "bashrc".to_string()));
}

#[test]
fn multi_part_extension() {
    assert_eq!(split("archive.tar.gz", true), ("archive".to_string(), "tar.gz".to_string()));
    assert_eq!(split("archive.tar.gz", false), ("archive.tar".to_string(), "gz".to_string()));
}

#[test]
fn decomposition_keeps_case() {
    assert_eq!(split("Report.TXT", false), ("Report".to_string(), "TXT".to_string()));
}

#[test]
fn text_helpers() {
    assert!(has_prefix("foobar", "foo"));
    assert!(!has_prefix("fo", "foo"));
    assert!(has_suffix("foobar", "bar"));
    assert!(!has_suffix("foobar", "foo"));
    assert!(same_text("abc", "abc"));
    assert!(!same_text("abc", "abd"));
    assert!(has_prefix("anything", ""));
}

#[test]
fn start_mode_uses_base_name() {
    let r = rules("foo", true, false, false, false, false);
    assert!(r.file_matches("foo.txt"));
    assert!(r.file_matches("foobar"));
    assert!(!r.file_matches("barfoo.txt"));
}

#[test]
fn end_mode_uses_base_name() {
    let r = rules("bar", false, true, false, false, false);
    assert!(r.file_matches("foobar.txt"));
    assert!(!r.file_matches("foo.bar.txt.gz"));
    // The end of the whole filename is not looked at: the extension is split off first.
    let r = rules("txt", false, true, false, false, false);
    assert!(!r.file_matches("foo.txt"));
    assert!(r.file_matches("notes_txt.md"));
}

#[test]
fn start_mode_ignores_extension_text() {
    // Under the alternate reading (whole filename) "foo.t" would match; here it does not.
    let r = rules("foo.t", true, false, false, false, false);
    assert!(!r.file_matches("foo.txt"));
    let r = rules("foo.t", true, false, false, false, true);
    assert!(!r.file_matches("foo.tar.gz"));
}

#[test]
fn extension_mode_with_and_without_dot() {
    for q in ["txt", ".txt"] {
        let r = rules(q, false, false, true, false, false);
        assert!(r.file_matches("notes.txt"));
        assert!(!r.file_matches("notes.md"));
        assert!(!r.file_matches("txt"));
    }
    let r = rules(".tar.gz", false, false, true, false, true);
    assert!(r.file_matches("archive.tar.gz"));
    let r = rules(".tar.gz", false, false, true, false, false);
    assert!(!r.file_matches("archive.tar.gz"));
}

#[test]
fn case_insensitive_report() {
    let on = rules("report", true, false, false, true, false);
    let off = rules("report", true, false, false, false, false);
    assert!(on.file_matches("Report.TXT"));
    assert!(!off.file_matches("Report.TXT"));
    let on = rules("txt", false, false, true, true, false);
    let off = rules("txt", false, false, true, false, false);
    assert!(on.file_matches("Report.TXT"));
    assert!(!off.file_matches("Report.TXT"));
    // The query is folded too.
    let on = rules("REP", true, false, false, true, false);
    assert_eq!(on.query, "rep");
    assert!(on.file_matches("Report.TXT"));
}

#[test]
fn name_matches_takes_folded_name() {
    let r = rules("report", true, false, false, true, false);
    assert!(r.name_matches("report.txt"));
    assert!(!r.name_matches("Report.txt"));
}

#[test]
fn any_enabled_mode_matches() {
    let r = rules("log", true, true, true, false, false);
    assert!(r.file_matches("log_a.txt"));
    assert!(r.file_matches("a_log.txt"));
    assert!(r.file_matches("a.log"));
    assert!(!r.file_matches("a.txt"));
    let none = rules("log", false, false, false, false, false);
    assert!(!none.file_matches("log.log"));
}

#[test]
fn gate_auto_confirm_deletes_without_prompt() {
    assert_eq!(gate_action(true), GateAction::Delete);
    assert_eq!(gate_action(false), GateAction::Ask);
}

#[test]
fn declining_answers() {
    for a in ["n", "", "\n", "maybe", "yes", "N\n", "yy"] {
        assert!(!confirms(a));
        assert!(!answer_deletes(Some(a)));
    }
    assert!(!answer_deletes(None));
}

#[test]
fn accepting_answers() {
    for a in ["y", "Y", "  y \n", "Y\r\n"] {
        assert!(confirms(a));
        assert!(answer_deletes(Some(a)));
    }
    assert!(is_yes("y"));
    assert!(!is_yes("Y"));
}

#[test]
fn options_parse_flags() {
    let o = match Options::new(args(&["foo", "/tmp/x", "-sx", "--c", "y"])) {
        Ok(o) => o,
        Err(_) => panic!("expected options"),
    };
    assert_eq!(o.query(), "foo");
    assert_eq!(o.path(), "/tmp/x");
    assert!(o.start && o.ext && o.case_insensitive && o.no_ask);
    assert!(!o.end && !o.verbose && !o.multi_ext && !o.logging);
    assert!(!o.verbose_logging && !o.overwrite_logs);
    let o = match Options::new(args(&["q", "p", "-m", "-evlLo"])) {
        Ok(o) => o,
        Err(_) => panic!("expected options"),
    };
    assert!(o.multi_ext && o.end && o.verbose && o.logging && o.verbose_logging);
    assert!(o.overwrite_logs && !o.start);
}

#[test]
fn options_without_flags() {
    let o = match Options::new(args(&["q", "p"])) {
        Ok(o) => o,
        Err(_) => panic!("expected options"),
    };
    assert!(!o.start && !o.end && !o.ext && !o.no_ask);
}

#[test]
fn options_errors() {
    assert!(matches!(Options::new(args(&[])), Err(ConfigError::MissingArguments)));
    assert!(matches!(Options::new(args(&["foo"])), Err(ConfigError::MissingArguments)));
    assert!(matches!(Options::new(args(&["", "p"])), Err(ConfigError::EmptyQuery)));
    match Options::new(args(&["foo", "p", "-s", "-sq", "-z"])) {
        Err(ConfigError::UnknownFlag(f)) => assert_eq!(f, "-sq"),
        _ => panic!("expected an unknown flag"),
    }
}

#[test]
fn options_match_config_folds_query() {
    let o = match Options::new(args(&["ReP", "p", "-cs"])) {
        Ok(o) => o,
        Err(_) => panic!("expected options"),
    };
    let c = o.match_config();
    assert_eq!(c.query, "rep");
    assert!(c.start && c.case_insensitive && !c.end && !c.extension);
    let o = match Options::new(args(&["ReP", "p", "-s"])) {
        Ok(o) => o,
        Err(_) => panic!("expected options"),
    };
    assert_eq!(o.match_config().query, "ReP");
}

fn step_path(s: &Step) -> Option<(&'static str, String)> {
    match s {
        Step::Enter(p) => Some(("enter", p.clone())),
        Step::Matched(p) => Some(("matched", p.clone())),
        Step::NotMatched(p) => Some(("not", p.clone())),
        Step::Skipped(p) => Some(("skipped", p.clone())),
        Step::Unresolved(p) => Some(("unresolved", p.clone())),
        Step::Done => None,
    }
}

#[test]
fn end_to_end_walk() {
    let mut w = Walker::new("root".to_string(), rules("foo", true, false, false, false, false));
    let mut entered = Vec::new();
    let mut deleted = Vec::new();
    let mut untouched = Vec::new();
    loop {
        let s = w.step();
        match step_path(&s) {
            None => break,
            Some(("enter", p)) => {
                entered.push(p.clone());
                if p == "root" {
                    w.listed(vec![
                        entry("root/foo.txt", "foo.txt", EntryKind::File),
                        entry("root/bar.log", "bar.log", EntryKind::File),
                        entry("root/sub", "sub", EntryKind::Directory),
                    ]);
                } else if p == "root/sub" {
                    w.listed(vec![entry("root/sub/foo2.txt", "foo2.txt", EntryKind::File)]);
                }
            }
            Some(("matched", p)) => {
                if gate_action(true) == GateAction::Delete {
                    deleted.push(p);
                }
            }
            Some((_, p)) => untouched.push(p),
        }
    }
    assert_eq!(entered, vec!["root".to_string(), "root/sub".to_string()]);
    assert_eq!(deleted, vec!["root/foo.txt".to_string(), "root/sub/foo2.txt".to_string()]);
    assert_eq!(untouched, vec!["root/bar.log".to_string()]);
    assert!(w.is_done());
}

#[test]
fn unlistable_directory_keeps_siblings() {
    let mut w = Walker::new("root".to_string(), rules("txt", false, false, true, false, false));
    let mut found = Vec::new();
    let mut entered = Vec::new();
    loop {
        let s = w.step();
        match step_path(&s) {
            None => break,
            Some(("enter", p)) => {
                entered.push(p.clone());
                if p == "root" {
                    w.listed(vec![
                        entry("root/locked", "locked", EntryKind::Directory),
                        entry("root/open", "open", EntryKind::Directory),
                    ]);
                } else if p == "root/open" {
                    w.listed(vec![entry("root/open/a.txt", "a.txt", EntryKind::File)]);
                }
                // "root/locked" cannot be listed: nothing is handed over.
            }
            Some(("matched", p)) => found.push(p),
            Some(_) => {}
        }
    }
    assert_eq!(entered, vec!["root", "root/locked", "root/open"]);
    assert_eq!(found, vec!["root/open/a.txt".to_string()]);
}

#[test]
fn odd_entries_are_reported_not_fatal() {
    let mut w = Walker::new("r".to_string(), rules("a", true, false, false, false, false));
    assert!(matches!(w.step(), Step::Enter(_)));
    w.listed(vec![
        entry("r/dev", "dev", EntryKind::Other),
        entry("r/gone", "gone", EntryKind::Unknown),
        entry("r/a.txt", "a.txt", EntryKind::File),
    ]);
    assert_eq!(step_path(&w.step()), Some(("skipped", "r/dev".to_string())));
    assert_eq!(step_path(&w.step()), Some(("unresolved", "r/gone".to_string())));
    assert_eq!(step_path(&w.step()), Some(("matched", "r/a.txt".to_string())));
    assert!(matches!(w.step(), Step::Done));
    assert!(matches!(w.step(), Step::Done));
    assert_eq!(w.match_config().query, "a");
}
