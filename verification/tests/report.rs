use pkg_inspect::detect::{LockfileProbe, PackageManagerType};
use pkg_inspect::present::{
    command_lines, inspect_dir, manifest_command_lines, package_manager_line, report, Inspection,
    Line, Style,
};
use pkg_inspect::manifest::parse_manifest;
use pkg_inspect::search::{find_manifest_index, try_dir};

fn probe(package_lock: bool, yarn_lock: bool, pnpm_lock: bool) -> LockfileProbe {
    LockfileProbe { package_lock, yarn_lock, pnpm_lock }
}

fn line_text(line: &Line) -> String {
    let texts: Vec<String> = line.parts.iter().map(|s| s.text.clone()).collect();
    texts.join(" ")
}

#[test]
fn nearest_manifest_wins() {
    // A manifest two levels up, and another farther out: the nearest is taken.
    let has = vec![false, false, true, false, true];
    assert_eq!(find_manifest_index(&has), Some(2));
}

#[test]
fn manifest_in_working_directory_wins() {
    let has = vec![true, true];
    assert_eq!(find_manifest_index(&has), Some(0));
}

#[test]
fn no_manifest_anywhere() {
    let has = vec![false, false, false];
    assert_eq!(find_manifest_index(&has), None);
    let lines = report(None);
    assert_eq!(lines.len(), 1);
    assert_eq!(lines[0].parts.len(), 1);
    assert_eq!(lines[0].parts[0].style, Style::Warning);
    assert_eq!(lines[0].parts[0].text, "No package.json found");
}

#[test]
fn try_dir_joins_the_manifest_name() {
    assert_eq!(try_dir("/a/b", true), Some("/a/b/package.json".to_string()));
    assert_eq!(try_dir("/", true), Some("/package.json".to_string()));
    assert_eq!(try_dir("/a/b", false), None);
}

#[test]
fn npm_wins_the_lockfile_tie() {
    let r = PackageManagerType::detect_from_path(&probe(true, true, false));
    assert_eq!(r, Some(PackageManagerType::Npm));
    let r = PackageManagerType::detect_from_path(&probe(true, true, true));
    assert_eq!(r, Some(PackageManagerType::Npm));
}

#[test]
fn yarn_beats_pnpm() {
    let r = PackageManagerType::detect_from_path(&probe(false, true, true));
    assert_eq!(r, Some(PackageManagerType::Yarn));
}

#[test]
fn pnpm_alone_is_detected() {
    let r = PackageManagerType::detect_from_path(&probe(false, false, true));
    assert_eq!(r, Some(PackageManagerType::Pnpm));
}

#[test]
fn no_lockfile_reports_no_package_manager() {
    assert_eq!(PackageManagerType::detect_from_path(&probe(false, false, false)), None);
    let line = package_manager_line(&probe(false, false, false));
    assert_eq!(line_text(&line), "No package manager found");
    assert_eq!(line.parts[0].style, Style::Manager);
}

#[test]
fn manager_line_names_the_lockfile() {
    assert_eq!(line_text(&package_manager_line(&probe(true, false, false))), "NPM lockfile found");
    assert_eq!(line_text(&package_manager_line(&probe(false, true, false))), "Yarn lockfile found");
    assert_eq!(line_text(&package_manager_line(&probe(false, false, true))), "PNPM lockfile found");
}

#[test]
fn commands_are_listed_under_a_header() {
    let text = r#"{"name":"x","scripts":{"build":"tsc","test":"jest"}}"#.to_string();
    let m = parse_manifest(&text).expect("manifest should parse");
    let lines = manifest_command_lines(&m);
    assert_eq!(lines.len(), 3);
    assert_eq!(lines[0].parts[0].style, Style::Header);
    assert_eq!(lines[0].parts[0].text, "Available Commands");
    let mut pairs: Vec<(String, String)> = lines[1..]
        .iter()
        .map(|l| (l.parts[0].text.clone(), l.parts[1].text.clone()))
        .collect();
    pairs.sort();
    assert_eq!(
        pairs,
        vec![
            ("build".to_string(), "tsc".to_string()),
            ("test".to_string(), "jest".to_string()),
        ]
    );
    assert_eq!(lines[1].parts[0].style, Style::CommandName);
    assert_eq!(lines[1].parts[1].style, Style::CommandText);
}

#[test]
fn no_scripts_field_reports_no_commands() {
    let text = r#"{"name":"x"}"#.to_string();
    let lines = command_lines(Some(&text));
    assert_eq!(lines.len(), 1);
    assert_eq!(lines[0].parts[0].style, Style::Failure);
    assert_eq!(lines[0].parts[0].text, "No commands found");
}

#[test]
fn empty_scripts_reports_no_commands() {
    let text = r#"{"name":"x","scripts":{}}"#.to_string();
    let lines = command_lines(Some(&text));
    assert_eq!(lines.len(), 1);
    assert_eq!(lines[0].parts[0].text, "No commands found");
}

#[test]
fn invalid_manifest_reports_a_diagnostic() {
    let text = r#"{"name": 123}"#.to_string();
    let lines = command_lines(Some(&text));
    assert_eq!(lines.len(), 2);
    assert_eq!(lines[0].parts[0].style, Style::Failure);
    assert_eq!(lines[0].parts[0].text, "package.json is not valid JSON");
    assert_eq!(lines[1].parts[0].style, Style::FailureDetail);
    assert!(!lines[1].parts[0].text.is_empty());
}

#[test]
fn broken_json_reports_a_diagnostic() {
    let text = "{nope".to_string();
    let lines = command_lines(Some(&text));
    assert_eq!(lines.len(), 2);
    assert_eq!(lines[0].parts[0].text, "package.json is not valid JSON");
    assert!(!lines[1].parts[0].text.is_empty());
}

#[test]
fn unreadable_manifest_is_reported() {
    let lines = command_lines(None);
    assert_eq!(lines.len(), 1);
    assert_eq!(lines[0].parts[0].style, Style::Failure);
    assert_eq!(lines[0].parts[0].text, "package.json could not be read");
}

#[test]
fn inspect_dir_leads_with_the_manager_line() {
    let lines = inspect_dir(&probe(false, true, false), None);
    assert_eq!(lines.len(), 2);
    assert_eq!(line_text(&lines[0]), "Yarn lockfile found");
    assert_eq!(line_text(&lines[1]), "package.json could not be read");
}

#[test]
fn full_report_for_a_found_manifest() {
    let found = Inspection {
        dir: "/home/me/project".to_string(),
        probe: probe(true, false, false),
        content: Some(r#"{"name":"x","scripts":{"build":"tsc"}}"#.to_string()),
    };
    let lines = report(Some(&found));
    assert_eq!(lines.len(), 4);
    assert_eq!(lines[0].parts[0].style, Style::Directory);
    assert_eq!(lines[0].parts[0].text, "/home/me/project");
    assert_eq!(line_text(&lines[1]), "NPM lockfile found");
    assert_eq!(line_text(&lines[2]), "Available Commands");
    assert_eq!(line_text(&lines[3]), "build tsc");
}
