use alacritree::herdr::model::{match_workspace, pane_key, unattached, Status};
use alacritree::herdr::poll::rendered_differs;
use alacritree::multiplexer::listing::{draw_rows, find_listed};
use alacritree::multiplexer::model::{MultiplexerKind, Pane, PaneStatus};
use alacritree::side::{Platform, Side};

fn agent(id: &str, status: PaneStatus) -> Pane {
    Pane {
        terminal_id: id.into(),
        pane_id: "w1:p1".into(),
        tab_id: Some("w1:t1".into()),
        kind: Some("amp".into()),
        title: None,
        status: Some(status),
        focused: false,
        cwd: Some("/repo".into()),
        foreground_cwd: None,
    }
}

fn at(cwd: &str, foreground: Option<&str>) -> Pane {
    Pane {
        terminal_id: "t1".into(),
        pane_id: "w1:p1".into(),
        tab_id: Some("w1:t1".into()),
        kind: None,
        title: None,
        status: Some(PaneStatus::Idle),
        focused: false,
        cwd: Some(cwd.into()),
        foreground_cwd: foreground.map(str::to_string),
    }
}

/// The workspace of an agent on the native side.
fn native(agent: &Pane, workspaces: &Vec<String>) -> Option<String> {
    match_workspace(agent, &Side::Native, None, workspaces, Platform::Unix)
}

/// The workspace of an agent in a distro whose directory Windows sees as
/// `translated`.
fn in_distro(agent: &Pane, translated: &str, workspaces: &Vec<String>) -> Option<String> {
    let side = Side::Wsl("kali-linux".into());
    match_workspace(agent, &side, Some(translated), workspaces, Platform::Windows)
}

#[test]
fn model_prefers_foreground_cwd_when_present() {
    let spaces = vec!["/a".to_string(), "/b".to_string()];
    let matched = native(&at("/a", Some("/b")), &spaces);
    assert_eq!(matched, Some("/b".to_string()));
}

#[test]
fn model_falls_back_to_cwd_when_foreground_is_absent() {
    let spaces = vec!["/a".to_string()];
    assert_eq!(native(&at("/a/src", None), &spaces), Some("/a".to_string()));
}

#[test]
fn model_takes_the_longest_matching_prefix() {
    let spaces = vec!["/a".to_string(), "/a/nested".to_string()];
    let matched = native(&at("/a/nested/src", None), &spaces);
    assert_eq!(matched, Some("/a/nested".to_string()));
}

/// Component-wise, so a sibling sharing a string prefix never matches.
#[test]
fn model_a_sibling_with_a_shared_prefix_does_not_match() {
    let spaces = vec!["/repo".to_string()];
    assert_eq!(native(&at("/repo-other", None), &spaces), None);
}

#[test]
fn model_an_unmatched_agent_has_no_workspace() {
    let spaces = vec!["/a".to_string()];
    assert_eq!(native(&at("/elsewhere", None), &spaces), None);
}

#[test]
fn herdr_prefers_foreground_cwd_when_present() {
    let spaces = vec!["/a".to_string(), "/b".to_string()];
    let matched = native(&at("/a", Some("/b")), &spaces);
    assert_eq!(matched, Some("/b".to_string()));
}

#[test]
fn herdr_falls_back_to_cwd_when_foreground_is_absent() {
    let spaces = vec!["/a".to_string()];
    assert_eq!(native(&at("/a/src", None), &spaces), Some("/a".to_string()));
}

#[test]
fn herdr_takes_the_longest_matching_prefix() {
    let spaces = vec!["/a".to_string(), "/a/nested".to_string()];
    let matched = native(&at("/a/nested/src", None), &spaces);
    assert_eq!(matched, Some("/a/nested".to_string()));
}

/// Component-wise, so a sibling sharing a string prefix never matches.
#[test]
fn herdr_a_sibling_with_a_shared_prefix_does_not_match() {
    let spaces = vec!["/repo".to_string()];
    assert_eq!(native(&at("/repo-other", None), &spaces), None);
}

#[test]
fn herdr_an_unmatched_agent_has_no_workspace() {
    let spaces = vec!["/a".to_string()];
    assert_eq!(native(&at("/elsewhere", None), &spaces), None);
}

#[test]
fn an_unmatched_pane_has_no_workspace() {
    let spaces = vec!["/a".to_string()];
    assert_eq!(native(&at("/elsewhere", None), &spaces), None);
}

#[test]
fn model_status_label_names_each_variant() {
    assert_eq!(PaneStatus::Idle.label(), "idle");
    assert_eq!(PaneStatus::Working.label(), "working");
    assert_eq!(PaneStatus::Blocked.label(), "blocked");
    assert_eq!(PaneStatus::Done.label(), "done");
    assert_eq!(PaneStatus::Unknown.label(), "unknown");
}

#[test]
fn model_an_attached_agent_yields_no_row() {
    let agents = vec![agent("t1", PaneStatus::Idle), agent("t2", PaneStatus::Working)];
    let claimed = vec![pane_key(Side::Native, "t1".into())];
    let rows = unattached(&agents, &Side::Native, &claimed);
    assert_eq!(rows.len(), 1);
    assert_eq!(rows[0].terminal_id, "t2");
}

#[test]
fn model_detaching_brings_the_row_back() {
    let agents = vec![agent("t1", PaneStatus::Idle)];
    assert_eq!(unattached(&agents, &Side::Native, &vec![]).len(), 1);
}

/// Terminal ids are unique only within one server, so a claim on one side
/// must not hide the same id on another.
#[test]
fn model_a_claim_on_one_side_does_not_hide_the_other_side() {
    let agents = vec![agent("t1", PaneStatus::Idle)];
    let claimed = vec![pane_key(Side::Wsl("d".into()), "t1".into())];
    assert_eq!(unattached(&agents, &Side::Native, &claimed).len(), 1);
}

#[test]
fn herdr_status_label_names_each_variant() {
    assert_eq!(Status::Idle.label(), "idle");
    assert_eq!(Status::Working.label(), "working");
    assert_eq!(Status::Blocked.label(), "blocked");
    assert_eq!(Status::Done.label(), "done");
    assert_eq!(Status::Unknown.label(), "unknown");
}

#[test]
fn herdr_an_unchanged_agent_list_is_not_a_change() {
    let was = vec![agent("t1", Status::Idle)];
    assert!(!rendered_differs(&was, &was));
}

#[test]
fn herdr_a_status_change_counts() {
    let was = vec![agent("t1", Status::Idle)];
    let now = vec![agent("t1", Status::Working)];
    assert!(rendered_differs(&was, &now));
}

#[test]
fn herdr_an_attached_agent_yields_no_row() {
    let agents = vec![agent("t1", Status::Idle), agent("t2", Status::Working)];
    let claimed = vec![pane_key(Side::Native, "t1".into())];
    let rows = unattached(&agents, &Side::Native, &claimed);
    assert_eq!(rows.len(), 1);
    assert_eq!(rows[0].terminal_id, "t2");
}

#[test]
fn herdr_detaching_brings_the_row_back() {
    let agents = vec![agent("t1", Status::Idle)];
    assert_eq!(unattached(&agents, &Side::Native, &vec![]).len(), 1);
}

/// Terminal ids are unique only within one server, so a claim on one side
/// must not hide the same id on another.
#[test]
fn herdr_a_claim_on_one_side_does_not_hide_the_other_side() {
    let agents = vec![agent("t1", Status::Idle)];
    let claimed = vec![pane_key(Side::Wsl("d".into()), "t1".into())];
    assert_eq!(unattached(&agents, &Side::Native, &claimed).len(), 1);
}

#[test]
fn poll_an_unchanged_agent_list_is_not_a_change() {
    let was = vec![agent("t1", PaneStatus::Idle)];
    assert!(!rendered_differs(&was, &was));
}

#[test]
fn poll_a_status_change_counts() {
    let was = vec![agent("t1", PaneStatus::Idle)];
    let now = vec![agent("t1", PaneStatus::Working)];
    assert!(rendered_differs(&was, &now));
}

#[test]
fn herdr_windows_prefixes_compare_case_insensitively() {
    let spaces = vec![r"C:\Users\Dev\repo".to_string()];
    let pane = at(r"c:\users\dev\repo\src", None);
    let matched =
        match_workspace(&pane, &Side::Native, None, &spaces, Platform::Windows);
    assert_eq!(matched, Some(r"C:\Users\Dev\repo".to_string()));
}

#[test]
fn model_windows_prefixes_compare_case_insensitively() {
    let spaces = vec![r"C:\Users\Dev\repo".to_string()];
    let pane = at(r"c:\users\dev\repo\src", None);
    let matched =
        match_workspace(&pane, &Side::Native, None, &spaces, Platform::Windows);
    assert_eq!(matched, Some(r"C:\Users\Dev\repo".to_string()));
}

#[test]
fn herdr_wsl_agent_matches_by_the_translated_windows_path() {
    let workspace = r"C:\Users\dev\repo".to_string();
    let spaces = vec![workspace.clone()];
    assert_eq!(
        in_distro(&at("/mnt/c/Users/dev/repo/src", None), r"C:\Users\dev\repo\src", &spaces),
        Some(workspace)
    );
}

#[test]
fn model_wsl_agent_matches_by_the_translated_windows_path() {
    let workspace = r"C:\Users\dev\repo".to_string();
    let spaces = vec![workspace.clone()];
    assert_eq!(
        in_distro(&at("/mnt/c/Users/dev/repo/src", None), r"C:\Users\dev\repo\src", &spaces),
        Some(workspace)
    );
}

#[test]
fn a_wsl_pane_matches_by_the_translated_windows_path() {
    let workspace = r"C:\Users\dev\repo".to_string();
    let spaces = vec![workspace.clone()];
    assert_eq!(
        in_distro(&at("/mnt/c/Users/dev/repo/src", None), r"C:\Users\dev\repo\src", &spaces),
        Some(workspace)
    );
}

#[test]
fn herdr_a_wsl_agent_outside_every_workspace_still_has_none() {
    let spaces = vec![r"C:\Users\dev\repo".to_string()];
    assert_eq!(in_distro(&at("/mnt/d/elsewhere", None), r"D:\elsewhere", &spaces), None);
}

#[test]
fn model_a_wsl_agent_outside_every_workspace_still_has_none() {
    let spaces = vec![r"C:\Users\dev\repo".to_string()];
    assert_eq!(in_distro(&at("/mnt/d/elsewhere", None), r"D:\elsewhere", &spaces), None);
}

#[test]
fn a_wsl_pane_outside_every_workspace_still_has_none() {
    let spaces = vec![r"C:\Users\dev\repo".to_string()];
    assert_eq!(in_distro(&at("/mnt/d/elsewhere", None), r"D:\elsewhere", &spaces), None);
}

#[test]
fn a_pane_that_reports_nothing_has_no_workspace() {
    let mut pane = at("/a", None);
    pane.cwd = None;
    assert_eq!(pane.reported_directory(), None);
    assert_eq!(native(&pane, &vec!["/".to_string()]), None);
    pane.foreground_cwd = Some("  ".into());
    assert_eq!(pane.working_directory(), None);
    assert_eq!(pane.reported_directory(), Some("  "));
}

#[test]
fn a_claimed_pane_gets_no_row() {
    let mut panes = vec![agent("t1", PaneStatus::Idle), agent("t2", PaneStatus::Idle)];
    panes[1].cwd = Some("/elsewhere".into());
    let side = Side::Native;
    let list: Vec<(&Side, &Pane)> = panes.iter().map(|pane| (&side, pane)).collect();
    let directories = vec![None, None];
    let claimed = vec![pane_key(Side::Native, "t1".into())];
    let spaces = vec!["/repo".to_string()];
    let draw = |claimed, unmatched| {
        draw_rows(
            &list,
            &directories,
            MultiplexerKind::Herdr,
            claimed,
            &spaces,
            Platform::Unix,
            unmatched,
        )
    };
    let none = vec![];
    let rows = draw(&none, false);
    assert_eq!(rows.len(), 1);
    assert_eq!(rows[0].workspace.as_deref(), Some("/repo"));
    assert_eq!(draw(&claimed, false).len(), 0);
    let rows = draw(&claimed, true);
    assert_eq!(rows.len(), 1);
    assert_eq!((rows[0].key.terminal_id.as_str(), &rows[0].workspace), ("t2", &None));
    assert_eq!(find_listed(&panes, "t2"), Some(1));
    assert_eq!(find_listed(&panes, "t3"), None);
}

/// The workspace of a pane on the native side.
fn pane_native(pane: &Pane, workspaces: &Vec<String>) -> Option<String> {
    pane.workspace(&Side::Native, None, workspaces, Platform::Unix)
}

#[test]
fn pane_prefers_foreground_cwd_when_present() {
    let spaces = vec!["/a".to_string(), "/b".to_string()];
    let matched = pane_native(&at("/a", Some("/b")), &spaces);
    assert_eq!(matched, Some("/b".to_string()));
}

#[test]
fn pane_falls_back_to_cwd_when_foreground_is_absent() {
    let spaces = vec!["/a".to_string()];
    assert_eq!(pane_native(&at("/a/src", None), &spaces), Some("/a".to_string()));
}

#[test]
fn pane_takes_the_longest_matching_prefix() {
    let spaces = vec!["/a".to_string(), "/a/nested".to_string()];
    let matched = pane_native(&at("/a/nested/src", None), &spaces);
    assert_eq!(matched, Some("/a/nested".to_string()));
}

/// Component-wise, so a sibling sharing a string prefix never matches.
#[test]
fn pane_a_sibling_with_a_shared_prefix_does_not_match() {
    let spaces = vec!["/repo".to_string()];
    assert_eq!(pane_native(&at("/repo-other", None), &spaces), None);
}

#[test]
fn pane_windows_prefixes_compare_case_insensitively() {
    let spaces = vec![r"C:\Users\Dev\repo".to_string()];
    let pane = at(r"c:\users\dev\repo\src", None);
    let matched = pane.workspace(&Side::Native, None, &spaces, Platform::Windows);
    assert_eq!(matched, Some(r"C:\Users\Dev\repo".to_string()));
}
