use grok_core::tools::executors::fs::simple_edit::{
    exactly_once, plan_edits, CommitAction, DiskEntry, DiskSnapshot, ReadOutcome,
    SimpleEditPlanner, StatOutcome,
};
use grok_core::tools::types::SimpleEditOp;

fn disk(entries: Vec<(&str, Option<&str>)>) -> DiskSnapshot {
    DiskSnapshot {
        entries: entries
            .into_iter()
            .map(|(path, contents)| DiskEntry {
                path: path.to_string(),
                contents: match contents {
                    Some(text) => ReadOutcome::Contents(text.to_string()),
                    None => ReadOutcome::Missing,
                },
                exists: match contents {
                    Some(_) => StatOutcome::Exists,
                    None => StatOutcome::Missing,
                },
            })
            .collect(),
    }
}

#[test]
fn exactly_once_finds_the_single_occurrence() {
    assert_eq!(exactly_once("abc def", "def"), Ok(4));
    assert_eq!(exactly_once("abc", ""), Err("anchor ambiguous (found >1)".to_string()));
    assert_eq!(exactly_once("", ""), Ok(0));
}

#[test]
fn exactly_once_rejects_missing_and_repeated_anchors() {
    assert_eq!(exactly_once("abc", "x"), Err("anchor not found".to_string()));
    assert_eq!(
        exactly_once("TODO one TODO two", "TODO"),
        Err("anchor ambiguous (found >1)".to_string())
    );
    assert_eq!(exactly_once("aaa", "aa"), Err("anchor ambiguous (found >1)".to_string()));
}

#[test]
fn anchored_replace_changes_the_one_occurrence() {
    let start = "fn main() {\n    println!(\"x\");\n}\n";
    let ops = vec![SimpleEditOp::ReplaceOnce {
        path: "main.rs".to_string(),
        find: "println!(\"x\");".to_string(),
        replace: "println!(\"y\");".to_string(),
    }];
    let planner = plan_edits(false, &ops, &disk(vec![("main.rs", Some(start))])).unwrap();
    let actions = planner.commit_actions();
    assert_eq!(actions.len(), 1);
    match &actions[0] {
        CommitAction::Write { path, contents } => {
            assert_eq!(path, "main.rs");
            assert_eq!(contents, "fn main() {\n    println!(\"y\");\n}\n");
            assert_eq!(contents.matches("println!(\"y\");").count(), 1);
            assert!(!contents.contains("println!(\"x\");"));
        }
        other => panic!("unexpected action {:?}", other),
    }
    let summary = planner.finish(Ok(())).unwrap();
    assert_eq!(
        summary,
        "Edits applied successfully.\nModified files: main.rs\nOperations:\n  - replace_once main.rs\nBytes added: 0\nBytes removed: 0"
    );
}

#[test]
fn ambiguous_anchor_fails_the_plan() {
    let ops = vec![SimpleEditOp::ReplaceOnce {
        path: "notes.txt".to_string(),
        find: "TODO".to_string(),
        replace: "DONE".to_string(),
    }];
    let result = plan_edits(false, &ops, &disk(vec![("notes.txt", Some("TODO a\nTODO b\n"))]));
    match result {
        Err(e) => assert!(e.contains("anchor ambiguous")),
        Ok(_) => panic!("the plan must fail"),
    }
}

#[test]
fn dry_run_has_no_action_and_a_summary() {
    let ops = vec![
        SimpleEditOp::SetFile { path: "b.txt".to_string(), contents: "hello\r\nworld\r".to_string() },
        SimpleEditOp::SetFile { path: "a.txt".to_string(), contents: "x".to_string() },
        SimpleEditOp::DeleteFile { path: "old.txt".to_string() },
        SimpleEditOp::RenameFile { path: "from.txt".to_string(), to: "to.txt".to_string() },
    ];
    let snapshot = disk(vec![
        ("a.txt", None),
        ("b.txt", None),
        ("old.txt", Some("12345")),
        ("from.txt", Some("abc")),
        ("to.txt", None),
    ]);
    let planner = plan_edits(true, &ops, &snapshot).unwrap();
    assert!(planner.is_dry_run());
    assert!(planner.commit_actions().is_empty());
    let summary = planner.finish(Err("never looked at".to_string())).unwrap();
    assert_eq!(
        summary,
        "Dry run: no changes were written.\nCreated files: a.txt, b.txt\nDeleted files: old.txt\nRenamed files:\n  from.txt -> to.txt\nOperations:\n  - set_file b.txt\n  - set_file a.txt\n  - delete_file old.txt\n  - rename_file from.txt -> to.txt\nBytes added: 13\nBytes removed: 5"
    );
}

#[test]
fn commit_renames_first_then_writes_and_removes_in_path_order() {
    let ops = vec![
        SimpleEditOp::SetFile { path: "z.txt".to_string(), contents: "z".to_string() },
        SimpleEditOp::RenameFile { path: "m.txt".to_string(), to: "n.txt".to_string() },
        SimpleEditOp::InsertAfter {
            path: "n.txt".to_string(),
            anchor: "one".to_string(),
            insert: " two".to_string(),
        },
        SimpleEditOp::DeleteFile { path: "c.txt".to_string() },
        SimpleEditOp::InsertBefore {
            path: "a.txt".to_string(),
            anchor: "b".to_string(),
            insert: "a".to_string(),
        },
    ];
    let snapshot = disk(vec![
        ("z.txt", None),
        ("m.txt", Some("one")),
        ("n.txt", None),
        ("c.txt", Some("c")),
        ("a.txt", Some("b")),
    ]);
    let planner = plan_edits(false, &ops, &snapshot).unwrap();
    let shown: Vec<String> = planner
        .commit_actions()
        .iter()
        .map(|a| match a {
            CommitAction::Rename { from, to } => format!("rename {} {}", from, to),
            CommitAction::Write { path, contents } => format!("write {} {}", path, contents),
            CommitAction::Remove { path } => format!("remove {}", path),
        })
        .collect();
    assert_eq!(
        shown,
        vec!["rename m.txt n.txt", "write a.txt ab", "remove c.txt", "write n.txt one two", "write z.txt z"]
    );
}

#[test]
fn plan_errors_name_the_reason() {
    let snapshot = disk(vec![("here.txt", Some("x")), ("gone.txt", None), ("other.txt", Some("y"))]);
    let cases: Vec<(SimpleEditOp, &str)> = vec![
        (SimpleEditOp::DeleteFile { path: "gone.txt".to_string() }, "File not found: gone.txt"),
        (
            SimpleEditOp::RenameFile { path: "here.txt".to_string(), to: "here.txt".to_string() },
            "Source and destination paths are the same",
        ),
        (
            SimpleEditOp::RenameFile { path: "here.txt".to_string(), to: "other.txt".to_string() },
            "Target already exists: other.txt",
        ),
        (
            SimpleEditOp::InsertBefore {
                path: "here.txt".to_string(),
                anchor: "q".to_string(),
                insert: "r".to_string(),
            },
            "anchor not found",
        ),
    ];
    for (op, expected) in cases {
        match plan_edits(false, &vec![op], &snapshot) {
            Err(e) => assert_eq!(e, expected),
            Ok(_) => panic!("expected {}", expected),
        }
    }
    let twice = vec![
        SimpleEditOp::DeleteFile { path: "here.txt".to_string() },
        SimpleEditOp::DeleteFile { path: "here.txt".to_string() },
    ];
    match plan_edits(false, &twice, &snapshot) {
        Err(e) => assert_eq!(e, "File already deleted: here.txt"),
        Ok(_) => panic!("expected an error"),
    }
    let after_delete = vec![
        SimpleEditOp::DeleteFile { path: "here.txt".to_string() },
        SimpleEditOp::ReplaceOnce {
            path: "here.txt".to_string(),
            find: "x".to_string(),
            replace: "y".to_string(),
        },
    ];
    match plan_edits(false, &after_delete, &snapshot) {
        Err(e) => assert_eq!(e, "File has been deleted: here.txt"),
        Ok(_) => panic!("expected an error"),
    }
}

#[test]
fn read_failures_are_reported_with_the_path() {
    let snapshot = DiskSnapshot {
        entries: vec![DiskEntry {
            path: "dir".to_string(),
            contents: ReadOutcome::Failed("Is a directory".to_string()),
            exists: StatOutcome::Exists,
        }],
    };
    let ops = vec![SimpleEditOp::DeleteFile { path: "dir".to_string() }];
    match plan_edits(false, &ops, &snapshot) {
        Err(e) => assert_eq!(e, "Failed to read file dir: Is a directory"),
        Ok(_) => panic!("expected an error"),
    }
}

#[test]
fn a_path_stands_in_one_class_only() {
    let ops = vec![
        SimpleEditOp::SetFile { path: "new.txt".to_string(), contents: "one".to_string() },
        SimpleEditOp::ReplaceOnce {
            path: "new.txt".to_string(),
            find: "one".to_string(),
            replace: "two".to_string(),
        },
        SimpleEditOp::SetFile { path: "old.txt".to_string(), contents: "changed".to_string() },
        SimpleEditOp::DeleteFile { path: "old.txt".to_string() },
        SimpleEditOp::RenameFile { path: "kept.txt".to_string(), to: "moved.txt".to_string() },
        SimpleEditOp::SetFile { path: "moved.txt".to_string(), contents: "abcd".to_string() },
    ];
    let snapshot = disk(vec![
        ("new.txt", None),
        ("old.txt", Some("was")),
        ("kept.txt", Some("abc")),
        ("moved.txt", None),
    ]);
    let planner = plan_edits(true, &ops, &snapshot).unwrap();
    let summary = planner.finish(Ok(())).unwrap();
    let line = |label: &str| -> Vec<String> {
        summary
            .lines()
            .find(|l| l.starts_with(label))
            .map(|l| l[label.len()..].split(", ").map(|p| p.to_string()).collect())
            .unwrap_or_default()
    };
    let created = line("Created files: ");
    let modified = line("Modified files: ");
    let deleted = line("Deleted files: ");
    assert_eq!(created, vec!["new.txt"]);
    assert_eq!(modified, vec!["moved.txt"]);
    assert_eq!(deleted, vec!["old.txt"]);
    for path in created.iter() {
        assert!(!modified.contains(path) && !deleted.contains(path));
    }
    for path in modified.iter() {
        assert!(!deleted.contains(path));
    }
}

#[test]
fn a_failed_anchor_leaves_the_planned_contents() {
    let snapshot = disk(vec![("a.txt", Some("TODO one\nTODO two\n"))]);
    let mut planner = SimpleEditPlanner::new(false);
    let op = SimpleEditOp::ReplaceOnce {
        path: "a.txt".to_string(),
        find: "TODO".to_string(),
        replace: "DONE".to_string(),
    };
    assert_eq!(planner.apply_op(&op, &snapshot).unwrap_err(), "anchor ambiguous (found >1)");
    assert_eq!(planner.current_string("a.txt").unwrap(), "TODO one\nTODO two\n");
    assert!(planner.commit_actions().is_empty());
    let missing = SimpleEditOp::InsertAfter {
        path: "a.txt".to_string(),
        anchor: "absent".to_string(),
        insert: "x".to_string(),
    };
    assert_eq!(planner.apply_op(&missing, &snapshot).unwrap_err(), "anchor not found");
    assert_eq!(planner.current_string("a.txt").unwrap(), "TODO one\nTODO two\n");
    let fine = SimpleEditOp::ReplaceOnce {
        path: "a.txt".to_string(),
        find: "TODO one".to_string(),
        replace: "DONE one".to_string(),
    };
    assert!(planner.apply_op(&fine, &snapshot).is_ok());
    assert_eq!(planner.current_string("a.txt").unwrap(), "DONE one\nTODO two\n");
}
