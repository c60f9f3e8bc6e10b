use diary_sync::command::{command_line, GitStep};

fn strings(parts: &[&str]) -> Vec<String> {
    parts.iter().map(|p| p.to_string()).collect()
}

#[test]
fn update_pulls_main_from_origin() {
    assert_eq!(GitStep::Update.args("ignored"), strings(&["pull", "origin", "main"]));
}

#[test]
fn stage_adds_everything() {
    assert_eq!(GitStep::Stage.args("ignored"), strings(&["add", "-A"]));
}

#[test]
fn commit_carries_the_message() {
    assert_eq!(
        GitStep::Commit.args("2024/03/05 (from web)"),
        strings(&["commit", "--all", "-m", "2024/03/05 (from web)"])
    );
}

#[test]
fn publish_pushes_head_to_origin() {
    assert_eq!(GitStep::Publish.args("ignored"), strings(&["push", "origin", "HEAD"]));
}

#[test]
fn command_line_joins_with_single_spaces() {
    assert_eq!(command_line(&strings(&["push", "origin", "HEAD"])), "git push origin HEAD");
    assert_eq!(command_line(&strings(&["add", "-A"])), "git add -A");
    assert_eq!(command_line(&strings(&["status"])), "git status");
}

#[test]
fn command_line_without_arguments() {
    assert_eq!(command_line(&Vec::new()), "git ");
}

#[test]
fn command_line_keeps_arguments_as_they_are() {
    assert_eq!(
        command_line(&strings(&["commit", "--all", "-m", "2024/03/05 (from web)"])),
        "git commit --all -m 2024/03/05 (from web)"
    );
    assert_eq!(command_line(&strings(&["", "a", ""])), "git  a ");
}
