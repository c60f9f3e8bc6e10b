use diary_sync::command::{CommandOutcome, GitStep};
use diary_sync::diary::Diary;
use diary_sync::handler::{post_diary, refusal, Response};
use diary_sync::middleware::exclusive_controler::{
    Admission, ExclusiveLocker, ExclusiveLockerMiddleware,
};
use diary_sync::sync::{Report, Sequencer, SyncAction, SyncError};

/// A stand-in for the machine: the files that were written and the commands
/// that were run, and the one step, if any, that is made to fail.
struct World {
    root_exists: bool,
    failing: Option<GitStep>,
    files: Vec<(String, String)>,
    commands: Vec<String>,
}

impl World {
    fn new() -> World {
        World { root_exists: true, failing: None, files: Vec::new(), commands: Vec::new() }
    }

    fn perform(&mut self, action: &SyncAction) -> Report {
        match action {
            SyncAction::Run { step, directory, args } => {
                assert_eq!(directory, "/srv/repo");
                if !self.root_exists {
                    return Report::SpawnFailed("No such file or directory (os error 2)".to_string());
                }
                self.commands.push(args.join(" "));
                let fails = self.failing == Some(*step);
                Report::Ran(CommandOutcome {
                    success: !fails,
                    stdout: Vec::new(),
                    stderr: if fails { b"fatal: <remote> unreachable".to_vec() } else { Vec::new() },
                })
            }
            SyncAction::Write { directory, path, content } => {
                assert!(path.starts_with(directory.as_str()));
                self.files.retain(|(p, _)| p != path);
                self.files.push((path.clone(), content.clone()));
                Report::Written
            }
            SyncAction::Finish(_) => panic!("nothing to perform"),
        }
    }

    fn synchronise(&mut self, record: &Diary) -> Result<(), SyncError> {
        let mut sequencer = Sequencer::start(Some("/srv/repo".to_string()), record);
        loop {
            let action = sequencer.action();
            if let SyncAction::Finish(outcome) = action {
                return outcome;
            }
            let report = self.perform(&action);
            sequencer.advance(report);
        }
    }

    fn submit(&mut self, guard: &ExclusiveLockerMiddleware<()>, record: &Diary) -> Response {
        let admission = guard.call("/diary", "POST");
        if !admission.is_served() {
            return refusal();
        }
        let response = post_diary(&self.synchronise(record));
        guard.complete(admission);
        response
    }
}

fn payload() -> Diary {
    Diary { title: "Test".to_string(), content: "Hello".to_string(), date: "2024-03-05".to_string() }
}

#[test]
fn submission_with_all_steps_succeeding() {
    let guard = ExclusiveLocker::default().new_transform(());
    let mut world = World::new();
    let response = world.submit(&guard, &payload());
    assert_eq!(response.status, 200);
    assert!(response.body.contains("updated!"));
    assert_eq!(
        world.files,
        vec![("/srv/repo/2024/03/05.md".to_string(), "---\ntitle: Test\n---\n\nHello".to_string())]
    );
    assert_eq!(
        world.commands,
        vec![
            "pull origin main",
            "add -A",
            "commit --all -m 2024/03/05 (from web)",
            "push origin HEAD",
        ]
    );
}

#[test]
fn submission_while_another_is_in_progress() {
    let locker = ExclusiveLocker::default();
    let first = locker.new_transform(());
    let second = locker.new_transform(());
    let mut world = World::new();

    let admission = first.call("/diary", "POST");
    assert_eq!(admission, Admission::Admitted);
    let mut sequencer = Sequencer::start(Some("/srv/repo".to_string()), &payload());
    let report = world.perform(&sequencer.action());
    sequencer.advance(report);

    let busy = world.submit(&second, &payload());
    assert_eq!(busy, Response { status: 503, body: "task is already running".to_string() });
    assert!(world.files.is_empty());
    assert_eq!(world.commands, vec!["pull origin main"]);

    let report = world.perform(&sequencer.action());
    sequencer.advance(report);
    assert_eq!(world.files.len(), 1);
    first.complete(admission);

    let again = world.submit(&second, &payload());
    assert_eq!(again.status, 200);
    assert_eq!(world.files.len(), 1);
}

#[test]
fn repository_that_does_not_exist() {
    let guard = ExclusiveLocker::default().new_transform(());
    let mut world = World::new();
    world.root_exists = false;
    let response = world.submit(&guard, &payload());
    assert_eq!(
        response,
        Response { status: 500, body: "No such file or directory (os error 2)".to_string() }
    );
    assert!(world.files.is_empty());
    assert!(world.commands.is_empty());

    world.root_exists = true;
    let response = world.submit(&guard, &payload());
    assert_eq!(response.status, 200);
    assert_eq!(world.files.len(), 1);
}

#[test]
fn publish_that_fails() {
    let guard = ExclusiveLocker::default().new_transform(());
    let mut world = World::new();
    world.failing = Some(GitStep::Publish);
    let response = world.submit(&guard, &payload());
    assert_eq!(response.status, 500);
    assert!(response.body.contains("<h3>failed to run command: git push origin HEAD</h3>"));
    assert!(response.body.contains("<pre><code>fatal: &lt;remote&gt; unreachable</code></pre>"));
    assert_eq!(world.files.len(), 1);
    assert_eq!(
        world.commands,
        vec![
            "pull origin main",
            "add -A",
            "commit --all -m 2024/03/05 (from web)",
            "push origin HEAD",
        ]
    );
    assert_eq!(guard.call("/diary", "POST"), Admission::Admitted);
}

#[test]
fn update_that_fails_leaves_no_file() {
    let guard = ExclusiveLocker::default().new_transform(());
    let mut world = World::new();
    world.failing = Some(GitStep::Update);
    let response = world.submit(&guard, &payload());
    assert_eq!(response.status, 500);
    assert!(response.body.contains("failed to run command: git pull origin main"));
    assert!(world.files.is_empty());
    assert_eq!(world.commands, vec!["pull origin main"]);
    assert_eq!(guard.call("/diary", "POST"), Admission::Admitted);
}

#[test]
fn malformed_date_touches_nothing() {
    let guard = ExclusiveLocker::default().new_transform(());
    let mut world = World::new();
    let mut record = payload();
    record.date = "2024-3-5".to_string();
    let response = world.submit(&guard, &record);
    assert_eq!(response.status, 400);
    assert!(world.files.is_empty());
    assert!(world.commands.is_empty());
    assert_eq!(guard.call("/diary", "POST"), Admission::Admitted);
}

#[test]
fn second_submission_overwrites_the_file() {
    let guard = ExclusiveLocker::default().new_transform(());
    let mut world = World::new();
    assert_eq!(world.submit(&guard, &payload()).status, 200);
    let mut record = payload();
    record.content = "Hello again".to_string();
    assert_eq!(world.submit(&guard, &record).status, 200);
    assert_eq!(
        world.files,
        vec![(
            "/srv/repo/2024/03/05.md".to_string(),
            "---\ntitle: Test\n---\n\nHello again".to_string()
        )]
    );
}
