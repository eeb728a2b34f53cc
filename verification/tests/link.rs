use ggufy::link::{
    link_ok, link_step, symlink_into_guffy, symlink_named_into_guffy, LinkFacts, LinkJob,
    LinkResult, LinkStep,
};

/// A destination that is empty or mirrors a source, and a file system that
/// lets operations succeed or not.
struct Disk {
    slot: Option<String>,
    remove_ok: bool,
    symlink_ok: bool,
    copy_ok: bool,
    log: Vec<LinkStep>,
}

impl Disk {
    fn new(slot: Option<&str>, remove_ok: bool, symlink_ok: bool, copy_ok: bool) -> Disk {
        Disk { slot: slot.map(|s| s.to_string()), remove_ok, symlink_ok, copy_ok, log: Vec::new() }
    }

    fn run(&mut self, job: &LinkJob) -> LinkResult {
        let mut facts = LinkFacts::unknown();
        loop {
            let step = job.next(&facts);
            match step {
                LinkStep::ProbeDest => facts.dest_exists = Some(self.slot.is_some()),
                LinkStep::RemoveDest => {
                    if self.remove_ok {
                        self.slot = None;
                    }
                    facts.removed = Some(self.remove_ok);
                }
                LinkStep::Symlink => {
                    let ok = self.symlink_ok && self.slot.is_none();
                    if ok {
                        self.slot = Some(job.source.clone());
                    }
                    facts.symlinked = Some(ok);
                }
                LinkStep::Copy => {
                    if self.copy_ok {
                        self.slot = Some(job.source.clone());
                    }
                    facts.copied = Some(self.copy_ok);
                }
                LinkStep::Done(result) => return result,
            }
            self.log.push(step);
            assert!(self.log.len() <= 8);
        }
    }
}

fn job(source: &str, force: bool) -> LinkJob {
    symlink_named_into_guffy(source, "model.gguf", "/links", force)
}

#[test]
fn named_job_points_into_the_link_directory() {
    let j = symlink_named_into_guffy("/b/sha256-w", "mistral-latest.gguf", "/links", true);
    assert_eq!(
        j,
        LinkJob {
            source: "/b/sha256-w".to_string(),
            dest: "/links/mistral-latest.gguf".to_string(),
            force: true,
        }
    );
}

#[test]
fn unnamed_job_uses_the_sources_file_name() {
    let j = symlink_into_guffy("/cache/hub/model.Q4.gguf", "/links", false);
    assert_eq!(
        j,
        Some(LinkJob {
            source: "/cache/hub/model.Q4.gguf".to_string(),
            dest: "/links/model.Q4.gguf".to_string(),
            force: false,
        })
    );
}

#[test]
fn source_without_file_name_gives_no_job() {
    assert_eq!(symlink_into_guffy("/cache/hub/", "/links", false), None);
    assert_eq!(symlink_into_guffy("/cache/..", "/links", false), None);
    assert_eq!(symlink_into_guffy("", "/links", false), None);
}

#[test]
fn first_step_is_the_probe() {
    assert_eq!(link_step(false, &LinkFacts::unknown()), LinkStep::ProbeDest);
    assert_eq!(link_step(true, &LinkFacts::unknown()), LinkStep::ProbeDest);
}

#[test]
fn fresh_destination_is_linked() {
    let mut disk = Disk::new(None, true, true, true);
    assert_eq!(disk.run(&job("/src/a", false)), LinkResult::Linked);
    assert_eq!(disk.slot, Some("/src/a".to_string()));
    assert_eq!(disk.log, vec![LinkStep::ProbeDest, LinkStep::Symlink]);
}

#[test]
fn copy_recovers_from_failed_symlink() {
    let mut disk = Disk::new(None, true, false, true);
    let result = disk.run(&job("/src/a", false));
    assert_eq!(result, LinkResult::Copied);
    assert!(link_ok(result));
    assert_eq!(disk.slot, Some("/src/a".to_string()));
    assert_eq!(disk.log, vec![LinkStep::ProbeDest, LinkStep::Symlink, LinkStep::Copy]);
}

#[test]
fn failed_copy_is_the_only_failure() {
    let mut disk = Disk::new(None, true, false, false);
    let result = disk.run(&job("/src/a", false));
    assert_eq!(result, LinkResult::Failed);
    assert!(!link_ok(result));
    assert_eq!(disk.slot, None);
    assert!(link_ok(LinkResult::Kept));
    assert!(link_ok(LinkResult::Linked));
    assert!(link_ok(LinkResult::Copied));
}

#[test]
fn linking_twice_without_force_changes_nothing() {
    for symlink_ok in [true, false] {
        let mut disk = Disk::new(None, true, symlink_ok, true);
        assert!(link_ok(disk.run(&job("/src/a", false))));
        let after_first = disk.slot.clone();
        disk.log.clear();
        // whatever the file system would allow the second time
        disk.symlink_ok = !symlink_ok;
        disk.copy_ok = false;
        assert_eq!(disk.run(&job("/src/a", false)), LinkResult::Kept);
        assert_eq!(disk.slot, after_first);
        assert_eq!(disk.log, vec![LinkStep::ProbeDest]);
    }
}

#[test]
fn existing_destination_is_kept_without_force() {
    let mut disk = Disk::new(Some("/src/old"), true, true, true);
    assert_eq!(disk.run(&job("/src/new", false)), LinkResult::Kept);
    assert_eq!(disk.slot, Some("/src/old".to_string()));
}

#[test]
fn force_replaces_existing_destination() {
    let mut disk = Disk::new(Some("/src/old"), true, true, true);
    assert_eq!(disk.run(&job("/src/new", true)), LinkResult::Linked);
    assert_eq!(disk.slot, Some("/src/new".to_string()));
    assert_eq!(disk.log, vec![LinkStep::ProbeDest, LinkStep::RemoveDest, LinkStep::Symlink]);
}

#[test]
fn force_tolerates_failed_removal() {
    let mut disk = Disk::new(Some("/src/old"), false, true, true);
    assert_eq!(disk.run(&job("/src/new", true)), LinkResult::Copied);
    assert_eq!(disk.slot, Some("/src/new".to_string()));
    assert_eq!(
        disk.log,
        vec![LinkStep::ProbeDest, LinkStep::RemoveDest, LinkStep::Symlink, LinkStep::Copy]
    );
}

#[test]
fn force_on_fresh_destination_removes_nothing() {
    let mut disk = Disk::new(None, true, true, true);
    assert_eq!(disk.run(&job("/src/new", true)), LinkResult::Linked);
    assert_eq!(disk.log, vec![LinkStep::ProbeDest, LinkStep::Symlink]);
}

#[test]
fn forced_success_always_mirrors_the_new_source() {
    for remove_ok in [true, false] {
        for symlink_ok in [true, false] {
            for copy_ok in [true, false] {
                let mut disk = Disk::new(Some("/src/old"), remove_ok, symlink_ok, copy_ok);
                let result = disk.run(&job("/src/new", true));
                if link_ok(result) {
                    assert_eq!(disk.slot, Some("/src/new".to_string()));
                    assert_ne!(result, LinkResult::Kept);
                } else {
                    assert!(!copy_ok);
                }
            }
        }
    }
}
