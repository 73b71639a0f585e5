use shadcnui_maud::artifact::{build, build_plan, build_task, BuildError, BuildRun, BuildTask};
use shadcnui_maud::fetch::{fetch_plan, init, FetchRun, FetchTask};
use shadcnui_maud::gzip::decompress;
use shadcnui_maud::manifest::{ManifestEntry, ManifestError};
use shadcnui_maud::run::{misfit_of, Action, Event, Failure};
use std::collections::BTreeMap;

const MANIFEST: &str = "logo.svg brand https://example.com/logo.svg\n\nstyle.css css dist/css/style.css\nhtmx.min.js js https://unpkg.com/htmx.org@2/dist/htmx.min.js\nnotes.txt docs notes/notes.txt\n";

fn fetch_task(dir: &str, url: &str, path: &str) -> FetchTask {
    FetchTask { dir: dir.to_string(), url: url.to_string(), path: path.to_string() }
}

fn task(dist_dir: &str, source: &str, remove_source: bool) -> BuildTask {
    BuildTask { dist_dir: dist_dir.to_string(), source: source.to_string(), remove_source }
}

/// Files and the bodies behind URLs, kept in memory.
struct World {
    dirs: Vec<String>,
    files: BTreeMap<String, Vec<u8>>,
    web: BTreeMap<String, Vec<u8>>,
    log: Vec<String>,
}

impl World {
    fn new() -> World {
        World { dirs: vec![], files: BTreeMap::new(), web: BTreeMap::new(), log: vec![] }
    }

    fn perform(&mut self, action: &Action) -> Option<Event> {
        match action {
            Action::CreateDir { path } => {
                self.log.push(format!("mkdir {}", path));
                self.dirs.push(path.clone());
                Some(Event::Done)
            }
            Action::Fetch { url } => {
                self.log.push(format!("get {}", url));
                match self.web.get(url) {
                    Some(body) => Some(Event::Data { bytes: body.clone() }),
                    None => Some(Event::Failed),
                }
            }
            Action::ReadFile { path } => {
                self.log.push(format!("read {}", path));
                match self.files.get(path) {
                    Some(bytes) => Some(Event::Data { bytes: bytes.clone() }),
                    None => Some(Event::Failed),
                }
            }
            Action::WriteFile { path, bytes } => {
                self.log.push(format!("write {}", path));
                self.files.insert(path.clone(), bytes.clone());
                Some(Event::Done)
            }
            Action::RemoveFile { path } => {
                self.log.push(format!("remove {}", path));
                match self.files.remove(path) {
                    Some(_) => Some(Event::Done),
                    None => Some(Event::Failed),
                }
            }
            Action::Finish | Action::Abort { .. } => None,
        }
    }

    fn run_init(&mut self, text: &str, base: &str) -> Action {
        let (mut run, mut action) = FetchRun::new(init(text, base).unwrap());
        while let Some(event) = self.perform(&action) {
            action = run.step(event);
        }
        action
    }

    fn run_build(&mut self, text: &str, base: &str) -> Action {
        let (mut run, mut action) = BuildRun::new(build(text, base).unwrap());
        while let Some(event) = self.perform(&action) {
            action = run.step(event);
        }
        action
    }
}

#[test]
fn init_plans_one_download_per_remote_entry() {
    assert_eq!(
        init(MANIFEST, "./static").unwrap(),
        vec![
            fetch_task(
                "./static/files/brand",
                "https://example.com/logo.svg",
                "./static/files/brand/logo.svg"
            ),
            fetch_task(
                "./static/files/js",
                "https://unpkg.com/htmx.org@2/dist/htmx.min.js",
                "./static/files/js/htmx.min.js"
            ),
        ]
    );
}

#[test]
fn init_plans_nothing_for_local_entries() {
    assert_eq!(init("a g local/a.txt\nb g ./b.txt\n", "base").unwrap(), vec![]);
    assert_eq!(init("", "base").unwrap(), vec![]);
}

#[test]
fn init_reports_the_malformed_line() {
    assert_eq!(
        init("a g https://x/a\nbroken line\n", "base"),
        Err(ManifestError { line: 2, found: 2 })
    );
}

#[test]
fn fetch_plan_keeps_the_order_of_the_entries() {
    let entries = vec![
        ManifestEntry::new("b", "g", "https://h/b"),
        ManifestEntry::new("l", "g", "l.txt"),
        ManifestEntry::new("a", "g", "https://h/a"),
        ManifestEntry::new("b", "g", "https://h/b"),
    ];
    let urls: Vec<String> = fetch_plan("s", &entries).into_iter().map(|t| t.url).collect();
    assert_eq!(urls, vec!["https://h/b", "https://h/a", "https://h/b"]);
}

#[test]
fn build_plans_work_for_every_entry() {
    assert_eq!(
        build(MANIFEST, "./static").unwrap(),
        vec![
            task("./static/dist/brand", "./static/files/brand/logo.svg", false),
            task("./static/dist/css", "./static/dist/css/style.css", true),
            task("./static/dist/js", "./static/files/js/htmx.min.js", false),
            task("./static/dist/docs", "./static/notes/notes.txt", false),
        ]
    );
}

#[test]
fn build_reports_the_malformed_line() {
    assert_eq!(build("\n\na b c d\n", "base"), Err(ManifestError { line: 3, found: 4 }));
}

#[test]
fn build_task_marks_sources_under_dist_for_removal() {
    let entry = ManifestEntry::new("style.css", "css", "dist/css/style.css");
    assert_eq!(
        build_task("./static", &entry),
        task("./static/dist/css", "./static/dist/css/style.css", true)
    );
    let entry = ManifestEntry::new("style.css", "css", "css/style.css");
    assert_eq!(
        build_task("./static", &entry),
        task("./static/dist/css", "./static/css/style.css", false)
    );
    let entry = ManifestEntry::new("a.js", "js", "https://h/dist/a.js");
    assert_eq!(build_task("s", &entry), task("s/dist/js", "s/files/js/a.js", false));
    let entry = ManifestEntry::new("a.js", "js", "https://h/a.js");
    assert_eq!(build_task("dist", &entry), task("dist/dist/js", "dist/files/js/a.js", true));
    assert_eq!(build_plan("s", &vec![]), vec![]);
}

#[test]
fn task_makes_its_artifact() {
    let artifact = task("out/css", "in/style.css", false).artifact(b"body {}").unwrap();
    assert_eq!(artifact.path, "out/css/style.css.gz");
    assert_eq!(decompress(&artifact.bytes).unwrap(), b"body {}".to_vec());
    assert_eq!(task("out", "in/style", false).artifact(b"x"), Err(BuildError::MissingExtension));
}

#[test]
fn logo_goes_through_init_and_build() {
    let text = "logo.svg brand https://example.com/logo.svg";
    let body = "<svg xmlns=\"http://www.w3.org/2000/svg\"><title>\u{00E9}</title></svg>".as_bytes();
    let mut world = World::new();
    world.web.insert("https://example.com/logo.svg".to_string(), body.to_vec());
    assert_eq!(world.run_init(text, "./static"), Action::Finish);
    assert_eq!(world.files.get("./static/files/brand/logo.svg").unwrap(), &body.to_vec());
    assert_eq!(world.run_build(text, "./static"), Action::Finish);
    assert_eq!(world.files.get("./static/files/brand/logo.svg").unwrap(), &body.to_vec());
    let artifact = world.files.get("./static/dist/brand/logo.svg.gz").unwrap();
    assert_eq!(decompress(artifact).unwrap(), body.to_vec());
    assert_eq!(world.files.len(), 2);
    assert_eq!(
        world.log,
        vec![
            "mkdir ./static/files/brand",
            "get https://example.com/logo.svg",
            "write ./static/files/brand/logo.svg",
            "mkdir ./static/dist/brand",
            "read ./static/files/brand/logo.svg",
            "write ./static/dist/brand/logo.svg.gz",
        ]
    );
}

#[test]
fn fetching_pass_goes_entry_by_entry() {
    let mut world = World::new();
    world.web.insert("https://example.com/logo.svg".to_string(), b"L".to_vec());
    world.web.insert("https://unpkg.com/htmx.org@2/dist/htmx.min.js".to_string(), b"H".to_vec());
    assert_eq!(world.run_init(MANIFEST, "s"), Action::Finish);
    assert_eq!(
        world.log,
        vec![
            "mkdir s/files/brand",
            "get https://example.com/logo.svg",
            "write s/files/brand/logo.svg",
            "mkdir s/files/js",
            "get https://unpkg.com/htmx.org@2/dist/htmx.min.js",
            "write s/files/js/htmx.min.js",
        ]
    );
    assert_eq!(world.files.get("s/files/brand/logo.svg").unwrap(), &b"L".to_vec());
    assert_eq!(world.files.get("s/files/js/htmx.min.js").unwrap(), &b"H".to_vec());
}

#[test]
fn fetching_pass_stops_at_the_first_failure() {
    let mut world = World::new();
    world.web.insert("https://unpkg.com/htmx.org@2/dist/htmx.min.js".to_string(), b"H".to_vec());
    assert_eq!(world.run_init(MANIFEST, "s"), Action::Abort { reason: Failure::Io });
    assert_eq!(world.log, vec!["mkdir s/files/brand", "get https://example.com/logo.svg"]);
    assert!(world.files.is_empty());
}

#[test]
fn fetching_pass_without_downloads_is_finished() {
    let (mut run, action) = FetchRun::new(vec![]);
    assert_eq!(action, Action::Finish);
    assert_eq!(run.step(Event::Done), Action::Finish);
    assert_eq!(run.step(Event::Failed), Action::Finish);
}

#[test]
fn fetching_pass_stays_aborted() {
    let plan = vec![fetch_task("d", "https://h/a", "d/a"), fetch_task("e", "https://h/b", "e/b")];
    let (mut run, action) = FetchRun::new(plan);
    assert_eq!(action, Action::CreateDir { path: "d".to_string() });
    assert_eq!(run.step(Event::Failed), Action::Abort { reason: Failure::Io });
    assert_eq!(run.step(Event::Done), Action::Abort { reason: Failure::Io });
    assert_eq!(run.step(Event::Data { bytes: vec![1] }), Action::Abort { reason: Failure::Io });
}

#[test]
fn fetching_pass_gives_up_on_an_outcome_that_does_not_fit() {
    let plan = vec![fetch_task("d", "https://h/a", "d/a")];
    let (mut run, _) = FetchRun::new(plan.clone());
    assert_eq!(run.step(Event::Data { bytes: vec![] }), Action::Abort { reason: Failure::Unexpected });
    let (mut run, _) = FetchRun::new(plan.clone());
    assert_eq!(run.step(Event::Done), Action::Fetch { url: "https://h/a".to_string() });
    assert_eq!(run.step(Event::Done), Action::Abort { reason: Failure::Unexpected });
    let (mut run, _) = FetchRun::new(plan);
    run.step(Event::Done);
    assert_eq!(
        run.step(Event::Data { bytes: vec![7, 8] }),
        Action::WriteFile { path: "d/a".to_string(), bytes: vec![7, 8] }
    );
    assert_eq!(run.step(Event::Data { bytes: vec![] }), Action::Abort { reason: Failure::Unexpected });
}

#[test]
fn compressing_pass_removes_a_source_only_after_its_artifact_is_written() {
    let mut world = World::new();
    world.files.insert("s/files/brand/logo.svg".to_string(), b"<svg/>".to_vec());
    world.files.insert("s/dist/css/style.css".to_string(), b"body {}".to_vec());
    world.files.insert("s/files/js/htmx.min.js".to_string(), b"js".to_vec());
    world.files.insert("s/notes/notes.txt".to_string(), b"notes".to_vec());
    assert_eq!(world.run_build(MANIFEST, "s"), Action::Finish);
    assert_eq!(
        world.log,
        vec![
            "mkdir s/dist/brand",
            "read s/files/brand/logo.svg",
            "write s/dist/brand/logo.svg.gz",
            "mkdir s/dist/css",
            "read s/dist/css/style.css",
            "write s/dist/css/style.css.gz",
            "remove s/dist/css/style.css",
            "mkdir s/dist/js",
            "read s/files/js/htmx.min.js",
            "write s/dist/js/htmx.min.js.gz",
            "mkdir s/dist/docs",
            "read s/notes/notes.txt",
            "write s/dist/docs/notes.txt.gz",
        ]
    );
    assert!(!world.files.contains_key("s/dist/css/style.css"));
    assert!(world.files.contains_key("s/files/brand/logo.svg"));
    assert!(world.files.contains_key("s/files/js/htmx.min.js"));
    assert!(world.files.contains_key("s/notes/notes.txt"));
    assert_eq!(decompress(&world.files["s/dist/css/style.css.gz"]).unwrap(), b"body {}".to_vec());
    assert_eq!(decompress(&world.files["s/dist/docs/notes.txt.gz"]).unwrap(), b"notes".to_vec());
}

#[test]
fn compressing_pass_stops_at_a_missing_source() {
    let mut world = World::new();
    world.files.insert("s/files/brand/logo.svg".to_string(), b"<svg/>".to_vec());
    assert_eq!(world.run_build(MANIFEST, "s"), Action::Abort { reason: Failure::Io });
    assert_eq!(
        world.log,
        vec![
            "mkdir s/dist/brand",
            "read s/files/brand/logo.svg",
            "write s/dist/brand/logo.svg.gz",
            "mkdir s/dist/css",
            "read s/dist/css/style.css",
        ]
    );
    assert!(world.files.contains_key("s/dist/brand/logo.svg.gz"));
}

#[test]
fn compressing_pass_stops_at_a_source_without_extension() {
    let mut world = World::new();
    world.files.insert("s/files/g/README".to_string(), b"x".to_vec());
    world.files.insert("s/files/g/b.txt".to_string(), b"y".to_vec());
    let text = "README g https://h/README\nb.txt g https://h/b.txt\n";
    assert_eq!(
        world.run_build(text, "s"),
        Action::Abort { reason: Failure::Build(BuildError::MissingExtension) }
    );
    assert_eq!(world.log, vec!["mkdir s/dist/g", "read s/files/g/README"]);
    assert_eq!(world.files.len(), 2);
}

#[test]
fn compressing_pass_does_not_remove_after_a_failed_write() {
    let (mut run, action) = BuildRun::new(vec![task("s/dist/css", "s/dist/css/a.css", true)]);
    assert_eq!(action, Action::CreateDir { path: "s/dist/css".to_string() });
    assert_eq!(run.step(Event::Done), Action::ReadFile { path: "s/dist/css/a.css".to_string() });
    match run.step(Event::Data { bytes: b"a {}".to_vec() }) {
        Action::WriteFile { path, bytes } => {
            assert_eq!(path, "s/dist/css/a.css.gz");
            assert_eq!(decompress(&bytes).unwrap(), b"a {}".to_vec());
        }
        other => panic!("{:?}", other),
    }
    assert_eq!(run.step(Event::Failed), Action::Abort { reason: Failure::Io });
    assert_eq!(run.step(Event::Done), Action::Abort { reason: Failure::Io });
}

#[test]
fn compressing_pass_ends_after_the_removal() {
    let (mut run, _) = BuildRun::new(vec![task("d", "dist/a.css", true)]);
    run.step(Event::Done);
    run.step(Event::Data { bytes: vec![] });
    assert_eq!(run.step(Event::Done), Action::RemoveFile { path: "dist/a.css".to_string() });
    assert_eq!(run.step(Event::Done), Action::Finish);
    assert_eq!(run.step(Event::Done), Action::Finish);
    let (mut run, _) = BuildRun::new(vec![task("d", "dist/a.css", true)]);
    run.step(Event::Done);
    run.step(Event::Data { bytes: vec![] });
    run.step(Event::Done);
    assert_eq!(run.step(Event::Failed), Action::Abort { reason: Failure::Io });
}

#[test]
fn compressing_pass_gives_up_on_an_outcome_that_does_not_fit() {
    let (mut run, _) = BuildRun::new(vec![task("d", "a.css", false)]);
    assert_eq!(run.step(Event::Data { bytes: vec![] }), Action::Abort { reason: Failure::Unexpected });
    let (mut run, _) = BuildRun::new(vec![task("d", "a.css", false)]);
    run.step(Event::Done);
    assert_eq!(run.step(Event::Done), Action::Abort { reason: Failure::Unexpected });
    let (mut run, action) = BuildRun::new(vec![]);
    assert_eq!(action, Action::Finish);
    assert_eq!(run.step(Event::Failed), Action::Finish);
}

#[test]
fn failure_is_told_from_a_misfit() {
    assert_eq!(misfit_of(&Event::Failed), Failure::Io);
    assert_eq!(misfit_of(&Event::Done), Failure::Unexpected);
    assert_eq!(misfit_of(&Event::Data { bytes: vec![] }), Failure::Unexpected);
}
