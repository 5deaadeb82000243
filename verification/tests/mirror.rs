use pichu::copy_dir;
use pichu::mirror::skips;
use pichu::mirror::CopyStep;
use pichu::mirror::DirEntry;
use pichu::Error;
use std::path::PathBuf;

fn entry(name: &str, is_dir: bool, target_exists: bool) -> DirEntry {
    DirEntry {
        name: name.to_string(),
        source: PathBuf::from("from").join(name),
        target: PathBuf::from("to").join(name),
        is_dir,
        target_exists,
    }
}

fn file(name: &str) -> DirEntry {
    entry(name, false, false)
}

fn dir(name: &str) -> DirEntry {
    entry(name, true, false)
}

fn taken(name: &str) -> DirEntry {
    entry(name, false, true)
}

fn told(steps: &[CopyStep]) -> Vec<String> {
    steps
        .iter()
        .map(|step| match step {
            CopyStep::Descend { from, to } => {
                format!("descend {} {}", from.display(), to.display())
            }
            CopyStep::CopyFile { from, to } => format!("copy {} {}", from.display(), to.display()),
        })
        .collect()
}

/// What a listing of `dir` gives, for a small tree held in memory.
fn listing(dir: &str) -> Vec<(&'static str, bool)> {
    match dir {
        "examples" => vec![
            ("basic_blog.rs", false),
            ("content", true),
            (".DS_Store", false),
            ("maud.rs", false),
            ("watch.rs", false),
        ],
        "examples/content" => vec![("about.md", false), ("blog", true)],
        "examples/content/blog" => vec![("hello-world.md", false), (".draft.md", false)],
        _ => Vec::new(),
    }
}

/// Mirrors the tree in memory and returns the files that exist afterwards.
fn mirror(from: PathBuf, to: PathBuf, copied: &mut Vec<PathBuf>) -> Result<(), Error> {
    let entries = listing(from.to_str().expect("utf-8"))
        .into_iter()
        .map(|(name, is_dir)| {
            let target = to.join(name);
            DirEntry {
                name: name.to_string(),
                source: from.join(name),
                target_exists: copied.contains(&target),
                target,
                is_dir,
            }
        })
        .collect();
    let plan = copy_dir(entries);
    for step in plan.steps {
        match step {
            CopyStep::Descend { from, to } => mirror(from, to, copied)?,
            CopyStep::CopyFile { to, .. } => copied.push(to),
        }
    }
    plan.outcome
}

#[test]
fn test_copy_dir() {
    let dir = PathBuf::from("pichu_test_copy_dir");
    let mut copied = Vec::new();

    mirror(PathBuf::from("examples"), dir.clone(), &mut copied).expect("nothing collides");

    assert!(copied.contains(&dir.join("maud.rs")));
    assert!(copied.contains(&dir.join("content/about.md")));
    assert!(copied.contains(&dir.join("content/blog/hello-world.md")));
    assert!(!copied.contains(&dir.join(".DS_Store")));
    assert!(!copied.contains(&dir.join("content/blog/.draft.md")));
    assert_eq!(copied.len(), 5);
}

#[test]
fn a_second_mirror_collides_and_keeps_what_was_copied() {
    let dir = PathBuf::from("out");
    let mut copied = Vec::new();
    mirror(PathBuf::from("examples"), dir.clone(), &mut copied).expect("nothing collides");
    match mirror(PathBuf::from("examples"), dir.clone(), &mut copied) {
        Err(Error::FileExists(path)) => assert_eq!(path, dir.join("basic_blog.rs")),
        other => panic!("unexpected: {:?}", other),
    }
    assert_eq!(copied.len(), 5);
}

#[test]
fn dotted_names_are_passed_over() {
    assert!(skips(&".git".to_string()));
    assert!(skips(&".".to_string()));
    assert!(skips(&"..".to_string()));
    assert!(skips(&".well-known2".to_string()));
    assert!(skips(&".well-know".to_string()));
    assert!(skips(&".Well-Known".to_string()));
    assert!(skips(&".\u{e9}t\u{e9}".to_string()));
}

#[test]
fn other_names_are_copied() {
    assert!(!skips(&".well-known".to_string()));
    assert!(!skips(&"maud.rs".to_string()));
    assert!(!skips(&"a.b".to_string()));
    assert!(!skips(&"well-known".to_string()));
    assert!(!skips(&"".to_string()));
    assert!(!skips(&"\u{e9}.txt".to_string()));
}

#[test]
fn a_directory_is_mirrored_entry_by_entry() {
    let plan = copy_dir(vec![
        file("maud.rs"),
        dir("content"),
        file(".gitignore"),
        dir(".git"),
        dir(".well-known"),
        file("basic_blog.rs"),
    ]);
    assert!(plan.outcome.is_ok());
    assert_eq!(
        told(&plan.steps),
        vec![
            "copy from/maud.rs to/maud.rs",
            "descend from/content to/content",
            "descend from/.well-known to/.well-known",
            "copy from/basic_blog.rs to/basic_blog.rs",
        ]
    );
}

#[test]
fn an_empty_directory_needs_no_step() {
    let plan = copy_dir(Vec::new());
    assert!(plan.steps.is_empty());
    assert!(plan.outcome.is_ok());
}

#[test]
fn a_taken_target_ends_the_copy() {
    let plan = copy_dir(vec![
        file("a.txt"),
        dir("sub"),
        taken("b.txt"),
        file("c.txt"),
        taken("d.txt"),
    ]);
    match plan.outcome {
        Err(Error::FileExists(path)) => assert_eq!(path, PathBuf::from("to/b.txt")),
        other => panic!("unexpected: {:?}", other),
    }
    assert_eq!(
        told(&plan.steps),
        vec!["copy from/a.txt to/a.txt", "descend from/sub to/sub"]
    );
}

#[test]
fn a_taken_target_of_a_passed_over_entry_is_no_collision() {
    let plan = copy_dir(vec![taken(".env"), file("a.txt")]);
    assert!(plan.outcome.is_ok());
    assert_eq!(told(&plan.steps), vec!["copy from/a.txt to/a.txt"]);
}

#[test]
fn a_directory_is_descended_into_whatever_stands_at_its_target() {
    let plan = copy_dir(vec![entry("sub", true, true), file("a.txt")]);
    assert!(plan.outcome.is_ok());
    assert_eq!(
        told(&plan.steps),
        vec!["descend from/sub to/sub", "copy from/a.txt to/a.txt"]
    );
}

#[test]
fn a_taken_well_known_file_is_a_collision() {
    let plan = copy_dir(vec![taken(".well-known")]);
    match plan.outcome {
        Err(Error::FileExists(path)) => assert_eq!(path, PathBuf::from("to/.well-known")),
        other => panic!("unexpected: {:?}", other),
    }
    assert!(plan.steps.is_empty());
}
