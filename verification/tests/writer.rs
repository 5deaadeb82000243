use pichu::writer;
use pichu::writer::WriteStep;
use std::path::PathBuf;

#[test]
fn test_write() {
    let dir = PathBuf::from("pichu_test_write");

    // Write file to a non-existing subdirectory
    let content = "foo bar";
    let filepath = dir.join("foo/bar/baz.txt");
    let steps = writer::write(filepath.clone(), content.as_bytes().to_vec());

    // Ensure the file is written and its directories come first
    assert_eq!(steps.len(), 2);
    match &steps[0] {
        WriteStep::CreateDirs(created) => assert_eq!(created, &dir.join("foo/bar")),
        other => panic!("unexpected: {:?}", other),
    }
    match &steps[1] {
        WriteStep::WriteFile(path, written) => {
            assert_eq!(path, &filepath);
            assert_eq!(String::from_utf8(written.clone()).expect("utf-8"), content);
        }
        other => panic!("unexpected: {:?}", other),
    }
}

#[test]
fn a_bare_name_has_the_empty_path_above_it() {
    let steps = writer::write(PathBuf::from("index.html"), vec![1, 2, 3]);
    assert_eq!(steps.len(), 2);
    assert!(matches!(&steps[0], WriteStep::CreateDirs(dir) if dir == &PathBuf::new()));
    assert!(
        matches!(&steps[1], WriteStep::WriteFile(path, bytes) if path == &PathBuf::from("index.html") && bytes == &vec![1, 2, 3])
    );
}

#[test]
fn a_root_has_nothing_above_it() {
    let steps = writer::write(PathBuf::from("/"), Vec::new());
    assert_eq!(steps.len(), 1);
    assert!(
        matches!(&steps[0], WriteStep::WriteFile(path, bytes) if path == &PathBuf::from("/") && bytes.is_empty())
    );
    let steps = writer::write(PathBuf::new(), Vec::new());
    assert_eq!(steps.len(), 1);
}

#[test]
fn the_bytes_are_written_as_given() {
    let bytes: Vec<u8> = (0..=255).collect();
    let steps = writer::write(PathBuf::from("a/b"), bytes.clone());
    match steps.last() {
        Some(WriteStep::WriteFile(_, written)) => assert_eq!(written, &bytes),
        other => panic!("unexpected: {:?}", other),
    }
}
