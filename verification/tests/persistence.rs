//! Behavior of the buffer against the real filesystem: opening, first-write
//! promotion, overwriting, idempotent saves, and failed saves.

use pine::storage::StorageError;
use pine::text_buffer::{FileStatus, TextBuffer};

fn rt() -> tokio::runtime::Runtime {
    tokio::runtime::Builder::new_current_thread().build().unwrap()
}

fn setup() {
    rt().block_on(tokio::fs::create_dir_all("/tmp/pine_scratch")).unwrap();
}

fn write_file(path: &str, content: &str) {
    rt().block_on(tokio::fs::write(path, content)).unwrap();
}

fn read_file(path: &str) -> String {
    rt().block_on(tokio::fs::read_to_string(path)).unwrap()
}

fn is_present(path: &str) -> bool {
    rt().block_on(tokio::fs::try_exists(path)).unwrap()
}

fn remove(path: &str) {
    let _ = rt().block_on(tokio::fs::remove_file(path));
}

#[test]
fn opening_an_existing_file_reads_it_clean() {
    setup();
    let p = "/tmp/pine_scratch/open_existing.txt";
    write_file(p, "a\nb\n");
    let b = TextBuffer::from_file(p.to_string()).unwrap();
    assert_eq!(b.text().as_str(), "a\nb\n");
    assert_eq!(b.lines(), vec!["a".to_string(), "b".to_string()]);
    assert!(!b.dirty());
    assert_eq!(b.file_path().unwrap().as_str(), p);
    assert!(matches!(b.status(), FileStatus::Exist { .. }));
    remove(p);
}

#[test]
fn opening_an_absent_path_defers_creation() {
    setup();
    let p = "/tmp/pine_scratch/absent.txt";
    remove(p);
    let b = TextBuffer::from_file(p.to_string()).unwrap();
    assert_eq!(b.text().as_str(), "");
    assert!(!b.dirty());
    assert_eq!(b.file_path().unwrap().as_str(), p);
    assert!(matches!(b.status(), FileStatus::New { .. }));
    assert!(!is_present(p));
}

#[test]
fn first_save_promotes_and_creates_the_file() {
    setup();
    let p = "/tmp/pine_scratch/promote.txt";
    remove(p);
    let mut b = TextBuffer::from_file(p.to_string()).unwrap();
    assert_eq!(b.title(), p.to_string());
    b.set_text("hello".to_string());
    assert_eq!(b.title(), format!("{}*", p));
    assert!(!is_present(p));
    assert!(b.save().is_ok());
    assert!(!b.dirty());
    assert!(matches!(b.status(), FileStatus::Exist { .. }));
    assert_eq!(b.file_path().unwrap().as_str(), p);
    assert_eq!(b.title(), p.to_string());
    assert_eq!(read_file(p), "hello");
    // only an edit made after the file exists shows the existing-file mark
    b.set_text("hello again".to_string());
    assert_eq!(b.title(), format!("{}+", p));
    remove(p);
}

#[test]
fn saved_text_round_trips() {
    setup();
    for (k, text) in ["a\nb\n", "héllo wörld\n", "", "no newline", "\r\n\t x"]
        .iter()
        .enumerate()
    {
        let p = format!("/tmp/pine_scratch/round_trip_{}.txt", k);
        remove(&p);
        let mut b = TextBuffer::from_file(p.clone()).unwrap();
        b.set_text(text.to_string());
        assert!(b.save().is_ok());
        assert_eq!(read_file(&p), *text);
        let again = TextBuffer::from_file(p.clone()).unwrap();
        assert_eq!(again.text().as_str(), *text);
        assert!(!again.dirty());
        remove(&p);
    }
}

#[test]
fn saving_overwrites_the_whole_file() {
    setup();
    let p = "/tmp/pine_scratch/overwrite.txt";
    write_file(p, "a long piece of text that takes many bytes\n");
    let mut b = TextBuffer::from_file(p.to_string()).unwrap();
    assert!(!b.dirty());
    b.set_text("a\nc\n".to_string());
    assert!(b.dirty());
    assert!(b.save().is_ok());
    assert!(!b.dirty());
    assert_eq!(read_file(p), "a\nc\n");
    // shrink further: stale bytes must not survive
    b.set_text("x".to_string());
    assert!(b.save().is_ok());
    assert_eq!(read_file(p), "x");
    remove(p);
}

#[test]
fn second_save_without_edit_touches_nothing() {
    setup();
    let p = "/tmp/pine_scratch/idempotent.txt";
    remove(p);
    let mut b = TextBuffer::from_file(p.to_string()).unwrap();
    b.set_text("once".to_string());
    assert!(b.save().is_ok());
    assert_eq!(read_file(p), "once");
    // if the second save wrote anything, the file would reappear
    remove(p);
    assert!(b.save().is_ok());
    assert!(!is_present(p));
    assert!(!b.dirty());
    remove(p);
}

#[test]
fn failed_save_preserves_edits_and_dirtiness() {
    setup();
    let p = "/tmp/pine_scratch/missing_dir/blocked.txt";
    let _ = rt().block_on(tokio::fs::remove_dir_all("/tmp/pine_scratch/missing_dir"));
    let mut b = TextBuffer::from_file(p.to_string()).unwrap();
    assert!(matches!(b.status(), FileStatus::New { .. }));
    b.set_text("precious edits".to_string());
    let r = b.save();
    assert!(matches!(r, Err(StorageError::Other(_))));
    assert!(b.dirty());
    assert_eq!(b.text().as_str(), "precious edits");
    assert_eq!(b.lines(), vec!["precious edits".to_string()]);
    assert!(matches!(b.status(), FileStatus::New { .. }));
    assert_eq!(b.title(), format!("{}*", p));
    // once the obstacle is gone, the very same save succeeds
    rt().block_on(tokio::fs::create_dir_all("/tmp/pine_scratch/missing_dir")).unwrap();
    assert!(b.save().is_ok());
    assert!(!b.dirty());
    assert_eq!(read_file(p), "precious edits");
    let _ = rt().block_on(tokio::fs::remove_dir_all("/tmp/pine_scratch/missing_dir"));
}

#[test]
fn opening_a_directory_fails_without_a_pending_state() {
    setup();
    let r = TextBuffer::from_file("/tmp/pine_scratch".to_string());
    match r {
        Err(StorageError::Other(_)) | Err(StorageError::AccessDenied) => {}
        Err(StorageError::NoTarget) => panic!("absence of a target is not what failed here"),
        Ok(_) => panic!("a directory must not open as a text file"),
    }
}
