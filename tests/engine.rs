use std::collections::{BTreeMap, BTreeSet};

use edorifile::engine::{ActionKind, FileOp, FsAction, FsError, FsErrorKind, FsEvent, PathKind};

/// A filesystem held in memory, with switches to make renames or removals
/// fail as they do across volumes or on locked files.
struct MemFs {
    sep: char,
    dirs: BTreeSet<String>,
    files: BTreeMap<String, Vec<u8>>,
    fail_rename: bool,
    fail_remove: bool,
    log: Vec<ActionKind>,
    bytes_written: usize,
}

impl MemFs {
    fn new(sep: char) -> MemFs {
        MemFs {
            sep,
            dirs: BTreeSet::new(),
            files: BTreeMap::new(),
            fail_rename: false,
            fail_remove: false,
            log: Vec::new(),
            bytes_written: 0,
        }
    }

    fn dir(&mut self, p: &str) {
        self.dirs.insert(p.to_string());
    }

    fn file(&mut self, p: &str, data: &[u8]) {
        self.files.insert(p.to_string(), data.to_vec());
    }

    fn under(&self, p: &str, root: &str) -> bool {
        p == root || p.starts_with(&format!("{}{}", root, self.sep))
    }

    fn perform(&mut self, a: &FsAction) -> FsEvent {
        self.log.push(a.kind);
        let p = a.path.clone();
        let to = a.to.clone();
        match a.kind {
            ActionKind::Probe => {
                if self.dirs.contains(&p) {
                    FsEvent::Probed(PathKind::Dir)
                } else if self.files.contains_key(&p) {
                    FsEvent::Probed(PathKind::File)
                } else {
                    FsEvent::Probed(PathKind::Missing)
                }
            }
            ActionKind::CreateDir => {
                if self.dirs.contains(&p) || self.files.contains_key(&p) {
                    FsEvent::Failed("exists".to_string())
                } else {
                    self.dirs.insert(p);
                    FsEvent::Done
                }
            }
            ActionKind::CreateDirAll => {
                self.dirs.insert(p);
                FsEvent::Done
            }
            ActionKind::ListDir => {
                let prefix = format!("{}{}", p, self.sep);
                let mut names: Vec<String> = Vec::new();
                for q in self.dirs.iter().chain(self.files.keys()) {
                    if let Some(rest) = q.strip_prefix(&prefix) {
                        if !rest.is_empty() && !rest.contains(self.sep) {
                            names.push(rest.to_string());
                        }
                    }
                }
                names.sort();
                FsEvent::Listed(names)
            }
            ActionKind::Rename => {
                if self.fail_rename {
                    return FsEvent::Failed("cross-device link".to_string());
                }
                let dirs: Vec<String> = self.dirs.iter().filter(|d| self.under(d, &p)).cloned().collect();
                for d in dirs {
                    self.dirs.remove(&d);
                    self.dirs.insert(format!("{}{}", to, &d[p.len()..]));
                }
                let files: Vec<String> = self.files.keys().filter(|f| self.under(f, &p)).cloned().collect();
                for f in files {
                    let data = self.files.remove(&f).unwrap();
                    self.files.insert(format!("{}{}", to, &f[p.len()..]), data);
                }
                FsEvent::Done
            }
            ActionKind::CopyFile => match self.files.get(&p).cloned() {
                Some(data) => {
                    self.bytes_written += data.len();
                    self.files.insert(to, data);
                    FsEvent::Done
                }
                None => FsEvent::Failed("no such file".to_string()),
            },
            ActionKind::RemoveFile => {
                if self.fail_remove {
                    return FsEvent::Failed("access denied".to_string());
                }
                match self.files.remove(&p) {
                    Some(_) => FsEvent::Done,
                    None => FsEvent::Failed("no such file".to_string()),
                }
            }
            ActionKind::RemoveDirAll => {
                if self.fail_remove {
                    return FsEvent::Failed("access denied".to_string());
                }
                let root = p.clone();
                let dirs: Vec<String> = self.dirs.iter().filter(|d| self.under(d, &root)).cloned().collect();
                for d in dirs {
                    self.dirs.remove(&d);
                }
                let files: Vec<String> = self.files.keys().filter(|f| self.under(f, &root)).cloned().collect();
                for f in files {
                    self.files.remove(&f);
                }
                FsEvent::Done
            }
        }
    }

    fn run(&mut self, mut op: FileOp) -> Result<String, FsError> {
        while let Some(a) = op.next_action() {
            let ev = self.perform(&a);
            op.handle(ev);
        }
        op.outcome().expect("a finished operation has an outcome")
    }
}

fn mutations(log: &[ActionKind]) -> usize {
    log.iter().filter(|k| **k != ActionKind::Probe && **k != ActionKind::ListDir).count()
}

#[test]
fn create_folder_makes_a_new_directory() {
    let mut fs = MemFs::new('/');
    fs.dir("/home");
    let r = fs.run(FileOp::create_folder("/home", "docs", '/'));
    assert_eq!(r.unwrap(), "/home/docs");
    assert!(fs.dirs.contains("/home/docs"));
}

#[test]
fn create_folder_refuses_a_taken_name() {
    let mut fs = MemFs::new('/');
    fs.dir("/home");
    fs.dir("/home/docs");
    let e = fs.run(FileOp::create_folder("/home", "docs", '/')).unwrap_err();
    assert_eq!(e.kind, FsErrorKind::AlreadyExists);
    assert_eq!(e.detail, "docs");
    assert_eq!(mutations(&fs.log), 0);
}

#[test]
fn rename_moves_within_the_directory() {
    let mut fs = MemFs::new('/');
    fs.dir("/a");
    fs.file("/a/old.txt", b"hello");
    let r = fs.run(FileOp::rename_item("/a/old.txt", "new.txt", '/'));
    assert_eq!(r.unwrap(), "/a/new.txt");
    assert!(!fs.files.contains_key("/a/old.txt"));
    assert_eq!(fs.files["/a/new.txt"], b"hello".to_vec());
}

#[test]
fn rename_onto_existing_name_changes_nothing() {
    let mut fs = MemFs::new('/');
    fs.dir("/a");
    fs.file("/a/one.txt", b"one");
    fs.file("/a/two.txt", b"two");
    let e = fs.run(FileOp::rename_item("/a/one.txt", "two.txt", '/')).unwrap_err();
    assert_eq!(e.kind, FsErrorKind::AlreadyExists);
    assert_eq!(e.detail, "two.txt");
    assert_eq!(fs.files["/a/one.txt"], b"one".to_vec());
    assert_eq!(fs.files["/a/two.txt"], b"two".to_vec());
    assert_eq!(mutations(&fs.log), 0);
}

#[test]
fn rename_of_missing_item_is_not_found() {
    let mut fs = MemFs::new('/');
    let e = fs.run(FileOp::rename_item("/a/gone.txt", "b.txt", '/')).unwrap_err();
    assert_eq!(e.kind, FsErrorKind::NotFound);
    assert_eq!(e.detail, "/a/gone.txt");
}

#[test]
fn rename_of_a_root_has_no_parent() {
    let mut fs = MemFs::new('/');
    fs.dir("/");
    let e = fs.run(FileOp::rename_item("/", "x", '/')).unwrap_err();
    assert_eq!(e.kind, FsErrorKind::InvalidPath);
}

#[test]
fn delete_of_missing_path_is_not_found() {
    let mut fs = MemFs::new('/');
    let e = fs.run(FileOp::delete_item("/nothing", '/')).unwrap_err();
    assert_eq!(e.kind, FsErrorKind::NotFound);
    assert_eq!(e.detail, "/nothing");
    assert_eq!(mutations(&fs.log), 0);
}

#[test]
fn delete_of_empty_directory_removes_it_from_parent() {
    let mut fs = MemFs::new('/');
    fs.dir("/p");
    fs.dir("/p/empty");
    fs.file("/p/keep.txt", b"k");
    let r = fs.run(FileOp::delete_item("/p/empty", '/'));
    assert_eq!(r.unwrap(), "/p/empty");
    assert!(!fs.dirs.contains("/p/empty"));
    assert!(fs.dirs.contains("/p"));
    assert!(fs.files.contains_key("/p/keep.txt"));
    assert_eq!(fs.log, vec![ActionKind::Probe, ActionKind::RemoveDirAll]);
}

#[test]
fn delete_of_file_removes_only_it() {
    let mut fs = MemFs::new('/');
    fs.dir("/p");
    fs.file("/p/a.txt", b"a");
    let r = fs.run(FileOp::delete_item("/p/a.txt", '/'));
    assert!(r.is_ok());
    assert_eq!(fs.log, vec![ActionKind::Probe, ActionKind::RemoveFile]);
    assert!(fs.files.is_empty());
}

#[test]
fn copy_tree_keeps_structure_and_bytes() {
    let mut fs = MemFs::new('/');
    fs.dir("/src");
    fs.dir("/src/A");
    fs.file("/src/A/f1", b"first file");
    fs.dir("/src/A/B");
    fs.file("/src/A/B/f2", b"second file");
    fs.dir("/dest");
    let r = fs.run(FileOp::copy_item("/src/A", "/dest", '/'));
    assert_eq!(r.unwrap(), "/dest/A");
    assert_eq!(fs.files["/dest/A/f1"], b"first file".to_vec());
    assert_eq!(fs.files["/dest/A/B/f2"], b"second file".to_vec());
    assert!(fs.dirs.contains("/dest/A/B"));
    assert_eq!(fs.files["/src/A/f1"], b"first file".to_vec());
}

#[test]
fn copy_next_to_existing_file_gets_numbered_name() {
    let mut fs = MemFs::new('\\');
    fs.dir("C:\\src");
    fs.dir("C:\\dst");
    fs.file("C:\\src\\photo.jpg", b"jpeg bytes");
    fs.file("C:\\dst\\photo.jpg", b"other");
    let r = fs.run(FileOp::copy_item("C:\\src\\photo.jpg", "C:\\dst", '\\'));
    assert_eq!(r.unwrap(), "C:\\dst\\photo (1).jpg");
    assert_eq!(fs.files["C:\\src\\photo.jpg"], b"jpeg bytes".to_vec());
    assert_eq!(fs.files["C:\\dst\\photo (1).jpg"], b"jpeg bytes".to_vec());
    assert_eq!(fs.files["C:\\dst\\photo.jpg"], b"other".to_vec());
}

#[test]
fn copy_of_directory_next_to_taken_names() {
    let mut fs = MemFs::new('/');
    fs.dir("/src");
    fs.dir("/src/proj");
    fs.dir("/dst");
    fs.dir("/dst/proj");
    fs.dir("/dst/proj (1)");
    let r = fs.run(FileOp::copy_item("/src/proj", "/dst", '/'));
    assert_eq!(r.unwrap(), "/dst/proj (2)");
    assert!(fs.dirs.contains("/dst/proj (2)"));
}

#[test]
fn copy_of_missing_source_is_not_found() {
    let mut fs = MemFs::new('/');
    let e = fs.run(FileOp::copy_item("/x/none.txt", "/dst", '/')).unwrap_err();
    assert_eq!(e.kind, FsErrorKind::NotFound);
}

#[test]
fn copy_of_path_without_file_name_is_invalid() {
    let mut fs = MemFs::new('/');
    let e = fs.run(FileOp::copy_item("/", "/dst", '/')).unwrap_err();
    assert_eq!(e.kind, FsErrorKind::InvalidPath);
    assert!(fs.log.is_empty());
}

#[test]
fn move_on_same_volume_is_a_single_rename() {
    let mut fs = MemFs::new('/');
    fs.dir("/a");
    fs.dir("/b");
    fs.file("/a/data.bin", b"0123456789");
    let r = fs.run(FileOp::move_item("/a/data.bin", "/b", '/'));
    assert_eq!(r.unwrap(), "/b/data.bin");
    assert_eq!(fs.bytes_written, 0);
    assert_eq!(fs.log, vec![ActionKind::Probe, ActionKind::Probe, ActionKind::Rename]);
    assert_eq!(fs.files["/b/data.bin"], b"0123456789".to_vec());
}

#[test]
fn move_across_volumes_copies_then_removes() {
    let mut fs = MemFs::new('/');
    fs.fail_rename = true;
    fs.dir("/a");
    fs.dir("/a/d");
    fs.file("/a/d/x", b"xx");
    fs.dir("/b");
    let r = fs.run(FileOp::move_item("/a/d", "/b", '/'));
    assert_eq!(r.unwrap(), "/b/d");
    assert_eq!(fs.files["/b/d/x"], b"xx".to_vec());
    assert!(!fs.dirs.contains("/a/d"));
    assert!(!fs.files.contains_key("/a/d/x"));
}

#[test]
fn move_that_cannot_remove_source_reports_duplicate() {
    let mut fs = MemFs::new('/');
    fs.fail_rename = true;
    fs.fail_remove = true;
    fs.dir("/a");
    fs.dir("/b");
    fs.file("/a/f", b"data");
    let e = fs.run(FileOp::move_item("/a/f", "/b", '/')).unwrap_err();
    assert_eq!(e.kind, FsErrorKind::Duplicated);
    assert_eq!(fs.files["/a/f"], b"data".to_vec());
    assert_eq!(fs.files["/b/f"], b"data".to_vec());
}

#[test]
fn move_onto_existing_destination_is_refused() {
    let mut fs = MemFs::new('/');
    fs.dir("/a");
    fs.dir("/b");
    fs.file("/a/f", b"1");
    fs.file("/b/f", b"2");
    let e = fs.run(FileOp::move_item("/a/f", "/b", '/')).unwrap_err();
    assert_eq!(e.kind, FsErrorKind::AlreadyExists);
    assert_eq!(e.detail, "/b/f");
    assert_eq!(mutations(&fs.log), 0);
}

#[test]
fn wrong_event_ends_operation() {
    let mut op = FileOp::delete_item("/x", '/');
    op.handle(FsEvent::Done);
    let e = op.outcome().unwrap().unwrap_err();
    assert_eq!(e.kind, FsErrorKind::UnexpectedEvent);
    assert!(op.next_action().is_none());
}

#[test]
fn copy_failure_mid_tree_is_reported() {
    let mut op = FileOp::copy_item("/s/d", "/t", '/');
    op.handle(FsEvent::Probed(PathKind::Dir));
    op.handle(FsEvent::Probed(PathKind::Missing));
    let a = op.next_action().unwrap();
    assert_eq!(a.kind, ActionKind::CreateDirAll);
    assert_eq!(a.path, "/t/d");
    op.handle(FsEvent::Failed("disk full".to_string()));
    let e = op.outcome().unwrap().unwrap_err();
    assert_eq!(e.kind, FsErrorKind::Io);
    assert_eq!(e.detail, "disk full");
}
