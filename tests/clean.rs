use std::collections::HashSet;

use mnist_extractor::artifact::{Artifact, CacheConfig};
use mnist_extractor::clean::{CleanAction, CleanScope, Cleaner};

fn clean(files: &mut HashSet<String>, scope: CleanScope) -> Result<(), String> {
    let (mut c, mut act) = Cleaner::start(CacheConfig::new("d/", "u/"), scope);
    loop {
        match act {
            CleanAction::Remove(p) => {
                let removed = files.remove(&p);
                act = c.step(removed);
            }
            CleanAction::Done => return Ok(()),
            CleanAction::Fail(p) => return Err(p),
        }
    }
}

fn all_files() -> HashSet<String> {
    let cfg = CacheConfig::new("d/", "u/");
    let mut s = HashSet::new();
    for i in 0..4 {
        let a = Artifact::at(i);
        s.insert(cfg.decompressed_path(a));
        s.insert(cfg.compressed_path(a));
    }
    s
}

#[test]
fn clean_everything_on_empty_cache_fails_on_compressed() {
    let mut files = HashSet::new();
    assert_eq!(
        clean(&mut files, CleanScope::Everything),
        Err("d/t10k-labels-idx1-ubyte.gz".to_string())
    );
}

#[test]
fn clean_decompressed_on_empty_cache_fails_first() {
    let mut files = HashSet::new();
    assert_eq!(
        clean(&mut files, CleanScope::Decompressed),
        Err("d/t10k-labels-idx1-ubyte".to_string())
    );
}

#[test]
fn clean_everything_removes_all() {
    let mut files = all_files();
    assert_eq!(files.len(), 8);
    assert_eq!(clean(&mut files, CleanScope::Everything), Ok(()));
    assert!(files.is_empty());
}

#[test]
fn clean_decompressed_keeps_compressed() {
    let mut files = all_files();
    assert_eq!(clean(&mut files, CleanScope::Decompressed), Ok(()));
    assert_eq!(files.len(), 4);
    assert!(files.iter().all(|p| p.ends_with(".gz")));
}

#[test]
fn clean_decompressed_stops_at_first_missing() {
    let mut files = all_files();
    files.remove("d/t10k-images-idx3-ubyte");
    assert_eq!(
        clean(&mut files, CleanScope::Decompressed),
        Err("d/t10k-images-idx3-ubyte".to_string())
    );
    assert!(files.contains("d/train-labels-idx1-ubyte"));
}

#[test]
fn clean_everything_passes_over_missing_decompressed() {
    let mut files = all_files();
    files.remove("d/t10k-images-idx3-ubyte");
    assert_eq!(clean(&mut files, CleanScope::Everything), Ok(()));
    assert!(files.contains("d/train-labels-idx1-ubyte"));
    assert_eq!(files.len(), 2);
}
