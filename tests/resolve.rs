use std::collections::HashMap;
use std::io::Write;

use mnist_extractor::artifact::{Artifact, CacheConfig};
use mnist_extractor::resolve::{Action, Event, ResolveError, Resolver, Stage};

fn gz(data: &[u8]) -> Vec<u8> {
    let mut e = libflate::gzip::Encoder::new(Vec::new()).unwrap();
    e.write_all(data).unwrap();
    e.finish().into_result().unwrap()
}

fn config() -> CacheConfig {
    CacheConfig::new("cache/", "http://example.test/mnist/")
}

struct World {
    files: HashMap<String, Vec<u8>>,
    remote: HashMap<String, Vec<u8>>,
    fetches: usize,
}

fn resolve(world: &mut World, a: Artifact) -> Result<Vec<u8>, ResolveError> {
    let (mut r, mut act) = Resolver::start(config(), a);
    loop {
        let event = match act {
            Action::Read(p) => match world.files.get(&p) {
                Some(b) => Event::Loaded(b.clone()),
                None => Event::Missing,
            },
            Action::Write(p, b) => {
                world.files.insert(p, b);
                Event::Done
            }
            Action::Fetch(u) => {
                world.fetches += 1;
                match world.remote.get(&u) {
                    Some(b) => Event::Loaded(b.clone()),
                    None => Event::Failed,
                }
            }
            Action::Deliver(b) => return Ok(b),
            Action::Fail(e) => return Err(e),
        };
        act = r.step(event);
    }
}

#[test]
fn paths_and_address() {
    let c = config();
    assert_eq!(c.decompressed_path(Artifact::TestLabels), "cache/t10k-labels-idx1-ubyte");
    assert_eq!(c.compressed_path(Artifact::TrainImages), "cache/train-images-idx3-ubyte.gz");
    assert_eq!(
        c.remote_url(Artifact::TrainLabels),
        "http://example.test/mnist/train-labels-idx1-ubyte.gz"
    );
    let s = CacheConfig::standard();
    assert_eq!(s.compressed_path(Artifact::TestImages), "./data/t10k-images-idx3-ubyte.gz");
    assert_eq!(Artifact::at(3), Artifact::TrainImages);
}

#[test]
fn decompressed_copy_is_read_first() {
    let mut w = World { files: HashMap::new(), remote: HashMap::new(), fetches: 0 };
    w.files.insert("cache/t10k-labels-idx1-ubyte".to_string(), vec![1, 2, 3]);
    assert_eq!(resolve(&mut w, Artifact::TestLabels), Ok(vec![1, 2, 3]));
    assert_eq!(w.fetches, 0);
}

#[test]
fn compressed_copy_is_decompressed_without_network() {
    let mut w = World { files: HashMap::new(), remote: HashMap::new(), fetches: 0 };
    w.files.insert("cache/t10k-images-idx3-ubyte.gz".to_string(), gz(b"pixels"));
    assert_eq!(resolve(&mut w, Artifact::TestImages), Ok(b"pixels".to_vec()));
    assert_eq!(w.fetches, 0);
    assert_eq!(w.files.get("cache/t10k-images-idx3-ubyte"), Some(&b"pixels".to_vec()));
}

#[test]
fn second_resolve_does_not_fetch() {
    let mut w = World { files: HashMap::new(), remote: HashMap::new(), fetches: 0 };
    w.remote.insert(
        "http://example.test/mnist/train-labels-idx1-ubyte.gz".to_string(),
        gz(b"labels"),
    );
    assert_eq!(resolve(&mut w, Artifact::TrainLabels), Ok(b"labels".to_vec()));
    assert_eq!(w.fetches, 1);
    assert!(w.files.contains_key("cache/train-labels-idx1-ubyte.gz"));
    assert_eq!(resolve(&mut w, Artifact::TrainLabels), Ok(b"labels".to_vec()));
    assert_eq!(w.fetches, 1);
}

#[test]
fn failed_fetch_is_fatal() {
    let mut w = World { files: HashMap::new(), remote: HashMap::new(), fetches: 0 };
    assert_eq!(resolve(&mut w, Artifact::TrainImages), Err(ResolveError::FetchFailed));
    assert_eq!(w.fetches, 1);
    assert!(w.files.is_empty());
}

#[test]
fn malformed_compressed_copy_is_fatal() {
    let mut w = World { files: HashMap::new(), remote: HashMap::new(), fetches: 0 };
    w.files.insert("cache/t10k-labels-idx1-ubyte.gz".to_string(), b"not gzip".to_vec());
    assert_eq!(resolve(&mut w, Artifact::TestLabels), Err(ResolveError::Malformed));
    assert_eq!(w.fetches, 0);
}

#[test]
fn failed_writes_and_reads_are_fatal() {
    let (mut r, _) = Resolver::start(config(), Artifact::TestLabels);
    r.step(Event::Missing);
    assert_eq!(r.step(Event::Missing), Action::Fetch("http://example.test/mnist/t10k-labels-idx1-ubyte.gz".to_string()));
    assert_eq!(
        r.step(Event::Loaded(vec![9])),
        Action::Write("cache/t10k-labels-idx1-ubyte.gz".to_string(), vec![9])
    );
    assert_eq!(r.step(Event::Failed), Action::Fail(ResolveError::StoreFailed));
    assert_eq!(r.stage, Stage::Finished);

    let (mut r, _) = Resolver::start(config(), Artifact::TestLabels);
    r.step(Event::Missing);
    r.step(Event::Missing);
    r.step(Event::Loaded(vec![9]));
    assert_eq!(r.step(Event::Done), Action::Read("cache/t10k-labels-idx1-ubyte.gz".to_string()));
    assert_eq!(r.step(Event::Missing), Action::Fail(ResolveError::MissingDownload));

    let (mut r, _) = Resolver::start(config(), Artifact::TestLabels);
    r.step(Event::Missing);
    assert_eq!(
        r.step(Event::Loaded(gz(b"abc"))),
        Action::Write("cache/t10k-labels-idx1-ubyte".to_string(), b"abc".to_vec())
    );
    assert_eq!(r.step(Event::Failed), Action::Fail(ResolveError::WriteFailed));

    let (mut r, _) = Resolver::start(config(), Artifact::TestLabels);
    r.step(Event::Missing);
    r.step(Event::Loaded(gz(b"abc")));
    r.step(Event::Done);
    assert_eq!(r.step(Event::Missing), Action::Fail(ResolveError::ReadFailed));
}

#[test]
fn unreadable_decompressed_copy_is_fatal() {
    let (mut r, _) = Resolver::start(config(), Artifact::TestImages);
    assert_eq!(r.step(Event::Failed), Action::Fail(ResolveError::ReadFailed));
    assert_eq!(r.stage, Stage::Finished);
}

#[test]
fn unreadable_compressed_copy_is_fatal() {
    let (mut r, _) = Resolver::start(config(), Artifact::TestImages);
    assert_eq!(
        r.step(Event::Missing),
        Action::Read("cache/t10k-images-idx3-ubyte.gz".to_string())
    );
    assert_eq!(r.step(Event::Failed), Action::Fail(ResolveError::ReadFailed));
    assert_eq!(r.stage, Stage::Finished);
}

#[test]
fn take_decompressed_writes_or_fails() {
    let (mut r, _) = Resolver::start(config(), Artifact::TrainImages);
    r.step(Event::Missing);
    assert_eq!(
        r.take_decompressed(Some(vec![5, 6])),
        Action::Write("cache/train-images-idx3-ubyte".to_string(), vec![5, 6])
    );
    let (mut r, _) = Resolver::start(config(), Artifact::TrainImages);
    r.step(Event::Missing);
    assert_eq!(r.take_decompressed(None), Action::Fail(ResolveError::Malformed));
}
