//! The four dataset files and where their cached copies and remote sources are.
use vstd::prelude::*;
use vstd::string::StringExecFns;

verus! {

/// Suffix of a compressed file, locally and remotely.
pub const GZ_SUFFIX: &'static str = ".gz";

/// Directory of the cache when none is chosen.
pub const DEFAULT_ROOT: &'static str = "./data/";

/// Address the compressed files are fetched from when none is chosen.
pub const DEFAULT_BASE_URL: &'static str = "http://yann.lecun.com/exdb/mnist/";

/// One of the four dataset files.
#[derive(Clone, Copy, Debug, PartialEq, Eq, Structural)]
pub enum Artifact {
    TestLabels,
    TestImages,
    TrainLabels,
    TrainImages,
}

/// The bare file name of an artifact.
pub open spec fn artifact_name(a: Artifact) -> Seq<char> {
    match a {
        Artifact::TestLabels => "t10k-labels-idx1-ubyte"@,
        Artifact::TestImages => "t10k-images-idx3-ubyte"@,
        Artifact::TrainLabels => "train-labels-idx1-ubyte"@,
        Artifact::TrainImages => "train-images-idx3-ubyte"@,
    }
}

/// The artifacts in the order in which they are loaded and removed.
pub open spec fn artifact_at(i: int) -> Artifact {
    if i == 0 {
        Artifact::TestLabels
    } else if i == 1 {
        Artifact::TestImages
    } else if i == 2 {
        Artifact::TrainLabels
    } else {
        Artifact::TrainImages
    }
}

/// Number of artifacts.
pub const ARTIFACT_COUNT: usize = 4;

impl Artifact {
    /// The bare file name of this artifact.
    pub fn file_name(&self) -> (r: &'static str)
        ensures
            r@ == artifact_name(*self),
    {
        match self {
            Artifact::TestLabels => "t10k-labels-idx1-ubyte",
            Artifact::TestImages => "t10k-images-idx3-ubyte",
            Artifact::TrainLabels => "train-labels-idx1-ubyte",
            Artifact::TrainImages => "train-images-idx3-ubyte",
        }
    }

    /// The artifact at position `i` of the loading order.
    pub fn at(i: usize) -> (a: Artifact)
        requires
            i < ARTIFACT_COUNT,
        ensures
            a == artifact_at(i as int),
    {
        if i == 0 {
            Artifact::TestLabels
        } else if i == 1 {
            Artifact::TestImages
        } else if i == 2 {
            Artifact::TrainLabels
        } else {
            Artifact::TrainImages
        }
    }
}

/// Where the cache lives and where files are fetched from. Both are
/// prefixes: a file name is appended to them as it is.
#[derive(Debug)]
pub struct CacheConfig {
    pub root: String,
    pub base_url: String,
}

/// Path of the decompressed copy of `a`.
pub open spec fn decompressed_path(cfg: CacheConfig, a: Artifact) -> Seq<char> {
    cfg.root@ + artifact_name(a)
}

/// Path of the compressed copy of `a`.
pub open spec fn compressed_path(cfg: CacheConfig, a: Artifact) -> Seq<char> {
    cfg.root@ + artifact_name(a) + GZ_SUFFIX@
}

/// Address the compressed copy of `a` is fetched from.
pub open spec fn remote_url(cfg: CacheConfig, a: Artifact) -> Seq<char> {
    cfg.base_url@ + artifact_name(a) + GZ_SUFFIX@
}

impl CacheConfig {
    /// A cache under `root`, fed from `base_url`.
    pub fn new(root: &str, base_url: &str) -> (r: CacheConfig)
        ensures
            r.root@ == root@,
            r.base_url@ == base_url@,
    {
        CacheConfig { root: String::from_str(root), base_url: String::from_str(base_url) }
    }

    /// The cache under `./data/`, fed from the files' original address.
    pub fn standard() -> (r: CacheConfig)
        ensures
            r.root@ == DEFAULT_ROOT@,
            r.base_url@ == DEFAULT_BASE_URL@,
    {
        CacheConfig::new(DEFAULT_ROOT, DEFAULT_BASE_URL)
    }

    /// Path of the decompressed copy of `a`.
    pub fn decompressed_path(&self, a: Artifact) -> (r: String)
        ensures
            r@ == decompressed_path(*self, a),
    {
        let mut p = self.root.clone();
        p.append(a.file_name());
        p
    }

    /// Path of the compressed copy of `a`.
    pub fn compressed_path(&self, a: Artifact) -> (r: String)
        ensures
            r@ == compressed_path(*self, a),
    {
        let mut p = self.root.clone();
        p.append(a.file_name());
        p.append(GZ_SUFFIX);
        p
    }

    /// Address the compressed copy of `a` is fetched from.
    pub fn remote_url(&self, a: Artifact) -> (r: String)
        ensures
            r@ == remote_url(*self, a),
    {
        let mut u = self.base_url.clone();
        u.append(a.file_name());
        u.append(GZ_SUFFIX);
        u
    }
}

} // verus!
