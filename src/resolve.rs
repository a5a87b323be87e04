//! The cache policy that yields the decompressed bytes of an artifact: the
//! decompressed copy if it is on disk, else the compressed copy decompressed,
//! else a fresh download of the compressed copy.
//!
//! The policy is a state machine. It never touches the disk or the network
//! itself: each step names an action, the caller performs it and feeds the
//! outcome back as the next event.
use vstd::prelude::*;
use crate::artifact::{Artifact, CacheConfig, compressed_path, decompressed_path, remote_url};
use crate::gzip::{gunzip, gunzip_of};

verus! {

/// Where a resolution stands: what the last action was, whose outcome the
/// next event reports.
#[derive(Clone, Copy, Debug, PartialEq, Eq, Structural)]
pub enum Stage {
    /// Reading the decompressed copy, the first place looked.
    ReadingDecompressed,
    /// Reading the compressed copy; `fetched` when it was just downloaded.
    ReadingCompressed { fetched: bool },
    /// Fetching the compressed copy from the remote address.
    Fetching,
    /// Storing the downloaded body as the compressed copy.
    StoringDownload,
    /// Writing the decompressed copy.
    WritingDecompressed,
    /// Reading back the decompressed copy just written.
    Rereading,
    /// The bytes were delivered, or the resolution failed.
    Finished,
}

/// Why a resolution failed. No failure is retried.
#[derive(Clone, Copy, Debug, PartialEq, Eq, Structural)]
pub enum ResolveError {
    /// The remote fetch failed.
    FetchFailed,
    /// The downloaded body could not be stored.
    StoreFailed,
    /// The compressed copy just stored could not be read.
    MissingDownload,
    /// The compressed copy is not a well-formed gzip stream.
    Malformed,
    /// The decompressed copy could not be written.
    WriteFailed,
    /// A copy on disk could not be read, or the decompressed copy just
    /// written was not there to read back.
    ReadFailed,
}

/// The outcome of the last action, as the caller reports it.
#[derive(Debug, PartialEq, Eq)]
pub enum Event {
    /// A read or a fetch returned these bytes.
    Loaded(Vec<u8>),
    /// A write succeeded.
    Done,
    /// A read found no file at the path.
    Missing,
    /// The action failed for another reason.
    Failed,
}

/// What the caller is asked to do next.
#[derive(Debug, PartialEq, Eq)]
pub enum Action {
    /// Read the whole file at this path.
    Read(String),
    /// Create or replace the file at this path with these bytes.
    Write(String, Vec<u8>),
    /// Fetch the body at this address.
    Fetch(String),
    /// The resolution is over: these are the artifact's bytes.
    Deliver(Vec<u8>),
    /// The resolution is over and failed.
    Fail(ResolveError),
}

/// An event as a mathematical value.
pub enum EventModel {
    Loaded(Seq<u8>),
    Done,
    Missing,
    Failed,
}

/// An action as a mathematical value.
pub enum ActionModel {
    Read(Seq<char>),
    Write(Seq<char>, Seq<u8>),
    Fetch(Seq<char>),
    Deliver(Seq<u8>),
    Fail(ResolveError),
}

impl View for Event {
    type V = EventModel;

    open spec fn view(&self) -> EventModel {
        match self {
            Event::Loaded(b) => EventModel::Loaded(b@),
            Event::Done => EventModel::Done,
            Event::Missing => EventModel::Missing,
            Event::Failed => EventModel::Failed,
        }
    }
}

impl View for Action {
    type V = ActionModel;

    open spec fn view(&self) -> ActionModel {
        match self {
            Action::Read(p) => ActionModel::Read(p@),
            Action::Write(p, b) => ActionModel::Write(p@, b@),
            Action::Fetch(u) => ActionModel::Fetch(u@),
            Action::Deliver(b) => ActionModel::Deliver(b@),
            Action::Fail(e) => ActionModel::Fail(*e),
        }
    }
}

/// Whether an action ends the resolution.
pub open spec fn is_final(act: ActionModel) -> bool {
    act is Deliver || act is Fail
}

/// The step after the compressed copy was decompressed to `raw` (`None`: it
/// was malformed): write the decompressed copy, or fail.
pub open spec fn after_decompress(cfg: CacheConfig, a: Artifact, raw: Option<Seq<u8>>) -> (
    Stage,
    ActionModel,
) {
    match raw {
        Some(r) => (Stage::WritingDecompressed, ActionModel::Write(decompressed_path(cfg, a), r)),
        None => (Stage::Finished, ActionModel::Fail(ResolveError::Malformed)),
    }
}

/// The next stage and action of the resolution of `a` under `cfg`, from
/// stage `s` and the outcome `e` of the last action.
pub open spec fn resolve_next(cfg: CacheConfig, a: Artifact, s: Stage, e: EventModel) -> (
    Stage,
    ActionModel,
) {
    match s {
        Stage::ReadingDecompressed => match e {
            EventModel::Loaded(b) => (Stage::Finished, ActionModel::Deliver(b)),
            EventModel::Missing => (
                Stage::ReadingCompressed { fetched: false },
                ActionModel::Read(compressed_path(cfg, a)),
            ),
            _ => (Stage::Finished, ActionModel::Fail(ResolveError::ReadFailed)),
        },
        Stage::ReadingCompressed { fetched } => match e {
            EventModel::Loaded(gz) => after_decompress(cfg, a, gunzip_of(gz)),
            EventModel::Missing => if fetched {
                (Stage::Finished, ActionModel::Fail(ResolveError::MissingDownload))
            } else {
                (Stage::Fetching, ActionModel::Fetch(remote_url(cfg, a)))
            },
            _ => (Stage::Finished, ActionModel::Fail(ResolveError::ReadFailed)),
        },
        Stage::Fetching => match e {
            EventModel::Loaded(body) => (
                Stage::StoringDownload,
                ActionModel::Write(compressed_path(cfg, a), body),
            ),
            _ => (Stage::Finished, ActionModel::Fail(ResolveError::FetchFailed)),
        },
        Stage::StoringDownload => match e {
            EventModel::Done => (
                Stage::ReadingCompressed { fetched: true },
                ActionModel::Read(compressed_path(cfg, a)),
            ),
            _ => (Stage::Finished, ActionModel::Fail(ResolveError::StoreFailed)),
        },
        Stage::WritingDecompressed => match e {
            EventModel::Done => (Stage::Rereading, ActionModel::Read(decompressed_path(cfg, a))),
            _ => (Stage::Finished, ActionModel::Fail(ResolveError::WriteFailed)),
        },
        Stage::Rereading => match e {
            EventModel::Loaded(b) => (Stage::Finished, ActionModel::Deliver(b)),
            _ => (Stage::Finished, ActionModel::Fail(ResolveError::ReadFailed)),
        },
        Stage::Finished => (Stage::Finished, ActionModel::Fail(ResolveError::ReadFailed)),
    }
}

/// The resolution of one artifact.
pub struct Resolver {
    pub config: CacheConfig,
    pub artifact: Artifact,
    pub stage: Stage,
}

impl Resolver {
    /// Begins the resolution of `artifact`: the first action reads its
    /// decompressed copy.
    pub fn start(config: CacheConfig, artifact: Artifact) -> (r: (Resolver, Action))
        ensures
            r.0.config == config,
            r.0.artifact == artifact,
            r.0.stage == Stage::ReadingDecompressed,
            r.1@ == ActionModel::Read(decompressed_path(config, artifact)),
    {
        let path = config.decompressed_path(artifact);
        (Resolver { config, artifact, stage: Stage::ReadingDecompressed }, Action::Read(path))
    }

    /// Moves on from a decompression of the compressed copy that gave `raw`
    /// (`None`: the stream was malformed).
    pub fn take_decompressed(&mut self, raw: Option<Vec<u8>>) -> (act: Action)
        ensures
            final(self).config == old(self).config,
            final(self).artifact == old(self).artifact,
            (final(self).stage, act@) == after_decompress(
                old(self).config,
                old(self).artifact,
                match raw {
                    Some(r) => Some(r@),
                    None => None,
                },
            ),
    {
        match raw {
            Some(r) => {
                self.stage = Stage::WritingDecompressed;
                Action::Write(self.config.decompressed_path(self.artifact), r)
            },
            None => {
                self.stage = Stage::Finished;
                Action::Fail(ResolveError::Malformed)
            },
        }
    }

    /// Takes the outcome of the last action and names the next one.
    pub fn step(&mut self, event: Event) -> (act: Action)
        requires
            old(self).stage != Stage::Finished,
        ensures
            final(self).config == old(self).config,
            final(self).artifact == old(self).artifact,
            (final(self).stage, act@) == resolve_next(
                old(self).config,
                old(self).artifact,
                old(self).stage,
                event@,
            ),
    {
        match self.stage {
            Stage::ReadingDecompressed => match event {
                Event::Loaded(b) => {
                    self.stage = Stage::Finished;
                    Action::Deliver(b)
                },
                Event::Missing => {
                    self.stage = Stage::ReadingCompressed { fetched: false };
                    Action::Read(self.config.compressed_path(self.artifact))
                },
                _ => {
                    self.stage = Stage::Finished;
                    Action::Fail(ResolveError::ReadFailed)
                },
            },
            Stage::ReadingCompressed { fetched } => match event {
                Event::Loaded(gz) => {
                    let raw = gunzip(gz.as_slice());
                    self.take_decompressed(raw)
                },
                Event::Missing => if fetched {
                    self.stage = Stage::Finished;
                    Action::Fail(ResolveError::MissingDownload)
                } else {
                    self.stage = Stage::Fetching;
                    Action::Fetch(self.config.remote_url(self.artifact))
                },
                _ => {
                    self.stage = Stage::Finished;
                    Action::Fail(ResolveError::ReadFailed)
                },
            },
            Stage::Fetching => match event {
                Event::Loaded(body) => {
                    self.stage = Stage::StoringDownload;
                    Action::Write(self.config.compressed_path(self.artifact), body)
                },
                _ => {
                    self.stage = Stage::Finished;
                    Action::Fail(ResolveError::FetchFailed)
                },
            },
            Stage::StoringDownload => match event {
                Event::Done => {
                    self.stage = Stage::ReadingCompressed { fetched: true };
                    Action::Read(self.config.compressed_path(self.artifact))
                },
                _ => {
                    self.stage = Stage::Finished;
                    Action::Fail(ResolveError::StoreFailed)
                },
            },
            Stage::WritingDecompressed => match event {
                Event::Done => {
                    self.stage = Stage::Rereading;
                    Action::Read(self.config.decompressed_path(self.artifact))
                },
                _ => {
                    self.stage = Stage::Finished;
                    Action::Fail(ResolveError::WriteFailed)
                },
            },
            Stage::Rereading => match event {
                Event::Loaded(b) => {
                    self.stage = Stage::Finished;
                    Action::Deliver(b)
                },
                _ => {
                    self.stage = Stage::Finished;
                    Action::Fail(ResolveError::ReadFailed)
                },
            },
            Stage::Finished => Action::Fail(ResolveError::ReadFailed),
        }
    }
}

/// How a well-behaved disk and network answer an action: a read returns the
/// file if there is one and reports it missing otherwise, a write always succeeds, a fetch returns the body
/// served at the address if there is one. The second component is the disk
/// afterwards.
pub open spec fn answer(
    files: Map<Seq<char>, Seq<u8>>,
    remote: Map<Seq<char>, Seq<u8>>,
    act: ActionModel,
) -> (EventModel, Map<Seq<char>, Seq<u8>>) {
    match act {
        ActionModel::Read(p) => if files.contains_key(p) {
            (EventModel::Loaded(files[p]), files)
        } else {
            (EventModel::Missing, files)
        },
        ActionModel::Write(p, b) => (EventModel::Done, files.insert(p, b)),
        ActionModel::Fetch(u) => if remote.contains_key(u) {
            (EventModel::Loaded(remote[u]), files)
        } else {
            (EventModel::Failed, files)
        },
        _ => (EventModel::Done, files),
    }
}

/// The end of a resolution run against a model disk and network.
pub struct Outcome {
    /// The final action: `Deliver` or `Fail`.
    pub last: ActionModel,
    /// The disk afterwards.
    pub files: Map<Seq<char>, Seq<u8>>,
    /// Whether any fetch was made on the way.
    pub fetched: bool,
}

/// Runs the resolution from stage `s` and pending action `act` for at most
/// `fuel` more steps.
pub open spec fn run(
    cfg: CacheConfig,
    a: Artifact,
    s: Stage,
    act: ActionModel,
    files: Map<Seq<char>, Seq<u8>>,
    remote: Map<Seq<char>, Seq<u8>>,
    fuel: nat,
) -> Outcome
    decreases fuel,
{
    if is_final(act) || fuel == 0 {
        Outcome { last: act, files, fetched: false }
    } else {
        let (e, files2) = answer(files, remote, act);
        let (s2, act2) = resolve_next(cfg, a, s, e);
        let rest = run(cfg, a, s2, act2, files2, remote, (fuel - 1) as nat);
        Outcome { last: rest.last, files: rest.files, fetched: rest.fetched || act is Fetch }
    }
}

/// Steps that any resolution needs at most.
pub open spec fn resolve_fuel() -> nat {
    8
}

/// A whole resolution of `a` against the disk `files` and the network `remote`.
pub open spec fn resolve_model(
    cfg: CacheConfig,
    a: Artifact,
    files: Map<Seq<char>, Seq<u8>>,
    remote: Map<Seq<char>, Seq<u8>>,
) -> Outcome {
    run(
        cfg,
        a,
        Stage::ReadingDecompressed,
        ActionModel::Read(decompressed_path(cfg, a)),
        files,
        remote,
        resolve_fuel(),
    )
}

/// The pending action agrees with the stage, and a delivery hands out the
/// decompressed copy on `files`.
spec fn consistent(
    cfg: CacheConfig,
    a: Artifact,
    s: Stage,
    act: ActionModel,
    files: Map<Seq<char>, Seq<u8>>,
) -> bool {
    &&& (s == Stage::ReadingDecompressed || s == Stage::Rereading) ==> act == ActionModel::Read(
        decompressed_path(cfg, a),
    )
    &&& act matches ActionModel::Deliver(b) ==> files.contains_key(decompressed_path(cfg, a))
        && files[decompressed_path(cfg, a)] == b
}

proof fn lemma_delivered_is_on_disk(
    cfg: CacheConfig,
    a: Artifact,
    s: Stage,
    act: ActionModel,
    files: Map<Seq<char>, Seq<u8>>,
    remote: Map<Seq<char>, Seq<u8>>,
    fuel: nat,
)
    requires
        consistent(cfg, a, s, act, files),
    ensures
        ({
            let o = run(cfg, a, s, act, files, remote, fuel);
            o.last matches ActionModel::Deliver(b) ==> o.files.contains_key(
                decompressed_path(cfg, a),
            ) && o.files[decompressed_path(cfg, a)] == b
        }),
    decreases fuel,
{
    if !(is_final(act) || fuel == 0) {
        let (e, files2) = answer(files, remote, act);
        let (s2, act2) = resolve_next(cfg, a, s, e);
        assert(consistent(cfg, a, s2, act2, files2));
        lemma_delivered_is_on_disk(cfg, a, s2, act2, files2, remote, (fuel - 1) as nat);
    }
}

/// Once a resolution has delivered, a second resolution of the same artifact
/// fetches nothing, leaves the disk as it is and delivers the same bytes.
pub proof fn lemma_second_resolve_fetches_nothing(
    cfg: CacheConfig,
    a: Artifact,
    files: Map<Seq<char>, Seq<u8>>,
    remote: Map<Seq<char>, Seq<u8>>,
)
    requires
        resolve_model(cfg, a, files, remote).last is Deliver,
    ensures
        ({
            let first = resolve_model(cfg, a, files, remote);
            let second = resolve_model(cfg, a, first.files, remote);
            &&& !second.fetched
            &&& second.last == first.last
            &&& second.files == first.files
        }),
{
    let d = decompressed_path(cfg, a);
    lemma_delivered_is_on_disk(
        cfg,
        a,
        Stage::ReadingDecompressed,
        ActionModel::Read(d),
        files,
        remote,
        resolve_fuel(),
    );
    let first = resolve_model(cfg, a, files, remote);
    let second = resolve_model(cfg, a, first.files, remote);
    assert(second == run(
        cfg,
        a,
        Stage::Finished,
        ActionModel::Deliver(first.files[d]),
        first.files,
        remote,
        (resolve_fuel() - 1) as nat,
    ));
}

/// With only the compressed copy on disk and nothing reachable on the
/// network, a resolution decompresses that copy, writes the decompressed copy
/// and delivers it, without fetching.
pub proof fn lemma_compressed_copy_suffices(
    cfg: CacheConfig,
    a: Artifact,
    files: Map<Seq<char>, Seq<u8>>,
)
    requires
        files.contains_key(compressed_path(cfg, a)),
        !files.contains_key(decompressed_path(cfg, a)),
        gunzip_of(files[compressed_path(cfg, a)]) is Some,
    ensures
        ({
            let raw = gunzip_of(files[compressed_path(cfg, a)])->0;
            let o = resolve_model(cfg, a, files, Map::empty());
            &&& o.last == ActionModel::Deliver(raw)
            &&& !o.fetched
            &&& o.files == files.insert(decompressed_path(cfg, a), raw)
        }),
{
    let d = decompressed_path(cfg, a);
    let c = compressed_path(cfg, a);
    let raw = gunzip_of(files[c])->0;
    let remote = Map::<Seq<char>, Seq<u8>>::empty();
    let files2 = files.insert(d, raw);
    assert(run(cfg, a, Stage::Rereading, ActionModel::Read(d), files2, remote, 5) == Outcome {
        last: ActionModel::Deliver(raw),
        files: files2,
        fetched: false,
    }) by {
        reveal_with_fuel(run, 2);
    }
    assert(run(
        cfg,
        a,
        Stage::ReadingCompressed { fetched: false },
        ActionModel::Read(c),
        files,
        remote,
        7,
    ) == run(cfg, a, Stage::Rereading, ActionModel::Read(d), files2, remote, 5)) by {
        reveal_with_fuel(run, 3);
    }
}

} // verus!
