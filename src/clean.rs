//! Removal of the cached copies. Like resolution, it is a state machine that
//! names the next file to remove and learns from the caller whether the
//! removal succeeded.
//!
//! Removing the decompressed copies stops at the first one that cannot be
//! removed. Removing everything tries the decompressed copies in that way
//! but passes over their failure, then removes the compressed copies, and a
//! failure there ends it.
use vstd::prelude::*;
use crate::artifact::{
    ARTIFACT_COUNT,
    Artifact,
    CacheConfig,
    artifact_at,
    compressed_path,
    decompressed_path,
};

verus! {

/// Which copies are to go.
#[derive(Clone, Copy, Debug, PartialEq, Eq, Structural)]
pub enum CleanScope {
    /// The four decompressed copies.
    Decompressed,
    /// The four decompressed copies if possible, then the four compressed ones.
    Everything,
}

/// Which copies are being removed.
#[derive(Clone, Copy, Debug, PartialEq, Eq, Structural)]
pub enum CleanPhase {
    Decompressed,
    Compressed,
    Finished,
}

/// What the caller is asked to do next.
#[derive(Debug, PartialEq, Eq)]
pub enum CleanAction {
    /// Remove the file at this path.
    Remove(String),
    /// Everything asked for was removed.
    Done,
    /// The file at this path could not be removed; nothing more is tried.
    Fail(String),
}

/// A cleaning action as a mathematical value.
pub enum CleanActionModel {
    Remove(Seq<char>),
    Done,
    Fail(Seq<char>),
}

impl View for CleanAction {
    type V = CleanActionModel;

    open spec fn view(&self) -> CleanActionModel {
        match self {
            CleanAction::Remove(p) => CleanActionModel::Remove(p@),
            CleanAction::Done => CleanActionModel::Done,
            CleanAction::Fail(p) => CleanActionModel::Fail(p@),
        }
    }
}

/// The path removed at position `i` of phase `ph`.
pub open spec fn phase_path(cfg: CacheConfig, ph: CleanPhase, i: int) -> Seq<char> {
    match ph {
        CleanPhase::Compressed => compressed_path(cfg, artifact_at(i)),
        _ => decompressed_path(cfg, artifact_at(i)),
    }
}

/// The next phase, position and action after the removal at position `i` of
/// phase `ph`, which succeeded when `removed`.
pub open spec fn clean_next(
    cfg: CacheConfig,
    scope: CleanScope,
    ph: CleanPhase,
    i: int,
    removed: bool,
) -> (CleanPhase, int, CleanActionModel) {
    if ph == CleanPhase::Finished {
        (CleanPhase::Finished, i, CleanActionModel::Done)
    } else if removed && i + 1 < ARTIFACT_COUNT {
        (ph, i + 1, CleanActionModel::Remove(phase_path(cfg, ph, i + 1)))
    } else if ph == CleanPhase::Decompressed && scope == CleanScope::Everything {
        (CleanPhase::Compressed, 0, CleanActionModel::Remove(compressed_path(cfg, artifact_at(0))))
    } else if removed {
        (CleanPhase::Finished, i, CleanActionModel::Done)
    } else {
        (CleanPhase::Finished, i, CleanActionModel::Fail(phase_path(cfg, ph, i)))
    }
}

/// A cleaning of the cache.
pub struct Cleaner {
    pub config: CacheConfig,
    pub scope: CleanScope,
    pub phase: CleanPhase,
    pub index: usize,
}

impl Cleaner {
    /// Begins a cleaning: the first action removes the decompressed copy of
    /// the first artifact.
    pub fn start(config: CacheConfig, scope: CleanScope) -> (r: (Cleaner, CleanAction))
        ensures
            r.0.config == config,
            r.0.scope == scope,
            r.0.phase == CleanPhase::Decompressed,
            r.0.index == 0,
            r.1@ == CleanActionModel::Remove(decompressed_path(config, artifact_at(0))),
    {
        let path = config.decompressed_path(Artifact::at(0));
        (Cleaner { config, scope, phase: CleanPhase::Decompressed, index: 0 }, CleanAction::Remove(
            path,
        ))
    }

    /// Takes whether the last removal succeeded and names the next action.
    pub fn step(&mut self, removed: bool) -> (act: CleanAction)
        requires
            old(self).index < ARTIFACT_COUNT,
        ensures
            final(self).config == old(self).config,
            final(self).scope == old(self).scope,
            final(self).index < ARTIFACT_COUNT,
            (final(self).phase, final(self).index as int, act@) == clean_next(
                old(self).config,
                old(self).scope,
                old(self).phase,
                old(self).index as int,
                removed,
            ),
    {
        if self.phase == CleanPhase::Finished {
            CleanAction::Done
        } else if removed && self.index + 1 < ARTIFACT_COUNT {
            self.index = self.index + 1;
            let a = Artifact::at(self.index);
            let path = if self.phase == CleanPhase::Compressed {
                self.config.compressed_path(a)
            } else {
                self.config.decompressed_path(a)
            };
            CleanAction::Remove(path)
        } else if self.phase == CleanPhase::Decompressed && self.scope == CleanScope::Everything {
            self.phase = CleanPhase::Compressed;
            self.index = 0;
            CleanAction::Remove(self.config.compressed_path(Artifact::at(0)))
        } else if removed {
            self.phase = CleanPhase::Finished;
            CleanAction::Done
        } else {
            let a = Artifact::at(self.index);
            let path = if self.phase == CleanPhase::Compressed {
                self.config.compressed_path(a)
            } else {
                self.config.decompressed_path(a)
            };
            self.phase = CleanPhase::Finished;
            CleanAction::Fail(path)
        }
    }
}

/// Runs a cleaning from phase `ph`, position `i` and pending action `act`
/// against the disk `files`, where a removal succeeds if the file is there,
/// for at most `fuel` more steps. Gives the final action and the disk
/// afterwards.
pub open spec fn clean_run(
    cfg: CacheConfig,
    scope: CleanScope,
    ph: CleanPhase,
    i: int,
    act: CleanActionModel,
    files: Map<Seq<char>, Seq<u8>>,
    fuel: nat,
) -> (CleanActionModel, Map<Seq<char>, Seq<u8>>)
    decreases fuel,
{
    match act {
        CleanActionModel::Remove(p) => if fuel == 0 {
            (act, files)
        } else {
            let removed = files.contains_key(p);
            let (ph2, i2, act2) = clean_next(cfg, scope, ph, i, removed);
            clean_run(cfg, scope, ph2, i2, act2, files.remove(p), (fuel - 1) as nat)
        },
        _ => (act, files),
    }
}

/// A whole cleaning of `scope` against the disk `files`.
pub open spec fn clean_model(
    cfg: CacheConfig,
    scope: CleanScope,
    files: Map<Seq<char>, Seq<u8>>,
) -> (CleanActionModel, Map<Seq<char>, Seq<u8>>) {
    clean_run(
        cfg,
        scope,
        CleanPhase::Decompressed,
        0,
        CleanActionModel::Remove(decompressed_path(cfg, artifact_at(0))),
        files,
        (2 * ARTIFACT_COUNT + 1) as nat,
    )
}

/// On a cache that holds none of the copies, removing everything passes over
/// the missing decompressed copies and fails on the first compressed one,
/// while removing the decompressed copies fails on the first of them. The
/// disk is left as it was.
pub proof fn lemma_clean_empty_cache(cfg: CacheConfig, files: Map<Seq<char>, Seq<u8>>)
    requires
        forall|i: int|
            0 <= i < ARTIFACT_COUNT ==> !files.contains_key(
                #[trigger] decompressed_path(cfg, artifact_at(i)),
            ) && !files.contains_key(compressed_path(cfg, artifact_at(i))),
    ensures
        clean_model(cfg, CleanScope::Everything, files) == (
            CleanActionModel::Fail(compressed_path(cfg, artifact_at(0))),
            files,
        ),
        clean_model(cfg, CleanScope::Decompressed, files) == (
            CleanActionModel::Fail(decompressed_path(cfg, artifact_at(0))),
            files,
        ),
{
    let d0 = decompressed_path(cfg, artifact_at(0));
    let c0 = compressed_path(cfg, artifact_at(0));
    assert(!files.contains_key(d0) && !files.contains_key(c0));
    assert(files.remove(d0) =~= files);
    assert(files.remove(c0) =~= files);
    reveal_with_fuel(clean_run, 3);
}

} // verus!
