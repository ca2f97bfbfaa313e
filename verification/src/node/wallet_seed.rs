//! Obtaining the wallet seed at start-up, with nobody there to type a mnemonic.
//!
//! The sealed seed that the SDK keeps comes first, then the mnemonic backup on disk. Only where
//! there is neither is a new mnemonic generated, and it is backed up before it is used.
use vstd::prelude::*;

use crate::text::{
    both_ends_are_kept, has_bare_ends, is_blank, joined, trim, trimmed, trimming_undoes_padding,
};

verus! {

/// How far the search for the wallet seed has come: what is to be done next, or how it ended.
#[derive(Debug, PartialEq, Eq)]
pub enum SeedStage {
    /// Let the SDK unseal the seed that it keeps.
    LoadSealed,
    /// See whether there is a mnemonic backup.
    ProbeBackup,
    /// Read the mnemonic backup.
    ReadBackup,
    /// Generate a new mnemonic.
    Generate,
    /// Create the directory for the backup of this mnemonic.
    CreateParent(String),
    /// Write this mnemonic to the backup.
    WriteBackup(String),
    /// Restrict the backup of this mnemonic to its owner.
    Restrict(String),
    /// Derive the seed from the mnemonic, which is fresh or comes from the backup.
    Derive { mnemonic: String, fresh: bool },
    /// Fetch the seed, which was unsealed or derived.
    ReadCache { sealed: bool },
    /// This is the seed.
    Done(Vec<u8>),
    /// There is no seed, for this reason.
    Failed(String),
}

/// The mathematical counterpart of [`SeedStage`].
pub enum SeedStageModel {
    LoadSealed,
    ProbeBackup,
    ReadBackup,
    Generate,
    CreateParent(Seq<char>),
    WriteBackup(Seq<char>),
    Restrict(Seq<char>),
    Derive { mnemonic: Seq<char>, fresh: bool },
    ReadCache { sealed: bool },
    Done(Seq<u8>),
    Failed(Seq<char>),
}

impl View for SeedStage {
    type V = SeedStageModel;

    open spec fn view(&self) -> SeedStageModel {
        match self {
            SeedStage::LoadSealed => SeedStageModel::LoadSealed,
            SeedStage::ProbeBackup => SeedStageModel::ProbeBackup,
            SeedStage::ReadBackup => SeedStageModel::ReadBackup,
            SeedStage::Generate => SeedStageModel::Generate,
            SeedStage::CreateParent(mnemonic) => SeedStageModel::CreateParent(mnemonic@),
            SeedStage::WriteBackup(mnemonic) => SeedStageModel::WriteBackup(mnemonic@),
            SeedStage::Restrict(mnemonic) => SeedStageModel::Restrict(mnemonic@),
            SeedStage::Derive { mnemonic, fresh } => SeedStageModel::Derive {
                mnemonic: mnemonic@,
                fresh: *fresh,
            },
            SeedStage::ReadCache { sealed } => SeedStageModel::ReadCache { sealed: *sealed },
            SeedStage::Done(seed) => SeedStageModel::Done(seed@),
            SeedStage::Failed(why) => SeedStageModel::Failed(why@),
        }
    }
}

/// What became of the last step.
#[derive(Debug)]
pub enum SeedEvent {
    /// Whether a sealed seed was restored.
    SealedLoaded(bool),
    /// Whether there is a backup.
    BackupExists(bool),
    /// What the backup holds, if it could be read.
    BackupRead(Option<String>),
    /// The new mnemonic, or why there is none.
    Generated(Result<String, String>),
    /// Whether the directory for the backup is there.
    ParentReady(bool),
    /// Whether the backup was written.
    Written(bool),
    /// Restricting the backup was tried.
    Restricted,
    /// Why the seed could not be derived, if so.
    Derived(Option<String>),
    /// The seed, if the cache holds one.
    Cached(Option<Vec<u8>>),
}

/// The mathematical counterpart of [`SeedEvent`].
pub enum SeedEventModel {
    SealedLoaded(bool),
    BackupExists(bool),
    BackupRead(Option<Seq<char>>),
    Generated(Result<Seq<char>, Seq<char>>),
    ParentReady(bool),
    Written(bool),
    Restricted,
    Derived(Option<Seq<char>>),
    Cached(Option<Seq<u8>>),
}

impl View for SeedEvent {
    type V = SeedEventModel;

    open spec fn view(&self) -> SeedEventModel {
        match self {
            SeedEvent::SealedLoaded(loaded) => SeedEventModel::SealedLoaded(*loaded),
            SeedEvent::BackupExists(exists_already) => SeedEventModel::BackupExists(
                *exists_already,
            ),
            SeedEvent::BackupRead(Some(text)) => SeedEventModel::BackupRead(Some(text@)),
            SeedEvent::BackupRead(None) => SeedEventModel::BackupRead(None),
            SeedEvent::Generated(Ok(mnemonic)) => SeedEventModel::Generated(Ok(mnemonic@)),
            SeedEvent::Generated(Err(why)) => SeedEventModel::Generated(Err(why@)),
            SeedEvent::ParentReady(ready) => SeedEventModel::ParentReady(*ready),
            SeedEvent::Written(written) => SeedEventModel::Written(*written),
            SeedEvent::Restricted => SeedEventModel::Restricted,
            SeedEvent::Derived(Some(why)) => SeedEventModel::Derived(Some(why@)),
            SeedEvent::Derived(None) => SeedEventModel::Derived(None),
            SeedEvent::Cached(Some(seed)) => SeedEventModel::Cached(Some(seed@)),
            SeedEvent::Cached(None) => SeedEventModel::Cached(None),
        }
    }
}

impl SeedStageModel {
    /// Whether the search is over.
    pub open spec fn finished(self) -> bool {
        self is Done || self is Failed
    }

    /// Whether `event` reports on what is to be done at this stage.
    pub open spec fn expects(self, event: SeedEventModel) -> bool {
        match self {
            SeedStageModel::LoadSealed => event is SealedLoaded,
            SeedStageModel::ProbeBackup => event is BackupExists,
            SeedStageModel::ReadBackup => event is BackupRead,
            SeedStageModel::Generate => event is Generated,
            SeedStageModel::CreateParent(_) => event is ParentReady,
            SeedStageModel::WriteBackup(_) => event is Written,
            SeedStageModel::Restrict(_) => event is Restricted,
            SeedStageModel::Derive { .. } => event is Derived,
            SeedStageModel::ReadCache { .. } => event is Cached,
            _ => false,
        }
    }

    /// Where `event` leads, with the backup at `path`.
    pub open spec fn after(self, path: Seq<char>, event: SeedEventModel) -> SeedStageModel {
        match (self, event) {
            (SeedStageModel::LoadSealed, SeedEventModel::SealedLoaded(loaded)) => if loaded {
                SeedStageModel::ReadCache { sealed: true }
            } else {
                SeedStageModel::ProbeBackup
            },
            (SeedStageModel::ProbeBackup, SeedEventModel::BackupExists(present)) => if present {
                SeedStageModel::ReadBackup
            } else {
                SeedStageModel::Generate
            },
            (SeedStageModel::ReadBackup, SeedEventModel::BackupRead(read)) => match read {
                Some(text) => SeedStageModel::Derive { mnemonic: trimmed(text), fresh: false },
                None => SeedStageModel::Failed("reading mnemonic backup from "@ + path),
            },
            (SeedStageModel::Generate, SeedEventModel::Generated(generated)) => match generated {
                Ok(mnemonic) => SeedStageModel::CreateParent(mnemonic),
                Err(why) => SeedStageModel::Failed("generate_mnemonic failed: "@ + why),
            },
            (SeedStageModel::CreateParent(mnemonic), SeedEventModel::ParentReady(ready)) =>
                if ready {
                SeedStageModel::WriteBackup(mnemonic)
            } else {
                SeedStageModel::Failed("creating parent dirs for "@ + path)
            },
            (SeedStageModel::WriteBackup(mnemonic), SeedEventModel::Written(written)) =>
                if written {
                SeedStageModel::Restrict(mnemonic)
            } else {
                SeedStageModel::Failed("writing mnemonic to "@ + path)
            },
            (SeedStageModel::Restrict(mnemonic), SeedEventModel::Restricted) =>
                SeedStageModel::Derive { mnemonic, fresh: true },
            (SeedStageModel::Derive { fresh, .. }, SeedEventModel::Derived(failure)) =>
                match failure {
                None => SeedStageModel::ReadCache { sealed: false },
                Some(why) => SeedStageModel::Failed(
                    (if fresh {
                        "derive_and_cache_key for new mnemonic failed: "@
                    } else {
                        "derive_and_cache_key from persisted mnemonic failed: "@
                    }) + why,
                ),
            },
            (SeedStageModel::ReadCache { sealed }, SeedEventModel::Cached(cached)) =>
                match cached {
                Some(seed) => SeedStageModel::Done(seed),
                None => SeedStageModel::Failed(
                    if sealed {
                        "wallet seed cache unexpectedly empty after sealed load"@
                    } else {
                        "wallet seed cache unexpectedly empty after derive_and_cache_key"@
                    },
                ),
            },
            _ => self,
        }
    }
}

/// Takes in what became of the last step of the search for the wallet seed, and settles the next
/// one; `path` is where the mnemonic is backed up.
pub fn ensure_wallet_seed_cached(path: &str, stage: SeedStage, event: SeedEvent) -> (r: SeedStage)
    requires
        stage@.expects(event@),
    ensures
        r@ == stage@.after(path@, event@),
{
    match (stage, event) {
        (SeedStage::LoadSealed, SeedEvent::SealedLoaded(loaded)) => if loaded {
            SeedStage::ReadCache { sealed: true }
        } else {
            SeedStage::ProbeBackup
        },
        (SeedStage::ProbeBackup, SeedEvent::BackupExists(present)) => if present {
            SeedStage::ReadBackup
        } else {
            SeedStage::Generate
        },
        (SeedStage::ReadBackup, SeedEvent::BackupRead(read)) => match read {
            Some(text) => SeedStage::Derive { mnemonic: trim(text.as_str()), fresh: false },
            None => SeedStage::Failed(joined("reading mnemonic backup from ", path)),
        },
        (SeedStage::Generate, SeedEvent::Generated(generated)) => match generated {
            Ok(mnemonic) => SeedStage::CreateParent(mnemonic),
            Err(why) => SeedStage::Failed(joined("generate_mnemonic failed: ", why.as_str())),
        },
        (SeedStage::CreateParent(mnemonic), SeedEvent::ParentReady(ready)) => if ready {
            SeedStage::WriteBackup(mnemonic)
        } else {
            SeedStage::Failed(joined("creating parent dirs for ", path))
        },
        (SeedStage::WriteBackup(mnemonic), SeedEvent::Written(written)) => if written {
            SeedStage::Restrict(mnemonic)
        } else {
            SeedStage::Failed(joined("writing mnemonic to ", path))
        },
        (SeedStage::Restrict(mnemonic), SeedEvent::Restricted) => SeedStage::Derive {
            mnemonic,
            fresh: true,
        },
        (SeedStage::Derive { fresh, .. }, SeedEvent::Derived(failure)) => match failure {
            None => SeedStage::ReadCache { sealed: false },
            Some(why) => {
                let what = if fresh {
                    "derive_and_cache_key for new mnemonic failed: "
                } else {
                    "derive_and_cache_key from persisted mnemonic failed: "
                };
                SeedStage::Failed(joined(what, why.as_str()))
            },
        },
        (SeedStage::ReadCache { sealed }, SeedEvent::Cached(cached)) => match cached {
            Some(seed) => SeedStage::Done(seed),
            None => {
                let what = if sealed {
                    "wallet seed cache unexpectedly empty after sealed load"
                } else {
                    "wallet seed cache unexpectedly empty after derive_and_cache_key"
                };
                SeedStage::Failed(what.to_owned())
            },
        },
        (stage, _) => stage,
    }
}

/// The stage that the search has reached after `events`, if each of them reports on the step
/// that preceded it.
pub open spec fn seed_search(path: Seq<char>, events: Seq<SeedEventModel>) -> Option<SeedStageModel>
    decreases events.len(),
{
    if events.len() == 0 {
        Some(SeedStageModel::LoadSealed)
    } else {
        match seed_search(path, events.drop_last()) {
            Some(stage) => if stage.expects(events.last()) {
                Some(stage.after(path, events.last()))
            } else {
                None
            },
            None => None,
        }
    }
}

/// The events that lead to reading the backup.
pub open spec fn no_sealed_seed() -> Seq<SeedEventModel> {
    seq![SeedEventModel::SealedLoaded(false)]
}

/// The events that lead to generating a mnemonic: neither a sealed seed nor a backup.
pub open spec fn nothing_kept() -> Seq<SeedEventModel> {
    no_sealed_seed().push(SeedEventModel::BackupExists(false))
}

/// The events that lead to the use of the fresh mnemonic `mnemonic`.
pub open spec fn backed_up(mnemonic: Seq<char>) -> Seq<SeedEventModel> {
    nothing_kept().push(SeedEventModel::Generated(Ok(mnemonic))).push(
        SeedEventModel::ParentReady(true),
    ).push(SeedEventModel::Written(true)).push(SeedEventModel::Restricted)
}

/// The events that lead to the use of a backup that holds `text`.
pub open spec fn restored(text: Seq<char>) -> Seq<SeedEventModel> {
    no_sealed_seed().push(SeedEventModel::BackupExists(true)).push(
        SeedEventModel::BackupRead(Some(text)),
    )
}

/// Whether the stage and the events that led to it fit together.
spec fn consistent(stage: SeedStageModel, events: Seq<SeedEventModel>) -> bool {
    match stage {
        SeedStageModel::LoadSealed => events == Seq::<SeedEventModel>::empty(),
        SeedStageModel::ProbeBackup => events == no_sealed_seed(),
        SeedStageModel::ReadBackup => events == no_sealed_seed().push(
            SeedEventModel::BackupExists(true),
        ),
        SeedStageModel::Generate => events == nothing_kept(),
        SeedStageModel::CreateParent(m) => events == nothing_kept().push(
            SeedEventModel::Generated(Ok(m)),
        ),
        SeedStageModel::WriteBackup(m) => events == nothing_kept().push(
            SeedEventModel::Generated(Ok(m)),
        ).push(SeedEventModel::ParentReady(true)),
        SeedStageModel::Restrict(m) => events == nothing_kept().push(
            SeedEventModel::Generated(Ok(m)),
        ).push(SeedEventModel::ParentReady(true)).push(SeedEventModel::Written(true)),
        SeedStageModel::Derive { mnemonic, fresh } => if fresh {
            events == backed_up(mnemonic)
        } else {
            exists|text: Seq<char>|
                mnemonic == trimmed(text) && events == #[trigger] restored(text)
        },
        SeedStageModel::ReadCache { sealed } => if sealed {
            events == seq![SeedEventModel::SealedLoaded(true)]
        } else {
            derived(events)
        },
        SeedStageModel::Done(seed) => events.len() > 0 && events.last() == SeedEventModel::Cached(
            Some(seed),
        ) && (events.drop_last() == seq![SeedEventModel::SealedLoaded(true)] || derived(
            events.drop_last(),
        )),
        SeedStageModel::Failed(_) => true,
    }
}

/// Whether `events` end with a seed derived from the backup or from a fresh, backed-up mnemonic.
pub open spec fn derived(events: Seq<SeedEventModel>) -> bool {
    ||| exists|mnemonic: Seq<char>|
        events == (#[trigger] backed_up(mnemonic)).push(SeedEventModel::Derived(None))
    ||| exists|text: Seq<char>|
        events == (#[trigger] restored(text)).push(SeedEventModel::Derived(None))
}

proof fn stage_fixes_the_events(path: Seq<char>, events: Seq<SeedEventModel>)
    ensures
        seed_search(path, events) matches Some(stage) ==> consistent(stage, events),
    decreases events.len(),
{
    if events.len() == 0 {
        assert(events =~= Seq::<SeedEventModel>::empty());
    } else {
        let before = events.drop_last();
        stage_fixes_the_events(path, before);
        assert(events =~= before.push(events.last()));
        if let Some(stage) = seed_search(path, before) {
            if stage.expects(events.last()) {
                let next = stage.after(path, events.last());
                if stage is LoadSealed {
                    assert(events =~= seq![events.last()]);
                }
                if stage is ReadBackup && next is Derive {
                    let text = events.last()->BackupRead_0->0;
                    assert(events =~= restored(text));
                }
                if stage is Derive && next is ReadCache {
                    if stage->fresh {
                        assert(events == backed_up(stage->mnemonic).push(
                            SeedEventModel::Derived(None),
                        ));
                    } else {
                        let text = choose|text: Seq<char>|
                            stage->mnemonic == trimmed(text) && before == #[trigger] restored(text);
                        assert(events == restored(text).push(SeedEventModel::Derived(None)));
                    }
                }
                assert(consistent(next, events));
            }
        }
    }
}

/// A new mnemonic is generated only where there is neither a sealed seed nor a backup; what is on
/// disk is never overwritten.
pub proof fn backup_is_never_overwritten(path: Seq<char>, events: Seq<SeedEventModel>)
    ensures
        seed_search(path, events) matches Some(stage) ==> (stage is Generate ==> events
            == nothing_kept()) && (stage matches SeedStageModel::WriteBackup(mnemonic) ==> events
            == nothing_kept().push(SeedEventModel::Generated(Ok(mnemonic))).push(
            SeedEventModel::ParentReady(true),
        )),
{
    stage_fixes_the_events(path, events);
}

/// A fresh mnemonic is used only after it has been written to the backup; a mnemonic that is not
/// fresh is the trimmed text of the backup.
pub proof fn mnemonic_is_backed_up_before_use(path: Seq<char>, events: Seq<SeedEventModel>)
    ensures
        seed_search(path, events) matches Some(SeedStageModel::Derive { mnemonic, fresh }) ==> if fresh {
            events == backed_up(mnemonic)
        } else {
            exists|text: Seq<char>|
                mnemonic == trimmed(text) && events == #[trigger] restored(text)
        },
{
    stage_fixes_the_events(path, events);
}

/// The seed that the search ends with is the one in the cache, after it was unsealed or derived
/// from a backed-up mnemonic.
pub proof fn seed_has_a_source(path: Seq<char>, events: Seq<SeedEventModel>)
    ensures
        seed_search(path, events) matches Some(SeedStageModel::Done(seed)) ==> {
            &&& events.last() == SeedEventModel::Cached(Some(seed))
            &&& events.drop_last() == seq![SeedEventModel::SealedLoaded(true)] || derived(
                events.drop_last(),
            )
        },
{
    stage_fixes_the_events(path, events);
}

/// A sealed seed is preferred: once it is restored, nothing on disk is looked at and only the
/// cache is left to be read.
pub proof fn sealed_seed_comes_first(path: Seq<char>, events: Seq<SeedEventModel>)
    requires
        events.len() > 0,
        events[0] == SeedEventModel::SealedLoaded(true),
    ensures
        seed_search(path, events) matches Some(stage) ==> stage == (SeedStageModel::ReadCache {
            sealed: true,
        }) || stage.finished(),
    decreases events.len(),
{
    if events.len() == 1 {
        assert(events.drop_last() =~= Seq::<SeedEventModel>::empty());
        reveal_with_fuel(seed_search, 2);
    } else {
        assert(events.drop_last()[0] == events[0]);
        sealed_seed_comes_first(path, events.drop_last());
    }
}

/// The search ends after at most eight steps.
pub proof fn seed_search_ends(path: Seq<char>, events: Seq<SeedEventModel>)
    requires
        seed_search(path, events) is Some,
    ensures
        events.len() <= 8,
        events.len() == 8 ==> seed_search(path, events)->0.finished(),
{
    stage_fixes_the_events(path, events);
    if events.len() > 0 {
        stage_fixes_the_events(path, events.drop_last());
    }
}

/// A backup that holds a mnemonic, with white space added at its ends or not, leads to that same
/// mnemonic.
pub proof fn padded_backup_gives_the_mnemonic(
    path: Seq<char>,
    lead: Seq<char>,
    mnemonic: Seq<char>,
    trail: Seq<char>,
)
    requires
        is_blank(lead),
        is_blank(trail),
        has_bare_ends(mnemonic),
    ensures
        seed_search(path, restored(lead + mnemonic + trail)) == Some(
            SeedStageModel::Derive { mnemonic, fresh: false },
        ),
{
    trimming_undoes_padding(lead, mnemonic, trail);
    let events = restored(lead + mnemonic + trail);
    let probed = events.drop_last();
    let loaded = probed.drop_last();
    assert(probed =~= no_sealed_seed().push(SeedEventModel::BackupExists(true)));
    assert(loaded =~= no_sealed_seed());
    assert(loaded.drop_last() =~= Seq::<SeedEventModel>::empty());
    reveal_with_fuel(seed_search, 4);
}

/// The two copies of the node's secret.
pub struct Kept {
    /// The seed that the SDK can unseal, if any.
    pub sealed: Option<Seq<u8>>,
    /// The text of the mnemonic backup, if there is one.
    pub backup: Option<Seq<char>>,
}

/// The mnemonic that the seed was derived from in a search that ended after `events`, if it was
/// derived.
pub open spec fn mnemonic_used(path: Seq<char>, events: Seq<SeedEventModel>) -> Option<Seq<char>> {
    match seed_search(path, events.take(events.len() - 2)) {
        Some(SeedStageModel::Derive { mnemonic, .. }) => Some(mnemonic),
        _ => None,
    }
}

/// Whether `events` tell of a successful search with these copies, where `derive` is what the SDK
/// derives a seed from a mnemonic by: the sealed seed is restored where there is one, a backup is
/// found and read where there is one, and the cache holds what was unsealed or derived.
pub open spec fn tells_of(
    kept: Kept,
    derive: spec_fn(Seq<char>) -> Seq<u8>,
    path: Seq<char>,
    events: Seq<SeedEventModel>,
    seed: Seq<u8>,
) -> bool {
    &&& seed_search(path, events) == Some(SeedStageModel::Done(seed))
    &&& events[0] == SeedEventModel::SealedLoaded(kept.sealed is Some)
    &&& events.len() > 1 && events[1] is BackupExists ==> events[1]
        == SeedEventModel::BackupExists(kept.backup is Some)
    &&& events.len() > 2 && events[2] is BackupRead ==> events[2] == SeedEventModel::BackupRead(
        kept.backup,
    )
    &&& match kept.sealed {
        Some(sealed) => seed == sealed,
        None => mnemonic_used(path, events) matches Some(mnemonic) ==> seed == derive(mnemonic),
    }
}

/// Either copy alone recovers the seed of the first boot: the sealed seed, or else the backup of
/// the mnemonic that was generated then, which has no white space at its ends, even with some
/// added there.
pub proof fn either_copy_recovers_the_seed(
    derive: spec_fn(Seq<char>) -> Seq<u8>,
    path: Seq<char>,
    first: Seq<SeedEventModel>,
    seed: Seq<u8>,
    lead: Seq<char>,
    mnemonic: Seq<char>,
    trail: Seq<char>,
    kept: Kept,
    later: Seq<SeedEventModel>,
    again: Seq<u8>,
)
    requires
        tells_of(Kept { sealed: None, backup: None }, derive, path, first, seed),
        mnemonic_used(path, first) == Some(mnemonic),
        match kept.sealed {
            Some(sealed) => sealed == seed,
            None => {
                &&& kept.backup == Some(lead + mnemonic + trail)
                &&& has_bare_ends(mnemonic)
                &&& is_blank(lead)
                &&& is_blank(trail)
            },
        },
        tells_of(kept, derive, path, later, again),
    ensures
        again == seed,
{
    if kept.sealed is None {
        stage_fixes_the_events(path, later);
        let before = later.drop_last();
        assert(later =~= before.push(later.last()));
        assert forall|i: int| 0 <= i < before.len() implies before[i] == later[i] by {}
        assert(before[0] == later[0]);
        assert(derived(before));
        if exists|fresh: Seq<char>|
            before == (#[trigger] backed_up(fresh)).push(SeedEventModel::Derived(None)) {
            let fresh = choose|fresh: Seq<char>|
                before == (#[trigger] backed_up(fresh)).push(SeedEventModel::Derived(None));
            assert(backed_up(fresh).len() == 6);
            assert(before.len() == 7);
            assert(before[1] == SeedEventModel::BackupExists(false));
            assert(later[1] == before[1]);
        } else {
            let text = choose|text: Seq<char>|
                before == (#[trigger] restored(text)).push(SeedEventModel::Derived(None));
            assert(restored(text).len() == 3);
            assert(before[2] == SeedEventModel::BackupRead(Some(text)));
            assert(later[2] == before[2]);
            assert(before.drop_last() =~= restored(text));
            assert(later.take(later.len() - 2) =~= before.drop_last());
            padded_backup_gives_the_mnemonic(path, lead, mnemonic, trail);
        }
    }
}

/// Where there is no seed, the reason says what failed: it names the backup's path where a file is
/// concerned, and passes on the SDK's own words otherwise.
pub proof fn missing_seed_is_explained(path: Seq<char>, why: Seq<char>, mnemonic: Seq<char>)
    ensures
        SeedStageModel::ReadBackup.after(path, SeedEventModel::BackupRead(None)) matches
            SeedStageModel::Failed(text) && "reading"@.is_prefix_of(text) && path.is_suffix_of(text),
        SeedStageModel::CreateParent(mnemonic).after(path, SeedEventModel::ParentReady(false)) matches
            SeedStageModel::Failed(text) && "creating"@.is_prefix_of(text) && path.is_suffix_of(
            text,
        ),
        SeedStageModel::WriteBackup(mnemonic).after(path, SeedEventModel::Written(false)) matches
            SeedStageModel::Failed(text) && "writing"@.is_prefix_of(text) && path.is_suffix_of(text),
        SeedStageModel::Generate.after(path, SeedEventModel::Generated(Err(why))) matches
            SeedStageModel::Failed(text) && "generate_mnemonic"@.is_prefix_of(text)
            && why.is_suffix_of(text),
        (SeedStageModel::Derive { mnemonic, fresh: true }).after(
            path,
            SeedEventModel::Derived(Some(why)),
        ) matches SeedStageModel::Failed(text) && "derive_and_cache_key for new"@.is_prefix_of(text)
            && why.is_suffix_of(text),
        (SeedStageModel::Derive { mnemonic, fresh: false }).after(
            path,
            SeedEventModel::Derived(Some(why)),
        ) matches SeedStageModel::Failed(text) && "derive_and_cache_key from persisted"@.is_prefix_of(
            text,
        ) && why.is_suffix_of(text),
{
    reveal_strlit("reading");
    reveal_strlit("creating");
    reveal_strlit("writing");
    reveal_strlit("generate_mnemonic");
    reveal_strlit("derive_and_cache_key for new");
    reveal_strlit("derive_and_cache_key from persisted");
    reveal_strlit("reading mnemonic backup from ");
    reveal_strlit("creating parent dirs for ");
    reveal_strlit("writing mnemonic to ");
    reveal_strlit("generate_mnemonic failed: ");
    reveal_strlit("derive_and_cache_key for new mnemonic failed: ");
    reveal_strlit("derive_and_cache_key from persisted mnemonic failed: ");
    both_ends_are_kept("reading mnemonic backup from "@, path);
    both_ends_are_kept("creating parent dirs for "@, path);
    both_ends_are_kept("writing mnemonic to "@, path);
    both_ends_are_kept("generate_mnemonic failed: "@, why);
    both_ends_are_kept("derive_and_cache_key for new mnemonic failed: "@, why);
    both_ends_are_kept("derive_and_cache_key from persisted mnemonic failed: "@, why);
}

/// The seed that the cache holds is the one that the search ends with, and an empty cache ends it
/// without one.
pub proof fn cached_seed_is_taken(path: Seq<char>, sealed: bool, seed: Seq<u8>)
    ensures
        (SeedStageModel::ReadCache { sealed }).after(path, SeedEventModel::Cached(Some(seed)))
            == SeedStageModel::Done(seed),
        (SeedStageModel::ReadCache { sealed }).after(path, SeedEventModel::Cached(None)) is Failed,
{
}

} // verus!
