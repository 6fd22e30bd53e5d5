//! Opening the persistent store, and what to do when the file will not open.
//!
//! The host does the file work. It asks `StoreOpen::action` what to do, does it, and hands back
//! through `StoreOpen::step` whether that went well, until `StoreOpen::verdict` says how the
//! opening ended.
use vstd::prelude::*;

verus! {

/// Where an opening stands: what the host is to do next.
#[derive(Clone, Copy, Debug, PartialEq, Eq, Structural)]
pub enum Phase {
    /// Open the file under the key (an empty key opens it plain).
    Open,
    /// The keyed open failed: see whether there is a file at all.
    Probe,
    /// There is one: see whether it is an unencrypted database.
    Inspect,
    /// It is: encrypt it in place, so that nothing is lost.
    Migrate,
    /// Wrong key or corruption on an existing file: leave it alone and run in memory.
    FailClosed,
    /// Remove what an earlier quarantine left behind.
    ClearQuarantine,
    /// Move the unusable file aside.
    Quarantine,
    /// Open a fresh file in its place.
    Reopen,
    /// Nothing on disk can be used: run in memory.
    Ephemeral,
    /// The store is open; `persistent` says whether it is on disk.
    Done { persistent: bool },
}

/// What the host is to do, with the paths and the key it needs.
pub enum StoreAction {
    /// Open the database at `path` under `key`; went well if it opened.
    Open { path: String, key: Vec<u8> },
    /// Went well if there is a file at `path`.
    Exists { path: String },
    /// Went well if the file at `path` opens as an unencrypted database.
    Inspect { path: String },
    /// Encrypt the database at `path` under `key`; went well if the encrypted database opened.
    Migrate { path: String, key: Vec<u8> },
    /// Remove the file at `path`; whether there was one does not matter.
    Remove { path: String },
    /// Rename the file `from` to `to`; went well if it was renamed.
    Rename { from: String, to: String },
    /// Open a fresh in-memory store.
    OpenInMemory,
    /// Nothing is left to do.
    Nothing,
}

/// The model of a `StoreAction`.
pub enum Deed {
    Open { path: Seq<char>, key: Seq<u8> },
    Exists { path: Seq<char> },
    Inspect { path: Seq<char> },
    Migrate { path: Seq<char>, key: Seq<u8> },
    Remove { path: Seq<char> },
    Rename { from: Seq<char>, to: Seq<char> },
    OpenInMemory,
    Nothing,
}

impl View for StoreAction {
    type V = Deed;

    open spec fn view(&self) -> Deed {
        match *self {
            StoreAction::Open { path, key } => Deed::Open { path: path@, key: key@ },
            StoreAction::Exists { path } => Deed::Exists { path: path@ },
            StoreAction::Inspect { path } => Deed::Inspect { path: path@ },
            StoreAction::Migrate { path, key } => Deed::Migrate { path: path@, key: key@ },
            StoreAction::Remove { path } => Deed::Remove { path: path@ },
            StoreAction::Rename { from, to } => Deed::Rename { from: from@, to: to@ },
            StoreAction::OpenInMemory => Deed::OpenInMemory,
            StoreAction::Nothing => Deed::Nothing,
        }
    }
}

/// An opening of the store at a path, under a key.
pub struct StoreOpen {
    db_path: String,
    key: Vec<u8>,
    sqlcipher: bool,
    phase: Phase,
}

/// The model of a `StoreOpen`.
pub struct Opening {
    pub path: Seq<char>,
    pub key: Seq<u8>,
    /// Whether the store can encrypt at rest.
    pub sqlcipher: bool,
    pub phase: Phase,
}

impl View for StoreOpen {
    type V = Opening;

    closed spec fn view(&self) -> Opening {
        Opening {
            path: self.db_path@,
            key: self.key@,
            sqlcipher: self.sqlcipher,
            phase: self.phase,
        }
    }
}

/// Where an unusable database is moved to.
pub open spec fn quarantine_path(path: Seq<char>) -> Seq<char> {
    path + ".corrupt"@
}

impl Opening {
    /// A key was given.
    pub open spec fn keyed(self) -> bool {
        self.key.len() > 0
    }

    /// What the host is to do in this phase.
    pub open spec fn deed(self) -> Deed {
        match self.phase {
            Phase::Open => Deed::Open { path: self.path, key: self.key },
            Phase::Probe => Deed::Exists { path: self.path },
            Phase::Inspect => Deed::Inspect { path: self.path },
            Phase::Migrate => Deed::Migrate { path: self.path, key: self.key },
            Phase::FailClosed => Deed::OpenInMemory,
            Phase::ClearQuarantine => Deed::Remove { path: quarantine_path(self.path) },
            Phase::Quarantine => Deed::Rename { from: self.path, to: quarantine_path(self.path) },
            Phase::Reopen => Deed::Open { path: self.path, key: self.key },
            Phase::Ephemeral => Deed::OpenInMemory,
            Phase::Done { .. } => Deed::Nothing,
        }
    }

    /// The phase after the host did its deed, and it went well or not.
    pub open spec fn next_phase(self, ok: bool) -> Phase {
        match self.phase {
            Phase::Open => if ok {
                Phase::Done { persistent: true }
            } else if self.keyed() {
                Phase::Probe
            } else {
                Phase::ClearQuarantine
            },
            Phase::Probe => if !ok {
                Phase::ClearQuarantine
            } else if self.sqlcipher {
                Phase::Inspect
            } else {
                Phase::FailClosed
            },
            Phase::Inspect => if ok {
                Phase::Migrate
            } else {
                Phase::FailClosed
            },
            Phase::Migrate => if ok {
                Phase::Done { persistent: true }
            } else {
                Phase::FailClosed
            },
            Phase::FailClosed => Phase::Done { persistent: false },
            Phase::ClearQuarantine => Phase::Quarantine,
            Phase::Quarantine => if ok {
                Phase::Reopen
            } else {
                Phase::Ephemeral
            },
            Phase::Reopen => if ok {
                Phase::Done { persistent: true }
            } else {
                Phase::Ephemeral
            },
            Phase::Ephemeral => Phase::Done { persistent: false },
            Phase::Done { persistent } => Phase::Done { persistent },
        }
    }

    /// The opening after that.
    pub open spec fn next(self, ok: bool) -> Opening {
        Opening { phase: self.next_phase(ok), ..self }
    }

    /// How many deeds are left at most.
    pub open spec fn deeds_left(self) -> nat {
        match self.phase {
            Phase::Open => 6,
            Phase::Probe => 5,
            Phase::Inspect => 3,
            Phase::Migrate => 2,
            Phase::FailClosed => 1,
            Phase::ClearQuarantine => 4,
            Phase::Quarantine => 3,
            Phase::Reopen => 2,
            Phase::Ephemeral => 1,
            Phase::Done { .. } => 0,
        }
    }
}

/// Start opening the store at `db_path` under `key`. An empty key opens it plain. `sqlcipher` says
/// whether the store at hand can encrypt at rest, and so can migrate a plaintext file.
pub fn open_store_persistent(db_path: String, key: Vec<u8>, sqlcipher: bool) -> (opening: StoreOpen)
    ensures
        opening@ == (Opening { path: db_path@, key: key@, sqlcipher, phase: Phase::Open }),
{
    StoreOpen { db_path, key, sqlcipher, phase: Phase::Open }
}

impl StoreOpen {
    fn quarantine(&self) -> (path: String)
        ensures
            path@ == quarantine_path(self@.path),
    {
        let mut path: String = self.db_path.clone();
        path.append(".corrupt");
        path
    }

    fn key_copy(&self) -> (key: Vec<u8>)
        ensures
            key@ == self@.key,
    {
        let key: Vec<u8> = self.key.clone();
        assert(key@ =~= self.key@);
        key
    }

    /// What the host is to do now.
    pub fn action(&self) -> (action: StoreAction)
        ensures
            action@ == self@.deed(),
            ({
                let (path, key) = (self@.path, self@.key);
                match self@.phase {
                    Phase::Open | Phase::Reopen => action matches StoreAction::Open { path: p, key: k }
                        && p@ == path && k@ == key,
                    Phase::Probe => action matches StoreAction::Exists { path: p } && p@ == path,
                    Phase::Inspect => action matches StoreAction::Inspect { path: p } && p@ == path,
                    Phase::Migrate => action matches StoreAction::Migrate { path: p, key: k } && p@
                        == path && k@ == key,
                    Phase::ClearQuarantine => action matches StoreAction::Remove { path: p } && p@
                        == path + ".corrupt"@,
                    Phase::Quarantine => action matches StoreAction::Rename { from, to } && from@
                        == path && to@ == path + ".corrupt"@,
                    Phase::FailClosed | Phase::Ephemeral => action is OpenInMemory,
                    Phase::Done { .. } => action is Nothing,
                }
            }),
    {
        match self.phase {
            Phase::Open => StoreAction::Open { path: self.db_path.clone(), key: self.key_copy() },
            Phase::Probe => StoreAction::Exists { path: self.db_path.clone() },
            Phase::Inspect => StoreAction::Inspect { path: self.db_path.clone() },
            Phase::Migrate => StoreAction::Migrate {
                path: self.db_path.clone(),
                key: self.key_copy(),
            },
            Phase::FailClosed => StoreAction::OpenInMemory,
            Phase::ClearQuarantine => StoreAction::Remove { path: self.quarantine() },
            Phase::Quarantine => StoreAction::Rename {
                from: self.db_path.clone(),
                to: self.quarantine(),
            },
            Phase::Reopen => StoreAction::Open { path: self.db_path.clone(), key: self.key_copy() },
            Phase::Ephemeral => StoreAction::OpenInMemory,
            Phase::Done { .. } => StoreAction::Nothing,
        }
    }

    /// Take note that the host did what `action` said, and whether it went well.
    pub fn step(&mut self, ok: bool)
        ensures
            final(self)@ == old(self)@.next(ok),
    {
        self.phase = match self.phase {
            Phase::Open => if ok {
                Phase::Done { persistent: true }
            } else if self.key.is_empty() {
                Phase::ClearQuarantine
            } else {
                Phase::Probe
            },
            Phase::Probe => if !ok {
                Phase::ClearQuarantine
            } else if self.sqlcipher {
                Phase::Inspect
            } else {
                Phase::FailClosed
            },
            Phase::Inspect => if ok {
                Phase::Migrate
            } else {
                Phase::FailClosed
            },
            Phase::Migrate => if ok {
                Phase::Done { persistent: true }
            } else {
                Phase::FailClosed
            },
            Phase::FailClosed => Phase::Done { persistent: false },
            Phase::ClearQuarantine => Phase::Quarantine,
            Phase::Quarantine => if ok {
                Phase::Reopen
            } else {
                Phase::Ephemeral
            },
            Phase::Reopen => if ok {
                Phase::Done { persistent: true }
            } else {
                Phase::Ephemeral
            },
            Phase::Ephemeral => Phase::Done { persistent: false },
            Phase::Done { persistent } => Phase::Done { persistent },
        };
    }

    /// Whether the store that was opened is on disk; `None` while there is still something to do.
    pub fn verdict(&self) -> (persistent: Option<bool>)
        ensures
            persistent == (match self@.phase {
                Phase::Done { persistent } => Some(persistent),
                _ => None,
            }),
    {
        match self.phase {
            Phase::Done { persistent } => Some(persistent),
            _ => None,
        }
    }
}

/// What the host meets on disk: how each deed would go.
pub struct Disk {
    /// The file opens under the key.
    pub opens: bool,
    /// There is a file at the path.
    pub exists: bool,
    /// The file is an unencrypted database.
    pub plaintext: bool,
    /// Encrypting it in place succeeds.
    pub migrates: bool,
    /// There was an old quarantined file to remove.
    pub clears: bool,
    /// The file can be moved aside.
    pub moves: bool,
    /// A fresh file opens in its place.
    pub reopens: bool,
}

impl Disk {
    /// How the deed of a phase goes.
    pub open spec fn goes_well(self, phase: Phase) -> bool {
        match phase {
            Phase::Open => self.opens,
            Phase::Probe => self.exists,
            Phase::Inspect => self.plaintext,
            Phase::Migrate => self.migrates,
            Phase::ClearQuarantine => self.clears,
            Phase::Quarantine => self.moves,
            Phase::Reopen => self.reopens,
            _ => true,
        }
    }
}

/// The deeds the host does, in order, from `opening` on.
pub open spec fn deeds(opening: Opening, disk: Disk) -> Seq<Deed>
    decreases opening.deeds_left(),
{
    if opening.phase is Done {
        Seq::empty()
    } else {
        seq![opening.deed()] + deeds(opening.next(disk.goes_well(opening.phase)), disk)
    }
}

/// Where the opening ends.
pub open spec fn outcome(opening: Opening, disk: Disk) -> Phase
    decreases opening.deeds_left(),
{
    if opening.phase is Done {
        opening.phase
    } else {
        outcome(opening.next(disk.goes_well(opening.phase)), disk)
    }
}

/// Whether `deed` changes which files there are.
pub open spec fn disturbs_files(deed: Deed) -> bool {
    deed is Remove || deed is Rename
}

/// An opening ends after six deeds at most, with a store on disk exactly if the file opened, or an
/// existing plaintext file was migrated to the key, or a file that could not be opened was moved
/// aside and a fresh one opened in its place.
pub proof fn law_opening_ends(start: Opening, disk: Disk)
    requires
        start.phase == Phase::Open,
    ensures
        deeds(start, disk).len() <= 6,
        outcome(start, disk) == (Phase::Done {
            persistent: disk.opens || if start.keyed() && disk.exists {
                start.sqlcipher && disk.plaintext && disk.migrates
            } else {
                disk.moves && disk.reopens
            },
        }),
{
    reveal_with_fuel(deeds, 7);
    reveal_with_fuel(outcome, 7);
}

/// A file that opens is opened and nothing else is done.
pub proof fn law_usable_file_is_just_opened(start: Opening, disk: Disk)
    requires
        start.phase == Phase::Open,
        disk.opens,
    ensures
        deeds(start, disk) == seq![Deed::Open { path: start.path, key: start.key }],
{
    reveal_with_fuel(deeds, 2);
    assert(deeds(start, disk) =~= seq![Deed::Open { path: start.path, key: start.key }]);
}

/// Fail closed: with a key, a file that exists is never removed or moved, whatever else happens, so
/// that a later open under the right key finds it.
pub proof fn law_keyed_file_is_never_disturbed(start: Opening, disk: Disk, i: int)
    requires
        start.phase == Phase::Open,
        start.keyed(),
        disk.exists,
        0 <= i < deeds(start, disk).len(),
    ensures
        !disturbs_files(deeds(start, disk)[i]),
{
    reveal_with_fuel(deeds, 7);
}

/// No opening removes the database: it only ever moves it aside, after it failed to open, to the
/// quarantine path, which is the one path that it clears.
pub proof fn law_database_is_only_moved_aside(start: Opening, disk: Disk, i: int)
    requires
        start.phase == Phase::Open,
        0 <= i < deeds(start, disk).len(),
        disturbs_files(deeds(start, disk)[i]),
    ensures
        !disk.opens,
        !(start.keyed() && disk.exists),
        quarantine_path(start.path) != start.path,
        match deeds(start, disk)[i] {
            Deed::Remove { path } => path == quarantine_path(start.path),
            Deed::Rename { from, to } => from == start.path && to == quarantine_path(start.path),
            _ => false,
        },
{
    reveal_with_fuel(deeds, 7);
    reveal_strlit(".corrupt");
    assert(quarantine_path(start.path).len() == start.path.len() + 8);
}

/// The last deed opens the store that is used, and the opening calls it persistent exactly if that
/// store is not the in-memory one.
pub proof fn law_persistence_is_reported_truly(start: Opening, disk: Disk)
    requires
        start.phase == Phase::Open,
    ensures
        deeds(start, disk).len() > 0,
        deeds(start, disk).last() is Open || deeds(start, disk).last() is Migrate || deeds(
            start,
            disk,
        ).last() is OpenInMemory,
        outcome(start, disk) == (Phase::Done {
            persistent: !(deeds(start, disk).last() is OpenInMemory),
        }),
{
    reveal_with_fuel(deeds, 7);
    reveal_with_fuel(outcome, 7);
}

/// Nothing is encrypted in place without a key, or by a store that cannot encrypt, or where the
/// file is not a plaintext database.
pub proof fn law_migration_needs_a_key_and_a_plaintext_file(start: Opening, disk: Disk, i: int)
    requires
        start.phase == Phase::Open,
        0 <= i < deeds(start, disk).len(),
        deeds(start, disk)[i] is Migrate,
    ensures
        start.keyed(),
        start.sqlcipher,
        disk.exists,
        disk.plaintext,
        !disk.opens,
        deeds(start, disk)[i] == (Deed::Migrate { path: start.path, key: start.key }),
{
    reveal_with_fuel(deeds, 7);
}

/// Whatever is opened or encrypted on the way is the database at the path, under the key given.
pub proof fn law_openings_keep_to_their_path_and_key(start: Opening, disk: Disk, i: int)
    requires
        start.phase == Phase::Open,
        0 <= i < deeds(start, disk).len(),
    ensures
        match deeds(start, disk)[i] {
            Deed::Open { path, key } => path == start.path && key == start.key,
            Deed::Migrate { path, key } => path == start.path && key == start.key,
            Deed::Exists { path } => path == start.path,
            Deed::Inspect { path } => path == start.path,
            _ => true,
        },
{
    reveal_with_fuel(deeds, 7);
}

/// A keyed file that is there and will not open is looked at, where the store can encrypt, encrypted
/// in place if it is a plaintext one, and otherwise left for another day: the store is then in
/// memory. These are all the deeds, in this order.
pub proof fn law_keyed_openings_fail_closed(start: Opening, disk: Disk)
    requires
        start.phase == Phase::Open,
        start.key.len() > 0,
        !disk.opens,
        disk.exists,
    ensures
        ({
            let (path, key) = (start.path, start.key);
            let tried = seq![Deed::Open { path, key }, Deed::Exists { path }];
            deeds(start, disk) == (if !start.sqlcipher {
                tried + seq![Deed::OpenInMemory]
            } else if !disk.plaintext {
                tried + seq![Deed::Inspect { path }, Deed::OpenInMemory]
            } else if disk.migrates {
                tried + seq![Deed::Inspect { path }, Deed::Migrate { path, key }]
            } else {
                tried + seq![Deed::Inspect { path }, Deed::Migrate { path, key }, Deed::OpenInMemory]
            })
        }),
{
    reveal_with_fuel(deeds, 7);
    let (path, key) = (start.path, start.key);
    let tried = seq![Deed::Open { path, key }, Deed::Exists { path }];
    let rest = if !start.sqlcipher {
        seq![Deed::OpenInMemory]
    } else if !disk.plaintext {
        seq![Deed::Inspect { path }, Deed::OpenInMemory]
    } else if disk.migrates {
        seq![Deed::Inspect { path }, Deed::Migrate { path, key }]
    } else {
        seq![Deed::Inspect { path }, Deed::Migrate { path, key }, Deed::OpenInMemory]
    };
    assert(deeds(start, disk) =~= tried + rest);
}

/// A file that will not open and is under no key, or is not there, gives way to a fresh one: what an
/// earlier quarantine left behind is removed, the file is renamed with `.corrupt` behind its name, and
/// a fresh one is opened in its place under the same key; where that fails the store is in memory.
/// These are all the deeds, in this order.
pub proof fn law_unusable_files_give_way(start: Opening, disk: Disk)
    requires
        start.phase == Phase::Open,
        !disk.opens,
        start.key.len() == 0 || !disk.exists,
    ensures
        ({
            let (path, key) = (start.path, start.key);
            let aside = path + ".corrupt"@;
            let tried = if key.len() == 0 {
                seq![Deed::Open { path, key }]
            } else {
                seq![Deed::Open { path, key }, Deed::Exists { path }]
            };
            let moved = seq![Deed::Remove { path: aside }, Deed::Rename { from: path, to: aside }];
            deeds(start, disk) == (if !disk.moves {
                tried + moved + seq![Deed::OpenInMemory]
            } else if disk.reopens {
                tried + moved + seq![Deed::Open { path, key }]
            } else {
                tried + moved + seq![Deed::Open { path, key }, Deed::OpenInMemory]
            })
        }),
{
    reveal_with_fuel(deeds, 7);
    let (path, key) = (start.path, start.key);
    let aside = path + ".corrupt"@;
    let tried = if key.len() == 0 {
        seq![Deed::Open { path, key }]
    } else {
        seq![Deed::Open { path, key }, Deed::Exists { path }]
    };
    let moved = seq![Deed::Remove { path: aside }, Deed::Rename { from: path, to: aside }];
    let rest = if !disk.moves {
        seq![Deed::OpenInMemory]
    } else if disk.reopens {
        seq![Deed::Open { path, key }]
    } else {
        seq![Deed::Open { path, key }, Deed::OpenInMemory]
    };
    assert(deeds(start, disk) =~= tried + moved + rest);
}

/// An action is the deed that it is viewed as, on the very paths and under the very key that it
/// holds.
pub proof fn law_actions_are_what_they_are_viewed_as(action: StoreAction)
    ensures
        action matches StoreAction::Open { path, key } ==> action@ == (Deed::Open {
            path: path@,
            key: key@,
        }),
        action matches StoreAction::Exists { path } ==> action@ == (Deed::Exists { path: path@ }),
        action matches StoreAction::Inspect { path } ==> action@ == (Deed::Inspect { path: path@ }),
        action matches StoreAction::Migrate { path, key } ==> action@ == (Deed::Migrate {
            path: path@,
            key: key@,
        }),
        action matches StoreAction::Remove { path } ==> action@ == (Deed::Remove { path: path@ }),
        action matches StoreAction::Rename { from, to } ==> action@ == (Deed::Rename {
            from: from@,
            to: to@,
        }),
        action is OpenInMemory ==> action@ is OpenInMemory,
        action is Nothing ==> action@ is Nothing,
{
}

} // verus!
