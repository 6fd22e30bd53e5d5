//! Opening the persistent store, against a disk made up for each test.
use hop::node::{Build, HopNode, OpenPlan};
use hop::store_open::{open_store_persistent, Phase, StoreAction, StoreOpen};

/// What the file at a path is.
#[derive(Clone, Debug, PartialEq)]
enum File {
    Garbage,
    Plain,
    Keyed(Vec<u8>),
}

/// A disk with a file at the database path and one at the quarantine path.
struct FakeDisk {
    path: String,
    file: Option<File>,
    quarantined: Option<File>,
    encrypts: bool,
    readonly: bool,
    deeds: Vec<String>,
}

impl FakeDisk {
    fn new(path: &str, file: Option<File>, encrypts: bool) -> FakeDisk {
        FakeDisk {
            path: path.to_string(),
            file,
            quarantined: None,
            encrypts,
            readonly: false,
            deeds: Vec::new(),
        }
    }

    fn open(&mut self, key: &[u8]) -> bool {
        let keyed = self.encrypts && !key.is_empty();
        match &self.file {
            Some(File::Garbage) => false,
            Some(File::Plain) => !keyed,
            Some(File::Keyed(k)) => keyed && k.as_slice() == key,
            None => {
                if self.readonly {
                    return false;
                }
                self.file = Some(if keyed { File::Keyed(key.to_vec()) } else { File::Plain });
                true
            }
        }
    }

    /// Do what the opening asks for and say whether it went well.
    fn perform(&mut self, action: StoreAction) -> bool {
        let quarantine = format!("{}.corrupt", self.path);
        match action {
            StoreAction::Open { path, key } => {
                assert_eq!(path, self.path);
                self.deeds.push("open".to_string());
                self.open(&key)
            }
            StoreAction::Exists { path } => {
                assert_eq!(path, self.path);
                self.deeds.push("exists".to_string());
                self.file.is_some()
            }
            StoreAction::Inspect { path } => {
                assert_eq!(path, self.path);
                self.deeds.push("inspect".to_string());
                self.file == Some(File::Plain)
            }
            StoreAction::Migrate { path, key } => {
                assert_eq!(path, self.path);
                self.deeds.push("migrate".to_string());
                self.file = Some(File::Keyed(key));
                true
            }
            StoreAction::Remove { path } => {
                assert_eq!(path, quarantine);
                self.deeds.push("remove".to_string());
                self.quarantined.take().is_some()
            }
            StoreAction::Rename { from, to } => {
                assert_eq!(from, self.path);
                assert_eq!(to, quarantine);
                self.deeds.push("rename".to_string());
                if self.readonly || self.file.is_none() {
                    return false;
                }
                self.quarantined = self.file.take();
                true
            }
            StoreAction::OpenInMemory => {
                self.deeds.push("memory".to_string());
                true
            }
            StoreAction::Nothing => unreachable!(),
        }
    }

    /// Carry an opening through and say whether it ended on disk.
    fn carry_out(&mut self, opening: &mut StoreOpen) -> bool {
        for _ in 0..6 {
            if let Some(persistent) = opening.verdict() {
                return persistent;
            }
            let ok = self.perform(opening.action());
            opening.step(ok);
        }
        opening.verdict().expect("an opening ends after six deeds at most")
    }
}

fn open(disk: &mut FakeDisk, key: &[u8]) -> bool {
    let mut opening = open_store_persistent(disk.path.clone(), key.to_vec(), disk.encrypts);
    disk.carry_out(&mut opening)
}

#[test]
fn keyed_open_of_a_plaintext_db_migrates_in_place_and_stays_persistent() {
    let mut disk = FakeDisk::new("migrate.db", None, true);
    // Start with a PLAINTEXT db (empty key).
    assert!(open(&mut disk, &[]));
    assert_eq!(disk.file, Some(File::Plain), "db starts as plaintext");
    // Open persistently WITH a key: the migration arm must fire - persistent stays true, the file is
    // encrypted in place, nothing is quarantined, and the key reopens it.
    let key = [7u8; 32];
    let persistent = open(&mut disk, &key);
    assert!(persistent, "migration arm: is_persistent stays true (no false ephemeral)");
    assert_eq!(disk.file, Some(File::Keyed(key.to_vec())), "the db is now encrypted");
    assert!(disk.quarantined.is_none(), "migration must NOT quarantine");
    assert!(open(&mut disk, &key), "reopens with the migration key");
    assert_eq!(disk.deeds, ["open", "open", "exists", "inspect", "migrate", "open"]);
}

#[test]
fn wrong_key_on_a_keyed_db_fails_closed_and_preserves_the_file() {
    let key_a = [1u8; 32];
    let mut disk = FakeDisk::new("failclosed.db", None, true);
    assert!(open(&mut disk, &key_a));
    // Open with the WRONG key: the fail-closed arm must fire - ephemeral (is_persistent=false), the
    // encrypted file PRESERVED (not wiped, not quarantined), so the right key recovers it later.
    let key_b = [2u8; 32];
    let persistent = open(&mut disk, &key_b);
    assert!(!persistent, "wrong key runs ephemeral (is_persistent=false), never churns state");
    assert_eq!(disk.file, Some(File::Keyed(key_a.to_vec())), "the encrypted file is preserved");
    assert!(
        disk.quarantined.is_none(),
        "a wrong key must NOT quarantine (a transient wrong key must be recoverable)"
    );
    assert_eq!(disk.deeds, ["open", "open", "exists", "inspect", "memory"]);
    assert!(
        open(&mut disk, &key_a),
        "the correct key still recovers the db after a wrong-key session"
    );
}

#[test]
fn a_corrupt_plain_db_is_quarantined_and_a_fresh_store_starts() {
    // A genuinely unusable PLAIN db (garbage bytes, no key ambiguity).
    let mut disk = FakeDisk::new("quarantine.db", Some(File::Garbage), true);
    // Empty-key path: the quarantine arm must fire - move the bad file aside and start FRESH
    // persistent (is_persistent=true), leaving a .corrupt copy for forensics.
    let persistent = open(&mut disk, &[]);
    assert!(persistent, "quarantine-then-fresh keeps persistence (is_persistent=true)");
    assert_eq!(
        disk.quarantined,
        Some(File::Garbage),
        "the corrupt db was quarantined to .corrupt"
    );
    assert_eq!(disk.file, Some(File::Plain), "a fresh usable plain db now lives at the path");
    assert_eq!(disk.deeds, ["open", "remove", "rename", "open"]);
}

#[test]
fn an_old_quarantine_gives_way_to_a_new_one() {
    let mut disk = FakeDisk::new("again.db", Some(File::Garbage), false);
    disk.quarantined = Some(File::Plain);
    assert!(open(&mut disk, &[]));
    assert_eq!(disk.quarantined, Some(File::Garbage));
}

#[test]
fn an_unusable_path_runs_in_memory() {
    // Nothing can be moved or opened: the whole plain path ends in memory, and says so.
    let mut disk = FakeDisk::new("readonly.db", Some(File::Garbage), false);
    disk.readonly = true;
    assert!(!open(&mut disk, &[]));
    assert_eq!(disk.file, Some(File::Garbage), "the file stays where it was");
    assert_eq!(disk.deeds, ["open", "remove", "rename", "memory"]);

    // A keyed open of a path where nothing can be created goes the same way.
    let mut none = FakeDisk::new("missing.db", None, true);
    none.readonly = true;
    assert!(!open(&mut none, &[5u8; 32]));
    assert_eq!(none.deeds, ["open", "exists", "remove", "rename", "memory"]);
}

#[test]
fn without_encryption_a_keyed_open_never_migrates() {
    // A store that cannot encrypt is not asked to: a garbage file under a key is left alone.
    let mut disk = FakeDisk::new("plainbuild.db", Some(File::Garbage), false);
    assert!(!open(&mut disk, &[5u8; 32]));
    assert_eq!(disk.deeds, ["open", "exists", "memory"]);
    assert_eq!(disk.file, Some(File::Garbage));
}

#[test]
fn a_usable_file_is_just_opened() {
    let mut disk = FakeDisk::new("usable.db", Some(File::Plain), true);
    assert!(open(&mut disk, &[]));
    assert_eq!(disk.deeds, ["open"]);
}

#[test]
fn a_failed_migration_fails_closed() {
    let mut opening = open_store_persistent("m.db".to_string(), vec![5u8; 32], true);
    for ok in [false, true, true, false] {
        opening.step(ok);
    }
    assert!(matches!(opening.action(), StoreAction::OpenInMemory));
    opening.step(true);
    assert_eq!(opening.verdict(), Some(false));
    assert!(matches!(opening.action(), StoreAction::Nothing));
    // What is done stays done.
    opening.step(false);
    assert_eq!(opening.verdict(), Some(false));
}

#[test]
fn phases_tell_themselves_apart() {
    assert!(Phase::Done { persistent: true } != Phase::Done { persistent: false });
    assert!(Phase::Open == Phase::Open);
}

fn finish(plan: OpenPlan, disk: &mut FakeDisk) -> OpenPlan {
    let OpenPlan { identity, app_secret, store } = plan;
    let store = store.map(|mut opening| {
        disk.carry_out(&mut opening);
        opening
    });
    OpenPlan { identity, app_secret, store }
}

#[test]
fn nodes_tell_their_persistence() {
    let full = Build { full: true, sqlcipher: true };
    let mut disk = FakeDisk::new("node.db", None, true);

    let plan = HopNode::open("node.db".to_string(), Vec::new(), Vec::new(), full);
    assert!(plan.opened(0).is_none(), "no node before its store is open");
    let node = finish(plan, &mut disk).opened(2).expect("the store is open");
    assert!(node.is_persistent());
    assert_eq!(node.rehydrate_dropped(), 2);

    // The file is there now and cannot be encrypted: a node on it fails closed.
    disk.file = Some(File::Garbage);
    let keyed = HopNode::open_keyed(
        "node.db".to_string(),
        Vec::new(),
        Vec::new(),
        vec![9u8; 32],
        full,
    );
    let node = finish(keyed, &mut disk).opened(0).expect("the store is open");
    assert!(!node.is_persistent());

    // The embedded build has no persistent store at all.
    let embedded = Build { full: false, sqlcipher: true };
    let plan = HopNode::open("node.db".to_string(), Vec::new(), Vec::new(), embedded);
    assert!(plan.store.is_none());
    let node = plan.opened(7).expect("nothing to open");
    assert!(!node.is_persistent());
    assert_eq!(node.rehydrate_dropped(), 0);
}
