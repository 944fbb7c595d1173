//! Event journal: crash-safe append-only storage in `redb`.
//!
//! Every sensor reading and dispatch decision is persisted as an immutable
//! event under a monotonically increasing sequence number, which enables
//! replay, audit and post-hoc analysis. Events are stored as the serialized
//! bytes that the caller hands in.
//!
//! The database is modelled by what its tables hold: the byte-valued event
//! tables (sequence number to bytes) and the counter tables (name to value),
//! both as committed in the database and as seen inside a write transaction.
//! redb holds an exclusive lock on the file, so the committed contents change
//! only through this journal.
use vstd::prelude::*;

use redb::{Database, ReadableTable, TableDefinition, WriteTransaction};

verus! {

#[verifier::external_type_specification]
#[verifier::external_body]
pub struct ExDatabase(redb::Database);

#[verifier::external_type_specification]
#[verifier::external_body]
pub struct ExWriteTransaction(redb::WriteTransaction);

#[verifier::external_type_specification]
#[verifier::external_body]
pub struct ExRedbError(redb::Error);

/// Table of sensor-reading events, keyed by sequence number.
pub const READINGS_TABLE: &'static str = "readings";

/// Table of dispatch-decision events, keyed by sequence number.
pub const DECISIONS_TABLE: &'static str = "decisions";

/// Table of counters and checkpoints, keyed by name.
pub const META_TABLE: &'static str = "meta";

/// Counter of the reading events.
pub const READINGS_SEQ: &'static str = "readings_seq";

/// Counter of the decision events.
pub const DECISIONS_SEQ: &'static str = "decisions_seq";

/// Contents of the event tables (`u64` keys, byte values) committed in a redb
/// database: table name to (key to bytes); a missing table is absent.
pub uninterp spec fn committed_event_tables(db: Database) -> Map<Seq<char>, Map<u64, Seq<u8>>>;

/// Contents of the counter tables (text keys, `u64` values) committed in a
/// redb database: table name to (key to value); a missing table is absent.
pub uninterp spec fn committed_counter_tables(db: Database) -> Map<Seq<char>, Map<Seq<char>, u64>>;

/// Contents of the event tables as seen inside a write transaction.
pub uninterp spec fn txn_event_tables(txn: WriteTransaction) -> Map<Seq<char>, Map<u64, Seq<u8>>>;

/// Contents of the counter tables as seen inside a write transaction.
pub uninterp spec fn txn_counter_tables(txn: WriteTransaction) -> Map<Seq<char>, Map<Seq<char>, u64>>;

/// Path of the file an open database lives in.
pub uninterp spec fn database_path(db: Database) -> Seq<char>;

/// Identity of an open database.
pub uninterp spec fn database_id(db: Database) -> int;

/// Identity of the database a write transaction belongs to.
pub uninterp spec fn txn_database_id(txn: WriteTransaction) -> int;

/// The tables with `name` present: unchanged if it exists, with an empty
/// table added otherwise.
pub open spec fn with_table<K, V>(tables: Map<Seq<char>, Map<K, V>>, name: Seq<char>) -> Map<
    Seq<char>,
    Map<K, V>,
> {
    if tables.dom().contains(name) {
        tables
    } else {
        tables.insert(name, Map::empty())
    }
}

/// The contents of table `name`, empty when it does not exist.
pub open spec fn table_of<K, V>(tables: Map<Seq<char>, Map<K, V>>, name: Seq<char>) -> Map<K, V> {
    if tables.dom().contains(name) {
        tables[name]
    } else {
        Map::empty()
    }
}

/// The tables after storing `value` under `key` in table `name`.
pub open spec fn with_entry<K, V>(tables: Map<Seq<char>, Map<K, V>>, name: Seq<char>, key: K, value: V) -> Map<
    Seq<char>,
    Map<K, V>,
> {
    tables.insert(name, table_of(tables, name).insert(key, value))
}

/// The value stored under `key` in table `name`, if any.
pub open spec fn lookup<K, V>(tables: Map<Seq<char>, Map<K, V>>, name: Seq<char>, key: K) -> Option<V> {
    if table_of(tables, name).dom().contains(key) {
        Some(table_of(tables, name)[key])
    } else {
        None
    }
}

/// Calls `redb::Database::create(path)`, which opens or initialises the
/// database file at `path`. Whether it succeeds and the contents found depend
/// on the file system and are not stated.
#[verifier::external_body]
fn redb_create(path: &str) -> (r: Result<Database, redb::Error>)
    ensures
        r matches Ok(db) ==> database_path(db) == path@,
{
    Database::create(path).map_err(redb::Error::from)
}

/// Calls `redb::Database::begin_write`, which blocks while another write
/// transaction is open. A transaction that it returns belongs to `db` and
/// starts from the contents committed in `db`.
#[verifier::external_body]
fn redb_begin_write(db: &Database) -> (r: Result<WriteTransaction, redb::Error>)
    ensures
        r matches Ok(txn) ==> {
            &&& txn_event_tables(txn) == committed_event_tables(*db)
            &&& txn_counter_tables(txn) == committed_counter_tables(*db)
            &&& txn_database_id(txn) == database_id(*db)
        },
{
    db.begin_write().map_err(redb::Error::from)
}

/// Calls `redb::WriteTransaction::commit` on a transaction of `db` (passed to
/// name the database that the commit changes). On success the database holds
/// what the transaction held. redb's transactions are atomic (its README:
/// "Fully ACID-compliant transactions"), so after a failed commit the database
/// holds either what it held before or what the transaction held.
#[verifier::external_body]
fn redb_commit(db: &mut Database, txn: WriteTransaction) -> (r: Result<(), redb::Error>)
    requires
        txn_database_id(txn) == database_id(*old(db)),
    ensures
        database_id(*final(db)) == database_id(*old(db)),
        database_path(*final(db)) == database_path(*old(db)),
        r is Ok ==> committed_event_tables(*final(db)) == txn_event_tables(txn),
        r is Ok ==> committed_counter_tables(*final(db)) == txn_counter_tables(txn),
        r is Err ==> {
            ||| committed_event_tables(*final(db)) == committed_event_tables(*old(db))
                && committed_counter_tables(*final(db)) == committed_counter_tables(*old(db))
            ||| committed_event_tables(*final(db)) == txn_event_tables(txn)
                && committed_counter_tables(*final(db)) == txn_counter_tables(txn)
        },
{
    let _ = db;
    txn.commit().map_err(redb::Error::from)
}

// redb's `Table` borrows its transaction and carries redb's `Key`/`Value`
// trait bounds, which Verus cannot take on a declared type; so each wrapper
// below opens the table it works on within the transaction it is given.
/// Calls `WriteTransaction::open_table` for the event table `table`
/// (`u64` keys, byte values), which creates it, empty, if missing.
/// `TableDefinition::new` panics on an empty name, which is excluded.
#[verifier::external_body]
fn redb_open_event_table(txn: &mut WriteTransaction, table: &str) -> (r: Result<(), redb::Error>)
    requires
        table@.len() > 0,
    ensures
        txn_database_id(*final(txn)) == txn_database_id(*old(txn)),
        r is Ok ==> txn_event_tables(*final(txn)) == with_table(txn_event_tables(*old(txn)), table@),
        r is Ok ==> txn_counter_tables(*final(txn)) == txn_counter_tables(*old(txn)),
{
    txn.open_table(TableDefinition::<u64, &[u8]>::new(table)).map(|_| ()).map_err(
        redb::Error::from,
    )
}

/// Calls `WriteTransaction::open_table` for the counter table `table`
/// (text keys, `u64` values), which creates it, empty, if missing.
/// `TableDefinition::new` panics on an empty name, which is excluded.
#[verifier::external_body]
fn redb_open_meta_table(txn: &mut WriteTransaction, table: &str) -> (r: Result<(), redb::Error>)
    requires
        table@.len() > 0,
    ensures
        txn_database_id(*final(txn)) == txn_database_id(*old(txn)),
        r is Ok ==> txn_counter_tables(*final(txn)) == with_table(txn_counter_tables(*old(txn)), table@),
        r is Ok ==> txn_event_tables(*final(txn)) == txn_event_tables(*old(txn)),
{
    txn.open_table(TableDefinition::<&str, u64>::new(table)).map(|_| ()).map_err(
        redb::Error::from,
    )
}

/// Opens the counter table `table` in the transaction (creating it, empty, if
/// missing) and calls `ReadableTable::get(key)` on it: the value stored under
/// `key`, if any.
#[verifier::external_body]
fn redb_meta_get(txn: &mut WriteTransaction, table: &str, key: &str) -> (r: Result<Option<u64>, redb::Error>)
    requires
        table@.len() > 0,
    ensures
        txn_database_id(*final(txn)) == txn_database_id(*old(txn)),
        r matches Ok(v) ==> v == lookup(txn_counter_tables(*old(txn)), table@, key@),
        r is Ok ==> txn_counter_tables(*final(txn)) == with_table(txn_counter_tables(*old(txn)), table@),
        r is Ok ==> txn_event_tables(*final(txn)) == txn_event_tables(*old(txn)),
{
    let meta = txn.open_table(TableDefinition::<&str, u64>::new(table))?;
    let value = meta.get(key)?.map(|v| v.value());
    Ok(value)
}

/// Opens the counter table `table` in the transaction and calls
/// `Table::insert(key, value)` on it, which replaces any stored value.
#[verifier::external_body]
fn redb_meta_insert(txn: &mut WriteTransaction, table: &str, key: &str, value: u64) -> (r: Result<
    (),
    redb::Error,
>)
    requires
        table@.len() > 0,
    ensures
        txn_database_id(*final(txn)) == txn_database_id(*old(txn)),
        r is Ok ==> txn_counter_tables(*final(txn)) == with_entry(txn_counter_tables(*old(txn)), table@, key@, value),
        r is Ok ==> txn_event_tables(*final(txn)) == txn_event_tables(*old(txn)),
{
    let mut meta = txn.open_table(TableDefinition::<&str, u64>::new(table))?;
    meta.insert(key, value)?;
    Ok(())
}

/// Opens the event table `table` in the transaction and calls
/// `Table::insert(seq, payload)` on it, which replaces any stored value.
#[verifier::external_body]
fn redb_event_insert(txn: &mut WriteTransaction, table: &str, seq: u64, payload: &[u8]) -> (r: Result<
    (),
    redb::Error,
>)
    requires
        table@.len() > 0,
    ensures
        txn_database_id(*final(txn)) == txn_database_id(*old(txn)),
        r is Ok ==> txn_event_tables(*final(txn)) == with_entry(txn_event_tables(*old(txn)), table@, seq, payload@),
        r is Ok ==> txn_counter_tables(*final(txn)) == txn_counter_tables(*old(txn)),
{
    let mut events = txn.open_table(TableDefinition::<u64, &[u8]>::new(table))?;
    events.insert(seq, payload)?;
    Ok(())
}

/// Errors of the event journal.
#[derive(Debug)]
pub enum JournalError {
    /// The storage engine reported an error.
    Storage(redb::Error),
    /// A counter reached `u64::MAX` and has no successor.
    SequenceExhausted,
}

/// The sequence number that follows the stored counter value: 1 for a counter
/// never written, otherwise one more than the stored value.
pub open spec fn successor(current: Option<u64>) -> Option<u64> {
    match current {
        None => Some(1),
        Some(c) => if c < u64::MAX {
            Some((c + 1) as u64)
        } else {
            None
        },
    }
}

/// The sequence number that follows `current` (an absent counter counts as 0);
/// an error when the counter is exhausted.
pub fn successor_seq(current: Option<u64>) -> (r: Result<u64, JournalError>)
    ensures
        match successor(current) {
            Some(s) => r == Ok::<u64, JournalError>(s),
            None => r is Err && r->Err_0 is SequenceExhausted,
        },
{
    let value = match current {
        Some(c) => c,
        None => 0,
    };
    if value < u64::MAX {
        Ok(value + 1)
    } else {
        Err(JournalError::SequenceExhausted)
    }
}

/// The next sequence number of the counter `counter_key` in the counter
/// tables `counters`.
pub open spec fn next_key(counters: Map<Seq<char>, Map<Seq<char>, u64>>, counter_key: Seq<char>) -> Option<u64> {
    successor(lookup(counters, META_TABLE@, counter_key))
}

/// The journal went from (`events`, `counters`) to (`events2`, `counters2`)
/// by appending `payload` to `table` under the next value of `counter_key`:
/// the counter holds that value and the table holds the payload under it.
pub open spec fn appended(
    events: Map<Seq<char>, Map<u64, Seq<u8>>>,
    counters: Map<Seq<char>, Map<Seq<char>, u64>>,
    events2: Map<Seq<char>, Map<u64, Seq<u8>>>,
    counters2: Map<Seq<char>, Map<Seq<char>, u64>>,
    counter_key: Seq<char>,
    table: Seq<char>,
    payload: Seq<u8>,
) -> bool {
    &&& next_key(counters, counter_key) matches Some(s)
    &&& counters2 == with_entry(counters, META_TABLE@, counter_key, s)
    &&& events2 == with_entry(events, table, s, payload)
}

/// The counter `counter_key` either kept its value or took its next value.
pub open spec fn counter_kept_or_advanced(
    counters: Map<Seq<char>, Map<Seq<char>, u64>>,
    counters2: Map<Seq<char>, Map<Seq<char>, u64>>,
    counter_key: Seq<char>,
) -> bool {
    ||| counters2 == counters
    ||| next_key(counters, counter_key) matches Some(s) && counters2 == with_entry(
        counters,
        META_TABLE@,
        counter_key,
        s,
    )
}

/// What an append that failed in the storage engine leaves: nothing changed,
/// or the counter took its next value and the table either is unchanged or
/// holds the whole payload under that value; never part of an entry.
pub open spec fn append_failed(
    events: Map<Seq<char>, Map<u64, Seq<u8>>>,
    counters: Map<Seq<char>, Map<Seq<char>, u64>>,
    events2: Map<Seq<char>, Map<u64, Seq<u8>>>,
    counters2: Map<Seq<char>, Map<Seq<char>, u64>>,
    counter_key: Seq<char>,
    table: Seq<char>,
    payload: Seq<u8>,
) -> bool {
    ||| events2 == events && counters2 == counters
    ||| next_key(counters, counter_key) matches Some(s) && counters2 == with_entry(
        counters,
        META_TABLE@,
        counter_key,
        s,
    ) && (events2 == events || events2 == with_entry(events, table, s, payload))
}

fn table_names_nonempty()
    ensures
        READINGS_TABLE@.len() > 0,
        DECISIONS_TABLE@.len() > 0,
        META_TABLE@.len() > 0,
{
    proof {
        reveal_strlit("readings");
        reveal_strlit("decisions");
        reveal_strlit("meta");
    }
}

/// Append-only event journal backed by `redb`.
pub struct EventJournal {
    db: Database,
    /// The database as it was handed to the journal, before its tables were
    /// opened.
    found: Ghost<Database>,
}

impl EventJournal {
    /// Committed contents of the event tables.
    pub closed spec fn event_tables(&self) -> Map<Seq<char>, Map<u64, Seq<u8>>> {
        committed_event_tables(self.db)
    }

    /// Path of the journal's database file.
    pub closed spec fn spec_path(&self) -> Seq<char> {
        database_path(self.db)
    }

    /// Committed contents of the counter tables.
    pub closed spec fn counter_tables(&self) -> Map<Seq<char>, Map<Seq<char>, u64>> {
        committed_counter_tables(self.db)
    }

    /// The database the journal was opened on, as it was before the journal
    /// opened its tables.
    pub closed spec fn found_database(&self) -> Database {
        self.found@
    }

    /// Open (or create) the event journal at `path`, creating its tables on
    /// first open and keeping whatever they already hold. The parent
    /// directory must exist. Every failure is one that the storage engine
    /// reported; whether one occurs depends on the file system.
    pub fn open(path: &str) -> (r: Result<EventJournal, JournalError>)
        ensures
            r matches Err(e) ==> e is Storage,
            r matches Ok(j) ==> j.spec_path() == path@,
            r matches Ok(j) ==> exists|found_events: Map<Seq<char>, Map<u64, Seq<u8>>>, found_counters: Map<Seq<char>, Map<Seq<char>, u64>>|
                j.event_tables() == #[trigger] with_table(
                    with_table(found_events, READINGS_TABLE@),
                    DECISIONS_TABLE@,
                ) && j.counter_tables() == #[trigger] with_table(found_counters, META_TABLE@),
            r matches Ok(j) ==> {
                &&& database_path(j.found_database()) == path@
                &&& j.event_tables() == with_table(
                    with_table(committed_event_tables(j.found_database()), READINGS_TABLE@),
                    DECISIONS_TABLE@,
                )
                &&& j.counter_tables() == with_table(
                    committed_counter_tables(j.found_database()),
                    META_TABLE@,
                )
            },
    {
        let db = match redb_create(path) {
            Ok(db) => db,
            Err(e) => return Err(JournalError::Storage(e)),
        };
        Self::on_database(db)
    }

    /// Set up the journal on the open database `db`: create the readings,
    /// decisions and meta tables where missing, in one transaction, and keep
    /// every table and every event that `db` already holds.
    pub fn on_database(db: Database) -> (r: Result<EventJournal, JournalError>)
        ensures
            r matches Err(e) ==> e is Storage,
            r matches Ok(j) ==> {
                &&& j.found_database() == db
                &&& j.spec_path() == database_path(db)
                &&& j.event_tables() == with_table(
                    with_table(committed_event_tables(db), READINGS_TABLE@),
                    DECISIONS_TABLE@,
                )
                &&& j.counter_tables() == with_table(committed_counter_tables(db), META_TABLE@)
                &&& forall|t: Seq<char>, k: u64|
                    #[trigger] lookup(j.event_tables(), t, k) == lookup(committed_event_tables(db), t, k)
                &&& forall|t: Seq<char>, k: Seq<char>|
                    #[trigger] lookup(j.counter_tables(), t, k) == lookup(committed_counter_tables(db), t, k)
            },
    {
        table_names_nonempty();
        let ghost original = db;
        let mut db = db;
        let mut txn = match redb_begin_write(&db) {
            Ok(t) => t,
            Err(e) => return Err(JournalError::Storage(e)),
        };
        let ghost found_events = txn_event_tables(txn);
        let ghost found_counters = txn_counter_tables(txn);
        if let Err(e) = redb_open_event_table(&mut txn, READINGS_TABLE) {
            return Err(JournalError::Storage(e));
        }
        if let Err(e) = redb_open_event_table(&mut txn, DECISIONS_TABLE) {
            return Err(JournalError::Storage(e));
        }
        if let Err(e) = redb_open_meta_table(&mut txn, META_TABLE) {
            return Err(JournalError::Storage(e));
        }
        match redb_commit(&mut db, txn) {
            Ok(()) => {
                let j = EventJournal { db, found: Ghost(original) };
                assert(j.event_tables() == with_table(
                    with_table(found_events, READINGS_TABLE@),
                    DECISIONS_TABLE@,
                ) && j.counter_tables() == with_table(found_counters, META_TABLE@));
                proof {
                    lemma_opening_keeps_contents(found_events, found_counters);
                }
                Ok(j)
            },
            Err(e) => Err(JournalError::Storage(e)),
        }
    }

    /// Append the serialized sensor readings `payload` to the readings table
    /// under the next value of the readings counter. On success the counter
    /// holds that value and the table holds `payload` under it; nothing else
    /// changes. An exhausted counter changes nothing. After a storage error
    /// nothing is stated.
    pub fn append_readings(&mut self, payload: &[u8]) -> (r: Result<(), JournalError>)
        ensures
            r is Ok ==> appended(
                old(self).event_tables(),
                old(self).counter_tables(),
                final(self).event_tables(),
                final(self).counter_tables(),
                READINGS_SEQ@,
                READINGS_TABLE@,
                payload@,
            ),
            r matches Err(e) && e is SequenceExhausted ==> {
                &&& next_key(old(self).counter_tables(), READINGS_SEQ@) is None
                &&& final(self).event_tables() == old(self).event_tables()
                &&& final(self).counter_tables() == old(self).counter_tables()
            },
            r matches Err(e) && e is Storage ==> append_failed(
                old(self).event_tables(),
                old(self).counter_tables(),
                final(self).event_tables(),
                final(self).counter_tables(),
                READINGS_SEQ@,
                READINGS_TABLE@,
                payload@,
            ),
            final(self).spec_path() == old(self).spec_path(),
    {
        table_names_nonempty();
        self.append_event(READINGS_SEQ, READINGS_TABLE, payload)
    }

    /// Append the serialized dispatch decision `payload` to the decisions
    /// table under the next value of the decisions counter. On success the
    /// counter holds that value and the table holds `payload` under it;
    /// nothing else changes. An exhausted counter changes nothing. After a
    /// storage error nothing is stated.
    pub fn append_decision(&mut self, payload: &[u8]) -> (r: Result<(), JournalError>)
        ensures
            r is Ok ==> appended(
                old(self).event_tables(),
                old(self).counter_tables(),
                final(self).event_tables(),
                final(self).counter_tables(),
                DECISIONS_SEQ@,
                DECISIONS_TABLE@,
                payload@,
            ),
            r matches Err(e) && e is SequenceExhausted ==> {
                &&& next_key(old(self).counter_tables(), DECISIONS_SEQ@) is None
                &&& final(self).event_tables() == old(self).event_tables()
                &&& final(self).counter_tables() == old(self).counter_tables()
            },
            r matches Err(e) && e is Storage ==> append_failed(
                old(self).event_tables(),
                old(self).counter_tables(),
                final(self).event_tables(),
                final(self).counter_tables(),
                DECISIONS_SEQ@,
                DECISIONS_TABLE@,
                payload@,
            ),
            final(self).spec_path() == old(self).spec_path(),
    {
        table_names_nonempty();
        self.append_event(DECISIONS_SEQ, DECISIONS_TABLE, payload)
    }

    /// Takes the next value of `counter_key` and stores `payload` under it in
    /// the event table `table`, in two write transactions.
    fn append_event(&mut self, counter_key: &str, table: &str, payload: &[u8]) -> (r: Result<
        (),
        JournalError,
    >)
        requires
            table@.len() > 0,
        ensures
            r is Ok ==> appended(
                old(self).event_tables(),
                old(self).counter_tables(),
                final(self).event_tables(),
                final(self).counter_tables(),
                counter_key@,
                table@,
                payload@,
            ),
            r matches Err(e) && e is SequenceExhausted ==> {
                &&& next_key(old(self).counter_tables(), counter_key@) is None
                &&& final(self).event_tables() == old(self).event_tables()
                &&& final(self).counter_tables() == old(self).counter_tables()
            },
            r matches Err(e) && e is Storage ==> append_failed(
                old(self).event_tables(),
                old(self).counter_tables(),
                final(self).event_tables(),
                final(self).counter_tables(),
                counter_key@,
                table@,
                payload@,
            ),
            final(self).spec_path() == old(self).spec_path(),
    {
        let seq = match self.next_seq(counter_key) {
            Ok(s) => s,
            Err(e) => return Err(e),
        };
        let mut txn = match redb_begin_write(&self.db) {
            Ok(t) => t,
            Err(e) => return Err(JournalError::Storage(e)),
        };
        if let Err(e) = redb_event_insert(&mut txn, table, seq, payload) {
            return Err(JournalError::Storage(e));
        }
        match redb_commit(&mut self.db, txn) {
            Ok(()) => Ok(()),
            Err(e) => Err(JournalError::Storage(e)),
        }
    }

    /// Take the next sequence number of the counter `counter_key` and store it,
    /// in one write transaction: the stored value plus one, 1 the first time.
    /// On success the counter holds the returned value and nothing else
    /// changes; an exhausted counter changes nothing; after a storage error
    /// nothing is stated.
    fn next_seq(&mut self, counter_key: &str) -> (r: Result<u64, JournalError>)
        ensures
            r matches Ok(s) ==> {
                &&& next_key(old(self).counter_tables(), counter_key@) == Some(s)
                &&& final(self).counter_tables() == with_entry(
                    old(self).counter_tables(),
                    META_TABLE@,
                    counter_key@,
                    s,
                )
                &&& final(self).event_tables() == old(self).event_tables()
            },
            r matches Err(e) && e is SequenceExhausted ==> {
                &&& next_key(old(self).counter_tables(), counter_key@) is None
                &&& final(self).event_tables() == old(self).event_tables()
                &&& final(self).counter_tables() == old(self).counter_tables()
            },
            r matches Err(e) && e is Storage ==> {
                &&& final(self).event_tables() == old(self).event_tables()
                &&& counter_kept_or_advanced(
                    old(self).counter_tables(),
                    final(self).counter_tables(),
                    counter_key@,
                )
            },
            final(self).spec_path() == old(self).spec_path(),
    {
        table_names_nonempty();
        let mut txn = match redb_begin_write(&self.db) {
            Ok(t) => t,
            Err(e) => return Err(JournalError::Storage(e)),
        };
        let ghost start = txn_counter_tables(txn);
        let current = match redb_meta_get(&mut txn, META_TABLE, counter_key) {
            Ok(c) => c,
            Err(e) => return Err(JournalError::Storage(e)),
        };
        let seq = match successor_seq(current) {
            Ok(s) => s,
            Err(e) => return Err(e),
        };
        if let Err(e) = redb_meta_insert(&mut txn, META_TABLE, counter_key, seq) {
            return Err(JournalError::Storage(e));
        }
        assert(txn_counter_tables(txn) =~= with_entry(start, META_TABLE@, counter_key@, seq));
        match redb_commit(&mut self.db, txn) {
            Ok(()) => Ok(seq),
            Err(e) => Err(JournalError::Storage(e)),
        }
    }
}

/// Law (monotonic sequence numbers): two successive appends under the same
/// counter store their events under consecutive sequence numbers, and the
/// second leaves the first event where it was.
pub proof fn lemma_appends_get_consecutive_keys(
    e0: Map<Seq<char>, Map<u64, Seq<u8>>>,
    c0: Map<Seq<char>, Map<Seq<char>, u64>>,
    e1: Map<Seq<char>, Map<u64, Seq<u8>>>,
    c1: Map<Seq<char>, Map<Seq<char>, u64>>,
    e2: Map<Seq<char>, Map<u64, Seq<u8>>>,
    c2: Map<Seq<char>, Map<Seq<char>, u64>>,
    counter_key: Seq<char>,
    table: Seq<char>,
    first: Seq<u8>,
    second: Seq<u8>,
)
    requires
        appended(e0, c0, e1, c1, counter_key, table, first),
        appended(e1, c1, e2, c2, counter_key, table, second),
    ensures
        ({
            let k1 = next_key(c0, counter_key)->Some_0;
            let k2 = next_key(c1, counter_key)->Some_0;
            &&& k2 == k1 + 1
            &&& lookup(e2, table, k1) == Some(first)
            &&& lookup(e2, table, k2) == Some(second)
        }),
{
}

/// Law (no key reused after a failure): when an append fails in the storage
/// engine and a later append under the same counter succeeds, the later event
/// is stored under a key past the counter's value before the failure.
pub proof fn lemma_keys_increase_across_failure(
    e0: Map<Seq<char>, Map<u64, Seq<u8>>>,
    c0: Map<Seq<char>, Map<Seq<char>, u64>>,
    e1: Map<Seq<char>, Map<u64, Seq<u8>>>,
    c1: Map<Seq<char>, Map<Seq<char>, u64>>,
    e2: Map<Seq<char>, Map<u64, Seq<u8>>>,
    c2: Map<Seq<char>, Map<Seq<char>, u64>>,
    counter_key: Seq<char>,
    table: Seq<char>,
    failed: Seq<u8>,
    stored: Seq<u8>,
)
    requires
        append_failed(e0, c0, e1, c1, counter_key, table, failed),
        appended(e1, c1, e2, c2, counter_key, table, stored),
    ensures
        ({
            let k = next_key(c1, counter_key)->Some_0;
            &&& lookup(e2, table, k) == Some(stored)
            &&& lookup(c0, META_TABLE@, counter_key) matches Some(k0) ==> k0 < k
        }),
{
}

/// Law (opening keeps everything): adding the journal's missing tables changes
/// no stored event and no stored counter, and adds none.
pub proof fn lemma_opening_keeps_contents(
    events: Map<Seq<char>, Map<u64, Seq<u8>>>,
    counters: Map<Seq<char>, Map<Seq<char>, u64>>,
)
    ensures
        forall|t: Seq<char>, k: u64|
            #[trigger] lookup(with_table(with_table(events, READINGS_TABLE@), DECISIONS_TABLE@), t, k)
                == lookup(events, t, k),
        forall|t: Seq<char>, k: Seq<char>|
            #[trigger] lookup(with_table(counters, META_TABLE@), t, k) == lookup(counters, t, k),
{
}

/// Law (read back): right after an append, the table holds the payload under
/// the counter's new value.
pub proof fn lemma_append_reads_back(
    e0: Map<Seq<char>, Map<u64, Seq<u8>>>,
    c0: Map<Seq<char>, Map<Seq<char>, u64>>,
    e1: Map<Seq<char>, Map<u64, Seq<u8>>>,
    c1: Map<Seq<char>, Map<Seq<char>, u64>>,
    counter_key: Seq<char>,
    table: Seq<char>,
    payload: Seq<u8>,
)
    requires
        appended(e0, c0, e1, c1, counter_key, table, payload),
    ensures
        lookup(c1, META_TABLE@, counter_key) matches Some(k) && lookup(e1, table, k) == Some(
            payload,
        ),
{
}

/// Law (separate streams): appending a reading leaves the decisions table and
/// the decisions counter as they were, and appending a decision leaves the
/// readings table and the readings counter as they were.
pub proof fn lemma_streams_are_separate(
    e0: Map<Seq<char>, Map<u64, Seq<u8>>>,
    c0: Map<Seq<char>, Map<Seq<char>, u64>>,
    e1: Map<Seq<char>, Map<u64, Seq<u8>>>,
    c1: Map<Seq<char>, Map<Seq<char>, u64>>,
    payload: Seq<u8>,
)
    ensures
        appended(e0, c0, e1, c1, READINGS_SEQ@, READINGS_TABLE@, payload) ==> {
            &&& table_of(e1, DECISIONS_TABLE@) == table_of(e0, DECISIONS_TABLE@)
            &&& lookup(c1, META_TABLE@, DECISIONS_SEQ@) == lookup(c0, META_TABLE@, DECISIONS_SEQ@)
        },
        appended(e0, c0, e1, c1, DECISIONS_SEQ@, DECISIONS_TABLE@, payload) ==> {
            &&& table_of(e1, READINGS_TABLE@) == table_of(e0, READINGS_TABLE@)
            &&& lookup(c1, META_TABLE@, READINGS_SEQ@) == lookup(c0, META_TABLE@, READINGS_SEQ@)
        },
{
    reveal_strlit("readings");
    reveal_strlit("decisions");
    reveal_strlit("readings_seq");
    reveal_strlit("decisions_seq");
    assert(READINGS_TABLE@ != DECISIONS_TABLE@) by {
        assert(READINGS_TABLE@[0] != DECISIONS_TABLE@[0]);
    }
    assert(READINGS_SEQ@ != DECISIONS_SEQ@) by {
        assert(READINGS_SEQ@[0] != DECISIONS_SEQ@[0]);
    }
}

} // verus!
