//! Knowledge graph: structured information about the microgrid site.
//!
//! Entities (loads, feeders, buildings, services) and their relationships are
//! stored as a directed graph in SQLite; recursive queries answer impact and
//! priority questions such as "what is affected if feeder-2 trips?".
use vstd::prelude::*;

use rusqlite::Connection;

verus! {

#[verifier::external_type_specification]
#[verifier::external_body]
pub struct ExConnection(rusqlite::Connection);

#[verifier::external_type_specification]
#[verifier::external_body]
pub struct ExSqliteError(rusqlite::Error);

/// Schema of the knowledge graph, created on first open.
pub const SCHEMA_SQL: &'static str = "
    CREATE TABLE IF NOT EXISTS entities (
        id          TEXT PRIMARY KEY,
        kind        TEXT NOT NULL,  -- 'load', 'feeder', 'building', 'service'
        label       TEXT,
        priority    INTEGER DEFAULT 0,  -- 0=normal, 1=essential, 2=critical
        metadata    TEXT  -- JSON blob for extra attributes
    );

    CREATE TABLE IF NOT EXISTS edges (
        source_id   TEXT NOT NULL,
        target_id   TEXT NOT NULL,
        relation    TEXT NOT NULL,  -- 'feeds', 'contains', 'depends_on', 'serves'
        weight      REAL DEFAULT 1.0,
        PRIMARY KEY (source_id, target_id, relation),
        FOREIGN KEY (source_id) REFERENCES entities(id),
        FOREIGN KEY (target_id) REFERENCES entities(id)
    );

    CREATE INDEX IF NOT EXISTS idx_edges_source ON edges(source_id);
    CREATE INDEX IF NOT EXISTS idx_edges_target ON edges(target_id);
    CREATE INDEX IF NOT EXISTS idx_entities_kind ON entities(kind);
    CREATE INDEX IF NOT EXISTS idx_entities_priority ON entities(priority);
";

/// Load entities marked as priority (priority >= 1), critical first.
pub const PRIORITY_LOADS_SQL: &'static str =
    "SELECT id FROM entities WHERE kind = 'load' AND priority >= 1 ORDER BY priority DESC";

/// Entities reached downstream of `?` through 'feeds', 'contains' and
/// 'depends_on' edges, nearest first, at most ten hops away.
pub const AFFECTED_SQL: &'static str = "
    WITH RECURSIVE affected(id, depth) AS (
        -- Base case: the event source
        SELECT ?, 0
        UNION
        -- Recursive case: follow downstream edges
        SELECT e.target_id, a.depth + 1
        FROM affected a
        JOIN edges e ON e.source_id = a.id
        WHERE e.relation IN ('feeds', 'contains', 'depends_on')
          AND a.depth < 10  -- prevent infinite loops
    )
    SELECT DISTINCT id FROM affected WHERE depth > 0
    ORDER BY depth
";

/// The path that a SQLite connection was opened on.
pub uninterp spec fn connection_path(conn: Connection) -> Seq<char>;

/// Whether the SQL batch `sql` ran to completion on the connection. It is a
/// record of a successful `execute_batch`, not a description of what the
/// database holds.
pub uninterp spec fn batch_ran(conn: Connection, sql: Seq<char>) -> bool;

/// Calls `rusqlite::Connection::open(path)`. A connection that it returns is
/// on `path`; whether it succeeds depends on the file system.
#[verifier::external_body]
fn sqlite_open(path: &str) -> (r: Result<Connection, rusqlite::Error>)
    ensures
        r matches Ok(conn) ==> connection_path(conn) == path@,
{
    Connection::open(path)
}

/// Calls `rusqlite::Connection::execute_batch(sql)`; on success the batch ran
/// on the connection. Whether it succeeds depends on the database on disk.
#[verifier::external_body]
fn sqlite_execute_batch(conn: &Connection, sql: &str) -> (r: Result<(), rusqlite::Error>)
    ensures
        r is Ok ==> batch_ran(*conn, sql@),
{
    conn.execute_batch(sql)
}

/// Whether `answer` is an answer that SQLite gave, on the connection `conn`,
/// to the query `sql` with `params` bound in order: `None` when preparing or running the query
/// failed, otherwise column 0 of the rows in order, `None` for a row that
/// could not be read as text. The answer depends on the database file, so
/// this is a relation between a query and what came back, not a function of
/// the query; it says nothing of which rows a query yields.
pub uninterp spec fn sqlite_answer(conn: Connection, sql: Seq<char>, params: Seq<Seq<char>>, answer: Option<Seq<Option<Seq<char>>>>) -> bool;

/// The texts of query parameters.
pub open spec fn param_texts(params: Seq<&str>) -> Seq<Seq<char>> {
    params.map_values(|p: &str| p@)
}

/// The text of a row, `None` for a row that could not be read.
pub open spec fn row_text<E>(row: Result<String, E>) -> Option<Seq<char>> {
    match row {
        Ok(v) => Some(v@),
        Err(_) => None,
    }
}

/// The answer a query outcome carries.
pub open spec fn answer_of<E>(outcome: Result<Vec<Result<String, E>>, E>) -> Option<Seq<Option<Seq<char>>>> {
    match outcome {
        Ok(rows) => Some(rows@.map_values(|r: Result<String, E>| row_text(r))),
        Err(_) => None,
    }
}

/// The texts of the rows that were read, in order.
pub open spec fn texts_read(rows: Seq<Option<Seq<char>>>) -> Seq<Seq<char>>
    decreases rows.len(),
{
    if rows.len() == 0 {
        Seq::empty()
    } else {
        let rest = texts_read(rows.drop_last());
        match rows.last() {
            Some(t) => rest.push(t),
            None => rest,
        }
    }
}

/// The texts an answer yields: those of the rows read, none for a failed
/// query.
pub open spec fn answer_texts(answer: Option<Seq<Option<Seq<char>>>>) -> Seq<Seq<char>> {
    match answer {
        Some(rows) => texts_read(rows),
        None => Seq::empty(),
    }
}

/// The texts of a list of strings.
pub open spec fn texts_of(values: Seq<String>) -> Seq<Seq<char>> {
    values.map_values(|v: String| v@)
}

/// A rusqlite statement borrows its connection and its mapped rows hold the
/// row closure, so preparing, querying and reading stay in one wrapper.
/// Calls `rusqlite::Connection::prepare(sql)` and `Statement::query_map` with
/// `params` bound in order, reading column 0 of every row as text, and collects
/// the per-row results in order. What comes back is an answer to `sql` with
/// `params`; which rows it holds depends on the database file and is not
/// stated.
#[verifier::external_body]
fn sqlite_query_text_column(
    conn: &Connection,
    sql: &str,
    params: &[&str],
) -> (r: Result<Vec<Result<String, rusqlite::Error>>, rusqlite::Error>)
    ensures
        sqlite_answer(*conn, sql@, param_texts(params@), answer_of(r)),
{
    conn.prepare(sql).and_then(
        |mut stmt| {
            stmt.query_map(rusqlite::params_from_iter(params.iter()), |row| row.get(0)).map(
                |rows| rows.collect(),
            )
        },
    )
}

/// The values of the successful rows, in order.
pub open spec fn ok_values<E>(rows: Seq<Result<String, E>>) -> Seq<String>
    decreases rows.len(),
{
    if rows.len() == 0 {
        Seq::empty()
    } else {
        let rest = ok_values(rows.drop_last());
        match rows.last() {
            Ok(v) => rest.push(v),
            Err(_) => rest,
        }
    }
}

/// What a text-column query yields: the successful rows when the query ran,
/// nothing when it failed.
pub open spec fn query_values<E>(outcome: Result<Seq<Result<String, E>>, E>) -> Seq<String> {
    match outcome {
        Ok(rows) => ok_values(rows),
        Err(_) => Seq::empty(),
    }
}

/// The view of a query outcome: its rows as a sequence.
pub open spec fn outcome_view<E>(outcome: Result<Vec<Result<String, E>>, E>) -> Result<
    Seq<Result<String, E>>,
    E,
> {
    match outcome {
        Ok(rows) => Ok(rows@),
        Err(e) => Err(e),
    }
}

proof fn lemma_ok_values_texts<E>(rows: Seq<Result<String, E>>)
    ensures
        texts_of(ok_values(rows)) == texts_read(rows.map_values(|r: Result<String, E>| row_text(r))),
    decreases rows.len(),
{
    if rows.len() > 0 {
        lemma_ok_values_texts(rows.drop_last());
        let f = |r: Result<String, E>| row_text(r);
        assert(rows.drop_last().map_values(f) =~= rows.map_values(f).drop_last());
        assert(texts_of(ok_values(rows)) =~= texts_read(rows.map_values(f)));
    } else {
        assert(texts_of(ok_values(rows)) =~= Seq::<Seq<char>>::empty());
    }
}

/// Keeps the rows that were read successfully, in order; a failed query gives
/// an empty list.
pub fn collect_ok_rows<E>(outcome: Result<Vec<Result<String, E>>, E>) -> (values: Vec<String>)
    ensures
        values@ == query_values(outcome_view(outcome)),
        texts_of(values@) == answer_texts(answer_of(outcome)),
{
    proof {
        if outcome is Ok {
            lemma_ok_values_texts(outcome->Ok_0@);
        } else {
            assert(texts_of(Seq::<String>::empty()) =~= Seq::<Seq<char>>::empty());
        }
    }
    match outcome {
        Err(_) => Vec::new(),
        Ok(rows) => {
            let ghost all = rows@;
            let mut rows = rows;
            let mut rev: Vec<String> = Vec::new();
            // Take rows from the back, then restore their order.
            while rows.len() > 0
                invariant
                    rows@.len() <= all.len(),
                    rows@ == all.subrange(0, rows@.len() as int),
                    ok_values(all) == ok_values(rows@) + rev@.reverse(),
                decreases rows.len(),
            {
                let ghost before = rows@;
                let r = rows.pop().unwrap();
                assert(before.drop_last() =~= rows@);
                assert(rows@ =~= all.subrange(0, rows@.len() as int));
                match r {
                    Ok(v) => {
                        let ghost old_rev = rev@;
                        rev.push(v);
                        assert(rev@.reverse() =~= seq![v] + old_rev.reverse());
                        assert(ok_values(before) == ok_values(rows@).push(v));
                        assert(ok_values(rows@) + rev@.reverse() =~= ok_values(rows@).push(v)
                            + old_rev.reverse());
                    },
                    Err(_) => {
                        assert(ok_values(before) == ok_values(rows@));
                    },
                }
            }
            assert(ok_values(rows@) == Seq::<String>::empty());
            let mut values: Vec<String> = Vec::new();
            let ghost target = rev@.reverse();
            while rev.len() > 0
                invariant
                    values@ + rev@.reverse() == target,
                decreases rev.len(),
            {
                let ghost before = rev@;
                let v = rev.pop().unwrap();
                assert(before.reverse() =~= seq![v] + rev@.reverse());
                values.push(v);
                assert(values@ + rev@.reverse() =~= target);
            }
            assert(values@ =~= target);
            values
        },
    }
}

/// Errors of the knowledge graph store.
#[derive(Debug)]
pub enum KnowledgeError {
    /// SQLite reported an error.
    Sqlite(rusqlite::Error),
}

/// An embedded knowledge graph backed by SQLite.
pub struct KnowledgeGraph {
    conn: Connection,
}

impl KnowledgeGraph {
    /// The graph's SQLite connection.
    pub closed spec fn spec_connection(&self) -> Connection {
        self.conn
    }

    /// The path of the graph's database.
    pub closed spec fn spec_path(&self) -> Seq<char> {
        connection_path(self.conn)
    }

    /// Whether the schema batch `SCHEMA_SQL` ran on the graph's connection.
    pub closed spec fn schema_created(&self) -> bool {
        batch_ran(self.conn, SCHEMA_SQL@)
    }

    /// Open (or create) the knowledge graph database at `path` and run the
    /// schema batch on it, which creates the tables and indexes that are
    /// missing and leaves existing ones as they are. The parent directory must
    /// exist. A graph is returned exactly when both the open and the schema
    /// batch succeed; whether they do depends on the file system.
    pub fn open(path: &str) -> (r: Result<KnowledgeGraph, KnowledgeError>)
        ensures
            r matches Ok(kg) ==> kg.spec_path() == path@ && kg.schema_created(),
    {
        match sqlite_open(path) {
            Err(e) => Err(KnowledgeError::Sqlite(e)),
            Ok(conn) => match sqlite_execute_batch(&conn, SCHEMA_SQL) {
                Err(e) => Err(KnowledgeError::Sqlite(e)),
                Ok(()) => Ok(KnowledgeGraph { conn }),
            },
        }
    }

    /// All load entity IDs marked as priority (priority >= 1), sorted by
    /// priority descending (critical first): the rows that SQLite answers to
    /// `PRIORITY_LOADS_SQL` without parameters, skipping rows that cannot be
    /// read; a failing query gives an empty list. Which rows SQLite answers
    /// depends on the database file and is not stated.
    pub fn get_priority_loads(&self) -> (loads: Vec<String>)
        ensures
            exists|answer: Option<Seq<Option<Seq<char>>>>|
                #[trigger] sqlite_answer(self.spec_connection(), PRIORITY_LOADS_SQL@, Seq::empty(), answer) && texts_of(
                    loads@,
                ) == answer_texts(answer),
    {
        let empty: [&str; 0] = [];
        let outcome = sqlite_query_text_column(&self.conn, PRIORITY_LOADS_SQL, &empty);
        let ghost answer = answer_of(outcome);
        assert(param_texts(empty@) =~= Seq::<Seq<char>>::empty());
        let loads = collect_ok_rows(outcome);
        assert(sqlite_answer(self.spec_connection(), PRIORITY_LOADS_SQL@, Seq::empty(), answer));
        loads
    }

    /// All entities affected by an event on `event_entity_id`: the graph is
    /// walked downstream from it along 'feeds', 'contains' and 'depends_on'
    /// edges, at most ten hops. These are the rows that SQLite answers to
    /// `AFFECTED_SQL` with `event_entity_id` bound, skipping rows that cannot
    /// be read; a failing query gives an empty list. Which rows SQLite answers
    /// depends on the database file and is not stated.
    pub fn query_affected(&self, event_entity_id: &str) -> (affected: Vec<String>)
        ensures
            exists|answer: Option<Seq<Option<Seq<char>>>>|
                #[trigger] sqlite_answer(self.spec_connection(), AFFECTED_SQL@, seq![event_entity_id@], answer) && texts_of(
                    affected@,
                ) == answer_texts(answer),
    {
        let params: [&str; 1] = [event_entity_id];
        let outcome = sqlite_query_text_column(&self.conn, AFFECTED_SQL, &params);
        let ghost answer = answer_of(outcome);
        assert(param_texts(params@) =~= seq![event_entity_id@]);
        let affected = collect_ok_rows(outcome);
        assert(sqlite_answer(self.spec_connection(), AFFECTED_SQL@, seq![event_entity_id@], answer));
        affected
    }
}

} // verus!
