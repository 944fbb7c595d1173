use microgrid_kernel::journal::{successor_seq, EventJournal, JournalError};
use microgrid_kernel::knowledge::{collect_ok_rows, KnowledgeGraph};
use redb::{ReadableTable, TableDefinition};

#[test]
fn successor_sequence_numbers() {
    assert!(matches!(successor_seq(None), Ok(1)));
    assert!(matches!(successor_seq(Some(0)), Ok(1)));
    assert!(matches!(successor_seq(Some(41)), Ok(42)));
    assert!(matches!(successor_seq(Some(u64::MAX - 1)), Ok(u64::MAX)));
    assert!(matches!(successor_seq(Some(u64::MAX)), Err(JournalError::SequenceExhausted)));
}

fn counter(path: &str, key: &str) -> Option<u64> {
    let db = redb::Database::create(path).unwrap();
    let txn = db.begin_read().unwrap();
    let meta = txn.open_table(TableDefinition::<&str, u64>::new("meta")).unwrap();
    let v = meta.get(key).unwrap().map(|v| v.value());
    v
}

fn events(path: &str, table: &str) -> Vec<(u64, Vec<u8>)> {
    let db = redb::Database::create(path).unwrap();
    let txn = db.begin_read().unwrap();
    let t = txn.open_table(TableDefinition::<u64, &[u8]>::new(table)).unwrap();
    let v = t.iter().unwrap().map(|e| {
        let (k, v) = e.unwrap();
        (k.value(), v.value().to_vec())
    }).collect();
    v
}

#[test]
fn journal_appends_under_increasing_sequence_numbers() {
    let path = "/tmp/microgrid_kernel_journal_test.redb";
    let before = {
        let mut journal = EventJournal::open(path).ok().unwrap();
        journal.append_readings(b"{}").ok().unwrap();
        drop(journal);
        counter(path, "readings_seq").unwrap()
    };
    {
        let mut journal = EventJournal::open(path).ok().unwrap();
        journal.append_readings(b"{\"a\":1}").ok().unwrap();
        journal.append_decision(b"{\"d\":2}").ok().unwrap();
        journal.append_decision(b"{\"d\":3}").ok().unwrap();
    }
    assert_eq!(counter(path, "readings_seq"), Some(before + 1));
    let readings = events(path, "readings");
    assert_eq!(readings.last().unwrap(), &(before + 1, b"{\"a\":1}".to_vec()));
    let decisions = events(path, "decisions");
    let n = decisions.len();
    assert!(n >= 2);
    assert_eq!(decisions[n - 1].1, b"{\"d\":3}".to_vec());
    assert_eq!(decisions[n - 1].0, decisions[n - 2].0 + 1);
    assert_eq!(counter(path, "decisions_seq"), Some(decisions[n - 1].0));
}

#[test]
fn journal_open_fails_on_missing_directory() {
    let r = EventJournal::open("/nonexistent-dir-for-microgrid/journal.redb");
    assert!(matches!(r, Err(JournalError::Storage(_))));
}

#[test]
fn ok_rows_are_collected_in_order() {
    let rows: Result<Vec<Result<String, String>>, String> = Ok(vec![
        Ok("a".to_string()),
        Err("bad".to_string()),
        Ok("b".to_string()),
        Ok("c".to_string()),
    ]);
    assert_eq!(collect_ok_rows(rows), vec!["a", "b", "c"]);
    let failed: Result<Vec<Result<String, String>>, String> = Err("no table".to_string());
    assert!(collect_ok_rows(failed).is_empty());
    let none: Result<Vec<Result<String, String>>, String> = Ok(vec![]);
    assert!(collect_ok_rows(none).is_empty());
}

fn seed_graph(path: &str) {
    let conn = rusqlite::Connection::open(path).unwrap();
    conn.execute_batch(
        "DROP TABLE IF EXISTS edges; DROP TABLE IF EXISTS entities;",
    )
    .unwrap();
    drop(conn);
    let kg = KnowledgeGraph::open(path).ok().unwrap();
    drop(kg);
    let conn = rusqlite::Connection::open(path).unwrap();
    conn.execute_batch(
        "INSERT INTO entities (id, kind, priority) VALUES
            ('feeder-1', 'feeder', 0),
            ('feeder-2', 'feeder', 0),
            ('health-post', 'load', 2),
            ('water-pump', 'load', 1),
            ('school', 'load', 1),
            ('shop', 'load', 0),
            ('clinic-fridge', 'service', 2);
         INSERT INTO edges (source_id, target_id, relation) VALUES
            ('feeder-2', 'health-post', 'feeds'),
            ('feeder-2', 'shop', 'feeds'),
            ('health-post', 'clinic-fridge', 'contains'),
            ('feeder-1', 'water-pump', 'feeds'),
            ('shop', 'school', 'serves');",
    )
    .unwrap();
}

#[test]
fn knowledge_graph_priority_loads_and_impact() {
    let path = "/tmp/microgrid_kernel_kg_test.sqlite";
    seed_graph(path);
    let kg = KnowledgeGraph::open(path).ok().unwrap();
    let priority = kg.get_priority_loads();
    assert_eq!(priority.len(), 3);
    assert_eq!(priority[0], "health-post");
    let mut rest = vec![priority[1].clone(), priority[2].clone()];
    rest.sort();
    assert_eq!(rest, vec!["school", "water-pump"]);
    let affected = kg.query_affected("feeder-2");
    assert_eq!(affected.len(), 3);
    let mut first = vec![affected[0].clone(), affected[1].clone()];
    first.sort();
    assert_eq!(first, vec!["health-post", "shop"]);
    assert_eq!(affected[2], "clinic-fridge");
    assert!(kg.query_affected("school").is_empty());
}

#[test]
fn knowledge_graph_empty_in_memory() {
    let kg = KnowledgeGraph::open(":memory:").ok().unwrap();
    assert!(kg.get_priority_loads().is_empty());
    assert!(kg.query_affected("feeder-1").is_empty());
}

#[test]
fn knowledge_graph_open_fails_on_missing_directory() {
    let r = KnowledgeGraph::open("/nonexistent-dir-for-microgrid/kg.sqlite");
    assert!(matches!(r, Err(microgrid_kernel::knowledge::KnowledgeError::Sqlite(_))));
}
