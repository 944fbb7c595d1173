use microgrid_kernel::config::ConnectivitySection;
use microgrid_kernel::sync::FleetSync;

#[test]
fn fleet_sync_keeps_configuration() {
    let config = ConnectivitySection { mqtt_broker: "broker.example.org".to_string(), mqtt_port: 8883 };
    let s = FleetSync::new(&config, "/var/lib/microgrid/queue");
    assert_eq!(s.broker(), "broker.example.org");
    assert_eq!(s.port(), 8883);
    assert_eq!(s.queue_dir(), "/var/lib/microgrid/queue");
}

#[test]
fn queue_file_names() {
    assert_eq!(FleetSync::queue_file_name("metrics", 1_700_000_000_123_456_789), "metrics-1700000000123456789.json");
    assert_eq!(FleetSync::queue_file_name("metrics", 0), "metrics-0.json");
    assert_eq!(FleetSync::queue_file_name("alerts", -15), "alerts--15.json");
}

#[test]
fn queue_file_name_uses_current_time() {
    let config = ConnectivitySection { mqtt_broker: "broker.example.org".to_string(), mqtt_port: 1883 };
    let mut s = FleetSync::new(&config, "/tmp/queue");
    let name = s.next_queue_file_name("metrics").unwrap();
    assert!(name.starts_with("metrics-"));
    assert!(name.ends_with(".json"));
    let digits = &name["metrics-".len()..name.len() - ".json".len()];
    let nanos: i64 = digits.parse().unwrap();
    assert!(nanos > 1_600_000_000_000_000_000);
}

#[test]
fn successive_queue_file_names_differ() {
    let config = ConnectivitySection { mqtt_broker: "broker.example.org".to_string(), mqtt_port: 1883 };
    let mut s = FleetSync::new(&config, "/tmp/queue");
    let mut names: Vec<String> = Vec::new();
    let mut stamps: Vec<i64> = Vec::new();
    for _ in 0..1000 {
        let name = s.next_queue_file_name("metrics").unwrap();
        let digits = &name["metrics-".len()..name.len() - ".json".len()];
        stamps.push(digits.parse().unwrap());
        names.push(name);
    }
    for i in 1..stamps.len() {
        assert!(stamps[i] > stamps[i - 1]);
    }
    let mut sorted = names.clone();
    sorted.sort();
    sorted.dedup();
    assert_eq!(sorted.len(), names.len());
    assert_eq!(s.broker(), "broker.example.org");
    assert_eq!(s.port(), 1883);
    assert_eq!(s.queue_dir(), "/tmp/queue");
}

#[test]
fn stamps_move_past_the_last_one() {
    assert_eq!(FleetSync::stamp_after(500, None), Some(500));
    assert_eq!(FleetSync::stamp_after(500, Some(400)), Some(500));
    assert_eq!(FleetSync::stamp_after(500, Some(500)), Some(501));
    assert_eq!(FleetSync::stamp_after(0, Some(900)), Some(901));
    assert_eq!(FleetSync::stamp_after(7, Some(i64::MAX)), None);
    assert_eq!(FleetSync::stamp_after(i64::MAX, Some(i64::MAX - 1)), Some(i64::MAX));
}
