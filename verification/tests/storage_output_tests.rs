use ipc_tracking::config::settings::SqliteConfig;
use ipc_tracking::devices::flowmeter::FlowmeterRawPayload;
use ipc_tracking::output::formatters::{ConsoleFormatter, CsvFormatter, HexFormatter, JsonFormatter};
use ipc_tracking::output::raw_sender::{hex_line_stamped, RawDataFormat, RawDataSender};
use ipc_tracking::output::senders::{ConsoleSender, FileSender, MqttSender, NetworkSender, WebSocketSender};
use ipc_tracking::storage::models::{DatabaseStats, EngineDuration};
use ipc_tracking::storage::queries::{chunk_ranges, connection_settings, device_readings_query, insert_batch_size, SyncMode};

#[test]
fn connection_settings_follow_the_configuration() {
    let mut c = SqliteConfig::default();
    let s = connection_settings(&c);
    assert!(!s.wal_journal);
    assert_eq!(s.synchronous, SyncMode::Off);
    assert_eq!(s.busy_timeout_ms, 30000);
    assert_eq!(s.cache_pragma, "PRAGMA cache_size = -2000");
    assert_eq!(s.vacuum_pragma, Some("PRAGMA auto_vacuum = INCREMENTAL".to_string()));
    c.sync_mode = "FULL".to_string();
    c.auto_vacuum = false;
    c.enable_wal = true;
    c.cache_size = -5;
    let s = connection_settings(&c);
    assert!(s.wal_journal);
    assert_eq!(s.synchronous, SyncMode::Full);
    assert_eq!(s.cache_pragma, "PRAGMA cache_size = --5");
    assert_eq!(s.vacuum_pragma, None);
    c.sync_mode = "fast".to_string();
    assert_eq!(connection_settings(&c).synchronous, SyncMode::Normal);
}

#[test]
fn device_readings_query_text_and_binds() {
    let (q, b) = device_readings_query(2, None, None, Some(10));
    assert_eq!(q, "SELECT * FROM flowmeter_readings WHERE device_address = ? ORDER BY unix_timestamp DESC LIMIT ?");
    assert_eq!(b, vec!["2", "10"]);
    let (q, b) = device_readings_query(3, Some(-5), Some(100), None);
    assert_eq!(
        q,
        "SELECT * FROM flowmeter_readings WHERE device_address = ? AND unix_timestamp >= ? AND unix_timestamp <= ? ORDER BY unix_timestamp DESC"
    );
    assert_eq!(b, vec!["3", "-5", "100"]);
}

#[test]
fn batches_and_chunks() {
    assert_eq!(insert_batch_size(100), 500);
    assert_eq!(insert_batch_size(800), 800);
    assert_eq!(chunk_ranges(0, 500), vec![]);
    assert_eq!(chunk_ranges(1200, 500), vec![(0, 500), (500, 1000), (1000, 1200)]);
    assert_eq!(chunk_ranges(1000, 500), vec![(0, 500), (500, 1000)]);
}

#[test]
fn database_stats_and_engines() {
    let s = DatabaseStats::from_counts(10, 5, 2);
    assert_eq!(s.total_readings, 15);
    assert_eq!(s.connection_count, 1);
    assert_eq!(s.database_size_bytes, 0);
    let e = EngineDuration::new_at(3, 2, "main".to_string(), 500, 1000);
    assert_eq!(e.engine_address, 302u32 as u8);
    assert_eq!(e.duration_minutes(), 0);
    assert_eq!(e.created_at, 1000);
}

#[test]
fn formatters_and_senders() {
    assert_eq!(ConsoleFormatter.format_header(), "Device Data:");
    assert_eq!(ConsoleFormatter.formatter_type(), "console");
    assert_eq!(JsonFormatter.formatter_type(), "json");
    assert_eq!(CsvFormatter.formatter_type(), "csv");
    assert_eq!(HexFormatter.formatter_type(), "hex");
    assert_eq!(ConsoleSender.sender_type(), "console");
    assert_eq!(ConsoleSender.destination(), "stdout");
    let f = FileSender::new("out/data.log", true);
    assert_eq!(f.destination(), "out/data.log");
    assert!(f.appends());
    assert_eq!(NetworkSender::new("http://h/x".to_string()).destination(), "http://h/x");
    let m = MqttSender::new("tcp://b".to_string(), "t/1".to_string());
    assert_eq!(m.destination(), "t/1");
    assert_eq!(m.broker_url(), "tcp://b");
    assert_eq!(WebSocketSender::new("ws://w".to_string()).destination(), "ws://w");
}

#[test]
fn raw_sender_formats() {
    assert_eq!(RawDataFormat::from_name("hex"), RawDataFormat::Hex);
    assert_eq!(RawDataFormat::from_name("binary"), RawDataFormat::Binary);
    assert_eq!(RawDataFormat::from_name("json"), RawDataFormat::Json);
    assert_eq!(RawDataFormat::from_name("xml"), RawDataFormat::Debug);
    let s = RawDataSender::new("raw.txt", RawDataFormat::Hex, true);
    assert_eq!(s.sender_type(), "raw_data");
    assert_eq!(s.destination(), "raw.txt");
    assert_eq!(s.format(), RawDataFormat::Hex);
    let mut bytes = vec![0xABu8];
    bytes.resize(44, 0);
    let mut p = FlowmeterRawPayload::new(4, bytes, 244, 22).unwrap();
    p.timestamp = 0;
    let line = s.hex_line(&p).unwrap();
    assert_eq!(line, format!("1970-01-01 00:00:00.000 | Device 4 | Size: 44 bytes | Hex: {}\n", p.hex_string));
}

#[test]
fn hex_line_keeps_milliseconds() {
    let s = RawDataSender::new("raw.txt", RawDataFormat::Hex, true);
    let mut bytes = vec![0x01u8];
    bytes.resize(44, 0);
    let p = FlowmeterRawPayload::new_at(4, bytes, 244, 22, 1_700_000_000_123).unwrap();
    let line = s.hex_line(&p).unwrap();
    assert!(line.starts_with("2023-11-14 22:13:20.123 | Device 4 | Size: 44 bytes | Hex: 01"));
    assert_eq!(hex_line_stamped(&p, "T"), format!("T | Device 4 | Size: 44 bytes | Hex: {}\n", p.hex_string));
    assert_eq!(p.to_engineering_units().timestamp, 1_700_000_000);
    let early = FlowmeterRawPayload::new_at(4, vec![0u8; 44], 244, 22, -1).unwrap();
    assert_eq!(early.to_engineering_units().timestamp, -1);
    let now = FlowmeterRawPayload::new(4, vec![0u8; 44], 244, 22).unwrap();
    assert!(now.timestamp > 1_600_000_000_000);
}
