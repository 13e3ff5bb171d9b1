use sys_stats::collector::{
    batch_to_send, bytes_to_mb, device_label, ids_to_delete, initial_device_token, metrics_url, resolve_token,
    sum_pairs, summarize, sync_interval_secs, Cli, TokenStore, NO_TOKEN,
};
use sys_stats::local_db::{data_dir, db_path, delete_synced_query, load_saved_token, parse_saved_token, token_path};

#[test]
fn token_resolution_order() {
    assert_eq!(resolve_token(Some("a".into()), Some("b".into())), Ok("a".to_string()));
    assert_eq!(resolve_token(None, Some("b".into())), Ok("b".to_string()));
    assert_eq!(resolve_token(None, None), Err(NO_TOKEN.to_string()));
    assert_eq!(
        NO_TOKEN,
        "No device token found. Run `sys_stats register --token <TOKEN>` or `sys_stats login` first."
    );
}

#[test]
fn metrics_url_and_interval() {
    assert_eq!(metrics_url("https://x.dev/"), "https://x.dev/api/metrics");
    assert_eq!(sync_interval_secs(0), 1);
    assert_eq!(sync_interval_secs(3), 3);
}

#[test]
fn megabytes_round_down() {
    assert_eq!(bytes_to_mb(1048575), 0);
    assert_eq!(bytes_to_mb(3 * 1048576 + 7), 3);
}

#[test]
fn pair_sums_and_overflow() {
    assert_eq!(sum_pairs(&vec![]), Some((0, 0)));
    assert_eq!(sum_pairs(&vec![(1, 10), (2, 20), (3, 30)]), Some((6, 60)));
    assert_eq!(sum_pairs(&vec![(u64::MAX, 0), (1, 0)]), None);
    assert_eq!(sum_pairs(&vec![(0, u64::MAX), (0, 1)]), None);
}

#[test]
fn summarize_sample_counters() {
    let c = summarize(2 * 1048576, 8 * 1048576 + 5, &vec![(100, 50), (1, 2)], &vec![(10, 20), (30, 40), (0, 0)]).unwrap();
    assert_eq!(c.memory_used_mb, 2);
    assert_eq!(c.memory_total_mb, 8);
    assert_eq!((c.network_rx_bytes_sec, c.network_tx_bytes_sec), (101, 52));
    assert_eq!((c.disk_read_bytes_sec, c.disk_written_bytes_sec), (40, 60));
    assert_eq!(c.running_processes, 3);
    assert!(summarize(0, 0, &vec![(u64::MAX, 0), (5, 0)], &vec![]).is_none());
    assert_eq!(device_label(None, "sys_stats_node"), "sys_stats_node");
    assert_eq!(device_label(Some("h".into()), "sys_stats_node"), "h");
}

#[test]
fn token_store_reads_back_what_was_set() {
    let mut s = TokenStore::new();
    assert_eq!(s.get_device_token(), "dev_token");
    s.set_device_token("abc".to_string());
    assert_eq!(s.get_device_token(), "abc");
    s.set_device_token(String::new());
    assert_eq!(s.get_device_token(), "dev_token");
}

#[test]
fn sync_deletes_only_accepted_batches() {
    assert_eq!(ids_to_delete(vec![1, 2, 3], Some(200)), vec![1, 2, 3]);
    assert_eq!(ids_to_delete(vec![1, 2, 3], Some(299)), vec![1, 2, 3]);
    assert_eq!(ids_to_delete(vec![1, 2, 3], Some(401)), Vec::<i64>::new());
    assert_eq!(ids_to_delete(vec![1, 2, 3], Some(302)), Vec::<i64>::new());
    assert_eq!(ids_to_delete(vec![1], None), Vec::<i64>::new());
}

#[test]
fn initial_token_choice() {
    let headless = Cli { headless: true, token: Some("cli".into()) };
    assert_eq!(initial_device_token(&headless, Some("saved".into())), Some("cli".to_string()));
    let headless_no_token = Cli { headless: true, token: None };
    assert_eq!(initial_device_token(&headless_no_token, Some("saved".into())), Some("saved".to_string()));
    let windowed = Cli { headless: false, token: Some("cli".into()) };
    assert_eq!(initial_device_token(&windowed, None), None);
    assert_eq!(initial_device_token(&windowed, Some("saved".into())), Some("saved".to_string()));
}

#[test]
fn delete_statement_has_one_placeholder_per_id() {
    assert_eq!(delete_synced_query(0), None);
    assert_eq!(delete_synced_query(1).unwrap(), "DELETE FROM local_metrics_buffer WHERE id IN (?)");
    assert_eq!(delete_synced_query(3).unwrap(), "DELETE FROM local_metrics_buffer WHERE id IN (?,?,?)");
    let q = delete_synced_query(50).unwrap();
    assert_eq!(q.matches('?').count(), 50);
}

#[test]
fn saved_token_and_paths() {
    assert_eq!(parse_saved_token("  tok\n"), Some("tok".to_string()));
    assert_eq!(parse_saved_token(" \n"), None);
    assert_eq!(load_saved_token(&Some("  tok\n".to_string())), Some("tok".to_string()));
    assert_eq!(load_saved_token(&Some(String::new())), None);
    assert_eq!(load_saved_token(&None), None);
    assert_eq!(data_dir("/home/u/.local/share", false), "/home/u/.local/share/sys_stats");
    assert_eq!(token_path("/d", false), "/d/device_token");
    assert_eq!(db_path("/d/", false), "/d/metrics.db");
    assert_eq!(data_dir("C:\\Users\\u\\AppData\\Roaming", true), "C:\\Users\\u\\AppData\\Roaming\\sys_stats");
    assert_eq!(token_path("D:\\s", true), "D:\\s\\device_token");
    assert_eq!(db_path("D:\\s\\", true), "D:\\s\\metrics.db");
}

#[test]
fn saved_token_round_trip() {
    // what save_device_token writes is the token itself; a delete leaves no file
    for t in ["abc", "  abc \n", "\t", ""] {
        let expected = if t.trim().is_empty() { None } else { Some(t.trim().to_string()) };
        assert_eq!(load_saved_token(&Some(t.to_string())), expected);
    }
    assert_eq!(load_saved_token(&None), None);
}

#[test]
fn empty_buffer_skips_the_sync_round() {
    assert_eq!(batch_to_send(vec![]), None);
    assert_eq!(batch_to_send(vec![4, 5]), Some(vec![4, 5]));
}
