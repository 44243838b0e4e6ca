use mysql_viewer::config::ConnectionConfig;
use mysql_viewer::executor::{execute, ExecutionError};
use mysql_viewer::manager::connect;

fn unreachable_config() -> ConnectionConfig {
    // Loopback with no server listening: the driver fails fast with a
    // connection-refused error instead of a handle.
    ConnectionConfig::new(
        "127.0.0.1".to_string(),
        "nobody".to_string(),
        "nothing".to_string(),
        "nowhere".to_string(),
    )
}

#[test]
fn unreachable_host_yields_connection_error() {
    match connect(&unreachable_config()) {
        Ok(_) => panic!("no handle may come back from an unreachable host"),
        Err(e) => assert!(!e.message.is_empty()),
    }
}

#[test]
fn execute_without_reachable_host_is_connection_failed() {
    let r = execute(&unreachable_config(), &"SELECT 1".to_string());
    match r {
        Ok(_) => panic!("no result may come back from an unreachable host"),
        Err(ExecutionError::ConnectionFailed(msg)) => assert!(!msg.is_empty()),
    }
}
