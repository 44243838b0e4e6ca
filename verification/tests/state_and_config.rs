use mysql_viewer::config::ConnectionConfig;
use mysql_viewer::result::QueryResult;
use mysql_viewer::state::ViewerState;

#[test]
fn default_config_is_all_empty() {
    let c = ConnectionConfig::default();
    assert_eq!(c.host, String::new());
    assert_eq!(c.username, String::new());
    assert_eq!(c.password, String::new());
    assert_eq!(c.database, String::new());
}

#[test]
fn new_config_keeps_the_fields() {
    let c = ConnectionConfig::new(
        "localhost".to_string(),
        "root".to_string(),
        "secret".to_string(),
        "shop".to_string(),
    );
    assert_eq!(c.host, "localhost".to_string());
    assert_eq!(c.username, "root".to_string());
    assert_eq!(c.password, "secret".to_string());
    assert_eq!(c.database, "shop".to_string());
}

#[test]
fn default_state_is_empty() {
    let s = ViewerState::default();
    assert_eq!(s.config.host, String::new());
    assert_eq!(s.current_query, String::new());
    assert!(s.query_result.rows.is_empty());
    assert!(s.table_list.is_empty());
}

#[test]
fn second_result_fully_replaces_first() {
    let mut s = ViewerState::default();
    let first = QueryResult {
        rows: vec![
            vec!["old1".to_string(), "old2".to_string()],
            vec!["old3".to_string(), "old4".to_string()],
        ],
    };
    s.store_result(first);
    assert_eq!(s.query_result.rows.len(), 2);
    let second = QueryResult {
        rows: vec![vec!["new".to_string()]],
    };
    s.store_result(second);
    assert_eq!(s.query_result.rows, vec![vec!["new".to_string()]]);
}

#[test]
fn storing_a_result_leaves_the_rest_alone() {
    let mut s = ViewerState::default();
    s.current_query = "SELECT 1".to_string();
    s.table_list = vec!["users".to_string()];
    s.store_result(QueryResult { rows: vec![vec!["1".to_string()]] });
    assert_eq!(s.current_query, "SELECT 1".to_string());
    assert_eq!(s.table_list, vec!["users".to_string()]);
}
