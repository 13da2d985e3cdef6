use restaurant_orders::app::orders_path;
use restaurant_orders::configs::{default_host, default_max_connections, ApiConfig, DatabaseConfig};
use restaurant_orders::load::{choose_action, choose_table, next_step, step_for, Action, Step};
use restaurant_orders::logging::filter_to_set;

#[test]
fn orders_are_mounted_under_their_path() {
    assert_eq!(orders_path(), "/orders");
}

#[test]
fn defaults_of_the_configuration() {
    assert_eq!(default_host(), "0.0.0.0:8080");
    assert_eq!(default_max_connections(), 8);
    let api = ApiConfig { host: default_host() };
    assert_eq!(api.clone().host, "0.0.0.0:8080");
    let database = DatabaseConfig {
        host: "localhost".to_string(),
        port: 5432,
        database: "restaurant".to_string(),
        user: "waiter".to_string(),
        password: "SECRET-REDACTED".to_string(),
        max_connections: default_max_connections(),
    };
    assert_eq!(database.clone().max_connections, 8);
    assert_eq!(database.port, 5432);
}

#[test]
fn filter_is_set_only_where_the_environment_names_none() {
    let default = Some(("RUST_LOG".to_string(), "info".to_string()));
    let without: Vec<String> = vec!["PATH".to_string(), "HOME".to_string()];
    assert_eq!(filter_to_set(&without), default);
    assert_eq!(filter_to_set(&Vec::new()), default);
    let with: Vec<String> = vec!["PATH".to_string(), "RUST_LOG".to_string(), "HOME".to_string()];
    assert_eq!(filter_to_set(&with), None);
    let near: Vec<String> = vec!["RUST_LOG_STYLE".to_string(), "rust_log".to_string()];
    assert_eq!(filter_to_set(&near), default);
}

#[test]
fn even_rolls_list_and_odd_rolls_create() {
    assert_eq!(choose_action(0), Action::ListRandomTable);
    assert_eq!(choose_action(1), Action::CreateAndRemove);
    assert_eq!(choose_action(254), Action::ListRandomTable);
    assert_eq!(choose_action(255), Action::CreateAndRemove);
}

#[test]
fn table_is_the_roll_modulo_the_count() {
    assert_eq!(choose_table(0, 200), 0);
    assert_eq!(choose_table(199, 200), 199);
    assert_eq!(choose_table(200, 200), 0);
    assert_eq!(choose_table(255, 200), 55);
    assert_eq!(choose_table(255, 1), 0);
    assert_eq!(choose_table(7, 255), 7);
    assert_eq!(
        step_for(3, 201, 200),
        Step { action: Action::CreateAndRemove, table_number: 1 }
    );
}

#[test]
fn drawn_steps_stay_below_the_table_count_and_vary() {
    let mut lists = 0;
    let mut creates = 0;
    let mut tables = std::collections::BTreeSet::new();
    for _ in 0..2_000 {
        let step = next_step(200);
        assert!(step.table_number < 200);
        tables.insert(step.table_number);
        match step.action {
            Action::ListRandomTable => lists += 1,
            Action::CreateAndRemove => creates += 1,
        }
    }
    assert!(lists > 0 && creates > 0);
    assert!(tables.len() > 50);
    for _ in 0..200 {
        assert_eq!(next_step(1).table_number, 0);
    }
}
