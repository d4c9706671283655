use tenant_forge::connection::DatabaseConnection;
use tenant_forge::executor::{Command, Phase, Reply};
use tenant_forge::orchestrator::{Invocation, Stage};
use tenant_forge::report::{summarize, DriverError, ExecutionResult, Summary};

fn connection(id: &str, password: Option<&str>) -> DatabaseConnection {
    DatabaseConnection {
        id: String::from(id),
        db_type: Some(String::from("postgres")),
        host: Some(String::from("db")),
        db: Some(String::from("tenants")),
        schema: None,
        user: Some(String::from("admin")),
        password: password.map(String::from),
        port: Some(5433),
    }
}

/// Plays the part of the caller: every connection is reachable unless its
/// descriptor holds `password=wrong`, and every statement affects one row.
fn run(sql: &str, connections: Vec<DatabaseConnection>) -> (Vec<ExecutionResult>, Vec<String>) {
    let mut log: Vec<String> = Vec::new();
    let (mut invocation, mut command) = Invocation::begin(String::from(sql), connections);
    while let Some(current) = command {
        log.push(format!("{:?}", current));
        let reply = match &current {
            Command::Connect(descriptor) if descriptor.contains("password=wrong") => {
                Reply::Failed(DriverError {
                    text: String::from(
                        "db error: FATAL: password authentication failed for user \"admin\"",
                    ),
                    detail: None,
                })
            },
            _ => Reply::Completed { rows_affected: 1 },
        };
        let (next, following) = invocation.advance(reply);
        invocation = next;
        command = following;
    }
    assert!(invocation.is_finished());
    (invocation.into_results(), log)
}

#[test]
fn one_reachable_connection_reports_one_row() {
    let (results, log) = run("INSERT INTO t VALUES (1);", vec![connection("a", Some("pw"))]);
    assert_eq!(results.len(), 1);
    assert_eq!(results[0].connection_id, "a");
    assert!(results[0].success);
    assert_eq!(results[0].message, "SQL ejecutado exitosamente. Filas afectadas: 1");
    assert_eq!(
        log,
        vec![
            String::from("Connect(\"host=db port=5433 user=admin password=pw dbname=tenants\")"),
            String::from("Execute(\"INSERT INTO t VALUES (1);\")"),
            String::from("Close { discard_transaction: false }"),
        ]
    );
}

#[test]
fn ddl_script_uses_the_batch_strategy_with_one_commit() {
    let (results, log) = run(
        "CREATE TABLE t (id INT); INSERT INTO t VALUES (1);",
        vec![connection("a", Some("pw"))],
    );
    assert_eq!(results.len(), 1);
    assert!(results[0].success);
    assert_eq!(results[0].message, "SQL ejecutado exitosamente (DDL)");
    assert_eq!(log.iter().filter(|c| c.as_str() == "Commit").count(), 1);
    assert_eq!(log.iter().filter(|c| c.starts_with("Execute")).count(), 0);
    assert_eq!(log.len(), 5);
    assert_eq!(log[1], "BeginTransaction");
    assert_eq!(
        log[2],
        "BatchExecute(\"CREATE TABLE t (id INT); INSERT INTO t VALUES (1);\")"
    );
    assert_eq!(log[3], "Commit");
    assert_eq!(log[4], "Close { discard_transaction: false }");
}

#[test]
fn wrong_password_on_the_second_leaves_the_first_untouched() {
    let (results, _) = run(
        "INSERT INTO t VALUES (1);",
        vec![connection("first", Some("pw")), connection("second", Some("wrong"))],
    );
    assert_eq!(results.len(), 2);
    assert_eq!(results[0].connection_id, "first");
    assert!(results[0].success);
    assert_eq!(results[0].message, "SQL ejecutado exitosamente. Filas afectadas: 1");
    assert_eq!(results[1].connection_id, "second");
    assert!(!results[1].success);
    assert_eq!(
        results[1].message,
        "Error de autenticación: Usuario o contraseña incorrectos"
    );
    assert_eq!(summarize(&results), Summary { total: 2, successful: 1, failed: 1 });
}

#[test]
fn results_come_in_the_order_of_the_connections() {
    let connections = vec![
        connection("z", Some("wrong")),
        connection("m", None),
        connection("a", Some("pw")),
        connection("m", Some("pw")),
    ];
    let (results, _) = run("SELECT 1", connections);
    let ids: Vec<&str> = results.iter().map(|r| r.connection_id.as_str()).collect();
    assert_eq!(ids, vec!["z", "m", "a", "m"]);
    let flags: Vec<bool> = results.iter().map(|r| r.success).collect();
    assert_eq!(flags, vec![false, false, true, true]);
}

#[test]
fn missing_credential_fails_that_connection_without_any_command() {
    let (results, log) = run(
        "SELECT 1",
        vec![connection("a", Some("pw")), connection("b", None), connection("c", Some("pw"))],
    );
    assert_eq!(results.len(), 3);
    assert!(results[0].success);
    assert!(!results[1].success);
    assert_eq!(results[1].connection_id, "b");
    assert_eq!(
        results[1].message,
        "Error construyendo connection string: Password is required"
    );
    assert!(results[2].success);
    assert_eq!(log.iter().filter(|c| c.starts_with("Connect")).count(), 2);
    assert_eq!(log.iter().filter(|c| c.starts_with("Close")).count(), 2);
    assert_eq!(log.len(), 6);
}

#[test]
fn only_incomplete_connections_need_no_caller_at_all() {
    let mut no_user = connection("a", Some("pw"));
    no_user.user = None;
    let mut no_db = connection("b", Some("pw"));
    no_db.db = None;
    let (invocation, command) = Invocation::begin(String::from("SELECT 1"), vec![no_user, no_db]);
    assert!(command.is_none());
    assert!(invocation.is_finished());
    let results = invocation.into_results();
    assert_eq!(results.len(), 2);
    assert_eq!(results[0].message, "Error construyendo connection string: User is required");
    assert_eq!(
        results[1].message,
        "Error construyendo connection string: Database name is required"
    );
}

#[test]
fn no_connections_give_no_results() {
    let (invocation, command) = Invocation::begin(String::from("SELECT 1"), Vec::new());
    assert!(command.is_none());
    assert!(invocation.is_finished());
    assert_eq!(invocation.stage(), Stage::Finished);
    assert!(invocation.into_results().is_empty());
}

#[test]
fn finished_invocation_ignores_further_replies() {
    let (invocation, _) = Invocation::begin(String::from("SELECT 1"), Vec::new());
    let (invocation, command) = invocation.advance(Reply::Completed { rows_affected: 9 });
    assert!(command.is_none());
    assert!(invocation.is_finished());
    assert!(invocation.results().is_empty());
}

#[test]
fn stages_follow_the_execution() {
    let (invocation, command) =
        Invocation::begin(String::from("SELECT 1"), vec![connection("a", Some("pw"))]);
    assert!(matches!(command, Some(Command::Connect(_))));
    assert_eq!(invocation.stage(), Stage::Running(Phase::Connecting));
    assert!(invocation.results().is_empty());
    let (invocation, command) = invocation.advance(Reply::Completed { rows_affected: 0 });
    assert!(matches!(command, Some(Command::Execute(_))));
    assert_eq!(invocation.stage(), Stage::Running(Phase::RunningSimple));
    let (invocation, command) = invocation.advance(Reply::Completed { rows_affected: 3 });
    assert!(matches!(command, Some(Command::Close { discard_transaction: false })));
    assert_eq!(invocation.stage(), Stage::Closing);
    assert_eq!(invocation.results().len(), 1);
    let (invocation, command) = invocation.advance(Reply::Failed(DriverError {
        text: String::from("close failed"),
        detail: None,
    }));
    assert!(command.is_none());
    assert_eq!(invocation.stage(), Stage::Finished);
    let results = invocation.into_results();
    assert_eq!(results[0].message, "SQL ejecutado exitosamente. Filas afectadas: 3");
}

#[test]
fn failed_batch_on_one_connection_does_not_stop_the_next() {
    let sql = "DROP TABLE t";
    let connections = vec![connection("a", Some("pw")), connection("b", Some("pw"))];
    let (mut invocation, mut command) = Invocation::begin(String::from(sql), connections);
    let mut log: Vec<String> = Vec::new();
    let mut batches = 0;
    while let Some(current) = command {
        log.push(format!("{:?}", current));
        let reply = match &current {
            Command::BatchExecute(_) => {
                batches += 1;
                if batches == 1 {
                    Reply::Failed(DriverError { text: String::from("boom"), detail: None })
                } else {
                    Reply::Completed { rows_affected: 0 }
                }
            },
            _ => Reply::Completed { rows_affected: 0 },
        };
        let (next, following) = invocation.advance(reply);
        invocation = next;
        command = following;
    }
    let results = invocation.into_results();
    assert_eq!(results.len(), 2);
    assert!(!results[0].success);
    assert_eq!(results[0].message, "Error ejecutando SQL (DDL): boom");
    assert!(results[1].success);
    assert_eq!(log.iter().filter(|c| c.as_str() == "Commit").count(), 1);
    assert_eq!(log[3], "Close { discard_transaction: true }");
}

#[test]
fn empty_credential_fails_that_connection_without_any_command() {
    let mut empty_user = connection("b", Some("pw"));
    empty_user.user = Some(String::new());
    let (results, log) = run(
        "SELECT 1",
        vec![connection("a", Some("pw")), empty_user, connection("c", Some(""))],
    );
    assert_eq!(results.len(), 3);
    assert!(results[0].success);
    assert_eq!(results[1].connection_id, "b");
    assert!(!results[1].success);
    assert_eq!(results[1].message, "Error construyendo connection string: User is required");
    assert_eq!(results[2].connection_id, "c");
    assert!(!results[2].success);
    assert_eq!(
        results[2].message,
        "Error construyendo connection string: Password is required"
    );
    assert_eq!(log.iter().filter(|c| c.starts_with("Connect")).count(), 1);
    assert_eq!(log.len(), 3);
}

#[test]
fn empty_schema_is_never_set() {
    let mut conn = connection("a", Some("pw"));
    conn.schema = Some(String::new());
    let (results, log) = run("ALTER TABLE t ADD c INT", vec![conn]);
    assert!(results[0].success);
    assert_eq!(log.iter().filter(|c| c.contains("search_path")).count(), 0);
    let mut conn = connection("a", Some("pw"));
    conn.schema = Some(String::from("tenant_a"));
    let (results, log) = run("ALTER TABLE t ADD c INT", vec![conn]);
    assert!(results[0].success);
    assert_eq!(
        log.iter().filter(|c| c.contains("SET search_path TO tenant_a")).count(),
        2
    );
    assert_eq!(log[1], "SetSchema(\"SET search_path TO tenant_a\")");
    assert_eq!(log[3], "SetTransactionSchema(\"SET search_path TO tenant_a\")");
}

#[test]
fn target_index_follows_the_connections() {
    let mut incomplete = connection("b", Some("pw"));
    incomplete.db = None;
    let connections = vec![connection("a", Some("pw")), incomplete, connection("c", Some("pw"))];
    let (invocation, _) = Invocation::begin(String::from("SELECT 1"), connections);
    assert_eq!(invocation.target_index(), Some(0));
    let (invocation, _) = invocation.advance(Reply::Completed { rows_affected: 0 });
    assert_eq!(invocation.target_index(), Some(0));
    let (invocation, command) = invocation.advance(Reply::Completed { rows_affected: 0 });
    assert!(matches!(command, Some(Command::Close { .. })));
    assert_eq!(invocation.target_index(), Some(0));
    let (invocation, command) = invocation.advance(Reply::Completed { rows_affected: 0 });
    assert!(matches!(command, Some(Command::Connect(_))));
    assert_eq!(invocation.results().len(), 2);
    assert_eq!(invocation.target_index(), Some(2));
    let (invocation, _) = invocation.advance(Reply::Failed(DriverError {
        text: String::from("connection refused"),
        detail: None,
    }));
    assert!(invocation.is_finished());
    assert_eq!(invocation.target_index(), None);
}
