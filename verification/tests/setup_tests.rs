use trendfollowing::cli::{help_lines, parse_command, Command};
use trendfollowing::counter::Counter;
use trendfollowing::database::{failure_message, DbFailure};
use trendfollowing::setup::{table_count_query, Action, Event, Phase, Session, SetupError, Task};

fn args(list: &[&str]) -> Vec<String> {
    list.iter().map(|a| a.to_string()).collect()
}

struct Answers {
    url: Option<String>,
    connection: Result<(), String>,
    counts: Vec<Result<i64, String>>,
    executions: Vec<Result<(), String>>,
}

fn drive(task: Task, answers: Answers) -> (Vec<String>, Vec<String>, Result<(), SetupError>) {
    let (mut session, mut step) = Session::start(task);
    let mut output = Vec::new();
    let mut requests = Vec::new();
    let mut counts = answers.counts.into_iter();
    let mut executions = answers.executions.into_iter();
    loop {
        output.extend(step.output);
        let event = match step.action {
            Action::ReadUrl => Event::UrlRead(answers.url.clone()),
            Action::Connect(url) => {
                requests.push(format!("connect {}", url));
                Event::Connected(answers.connection.clone())
            }
            Action::Query(q) => {
                requests.push(q);
                Event::TableCounted(counts.next().unwrap())
            }
            Action::Execute(stmt) => {
                requests.push(stmt);
                Event::Executed(executions.next().unwrap())
            }
            Action::Finish(outcome) => {
                assert_eq!(session.phase, Phase::Finished);
                return (output, requests, outcome);
            }
        };
        let (next, next_step) = session.next(event);
        session = next;
        step = next_step;
    }
}

fn check_world(url: Option<&str>, connection: Result<(), &str>, counts: Vec<Result<i64, &str>>) -> Answers {
    Answers {
        url: url.map(|u| u.to_string()),
        connection: connection.map_err(|e| e.to_string()),
        counts: counts.into_iter().map(|c| c.map_err(|e| e.to_string())).collect(),
        executions: vec![],
    }
}

#[test]
fn check_succeeds_when_everything_is_there() {
    let (output, requests, outcome) =
        drive(Task::Check, check_world(Some("postgres://u@h/db"), Ok(()), vec![Ok(1), Ok(3)]));
    assert!(outcome.is_ok());
    assert_eq!(
        output,
        vec![
            "DATABASE_URL set! ✓",
            "URL set for postgresql! ✓",
            "DB connection established succesfully! ✓",
            "Database setup is correct."
        ]
    );
    assert_eq!(
        requests,
        vec![
            "connect postgres://u@h/db".to_string(),
            "SELECT COUNT(*) FROM information_schema.tables WHERE table_name = 'perpetual_futures'"
                .to_string(),
            "SELECT COUNT(*) FROM information_schema.tables WHERE table_name = 'daily_ohlcv'"
                .to_string(),
        ]
    );
}

#[test]
fn check_without_url() {
    let (output, requests, outcome) = drive(Task::Check, check_world(None, Ok(()), vec![]));
    assert!(matches!(outcome, Err(SetupError::DatabaseUrlNotSet)));
    assert!(output.is_empty());
    assert!(requests.is_empty());
}

#[test]
fn check_with_malformed_url() {
    let (output, requests, outcome) =
        drive(Task::Check, check_world(Some("mysql://h/db"), Ok(()), vec![]));
    assert!(matches!(outcome, Err(SetupError::DatabaseUrlMalformed)));
    assert_eq!(output, vec!["DATABASE_URL set! ✓"]);
    assert!(requests.is_empty());
}

#[test]
fn check_with_failed_connection() {
    let (_, _, outcome) =
        drive(Task::Check, check_world(Some("postgres://h/db"), Err("refused"), vec![]));
    match outcome {
        Err(SetupError::ConnectionError(e)) => assert_eq!(e, "refused"),
        other => panic!("unexpected {:?}", other),
    }
}

#[test]
fn check_with_missing_table() {
    let (output, _, outcome) =
        drive(Task::Check, check_world(Some("postgres://h/db"), Ok(()), vec![Ok(1), Ok(0)]));
    match outcome {
        Err(SetupError::TableDoesNotExist(t)) => assert_eq!(t, "daily_ohlcv"),
        other => panic!("unexpected {:?}", other),
    }
    assert_eq!(output.len(), 3);
    let (_, requests, outcome) =
        drive(Task::Check, check_world(Some("postgres://h/db"), Ok(()), vec![Ok(0)]));
    match outcome {
        Err(SetupError::TableDoesNotExist(t)) => assert_eq!(t, "perpetual_futures"),
        other => panic!("unexpected {:?}", other),
    }
    assert_eq!(requests.len(), 2);
}

#[test]
fn check_with_failed_query() {
    let (_, _, outcome) =
        drive(Task::Check, check_world(Some("postgres://h/db"), Ok(()), vec![Ok(1), Err("gone")]));
    match outcome {
        Err(SetupError::ConnectionError(e)) => assert_eq!(e, "gone"),
        other => panic!("unexpected {:?}", other),
    }
}

#[test]
fn setup_creates_both_tables() {
    let answers = Answers {
        url: Some("postgres://h".to_string()),
        connection: Ok(()),
        counts: vec![],
        executions: vec![Ok(()), Ok(())],
    };
    let (output, requests, outcome) = drive(Task::Setup, answers);
    assert!(outcome.is_ok());
    assert_eq!(output, vec!["CREATING TABLES"]);
    assert_eq!(requests.len(), 3);
    assert_eq!(requests[0], "connect postgres://h");
    assert_eq!(
        requests[1],
        "CREATE TABLE IF NOT EXISTS perpetual_futures(\n       id BIGINT GENERATED ALWAYS AS IDENTITY PRIMARY KEY,\n       symbol TEXT NOT NULL\n);"
    );
    assert!(requests[2].starts_with("CREATE TABLE IF NOT EXISTS daily_ohlcv(\n       coin_id BIGINT references perpetual_futures(id),"));
    assert!(requests[2].ends_with("       volume TEXT NOT NULL\n);"));
}

#[test]
fn setup_checks_the_url_first() {
    let answers = Answers {
        url: Some("postgresql://user@localhost/db".to_string()),
        connection: Ok(()),
        counts: vec![],
        executions: vec![Ok(()), Ok(())],
    };
    let (output, requests, outcome) = drive(Task::Setup, answers);
    assert!(matches!(outcome, Err(SetupError::DatabaseUrlMalformed)));
    assert!(output.is_empty());
    assert!(requests.is_empty());
}

#[test]
fn setup_stops_at_failed_statement() {
    let answers = Answers {
        url: Some("postgres://h".to_string()),
        connection: Ok(()),
        counts: vec![],
        executions: vec![Err("denied".to_string())],
    };
    let (_, requests, outcome) = drive(Task::Setup, answers);
    assert!(matches!(outcome, Err(SetupError::ConnectionError(ref e)) if e == "denied"));
    assert_eq!(requests.len(), 2);
    let answers = Answers { url: None, connection: Ok(()), counts: vec![], executions: vec![] };
    assert!(matches!(drive(Task::Setup, answers).2, Err(SetupError::DatabaseUrlNotSet)));
}

#[test]
fn error_messages() {
    assert_eq!(
        SetupError::DatabaseUrlNotSet.message(),
        "DATABASE_URL environment variable is not set"
    );
    assert_eq!(
        SetupError::DatabaseUrlMalformed.message(),
        "DATABASE_URL is not well-formed for PostgreSQL"
    );
    assert_eq!(
        SetupError::ConnectionError("timeout".to_string()).message(),
        "Failed to connect to the database: timeout"
    );
    assert_eq!(
        SetupError::TableDoesNotExist("daily_ohlcv".to_string()).message(),
        "Table `daily_ohlcv` does not exist"
    );
    assert_eq!(
        SetupError::ColumnDoesNotExist("t".to_string(), "c".to_string()).message(),
        "Table `t` does not have an `c` column"
    );
}

#[test]
fn count_query_text() {
    assert_eq!(
        table_count_query("x"),
        "SELECT COUNT(*) FROM information_schema.tables WHERE table_name = 'x'"
    );
}

#[test]
fn commands() {
    assert_eq!(parse_command(&args(&["tool"])), Command::Usage);
    assert_eq!(parse_command(&args(&["tool", "--setup", "x"])), Command::Usage);
    assert_eq!(parse_command(&args(&["tool", "--setup"])), Command::Setup);
    assert_eq!(parse_command(&args(&["tool", "--prod"])), Command::Prod);
    assert_eq!(parse_command(&args(&["tool", "--check"])), Command::Check);
    assert_eq!(parse_command(&args(&["tool", "--help"])), Command::Unknown);
    assert_eq!(parse_command(&args(&["tool", "--checks"])), Command::Unknown);
}

#[test]
fn help_text() {
    let lines = help_lines();
    assert_eq!(lines.len(), 6);
    assert_eq!(lines[0], "Crypto Trendfollowing Tool");
    assert_eq!(lines[2], "--setup\tChecks and then performs an interactive setup of the database");
    assert_eq!(lines[5], "--help\tDisplays help");
}

#[test]
fn database_failure_messages() {
    assert_eq!(
        failure_message(&DbFailure::Configuration("bad url".to_string())),
        "ERROR:bad url\tDatabase URL wrongly configurated"
    );
    assert_eq!(failure_message(&DbFailure::Database("e".to_string())), "ERROR:e\tDatabase error");
    assert_eq!(failure_message(&DbFailure::Io("reset".to_string())), "ERROR:reset");
    assert_eq!(failure_message(&DbFailure::Other), "Another error occured");
}

#[test]
fn counter_counts_clicks() {
    let mut c = Counter::new(3);
    assert_eq!((c.count, c.scaled()), (0, 0));
    c.click();
    c.click();
    assert_eq!(c.count, 2);
    assert_eq!(c.scaled(), 6);
    assert_eq!(c.multiplier, 3);
}
