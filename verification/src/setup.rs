//! Checking and preparing the database, as a sequence of decisions between
//! the outside steps (reading the environment, connecting, querying) that
//! the caller performs.
use vstd::prelude::*;
use crate::text::starts_with;

verus! {

/// What went wrong while checking or preparing the database.
#[derive(Debug)]
pub enum SetupError {
    DatabaseUrlNotSet,
    DatabaseUrlMalformed,
    /// The database could not be reached or refused a statement; holds the
    /// driver's description of the failure.
    ConnectionError(String),
    TableDoesNotExist(String),
    ColumnDoesNotExist(String, String),
}

/// A `SetupError` with its texts as character sequences.
pub enum SetupErrorView {
    DatabaseUrlNotSet,
    DatabaseUrlMalformed,
    ConnectionError(Seq<char>),
    TableDoesNotExist(Seq<char>),
    ColumnDoesNotExist(Seq<char>, Seq<char>),
}

impl View for SetupError {
    type V = SetupErrorView;

    open spec fn view(&self) -> SetupErrorView {
        match self {
            SetupError::DatabaseUrlNotSet => SetupErrorView::DatabaseUrlNotSet,
            SetupError::DatabaseUrlMalformed => SetupErrorView::DatabaseUrlMalformed,
            SetupError::ConnectionError(e) => SetupErrorView::ConnectionError(e@),
            SetupError::TableDoesNotExist(t) => SetupErrorView::TableDoesNotExist(t@),
            SetupError::ColumnDoesNotExist(t, c) => SetupErrorView::ColumnDoesNotExist(t@, c@),
        }
    }
}

/// The description of an error, as it is shown to the user.
pub open spec fn spec_error_message(e: SetupErrorView) -> Seq<char> {
    match e {
        SetupErrorView::DatabaseUrlNotSet => "DATABASE_URL environment variable is not set"@,
        SetupErrorView::DatabaseUrlMalformed => "DATABASE_URL is not well-formed for PostgreSQL"@,
        SetupErrorView::ConnectionError(e) => "Failed to connect to the database: "@ + e,
        SetupErrorView::TableDoesNotExist(t) => "Table `"@ + t + "` does not exist"@,
        SetupErrorView::ColumnDoesNotExist(t, c) => "Table `"@ + t + "` does not have an `"@ + c
            + "` column"@,
    }
}

impl SetupError {
    /// The description of the error, as it is shown to the user.
    pub fn message(&self) -> (m: String)
        ensures
            m@ == spec_error_message(self@),
    {
        match self {
            SetupError::DatabaseUrlNotSet => String::from_str(
                "DATABASE_URL environment variable is not set",
            ),
            SetupError::DatabaseUrlMalformed => String::from_str(
                "DATABASE_URL is not well-formed for PostgreSQL",
            ),
            SetupError::ConnectionError(e) => {
                let mut m = String::from_str("Failed to connect to the database: ");
                m.append(e.as_str());
                m
            },
            SetupError::TableDoesNotExist(t) => {
                let mut m = String::from_str("Table `");
                m.append(t.as_str());
                m.append("` does not exist");
                m
            },
            SetupError::ColumnDoesNotExist(t, c) => {
                let mut m = String::from_str("Table `");
                m.append(t.as_str());
                m.append("` does not have an `");
                m.append(c.as_str());
                m.append("` column");
                m
            },
        }
    }
}


/// The procedure that a session carries out: the check that runs before
/// production, or the creation of the tables.
#[derive(Debug, Clone, Copy, PartialEq, Eq, Structural)]
pub enum Task {
    Check,
    Setup,
}

/// Where a session stands: which answer it waits for next.
#[derive(Debug, Clone, Copy, PartialEq, Eq, Structural)]
pub enum Phase {
    ReadingUrl,
    Connecting,
    /// Waiting for the number of tables named like the required table of
    /// that index.
    Counting(usize),
    /// Waiting for the creation of the table of that index.
    Creating(usize),
    Finished,
}

/// A run of the check or of the setup of the database.
#[derive(Debug, Clone, Copy, PartialEq, Eq, Structural)]
pub struct Session {
    pub task: Task,
    pub phase: Phase,
}

/// The answer to the last action of a session.
pub enum Event {
    /// The value of `DATABASE_URL`, if it is set.
    UrlRead(Option<String>),
    /// Whether the connection was established, or the driver's description of
    /// the failure.
    Connected(Result<(), String>),
    /// The number that a counting query returned, or the failure.
    TableCounted(Result<i64, String>),
    /// Whether a statement was executed, or the failure.
    Executed(Result<(), String>),
}

/// What the caller is to do next.
pub enum Action {
    /// Read the environment variable `DATABASE_URL`.
    ReadUrl,
    /// Connect to the database at this address.
    Connect(String),
    /// Run this query, which returns one count.
    Query(String),
    /// Execute this statement.
    Execute(String),
    /// The procedure is over, with this outcome.
    Finish(Result<(), SetupError>),
}

/// An `Action` with its texts as character sequences.
pub enum ActionView {
    ReadUrl,
    Connect(Seq<char>),
    Query(Seq<char>),
    Execute(Seq<char>),
    Finish(Result<(), SetupErrorView>),
}

impl View for Action {
    type V = ActionView;

    open spec fn view(&self) -> ActionView {
        match self {
            Action::ReadUrl => ActionView::ReadUrl,
            Action::Connect(u) => ActionView::Connect(u@),
            Action::Query(q) => ActionView::Query(q@),
            Action::Execute(q) => ActionView::Execute(q@),
            Action::Finish(Ok(())) => ActionView::Finish(Ok(())),
            Action::Finish(Err(e)) => ActionView::Finish(Err(e@)),
        }
    }
}

/// The lines to show, then the next action.
pub struct Step {
    pub output: Vec<String>,
    pub action: Action,
}

/// A `Step` with its texts as character sequences.
pub struct StepView {
    pub output: Seq<Seq<char>>,
    pub action: ActionView,
}

impl View for Step {
    type V = StepView;

    open spec fn view(&self) -> StepView {
        StepView { output: self.output@.map_values(|line: String| line@), action: self.action@ }
    }
}

/// The number of tables that the tool needs.
pub const REQUIRED_TABLES: usize = 2;

/// The name of the required table of index `i`.
pub open spec fn required_table(i: int) -> Seq<char> {
    if i == 0 {
        "perpetual_futures"@
    } else {
        "daily_ohlcv"@
    }
}

/// The query that counts the tables named `table`.
pub open spec fn count_query(table: Seq<char>) -> Seq<char> {
    "SELECT COUNT(*) FROM information_schema.tables WHERE table_name = '"@ + table + "'"@
}

/// The statement that creates the required table of index `i`.
pub open spec fn create_statement(i: int) -> Seq<char> {
    if i == 0 {
        "CREATE TABLE IF NOT EXISTS perpetual_futures(\n       id BIGINT GENERATED ALWAYS AS IDENTITY PRIMARY KEY,\n       symbol TEXT NOT NULL\n);"@
    } else {
        "CREATE TABLE IF NOT EXISTS daily_ohlcv(\n       coin_id BIGINT references perpetual_futures(id),\n       opentime BIGINT NOT NULL,\n       openprice TEXT NOT NULL,\n       highprice TEXT NOT NULL,\n       lowprice TEXT NOT NULL,\n       closeprice TEXT NOT NULL,\n       volume TEXT NOT NULL\n);"@
    }
}

/// The prefix of an address of a PostgreSQL database.
pub open spec fn postgres_scheme() -> Seq<char> {
    "postgres://"@
}

fn required_table_name(i: usize) -> (t: String)
    requires
        i < REQUIRED_TABLES,
    ensures
        t@ == required_table(i as int),
{
    if i == 0 {
        String::from_str("perpetual_futures")
    } else {
        String::from_str("daily_ohlcv")
    }
}

/// The query that counts the tables named `table`.
pub fn table_count_query(table: &str) -> (q: String)
    ensures
        q@ == count_query(table@),
{
    let mut q = String::from_str(
        "SELECT COUNT(*) FROM information_schema.tables WHERE table_name = '",
    );
    q.append(table);
    q.append("'");
    q
}

fn create_table_statement(i: usize) -> (stmt: String)
    requires
        i < REQUIRED_TABLES,
    ensures
        stmt@ == create_statement(i as int),
{
    if i == 0 {
        String::from_str(
            "CREATE TABLE IF NOT EXISTS perpetual_futures(\n       id BIGINT GENERATED ALWAYS AS IDENTITY PRIMARY KEY,\n       symbol TEXT NOT NULL\n);",
        )
    } else {
        String::from_str(
            "CREATE TABLE IF NOT EXISTS daily_ohlcv(\n       coin_id BIGINT references perpetual_futures(id),\n       opentime BIGINT NOT NULL,\n       openprice TEXT NOT NULL,\n       highprice TEXT NOT NULL,\n       lowprice TEXT NOT NULL,\n       closeprice TEXT NOT NULL,\n       volume TEXT NOT NULL\n);",
        )
    }
}

/// Whether `e` is an answer to what a session in phase `p` waits for.
pub open spec fn answers(p: Phase, e: Event) -> bool {
    match (p, e) {
        (Phase::ReadingUrl, Event::UrlRead(_)) => true,
        (Phase::Connecting, Event::Connected(_)) => true,
        (Phase::Counting(_), Event::TableCounted(_)) => true,
        (Phase::Creating(_), Event::Executed(_)) => true,
        _ => false,
    }
}

/// A step that shows `output` and then finishes with `outcome`.
pub open spec fn finish(output: Seq<Seq<char>>, outcome: Result<(), SetupErrorView>) -> StepView {
    StepView { output, action: ActionView::Finish(outcome) }
}

/// What a session does on an answer: its next state and step.
pub open spec fn spec_next(s: Session, e: Event) -> (Session, StepView) {
    let done = Session { task: s.task, phase: Phase::Finished };
    match e {
        Event::UrlRead(None) => (done, finish(seq![], Err(SetupErrorView::DatabaseUrlNotSet))),
        Event::UrlRead(Some(url)) => if s.task == Task::Setup {
            if postgres_scheme().is_prefix_of(url@) {
                (
                    Session { task: s.task, phase: Phase::Connecting },
                    StepView { output: seq![], action: ActionView::Connect(url@) },
                )
            } else {
                (done, finish(seq![], Err(SetupErrorView::DatabaseUrlMalformed)))
            }
        } else if postgres_scheme().is_prefix_of(url@) {
            (
                Session { task: s.task, phase: Phase::Connecting },
                StepView {
                    output: seq!["DATABASE_URL set! ✓"@, "URL set for postgresql! ✓"@],
                    action: ActionView::Connect(url@),
                },
            )
        } else {
            (
                done,
                finish(seq!["DATABASE_URL set! ✓"@], Err(SetupErrorView::DatabaseUrlMalformed)),
            )
        },
        Event::Connected(Err(msg)) => (
            done,
            finish(seq![], Err(SetupErrorView::ConnectionError(msg@))),
        ),
        Event::Connected(Ok(())) => if s.task == Task::Setup {
            (
                Session { task: s.task, phase: Phase::Creating(0) },
                StepView {
                    output: seq!["CREATING TABLES"@],
                    action: ActionView::Execute(create_statement(0)),
                },
            )
        } else {
            (
                Session { task: s.task, phase: Phase::Counting(0) },
                StepView {
                    output: seq!["DB connection established succesfully! ✓"@],
                    action: ActionView::Query(count_query(required_table(0))),
                },
            )
        },
        Event::TableCounted(Err(msg)) => (
            done,
            finish(seq![], Err(SetupErrorView::ConnectionError(msg@))),
        ),
        Event::TableCounted(Ok(count)) => {
            let i = match s.phase {
                Phase::Counting(i) => i as int,
                _ => 0,
            };
            if count == 0 {
                (done, finish(seq![], Err(SetupErrorView::TableDoesNotExist(required_table(i)))))
            } else if i + 1 < REQUIRED_TABLES {
                (
                    Session { task: s.task, phase: Phase::Counting((i + 1) as usize) },
                    StepView {
                        output: seq![],
                        action: ActionView::Query(count_query(required_table(i + 1))),
                    },
                )
            } else {
                (done, finish(seq!["Database setup is correct."@], Ok(())))
            }
        },
        Event::Executed(Err(msg)) => (
            done,
            finish(seq![], Err(SetupErrorView::ConnectionError(msg@))),
        ),
        Event::Executed(Ok(())) => {
            let i = match s.phase {
                Phase::Creating(i) => i as int,
                _ => 0,
            };
            if i + 1 < REQUIRED_TABLES {
                (
                    Session { task: s.task, phase: Phase::Creating((i + 1) as usize) },
                    StepView {
                        output: seq![],
                        action: ActionView::Execute(create_statement(i + 1)),
                    },
                )
            } else {
                (done, finish(seq![], Ok(())))
            }
        },
    }
}

fn no_lines() -> (lines: Vec<String>)
    ensures
        lines@.map_values(|line: String| line@) == Seq::<Seq<char>>::empty(),
{
    let lines: Vec<String> = Vec::new();
    assert(lines@.map_values(|line: String| line@) =~= Seq::<Seq<char>>::empty());
    lines
}

fn one_line(text: &str) -> (lines: Vec<String>)
    ensures
        lines@.map_values(|line: String| line@) == seq![text@],
{
    let mut lines: Vec<String> = Vec::new();
    lines.push(String::from_str(text));
    assert(lines@.map_values(|line: String| line@) =~= seq![text@]);
    lines
}

fn two_lines(first: &str, second: &str) -> (lines: Vec<String>)
    ensures
        lines@.map_values(|line: String| line@) == seq![first@, second@],
{
    let mut lines: Vec<String> = Vec::new();
    lines.push(String::from_str(first));
    lines.push(String::from_str(second));
    assert(lines@.map_values(|line: String| line@) =~= seq![first@, second@]);
    lines
}

impl Session {
    /// Whether the session is in a state that its procedure can reach.
    pub open spec fn wf(self) -> bool {
        match self.phase {
            Phase::Counting(i) => self.task == Task::Check && i < REQUIRED_TABLES,
            Phase::Creating(i) => self.task == Task::Setup && i < REQUIRED_TABLES,
            _ => true,
        }
    }

    /// Whether `event` is an answer that the session can take next.
    pub fn expects(&self, event: &Event) -> (b: bool)
        ensures
            b == (self.wf() && answers(self.phase, *event)),
    {
        let wf = match self.phase {
            Phase::Counting(i) => self.task == Task::Check && i < REQUIRED_TABLES,
            Phase::Creating(i) => self.task == Task::Setup && i < REQUIRED_TABLES,
            _ => true,
        };
        let answered = match (self.phase, event) {
            (Phase::ReadingUrl, Event::UrlRead(_)) => true,
            (Phase::Connecting, Event::Connected(_)) => true,
            (Phase::Counting(_), Event::TableCounted(_)) => true,
            (Phase::Creating(_), Event::Executed(_)) => true,
            _ => false,
        };
        wf && answered
    }

    /// Starts a procedure: the first thing to do is to read `DATABASE_URL`.
    pub fn start(task: Task) -> (r: (Session, Step))
        ensures
            r.0 == (Session { task, phase: Phase::ReadingUrl }),
            r.1@ == (StepView { output: seq![], action: ActionView::ReadUrl }),
    {
        (Session { task, phase: Phase::ReadingUrl }, Step { output: no_lines(), action: Action::ReadUrl })
    }

    /// Takes the answer to the last action and decides what comes next.
    pub fn next(self, event: Event) -> (r: (Session, Step))
        requires
            self.wf(),
            answers(self.phase, event),
        ensures
            r.0.wf(),
            r.0 == spec_next(self, event).0,
            r.1@ == spec_next(self, event).1,
    {
        let done = Session { task: self.task, phase: Phase::Finished };
        match event {
            Event::UrlRead(None) => (
                done,
                Step { output: no_lines(), action: Action::Finish(Err(SetupError::DatabaseUrlNotSet)) },
            ),
            Event::UrlRead(Some(url)) => {
                if self.task == Task::Setup {
                    if starts_with(url.as_str(), "postgres://") {
                        (
                            Session { task: self.task, phase: Phase::Connecting },
                            Step { output: no_lines(), action: Action::Connect(url) },
                        )
                    } else {
                        (
                            done,
                            Step {
                                output: no_lines(),
                                action: Action::Finish(Err(SetupError::DatabaseUrlMalformed)),
                            },
                        )
                    }
                } else {
                    if starts_with(url.as_str(), "postgres://") {
                        let output = two_lines("DATABASE_URL set! ✓", "URL set for postgresql! ✓");
                        (
                            Session { task: self.task, phase: Phase::Connecting },
                            Step { output, action: Action::Connect(url) },
                        )
                    } else {
                        (
                            done,
                            Step {
                                output: one_line("DATABASE_URL set! ✓"),
                                action: Action::Finish(Err(SetupError::DatabaseUrlMalformed)),
                            },
                        )
                    }
                }
            },
            Event::Connected(Err(msg)) => (
                done,
                Step { output: no_lines(), action: Action::Finish(Err(SetupError::ConnectionError(msg))) },
            ),
            Event::Connected(Ok(())) => {
                if self.task == Task::Setup {
                    (
                        Session { task: self.task, phase: Phase::Creating(0) },
                        Step {
                            output: one_line("CREATING TABLES"),
                            action: Action::Execute(create_table_statement(0)),
                        },
                    )
                } else {
                    let table = required_table_name(0);
                    (
                        Session { task: self.task, phase: Phase::Counting(0) },
                        Step {
                            output: one_line("DB connection established succesfully! ✓"),
                            action: Action::Query(table_count_query(table.as_str())),
                        },
                    )
                }
            },
            Event::TableCounted(Err(msg)) => (
                done,
                Step { output: no_lines(), action: Action::Finish(Err(SetupError::ConnectionError(msg))) },
            ),
            Event::TableCounted(Ok(count)) => {
                let i = match self.phase {
                    Phase::Counting(i) => i,
                    _ => 0,
                };
                if count == 0 {
                    (
                        done,
                        Step {
                            output: no_lines(),
                            action: Action::Finish(Err(SetupError::TableDoesNotExist(required_table_name(i)))),
                        },
                    )
                } else if i + 1 < REQUIRED_TABLES {
                    let table = required_table_name(i + 1);
                    (
                        Session { task: self.task, phase: Phase::Counting(i + 1) },
                        Step { output: no_lines(), action: Action::Query(table_count_query(table.as_str())) },
                    )
                } else {
                    (done, Step { output: one_line("Database setup is correct."), action: Action::Finish(Ok(())) })
                }
            },
            Event::Executed(Err(msg)) => (
                done,
                Step { output: no_lines(), action: Action::Finish(Err(SetupError::ConnectionError(msg))) },
            ),
            Event::Executed(Ok(())) => {
                let i = match self.phase {
                    Phase::Creating(i) => i,
                    _ => 0,
                };
                if i + 1 < REQUIRED_TABLES {
                    (
                        Session { task: self.task, phase: Phase::Creating(i + 1) },
                        Step { output: no_lines(), action: Action::Execute(create_table_statement(i + 1)) },
                    )
                } else {
                    (done, Step { output: no_lines(), action: Action::Finish(Ok(())) })
                }
            },
        }
    }
}

/// The answers that the outside world gives to a session: the value of
/// `DATABASE_URL`, the outcome of the connection, the outcomes of the
/// counting queries in order, and those of the creation statements in order.
pub struct World {
    pub url: Option<String>,
    pub connection: Result<(), String>,
    pub counts: Seq<Result<i64, String>>,
    pub executions: Seq<Result<(), String>>,
}

/// The answer of `w` to what a session in phase `p` waits for.
pub open spec fn answer(w: World, p: Phase) -> Event {
    match p {
        Phase::ReadingUrl => Event::UrlRead(w.url),
        Phase::Connecting => Event::Connected(w.connection),
        Phase::Counting(i) => Event::TableCounted(w.counts[i as int]),
        Phase::Creating(i) => Event::Executed(w.executions[i as int]),
        Phase::Finished => Event::UrlRead(None),
    }
}

/// The outcome of a session that `w` answers, if it finishes within `fuel`
/// answers.
pub open spec fn run(s: Session, w: World, fuel: nat) -> Option<Result<(), SetupErrorView>>
    decreases fuel,
{
    if fuel == 0 {
        None
    } else {
        let (next, step) = spec_next(s, answer(w, s.phase));
        match step.action {
            ActionView::Finish(outcome) => Some(outcome),
            _ => run(next, w, (fuel - 1) as nat),
        }
    }
}

/// Whether every required table was counted, and counted at least once.
pub open spec fn all_tables_present(counts: Seq<Result<i64, String>>) -> bool {
    forall|i: int| 0 <= i < REQUIRED_TABLES ==> (#[trigger] counts[i] matches Ok(c) && c != 0)
}

/// The check, answered by any world, finishes within four answers. It
/// succeeds exactly when `DATABASE_URL` is set to an address that starts with
/// `postgres://`, the connection succeeds and both required tables are found.
/// When `DATABASE_URL` is not set it fails with `DatabaseUrlNotSet`, and a
/// table that it reports missing is a required table that was counted zero
/// times.
pub proof fn lemma_check_outcome(w: World)
    requires
        w.counts.len() >= REQUIRED_TABLES,
    ensures
        run(Session { task: Task::Check, phase: Phase::ReadingUrl }, w, 4) is Some,
        run(Session { task: Task::Check, phase: Phase::ReadingUrl }, w, 4) == Some(
            Ok::<(), SetupErrorView>(()),
        ) <==> (w.url matches Some(u) && postgres_scheme().is_prefix_of(u@) && w.connection is Ok
            && all_tables_present(w.counts)),
        w.url is None ==> run(Session { task: Task::Check, phase: Phase::ReadingUrl }, w, 4)
            == Some(Err::<(), SetupErrorView>(SetupErrorView::DatabaseUrlNotSet)),
        forall|t: Seq<char>|
            run(Session { task: Task::Check, phase: Phase::ReadingUrl }, w, 4) == Some(
                Err::<(), SetupErrorView>(SetupErrorView::TableDoesNotExist(t)),
            ) ==> exists|i: int|
                0 <= i < REQUIRED_TABLES && t == required_table(i) && #[trigger] w.counts[i]
                    == Ok::<i64, String>(0),
{
    reveal_with_fuel(run, 5);
    let s0 = Session { task: Task::Check, phase: Phase::ReadingUrl };
    let s1 = Session { task: Task::Check, phase: Phase::Connecting };
    let s2 = Session { task: Task::Check, phase: Phase::Counting(0) };
    let s3 = Session { task: Task::Check, phase: Phase::Counting(1) };
    assert(answer(w, s2.phase) == Event::TableCounted(w.counts[0]));
    assert(answer(w, s3.phase) == Event::TableCounted(w.counts[1]));
    if all_tables_present(w.counts) {
        assert(w.counts[0] matches Ok(c) && c != 0);
        assert(w.counts[1] matches Ok(c) && c != 0);
    }
    let r = run(s0, w, 4);
    assert forall|t: Seq<char>|
        r == Some(Err::<(), SetupErrorView>(SetupErrorView::TableDoesNotExist(t))) implies exists|i: int|
            0 <= i < REQUIRED_TABLES && t == required_table(i) && #[trigger] w.counts[i]
                == Ok::<i64, String>(0) by {
        if w.counts[0] == Ok::<i64, String>(0) {
            assert(t == required_table(0));
        } else {
            assert(t == required_table(1));
        }
    }
}

/// The setup, answered by any world, finishes within four answers. Like the
/// check, it first makes sure that `DATABASE_URL` is set to an address that
/// starts with `postgres://`, and fails with `DatabaseUrlMalformed` before
/// connecting when it is not. It succeeds exactly when that holds, the
/// connection succeeds and both creation statements are executed.
pub proof fn lemma_setup_outcome(w: World)
    requires
        w.executions.len() >= REQUIRED_TABLES,
    ensures
        run(Session { task: Task::Setup, phase: Phase::ReadingUrl }, w, 4) is Some,
        run(Session { task: Task::Setup, phase: Phase::ReadingUrl }, w, 4) == Some(
            Ok::<(), SetupErrorView>(()),
        ) <==> (w.url matches Some(u) && postgres_scheme().is_prefix_of(u@) && w.connection is Ok
            && w.executions[0] is Ok && w.executions[1] is Ok),
        w.url is None ==> run(Session { task: Task::Setup, phase: Phase::ReadingUrl }, w, 4)
            == Some(Err::<(), SetupErrorView>(SetupErrorView::DatabaseUrlNotSet)),
        (w.url matches Some(u) && !postgres_scheme().is_prefix_of(u@)) ==> run(
            Session { task: Task::Setup, phase: Phase::ReadingUrl },
            w,
            4,
        ) == Some(Err::<(), SetupErrorView>(SetupErrorView::DatabaseUrlMalformed)),
{
    reveal_with_fuel(run, 5);
    let s2 = Session { task: Task::Setup, phase: Phase::Creating(0) };
    let s3 = Session { task: Task::Setup, phase: Phase::Creating(1) };
    assert(answer(w, s2.phase) == Event::Executed(w.executions[0]));
    assert(answer(w, s3.phase) == Event::Executed(w.executions[1]));
}

/// Neither the check nor the setup ever asks to connect to an address that
/// does not start with `postgres://`.
pub proof fn lemma_connects_only_to_postgres(s: Session, e: Event)
    requires
        s.wf(),
        answers(s.phase, e),
    ensures
        spec_next(s, e).1.action matches ActionView::Connect(u) ==> postgres_scheme().is_prefix_of(u),
{
}

/// Every step either finishes the session or leaves it waiting for an answer.
pub proof fn lemma_step_finishes_or_waits(s: Session, e: Event)
    requires
        s.wf(),
        answers(s.phase, e),
    ensures
        spec_next(s, e).1.action is Finish <==> spec_next(s, e).0.phase == Phase::Finished,
        spec_next(s, e).0.task == s.task,
{
}


/// Whether `stmt` holds the column declaration `decl`.
pub open spec fn declares(stmt: Seq<char>, decl: Seq<char>) -> bool {
    exists|i: int| 0 <= i && i + decl.len() <= stmt.len() && #[trigger] stmt.subrange(i, i + decl.len()) == decl
}

/// The setup creates the contracts table with an identity `id` and a text
/// `symbol`, and the candles table with a column for the contract and one for
/// every field of a candle that the updater stores: `opentime` as an integer
/// and the prices and volume as text.
pub proof fn lemma_tables_have_all_columns()
    ensures
        declares(create_statement(0), "\n       id BIGINT"@),
        declares(create_statement(0), "\n       symbol TEXT"@),
        declares(create_statement(1), "\n       coin_id BIGINT"@),
        declares(create_statement(1), "\n       opentime BIGINT"@),
        declares(create_statement(1), "\n       openprice TEXT"@),
        declares(create_statement(1), "\n       highprice TEXT"@),
        declares(create_statement(1), "\n       lowprice TEXT"@),
        declares(create_statement(1), "\n       closeprice TEXT"@),
        declares(create_statement(1), "\n       volume TEXT"@),
{
    reveal_strlit("CREATE TABLE IF NOT EXISTS perpetual_futures(\n       id BIGINT GENERATED ALWAYS AS IDENTITY PRIMARY KEY,\n       symbol TEXT NOT NULL\n);");
    reveal_strlit("CREATE TABLE IF NOT EXISTS daily_ohlcv(\n       coin_id BIGINT references perpetual_futures(id),\n       opentime BIGINT NOT NULL,\n       openprice TEXT NOT NULL,\n       highprice TEXT NOT NULL,\n       lowprice TEXT NOT NULL,\n       closeprice TEXT NOT NULL,\n       volume TEXT NOT NULL\n);");
    reveal_strlit("\n       id BIGINT");
    assert(create_statement(0).subrange(45, 62) =~= "\n       id BIGINT"@);
    assert(declares(create_statement(0), "\n       id BIGINT"@)) by {
        assert(create_statement(0).subrange(45, 45int + "\n       id BIGINT"@.len()) == "\n       id BIGINT"@);
    }
    reveal_strlit("\n       symbol TEXT");
    assert(create_statement(0).subrange(104, 123) =~= "\n       symbol TEXT"@);
    assert(declares(create_statement(0), "\n       symbol TEXT"@)) by {
        assert(create_statement(0).subrange(104, 104int + "\n       symbol TEXT"@.len()) == "\n       symbol TEXT"@);
    }
    reveal_strlit("\n       coin_id BIGINT");
    assert(create_statement(1).subrange(39, 61) =~= "\n       coin_id BIGINT"@);
    assert(declares(create_statement(1), "\n       coin_id BIGINT"@)) by {
        assert(create_statement(1).subrange(39, 39int + "\n       coin_id BIGINT"@.len()) == "\n       coin_id BIGINT"@);
    }
    reveal_strlit("\n       opentime BIGINT");
    assert(create_statement(1).subrange(95, 118) =~= "\n       opentime BIGINT"@);
    assert(declares(create_statement(1), "\n       opentime BIGINT"@)) by {
        assert(create_statement(1).subrange(95, 95int + "\n       opentime BIGINT"@.len()) == "\n       opentime BIGINT"@);
    }
    reveal_strlit("\n       openprice TEXT");
    assert(create_statement(1).subrange(128, 150) =~= "\n       openprice TEXT"@);
    assert(declares(create_statement(1), "\n       openprice TEXT"@)) by {
        assert(create_statement(1).subrange(128, 128int + "\n       openprice TEXT"@.len()) == "\n       openprice TEXT"@);
    }
    reveal_strlit("\n       highprice TEXT");
    assert(create_statement(1).subrange(160, 182) =~= "\n       highprice TEXT"@);
    assert(declares(create_statement(1), "\n       highprice TEXT"@)) by {
        assert(create_statement(1).subrange(160, 160int + "\n       highprice TEXT"@.len()) == "\n       highprice TEXT"@);
    }
    reveal_strlit("\n       lowprice TEXT");
    assert(create_statement(1).subrange(192, 213) =~= "\n       lowprice TEXT"@);
    assert(declares(create_statement(1), "\n       lowprice TEXT"@)) by {
        assert(create_statement(1).subrange(192, 192int + "\n       lowprice TEXT"@.len()) == "\n       lowprice TEXT"@);
    }
    reveal_strlit("\n       closeprice TEXT");
    assert(create_statement(1).subrange(223, 246) =~= "\n       closeprice TEXT"@);
    assert(declares(create_statement(1), "\n       closeprice TEXT"@)) by {
        assert(create_statement(1).subrange(223, 223int + "\n       closeprice TEXT"@.len()) == "\n       closeprice TEXT"@);
    }
    reveal_strlit("\n       volume TEXT");
    assert(create_statement(1).subrange(256, 275) =~= "\n       volume TEXT"@);
    assert(declares(create_statement(1), "\n       volume TEXT"@)) by {
        assert(create_statement(1).subrange(256, 256int + "\n       volume TEXT"@.len()) == "\n       volume TEXT"@);
    }
}

/// A failed connection shows no line and ends the session with the driver's
/// description; the line that reports an established connection is shown
/// only by the check, and only on a successful connection.
pub proof fn lemma_connection_line_only_on_success(s: Session, e: Event)
    requires
        s.wf(),
        answers(s.phase, e),
    ensures
        e matches Event::Connected(Err(m)) ==> spec_next(s, e).1.output.len() == 0
            && spec_next(s, e).1.action == ActionView::Finish(
            Err::<(), SetupErrorView>(SetupErrorView::ConnectionError(m@)),
        ),
        spec_next(s, e).1.output.contains("DB connection established succesfully! ✓"@) ==> (
        e matches Event::Connected(Ok(_)) && s.task == Task::Check),
{
    reveal_strlit("DB connection established succesfully! ✓");
    reveal_strlit("DATABASE_URL set! ✓");
    reveal_strlit("URL set for postgresql! ✓");
    reveal_strlit("CREATING TABLES");
    reveal_strlit("Database setup is correct.");
    let out = spec_next(s, e).1.output;
    if out.contains("DB connection established succesfully! ✓"@) {
        let j = choose|j: int| 0 <= j < out.len() && out[j] == "DB connection established succesfully! ✓"@;
        assert(out[j].len() == "DB connection established succesfully! ✓"@.len());
    }
}

/// Every counting query asks for the tables named like a required table:
/// it is the fixed query text, then `perpetual_futures` (first) or
/// `daily_ohlcv` (second), then a closing quote.
pub proof fn lemma_queries_name_required_tables(s: Session, e: Event)
    requires
        s.wf(),
        answers(s.phase, e),
    ensures
        spec_next(s, e).1.action matches ActionView::Query(q) ==> {
            &&& q.len() > "SELECT COUNT(*) FROM information_schema.tables WHERE table_name = '"@.len()
            &&& q.subrange(0, "SELECT COUNT(*) FROM information_schema.tables WHERE table_name = '"@.len() as int) == "SELECT COUNT(*) FROM information_schema.tables WHERE table_name = '"@
            &&& q.last() == '\''
            &&& (q.subrange("SELECT COUNT(*) FROM information_schema.tables WHERE table_name = '"@.len() as int, q.len() - 1) == "perpetual_futures"@
                && spec_next(s, e).0.phase == Phase::Counting(0))
                || (q.subrange("SELECT COUNT(*) FROM information_schema.tables WHERE table_name = '"@.len() as int, q.len() - 1) == "daily_ohlcv"@
                && spec_next(s, e).0.phase == Phase::Counting(1))
        },
{
    reveal_strlit("'");
    reveal_strlit("perpetual_futures");
    reveal_strlit("daily_ohlcv");
    if let ActionView::Query(q) = spec_next(s, e).1.action {
        let p = "SELECT COUNT(*) FROM information_schema.tables WHERE table_name = '"@;
        let t = if spec_next(s, e).0.phase == Phase::Counting(0) {
            "perpetual_futures"@
        } else {
            "daily_ohlcv"@
        };
        assert(q == p + t + "'"@);
        assert(q.subrange(0, p.len() as int) =~= p);
        assert(q.subrange(p.len() as int, q.len() - 1) =~= t);
    }
}

} // verus!
