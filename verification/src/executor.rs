//! The execution on one connection, as a state machine.
//!
//! The machine decides; its caller acts. Each transition takes the reply to the
//! command that is in flight and gives the next command, or the result once the
//! execution is over. Nothing here performs I/O.
//!
//! An execution starts out idle. `start` either asks for a connection or, where
//! a required field is missing or empty, fails at once. From then on `step` leads
//! through the optional schema directive to one of two strategies: a simple
//! statement, or a batch inside an explicit transaction that is committed at the
//! end. It ends in `Committed`, `RolledBack` or `Failed`.

use crate::classifier::{BatchReason, ClassificationDecision};
use crate::connection::{
    connection_string, is_complete, missing_credential, schema_of, ConnectionView,
    DatabaseConnection,
};
use crate::report::{
    batch_success_message, classify_connect_error, connect_error_of, error_message,
    lemma_commit_message_differs, render_batch_success, render_simple_success,
    simple_success_message, DriverError, DriverErrorView, ErrorView, ExecutionError,
    ExecutionResult, ResultView,
};
use vstd::prelude::*;

verus! {

/// Where an execution stands.
#[derive(Clone, Copy, Debug, PartialEq, Eq, Structural)]
pub enum Phase {
    /// Nothing has been asked for yet.
    Idle,
    /// A connection has been asked for.
    Connecting,
    /// The schema directive is in flight on the session.
    SettingSchema,
    /// The simple statement is in flight.
    RunningSimple,
    /// The opening of the transaction is in flight.
    BeginningTransaction,
    /// The schema directive is in flight inside the transaction.
    SettingTransactionSchema,
    /// The batch is in flight inside the transaction.
    RunningBatch,
    /// The commit is in flight.
    Committing,
    /// Over: the work went through.
    Committed,
    /// Over: the work failed inside its transaction, which was discarded.
    RolledBack,
    /// Over: the work failed otherwise.
    Failed,
}

/// What the caller is asked to do next.
#[derive(Debug)]
pub enum Command {
    /// Open a connection with this descriptor.
    Connect(String),
    /// Run this directive on the session.
    SetSchema(String),
    /// Run this text as one statement and report the rows affected.
    Execute(String),
    /// Open a transaction.
    BeginTransaction,
    /// Run this directive inside the open transaction.
    SetTransactionSchema(String),
    /// Send this text as one batch inside the open transaction.
    BatchExecute(String),
    /// Commit the open transaction.
    Commit,
    /// Close the connection; where `discard_transaction` is set, drop the open
    /// transaction first, uncommitted.
    Close { discard_transaction: bool },
}

/// The mathematical value of a `Command`.
pub enum CommandView {
    Connect(Seq<char>),
    SetSchema(Seq<char>),
    Execute(Seq<char>),
    BeginTransaction,
    SetTransactionSchema(Seq<char>),
    BatchExecute(Seq<char>),
    Commit,
    Close { discard_transaction: bool },
}

impl View for Command {
    type V = CommandView;

    open spec fn view(&self) -> CommandView {
        match self {
            Command::Connect(s) => CommandView::Connect(s@),
            Command::SetSchema(s) => CommandView::SetSchema(s@),
            Command::Execute(s) => CommandView::Execute(s@),
            Command::BeginTransaction => CommandView::BeginTransaction,
            Command::SetTransactionSchema(s) => CommandView::SetTransactionSchema(s@),
            Command::BatchExecute(s) => CommandView::BatchExecute(s@),
            Command::Commit => CommandView::Commit,
            Command::Close { discard_transaction } => CommandView::Close {
                discard_transaction: *discard_transaction,
            },
        }
    }
}

/// How the command in flight ended.
#[derive(Debug)]
pub enum Reply {
    /// It went through. `rows_affected` counts for a simple statement and is
    /// ignored otherwise.
    Completed { rows_affected: u64 },
    /// It failed.
    Failed(DriverError),
}

/// The mathematical value of a `Reply`.
pub enum ReplyView {
    Completed { rows_affected: u64 },
    Failed(DriverErrorView),
}

impl View for Reply {
    type V = ReplyView;

    open spec fn view(&self) -> ReplyView {
        match self {
            Reply::Completed { rows_affected } => ReplyView::Completed {
                rows_affected: *rows_affected,
            },
            Reply::Failed(e) => ReplyView::Failed(e@),
        }
    }
}

/// One transition: the phase reached, the command to perform next if there is
/// one, and the result if the execution is over.
#[derive(Debug)]
pub struct Step {
    pub phase: Phase,
    pub command: Option<Command>,
    pub result: Option<ExecutionResult>,
}

/// The mathematical value of a `Step`.
pub struct StepView {
    pub phase: Phase,
    pub command: Option<CommandView>,
    pub result: Option<ResultView>,
}

impl View for Step {
    type V = StepView;

    open spec fn view(&self) -> StepView {
        StepView {
            phase: self.phase,
            command: match self.command {
                Some(c) => Some(c@),
                None => None,
            },
            result: match self.result {
                Some(r) => Some(r@),
                None => None,
            },
        }
    }
}

/// The execution is over.
pub open spec fn is_terminal(phase: Phase) -> bool {
    phase == Phase::Committed || phase == Phase::RolledBack || phase == Phase::Failed
}

/// A command is in flight and a reply is awaited.
pub open spec fn awaits_reply(phase: Phase) -> bool {
    phase != Phase::Idle && !is_terminal(phase)
}

/// A connection is open.
pub open spec fn is_connected(phase: Phase) -> bool {
    awaits_reply(phase) && phase != Phase::Connecting
}

/// A transaction is open.
pub open spec fn in_transaction(phase: Phase) -> bool {
    phase == Phase::SettingTransactionSchema || phase == Phase::RunningBatch
}

/// The phase can be reached by an execution on `conn` under `decision`: the
/// decision is coherent, a command is in flight only for a complete connection,
/// a schema directive only where a schema is configured, and each strategy only
/// under its decision.
pub open spec fn phase_fits(
    phase: Phase,
    conn: ConnectionView,
    decision: ClassificationDecision,
) -> bool {
    decision.is_coherent() && match phase {
        Phase::Connecting => is_complete(conn),
        Phase::SettingSchema => is_complete(conn) && schema_of(conn) is Some,
        Phase::RunningSimple => is_complete(conn) && !decision.requires_batch,
        Phase::BeginningTransaction => is_complete(conn) && decision.requires_batch,
        Phase::SettingTransactionSchema => is_complete(conn) && decision.requires_batch
            && schema_of(conn) is Some,
        Phase::RunningBatch => is_complete(conn) && decision.requires_batch,
        Phase::Committing => is_complete(conn) && decision.requires_batch,
        _ => true,
    }
}

/// The directive that makes `schema` the default schema of a session.
pub open spec fn schema_directive(schema: Seq<char>) -> Seq<char> {
    "SET search_path TO "@ + schema
}

/// A transition that performs `command` and awaits its reply in `phase`.
pub open spec fn proceed(phase: Phase, command: CommandView) -> StepView {
    StepView { phase, command: Some(command), result: None }
}

/// The result of the connection `id` that ended with `error`.
pub open spec fn failure_of(id: Seq<char>, error: ErrorView) -> ResultView {
    ResultView { connection_id: id, success: false, message: error_message(error) }
}

/// The result of the connection `id` that went through with `message`.
pub open spec fn success_of(id: Seq<char>, message: Seq<char>) -> ResultView {
    ResultView { connection_id: id, success: true, message }
}

/// A transition that ends the execution in `phase` with `result`. The
/// connection is closed exactly where one is open, and an open transaction is
/// discarded with it.
pub open spec fn finish(from: Phase, phase: Phase, result: ResultView) -> StepView {
    StepView {
        phase,
        command: if is_connected(from) {
            Some(CommandView::Close { discard_transaction: in_transaction(from) })
        } else {
            None
        },
        result: Some(result),
    }
}

/// The transition that starts the strategy chosen by `decision`.
pub open spec fn dispatch(sql: Seq<char>, decision: ClassificationDecision) -> StepView {
    if decision.requires_batch {
        proceed(Phase::BeginningTransaction, CommandView::BeginTransaction)
    } else {
        proceed(Phase::RunningSimple, CommandView::Execute(sql))
    }
}

/// The transition out of `Idle`: with every required field given, ask for a
/// connection; else fail without asking for anything.
pub open spec fn start_spec(conn: ConnectionView) -> StepView {
    match missing_credential(conn) {
        None => proceed(Phase::Connecting, CommandView::Connect(connection_string(conn))),
        Some(m) => finish(Phase::Idle, Phase::Failed, failure_of(conn.id, ErrorView::InvalidSpec(m))),
    }
}

/// The transition out of `phase` on `reply`.
pub open spec fn step_spec(
    phase: Phase,
    conn: ConnectionView,
    sql: Seq<char>,
    decision: ClassificationDecision,
    reply: ReplyView,
) -> StepView
    recommends
        awaits_reply(phase),
        phase_fits(phase, conn, decision),
{
    match reply {
        ReplyView::Failed(e) => {
            let error = match phase {
                Phase::Connecting => ErrorView::Connect(connect_error_of(e.text)),
                Phase::SettingSchema => ErrorView::Schema {
                    schema: schema_of(conn)->0,
                    in_transaction: false,
                    cause: e.text,
                },
                Phase::RunningSimple => ErrorView::SimpleExecution { failure: e },
                Phase::BeginningTransaction => ErrorView::TransactionBegin { cause: e.text },
                Phase::SettingTransactionSchema => ErrorView::Schema {
                    schema: schema_of(conn)->0,
                    in_transaction: true,
                    cause: e.text,
                },
                Phase::RunningBatch => ErrorView::BatchExecution {
                    reason: decision.reason,
                    failure: e,
                },
                _ => ErrorView::Commit { cause: e.text },
            };
            finish(
                phase,
                if in_transaction(phase) {
                    Phase::RolledBack
                } else {
                    Phase::Failed
                },
                failure_of(conn.id, error),
            )
        },
        ReplyView::Completed { rows_affected } => match phase {
            Phase::Connecting => match schema_of(conn) {
                Some(s) => proceed(Phase::SettingSchema, CommandView::SetSchema(schema_directive(s))),
                None => dispatch(sql, decision),
            },
            Phase::SettingSchema => dispatch(sql, decision),
            Phase::RunningSimple => finish(
                phase,
                Phase::Committed,
                success_of(conn.id, simple_success_message(rows_affected)),
            ),
            Phase::BeginningTransaction => match schema_of(conn) {
                Some(s) => proceed(
                    Phase::SettingTransactionSchema,
                    CommandView::SetTransactionSchema(schema_directive(s)),
                ),
                None => proceed(Phase::RunningBatch, CommandView::BatchExecute(sql)),
            },
            Phase::SettingTransactionSchema => proceed(
                Phase::RunningBatch,
                CommandView::BatchExecute(sql),
            ),
            Phase::RunningBatch => proceed(Phase::Committing, CommandView::Commit),
            _ => finish(
                phase,
                Phase::Committed,
                success_of(conn.id, batch_success_message(decision.reason)),
            ),
        },
    }
}

fn directive(schema: &String) -> (s: String)
    ensures
        s@ == schema_directive(schema@),
{
    let mut s = String::from_str("SET search_path TO ");
    s.append(schema.as_str());
    s
}

fn close_after(from: Phase) -> (c: Option<Command>)
    ensures
        c is Some <==> is_connected(from),
        c matches Some(Command::Close { discard_transaction }) ==> discard_transaction
            == in_transaction(from),
        c is Some ==> c->0 is Close,
{
    match from {
        Phase::Idle | Phase::Connecting | Phase::Committed | Phase::RolledBack | Phase::Failed => None,
        Phase::SettingTransactionSchema | Phase::RunningBatch => Some(
            Command::Close { discard_transaction: true },
        ),
        _ => Some(Command::Close { discard_transaction: false }),
    }
}

fn fail(from: Phase, id: &String, error: ExecutionError) -> (s: Step)
    ensures
        s@ == finish(
            from,
            if in_transaction(from) {
                Phase::RolledBack
            } else {
                Phase::Failed
            },
            failure_of(id@, error@),
        ),
{
    let phase = match from {
        Phase::SettingTransactionSchema | Phase::RunningBatch => Phase::RolledBack,
        _ => Phase::Failed,
    };
    Step { phase, command: close_after(from), result: Some(ExecutionResult::failed(id, &error)) }
}

fn succeed(from: Phase, id: &String, message: String) -> (s: Step)
    ensures
        s@ == finish(from, Phase::Committed, success_of(id@, message@)),
{
    Step {
        phase: Phase::Committed,
        command: close_after(from),
        result: Some(ExecutionResult::succeeded(id, message)),
    }
}

fn go(phase: Phase, command: Command) -> (s: Step)
    ensures
        s@ == proceed(phase, command@),
{
    Step { phase, command: Some(command), result: None }
}

fn start_strategy(sql: &str, decision: ClassificationDecision) -> (s: Step)
    ensures
        s@ == dispatch(sql@, decision),
{
    if decision.requires_batch {
        go(Phase::BeginningTransaction, Command::BeginTransaction)
    } else {
        go(Phase::RunningSimple, Command::Execute(String::from_str(sql)))
    }
}

/// Starts the execution on `conn`: asks for a connection, or fails at once
/// where a required field is missing or empty.
pub fn start(conn: &DatabaseConnection) -> (s: Step)
    ensures
        s@ == start_spec(conn@),
{
    match conn.descriptor() {
        Ok(descriptor) => go(Phase::Connecting, Command::Connect(descriptor)),
        Err(m) => fail(Phase::Idle, &conn.id, ExecutionError::InvalidSpec(m)),
    }
}

/// Whether `step` may be called: whether `phase` awaits a reply and can be
/// reached by an execution on `conn` under `decision`.
pub fn can_step(phase: Phase, conn: &DatabaseConnection, decision: ClassificationDecision) -> (b:
    bool)
    ensures
        b == (awaits_reply(phase) && phase_fits(phase, conn@, decision)),
{
    let complete = conn.missing().is_none();
    let schema = conn.default_schema().is_some();
    let coherent = match decision.reason {
        BatchReason::NoReason => !decision.requires_batch,
        _ => decision.requires_batch,
    };
    coherent && match phase {
        Phase::Idle | Phase::Committed | Phase::RolledBack | Phase::Failed => false,
        Phase::Connecting => complete,
        Phase::SettingSchema => complete && schema,
        Phase::RunningSimple => complete && !decision.requires_batch,
        Phase::BeginningTransaction | Phase::RunningBatch | Phase::Committing => complete
            && decision.requires_batch,
        Phase::SettingTransactionSchema => complete && decision.requires_batch && schema,
    }
}

/// Takes the reply to the command in flight and decides what comes next.
///
/// `phase` must await a reply and must be one that an execution on `conn` under
/// `decision` can be in; the phases that `start` and `step` themselves hand out
/// for the same `conn`, `sql` and `decision` are.
pub fn step(
    phase: Phase,
    conn: &DatabaseConnection,
    sql: &str,
    decision: ClassificationDecision,
    reply: Reply,
) -> (s: Step)
    requires
        awaits_reply(phase),
        phase_fits(phase, conn@, decision),
    ensures
        s@ == step_spec(phase, conn@, sql@, decision, reply@),
{
    match reply {
        Reply::Failed(e) => {
            let error = match phase {
                Phase::Connecting => ExecutionError::Connect(classify_connect_error(e.text.as_str())),
                Phase::SettingSchema => ExecutionError::Schema {
                    schema: conn.default_schema().unwrap().clone(),
                    in_transaction: false,
                    cause: e.text,
                },
                Phase::RunningSimple => ExecutionError::SimpleExecution { failure: e },
                Phase::BeginningTransaction => ExecutionError::TransactionBegin { cause: e.text },
                Phase::SettingTransactionSchema => ExecutionError::Schema {
                    schema: conn.default_schema().unwrap().clone(),
                    in_transaction: true,
                    cause: e.text,
                },
                Phase::RunningBatch => ExecutionError::BatchExecution {
                    reason: decision.reason,
                    failure: e,
                },
                _ => ExecutionError::Commit { cause: e.text },
            };
            fail(phase, &conn.id, error)
        },
        Reply::Completed { rows_affected } => match phase {
            Phase::Connecting => match conn.default_schema() {
                Some(schema) => go(Phase::SettingSchema, Command::SetSchema(directive(schema))),
                None => start_strategy(sql, decision),
            },
            Phase::SettingSchema => start_strategy(sql, decision),
            Phase::RunningSimple => succeed(phase, &conn.id, render_simple_success(rows_affected)),
            Phase::BeginningTransaction => match conn.default_schema() {
                Some(schema) => go(
                    Phase::SettingTransactionSchema,
                    Command::SetTransactionSchema(directive(schema)),
                ),
                None => go(Phase::RunningBatch, Command::BatchExecute(String::from_str(sql))),
            },
            Phase::SettingTransactionSchema => go(
                Phase::RunningBatch,
                Command::BatchExecute(String::from_str(sql)),
            ),
            Phase::RunningBatch => go(Phase::Committing, Command::Commit),
            _ => succeed(phase, &conn.id, render_batch_success(decision.reason)),
        },
    }
}

/// A started execution either fails at once, for want of a required field and
/// with nothing asked of the caller, or asks for a connection.
pub proof fn lemma_start(conn: ConnectionView)
    ensures
        match missing_credential(conn) {
            Some(m) => {
                &&& start_spec(conn).phase == Phase::Failed
                &&& start_spec(conn).command is None
                &&& start_spec(conn).result == Some(failure_of(conn.id, ErrorView::InvalidSpec(m)))
            },
            None => {
                &&& start_spec(conn).phase == Phase::Connecting
                &&& start_spec(conn).command is Some
                &&& start_spec(conn).command->0 is Connect
                &&& start_spec(conn).result is None
            },
        },
{
}

/// Every transition either goes on, with a command and a phase that fits, or
/// ends the execution, with a result for its connection and with a command
/// exactly where a connection is open, which is then to close it.
pub proof fn lemma_step(
    phase: Phase,
    conn: ConnectionView,
    sql: Seq<char>,
    decision: ClassificationDecision,
    reply: ReplyView,
)
    requires
        awaits_reply(phase),
        phase_fits(phase, conn, decision),
    ensures
        ({
            let s = step_spec(phase, conn, sql, decision, reply);
            match s.result {
                None => {
                    &&& awaits_reply(s.phase)
                    &&& phase_fits(s.phase, conn, decision)
                    &&& s.command is Some
                    &&& !(s.command->0 is Close)
                    &&& !(s.command->0 is Connect)
                },
                Some(r) => {
                    &&& !awaits_reply(s.phase)
                    &&& s.phase != Phase::Idle
                    &&& r.connection_id == conn.id
                    &&& r.success <==> s.phase == Phase::Committed
                    &&& s.command is Some <==> is_connected(phase)
                    &&& s.command is Some ==> s.command->0 is Close
                },
            }
        }),
{
}

/// How far an execution has come; an execution that is over has come furthest.
pub open spec fn progress(phase: Phase) -> nat {
    match phase {
        Phase::Idle => 0,
        Phase::Connecting => 1,
        Phase::SettingSchema => 2,
        Phase::RunningSimple => 3,
        Phase::BeginningTransaction => 3,
        Phase::SettingTransactionSchema => 4,
        Phase::RunningBatch => 5,
        Phase::Committing => 6,
        Phase::Committed => 7,
        Phase::RolledBack => 7,
        Phase::Failed => 7,
    }
}

/// Every transition brings the execution further, so no execution takes more
/// than six replies to be over.
pub proof fn lemma_step_makes_progress(
    phase: Phase,
    conn: ConnectionView,
    sql: Seq<char>,
    decision: ClassificationDecision,
    reply: ReplyView,
)
    requires
        awaits_reply(phase),
    ensures
        progress(step_spec(phase, conn, sql, decision, reply).phase) > progress(phase),
        progress(start_spec(conn).phase) > progress(Phase::Idle),
{
}

/// The strategy follows the decision: a statement is run directly exactly
/// where no batch is required, and a transaction is opened exactly where one is.
pub proof fn lemma_strategy_follows_decision(
    phase: Phase,
    conn: ConnectionView,
    sql: Seq<char>,
    decision: ClassificationDecision,
    reply: ReplyView,
)
    requires
        awaits_reply(phase),
    ensures
        step_spec(phase, conn, sql, decision, reply).command == Some(CommandView::Execute(sql))
            ==> !decision.requires_batch,
        step_spec(phase, conn, sql, decision, reply).command == Some(
            CommandView::BeginTransaction,
        ) ==> decision.requires_batch,
{
}

/// Within one connection the schema directive comes before the work: with a
/// schema configured, the statement is run, or the transaction opened, only in
/// reply to the directive on the session, and the batch is sent only in reply
/// to the directive inside the transaction.
pub proof fn lemma_schema_precedes_execution(
    phase: Phase,
    conn: ConnectionView,
    sql: Seq<char>,
    decision: ClassificationDecision,
    reply: ReplyView,
)
    requires
        awaits_reply(phase),
        schema_of(conn) is Some,
    ensures
        ({
            let command = step_spec(phase, conn, sql, decision, reply).command;
            &&& command is Some && (command->0 is Execute || command->0 is BeginTransaction)
                ==> phase == Phase::SettingSchema && reply is Completed
            &&& command is Some && command->0 is BatchExecute ==> phase
                == Phase::SettingTransactionSchema && reply is Completed
        }),
{
}

/// The schema directive is sent only for a schema that is configured: where
/// the connection names no schema, or an empty one, no directive is ever asked
/// for, on the session or inside the transaction. Where one is asked for, it
/// sets the configured schema.
pub proof fn lemma_directive_only_for_schema(
    phase: Phase,
    conn: ConnectionView,
    sql: Seq<char>,
    decision: ClassificationDecision,
    reply: ReplyView,
)
    requires
        awaits_reply(phase),
    ensures
        ({
            let command = step_spec(phase, conn, sql, decision, reply).command;
            &&& command is Some && (command->0 is SetSchema || command->0 is SetTransactionSchema)
                ==> schema_of(conn) is Some && schema_of(conn)->0.len() > 0
            &&& command is Some && command->0 is SetSchema ==> command->0->SetSchema_0
                == schema_directive(schema_of(conn)->0)
            &&& command is Some && command->0 is SetTransactionSchema
                ==> command->0->SetTransactionSchema_0 == schema_directive(schema_of(conn)->0)
        }),
        start_spec(conn).command is Some ==> start_spec(conn).command->0 is Connect,
{
}

/// A commit is asked for in one situation only: in reply to a batch that went
/// through.
pub proof fn lemma_commit_only_after_batch(
    phase: Phase,
    conn: ConnectionView,
    sql: Seq<char>,
    decision: ClassificationDecision,
    reply: ReplyView,
)
    requires
        awaits_reply(phase),
    ensures
        step_spec(phase, conn, sql, decision, reply).command == Some(CommandView::Commit) <==> (
        phase == Phase::RunningBatch && reply is Completed),
        start_spec(conn).command != Some(CommandView::Commit),
{
}

/// A batch that fails is never committed. The execution is over at once: it
/// is rolled back, its connection gets a failure, and the one thing asked of
/// the caller is to discard the transaction and close the connection.
pub proof fn lemma_failed_batch_is_discarded(
    conn: ConnectionView,
    sql: Seq<char>,
    decision: ClassificationDecision,
    failure: DriverErrorView,
)
    ensures
        ({
            let s = step_spec(Phase::RunningBatch, conn, sql, decision, ReplyView::Failed(failure));
            &&& s.phase == Phase::RolledBack
            &&& s.command == Some(CommandView::Close { discard_transaction: true })
            &&& s.result == Some(
                failure_of(
                    conn.id,
                    ErrorView::BatchExecution { reason: decision.reason, failure },
                ),
            )
            &&& !s.result->0.success
        }),
{
}

/// A commit that fails is reported as a failure of its connection although
/// the batch went through, and in other words than any failed batch.
pub proof fn lemma_commit_failure_is_reported(
    conn: ConnectionView,
    sql: Seq<char>,
    decision: ClassificationDecision,
    commit_error: DriverErrorView,
    batch_error: DriverErrorView,
)
    ensures
        ({
            let c = step_spec(
                Phase::Committing,
                conn,
                sql,
                decision,
                ReplyView::Failed(commit_error),
            );
            let b = step_spec(
                Phase::RunningBatch,
                conn,
                sql,
                decision,
                ReplyView::Failed(batch_error),
            );
            &&& c.phase == Phase::Failed
            &&& c.result == Some(
                failure_of(conn.id, ErrorView::Commit { cause: commit_error.text }),
            )
            &&& !c.result->0.success
            &&& c.command == Some(CommandView::Close { discard_transaction: false })
            &&& b.result is Some
            &&& c.result->0.message != b.result->0.message
        }),
{
    lemma_commit_message_differs(commit_error.text, decision.reason, batch_error);
}

/// The connection is closed on every path on which one was opened, and on no
/// other: a transition that ends the execution asks for the connection to be
/// closed exactly where the phase it leaves had one open.
pub proof fn lemma_close_where_connected(
    phase: Phase,
    conn: ConnectionView,
    sql: Seq<char>,
    decision: ClassificationDecision,
    reply: ReplyView,
)
    requires
        awaits_reply(phase),
    ensures
        ({
            let s = step_spec(phase, conn, sql, decision, reply);
            &&& s.result is Some ==> (s.command is Some <==> is_connected(phase))
            &&& s.command is Some && s.command->0 is Close ==> s.result is Some
            &&& start_spec(conn).result is Some ==> start_spec(conn).command is None
        }),
{
}

} // verus!
