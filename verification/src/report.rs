//! What is reported for one connection: the result record, the errors that can
//! end an execution, and the message that each of them is reported with.

use crate::classifier::{reason_label, BatchReason};
use crate::connection::{missing_credential_text, MissingCredential};
use crate::text::{chars_of, contains, contains_text, decimal_digits, push_decimal};
use vstd::prelude::*;

verus! {

/// The outcome for one connection.
#[derive(Debug)]
pub struct ExecutionResult {
    /// The identifier of the connection that this outcome belongs to.
    pub connection_id: String,
    pub success: bool,
    /// A message for people; not a stable code.
    pub message: String,
}

/// The mathematical value of an `ExecutionResult`.
pub struct ResultView {
    pub connection_id: Seq<char>,
    pub success: bool,
    pub message: Seq<char>,
}

impl View for ExecutionResult {
    type V = ResultView;

    open spec fn view(&self) -> ResultView {
        ResultView {
            connection_id: self.connection_id@,
            success: self.success,
            message: self.message@,
        }
    }
}

/// The structured part of a database error: the server's primary message and
/// its five-character error code.
#[derive(Debug)]
pub struct DbErrorDetail {
    pub message: String,
    pub code: String,
}

/// An error as the driver reports it: its full text and, where the server sent
/// one, the structured detail.
#[derive(Debug)]
pub struct DriverError {
    pub text: String,
    pub detail: Option<DbErrorDetail>,
}

/// The mathematical value of a `DbErrorDetail`.
pub struct DetailView {
    pub message: Seq<char>,
    pub code: Seq<char>,
}

/// The mathematical value of a `DriverError`.
pub struct DriverErrorView {
    pub text: Seq<char>,
    pub detail: Option<DetailView>,
}

impl View for DbErrorDetail {
    type V = DetailView;

    open spec fn view(&self) -> DetailView {
        DetailView { message: self.message@, code: self.code@ }
    }
}

impl View for DriverError {
    type V = DriverErrorView;

    open spec fn view(&self) -> DriverErrorView {
        DriverErrorView {
            text: self.text@,
            detail: match self.detail {
                Some(d) => Some(d@),
                None => None,
            },
        }
    }
}

impl Clone for DbErrorDetail {
    fn clone(&self) -> (r: Self)
        ensures
            r@ == self@,
    {
        DbErrorDetail { message: self.message.clone(), code: self.code.clone() }
    }
}

impl Clone for DriverError {
    fn clone(&self) -> (r: Self)
        ensures
            r@ == self@,
    {
        DriverError {
            text: self.text.clone(),
            detail: match &self.detail {
                Some(d) => Some(d.clone()),
                None => None,
            },
        }
    }
}

/// Why a connection could not be established, as far as the error text tells.
#[derive(Debug)]
pub enum ConnectError {
    AuthenticationFailed,
    ConnectionRefused,
    DatabaseNotFound,
    /// Any other failure, with the driver's text.
    Other(String),
}

/// The mathematical value of a `ConnectError`.
pub enum ConnectErrorView {
    AuthenticationFailed,
    ConnectionRefused,
    DatabaseNotFound,
    Other(Seq<char>),
}

impl View for ConnectError {
    type V = ConnectErrorView;

    open spec fn view(&self) -> ConnectErrorView {
        match self {
            ConnectError::AuthenticationFailed => ConnectErrorView::AuthenticationFailed,
            ConnectError::ConnectionRefused => ConnectErrorView::ConnectionRefused,
            ConnectError::DatabaseNotFound => ConnectErrorView::DatabaseNotFound,
            ConnectError::Other(text) => ConnectErrorView::Other(text@),
        }
    }
}

/// The kind of connect failure that the error text `text` tells of. The text is
/// searched as it is, case and all, for three phrases in a fixed order.
pub open spec fn connect_error_of(text: Seq<char>) -> ConnectErrorView {
    if contains_text(text, "password authentication failed"@) {
        ConnectErrorView::AuthenticationFailed
    } else if contains_text(text, "connection refused"@) {
        ConnectErrorView::ConnectionRefused
    } else if contains_text(text, "does not exist"@) {
        ConnectErrorView::DatabaseNotFound
    } else {
        ConnectErrorView::Other(text)
    }
}

/// Tells the kind of a connect failure from the driver's error text.
pub fn classify_connect_error(text: &str) -> (e: ConnectError)
    ensures
        e@ == connect_error_of(text@),
{
    let chars = chars_of(text);
    if contains(&chars, "password authentication failed") {
        ConnectError::AuthenticationFailed
    } else if contains(&chars, "connection refused") {
        ConnectError::ConnectionRefused
    } else if contains(&chars, "does not exist") {
        ConnectError::DatabaseNotFound
    } else {
        ConnectError::Other(String::from_str(text))
    }
}

/// An error that ends the execution on one connection.
#[derive(Debug)]
pub enum ExecutionError {
    /// A required field is missing; found before any I/O.
    InvalidSpec(MissingCredential),
    /// The connection could not be established.
    Connect(ConnectError),
    /// The search path could not be set, on the session or inside the transaction.
    Schema { schema: String, in_transaction: bool, cause: String },
    /// The transaction could not be opened.
    TransactionBegin { cause: String },
    /// The batch failed inside its transaction.
    BatchExecution { reason: BatchReason, failure: DriverError },
    /// The batch went through, the commit did not.
    Commit { cause: String },
    /// The simple statement failed.
    SimpleExecution { failure: DriverError },
}

/// The mathematical value of an `ExecutionError`.
pub enum ErrorView {
    InvalidSpec(MissingCredential),
    Connect(ConnectErrorView),
    Schema { schema: Seq<char>, in_transaction: bool, cause: Seq<char> },
    TransactionBegin { cause: Seq<char> },
    BatchExecution { reason: BatchReason, failure: DriverErrorView },
    Commit { cause: Seq<char> },
    SimpleExecution { failure: DriverErrorView },
}

impl View for ExecutionError {
    type V = ErrorView;

    open spec fn view(&self) -> ErrorView {
        match self {
            ExecutionError::InvalidSpec(m) => ErrorView::InvalidSpec(*m),
            ExecutionError::Connect(e) => ErrorView::Connect(e@),
            ExecutionError::Schema { schema, in_transaction, cause } => ErrorView::Schema {
                schema: schema@,
                in_transaction: *in_transaction,
                cause: cause@,
            },
            ExecutionError::TransactionBegin { cause } => ErrorView::TransactionBegin {
                cause: cause@,
            },
            ExecutionError::BatchExecution { reason, failure } => ErrorView::BatchExecution {
                reason: *reason,
                failure: failure@,
            },
            ExecutionError::Commit { cause } => ErrorView::Commit { cause: cause@ },
            ExecutionError::SimpleExecution { failure } => ErrorView::SimpleExecution {
                failure: failure@,
            },
        }
    }
}

/// The message for a connect failure.
pub open spec fn connect_error_message(e: ConnectErrorView) -> Seq<char> {
    match e {
        ConnectErrorView::AuthenticationFailed =>
            "Error de autenticación: Usuario o contraseña incorrectos"@,
        ConnectErrorView::ConnectionRefused =>
            "Error de conexión: No se pudo conectar al servidor. Verifica que el servidor esté corriendo y el puerto sea correcto"@,
        ConnectErrorView::DatabaseNotFound => "Error: La base de datos no existe"@,
        ConnectErrorView::Other(text) => "Error conectando a la base de datos: "@ + text,
    }
}

/// The message for a failed statement or batch, labelled with `label`: the
/// server's message and code where the error carries them, else the driver's text.
pub open spec fn failure_message(label: Seq<char>, failure: DriverErrorView) -> Seq<char> {
    match failure.detail {
        Some(d) => "Error de base de datos"@ + label + ": "@ + d.message + " (Código: "@ + d.code
            + ")"@,
        None => "Error ejecutando SQL"@ + label + ": "@ + failure.text,
    }
}

/// How a batch failure names its reason: the label in round brackets, after a space.
pub open spec fn batch_label(reason: BatchReason) -> Seq<char> {
    " ("@ + reason_label(reason) + ")"@
}

/// The message that the error `e` is reported with.
pub open spec fn error_message(e: ErrorView) -> Seq<char> {
    match e {
        ErrorView::InvalidSpec(m) => "Error construyendo connection string: "@
            + missing_credential_text(m),
        ErrorView::Connect(c) => connect_error_message(c),
        ErrorView::Schema { schema, in_transaction, cause } => if in_transaction {
            "Error estableciendo schema '"@ + schema + "' en transacción: "@ + cause
        } else {
            "Error estableciendo schema '"@ + schema + "': "@ + cause
        },
        ErrorView::TransactionBegin { cause } => "Error iniciando transacción: "@ + cause,
        ErrorView::BatchExecution { reason, failure } => failure_message(
            batch_label(reason),
            failure,
        ),
        ErrorView::Commit { cause } => "Error haciendo commit: "@ + cause,
        ErrorView::SimpleExecution { failure } => failure_message(Seq::empty(), failure),
    }
}

/// The message for a simple statement that went through with `rows` rows affected.
pub open spec fn simple_success_message(rows: u64) -> Seq<char> {
    "SQL ejecutado exitosamente. Filas afectadas: "@ + decimal_digits(rows as nat)
}

/// The message for a batch that was committed.
pub open spec fn batch_success_message(reason: BatchReason) -> Seq<char> {
    "SQL ejecutado exitosamente ("@ + reason_label(reason) + ")"@
}

impl ConnectError {
    /// The message for this connect failure.
    pub fn message(&self) -> (s: String)
        ensures
            s@ == connect_error_message(self@),
    {
        match self {
            ConnectError::AuthenticationFailed => String::from_str(
                "Error de autenticación: Usuario o contraseña incorrectos",
            ),
            ConnectError::ConnectionRefused => String::from_str(
                "Error de conexión: No se pudo conectar al servidor. Verifica que el servidor esté corriendo y el puerto sea correcto",
            ),
            ConnectError::DatabaseNotFound => String::from_str("Error: La base de datos no existe"),
            ConnectError::Other(text) => {
                let mut s = String::from_str("Error conectando a la base de datos: ");
                s.append(text.as_str());
                s
            },
        }
    }
}

fn render_failure(label: &str, failure: &DriverError) -> (s: String)
    ensures
        s@ == failure_message(label@, failure@),
{
    match &failure.detail {
        Some(d) => {
            let mut s = String::from_str("Error de base de datos");
            s.append(label);
            s.append(": ");
            s.append(d.message.as_str());
            s.append(" (Código: ");
            s.append(d.code.as_str());
            s.append(")");
            s
        },
        None => {
            let mut s = String::from_str("Error ejecutando SQL");
            s.append(label);
            s.append(": ");
            s.append(failure.text.as_str());
            s
        },
    }
}

impl ExecutionError {
    /// The message that this error is reported with.
    pub fn message(&self) -> (s: String)
        ensures
            s@ == error_message(self@),
    {
        match self {
            ExecutionError::InvalidSpec(m) => {
                let mut s = String::from_str("Error construyendo connection string: ");
                s.append(m.text());
                s
            },
            ExecutionError::Connect(c) => c.message(),
            ExecutionError::Schema { schema, in_transaction, cause } => {
                let mut s = String::from_str("Error estableciendo schema '");
                s.append(schema.as_str());
                if *in_transaction {
                    s.append("' en transacción: ");
                } else {
                    s.append("': ");
                }
                s.append(cause.as_str());
                s
            },
            ExecutionError::TransactionBegin { cause } => {
                let mut s = String::from_str("Error iniciando transacción: ");
                s.append(cause.as_str());
                s
            },
            ExecutionError::BatchExecution { reason, failure } => {
                let mut label = String::from_str(" (");
                label.append(reason.label());
                label.append(")");
                render_failure(label.as_str(), failure)
            },
            ExecutionError::Commit { cause } => {
                let mut s = String::from_str("Error haciendo commit: ");
                s.append(cause.as_str());
                s
            },
            ExecutionError::SimpleExecution { failure } => {
                let s = render_failure("", failure);
                proof {
                    reveal_strlit("");
                    assert(""@ =~= Seq::<char>::empty());
                }
                s
            },
        }
    }
}

/// The message for a simple statement that went through with `rows` rows affected.
pub fn render_simple_success(rows: u64) -> (s: String)
    ensures
        s@ == simple_success_message(rows),
{
    let mut s = String::from_str("SQL ejecutado exitosamente. Filas afectadas: ");
    push_decimal(&mut s, rows);
    s
}

/// The message for a batch that was committed.
pub fn render_batch_success(reason: BatchReason) -> (s: String)
    ensures
        s@ == batch_success_message(reason),
{
    let mut s = String::from_str("SQL ejecutado exitosamente (");
    s.append(reason.label());
    s.append(")");
    s
}

impl Clone for ExecutionResult {
    fn clone(&self) -> (r: Self)
        ensures
            r@ == self@,
    {
        ExecutionResult {
            connection_id: self.connection_id.clone(),
            success: self.success,
            message: self.message.clone(),
        }
    }
}

impl ExecutionResult {
    /// The result for connection `id` that went through with `message`.
    pub fn succeeded(id: &String, message: String) -> (r: ExecutionResult)
        ensures
            r@ == (ResultView { connection_id: id@, success: true, message: message@ }),
    {
        ExecutionResult { connection_id: id.clone(), success: true, message }
    }

    /// The result for connection `id` that ended with `error`.
    pub fn failed(id: &String, error: &ExecutionError) -> (r: ExecutionResult)
        ensures
            r@ == (ResultView {
                connection_id: id@,
                success: false,
                message: error_message(error@),
            }),
    {
        ExecutionResult { connection_id: id.clone(), success: false, message: error.message() }
    }
}

/// The values of a list of results.
pub open spec fn result_views(rs: Seq<ExecutionResult>) -> Seq<ResultView> {
    rs.map_values(|r: ExecutionResult| r@)
}

/// How many of `results` are successes.
pub open spec fn successes(results: Seq<ResultView>) -> nat
    decreases results.len(),
{
    if results.len() == 0 {
        0
    } else {
        successes(results.drop_last()) + if results.last().success {
            1nat
        } else {
            0nat
        }
    }
}

/// The counts that sum up an invocation.
#[derive(Clone, Copy, Debug, PartialEq, Eq, Structural)]
pub struct Summary {
    pub total: usize,
    pub successful: usize,
    pub failed: usize,
}

/// Counts the results, the successes and the failures.
pub fn summarize(results: &Vec<ExecutionResult>) -> (s: Summary)
    ensures
        s.total == results.len(),
        s.successful == successes(result_views(results@)),
        s.failed == s.total - s.successful,
{
    let mut successful: usize = 0;
    let mut i: usize = 0;
    while i < results.len()
        invariant
            i <= results.len(),
            successful <= i,
            successful == successes(result_views(results@).take(i as int)),
        decreases results.len() - i,
    {
        assert(result_views(results@).take(i + 1).drop_last() =~= result_views(results@).take(
            i as int,
        ));
        if results[i].success {
            successful += 1;
        }
        i += 1;
    }
    assert(result_views(results@).take(results.len() as int) =~= result_views(results@));
    Summary { total: results.len(), successful, failed: results.len() - successful }
}

/// A failed commit and a failed batch are never reported in the same words,
/// whatever the two errors say.
pub proof fn lemma_commit_message_differs(
    cause: Seq<char>,
    reason: BatchReason,
    failure: DriverErrorView,
)
    ensures
        error_message(ErrorView::Commit { cause }) != error_message(
            ErrorView::BatchExecution { reason, failure },
        ),
{
    reveal_strlit("Error haciendo commit: ");
    reveal_strlit("Error de base de datos");
    reveal_strlit("Error ejecutando SQL");
    let commit = error_message(ErrorView::Commit { cause });
    let batch = error_message(ErrorView::BatchExecution { reason, failure });
    assert(commit[6] == 'h');
    assert(batch[6] == 'd' || batch[6] == 'e');
}

} // verus!
