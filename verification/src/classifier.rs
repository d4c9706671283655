//! Statement classification: whether a script must run as one batch inside a
//! transaction, and why.
//!
//! The decision is a heuristic over the text alone. It looks for keywords in the
//! trimmed, upper-cased script and counts semicolons; it knows nothing of string
//! literals, comments or quoted identifiers.

use crate::text::{
    chars_of, contains, contains_text, count_char, count_of, lemma_contains_prefix,
    lemma_trim_keeps, to_uppercase, trim, trim_of, uppercase_of,
};
use vstd::prelude::*;

verus! {

/// Why a script needs batch execution. The variants stand in priority order:
/// where several conditions hold, the first one is the reason given.
#[derive(Clone, Copy, Debug, PartialEq, Eq, Structural)]
pub enum BatchReason {
    /// No condition holds: the script is one simple statement.
    NoReason,
    /// The script changes schema structure.
    Ddl,
    /// The script changes permissions.
    Dcl,
    /// The script defines a function or a procedure.
    FunctionOrProcedure,
    /// The script creates a table from a query.
    CreateTableAsSelect,
    /// The script holds more than one semicolon.
    MultipleStatements,
}

/// The outcome of classifying one script.
#[derive(Clone, Copy, Debug, PartialEq, Eq, Structural)]
pub struct ClassificationDecision {
    pub requires_batch: bool,
    pub reason: BatchReason,
}

impl ClassificationDecision {
    /// A decision asks for a batch exactly when it gives a reason. Every
    /// decision that classification hands out is of this kind.
    pub open spec fn is_coherent(self) -> bool {
        self.requires_batch <==> self.reason != BatchReason::NoReason
    }
}

/// The upper-cased text holds a keyword that changes schema structure.
pub open spec fn has_ddl(upper: Seq<char>) -> bool {
    ||| contains_text(upper, "CREATE "@)
    ||| contains_text(upper, "ALTER "@)
    ||| contains_text(upper, "DROP "@)
    ||| contains_text(upper, "TRUNCATE "@)
    ||| contains_text(upper, "COMMENT ON"@)
}

/// The upper-cased text holds a keyword that changes permissions.
pub open spec fn has_dcl(upper: Seq<char>) -> bool {
    ||| contains_text(upper, "GRANT "@)
    ||| contains_text(upper, "REVOKE "@)
}

/// The upper-cased text defines a function or a procedure.
pub open spec fn has_routine(upper: Seq<char>) -> bool {
    ||| contains_text(upper, "CREATE FUNCTION"@)
    ||| contains_text(upper, "CREATE OR REPLACE FUNCTION"@)
    ||| contains_text(upper, "CREATE PROCEDURE"@)
    ||| contains_text(upper, "CREATE OR REPLACE PROCEDURE"@)
}

/// The upper-cased text creates a table from a query.
pub open spec fn has_create_table_as(upper: Seq<char>) -> bool {
    contains_text(upper, "CREATE TABLE"@) && contains_text(upper, "AS SELECT"@)
}

/// The trimmed text holds more than one semicolon.
pub open spec fn has_multiple_statements(trimmed: Seq<char>) -> bool {
    count_of(trimmed, ';') > 1
}

/// The first condition that holds, in priority order.
pub open spec fn reason_for(upper: Seq<char>, trimmed: Seq<char>) -> BatchReason {
    if has_ddl(upper) {
        BatchReason::Ddl
    } else if has_dcl(upper) {
        BatchReason::Dcl
    } else if has_routine(upper) {
        BatchReason::FunctionOrProcedure
    } else if has_create_table_as(upper) {
        BatchReason::CreateTableAsSelect
    } else if has_multiple_statements(trimmed) {
        BatchReason::MultipleStatements
    } else {
        BatchReason::NoReason
    }
}

/// The decision for a script whose trimmed text is `trimmed` and whose trimmed,
/// upper-cased text is `upper`.
pub open spec fn decision_for(upper: Seq<char>, trimmed: Seq<char>) -> ClassificationDecision {
    ClassificationDecision {
        requires_batch: reason_for(upper, trimmed) != BatchReason::NoReason,
        reason: reason_for(upper, trimmed),
    }
}

/// The text that the keywords are looked for in: `sql` trimmed, then upper-cased.
pub open spec fn normalized(sql: Seq<char>) -> Seq<char> {
    uppercase_of(trim_of(sql))
}

/// The decision for the script `sql`.
pub open spec fn classification(sql: Seq<char>) -> ClassificationDecision {
    decision_for(normalized(sql), trim_of(sql))
}

/// The name under which a reason appears in messages. A simple statement has
/// no reason and so no name: its label is the empty text.
pub open spec fn reason_label(reason: BatchReason) -> Seq<char> {
    match reason {
        BatchReason::NoReason => ""@,
        BatchReason::Ddl => "DDL"@,
        BatchReason::Dcl => "DCL"@,
        BatchReason::FunctionOrProcedure => "FUNCTION/PROCEDURE"@,
        BatchReason::CreateTableAsSelect => "CREATE TABLE AS SELECT"@,
        BatchReason::MultipleStatements => "MÚLTIPLES STATEMENTS"@,
    }
}

impl BatchReason {
    /// The name under which this reason appears in messages.
    pub fn label(&self) -> (s: &'static str)
        ensures
            s@ == reason_label(*self),
    {
        match self {
            BatchReason::NoReason => "",
            BatchReason::Ddl => "DDL",
            BatchReason::Dcl => "DCL",
            BatchReason::FunctionOrProcedure => "FUNCTION/PROCEDURE",
            BatchReason::CreateTableAsSelect => "CREATE TABLE AS SELECT",
            BatchReason::MultipleStatements => "MÚLTIPLES STATEMENTS",
        }
    }
}

fn detect_ddl(upper: &Vec<char>) -> (b: bool)
    ensures
        b == has_ddl(upper@),
{
    contains(upper, "CREATE ") || contains(upper, "ALTER ") || contains(upper, "DROP ") || contains(
        upper,
        "TRUNCATE ",
    ) || contains(upper, "COMMENT ON")
}

fn detect_dcl(upper: &Vec<char>) -> (b: bool)
    ensures
        b == has_dcl(upper@),
{
    contains(upper, "GRANT ") || contains(upper, "REVOKE ")
}

fn detect_routine(upper: &Vec<char>) -> (b: bool)
    ensures
        b == has_routine(upper@),
{
    contains(upper, "CREATE FUNCTION") || contains(upper, "CREATE OR REPLACE FUNCTION") || contains(
        upper,
        "CREATE PROCEDURE",
    ) || contains(upper, "CREATE OR REPLACE PROCEDURE")
}

fn detect_create_table_as(upper: &Vec<char>) -> (b: bool)
    ensures
        b == has_create_table_as(upper@),
{
    contains(upper, "CREATE TABLE") && contains(upper, "AS SELECT")
}

/// Classifies a script from its two normal forms: `trimmed` is the script
/// without the white space around it, `upper` is `trimmed` in upper case.
pub fn classify_normalized(upper: &str, trimmed: &str) -> (d: ClassificationDecision)
    ensures
        d == decision_for(upper@, trimmed@),
        d.is_coherent(),
{
    let u = chars_of(upper);
    let reason = if detect_ddl(&u) {
        BatchReason::Ddl
    } else if detect_dcl(&u) {
        BatchReason::Dcl
    } else if detect_routine(&u) {
        BatchReason::FunctionOrProcedure
    } else if detect_create_table_as(&u) {
        BatchReason::CreateTableAsSelect
    } else {
        let t = chars_of(trimmed);
        if count_char(&t, ';') > 1 {
            BatchReason::MultipleStatements
        } else {
            BatchReason::NoReason
        }
    };
    let requires_batch = match reason {
        BatchReason::NoReason => false,
        _ => true,
    };
    ClassificationDecision { requires_batch, reason }
}

/// Classifies the script `sql`.
pub fn classify(sql: &str) -> (d: ClassificationDecision)
    ensures
        d == classification(sql@),
        d.is_coherent(),
{
    let trimmed = trim(sql);
    let upper = to_uppercase(trimmed);
    classify_normalized(upper.as_str(), trimmed)
}

/// Trimming removes no semicolon, since a semicolon is not white space.
pub proof fn lemma_trim_keeps_semicolons(sql: Seq<char>)
    ensures
        count_of(trim_of(sql), ';') == count_of(sql, ';'),
{
    lemma_trim_keeps(sql, ';');
}

/// A script with more than one semicolon always runs as a batch. The reason
/// given is `MultipleStatements` unless a keyword condition holds as well, in
/// which case the first of those in priority order is the reason.
pub proof fn lemma_many_semicolons_require_batch(sql: Seq<char>)
    requires
        count_of(sql, ';') > 1,
    ensures
        classification(sql).requires_batch,
        classification(sql).reason == (if has_ddl(normalized(sql)) {
            BatchReason::Ddl
        } else if has_dcl(normalized(sql)) {
            BatchReason::Dcl
        } else if has_routine(normalized(sql)) {
            BatchReason::FunctionOrProcedure
        } else if has_create_table_as(normalized(sql)) {
            BatchReason::CreateTableAsSelect
        } else {
            BatchReason::MultipleStatements
        }),
{
    lemma_trim_keeps_semicolons(sql);
}

/// Every routine definition and every `CREATE TABLE` begins with `CREATE `, so
/// the schema-change condition holds wherever one of those conditions holds.
pub proof fn lemma_create_is_ddl(upper: Seq<char>)
    ensures
        has_routine(upper) ==> has_ddl(upper),
        has_create_table_as(upper) ==> has_ddl(upper),
{
    reveal_strlit("CREATE ");
    reveal_strlit("CREATE FUNCTION");
    reveal_strlit("CREATE OR REPLACE FUNCTION");
    reveal_strlit("CREATE PROCEDURE");
    reveal_strlit("CREATE OR REPLACE PROCEDURE");
    reveal_strlit("CREATE TABLE");
    let create = "CREATE "@;
    if contains_text(upper, "CREATE FUNCTION"@) {
        assert("CREATE FUNCTION"@.subrange(0, 7) =~= create);
        lemma_contains_prefix(upper, "CREATE FUNCTION"@, create);
    }
    if contains_text(upper, "CREATE OR REPLACE FUNCTION"@) {
        assert("CREATE OR REPLACE FUNCTION"@.subrange(0, 7) =~= create);
        lemma_contains_prefix(upper, "CREATE OR REPLACE FUNCTION"@, create);
    }
    if contains_text(upper, "CREATE PROCEDURE"@) {
        assert("CREATE PROCEDURE"@.subrange(0, 7) =~= create);
        lemma_contains_prefix(upper, "CREATE PROCEDURE"@, create);
    }
    if contains_text(upper, "CREATE OR REPLACE PROCEDURE"@) {
        assert("CREATE OR REPLACE PROCEDURE"@.subrange(0, 7) =~= create);
        lemma_contains_prefix(upper, "CREATE OR REPLACE PROCEDURE"@, create);
    }
    if contains_text(upper, "CREATE TABLE"@) {
        assert("CREATE TABLE"@.subrange(0, 7) =~= create);
        lemma_contains_prefix(upper, "CREATE TABLE"@, create);
    }
}

/// A script that creates a table from a query always runs as a batch. The
/// reason given is `Ddl`: the schema-change condition holds of every such
/// script and stands first in the priority order.
pub proof fn lemma_create_table_as_select_requires_batch(sql: Seq<char>)
    requires
        contains_text(normalized(sql), "CREATE TABLE"@),
        contains_text(normalized(sql), "AS SELECT"@),
    ensures
        classification(sql).requires_batch,
        classification(sql).reason == BatchReason::Ddl,
{
    lemma_create_is_ddl(normalized(sql));
}

/// The priority order shadows two reasons: no script is ever given
/// `FunctionOrProcedure` or `CreateTableAsSelect` as its reason.
pub proof fn lemma_shadowed_reasons(upper: Seq<char>, trimmed: Seq<char>)
    ensures
        reason_for(upper, trimmed) != BatchReason::FunctionOrProcedure,
        reason_for(upper, trimmed) != BatchReason::CreateTableAsSelect,
{
    lemma_create_is_ddl(upper);
}

/// Every decision is coherent, and it asks for a batch exactly when one of
/// the five conditions holds.
pub proof fn lemma_batch_iff_reason(upper: Seq<char>, trimmed: Seq<char>)
    ensures
        decision_for(upper, trimmed).is_coherent(),
        decision_for(upper, trimmed).requires_batch <==> (has_ddl(upper) || has_dcl(upper)
            || has_routine(upper) || has_create_table_as(upper) || has_multiple_statements(
            trimmed,
        )),
{
}

} // verus!
