use tenant_forge::classifier::{classify, classify_normalized, BatchReason, ClassificationDecision};

fn batch(reason: BatchReason) -> ClassificationDecision {
    ClassificationDecision { requires_batch: true, reason }
}

fn simple() -> ClassificationDecision {
    ClassificationDecision { requires_batch: false, reason: BatchReason::NoReason }
}

#[test]
fn single_insert_is_simple() {
    assert_eq!(classify("INSERT INTO t VALUES (1);"), simple());
    assert_eq!(classify("update t set a = 1"), simple());
    assert_eq!(classify(""), simple());
}

#[test]
fn each_schema_keyword_is_ddl() {
    assert_eq!(classify("CREATE TABLE t (id INT)"), batch(BatchReason::Ddl));
    assert_eq!(classify("ALTER TABLE t ADD c INT"), batch(BatchReason::Ddl));
    assert_eq!(classify("DROP TABLE t"), batch(BatchReason::Ddl));
    assert_eq!(classify("TRUNCATE t"), batch(BatchReason::Ddl));
    assert_eq!(classify("COMMENT ON TABLE t IS 'x'"), batch(BatchReason::Ddl));
}

#[test]
fn grant_and_revoke_are_dcl() {
    assert_eq!(classify("GRANT SELECT ON t TO u"), batch(BatchReason::Dcl));
    assert_eq!(classify("REVOKE SELECT ON t FROM u"), batch(BatchReason::Dcl));
}

#[test]
fn keywords_are_found_in_any_case() {
    assert_eq!(classify("create table t (id int)"), batch(BatchReason::Ddl));
    assert_eq!(classify("Drop Table t"), batch(BatchReason::Ddl));
    assert_eq!(classify("grant select on t to u"), batch(BatchReason::Dcl));
    assert_eq!(classify("comment on table t is 'x'"), batch(BatchReason::Ddl));
}

#[test]
fn more_than_one_semicolon_is_multiple_statements() {
    assert_eq!(
        classify("INSERT INTO t VALUES (1); INSERT INTO t VALUES (2);"),
        batch(BatchReason::MultipleStatements)
    );
    assert_eq!(classify(";;"), batch(BatchReason::MultipleStatements));
    assert_eq!(classify("SELECT 1;"), simple());
}

#[test]
fn ddl_wins_over_every_other_reason() {
    assert_eq!(
        classify("CREATE TABLE t (id INT); INSERT INTO t VALUES (1);"),
        batch(BatchReason::Ddl)
    );
    assert_eq!(classify("GRANT ALL ON t TO u; DROP TABLE t;"), batch(BatchReason::Ddl));
}

#[test]
fn dcl_wins_over_multiple_statements() {
    assert_eq!(
        classify("GRANT SELECT ON t TO u; REVOKE SELECT ON t FROM v;"),
        batch(BatchReason::Dcl)
    );
}

#[test]
fn create_table_as_select_is_reported_as_ddl() {
    assert_eq!(classify("CREATE TABLE b AS SELECT * FROM a"), batch(BatchReason::Ddl));
    assert_eq!(classify("with x as select 1 create table b"), batch(BatchReason::Ddl));
}

#[test]
fn routine_definitions_are_reported_as_ddl() {
    assert_eq!(
        classify("CREATE FUNCTION f() RETURNS int AS $$ SELECT 1 $$ LANGUAGE sql"),
        batch(BatchReason::Ddl)
    );
    assert_eq!(
        classify("create or replace procedure p() language sql as $$ select 1 $$"),
        batch(BatchReason::Ddl)
    );
}

#[test]
fn keyword_at_the_very_end_loses_its_space_to_trimming() {
    assert_eq!(classify("DROP "), simple());
    assert_eq!(classify("x GRANT \n"), simple());
    assert_eq!(classify("DROP x"), batch(BatchReason::Ddl));
}

#[test]
fn keywords_need_their_trailing_space() {
    assert_eq!(classify("SELECT created FROM t"), simple());
    assert_eq!(classify("SELECT dropped, altered FROM granted"), simple());
}

#[test]
fn text_inside_a_string_literal_counts_too() {
    assert_eq!(
        classify("INSERT INTO t VALUES ('a;b;c')"),
        batch(BatchReason::MultipleStatements)
    );
    assert_eq!(classify("INSERT INTO t VALUES ('please drop this')"), batch(BatchReason::Ddl));
}

#[test]
fn white_space_around_the_script_is_ignored() {
    assert_eq!(classify("   \n INSERT INTO t VALUES (1);  \n"), simple());
    assert_eq!(classify("\n\n  alter table t add c int  \n"), batch(BatchReason::Ddl));
}

#[test]
fn normalized_forms_are_taken_as_given() {
    assert_eq!(classify_normalized("SELECT 1", "select 1"), simple());
    assert_eq!(classify_normalized("drop table t", "drop table t"), simple());
    assert_eq!(classify_normalized("DROP TABLE T", "drop table t"), batch(BatchReason::Ddl));
    assert_eq!(
        classify_normalized("SELECT 1", "a;b;"),
        batch(BatchReason::MultipleStatements)
    );
    assert_eq!(classify_normalized("A;B;", "select 1"), simple());
    assert_eq!(classify_normalized("REVOKE X", ";;;"), batch(BatchReason::Dcl));
}

#[test]
fn labels_name_the_reasons() {
    assert_eq!(BatchReason::NoReason.label(), "");
    assert_eq!(BatchReason::Ddl.label(), "DDL");
    assert_eq!(BatchReason::Dcl.label(), "DCL");
    assert_eq!(BatchReason::FunctionOrProcedure.label(), "FUNCTION/PROCEDURE");
    assert_eq!(BatchReason::CreateTableAsSelect.label(), "CREATE TABLE AS SELECT");
    assert_eq!(BatchReason::MultipleStatements.label(), "MÚLTIPLES STATEMENTS");
}
