//! One invocation: a script and an ordered list of connections.
//!
//! The connections are served strictly one after the other. The invocation
//! classifies the script once, runs one execution per connection and collects
//! one result per connection, in the order of the connections. A failure on one
//! connection ends that execution only; the invocation goes on with the next.
//!
//! Like the execution it is a machine that decides and leaves the acting to its
//! caller: `begin` and `advance` hand out the next command until there is none.

use crate::classifier::{classification, classify, ClassificationDecision};
use crate::connection::{missing_credential, ConnectionView, DatabaseConnection};
use crate::executor::{
    awaits_reply, failure_of, lemma_start, lemma_step, lemma_step_makes_progress, phase_fits,
    progress, start, start_spec, step, step_spec, Command, CommandView, Phase, Reply, ReplyView,
};
use crate::report::{result_views, ErrorView, ExecutionResult, ResultView};
use vstd::prelude::*;

verus! {

/// Where an invocation stands.
#[derive(Clone, Copy, Debug, PartialEq, Eq, Structural)]
pub enum Stage {
    /// The execution on the first connection without a result is in this phase.
    Running(Phase),
    /// The last result is in; its connection is being closed.
    Closing,
    /// Every connection has its result.
    Finished,
}

/// An invocation under way.
#[derive(Debug)]
pub struct Invocation {
    sql: String,
    decision: ClassificationDecision,
    connections: Vec<DatabaseConnection>,
    results: Vec<ExecutionResult>,
    stage: Stage,
}

/// The mathematical value of an `Invocation`.
pub struct InvocationView {
    pub sql: Seq<char>,
    pub connections: Seq<ConnectionView>,
    /// The results so far: one for each of the first connections.
    pub results: Seq<ResultView>,
    pub stage: Stage,
}

/// The values of a list of connections.
pub open spec fn connection_views(cs: Seq<DatabaseConnection>) -> Seq<ConnectionView> {
    cs.map_values(|c: DatabaseConnection| c@)
}

/// The value of a command that may be absent.
pub open spec fn command_view(c: Option<Command>) -> Option<CommandView> {
    match c {
        Some(c) => Some(c@),
        None => None,
    }
}

impl View for Invocation {
    type V = InvocationView;

    closed spec fn view(&self) -> InvocationView {
        InvocationView {
            sql: self.sql@,
            connections: connection_views(self.connections@),
            results: result_views(self.results@),
            stage: self.stage,
        }
    }
}

/// `result` is a result for `conn`: it carries the identifier of `conn`, and
/// where `conn` lacks a required field it is the failure that says so.
pub open spec fn reported_for(conn: ConnectionView, result: ResultView) -> bool {
    &&& result.connection_id == conn.id
    &&& missing_credential(conn) matches Some(m) ==> result == failure_of(
        conn.id,
        ErrorView::InvalidSpec(m),
    )
}

/// The results belong, in order, to the first of the connections.
pub open spec fn results_fit(connections: Seq<ConnectionView>, results: Seq<ResultView>) -> bool {
    &&& results.len() <= connections.len()
    &&& forall|i: int|
        0 <= i < results.len() ==> reported_for(connections[i], #[trigger] results[i])
}

/// What holds of every invocation at every moment.
pub open spec fn consistent(inv: InvocationView) -> bool {
    &&& results_fit(inv.connections, inv.results)
    &&& match inv.stage {
        Stage::Running(phase) => {
            &&& inv.results.len() < inv.connections.len()
            &&& awaits_reply(phase)
            &&& phase_fits(phase, inv.connections[inv.results.len() as int], classification(inv.sql))
        },
        Stage::Closing => {
            &&& inv.results.len() >= 1
            &&& missing_credential(inv.connections[inv.results.len() - 1]) is None
        },
        Stage::Finished => inv.results.len() == inv.connections.len(),
    }
}

/// Goes on with the first connection that has no result: starts executions
/// until one asks for a connection, taking the result of each that fails at
/// once; finishes where no connection is left.
pub open spec fn open_next(
    sql: Seq<char>,
    connections: Seq<ConnectionView>,
    results: Seq<ResultView>,
) -> (InvocationView, Option<CommandView>)
    decreases connections.len() - results.len(),
{
    if results.len() >= connections.len() {
        (InvocationView { sql, connections, results, stage: Stage::Finished }, None)
    } else {
        let s = start_spec(connections[results.len() as int]);
        match s.result {
            Some(r) => open_next(sql, connections, results.push(r)),
            None => (
                InvocationView { sql, connections, results, stage: Stage::Running(s.phase) },
                s.command,
            ),
        }
    }
}

/// The invocation of `sql` on `connections` at its beginning, with its first command.
pub open spec fn begin_spec(sql: Seq<char>, connections: Seq<ConnectionView>) -> (
    InvocationView,
    Option<CommandView>,
) {
    open_next(sql, connections, Seq::empty())
}

/// The invocation after `reply` has come in for the command in flight, with
/// its next command. A finished invocation stays as it is.
pub open spec fn advance_spec(inv: InvocationView, reply: ReplyView) -> (
    InvocationView,
    Option<CommandView>,
) {
    match inv.stage {
        Stage::Finished => (inv, None),
        Stage::Closing => open_next(inv.sql, inv.connections, inv.results),
        Stage::Running(phase) => {
            let s = step_spec(
                phase,
                inv.connections[inv.results.len() as int],
                inv.sql,
                classification(inv.sql),
                reply,
            );
            match (s.result, s.command) {
                (None, _) => (InvocationView { stage: Stage::Running(s.phase), ..inv }, s.command),
                (Some(r), Some(c)) => (
                    InvocationView { results: inv.results.push(r), stage: Stage::Closing, ..inv },
                    Some(c),
                ),
                (Some(r), None) => open_next(inv.sql, inv.connections, inv.results.push(r)),
            }
        },
    }
}

/// The index of the connection that the command in flight is for.
pub open spec fn target(inv: InvocationView) -> int {
    match inv.stage {
        Stage::Running(_) => inv.results.len() as int,
        _ => inv.results.len() - 1,
    }
}

/// A bound on the replies that an invocation still takes before it is
/// finished: at most eight for each connection without a result.
pub open spec fn replies_left(inv: InvocationView) -> int {
    match inv.stage {
        Stage::Finished => 0,
        Stage::Closing => 8 * (inv.connections.len() - inv.results.len()) + 1,
        Stage::Running(phase) => 8 * (inv.connections.len() - inv.results.len()) + 1 - progress(
            phase,
        ),
    }
}

proof fn lemma_results_fit_push(
    connections: Seq<ConnectionView>,
    results: Seq<ResultView>,
    r: ResultView,
)
    requires
        results_fit(connections, results),
        results.len() < connections.len(),
        reported_for(connections[results.len() as int], r),
    ensures
        results_fit(connections, results.push(r)),
        results.push(r).take(results.len() as int) == results,
{
    let pushed = results.push(r);
    assert forall|i: int| 0 <= i < pushed.len() implies reported_for(
        connections[i],
        #[trigger] pushed[i],
    ) by {
        if i < results.len() {
            assert(pushed[i] == results[i]);
        }
    }
    assert(pushed.take(results.len() as int) =~= results);
}

proof fn lemma_open_next(
    sql: Seq<char>,
    connections: Seq<ConnectionView>,
    results: Seq<ResultView>,
)
    requires
        results_fit(connections, results),
    ensures
        consistent(open_next(sql, connections, results).0),
        open_next(sql, connections, results).0.sql == sql,
        open_next(sql, connections, results).0.connections == connections,
        results.len() <= open_next(sql, connections, results).0.results.len(),
        open_next(sql, connections, results).0.results.take(results.len() as int) == results,
        open_next(sql, connections, results).1 is Some <==> open_next(
            sql,
            connections,
            results,
        ).0.stage != Stage::Finished,
        open_next(sql, connections, results).1 is Some ==> open_next(
            sql,
            connections,
            results,
        ).1->0 is Connect,
        0 <= replies_left(open_next(sql, connections, results).0) <= 8 * (connections.len()
            - results.len()),
    decreases connections.len() - results.len(),
{
    assert(results.take(results.len() as int) =~= results);
    if results.len() < connections.len() {
        let conn = connections[results.len() as int];
        lemma_start(conn);
        match start_spec(conn).result {
            Some(r) => {
                let pushed = results.push(r);
                lemma_results_fit_push(connections, results, r);
                lemma_open_next(sql, connections, pushed);
                let last = open_next(sql, connections, pushed).0.results;
                assert(last.take(results.len() as int) =~= last.take(pushed.len() as int).take(
                    results.len() as int,
                ));
            },
            None => {},
        }
    }
}

/// An invocation is consistent from its beginning.
pub proof fn lemma_begin_consistent(sql: Seq<char>, connections: Seq<ConnectionView>)
    ensures
        consistent(begin_spec(sql, connections).0),
        begin_spec(sql, connections).0.sql == sql,
        begin_spec(sql, connections).0.connections == connections,
{
    lemma_open_next(sql, connections, Seq::empty());
}

/// A consistent invocation stays consistent. Its script and its connections
/// never change, and the results that are in stay as they are.
pub proof fn lemma_advance_consistent(inv: InvocationView, reply: ReplyView)
    requires
        consistent(inv),
    ensures
        consistent(advance_spec(inv, reply).0),
        advance_spec(inv, reply).0.sql == inv.sql,
        advance_spec(inv, reply).0.connections == inv.connections,
        inv.results.len() <= advance_spec(inv, reply).0.results.len(),
        advance_spec(inv, reply).0.results.take(inv.results.len() as int) == inv.results,
{
    assert(inv.results.take(inv.results.len() as int) =~= inv.results);
    match inv.stage {
        Stage::Finished => {},
        Stage::Closing => {
            lemma_open_next(inv.sql, inv.connections, inv.results);
        },
        Stage::Running(phase) => {
            let conn = inv.connections[inv.results.len() as int];
            lemma_step(phase, conn, inv.sql, classification(inv.sql), reply);
            let s = step_spec(phase, conn, inv.sql, classification(inv.sql), reply);
            match s.result {
                None => {},
                Some(r) => {
                    let pushed = inv.results.push(r);
                    lemma_results_fit_push(inv.connections, inv.results, r);
                    if s.command is None {
                        lemma_open_next(inv.sql, inv.connections, pushed);
                        let last = open_next(inv.sql, inv.connections, pushed).0.results;
                        assert(last.take(inv.results.len() as int) =~= last.take(
                            pushed.len() as int,
                        ).take(inv.results.len() as int));
                    }
                },
            }
        },
    }
}

/// A finished invocation holds exactly one result per connection, in the
/// order of the connections, and each result carries the identifier of its
/// connection.
pub proof fn lemma_one_result_per_connection(inv: InvocationView)
    requires
        consistent(inv),
        inv.stage == Stage::Finished,
    ensures
        inv.results.len() == inv.connections.len(),
        forall|i: int|
            0 <= i < inv.connections.len() ==> (#[trigger] inv.results[i]).connection_id
                == inv.connections[i].id,
{
}

/// A connection that lacks a required field gets the failure that says so,
/// at its own place in the results.
pub proof fn lemma_missing_credential_is_reported(inv: InvocationView, i: int)
    requires
        consistent(inv),
        0 <= i < inv.results.len(),
        missing_credential(inv.connections[i]) is Some,
    ensures
        inv.results[i] == failure_of(
            inv.connections[i].id,
            ErrorView::InvalidSpec(missing_credential(inv.connections[i])->0),
        ),
        !inv.results[i].success,
{
}

/// No command is ever handed out for a connection that lacks a required
/// field: whatever command is in flight, the connection it is for is complete.
pub proof fn lemma_commands_only_for_complete_connections(inv: InvocationView)
    requires
        consistent(inv),
        inv.stage != Stage::Finished,
    ensures
        0 <= target(inv) < inv.connections.len(),
        missing_credential(inv.connections[target(inv)]) is None,
{
}

/// Every invocation comes to its end: each reply brings an unfinished
/// invocation closer to being finished, and no invocation takes more than
/// eight replies for each of its connections.
pub proof fn lemma_advance_comes_closer(inv: InvocationView, reply: ReplyView)
    requires
        consistent(inv),
        inv.stage != Stage::Finished,
    ensures
        0 <= replies_left(advance_spec(inv, reply).0) < replies_left(inv),
        replies_left(inv) <= 8 * inv.connections.len() + 1,
{
    match inv.stage {
        Stage::Finished => {},
        Stage::Closing => {
            lemma_open_next(inv.sql, inv.connections, inv.results);
        },
        Stage::Running(phase) => {
            let conn = inv.connections[inv.results.len() as int];
            let decision = classification(inv.sql);
            lemma_step(phase, conn, inv.sql, decision, reply);
            lemma_step_makes_progress(phase, conn, inv.sql, decision, reply);
            let s = step_spec(phase, conn, inv.sql, decision, reply);
            if s.result is Some && s.command is None {
                lemma_results_fit_push(inv.connections, inv.results, s.result->0);
                lemma_open_next(inv.sql, inv.connections, inv.results.push(s.result->0));
            }
        },
    }
}

/// An invocation at its beginning needs at most eight replies for each of
/// its connections.
pub proof fn lemma_begin_bound(sql: Seq<char>, connections: Seq<ConnectionView>)
    ensures
        0 <= replies_left(begin_spec(sql, connections).0) <= 8 * connections.len(),
{
    lemma_open_next(sql, connections, Seq::empty());
}

impl Invocation {
    #[verifier::type_invariant]
    closed spec fn well_formed(self) -> bool {
        &&& self.decision == classification(self.sql@)
        &&& consistent(self@)
    }

    #[verifier::loop_isolation(false)]
    fn go_on(
        sql: String,
        decision: ClassificationDecision,
        connections: Vec<DatabaseConnection>,
        results: Vec<ExecutionResult>,
    ) -> (r: (Invocation, Option<Command>))
        requires
            decision == classification(sql@),
            results_fit(connection_views(connections@), result_views(results@)),
        ensures
            (r.0@, command_view(r.1)) == open_next(
                sql@,
                connection_views(connections@),
                result_views(results@),
            ),
    {
        let ghost targets = connection_views(connections@);
        let ghost initial = result_views(results@);
        let mut results = results;
        loop
            invariant
                results_fit(targets, result_views(results@)),
                open_next(sql@, targets, result_views(results@)) == open_next(
                    sql@,
                    targets,
                    initial,
                ),
            decreases connections.len() - results.len(),
        {
            let ghost current = result_views(results@);
            proof {
                lemma_open_next(sql@, targets, current);
            }
            let i = results.len();
            if i >= connections.len() {
                let done = Invocation { sql, decision, connections, results, stage: Stage::Finished };
                return (done, None);
            }
            let s = start(&connections[i]);
            proof {
                lemma_start(connections[i as int]@);
            }
            match s.result {
                Some(r) => {
                    results.push(r);
                    proof {
                        lemma_results_fit_push(targets, current, r@);
                        assert(result_views(results@) =~= current.push(r@));
                    }
                },
                None => {
                    let going = Invocation {
                        sql,
                        decision,
                        connections,
                        results,
                        stage: Stage::Running(s.phase),
                    };
                    return (going, s.command);
                },
            }
        }
    }

    /// Begins the invocation of `sql` on `connections` and hands out its first
    /// command, if there is one.
    pub fn begin(sql: String, connections: Vec<DatabaseConnection>) -> (r: (
        Invocation,
        Option<Command>,
    ))
        ensures
            (r.0@, command_view(r.1)) == begin_spec(sql@, connection_views(connections@)),
            consistent(r.0@),
            r.0@.sql == sql@,
            r.0@.connections == connection_views(connections@),
    {
        let decision = classify(sql.as_str());
        let results: Vec<ExecutionResult> = Vec::new();
        proof {
            assert(result_views(results@) =~= Seq::<ResultView>::empty());
            lemma_begin_consistent(sql@, connection_views(connections@));
        }
        Self::go_on(sql, decision, connections, results)
    }

    /// Takes the reply to the command in flight and hands out the next
    /// command, if there is one. Once the invocation is finished there is none,
    /// and the reply is ignored.
    pub fn advance(self, reply: Reply) -> (r: (Invocation, Option<Command>))
        ensures
            (r.0@, command_view(r.1)) == advance_spec(self@, reply@),
            consistent(self@),
            consistent(r.0@),
            r.0@.sql == self@.sql,
            r.0@.connections == self@.connections,
            r.0@.results.take(self@.results.len() as int) == self@.results,
    {
        proof {
            use_type_invariant(&self);
            lemma_advance_consistent(self@, reply@);
        }
        let ghost before = self@;
        let Invocation { sql, decision, connections, results, stage } = self;
        match stage {
            Stage::Finished => (Invocation { sql, decision, connections, results, stage }, None),
            Stage::Closing => Self::go_on(sql, decision, connections, results),
            Stage::Running(phase) => {
                let i = results.len();
                let s = step(phase, &connections[i], sql.as_str(), decision, reply);
                proof {
                    lemma_step(phase, connections[i as int]@, sql@, decision, reply@);
                }
                match s.result {
                    None => {
                        let going = Invocation {
                            sql,
                            decision,
                            connections,
                            results,
                            stage: Stage::Running(s.phase),
                        };
                        (going, s.command)
                    },
                    Some(r) => {
                        let mut results = results;
                        results.push(r);
                        proof {
                            lemma_results_fit_push(before.connections, before.results, r@);
                            assert(result_views(results@) =~= before.results.push(r@));
                        }
                        match s.command {
                            Some(c) => {
                                let closing = Invocation {
                                    sql,
                                    decision,
                                    connections,
                                    results,
                                    stage: Stage::Closing,
                                };
                                (closing, Some(c))
                            },
                            None => Self::go_on(sql, decision, connections, results),
                        }
                    },
                }
            },
        }
    }

    /// Whether every connection has its result.
    pub fn is_finished(&self) -> (b: bool)
        ensures
            b == (self@.stage == Stage::Finished),
    {
        match self.stage {
            Stage::Finished => true,
            _ => false,
        }
    }

    /// Where the invocation stands.
    pub fn stage(&self) -> (s: Stage)
        ensures
            s == self@.stage,
    {
        self.stage
    }

    /// The index of the connection that the command in flight is for; none
    /// once the invocation is finished.
    pub fn target_index(&self) -> (i: Option<usize>)
        ensures
            match i {
                Some(i) => self@.stage != Stage::Finished && i == target(self@) && i
                    < self@.connections.len(),
                None => self@.stage == Stage::Finished,
            },
    {
        proof {
            use_type_invariant(self);
        }
        match self.stage {
            Stage::Running(_) => Some(self.results.len()),
            Stage::Closing => Some(self.results.len() - 1),
            Stage::Finished => None,
        }
    }

    /// The results so far.
    pub fn results(&self) -> (r: &Vec<ExecutionResult>)
        ensures
            result_views(r@) == self@.results,
            consistent(self@),
    {
        proof {
            use_type_invariant(self);
        }
        &self.results
    }

    /// Gives up the invocation for its results. Of a finished invocation these
    /// are the results of all its connections, in the order of the connections.
    pub fn into_results(self) -> (r: Vec<ExecutionResult>)
        ensures
            result_views(r@) == self@.results,
            consistent(self@),
            self@.stage == Stage::Finished ==> {
                &&& r.len() == self@.connections.len()
                &&& forall|i: int|
                    0 <= i < r.len() ==> (#[trigger] r[i]).connection_id@
                        == self@.connections[i].id
            },
    {
        proof {
            use_type_invariant(&self);
            assert forall|i: int| 0 <= i < self.results.len() implies (
            #[trigger] self.results[i]).connection_id@ == self@.results[i].connection_id by {}
        }
        self.results
    }
}

} // verus!
