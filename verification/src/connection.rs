//! The connection: its transaction state, and what it asks of the native layer
//! for each statement.
//!
//! The native calls block, so the caller carries them out: the connection says
//! which call comes next, and takes the outcome of the call to settle its state
//! and the result.

use vstd::prelude::*;
use crate::driver::{exchanged, lemma_exchange_without_question_mark, OracleDriver};
use crate::encode::{bind_view, encoding_of, param_of, Bind, Encode, ParamView};
use crate::text::same_text;
use crate::value::{Error, ErrorView, Value, ValueView};

verus! {

/// A statement that controls the transaction instead of reaching the engine.
#[derive(Debug, Clone, Copy, PartialEq, Eq, Structural)]
pub enum Control {
    /// `begin`: a transaction is opened.
    Begin,
    /// `commit`: the open transaction is committed.
    Commit,
    /// `rollback`: the open transaction is rolled back.
    Rollback,
}

/// The control that a statement stands for; `None` for a statement of the engine.
/// Only the three literal texts are controls.
pub open spec fn control_of(sql: Seq<char>) -> Option<Control> {
    if sql == "begin"@ {
        Some(Control::Begin)
    } else if sql == "commit"@ {
        Some(Control::Commit)
    } else if sql == "rollback"@ {
        Some(Control::Rollback)
    } else {
        None
    }
}

/// The control that a statement stands for.
pub fn classify(sql: &str) -> (r: Option<Control>)
    ensures
        r == control_of(sql@),
{
    if same_text(sql, "begin") {
        Some(Control::Begin)
    } else if same_text(sql, "commit") {
        Some(Control::Commit)
    } else if same_text(sql, "rollback") {
        Some(Control::Rollback)
    } else {
        None
    }
}

/// The result of executing a statement.
#[derive(Debug)]
pub struct ExecResult {
    /// The number of rows that the statement affected.
    pub rows_affected: u64,
    /// The values of the statement's bind variables after the execution; `None`
    /// for a control.
    pub last_insert_id: Option<Vec<Value>>,
}

/// The models of the values of a list.
pub open spec fn values_view(values: Seq<Value>) -> Seq<ValueView> {
    values.map_values(|v: Value| v@)
}

impl ExecResult {
    /// Whether the result is that of a control: no row affected, no value returned.
    pub open spec fn is_empty(&self) -> bool {
        self.rows_affected == 0 && self.last_insert_id is None
    }

    /// The result of a control.
    pub fn empty() -> (r: ExecResult)
        ensures
            r.is_empty(),
    {
        ExecResult { rows_affected: 0, last_insert_id: None }
    }
}

/// What the connection asks of the native layer for a statement.
#[derive(Debug)]
pub enum ExecStep {
    /// Nothing: the statement is answered with this result.
    Done(ExecResult),
    /// A native commit.
    Commit,
    /// A native rollback.
    Rollback,
    /// The execution of the rewritten statement `sql`, and a native commit right
    /// after it where `autocommit` is set.
    Run { sql: String, autocommit: bool },
}

/// The mathematical model of an [`ExecStep`].
pub enum StepView {
    Done,
    Commit,
    Rollback,
    Run { sql: Seq<char>, autocommit: bool },
}

/// The step that a statement takes on a connection whose transaction flag is
/// `in_transaction`.
pub open spec fn step_of(in_transaction: bool, sql: Seq<char>) -> StepView {
    match control_of(sql) {
        Some(Control::Begin) => StepView::Done,
        Some(Control::Commit) => StepView::Commit,
        Some(Control::Rollback) => StepView::Rollback,
        None => StepView::Run { sql: exchanged(sql), autocommit: !in_transaction },
    }
}

/// The transaction flag after a statement was taken up: `begin` sets it, and no
/// other statement changes it before the native layer has answered.
pub open spec fn flag_after_step(in_transaction: bool, sql: Seq<char>) -> bool {
    control_of(sql) == Some(Control::Begin) || in_transaction
}

/// The transaction flag after a native commit or rollback: cleared where the
/// call succeeded, unchanged where it failed.
pub open spec fn flag_after_control(in_transaction: bool, succeeded: bool) -> bool {
    !succeeded && in_transaction
}

/// The state of one connection: whether a transaction is open. Without one,
/// every executed statement is committed at once.
#[derive(Debug)]
pub struct OracleConnection {
    /// Whether a transaction is open.
    pub is_trans: bool,
}

impl OracleConnection {
    /// The connection that a native connect yields: with no open transaction
    /// where the connect succeeded, and the native error where it failed.
    pub fn establish(connected: Result<(), String>) -> (r: Result<OracleConnection, Error>)
        ensures
            match connected {
                Ok(_) => r matches Ok(c) && !c.is_trans,
                Err(text) => r matches Err(e) && e@ == ErrorView::Native(text@),
            },
    {
        match connected {
            Ok(_) => Ok(OracleConnection { is_trans: false }),
            Err(text) => Err(Error::Native(text)),
        }
    }

    /// Takes up a statement for execution and says what the native layer is to
    /// do for it. `begin` opens a transaction and asks nothing of the native
    /// layer; `commit` and `rollback` ask for the native call and leave the state
    /// to [`OracleConnection::finish_control`]; every other statement is rewritten
    /// and run, with a commit right after it unless a transaction is open.
    pub fn begin_exec(&mut self, sql: &str) -> (step: ExecStep)
        ensures
            final(self).is_trans == flag_after_step(old(self).is_trans, sql@),
            match step {
                ExecStep::Done(result) => step_of(old(self).is_trans, sql@) is Done
                    && result.is_empty(),
                ExecStep::Commit => step_of(old(self).is_trans, sql@) is Commit,
                ExecStep::Rollback => step_of(old(self).is_trans, sql@) is Rollback,
                ExecStep::Run { sql: rewritten, autocommit } => step_of(old(self).is_trans, sql@)
                    == (StepView::Run { sql: rewritten@, autocommit }),
            },
    {
        match classify(sql) {
            Some(Control::Begin) => {
                self.is_trans = true;
                ExecStep::Done(ExecResult::empty())
            },
            Some(Control::Commit) => ExecStep::Commit,
            Some(Control::Rollback) => ExecStep::Rollback,
            None => {
                let driver = OracleDriver {  };
                ExecStep::Run { sql: driver.pub_exchange(sql), autocommit: !self.is_trans }
            },
        }
    }

    /// Settles a native commit or rollback. Where the call succeeded the
    /// transaction is closed and the result is empty; where it failed the state
    /// stays and the native error is reported.
    pub fn finish_control(&mut self, outcome: Result<(), String>) -> (r: Result<ExecResult, Error>)
        ensures
            final(self).is_trans == flag_after_control(old(self).is_trans, outcome is Ok),
            match outcome {
                Ok(_) => r matches Ok(result) && result.is_empty(),
                Err(text) => r matches Err(e) && e@ == ErrorView::Native(text@),
            },
    {
        match outcome {
            Ok(_) => {
                self.is_trans = false;
                Ok(ExecResult::empty())
            },
            Err(text) => Err(Error::Native(text)),
        }
    }
}

/// The value of a bind variable after the execution: its text, or `Null` where
/// the native layer gave none.
pub open spec fn returned_value(fetched: Option<String>) -> ValueView {
    match fetched {
        Some(t) => ValueView::String(t@),
        None => ValueView::Null,
    }
}

/// The values of the bind variables after the execution, in the order of their
/// positions.
pub open spec fn returned_values(fetched: Seq<Option<String>>) -> Seq<ValueView> {
    fetched.map_values(|f: Option<String>| returned_value(f))
}

/// The result of an executed statement, from the count of affected rows and from
/// what the native layer gave for each bind variable, in the order of their
/// positions.
pub fn finish_run(rows_affected: u64, fetched: Vec<Option<String>>) -> (r: ExecResult)
    ensures
        r.rows_affected == rows_affected,
        r.last_insert_id matches Some(values) && values_view(values@) == returned_values(
            fetched@,
        ),
{
    let ghost all = fetched@;
    let mut values: Vec<Value> = Vec::new();
    for item in it: fetched
        invariant
            it.seq() == all,
            values@.len() == it.index(),
            forall|i: int|
                0 <= i < values@.len() ==> (#[trigger] values@[i])@ == returned_value(all[i]),
    {
        match item {
            Some(t) => values.push(Value::String(t)),
            None => values.push(Value::Null),
        }
    }
    assert(values_view(values@) =~= returned_values(all));
    ExecResult { rows_affected, last_insert_id: Some(values) }
}

/// The native error of a call that failed, as an error of the adapter.
pub fn native_outcome(outcome: Result<(), String>) -> (r: Result<(), Error>)
    ensures
        match outcome {
            Ok(_) => r is Ok,
            Err(text) => r matches Err(e) && e@ == ErrorView::Native(text@),
        },
{
    match outcome {
        Ok(_) => Ok(()),
        Err(text) => Err(Error::Native(text)),
    }
}

/// Encodes the parameters of a statement, each at the position of its index. The
/// first parameter that cannot be encoded ends the encoding with its error.
pub fn encode_all(params: Vec<Value>) -> (r: Result<Vec<Bind>, Error>)
    ensures
        match r {
            Ok(binds) => binds@.len() == params@.len() && forall|i: int|
                0 <= i < params@.len() ==> bind_view(Ok(#[trigger] binds@[i])) == encoding_of(
                    params@[i]@,
                    i,
                ),
            Err(e) => exists|k: int|
                0 <= k < params@.len() && param_of(#[trigger] params@[k]@) == Err::<
                    ParamView,
                    ErrorView,
                >(e@) && forall|j: int| 0 <= j < k ==> param_of(#[trigger] params@[j]@) is Ok,
        },
{
    let ghost all = params@;
    let count: usize = params.len();
    let mut binds: Vec<Bind> = Vec::new();
    for value in it: params
        invariant
            it.seq() == all,
            all.len() == count,
            binds@.len() == it.index(),
            forall|i: int|
                0 <= i < binds@.len() ==> bind_view(Ok(#[trigger] binds@[i])) == encoding_of(
                    all[i]@,
                    i,
                ),
            forall|j: int| 0 <= j < binds@.len() ==> param_of(#[trigger] all[j]@) is Ok,
    {
        let idx: usize = binds.len();
        match value.encode(idx) {
            Ok(bind) => binds.push(bind),
            Err(e) => {
                assert(param_of(all[idx as int]@) == Err::<ParamView, ErrorView>(e@));
                return Err(e);
            },
        }
    }
    Ok(binds)
}

/// While a transaction is open nothing is committed behind the caller: `begin`
/// opens a transaction from either state, a statement of the engine that follows
/// runs without a commit and leaves the transaction open, and a `rollback` after
/// it reaches the native layer and, once it succeeded, closes the transaction.
pub proof fn lemma_transaction_suspends_autocommit(before: bool, statement: Seq<char>)
    requires
        control_of(statement) is None,
    ensures
        step_of(before, "begin"@) is Done,
        flag_after_step(before, "begin"@),
        step_of(true, statement) == (StepView::Run { sql: exchanged(statement), autocommit: false }),
        flag_after_step(true, statement),
        step_of(true, "rollback"@) is Rollback,
        step_of(true, "commit"@) is Commit,
        !flag_after_control(true, true),
        flag_after_control(true, false),
{
    reveal_strlit("begin");
    reveal_strlit("commit");
    reveal_strlit("rollback");
    assert("commit"@.len() != "begin"@.len());
    assert("rollback"@.len() != "begin"@.len());
    assert("rollback"@.len() != "commit"@.len());
}

/// Without an open transaction every statement of the engine is committed right
/// after it ran, and no transaction is open afterwards.
pub proof fn lemma_idle_autocommits(statement: Seq<char>)
    requires
        control_of(statement) is None,
    ensures
        step_of(false, statement) == (StepView::Run { sql: exchanged(statement), autocommit: true }),
        !flag_after_step(false, statement),
{
}

/// Only `begin` opens a transaction and only a commit or rollback that succeeded
/// closes one: no other statement changes the state.
pub proof fn lemma_state_changes(in_transaction: bool, sql: Seq<char>, succeeded: bool)
    ensures
        control_of(sql) != Some(Control::Begin) ==> flag_after_step(in_transaction, sql)
            == in_transaction,
        !succeeded ==> flag_after_control(in_transaction, succeeded) == in_transaction,
{
}

/// A control is a statement without placeholders: rewriting leaves it as it is.
pub proof fn lemma_controls_are_not_rewritten(sql: Seq<char>)
    requires
        control_of(sql) is Some,
    ensures
        exchanged(sql) == sql,
{
    reveal_strlit("begin");
    reveal_strlit("commit");
    reveal_strlit("rollback");
    lemma_exchange_without_question_mark(sql);
}

} // verus!
