//! The operations of the data-access layer and what each sends to the
//! database: at most one statement that changes a table, then one that
//! reads.

use crate::scheme::{midnight, midnight_of, ArticlesRow, OperationsRow};
use crate::statement::{ParamType, Statement, Table};
use chrono::{NaiveDate, NaiveDateTime};
use vstd::prelude::*;

verus! {

/// A value bound to a parameter of a statement.
#[derive(PartialEq, Debug)]
pub enum SqlValue {
    Int4(Option<i32>),
    Varchar(Option<String>),
    Timestamp(Option<NaiveDateTime>),
    Int4Array(Vec<i32>),
}

/// What a parameter value is, with its text and its list as sequences.
pub enum SqlValueView {
    Int4(Option<i32>),
    Varchar(Option<Seq<char>>),
    Timestamp(Option<NaiveDateTime>),
    Int4Array(Seq<i32>),
}

/// The text of an optional string.
pub open spec fn text_of(name: Option<String>) -> Option<Seq<char>> {
    match name {
        Some(text) => Some(text@),
        None => None,
    }
}

impl View for SqlValue {
    type V = SqlValueView;

    open spec fn view(&self) -> SqlValueView {
        match self {
            SqlValue::Int4(value) => SqlValueView::Int4(*value),
            SqlValue::Varchar(value) => SqlValueView::Varchar(text_of(*value)),
            SqlValue::Timestamp(value) => SqlValueView::Timestamp(*value),
            SqlValue::Int4Array(list) => SqlValueView::Int4Array(list@),
        }
    }
}

impl SqlValueView {
    /// The parameter type that the value is bound as.
    pub open spec fn param_type(self) -> ParamType {
        match self {
            SqlValueView::Int4(_) => ParamType::Int4,
            SqlValueView::Varchar(_) => ParamType::Varchar,
            SqlValueView::Timestamp(_) => ParamType::Timestamp,
            SqlValueView::Int4Array(_) => ParamType::Int4Array,
        }
    }
}

impl SqlValue {
    /// The parameter type that the value is bound as.
    pub fn param_type(&self) -> (kind: ParamType)
        ensures
            kind == self@.param_type(),
    {
        match self {
            SqlValue::Int4(_) => ParamType::Int4,
            SqlValue::Varchar(_) => ParamType::Varchar,
            SqlValue::Timestamp(_) => ParamType::Timestamp,
            SqlValue::Int4Array(_) => ParamType::Int4Array,
        }
    }
}

/// One statement with the values for its parameters, `$1` first.
#[derive(PartialEq, Debug)]
pub struct Command {
    pub statement: Statement,
    pub params: Vec<SqlValue>,
}

/// A command with its parameter values as a sequence of what they are.
pub struct CommandView {
    pub statement: Statement,
    pub params: Seq<SqlValueView>,
}

impl View for Command {
    type V = CommandView;

    open spec fn view(&self) -> CommandView {
        CommandView {
            statement: self.statement,
            params: Seq::new(self.params@.len(), |i: int| self.params@[i]@),
        }
    }
}

impl CommandView {
    /// The values are as many as the statement has parameters, each of the
    /// type that the statement declares for its place.
    pub open spec fn well_typed(self) -> bool {
        &&& self.params.len() == self.statement.spec_param_types().len()
        &&& forall|i: int|
            0 <= i < self.params.len() ==> (#[trigger] self.params[i]).param_type()
                == self.statement.spec_param_types()[i]
    }
}

/// An operation of the data-access layer, with what the caller supplies for
/// it.
#[derive(PartialEq, Debug)]
pub enum Request {
    SelectFromOperations,
    InsertToOperations(OperationsRow),
    UpdateInOperations(i32, OperationsRow),
    DeleteFromOperations(i32),
    SelectFromArticles,
    InsertToArticles(ArticlesRow),
    UpdateInArticles(i32, ArticlesRow),
    DeleteFromArticles(i32),
    SelectFromBalance,
    CreateBalance,
    RemoveBalance,
    ShowPercents,
    ShowProfit,
    ShowDynamics(Vec<i32>, NaiveDate, NaiveDate),
}

/// What an operation sends: the statement that changes a table, where the
/// operation is an edit, and the statement whose rows are its result.
#[derive(PartialEq, Debug)]
pub struct Plan {
    pub mutation: Option<Command>,
    pub query: Command,
}

impl Command {
    /// The command of the dynamics report for the articles and the span of
    /// time given: the turnover of those articles at each moment from
    /// `start` to `end`, both included.
    pub fn show_dynamics(articles: Vec<i32>, start: NaiveDateTime, end: NaiveDateTime) -> (command:
        Command)
        ensures
            command@ == (CommandView {
                statement: Statement::ShowDynamics,
                params: seq![
                    SqlValueView::Int4Array(articles@),
                    SqlValueView::Timestamp(Some(start)),
                    SqlValueView::Timestamp(Some(end)),
                ],
            }),
    {
        let command = Command {
            statement: Statement::ShowDynamics,
            params: vec![
                SqlValue::Int4Array(articles),
                SqlValue::Timestamp(Some(start)),
                SqlValue::Timestamp(Some(end)),
            ],
        };
        assert(command@.params =~= seq![
            SqlValueView::Int4Array(articles@),
            SqlValueView::Timestamp(Some(start)),
            SqlValueView::Timestamp(Some(end)),
        ]);
        command
    }
}

impl Request {
    /// The statement that an edit runs first, with its values; none for an
    /// operation that only reads.
    pub open spec fn spec_mutation(&self) -> Option<CommandView> {
        match self {
            Request::InsertToOperations(row) => Some(
                CommandView {
                    statement: Statement::InsertToOperations,
                    params: seq![
                        SqlValueView::Int4(row.article_id),
                        SqlValueView::Int4(row.debit),
                        SqlValueView::Int4(row.credit),
                        SqlValueView::Timestamp(row.create_date),
                    ],
                },
            ),
            Request::UpdateInOperations(id, row) => Some(
                CommandView {
                    statement: Statement::UpdateInOperations,
                    params: seq![
                        SqlValueView::Int4(Some(*id)),
                        SqlValueView::Int4(row.article_id),
                        SqlValueView::Int4(row.debit),
                        SqlValueView::Int4(row.credit),
                        SqlValueView::Timestamp(row.create_date),
                    ],
                },
            ),
            Request::DeleteFromOperations(id) => Some(
                CommandView {
                    statement: Statement::DeleteFromOperations,
                    params: seq![SqlValueView::Int4(Some(*id))],
                },
            ),
            Request::InsertToArticles(row) => Some(
                CommandView {
                    statement: Statement::InsertToArticles,
                    params: seq![SqlValueView::Varchar(text_of(row.name))],
                },
            ),
            Request::UpdateInArticles(id, row) => Some(
                CommandView {
                    statement: Statement::UpdateInArticles,
                    params: seq![
                        SqlValueView::Int4(Some(*id)),
                        SqlValueView::Varchar(text_of(row.name)),
                    ],
                },
            ),
            Request::DeleteFromArticles(id) => Some(
                CommandView {
                    statement: Statement::DeleteFromArticles,
                    params: seq![SqlValueView::Int4(Some(*id))],
                },
            ),
            Request::CreateBalance => Some(
                CommandView { statement: Statement::CreateBalance, params: Seq::empty() },
            ),
            Request::RemoveBalance => Some(
                CommandView { statement: Statement::RemoveBalance, params: Seq::empty() },
            ),
            _ => None,
        }
    }

    /// The operation only reads: it shows a table or a report as it stands.
    pub open spec fn is_read(&self) -> bool {
        match self {
            Request::SelectFromOperations
            | Request::SelectFromArticles
            | Request::SelectFromBalance
            | Request::ShowPercents
            | Request::ShowProfit
            | Request::ShowDynamics(_, _, _) => true,
            _ => false,
        }
    }

    /// The statement whose rows are the result of the operation, with its
    /// values: the whole table for an operation on a table, the report for a
    /// report.
    pub open spec fn spec_query(&self) -> CommandView {
        match self {
            Request::SelectFromOperations
            | Request::InsertToOperations(_)
            | Request::UpdateInOperations(_, _)
            | Request::DeleteFromOperations(_) => CommandView {
                statement: Statement::SelectFromOperations,
                params: Seq::empty(),
            },
            Request::SelectFromArticles
            | Request::InsertToArticles(_)
            | Request::UpdateInArticles(_, _)
            | Request::DeleteFromArticles(_) => CommandView {
                statement: Statement::SelectFromArticles,
                params: Seq::empty(),
            },
            Request::SelectFromBalance
            | Request::CreateBalance
            | Request::RemoveBalance => CommandView {
                statement: Statement::SelectFromBalance,
                params: Seq::empty(),
            },
            Request::ShowPercents => CommandView {
                statement: Statement::ShowPercents,
                params: Seq::empty(),
            },
            Request::ShowProfit => CommandView {
                statement: Statement::ShowProfit,
                params: Seq::empty(),
            },
            Request::ShowDynamics(articles, start, end) => CommandView {
                statement: Statement::ShowDynamics,
                params: seq![
                    SqlValueView::Int4Array(articles@),
                    SqlValueView::Timestamp(Some(midnight_of(*start))),
                    SqlValueView::Timestamp(Some(midnight_of(*end))),
                ],
            },
        }
    }

    /// What the operation sends to the database.
    pub fn plan(&self) -> (plan: Plan)
        ensures
            match plan.mutation {
                Some(command) => self.spec_mutation() == Some(command@),
                None => self.spec_mutation() is None,
            },
            plan.query@ == self.spec_query(),
    {
        let mutation = match self {
            Request::InsertToOperations(row) => Some(
                Command {
                    statement: Statement::InsertToOperations,
                    params: vec![
                        SqlValue::Int4(row.article_id),
                        SqlValue::Int4(row.debit),
                        SqlValue::Int4(row.credit),
                        SqlValue::Timestamp(row.create_date),
                    ],
                },
            ),
            Request::UpdateInOperations(id, row) => Some(
                Command {
                    statement: Statement::UpdateInOperations,
                    params: vec![
                        SqlValue::Int4(Some(*id)),
                        SqlValue::Int4(row.article_id),
                        SqlValue::Int4(row.debit),
                        SqlValue::Int4(row.credit),
                        SqlValue::Timestamp(row.create_date),
                    ],
                },
            ),
            Request::DeleteFromOperations(id) => Some(
                Command {
                    statement: Statement::DeleteFromOperations,
                    params: vec![SqlValue::Int4(Some(*id))],
                },
            ),
            Request::InsertToArticles(row) => Some(
                Command {
                    statement: Statement::InsertToArticles,
                    params: vec![SqlValue::Varchar(row.name.clone())],
                },
            ),
            Request::UpdateInArticles(id, row) => Some(
                Command {
                    statement: Statement::UpdateInArticles,
                    params: vec![SqlValue::Int4(Some(*id)), SqlValue::Varchar(row.name.clone())],
                },
            ),
            Request::DeleteFromArticles(id) => Some(
                Command {
                    statement: Statement::DeleteFromArticles,
                    params: vec![SqlValue::Int4(Some(*id))],
                },
            ),
            Request::CreateBalance => Some(
                Command { statement: Statement::CreateBalance, params: Vec::new() },
            ),
            Request::RemoveBalance => Some(
                Command { statement: Statement::RemoveBalance, params: Vec::new() },
            ),
            _ => None,
        };
        let query = match self {
            Request::SelectFromOperations
            | Request::InsertToOperations(_)
            | Request::UpdateInOperations(_, _)
            | Request::DeleteFromOperations(_) => Command {
                statement: Statement::SelectFromOperations,
                params: Vec::new(),
            },
            Request::SelectFromArticles
            | Request::InsertToArticles(_)
            | Request::UpdateInArticles(_, _)
            | Request::DeleteFromArticles(_) => Command {
                statement: Statement::SelectFromArticles,
                params: Vec::new(),
            },
            Request::SelectFromBalance | Request::CreateBalance | Request::RemoveBalance => Command {
                statement: Statement::SelectFromBalance,
                params: Vec::new(),
            },
            Request::ShowPercents => Command {
                statement: Statement::ShowPercents,
                params: Vec::new(),
            },
            Request::ShowProfit => Command { statement: Statement::ShowProfit, params: Vec::new() },
            Request::ShowDynamics(articles, start, end) => Command::show_dynamics(
                articles.clone(),
                midnight(*start),
                midnight(*end),
            ),
        };
        proof {
            assert(query@.params =~= self.spec_query().params);
            if mutation is Some {
                assert(mutation->0@.params =~= self.spec_mutation()->0.params);
            }
        }
        Plan { mutation, query }
    }
}

/// Every command of an operation binds values of the types that its
/// statement was prepared with.
pub proof fn lemma_commands_well_typed(request: Request)
    ensures
        request.spec_query().well_typed(),
        request.spec_mutation() matches Some(command) ==> command.well_typed(),
{
}

/// An operation that only reads sends nothing that changes a table, so
/// that reading twice in a row asks the same of the same data; every other
/// operation changes the database with exactly one statement, which the
/// database applies whole or not at all.
pub proof fn lemma_reads_change_nothing(request: Request)
    ensures
        request.is_read() <==> request.spec_mutation() is None,
        request.spec_query().statement.spec_changes() is None,
{
}

/// An edit changes a table and then reads that same table whole, whatever
/// the edit was; an operation that only reads changes nothing.
pub proof fn lemma_edit_reads_back(request: Request)
    ensures
        request.spec_query().statement.spec_changes() is None,
        request.spec_mutation() matches Some(command) ==> {
            &&& command.statement.spec_changes() matches Some(table)
            &&& request.spec_query().statement == table.spec_select()
            &&& request.spec_query().params.len() == 0
        },
{
}

} // verus!
