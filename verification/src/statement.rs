//! The fixed set of statements that a session prepares once and then runs.

use crate::collect::{all_ok, gather, is_first_failure, values};
use vstd::prelude::*;

verus! {

/// The tables of the budget database that the client reads whole.
#[derive(Clone, Copy, PartialEq, Eq, Structural, Debug)]
pub enum Table {
    Operations,
    Articles,
    Balance,
}

/// The type that a statement declares for one of its parameters.
#[derive(Clone, Copy, PartialEq, Eq, Structural, Debug)]
pub enum ParamType {
    Int4,
    Varchar,
    Timestamp,
    Int4Array,
}

/// The statements of a session, one for each operation that the client
/// supports.
#[derive(Clone, Copy, PartialEq, Eq, Structural, Debug)]
pub enum Statement {
    SelectFromOperations,
    SelectFromArticles,
    SelectFromBalance,
    InsertToOperations,
    InsertToArticles,
    UpdateInOperations,
    UpdateInArticles,
    DeleteFromOperations,
    DeleteFromArticles,
    CreateBalance,
    RemoveBalance,
    ShowPercents,
    ShowDynamics,
    ShowProfit,
}

/// The directory of the socket on which the database listens.
pub const DATABASE_HOST: &'static str = "/var/run/postgresql/";

/// The name of the budget database.
pub const DATABASE_NAME: &'static str = "budget";

/// How many statements a session prepares.
pub const STATEMENT_COUNT: usize = 14;

impl Table {
    /// The statement that reads the whole table.
    pub open spec fn spec_select(self) -> Statement {
        match self {
            Table::Operations => Statement::SelectFromOperations,
            Table::Articles => Statement::SelectFromArticles,
            Table::Balance => Statement::SelectFromBalance,
        }
    }

    /// The statement that reads the whole table.
    pub fn select(self) -> (statement: Statement)
        ensures
            statement == self.spec_select(),
    {
        match self {
            Table::Operations => Statement::SelectFromOperations,
            Table::Articles => Statement::SelectFromArticles,
            Table::Balance => Statement::SelectFromBalance,
        }
    }
}

impl Statement {
    /// The statements in the order in which a session keeps them.
    pub open spec fn spec_all() -> Seq<Statement> {
        seq![
            Statement::SelectFromOperations,
            Statement::SelectFromArticles,
            Statement::SelectFromBalance,
            Statement::InsertToOperations,
            Statement::InsertToArticles,
            Statement::UpdateInOperations,
            Statement::UpdateInArticles,
            Statement::DeleteFromOperations,
            Statement::DeleteFromArticles,
            Statement::CreateBalance,
            Statement::RemoveBalance,
            Statement::ShowPercents,
            Statement::ShowDynamics,
            Statement::ShowProfit,
        ]
    }

    /// The place of a statement in that order.
    pub open spec fn spec_index(self) -> int {
        match self {
            Statement::SelectFromOperations => 0,
            Statement::SelectFromArticles => 1,
            Statement::SelectFromBalance => 2,
            Statement::InsertToOperations => 3,
            Statement::InsertToArticles => 4,
            Statement::UpdateInOperations => 5,
            Statement::UpdateInArticles => 6,
            Statement::DeleteFromOperations => 7,
            Statement::DeleteFromArticles => 8,
            Statement::CreateBalance => 9,
            Statement::RemoveBalance => 10,
            Statement::ShowPercents => 11,
            Statement::ShowDynamics => 12,
            Statement::ShowProfit => 13,
        }
    }

    /// The text of a statement.
    pub open spec fn spec_sql(self) -> Seq<char> {
        match self {
            Statement::SelectFromOperations => "SELECT * FROM public.operations"@,
            Statement::SelectFromArticles => "SELECT * FROM public.articles"@,
            Statement::SelectFromBalance => "SELECT * FROM public.balance"@,
            Statement::InsertToOperations => "INSERT INTO public.operations( article_id, debit, credit, create_date)VALUES ($1, $2, $3, $4)"@,
            Statement::InsertToArticles => "INSERT INTO public.articles(name) VALUES ($1)"@,
            Statement::UpdateInOperations => "UPDATE public.operations SET article_id=$2, debit=$3, credit=$4, create_date=$5 WHERE id=$1"@,
            Statement::UpdateInArticles => "UPDATE public.articles SET name=$2 WHERE id=$1"@,
            Statement::DeleteFromOperations => "DELETE FROM public.operations WHERE id = $1"@,
            Statement::DeleteFromArticles => "DELETE FROM public.articles WHERE id = $1"@,
            Statement::CreateBalance => "WITH new_balance AS ( INSERT INTO public.balance( create_date, debit, credit, amount) SELECT CURRENT_TIMESTAMP, SUM(ops.debit), SUM(ops.credit), SUM(ops.debit) - SUM(ops.credit) FROM public.operations ops WHERE ops.balance_id is NULL RETURNING id ) UPDATE public.operations SET balance_id=(SELECT * FROM new_balance) WHERE balance_id IS NULL"@,
            Statement::RemoveBalance => "WITH deleted_balance AS ( DELETE FROM public.balance WHERE id=( SELECT id FROM public.balance WHERE create_date=( SELECT MAX(create_date) FROM public.balance ) LIMIT 1 ) RETURNING id ) UPDATE public.operations SET balance_id = NULL WHERE balance_id=(SELECT * FROM deleted_balance)"@,
            Statement::ShowPercents => "WITH totals AS ( SELECT SUM(ops.debit) AS debit, SUM(ops.credit) AS credit FROM public.operations ops ) SELECT art.name AS article_name, CAST( 100.0 * SUM(ops.debit) / NULLIF((SELECT debit FROM totals), 0) AS DOUBLE PRECISION ) AS debit, CAST( 100.0 * SUM(ops.credit) / NULLIF((SELECT credit FROM totals), 0) AS DOUBLE PRECISION ) AS credit FROM public.operations ops RIGHT JOIN public.articles art ON art.id = ops.article_id GROUP BY art.id ORDER BY art.id ASC"@,
            Statement::ShowDynamics => "SELECT ops.create_date AS create_date, SUM(ops.debit) AS debit, SUM(ops.credit) AS credit FROM public.operations ops WHERE ops.article_id = ANY($1) AND ops.create_date BETWEEN $2 AND $3 GROUP BY ops.create_date ORDER BY ops.create_date ASC"@,
            Statement::ShowProfit => "SELECT ops.create_date AS create_date, CAST( SUM(SUM(ops.debit) - SUM(ops.credit)) OVER (ORDER BY ops.create_date) AS DOUBLE PRECISION ) AS profit FROM public.operations ops GROUP BY ops.create_date"@,
        }
    }

    /// The types that a statement declares for its parameters, `$1` first.
    pub open spec fn spec_param_types(self) -> Seq<ParamType> {
        match self {
            Statement::InsertToOperations => seq![
                ParamType::Int4,
                ParamType::Int4,
                ParamType::Int4,
                ParamType::Timestamp,
            ],
            Statement::InsertToArticles => seq![ParamType::Varchar],
            Statement::UpdateInOperations => seq![
                ParamType::Int4,
                ParamType::Int4,
                ParamType::Int4,
                ParamType::Int4,
                ParamType::Timestamp,
            ],
            Statement::UpdateInArticles => seq![ParamType::Int4, ParamType::Varchar],
            Statement::DeleteFromOperations => seq![ParamType::Int4],
            Statement::DeleteFromArticles => seq![ParamType::Int4],
            Statement::ShowDynamics => seq![
                ParamType::Int4Array,
                ParamType::Timestamp,
                ParamType::Timestamp,
            ],
            _ => Seq::empty(),
        }
    }

    /// The table that a statement changes, if it changes one.
    pub open spec fn spec_changes(self) -> Option<Table> {
        match self {
            Statement::InsertToOperations
            | Statement::UpdateInOperations
            | Statement::DeleteFromOperations => Some(Table::Operations),
            Statement::InsertToArticles
            | Statement::UpdateInArticles
            | Statement::DeleteFromArticles => Some(Table::Articles),
            Statement::CreateBalance | Statement::RemoveBalance => Some(Table::Balance),
            _ => None,
        }
    }

    /// The statements in the order in which a session keeps them.
    pub fn all() -> (list: Vec<Statement>)
        ensures
            list@ == Self::spec_all(),
    {
        vec![
            Statement::SelectFromOperations,
            Statement::SelectFromArticles,
            Statement::SelectFromBalance,
            Statement::InsertToOperations,
            Statement::InsertToArticles,
            Statement::UpdateInOperations,
            Statement::UpdateInArticles,
            Statement::DeleteFromOperations,
            Statement::DeleteFromArticles,
            Statement::CreateBalance,
            Statement::RemoveBalance,
            Statement::ShowPercents,
            Statement::ShowDynamics,
            Statement::ShowProfit,
        ]
    }

    /// The place of a statement in the order of `all`.
    pub fn index(self) -> (place: usize)
        ensures
            place == self.spec_index(),
            place < STATEMENT_COUNT,
    {
        match self {
            Statement::SelectFromOperations => 0,
            Statement::SelectFromArticles => 1,
            Statement::SelectFromBalance => 2,
            Statement::InsertToOperations => 3,
            Statement::InsertToArticles => 4,
            Statement::UpdateInOperations => 5,
            Statement::UpdateInArticles => 6,
            Statement::DeleteFromOperations => 7,
            Statement::DeleteFromArticles => 8,
            Statement::CreateBalance => 9,
            Statement::RemoveBalance => 10,
            Statement::ShowPercents => 11,
            Statement::ShowDynamics => 12,
            Statement::ShowProfit => 13,
        }
    }

    /// The statement at a place in the order of `all`, if there is one.
    pub fn at(place: usize) -> (found: Option<Statement>)
        ensures
            match found {
                Some(statement) => statement.spec_index() == place,
                None => place >= STATEMENT_COUNT,
            },
    {
        if place < STATEMENT_COUNT {
            Some(Self::of(place))
        } else {
            None
        }
    }

    /// The statement at a place that the order of `all` has.
    fn of(place: usize) -> (statement: Statement)
        requires
            place < STATEMENT_COUNT,
        ensures
            statement.spec_index() == place,
    {
        match place {
            0 => Statement::SelectFromOperations,
            1 => Statement::SelectFromArticles,
            2 => Statement::SelectFromBalance,
            3 => Statement::InsertToOperations,
            4 => Statement::InsertToArticles,
            5 => Statement::UpdateInOperations,
            6 => Statement::UpdateInArticles,
            7 => Statement::DeleteFromOperations,
            8 => Statement::DeleteFromArticles,
            9 => Statement::CreateBalance,
            10 => Statement::RemoveBalance,
            11 => Statement::ShowPercents,
            12 => Statement::ShowDynamics,
            _ => Statement::ShowProfit,
        }
    }

    /// The text to prepare the statement from.
    pub fn sql(self) -> (text: &'static str)
        ensures
            text@ == self.spec_sql(),
    {
        match self {
            Statement::SelectFromOperations => "SELECT * FROM public.operations",
            Statement::SelectFromArticles => "SELECT * FROM public.articles",
            Statement::SelectFromBalance => "SELECT * FROM public.balance",
            Statement::InsertToOperations => "INSERT INTO public.operations( article_id, debit, credit, create_date)VALUES ($1, $2, $3, $4)",
            Statement::InsertToArticles => "INSERT INTO public.articles(name) VALUES ($1)",
            Statement::UpdateInOperations => "UPDATE public.operations SET article_id=$2, debit=$3, credit=$4, create_date=$5 WHERE id=$1",
            Statement::UpdateInArticles => "UPDATE public.articles SET name=$2 WHERE id=$1",
            Statement::DeleteFromOperations => "DELETE FROM public.operations WHERE id = $1",
            Statement::DeleteFromArticles => "DELETE FROM public.articles WHERE id = $1",
            Statement::CreateBalance => "WITH new_balance AS ( INSERT INTO public.balance( create_date, debit, credit, amount) SELECT CURRENT_TIMESTAMP, SUM(ops.debit), SUM(ops.credit), SUM(ops.debit) - SUM(ops.credit) FROM public.operations ops WHERE ops.balance_id is NULL RETURNING id ) UPDATE public.operations SET balance_id=(SELECT * FROM new_balance) WHERE balance_id IS NULL",
            Statement::RemoveBalance => "WITH deleted_balance AS ( DELETE FROM public.balance WHERE id=( SELECT id FROM public.balance WHERE create_date=( SELECT MAX(create_date) FROM public.balance ) LIMIT 1 ) RETURNING id ) UPDATE public.operations SET balance_id = NULL WHERE balance_id=(SELECT * FROM deleted_balance)",
            Statement::ShowPercents => "WITH totals AS ( SELECT SUM(ops.debit) AS debit, SUM(ops.credit) AS credit FROM public.operations ops ) SELECT art.name AS article_name, CAST( 100.0 * SUM(ops.debit) / NULLIF((SELECT debit FROM totals), 0) AS DOUBLE PRECISION ) AS debit, CAST( 100.0 * SUM(ops.credit) / NULLIF((SELECT credit FROM totals), 0) AS DOUBLE PRECISION ) AS credit FROM public.operations ops RIGHT JOIN public.articles art ON art.id = ops.article_id GROUP BY art.id ORDER BY art.id ASC",
            Statement::ShowDynamics => "SELECT ops.create_date AS create_date, SUM(ops.debit) AS debit, SUM(ops.credit) AS credit FROM public.operations ops WHERE ops.article_id = ANY($1) AND ops.create_date BETWEEN $2 AND $3 GROUP BY ops.create_date ORDER BY ops.create_date ASC",
            Statement::ShowProfit => "SELECT ops.create_date AS create_date, CAST( SUM(SUM(ops.debit) - SUM(ops.credit)) OVER (ORDER BY ops.create_date) AS DOUBLE PRECISION ) AS profit FROM public.operations ops GROUP BY ops.create_date",
        }
    }

    /// The types to prepare the statement with, `$1` first.
    pub fn param_types(self) -> (types: Vec<ParamType>)
        ensures
            types@ == self.spec_param_types(),
    {
        match self {
            Statement::InsertToOperations => vec![
                ParamType::Int4,
                ParamType::Int4,
                ParamType::Int4,
                ParamType::Timestamp,
            ],
            Statement::InsertToArticles => vec![ParamType::Varchar],
            Statement::UpdateInOperations => vec![
                ParamType::Int4,
                ParamType::Int4,
                ParamType::Int4,
                ParamType::Int4,
                ParamType::Timestamp,
            ],
            Statement::UpdateInArticles => vec![ParamType::Int4, ParamType::Varchar],
            Statement::DeleteFromOperations => vec![ParamType::Int4],
            Statement::DeleteFromArticles => vec![ParamType::Int4],
            Statement::ShowDynamics => vec![
                ParamType::Int4Array,
                ParamType::Timestamp,
                ParamType::Timestamp,
            ],
            _ => Vec::new(),
        }
    }

    /// The table that the statement changes, if it changes one.
    pub fn changes(self) -> (table: Option<Table>)
        ensures
            table == self.spec_changes(),
    {
        match self {
            Statement::InsertToOperations
            | Statement::UpdateInOperations
            | Statement::DeleteFromOperations => Some(Table::Operations),
            Statement::InsertToArticles
            | Statement::UpdateInArticles
            | Statement::DeleteFromArticles => Some(Table::Articles),
            Statement::CreateBalance | Statement::RemoveBalance => Some(Table::Balance),
            _ => None,
        }
    }
}

/// The order of `all` holds every statement exactly once: each at its own
/// place, and no two at the same.
pub proof fn lemma_every_statement_once(first: Statement, second: Statement)
    ensures
        Statement::spec_all().len() == STATEMENT_COUNT,
        0 <= first.spec_index() < STATEMENT_COUNT,
        Statement::spec_all()[first.spec_index()] == first,
        first.spec_index() == second.spec_index() ==> first == second,
{
}

/// Why a session could not be set up.
#[derive(PartialEq, Debug)]
pub enum SetupError<E> {
    /// The statement could not be prepared, for the cause given.
    Failed { statement: Statement, cause: E },
    /// The batch did not hold one outcome for each statement.
    Incomplete { prepared: usize },
}

/// The prepared statements of a session: one handle for each statement, made
/// once and never changed afterwards.
pub struct StatementSet<S> {
    handles: Vec<S>,
}

impl<S> View for StatementSet<S> {
    type V = Seq<S>;

    closed spec fn view(&self) -> Seq<S> {
        self.handles@
    }
}

impl<S> StatementSet<S> {
    #[verifier::type_invariant]
    spec fn complete(&self) -> bool {
        self.handles@.len() == STATEMENT_COUNT
    }

    /// The handle that the set keeps for a statement.
    pub open spec fn spec_handle(&self, statement: Statement) -> S {
        self@[statement.spec_index()]
    }

    /// Makes the set from the outcomes of preparing the statements, given in
    /// the order of `Statement::all`. One failure fails the whole set: there
    /// is no set with a statement missing.
    pub fn assemble<E>(prepared: Vec<Result<S, E>>) -> (res: Result<StatementSet<S>, SetupError<E>>)
        ensures
            match res {
                Ok(set) => {
                    &&& prepared@.len() == STATEMENT_COUNT
                    &&& all_ok(prepared@)
                    &&& set@ == values(prepared@)
                },
                Err(SetupError::Incomplete { prepared: count }) => {
                    &&& prepared@.len() != STATEMENT_COUNT
                    &&& count == prepared@.len()
                },
                Err(SetupError::Failed { statement, cause }) => {
                    &&& prepared@.len() == STATEMENT_COUNT
                    &&& is_first_failure(prepared@, statement.spec_index())
                    &&& prepared@[statement.spec_index()] == Err::<S, E>(cause)
                },
            },
    {
        let count = prepared.len();
        if count != STATEMENT_COUNT {
            return Err(SetupError::Incomplete { prepared: count });
        }
        match gather(prepared) {
            Ok(handles) => Ok(StatementSet { handles }),
            Err((place, cause)) => Err(
                SetupError::Failed { statement: Statement::of(place), cause },
            ),
        }
    }

    /// The handle of a statement.
    pub fn get(&self, statement: Statement) -> (handle: &S)
        ensures
            *handle == self.spec_handle(statement),
    {
        proof {
            use_type_invariant(self);
        }
        &self.handles[statement.index()]
    }
}

} // verus!
