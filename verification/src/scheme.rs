//! The typed records of the budget database and the points of its reports.

use chrono::{NaiveDate, NaiveDateTime};
use vstd::prelude::*;

verus! {

/// `chrono::NaiveDateTime`, a calendar date with a time of day and no time
/// zone. The library carries such values between the database and the views
/// and never looks inside one.
#[verifier::external_type_specification]
#[verifier::external_body]
pub struct ExNaiveDateTime(chrono::NaiveDateTime);

/// `chrono::NaiveDate`, a calendar date without a time zone.
#[verifier::external_type_specification]
#[verifier::external_body]
pub struct ExNaiveDate(chrono::NaiveDate);

/// The first instant of a calendar day, as `chrono` converts a date into a
/// date with time.
pub uninterp spec fn midnight_of(date: NaiveDate) -> NaiveDateTime;

/// The whole seconds between the Unix epoch and a date with time read as
/// UTC, as `chrono` counts them.
pub uninterp spec fn unix_seconds_of(moment: NaiveDateTime) -> i64;

/// Calls `NaiveDateTime::from(NaiveDate)`, which gives the same date at
/// midnight. The conversion is total and depends on the date alone.
#[verifier::external_body]
pub(crate) fn midnight(date: NaiveDate) -> (moment: NaiveDateTime)
    ensures
        moment == midnight_of(date),
{
    NaiveDateTime::from(date)
}

/// Calls `NaiveDateTime::and_utc` and `DateTime::timestamp`: the number of
/// non-leap seconds since 1970-01-01 00:00:00 UTC. The count is total and
/// depends on the moment alone.
#[verifier::external_body]
pub(crate) fn unix_seconds(moment: &NaiveDateTime) -> (seconds: i64)
    ensures
        seconds == unix_seconds_of(*moment),
{
    moment.and_utc().timestamp()
}

/// The columns that the rows and the report points are read from.
pub const ID: &'static str = "id";

pub const ARTICLE_ID: &'static str = "article_id";

pub const BALANCE_ID: &'static str = "balance_id";

pub const DEBIT: &'static str = "debit";

pub const CREDIT: &'static str = "credit";

pub const AMOUNT: &'static str = "amount";

pub const CREATE_DATE: &'static str = "create_date";

pub const NAME: &'static str = "name";

pub const ARTICLE_NAME: &'static str = "article_name";

pub const PROFIT: &'static str = "profit";

/// A row of the operations table, without its identity.
#[derive(Clone, Copy, PartialEq, Debug)]
pub struct OperationsRow {
    pub article_id: Option<i32>,
    pub balance_id: Option<i32>,
    pub debit: Option<i32>,
    pub credit: Option<i32>,
    pub create_date: Option<NaiveDateTime>,
}

impl Default for OperationsRow {
    /// The row a fresh form starts from: every cell empty.
    fn default() -> (row: Self)
        ensures
            row == (OperationsRow {
                article_id: None,
                balance_id: None,
                debit: None,
                credit: None,
                create_date: None,
            }),
    {
        OperationsRow {
            article_id: None,
            balance_id: None,
            debit: None,
            credit: None,
            create_date: None,
        }
    }
}

impl OperationsRow {
    /// What `new` returns: the row under its identity when every column was
    /// read, else the failure of the first column, in the order of the
    /// parameters, that could not be read.
    pub open spec fn spec_new<E>(
        id: Result<i32, E>,
        article_id: Result<Option<i32>, E>,
        balance_id: Result<Option<i32>, E>,
        debit: Result<Option<i32>, E>,
        credit: Result<Option<i32>, E>,
        create_date: Result<Option<NaiveDateTime>, E>,
    ) -> Result<(i32, OperationsRow), E> {
        match (id, article_id, balance_id, debit, credit, create_date) {
            (Err(e), _, _, _, _, _) => Err(e),
            (Ok(_), Err(e), _, _, _, _) => Err(e),
            (Ok(_), Ok(_), Err(e), _, _, _) => Err(e),
            (Ok(_), Ok(_), Ok(_), Err(e), _, _) => Err(e),
            (Ok(_), Ok(_), Ok(_), Ok(_), Err(e), _) => Err(e),
            (Ok(_), Ok(_), Ok(_), Ok(_), Ok(_), Err(e)) => Err(e),
            (Ok(id), Ok(article_id), Ok(balance_id), Ok(debit), Ok(credit), Ok(create_date)) => Ok(
                (id, OperationsRow { article_id, balance_id, debit, credit, create_date }),
            ),
        }
    }

    /// Builds a keyed operations row from the outcome of reading each of its
    /// columns: `id`, `article_id`, `balance_id`, `debit`, `credit` and
    /// `create_date`.
    pub fn new<E>(
        id: Result<i32, E>,
        article_id: Result<Option<i32>, E>,
        balance_id: Result<Option<i32>, E>,
        debit: Result<Option<i32>, E>,
        credit: Result<Option<i32>, E>,
        create_date: Result<Option<NaiveDateTime>, E>,
    ) -> (res: Result<(i32, OperationsRow), E>)
        ensures
            res == Self::spec_new(id, article_id, balance_id, debit, credit, create_date),
    {
        let id = match id {
            Ok(value) => value,
            Err(e) => { return Err(e); },
        };
        let article_id = match article_id {
            Ok(value) => value,
            Err(e) => { return Err(e); },
        };
        let balance_id = match balance_id {
            Ok(value) => value,
            Err(e) => { return Err(e); },
        };
        let debit = match debit {
            Ok(value) => value,
            Err(e) => { return Err(e); },
        };
        let credit = match credit {
            Ok(value) => value,
            Err(e) => { return Err(e); },
        };
        let create_date = match create_date {
            Ok(value) => value,
            Err(e) => { return Err(e); },
        };
        Ok((id, OperationsRow { article_id, balance_id, debit, credit, create_date }))
    }
}

/// A row of the articles table, without its identity.
#[derive(PartialEq, Debug)]
pub struct ArticlesRow {
    pub name: Option<String>,
}

impl Clone for ArticlesRow {
    fn clone(&self) -> (row: Self)
        ensures
            row == *self,
    {
        ArticlesRow { name: self.name.clone() }
    }
}

impl Default for ArticlesRow {
    /// The row a fresh form starts from: no name yet.
    fn default() -> (row: Self)
        ensures
            row == (ArticlesRow { name: None }),
    {
        ArticlesRow { name: None }
    }
}

impl ArticlesRow {
    /// What `new` returns: the row under its identity when both columns were
    /// read, else the failure of the first that could not be read.
    pub open spec fn spec_new<E>(id: Result<i32, E>, name: Result<Option<String>, E>) -> Result<
        (i32, ArticlesRow),
        E,
    > {
        match (id, name) {
            (Err(e), _) => Err(e),
            (Ok(_), Err(e)) => Err(e),
            (Ok(id), Ok(name)) => Ok((id, ArticlesRow { name })),
        }
    }

    /// Builds a keyed articles row from the outcome of reading its columns
    /// `id` and `name`.
    pub fn new<E>(id: Result<i32, E>, name: Result<Option<String>, E>) -> (res: Result<
        (i32, ArticlesRow),
        E,
    >)
        ensures
            res == Self::spec_new(id, name),
    {
        let id = match id {
            Ok(value) => value,
            Err(e) => { return Err(e); },
        };
        let name = match name {
            Ok(value) => value,
            Err(e) => { return Err(e); },
        };
        Ok((id, ArticlesRow { name }))
    }
}

/// A row of the balance table, without its identity.
#[derive(Clone, Copy, PartialEq, Debug)]
pub struct BalanceRow {
    pub debit: Option<i32>,
    pub credit: Option<i32>,
    pub amount: Option<i32>,
    pub create_date: Option<NaiveDateTime>,
}

impl Default for BalanceRow {
    fn default() -> (row: Self)
        ensures
            row == (BalanceRow { debit: None, credit: None, amount: None, create_date: None }),
    {
        BalanceRow { debit: None, credit: None, amount: None, create_date: None }
    }
}

impl BalanceRow {
    /// What `new` returns: the row under its identity when every column was
    /// read, else the failure of the first column, in the order of the
    /// parameters, that could not be read.
    pub open spec fn spec_new<E>(
        id: Result<i32, E>,
        debit: Result<Option<i32>, E>,
        credit: Result<Option<i32>, E>,
        amount: Result<Option<i32>, E>,
        create_date: Result<Option<NaiveDateTime>, E>,
    ) -> Result<(i32, BalanceRow), E> {
        match (id, debit, credit, amount, create_date) {
            (Err(e), _, _, _, _) => Err(e),
            (Ok(_), Err(e), _, _, _) => Err(e),
            (Ok(_), Ok(_), Err(e), _, _) => Err(e),
            (Ok(_), Ok(_), Ok(_), Err(e), _) => Err(e),
            (Ok(_), Ok(_), Ok(_), Ok(_), Err(e)) => Err(e),
            (Ok(id), Ok(debit), Ok(credit), Ok(amount), Ok(create_date)) => Ok(
                (id, BalanceRow { debit, credit, amount, create_date }),
            ),
        }
    }

    /// Builds a keyed balance row from the outcome of reading each of its
    /// columns: `id`, `debit`, `credit`, `amount` and `create_date`.
    pub fn new<E>(
        id: Result<i32, E>,
        debit: Result<Option<i32>, E>,
        credit: Result<Option<i32>, E>,
        amount: Result<Option<i32>, E>,
        create_date: Result<Option<NaiveDateTime>, E>,
    ) -> (res: Result<(i32, BalanceRow), E>)
        ensures
            res == Self::spec_new(id, debit, credit, amount, create_date),
    {
        let id = match id {
            Ok(value) => value,
            Err(e) => { return Err(e); },
        };
        let debit = match debit {
            Ok(value) => value,
            Err(e) => { return Err(e); },
        };
        let credit = match credit {
            Ok(value) => value,
            Err(e) => { return Err(e); },
        };
        let amount = match amount {
            Ok(value) => value,
            Err(e) => { return Err(e); },
        };
        let create_date = match create_date {
            Ok(value) => value,
            Err(e) => { return Err(e); },
        };
        Ok((id, BalanceRow { debit, credit, amount, create_date }))
    }
}

/// A point of a chart in whole units: seconds since the Unix epoch along
/// the time axis, money along the other.
#[derive(Clone, Copy, PartialEq, Eq, Debug)]
pub struct PlotPoint {
    pub x: i64,
    pub y: i64,
}

/// The turnover of one moment: what came in and what went out, as two points
/// over the same instant.
#[derive(Clone, Copy, PartialEq, Eq, Debug)]
pub struct DynamicsPoint {
    pub debit: PlotPoint,
    pub credit: PlotPoint,
}

impl DynamicsPoint {
    /// What `new` returns: both points over the second in which the moment
    /// falls when every column was read, else the failure of the first
    /// column, in the order of the parameters, that could not be read.
    pub open spec fn spec_new<E>(
        create_date: Result<NaiveDateTime, E>,
        debit: Result<i64, E>,
        credit: Result<i64, E>,
    ) -> Result<DynamicsPoint, E> {
        match (create_date, debit, credit) {
            (Err(e), _, _) => Err(e),
            (Ok(_), Err(e), _) => Err(e),
            (Ok(_), Ok(_), Err(e)) => Err(e),
            (Ok(moment), Ok(debit), Ok(credit)) => Ok(
                DynamicsPoint {
                    debit: PlotPoint { x: unix_seconds_of(moment), y: debit },
                    credit: PlotPoint { x: unix_seconds_of(moment), y: credit },
                },
            ),
        }
    }

    /// Builds a point of the dynamics report from the outcome of reading its
    /// columns `create_date`, `debit` and `credit`.
    pub fn new<E>(
        create_date: Result<NaiveDateTime, E>,
        debit: Result<i64, E>,
        credit: Result<i64, E>,
    ) -> (res: Result<DynamicsPoint, E>)
        ensures
            res == Self::spec_new(create_date, debit, credit),
    {
        let moment = match create_date {
            Ok(value) => value,
            Err(e) => { return Err(e); },
        };
        let debit = match debit {
            Ok(value) => value,
            Err(e) => { return Err(e); },
        };
        let credit = match credit {
            Ok(value) => value,
            Err(e) => { return Err(e); },
        };
        Ok(Self::at(unix_seconds(&moment), debit, credit))
    }

    /// The point that takes the named result of the time conversion as an
    /// argument: `debit` and `credit` over the instant `seconds`.
    pub fn at(seconds: i64, debit: i64, credit: i64) -> (point: DynamicsPoint)
        ensures
            point == (DynamicsPoint {
                debit: PlotPoint { x: seconds, y: debit },
                credit: PlotPoint { x: seconds, y: credit },
            }),
    {
        DynamicsPoint {
            debit: PlotPoint { x: seconds, y: debit },
            credit: PlotPoint { x: seconds, y: credit },
        }
    }
}


/// One bar of the percentage report: the share of an article in all that
/// came in and in all that went out. `N` is the type of a share; the
/// library never computes with one.
#[derive(PartialEq, Debug)]
pub struct PercentsBar<N> {
    pub article_name: String,
    pub debit: N,
    pub credit: N,
}

/// `value` is what an optional cell of a report stands for: what the cell
/// holds, or a default of its type where the cell is empty.
pub open spec fn filled<N: Default>(cell: Option<N>, value: N) -> bool {
    match cell {
        Some(held) => value == held,
        None => call_ensures(N::default, (), value),
    }
}

impl<N: Default> PercentsBar<N> {
    /// Builds a bar of the percentage report from the outcome of reading its
    /// columns `article_name`, `debit` and `credit`. The first column, in
    /// that order, that could not be read fails the bar. A share that the
    /// database left empty, as it does for an article without operations,
    /// counts as the default of its type.
    pub fn new<E>(
        article_name: Result<String, E>,
        debit: Result<Option<N>, E>,
        credit: Result<Option<N>, E>,
    ) -> (res: Result<PercentsBar<N>, E>)
        ensures
            match (article_name, debit, credit) {
                (Err(e), _, _) => res == Err::<PercentsBar<N>, E>(e),
                (Ok(_), Err(e), _) => res == Err::<PercentsBar<N>, E>(e),
                (Ok(_), Ok(_), Err(e)) => res == Err::<PercentsBar<N>, E>(e),
                (Ok(name), Ok(debit), Ok(credit)) => {
                    &&& res matches Ok(bar)
                    &&& bar.article_name == name
                    &&& filled(debit, bar.debit)
                    &&& filled(credit, bar.credit)
                },
            },
    {
        let article_name = match article_name {
            Ok(value) => value,
            Err(e) => { return Err(e); },
        };
        let debit = match debit {
            Ok(value) => value,
            Err(e) => { return Err(e); },
        };
        let credit = match credit {
            Ok(value) => value,
            Err(e) => { return Err(e); },
        };
        let debit = match debit {
            Some(held) => held,
            None => N::default(),
        };
        let credit = match credit {
            Some(held) => held,
            None => N::default(),
        };
        Ok(PercentsBar { article_name, debit, credit })
    }
}

/// A point of the profit report: the profit made up to a moment, which is
/// given in seconds since the Unix epoch. `N` is the type of the profit; the
/// library never computes with one.
#[derive(Clone, Copy, PartialEq, Debug)]
pub struct ProfitPoint<N> {
    pub seconds: i64,
    pub profit: N,
}

impl<N> ProfitPoint<N> {
    /// What `new` returns: the point over the second in which the moment
    /// falls when both columns were read, else the failure of the first that
    /// could not be read.
    pub open spec fn spec_new<E>(create_date: Result<NaiveDateTime, E>, profit: Result<N, E>)
        -> Result<ProfitPoint<N>, E> {
        match (create_date, profit) {
            (Err(e), _) => Err(e),
            (Ok(_), Err(e)) => Err(e),
            (Ok(moment), Ok(profit)) => Ok(
                ProfitPoint { seconds: unix_seconds_of(moment), profit },
            ),
        }
    }

    /// Builds a point of the profit report from the outcome of reading its
    /// columns `create_date` and `profit`.
    pub fn new<E>(create_date: Result<NaiveDateTime, E>, profit: Result<N, E>) -> (res: Result<
        ProfitPoint<N>,
        E,
    >)
        ensures
            res == Self::spec_new(create_date, profit),
    {
        let moment = match create_date {
            Ok(value) => value,
            Err(e) => { return Err(e); },
        };
        let profit = match profit {
            Ok(value) => value,
            Err(e) => { return Err(e); },
        };
        Ok(Self::at(unix_seconds(&moment), profit))
    }

    /// The point that takes the named result of the time conversion as an
    /// argument: `profit` at the instant `seconds`.
    pub fn at(seconds: i64, profit: N) -> (point: ProfitPoint<N>)
        ensures
            point == (ProfitPoint { seconds, profit }),
    {
        ProfitPoint { seconds, profit }
    }
}

} // verus!
