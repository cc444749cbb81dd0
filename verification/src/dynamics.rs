//! The dynamics report: which articles it covers and how its points are laid
//! out for a chart.

use crate::scheme::{DynamicsPoint, PlotPoint};
use std::collections::HashSet;
use vstd::prelude::*;

verus! {

/// The two lines of the dynamics chart: what came in and what went out,
/// moment by moment.
#[derive(PartialEq, Debug)]
pub struct Points {
    pub debits: Vec<PlotPoint>,
    pub credits: Vec<PlotPoint>,
}

impl Clone for Points {
    fn clone(&self) -> (points: Self)
        ensures
            points.debits@ == self.debits@,
            points.credits@ == self.credits@,
    {
        Points { debits: self.debits.clone(), credits: self.credits.clone() }
    }
}

/// The debit points of a report, in its order.
pub open spec fn debits_of(values: Seq<DynamicsPoint>) -> Seq<PlotPoint> {
    Seq::new(values.len(), |i: int| values[i].debit)
}

/// The credit points of a report, in its order.
pub open spec fn credits_of(values: Seq<DynamicsPoint>) -> Seq<PlotPoint> {
    Seq::new(values.len(), |i: int| values[i].credit)
}

impl Points {
    /// Lays the points of a report out as the two lines of the chart.
    pub fn new(values: &Vec<DynamicsPoint>) -> (points: Points)
        ensures
            points.debits@ == debits_of(values@),
            points.credits@ == credits_of(values@),
    {
        let mut debits: Vec<PlotPoint> = Vec::new();
        let mut credits: Vec<PlotPoint> = Vec::new();
        let mut at: usize = 0;
        while at < values.len()
            invariant
                at <= values.len(),
                debits@.len() == at,
                credits@.len() == at,
                forall|i: int| 0 <= i < at ==> debits@[i] == values@[i].debit,
                forall|i: int| 0 <= i < at ==> credits@[i] == values@[i].credit,
            decreases values.len() - at,
        {
            debits.push(values[at].debit);
            credits.push(values[at].credit);
            at += 1;
        }
        Points { debits, credits }
    }
}

/// Takes the tick of an article's checkbox: a ticked article joins those that
/// the report covers, an unticked one leaves them.
pub fn mark(chosen: &mut HashSet<i32>, article: i32, checked: bool)
    ensures
        final(chosen)@ == if checked {
            old(chosen)@.insert(article)
        } else {
            old(chosen)@.remove(article)
        },
{
    broadcast use vstd::std_specs::hash::group_hash_axioms;

    if checked {
        chosen.insert(article);
    } else {
        chosen.remove(&article);
    }
}

} // verus!
