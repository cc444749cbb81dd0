//! The views of the main page and the choice among them.

use vstd::prelude::*;

verus! {

/// The views that the main page can show.
#[derive(Clone, Copy, PartialEq, Eq, Structural, Debug)]
pub enum SelectedView {
    Dynamics,
    Percentages,
    Profit,
    Operations,
    Articles,
    Balance,
}

impl SelectedView {
    /// The name under which the side panel offers a view.
    pub open spec fn spec_label(self) -> Seq<char> {
        match self {
            SelectedView::Dynamics => "Динамика"@,
            SelectedView::Percentages => "Проценты"@,
            SelectedView::Profit => "Прибыль"@,
            SelectedView::Operations => "Операции"@,
            SelectedView::Articles => "Статьи"@,
            SelectedView::Balance => "Баланс"@,
        }
    }

    /// The views that show a table, in the order of the side panel.
    pub open spec fn spec_tables() -> Seq<SelectedView> {
        seq![SelectedView::Operations, SelectedView::Articles, SelectedView::Balance]
    }

    /// The views that show a report, in the order of the side panel.
    pub open spec fn spec_indicators() -> Seq<SelectedView> {
        seq![SelectedView::Dynamics, SelectedView::Percentages, SelectedView::Profit]
    }

    /// The view that is selected after the side panel showed `variants` and
    /// `clicked` says which of them were clicked: the last one clicked, or
    /// the view selected before where none was.
    pub open spec fn spec_choose(
        self,
        variants: Seq<SelectedView>,
        clicked: Seq<bool>,
    ) -> SelectedView
        decreases variants.len(),
    {
        if variants.len() == 0 {
            self
        } else if variants.len() <= clicked.len() && clicked[variants.len() - 1] {
            variants.last()
        } else {
            self.spec_choose(variants.drop_last(), clicked)
        }
    }

    /// The name under which the side panel offers the view.
    pub fn label(self) -> (text: &'static str)
        ensures
            text@ == self.spec_label(),
    {
        match self {
            SelectedView::Dynamics => "Динамика",
            SelectedView::Percentages => "Проценты",
            SelectedView::Profit => "Прибыль",
            SelectedView::Operations => "Операции",
            SelectedView::Articles => "Статьи",
            SelectedView::Balance => "Баланс",
        }
    }

    /// The view that the main page opens with.
    pub fn initial() -> (view: SelectedView)
        ensures
            view == SelectedView::Operations,
    {
        SelectedView::Operations
    }

    /// The views that show a table, in the order of the side panel.
    pub fn tables() -> (views: Vec<SelectedView>)
        ensures
            views@ == Self::spec_tables(),
    {
        vec![SelectedView::Operations, SelectedView::Articles, SelectedView::Balance]
    }

    /// The views that show a report, in the order of the side panel.
    pub fn indicators() -> (views: Vec<SelectedView>)
        ensures
            views@ == Self::spec_indicators(),
    {
        vec![SelectedView::Dynamics, SelectedView::Percentages, SelectedView::Profit]
    }

    /// The view that is selected after one group of the side panel was
    /// shown. `clicked` holds, for each of `variants` in order, whether its
    /// label was clicked; a variant without an entry counts as not clicked.
    pub fn side_buttons(self, variants: &Vec<SelectedView>, clicked: &Vec<bool>) -> (chosen: SelectedView)
        ensures
            chosen == self.spec_choose(variants@, clicked@),
    {
        let mut chosen = self;
        let mut at: usize = 0;
        while at < variants.len()
            invariant
                at <= variants.len(),
                chosen == self.spec_choose(variants@.take(at as int), clicked@),
            decreases variants.len() - at,
        {
            proof {
                assert(variants@.take(at + 1).drop_last() =~= variants@.take(at as int));
            }
            if at < clicked.len() && clicked[at] {
                chosen = variants[at];
            }
            at += 1;
        }
        proof {
            assert(variants@.take(variants.len() as int) =~= variants@);
        }
        chosen
    }
}

/// Every view stands in exactly one of the two groups of the side panel.
pub proof fn lemma_every_view_in_one_group(view: SelectedView)
    ensures
        SelectedView::spec_tables().contains(view) != SelectedView::spec_indicators().contains(
            view,
        ),
{
    let tables = SelectedView::spec_tables();
    let indicators = SelectedView::spec_indicators();
    assert(tables[0] == SelectedView::Operations && tables[1] == SelectedView::Articles
        && tables[2] == SelectedView::Balance);
    assert(indicators[0] == SelectedView::Dynamics && indicators[1] == SelectedView::Percentages
        && indicators[2] == SelectedView::Profit);
}

/// A group in which nothing was clicked leaves the selection as it was, and
/// a click on a view of the group selects a view of that group.
pub proof fn lemma_choice_stays_in_group(
    selected: SelectedView,
    variants: Seq<SelectedView>,
    clicked: Seq<bool>,
)
    ensures
        (forall|i: int| 0 <= i < clicked.len() ==> !clicked[i]) ==> selected.spec_choose(
            variants,
            clicked,
        ) == selected,
        selected.spec_choose(variants, clicked) == selected || variants.contains(
            selected.spec_choose(variants, clicked),
        ),
    decreases variants.len(),
{
    if variants.len() > 0 {
        lemma_choice_stays_in_group(selected, variants.drop_last(), clicked);
        let rest = selected.spec_choose(variants.drop_last(), clicked);
        if variants.len() <= clicked.len() && clicked[variants.len() - 1] {
            assert(variants[variants.len() - 1] == variants.last());
        } else if rest != selected {
            let i = choose|i: int| 0 <= i < variants.drop_last().len() && variants.drop_last()[i]
                == rest;
            assert(variants[i] == rest);
        }
    }
}

} // verus!
