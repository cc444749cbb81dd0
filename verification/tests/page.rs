use dbgui::page::SelectedView;
use dbgui::page::SelectedView::{Articles, Balance, Dynamics, Operations, Percentages, Profit};

#[test]
fn labels_of_the_views() {
    assert_eq!(Dynamics.label(), "Динамика");
    assert_eq!(Percentages.label(), "Проценты");
    assert_eq!(Profit.label(), "Прибыль");
    assert_eq!(Operations.label(), "Операции");
    assert_eq!(Articles.label(), "Статьи");
    assert_eq!(Balance.label(), "Баланс");
}

#[test]
fn main_page_opens_with_the_operations() {
    assert_eq!(SelectedView::initial(), Operations);
}

#[test]
fn groups_of_the_side_panel() {
    assert_eq!(SelectedView::tables(), vec![Operations, Articles, Balance]);
    assert_eq!(SelectedView::indicators(), vec![Dynamics, Percentages, Profit]);
    for view in [Dynamics, Percentages, Profit, Operations, Articles, Balance] {
        assert_ne!(
            SelectedView::tables().contains(&view),
            SelectedView::indicators().contains(&view)
        );
    }
}

#[test]
fn click_selects_the_view() {
    let tables = SelectedView::tables();
    assert_eq!(Operations.side_buttons(&tables, &vec![false, true, false]), Articles);
    assert_eq!(Profit.side_buttons(&tables, &vec![false, false, true]), Balance);
}

#[test]
fn no_click_keeps_the_selection() {
    let indicators = SelectedView::indicators();
    assert_eq!(Balance.side_buttons(&indicators, &vec![false, false, false]), Balance);
    assert_eq!(Balance.side_buttons(&indicators, &Vec::new()), Balance);
    assert_eq!(Balance.side_buttons(&Vec::new(), &vec![true]), Balance);
}

#[test]
fn last_click_of_a_group_wins() {
    let indicators = SelectedView::indicators();
    assert_eq!(Operations.side_buttons(&indicators, &vec![true, true, false]), Percentages);
    assert_eq!(Operations.side_buttons(&indicators, &vec![true, false, true, true]), Profit);
    assert_eq!(Operations.side_buttons(&indicators, &vec![true]), Dynamics);
}
