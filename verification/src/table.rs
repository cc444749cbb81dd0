//! The editing state of a table view: which row is under the editor, and
//! what the buttons of a row ask of the database.

use std::collections::BTreeMap;
use vstd::pervasive::cloned;
use vstd::prelude::*;

verus! {

/// What a click in the table asks of the data-access layer.
#[derive(PartialEq, Debug)]
pub enum Response<R> {
    Update(i32, R),
    Insert(R),
    Delete(i32),
}

/// A click on one of the buttons of a row.
#[derive(Clone, Copy, PartialEq, Eq, Structural, Debug)]
pub enum Event {
    /// The edit button of the row with this identity.
    Edit(i32),
    /// The delete button of the row with this identity.
    Delete(i32),
    /// The confirm button of the row under the editor.
    Confirm,
    /// The cancel button of the row under the editor.
    Cancel,
}

/// The rows of a table as they were last read, and the row under the editor
/// if there is one: a copy of a row of the table, under its identity, or a
/// new row without one.
pub struct State<R> {
    values: BTreeMap<i32, R>,
    edited: Option<(Option<i32>, R)>,
}

/// What a table state holds, its rows as a map.
pub struct StateView<R> {
    pub values: Map<i32, R>,
    pub edited: Option<(Option<i32>, R)>,
}

impl<R> View for State<R> {
    type V = StateView<R>;

    closed spec fn view(&self) -> StateView<R> {
        StateView { values: self.values@, edited: self.edited }
    }
}

impl<R> StateView<R> {
    /// A row is under the editor.
    pub open spec fn is_changing(self) -> bool {
        self.edited is Some
    }

    /// A row under the editor that came from the table is still a row of
    /// the table.
    pub open spec fn well_formed(self) -> bool {
        self.edited matches Some((Some(id), _)) ==> self.values.contains_key(id)
    }

    /// The buttons of the rows that are not under the editor work only
    /// while no operation is in flight and no row is under the editor.
    pub open spec fn regular_enabled(self, edit_enabled: bool) -> bool {
        edit_enabled && !self.is_changing()
    }
}

impl<R: Clone> StateView<R> {
    /// `after` and `response` are what a click leads to from this state.
    /// `edit_enabled` says whether the view lets the user act at all, which
    /// it does while no operation is in flight. A click on a button that is
    /// switched off changes nothing and asks for nothing.
    pub open spec fn leads_to(
        self,
        event: Event,
        edit_enabled: bool,
        after: StateView<R>,
        response: Option<Response<R>>,
    ) -> bool {
        match event {
            Event::Edit(id) => {
                &&& response is None
                &&& after.values == self.values
                &&& if self.regular_enabled(edit_enabled) && self.values.contains_key(id) {
                    after.edited matches Some((Some(target), row)) && target == id && cloned(
                        self.values[id],
                        row,
                    )
                } else {
                    after.edited == self.edited
                }
            },
            Event::Delete(id) => {
                &&& after == self
                &&& response == if self.regular_enabled(edit_enabled) && self.values.contains_key(
                    id,
                ) {
                    Some(Response::<R>::Delete(id))
                } else {
                    None
                }
            },
            Event::Confirm => {
                &&& after == self
                &&& match self.edited {
                    Some((Some(id), row)) if edit_enabled => response matches Some(
                        Response::Update(target, sent),
                    ) && target == id && cloned(row, sent),
                    Some((None, row)) if edit_enabled => response matches Some(
                        Response::Insert(sent),
                    ) && cloned(row, sent),
                    _ => response is None,
                }
            },
            Event::Cancel => {
                &&& response is None
                &&& after.values == self.values
                &&& after.edited == if edit_enabled {
                    None
                } else {
                    self.edited
                }
            },
        }
    }
}

impl<R> State<R> {
    #[verifier::type_invariant]
    spec fn inv(&self) -> bool {
        self@.well_formed()
    }

    /// The state of a table that was just read: no row under the editor.
    pub fn new(values: BTreeMap<i32, R>) -> (state: Self)
        ensures
            state@ == (StateView { values: values@, edited: None }),
    {
        State { values, edited: None }
    }

    /// Whether a row is under the editor.
    pub fn is_changing(&self) -> (changing: bool)
        ensures
            changing == self@.is_changing(),
    {
        self.edited.is_some()
    }

    /// The rows of the table.
    pub fn inner(&self) -> (values: &BTreeMap<i32, R>)
        ensures
            values@ == self@.values,
    {
        &self.values
    }

    /// The row under the editor, with the identity it came from.
    pub fn edited(&self) -> (edited: Option<&(Option<i32>, R)>)
        ensures
            match edited {
                Some(held) => self@.edited == Some(*held) && self@.well_formed(),
                None => self@.edited is None,
            },
    {
        proof {
            use_type_invariant(self);
        }
        self.edited.as_ref()
    }

    /// Whether the buttons of the rows that are not under the editor work.
    pub fn regular_enabled(&self, edit_enabled: bool) -> (enabled: bool)
        ensures
            enabled == self@.regular_enabled(edit_enabled),
    {
        edit_enabled && self.edited.is_none()
    }

    /// Puts what the editor's fields now hold in place of the row under the
    /// editor. Without a row under the editor nothing changes.
    pub fn change(&mut self, row: R)
        ensures
            final(self)@.values == old(self)@.values,
            final(self)@.edited == match old(self)@.edited {
                Some((target, _)) => Some((target, row)),
                None => None,
            },
    {
        proof {
            use_type_invariant(&*self);
        }
        let target = match &self.edited {
            Some(held) => held.0,
            None => { return ; },
        };
        self.edited = Some((target, row));
    }
}

impl<R: Default> State<R> {
    /// Opens the editor on a new row, which starts as the default row.
    pub fn insert_new_row(&mut self)
        ensures
            final(self)@.values == old(self)@.values,
            final(self)@.edited matches Some((None, row)) && call_ensures(R::default, (), row),
    {
        self.edited = Some((None, R::default()));
    }
}

impl<R: Clone> State<R> {
    /// Takes a click on a button of a row.
    pub fn apply(&mut self, event: Event, edit_enabled: bool) -> (response: Option<Response<R>>)
        ensures
            old(self)@.leads_to(event, edit_enabled, final(self)@, response),
    {
        broadcast use vstd::std_specs::btree::group_btree_axioms;
        broadcast use vstd::laws_cmp::group_laws_cmp;

        match event {
            Event::Edit(id) => {
                if edit_enabled && self.edited.is_none() {
                    let copy = match self.values.get(&id) {
                        Some(row) => Some(row.clone()),
                        None => None,
                    };
                    match copy {
                        Some(row) => {
                            self.edited = Some((Some(id), row));
                        },
                        None => {},
                    }
                }
                None
            },
            Event::Delete(id) => {
                if edit_enabled && self.edited.is_none() && self.values.contains_key(&id) {
                    Some(Response::Delete(id))
                } else {
                    None
                }
            },
            Event::Confirm => {
                if !edit_enabled {
                    return None;
                }
                match &self.edited {
                    Some((Some(id), row)) => Some(Response::Update(*id, row.clone())),
                    Some((None, row)) => Some(Response::Insert(row.clone())),
                    None => None,
                }
            },
            Event::Cancel => {
                if edit_enabled {
                    self.edited = None;
                }
                None
            },
        }
    }
}

} // verus!
