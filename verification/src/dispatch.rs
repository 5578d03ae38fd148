//! What the dashboard does with each event.
//!
//! The dispatch loop draws, waits for an event and hands it to
//! [`AppState::on_event`]. The answer says whether to go on, to leave, or to
//! read the store first; in that last case the loop reads the records,
//! hands them to [`AppState::with_store`], and writes them back where that
//! says they have changed.

use crate::error::Error;
use crate::input::Event;
use crate::pet::{is_generated, Pet};
use crate::selection::Selection;
use crate::store::{add_random_pet_to_db, remove_pet_at_index};
use vstd::prelude::*;
use vstd::std_specs::convert::FromSpecImpl;

verus! {

/// The tab that is shown.
#[derive(Clone, Copy, Debug, PartialEq, Eq, Structural)]
pub enum MenuItem {
    Home,
    Pets,
}

impl From<MenuItem> for usize {
    /// The position of the tab in the menu bar.
    fn from(input: MenuItem) -> (position: usize) {
        match input {
            MenuItem::Home => 0,
            MenuItem::Pets => 1,
        }
    }
}

impl FromSpecImpl<MenuItem> for usize {
    open spec fn obeys_from_spec() -> bool {
        true
    }

    open spec fn from_spec(input: MenuItem) -> usize {
        match input {
            MenuItem::Home => 0,
            MenuItem::Pets => 1,
        }
    }
}

/// What the dispatcher reads of a key press.
#[derive(Clone, Copy, Debug, PartialEq, Eq, Structural)]
pub enum Key {
    /// A key that stands for a character.
    Char(char),
    /// The arrow up.
    Up,
    /// The arrow down.
    Down,
    /// Any other key.
    Other,
}

/// Work on the list of records.
#[derive(Clone, Copy, Debug, PartialEq, Eq, Structural)]
pub enum StoreRequest {
    /// Append a freshly generated record.
    Add,
    /// Remove the highlighted record.
    Delete,
    /// Move the highlight one record up.
    MoveUp,
    /// Move the highlight one record down.
    MoveDown,
}

/// What the dispatch loop does after an event.
#[derive(Clone, Copy, Debug, PartialEq, Eq, Structural)]
pub enum Action {
    /// Draw again and wait for the next event.
    Continue,
    /// Restore the terminal and leave the loop.
    Quit,
    /// Read the store and hand it to [`AppState::with_store`] with this
    /// request.
    Store(StoreRequest),
}

/// The state that the dispatch loop owns.
#[derive(Clone, Copy, Debug, PartialEq, Eq, Structural)]
pub struct AppState {
    pub active_menu_item: MenuItem,
    pub pet_list_state: Selection,
}

/// What a key asks for: `q` leaves, `h` and `p` switch tabs, `a` adds a
/// record, `d` deletes the highlighted one, the arrows move the highlight,
/// ticks and all other keys change nothing.
pub open spec fn spec_on_event(state: AppState, event: Event<Key>) -> (AppState, Action) {
    match event {
        Event::Tick => (state, Action::Continue),
        Event::Input(key) => match key {
            Key::Char(c) => if c == 'q' {
                (state, Action::Quit)
            } else if c == 'h' {
                (AppState { active_menu_item: MenuItem::Home, ..state }, Action::Continue)
            } else if c == 'p' {
                (AppState { active_menu_item: MenuItem::Pets, ..state }, Action::Continue)
            } else if c == 'a' {
                (state, Action::Store(StoreRequest::Add))
            } else if c == 'd' {
                (state, Action::Store(StoreRequest::Delete))
            } else {
                (state, Action::Continue)
            },
            Key::Down => (state, Action::Store(StoreRequest::MoveDown)),
            Key::Up => (state, Action::Store(StoreRequest::MoveUp)),
            Key::Other => (state, Action::Continue),
        },
    }
}

/// The highlight and the length of the list after a request was carried
/// out on a list of `len` records. A request that fails leaves both.
pub open spec fn spec_after(request: StoreRequest, selection: Selection, len: usize) -> (
    Selection,
    usize,
) {
    match request {
        StoreRequest::Add => (selection.spec_fit((len + 1) as usize), (len + 1) as usize),
        StoreRequest::Delete => match selection {
            Selection::Empty => (selection, len),
            Selection::At(selected) => if selected < len {
                (selection.spec_after_remove((len - 1) as usize), (len - 1) as usize)
            } else {
                (selection, len)
            },
        },
        StoreRequest::MoveUp => (selection.spec_move_up(len), len),
        StoreRequest::MoveDown => (selection.spec_move_down(len), len),
    }
}

/// The highlight and the length of the list after a run of requests, each
/// carried out on what the one before it left.
pub open spec fn spec_after_all(requests: Seq<StoreRequest>, selection: Selection, len: usize) -> (
    Selection,
    usize,
)
    decreases requests.len(),
{
    if requests.len() == 0 {
        (selection, len)
    } else {
        let (next_selection, next_len) = spec_after(requests[0], selection, len);
        spec_after_all(requests.drop_first(), next_selection, next_len)
    }
}

/// Whether a request fails on a list of `len` records: only a removal
/// through a highlight that points past the end of the list does.
pub open spec fn spec_fails(request: StoreRequest, selection: Selection, len: usize) -> bool {
    &&& request == StoreRequest::Delete
    &&& selection matches Selection::At(selected)
    &&& selected >= len
}

impl AppState {
    /// The state at startup, over a store of `len` records: the home tab,
    /// and the first record highlighted if there is one.
    pub fn new(len: usize) -> (state: AppState)
        ensures
            state.active_menu_item == MenuItem::Home,
            state.pet_list_state == Selection::Empty.spec_fit(len),
            state.pet_list_state.valid_for(len),
    {
        AppState { active_menu_item: MenuItem::Home, pet_list_state: Selection::initial(len) }
    }

    /// Takes one event and says what the loop is to do next. Only the tab
    /// can change here; the highlight moves in [`AppState::with_store`].
    pub fn on_event(&mut self, event: Event<Key>) -> (action: Action)
        ensures
            (*final(self), action) == spec_on_event(*old(self), event),
            final(self).pet_list_state == old(self).pet_list_state,
    {
        match event {
            Event::Tick => Action::Continue,
            Event::Input(key) => match key {
                Key::Char(c) => {
                    if c == 'q' {
                        Action::Quit
                    } else if c == 'h' {
                        self.active_menu_item = MenuItem::Home;
                        Action::Continue
                    } else if c == 'p' {
                        self.active_menu_item = MenuItem::Pets;
                        Action::Continue
                    } else if c == 'a' {
                        Action::Store(StoreRequest::Add)
                    } else if c == 'd' {
                        Action::Store(StoreRequest::Delete)
                    } else {
                        Action::Continue
                    }
                },
                Key::Down => Action::Store(StoreRequest::MoveDown),
                Key::Up => Action::Store(StoreRequest::MoveUp),
                Key::Other => Action::Continue,
            },
        }
    }

    /// Carries out a request on the records as they were just read. The
    /// answer is whether the records have changed and are to be written
    /// back. A request fails only as `spec_fails` says, with an
    /// `IndexError`, and then nothing has changed.
    pub fn with_store(&mut self, request: StoreRequest, records: &mut Vec<Pet>) -> (changed: Result<
        bool,
        Error,
    >)
        ensures
            final(self).active_menu_item == old(self).active_menu_item,
            changed is Err <==> spec_fails(
                request,
                old(self).pet_list_state,
                old(records).len(),
            ),
            (final(self).pet_list_state, final(records).len()) == spec_after(
                request,
                old(self).pet_list_state,
                old(records).len(),
            ),
            old(self).pet_list_state.valid_for(old(records).len()) ==> final(
                self
            ).pet_list_state.valid_for(final(records).len()),
            match request {
                StoreRequest::Add => {
                    &&& final(records)@.drop_last() == old(records)@
                    &&& is_generated(final(records)@.last()@)
                },
                StoreRequest::Delete => match old(self).pet_list_state {
                    Selection::At(selected) if selected < old(records)@.len() => final(records)@
                        == old(records)@.remove(selected as int),
                    _ => final(records)@ == old(records)@,
                },
                _ => final(records)@ == old(records)@,
            },
            match changed {
                Ok(written) => written == (final(records)@.len() != old(records)@.len()),
                Err(error) => {
                    &&& error matches Error::IndexError { index, len }
                    &&& old(self).pet_list_state == Selection::At(index)
                    &&& len == old(records)@.len()
                },
            },
    {
        match request {
            StoreRequest::Add => {
                add_random_pet_to_db(records);
                self.pet_list_state = self.pet_list_state.fit(records.len());
                Ok(true)
            },
            StoreRequest::Delete => {
                let before: usize = records.len();
                match remove_pet_at_index(records, &mut self.pet_list_state) {
                    Ok(()) => Ok(records.len() != before),
                    Err(error) => Err(error),
                }
            },
            StoreRequest::MoveUp => {
                self.pet_list_state = self.pet_list_state.move_up(records.len());
                Ok(false)
            },
            StoreRequest::MoveDown => {
                self.pet_list_state = self.pet_list_state.move_down(records.len());
                Ok(false)
            },
        }
    }
}

/// No run of requests takes the highlight out of the list: from a highlight
/// that is valid for the list, every request, whether it succeeds or fails,
/// leaves one that is valid for the list as it is then.
pub proof fn lemma_selection_stays_in_range(
    requests: Seq<StoreRequest>,
    selection: Selection,
    len: usize,
)
    requires
        selection.valid_for(len),
        len + requests.len() <= usize::MAX,
    ensures
        ({
            let (last_selection, last_len) = spec_after_all(requests, selection, len);
            last_selection.valid_for(last_len)
        }),
    decreases requests.len(),
{
    if requests.len() > 0 {
        let (next_selection, next_len) = spec_after(requests[0], selection, len);
        lemma_selection_stays_in_range(requests.drop_first(), next_selection, next_len);
    }
}

} // verus!
