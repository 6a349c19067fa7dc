//! The favorites tab.

use vstd::prelude::*;
use crate::market::Event;
use crate::navigation::{moved_down, moved_up, step_down, step_up};

verus! {

/// One entry of the list of favorites, as the service keeps it.
#[derive(Debug)]
pub struct FavoriteEvent {
    pub id: String,
    pub event_id: String,
}

/// The state of the favorites tab.
#[derive(Debug)]
pub struct FavoritesState {
    pub events: Vec<Event>,
    pub favorite_ids: Vec<FavoriteEvent>,
    /// The identifiers of the favorite events.
    pub favorite_event_slugs: Vec<String>,
    pub selected_index: usize,
    pub scroll: usize,
    pub is_loading: bool,
    pub error_message: Option<String>,
}

impl FavoritesState {
    /// The identifier is among those of the favorite events.
    pub open spec fn has_favorite(&self, slug: Seq<char>) -> bool {
        exists|i: int|
            0 <= i < self.favorite_event_slugs@.len() && (
            #[trigger] self.favorite_event_slugs@[i])@ == slug
    }

    pub fn new() -> (r: Self)
        ensures
            r.events@ == Seq::<Event>::empty(),
            r.favorite_ids@ == Seq::<FavoriteEvent>::empty(),
            r.favorite_event_slugs@ == Seq::<String>::empty(),
            r.selected_index == 0,
            r.scroll == 0,
            !r.is_loading,
            r.error_message is None,
    {
        FavoritesState {
            events: Vec::new(),
            favorite_ids: Vec::new(),
            favorite_event_slugs: Vec::new(),
            selected_index: 0,
            scroll: 0,
            is_loading: false,
            error_message: None,
        }
    }

    /// The selected event, if the selection lies among the events.
    pub fn selected_event(&self) -> (r: Option<&Event>)
        ensures
            r is Some <==> self.selected_index < self.events@.len(),
            r matches Some(e) ==> *e == self.events@[self.selected_index as int],
    {
        if self.selected_index < self.events.len() {
            Some(&self.events[self.selected_index])
        } else {
            None
        }
    }

    /// Whether an event is a favorite.
    pub fn is_favorite(&self, slug: &str) -> (r: bool)
        ensures
            r == self.has_favorite(slug@),
    {
        let key = slug.to_owned();
        let mut i: usize = 0;
        while i < self.favorite_event_slugs.len()
            invariant
                0 <= i <= self.favorite_event_slugs@.len(),
                key@ == slug@,
                forall|j: int| 0 <= j < i ==> (#[trigger] self.favorite_event_slugs@[j])@ != slug@,
            decreases self.favorite_event_slugs@.len() - i,
        {
            if self.favorite_event_slugs[i] == key {
                return true;
            }
            i = i + 1;
        }
        false
    }

    /// Moves the selection one row up.
    pub fn move_up(&mut self)
        ensures
            (final(self).selected_index as nat, final(self).scroll as nat) == moved_up(
                old(self).selected_index as nat,
                old(self).scroll as nat,
            ),
            *final(self) == (FavoritesState {
                selected_index: final(self).selected_index,
                scroll: final(self).scroll,
                ..*old(self)
            }),
    {
        let (selected, scroll) = step_up(self.selected_index, self.scroll);
        self.selected_index = selected;
        self.scroll = scroll;
    }

    /// Moves the selection one row down among the events, of which
    /// `visible_height` fit the panel.
    pub fn move_down(&mut self, visible_height: usize)
        ensures
            (final(self).selected_index as nat, final(self).scroll as nat) == moved_down(
                old(self).selected_index as nat,
                old(self).scroll as nat,
                old(self).events@.len(),
                visible_height as nat,
            ),
            *final(self) == (FavoritesState {
                selected_index: final(self).selected_index,
                scroll: final(self).scroll,
                ..*old(self)
            }),
    {
        let (selected, scroll) = step_down(
            self.selected_index,
            self.scroll,
            self.events.len(),
            visible_height,
        );
        self.selected_index = selected;
        self.scroll = scroll;
    }

    /// Drops the events and the entries and selects the first row. The
    /// identifiers of the favorites stay.
    pub fn clear(&mut self)
        ensures
            final(self).events@ == Seq::<Event>::empty(),
            final(self).favorite_ids@ == Seq::<FavoriteEvent>::empty(),
            *final(self) == (FavoritesState {
                events: final(self).events,
                favorite_ids: final(self).favorite_ids,
                selected_index: 0,
                scroll: 0,
                error_message: None,
                ..*old(self)
            }),
    {
        self.events.clear();
        self.favorite_ids.clear();
        self.selected_index = 0;
        self.scroll = 0;
        self.error_message = None;
    }
}

} // verus!
