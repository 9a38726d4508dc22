use vstd::prelude::*;

use crate::county::County;
use crate::tui_utils::ListCursor;
use crate::weather_report::WeatherType;

verus! {

/// A key that the dashboard reads: a character, or any other key.
#[derive(Clone, Copy, Debug, PartialEq, Eq, Structural)]
pub enum Key {
    Char(char),
    Other,
}

/// One event from the input reader: a key press, or a tick of its clock.
#[derive(Clone, Copy, Debug, PartialEq, Eq, Structural)]
pub enum TickedUserInput {
    Input(Key),
    Tick,
}

/// Whether the dashboard goes on after an event.
#[derive(Clone, Copy, Debug, PartialEq, Eq, Structural)]
pub enum ResponseToUserInput {
    Continue,
    Stop,
}

pub const QUIT_KEY: char = 'q';
pub const WIND_KEY: char = 'w';
pub const RAIN_KEY: char = 'r';
pub const SUN_KEY: char = 's';
pub const UP_KEY: char = 'k';
pub const DOWN_KEY: char = 'j';
pub const FETCH_KEY: char = 'g';

/// A cursor is valid for a list of `len` entries when it is on an entry, or
/// the list is empty and it is on nothing.
pub open spec fn cursor_valid(selected: Option<usize>, len: nat) -> bool {
    match selected {
        Some(i) => i < len,
        None => len == 0,
    }
}

/// The cursor after one step down a list of `len` entries; it stays on the
/// last entry.
pub open spec fn next_selection(selected: Option<usize>, len: nat) -> Option<usize> {
    match selected {
        Some(i) => if i + 1 < len { Some((i + 1) as usize) } else { selected },
        None => if 0 < len { Some(0usize) } else { selected },
    }
}

/// The cursor after one step up a list of `len` entries; it stays on the
/// first entry.
pub open spec fn previous_selection(selected: Option<usize>, len: nat) -> Option<usize> {
    if len == 0 {
        selected
    } else {
        match selected {
            Some(i) => if i == 0 { Some(0usize) } else { Some((i - 1) as usize) },
            None => Some(0usize),
        }
    }
}

/// The channel shown after `key` was pressed while `current` was shown.
pub open spec fn channel_after_key(key: Key, current: WeatherType) -> WeatherType {
    if key == Key::Char(WIND_KEY) {
        WeatherType::Wind
    } else if key == Key::Char(RAIN_KEY) {
        WeatherType::Rain
    } else if key == Key::Char(SUN_KEY) {
        WeatherType::Sun
    } else {
        current
    }
}

/// The cursor after `key` was pressed over a list of `len` entries.
pub open spec fn cursor_after_key(key: Key, selected: Option<usize>, len: nat) -> Option<usize> {
    if key == Key::Char(UP_KEY) {
        previous_selection(selected, len)
    } else if key == Key::Char(DOWN_KEY) {
        next_selection(selected, len)
    } else {
        selected
    }
}

/// The cursor after a run of keys, pressed in order.
pub open spec fn cursor_after_keys(keys: Seq<Key>, selected: Option<usize>, len: nat) -> Option<usize>
    decreases keys.len(),
{
    if keys.len() == 0 {
        selected
    } else {
        cursor_after_keys(keys.drop_first(), cursor_after_key(keys[0], selected, len), len)
    }
}

/// Whatever keys are pressed, a valid cursor stays valid: on an entry of
/// a non-empty list, and on nothing for an empty one.
pub proof fn lemma_cursor_stays_in_range(keys: Seq<Key>, selected: Option<usize>, len: nat)
    requires
        cursor_valid(selected, len),
    ensures
        cursor_valid(cursor_after_keys(keys, selected, len), len),
    decreases keys.len(),
{
    if keys.len() > 0 {
        lemma_cursor_stays_in_range(
            keys.drop_first(),
            cursor_after_key(keys[0], selected, len),
            len,
        );
    }
}

/// A step down from the last entry leaves the cursor where it is.
pub proof fn lemma_next_clamps_at_end(len: nat)
    requires
        0 < len <= usize::MAX,
    ensures
        next_selection(Some((len - 1) as usize), len) == Some((len - 1) as usize),
{
}

/// The dashboard's state, owned by its loop.
pub struct AppState {
    pub active_weather_type: WeatherType,
    pub counties_list: ListCursor,
    pub counties: Vec<County>,
    pub weather_requested: bool,
}

impl AppState {
    /// The cursor is on one of the counties, or on nothing when there are none.
    pub open spec fn wf(&self) -> bool {
        cursor_valid(self.counties_list.selected, self.counties@.len())
    }

    /// The county under the cursor, if any.
    pub open spec fn selected_county(&self) -> Option<County> {
        match self.counties_list.selected {
            Some(i) => Some(self.counties@[i as int]),
            None => None,
        }
    }

    /// A state over `counties`, with the cursor on the first of them, showing
    /// rain, with no fetch held.
    pub fn new(counties: Vec<County>) -> (r: AppState)
        ensures
            r.wf(),
            r.counties@ == counties@,
            r.counties_list.selected == (if counties@.len() > 0 { Some(0usize) } else { None }),
            r.active_weather_type == WeatherType::Rain,
            !r.weather_requested,
    {
        let selected = if counties.len() > 0 { Some(0) } else { None };
        AppState {
            active_weather_type: WeatherType::Rain,
            counties_list: ListCursor::new(selected),
            counties,
            weather_requested: false,
        }
    }

    /// Moves the cursor one county down, stopping at the last.
    pub fn select_next_index(&mut self)
        requires
            old(self).wf(),
        ensures
            final(self).wf(),
            final(self).counties == old(self).counties,
            final(self).active_weather_type == old(self).active_weather_type,
            final(self).weather_requested == old(self).weather_requested,
            final(self).counties_list.selected == next_selection(
                old(self).counties_list.selected,
                old(self).counties@.len(),
            ),
    {
        let len = self.counties.len();
        let next_index = match self.counties_list.selected() {
            Some(i) => i + 1,
            None => 0,
        };
        if next_index < len {
            self.counties_list.select(Some(next_index));
        }
    }

    /// Moves the cursor one county up, stopping at the first.
    pub fn select_previous_index(&mut self)
        requires
            old(self).wf(),
        ensures
            final(self).wf(),
            final(self).counties == old(self).counties,
            final(self).active_weather_type == old(self).active_weather_type,
            final(self).weather_requested == old(self).weather_requested,
            final(self).counties_list.selected == previous_selection(
                old(self).counties_list.selected,
                old(self).counties@.len(),
            ),
    {
        if self.counties.len() == 0 {
            return;
        }
        let previous_index = match self.counties_list.selected() {
            Some(i) => i.saturating_sub(1),
            None => 0,
        };
        self.counties_list.select(Some(previous_index));
    }

    /// The county under the cursor, if any.
    pub fn get_selected_county(&self) -> (r: Option<County>)
        requires
            self.wf(),
        ensures
            r == self.selected_county(),
    {
        match self.counties_list.selected() {
            Some(county_index) => Some(self.counties[county_index].clone()),
            None => None,
        }
    }
}

impl Default for AppState {
    /// Wexford and Cork, the cursor on Wexford, showing rain.
    fn default() -> (r: Self)
        ensures
            r.wf(),
            r.counties@.len() == 2,
            r.counties@[0]@ == "Wexford"@,
            r.counties@[1]@ == "Cork"@,
            r.counties_list.selected == Some(0usize),
            r.active_weather_type == WeatherType::Rain,
            !r.weather_requested,
    {
        let counties = vec![County(String::from_str("Wexford")), County(String::from_str("Cork"))];
        AppState::new(counties)
    }
}

/// Applies one input event to the state, and says whether the loop goes on.
pub fn handle_user_input(user_input: &TickedUserInput, app_state: &mut AppState) -> (r:
    ResponseToUserInput)
    requires
        old(app_state).wf(),
    ensures
        final(app_state).wf(),
        final(app_state).counties == old(app_state).counties,
        match *user_input {
            TickedUserInput::Tick => {
                &&& r == ResponseToUserInput::Continue
                &&& final(app_state).active_weather_type == old(app_state).active_weather_type
                &&& final(app_state).counties_list == old(app_state).counties_list
                &&& !final(app_state).weather_requested
            },
            TickedUserInput::Input(key) => if key == Key::Char(QUIT_KEY) {
                &&& r == ResponseToUserInput::Stop
                &&& final(app_state).active_weather_type == old(app_state).active_weather_type
                &&& final(app_state).counties_list == old(app_state).counties_list
                &&& final(app_state).weather_requested == old(app_state).weather_requested
            } else {
                &&& r == ResponseToUserInput::Continue
                &&& final(app_state).active_weather_type == channel_after_key(
                    key,
                    old(app_state).active_weather_type,
                )
                &&& final(app_state).counties_list.selected == cursor_after_key(
                    key,
                    old(app_state).counties_list.selected,
                    old(app_state).counties@.len(),
                )
                &&& final(app_state).weather_requested == (key == Key::Char(FETCH_KEY))
            },
        },
{
    let key = match user_input {
        TickedUserInput::Tick => {
            app_state.weather_requested = false;
            return ResponseToUserInput::Continue;
        },
        TickedUserInput::Input(key) => *key,
    };
    if key == Key::Char(QUIT_KEY) {
        return ResponseToUserInput::Stop;
    }
    if key == Key::Char(WIND_KEY) {
        app_state.active_weather_type = WeatherType::Wind;
    } else if key == Key::Char(RAIN_KEY) {
        app_state.active_weather_type = WeatherType::Rain;
    } else if key == Key::Char(SUN_KEY) {
        app_state.active_weather_type = WeatherType::Sun;
    } else if key == Key::Char(UP_KEY) {
        app_state.select_previous_index();
    } else if key == Key::Char(DOWN_KEY) {
        app_state.select_next_index();
    } else if key == Key::Char(FETCH_KEY) {
        app_state.weather_requested = true;
    }
    if key != Key::Char(FETCH_KEY) {
        app_state.weather_requested = false;
    }
    ResponseToUserInput::Continue
}

/// The county to request a forecast for in this round: the one under the
/// cursor, while a fetch is held.
pub fn weather_request(app_state: &AppState) -> (r: Option<County>)
    requires
        app_state.wf(),
    ensures
        r == (if app_state.weather_requested { app_state.selected_county() } else { None }),
{
    if app_state.weather_requested {
        app_state.get_selected_county()
    } else {
        None
    }
}

} // verus!
