use weather_dashboard::app_state::{
    handle_user_input, weather_request, AppState, Key, ResponseToUserInput, TickedUserInput,
};
use weather_dashboard::county::County;
use weather_dashboard::tui_utils::{get_next_index, get_previous_index, ListCursor};
use weather_dashboard::weather_report::WeatherType;

fn press(state: &mut AppState, c: char) -> ResponseToUserInput {
    handle_user_input(&TickedUserInput::Input(Key::Char(c)), state)
}

fn counties(names: &[&str]) -> Vec<County> {
    names.iter().map(|n| County(n.to_string())).collect()
}

#[test]
fn default_state() {
    let state = AppState::default();
    assert_eq!(state.counties, counties(&["Wexford", "Cork"]));
    assert_eq!(state.counties_list.selected(), Some(0));
    assert_eq!(state.active_weather_type, WeatherType::Rain);
    assert!(!state.weather_requested);
}

#[test]
fn down_at_last_index_is_clamped() {
    let mut state = AppState::default();
    assert_eq!(press(&mut state, 'j'), ResponseToUserInput::Continue);
    assert_eq!(state.counties_list.selected(), Some(1));
    assert_eq!(press(&mut state, 'j'), ResponseToUserInput::Continue);
    assert_eq!(state.counties_list.selected(), Some(1));
}

#[test]
fn up_at_first_index_is_clamped() {
    let mut state = AppState::default();
    press(&mut state, 'k');
    assert_eq!(state.counties_list.selected(), Some(0));
    press(&mut state, 'j');
    press(&mut state, 'k');
    assert_eq!(state.counties_list.selected(), Some(0));
}

#[test]
fn cursor_stays_in_range_over_many_keys() {
    let mut state = AppState::new(counties(&["A", "B", "C"]));
    let keys = "jjjjkjkkkkjjjjjjkj";
    for c in keys.chars() {
        press(&mut state, c);
        let i = state.counties_list.selected().unwrap();
        assert!(i < 3);
    }
    assert_eq!(state.counties_list.selected(), Some(2));
}

#[test]
fn empty_county_list_never_panics() {
    let mut state = AppState::new(Vec::new());
    assert_eq!(state.counties_list.selected(), None);
    for c in "jkjkg".chars() {
        press(&mut state, c);
        assert_eq!(state.counties_list.selected(), None);
    }
    assert_eq!(state.get_selected_county(), None);
    assert_eq!(weather_request(&state), None);
}

#[test]
fn channel_keys() {
    let mut state = AppState::default();
    press(&mut state, 'w');
    assert_eq!(state.active_weather_type, WeatherType::Wind);
    press(&mut state, 's');
    assert_eq!(state.active_weather_type, WeatherType::Sun);
    press(&mut state, 'x');
    assert_eq!(state.active_weather_type, WeatherType::Sun);
    press(&mut state, 'r');
    assert_eq!(state.active_weather_type, WeatherType::Rain);
}

#[test]
fn fetch_is_held_only_while_pressed() {
    let mut state = AppState::default();
    press(&mut state, 'g');
    assert!(state.weather_requested);
    assert_eq!(weather_request(&state), Some(County("Wexford".to_string())));
    press(&mut state, 'g');
    assert!(state.weather_requested);
    press(&mut state, 'x');
    assert!(!state.weather_requested);
    assert_eq!(weather_request(&state), None);
    press(&mut state, 'g');
    handle_user_input(&TickedUserInput::Input(Key::Other), &mut state);
    assert!(!state.weather_requested);
    press(&mut state, 'g');
    assert_eq!(
        handle_user_input(&TickedUserInput::Tick, &mut state),
        ResponseToUserInput::Continue
    );
    assert!(!state.weather_requested);
}

#[test]
fn quit_stops_the_loop() {
    let mut state = AppState::default();
    press(&mut state, 'j');
    assert_eq!(press(&mut state, 'q'), ResponseToUserInput::Stop);
    assert_eq!(state.counties_list.selected(), Some(1));
}

#[test]
fn selected_county_follows_cursor() {
    let mut state = AppState::default();
    assert_eq!(state.get_selected_county(), Some(County("Wexford".to_string())));
    state.select_next_index();
    assert_eq!(state.get_selected_county(), Some(County("Cork".to_string())));
    state.select_previous_index();
    assert_eq!(state.get_selected_county(), Some(County("Wexford".to_string())));
}

#[test]
fn list_cursor_steps() {
    assert_eq!(get_next_index(&ListCursor::new(None)), Some(0));
    assert_eq!(get_next_index(&ListCursor::new(Some(4))), Some(5));
    assert_eq!(get_previous_index(&ListCursor::new(None)), Some(0));
    assert_eq!(get_previous_index(&ListCursor::new(Some(0))), Some(0));
    assert_eq!(get_previous_index(&ListCursor::new(Some(4))), Some(3));
    let mut cursor = ListCursor::new(None);
    cursor.select(Some(2));
    assert_eq!(cursor.selected(), Some(2));
}
