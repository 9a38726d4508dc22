use weather_dashboard::app_state::{
    handle_user_input, weather_request, AppState, Key, ResponseToUserInput, TickedUserInput,
};
use weather_dashboard::county::County;
use weather_dashboard::dashboard::receive_weather;
use weather_dashboard::forecast_cache::ForecastCache;
use weather_dashboard::multiplexer::{
    Multiplexer, MultiplexerAction, MultiplexerEvent, ResponseOutcome, ServerError, ServerResult,
};
use weather_dashboard::provider::CountyWeatherProvider;
use weather_dashboard::ticker::{poll_timeout, tick_due};
use weather_dashboard::weather_report::{WeatherReport, WeatherType};

fn county(name: &str) -> County {
    County(name.to_string())
}

fn report(wind: f32, rain: f32, sun: f32) -> WeatherReport {
    WeatherReport::new(sun.to_bits(), wind.to_bits(), rain.to_bits())
}

fn submit(mux: &mut Multiplexer, name: &str) -> u64 {
    match mux.step(MultiplexerEvent::Submitted(county(name))) {
        MultiplexerAction::SendCommand(ticket, c) => {
            assert_eq!(c, county(name));
            ticket
        }
        other => panic!("unexpected action {:?}", other),
    }
}

fn resolve(mux: &mut Multiplexer, ticket: u64, outcome: ResponseOutcome) -> MultiplexerAction {
    mux.step(MultiplexerEvent::Resolved(ticket, outcome))
}

#[test]
fn out_of_order_completions_are_keyed_by_county() {
    let names = ["Wexford", "Cork", "Kerry", "Sligo"];
    let mut mux = Multiplexer::new();
    let tickets: Vec<u64> = names.iter().map(|n| submit(&mut mux, n)).collect();
    assert_eq!(mux.outstanding_count(), 4);
    let mut cache = ForecastCache::new();
    for &i in &[2usize, 0, 3, 1] {
        let r = report(i as f32, 0.5, 0.25);
        match resolve(&mut mux, tickets[i], ResponseOutcome::Answered(r)) {
            MultiplexerAction::Deliver(result) => {
                assert_eq!(result, ServerResult::Forecast(county(names[i]), r));
                assert!(receive_weather(result, &mut cache));
            }
            other => panic!("unexpected action {:?}", other),
        }
    }
    assert_eq!(cache.len(), 4);
    for (i, name) in names.iter().enumerate() {
        assert_eq!(cache.get(&county(name)), Some(report(i as f32, 0.5, 0.25)));
    }
    assert_eq!(mux.outstanding_count(), 0);
}

#[test]
fn dropped_response_gives_no_answer() {
    let mut mux = Multiplexer::new();
    let t = submit(&mut mux, "Cork");
    let mut cache = ForecastCache::new();
    let action = resolve(&mut mux, t, ResponseOutcome::Dropped);
    assert_eq!(action, MultiplexerAction::Deliver(ServerResult::NoAnswer(county("Cork"))));
    if let MultiplexerAction::Deliver(result) = action {
        assert!(!receive_weather(result, &mut cache));
    }
    assert_eq!(cache.len(), 0);
    assert_eq!(mux.outstanding_count(), 0);
    let next = submit(&mut mux, "Cork");
    assert_ne!(next, t);
}

#[test]
fn server_error_is_delivered_and_cache_kept() {
    let mut mux = Multiplexer::new();
    let mut cache = ForecastCache::new();
    cache.insert(county("Cork"), report(1.0, 2.0, 3.0));
    let t = submit(&mut mux, "Cork");
    let error = ServerError { message: "overloaded".to_string() };
    let action = resolve(&mut mux, t, ResponseOutcome::Failed(error.clone()));
    assert_eq!(
        action,
        MultiplexerAction::Deliver(ServerResult::ServerFailure(county("Cork"), error))
    );
    if let MultiplexerAction::Deliver(result) = action {
        assert!(!receive_weather(result, &mut cache));
    }
    assert_eq!(cache.get(&county("Cork")), Some(report(1.0, 2.0, 3.0)));
}

#[test]
fn unknown_or_repeated_ticket_is_ignored() {
    let mut mux = Multiplexer::new();
    let t = submit(&mut mux, "Cork");
    assert_eq!(resolve(&mut mux, t + 7, ResponseOutcome::Dropped), MultiplexerAction::Idle);
    assert_eq!(mux.outstanding_count(), 1);
    let r = report(0.1, 0.2, 0.3);
    assert!(matches!(
        resolve(&mut mux, t, ResponseOutcome::Answered(r)),
        MultiplexerAction::Deliver(_)
    ));
    assert_eq!(resolve(&mut mux, t, ResponseOutcome::Answered(r)), MultiplexerAction::Idle);
}

#[test]
fn finishes_only_when_closed_and_drained() {
    let mut mux = Multiplexer::new();
    assert!(!mux.is_finished());
    let t = submit(&mut mux, "Cork");
    assert_eq!(mux.step(MultiplexerEvent::SubmissionsClosed), MultiplexerAction::Idle);
    assert!(!mux.is_finished());
    resolve(&mut mux, t, ResponseOutcome::Dropped);
    assert!(mux.is_finished());
}

#[test]
fn many_outstanding_requests_are_not_capped() {
    let mut mux = Multiplexer::new();
    for i in 0..1000u64 {
        assert_eq!(submit(&mut mux, "Cork"), i);
    }
    assert_eq!(mux.outstanding_count(), 1000);
}

#[test]
fn refetch_overwrites_without_growing() {
    let mut cache = ForecastCache::new();
    cache.insert(county("Cork"), report(0.1, 0.2, 0.3));
    cache.insert(county("Wexford"), report(0.4, 0.5, 0.6));
    assert_eq!(cache.len(), 2);
    cache.insert(county("Cork"), report(0.7, 0.8, 0.9));
    assert_eq!(cache.len(), 2);
    assert_eq!(cache.get(&county("Cork")), Some(report(0.7, 0.8, 0.9)));
    assert_eq!(cache.get(&county("Wexford")), Some(report(0.4, 0.5, 0.6)));
    assert_eq!(cache.get(&county("Kerry")), None);
}

#[test]
fn fetch_wexford_shows_its_rain() {
    let mut state = AppState::default();
    let mut mux = Multiplexer::new();
    let mut cache = ForecastCache::new();
    let r = handle_user_input(&TickedUserInput::Input(Key::Char('g')), &mut state);
    assert_eq!(r, ResponseToUserInput::Continue);
    let requested = weather_request(&state).unwrap();
    assert_eq!(requested, county("Wexford"));
    let t = submit(&mut mux, requested.name());
    let answer = report(0.1, 0.2, 0.3);
    if let MultiplexerAction::Deliver(result) =
        resolve(&mut mux, t, ResponseOutcome::Answered(answer))
    {
        receive_weather(result, &mut cache);
    }
    let shown = cache.forecast_for(&county("Wexford"), state.active_weather_type).unwrap();
    assert_eq!(f32::from_bits(shown), 0.2);
    assert_eq!(cache.forecast_for(&county("Cork"), WeatherType::Rain), None);
}

#[test]
fn quit_with_requests_in_flight() {
    let mut state = AppState::default();
    let mut mux = Multiplexer::new();
    submit(&mut mux, "Wexford");
    submit(&mut mux, "Cork");
    let r = handle_user_input(&TickedUserInput::Input(Key::Char('q')), &mut state);
    assert_eq!(r, ResponseToUserInput::Stop);
    assert_eq!(mux.step(MultiplexerEvent::SubmissionsClosed), MultiplexerAction::Idle);
    assert_eq!(mux.outstanding_count(), 2);
    assert!(!mux.is_finished());
}

#[test]
fn ticker_timing() {
    assert_eq!(poll_timeout(200, 50), 150);
    assert_eq!(poll_timeout(200, 200), 0);
    assert_eq!(poll_timeout(200, 350), 0);
    assert!(!tick_due(200, 199));
    assert!(tick_due(200, 200));
    assert!(tick_due(200, 201));
}

#[test]
fn provider_answers_for_the_requested_county() {
    let provider = CountyWeatherProvider::new();
    let (c, r) = provider.process(&county("Kerry"), 0.3f32.to_bits(), 0.1f32.to_bits(), 0.2f32.to_bits());
    assert_eq!(c, county("Kerry"));
    assert_eq!(r, report(0.1, 0.2, 0.3));
}

#[test]
fn county_clone_and_name() {
    let c = county("Cork");
    assert_eq!(c.clone(), c);
    assert_eq!(c.name(), "Cork");
    assert_ne!(c, county("Kerry"));
}
