use rustweather::calculations::general::{
    apparent_route, ApparentRoute, ApparentTemperatureError,
};
use rustweather::calculations::humidity::{
    wet_bulb_input_error, wet_bulb_step, SaturationVaporPressureError, WetBulbAction,
    WetBulbError, WetBulbSearch, WET_BULB_MAX_STEPS,
};

// Arguments: temperature finite, humidity finite, wind finite, humidity in
// range, temperature at most 50 °F, wind at most 3 mph, temperature above 80 °F.

#[test]
fn apparent_route_cold_and_windy_uses_wind_chill() {
    // 30 °F, 50 %, 10 mph
    assert_eq!(
        apparent_route(true, true, true, true, true, false, false),
        Ok(ApparentRoute::WindChill)
    );
}

#[test]
fn apparent_route_cold_and_calm_uses_air_temperature() {
    // 30 °F, 50 %, 2 mph
    assert_eq!(
        apparent_route(true, true, true, true, true, true, false),
        Ok(ApparentRoute::AirTemperature)
    );
}

#[test]
fn apparent_route_mild_uses_air_temperature() {
    // 70 °F, 80 %, 10 mph
    assert_eq!(
        apparent_route(true, true, true, true, false, false, false),
        Ok(ApparentRoute::AirTemperature)
    );
}

#[test]
fn apparent_route_hot_uses_heat_index() {
    // 90 °F, 70 %, 5 mph
    assert_eq!(
        apparent_route(true, true, true, true, false, false, true),
        Ok(ApparentRoute::HeatIndex)
    );
}

#[test]
fn apparent_route_reports_humidity_out_of_range() {
    // 90 °F, 101 %, 5 mph
    assert_eq!(
        apparent_route(true, true, true, false, false, false, true),
        Err(ApparentTemperatureError::RelativeHumidityOutOfRange)
    );
}

#[test]
fn apparent_route_reports_the_first_failed_check() {
    assert_eq!(
        apparent_route(false, false, false, false, true, false, false),
        Err(ApparentTemperatureError::InvalidTemperature)
    );
    assert_eq!(
        apparent_route(true, false, false, false, true, false, false),
        Err(ApparentTemperatureError::InvalidRelativeHumidity)
    );
    assert_eq!(
        apparent_route(true, true, false, false, true, false, false),
        Err(ApparentTemperatureError::InvalidWindSpeed)
    );
}

#[test]
fn apparent_route_never_uses_a_formula_between_50_and_80() {
    for wind_at_most_3 in [false, true] {
        assert_eq!(
            apparent_route(true, true, true, true, false, wind_at_most_3, false),
            Ok(ApparentRoute::AirTemperature)
        );
    }
}

// Arguments: temperature finite, humidity finite, pressure finite, humidity
// in range, pressure positive, saturation vapor pressure failure.

#[test]
fn wet_bulb_inputs_pass() {
    assert_eq!(wet_bulb_input_error(true, true, true, true, true, None), None);
}

#[test]
fn wet_bulb_inputs_report_each_failure_in_order() {
    let sat = Some(SaturationVaporPressureError::TemperatureOutOfRange);
    assert_eq!(
        wet_bulb_input_error(false, false, false, false, false, sat),
        Some(WetBulbError::InvalidTemperature)
    );
    assert_eq!(
        wet_bulb_input_error(true, false, false, false, false, sat),
        Some(WetBulbError::InvalidRelativeHumidity)
    );
    assert_eq!(
        wet_bulb_input_error(true, true, false, false, false, sat),
        Some(WetBulbError::InvalidPressure)
    );
    assert_eq!(
        wet_bulb_input_error(true, true, true, false, false, sat),
        Some(WetBulbError::RelativeHumidityOutOfRange)
    );
    assert_eq!(
        wet_bulb_input_error(true, true, true, true, false, sat),
        Some(WetBulbError::PressureOutOfRange)
    );
    assert_eq!(
        wet_bulb_input_error(true, true, true, true, true, sat),
        Some(WetBulbError::SaturationVaporPressureError(
            SaturationVaporPressureError::TemperatureOutOfRange
        ))
    );
}

#[test]
fn wet_bulb_search_starts_upwards_unrefined() {
    let start = WetBulbSearch::new();
    assert_eq!(start, WetBulbSearch { steps: 0, previous_negative: false, refinements: 0 });
}

#[test]
fn wet_bulb_search_stops_on_convergence() {
    assert_eq!(wet_bulb_step(WetBulbSearch::new(), true, false), WetBulbAction::Found);
    assert_eq!(wet_bulb_step(WetBulbSearch::new(), true, true), WetBulbAction::Found);
}

#[test]
fn wet_bulb_search_refines_on_each_change_of_direction() {
    let start = WetBulbSearch::new();
    let up = wet_bulb_step(start, false, false);
    assert_eq!(
        up,
        WetBulbAction::Step(WetBulbSearch { steps: 1, previous_negative: false, refinements: 0 })
    );
    let WetBulbAction::Step(up) = up else { panic!("expected a step") };
    let down = wet_bulb_step(up, false, true);
    assert_eq!(
        down,
        WetBulbAction::Step(WetBulbSearch { steps: 2, previous_negative: true, refinements: 1 })
    );
    let WetBulbAction::Step(down) = down else { panic!("expected a step") };
    assert_eq!(
        wet_bulb_step(down, false, true),
        WetBulbAction::Step(WetBulbSearch { steps: 3, previous_negative: true, refinements: 1 })
    );
    assert_eq!(
        wet_bulb_step(down, false, false),
        WetBulbAction::Step(WetBulbSearch { steps: 3, previous_negative: false, refinements: 2 })
    );
}

#[test]
fn wet_bulb_search_gives_up_on_the_last_guess_of_the_budget() {
    let mut state = WetBulbSearch::new();
    let mut evaluated: u32 = 0;
    loop {
        evaluated += 1;
        match wet_bulb_step(state, false, evaluated % 3 == 0) {
            WetBulbAction::Step(next) => {
                assert_eq!(next.steps, evaluated);
                assert!(next.refinements <= next.steps);
                state = next;
            }
            WetBulbAction::GiveUp => break,
            WetBulbAction::Found => panic!("no guess converged"),
        }
    }
    assert_eq!(evaluated, WET_BULB_MAX_STEPS);
    assert_eq!(evaluated, 10_000);
}
