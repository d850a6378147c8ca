use vstd::prelude::*;

use super::saturated_vapor_pressure::SaturationVaporPressureError;

verus! {

/// Why a wet-bulb temperature could not be computed.
#[derive(Debug, Clone, Copy, PartialEq, Eq, Structural)]
pub enum WetBulbError {
    /// The air temperature could not be read as a float, or it is not finite.
    InvalidTemperature,
    /// The relative humidity could not be read as a float, or it is not finite.
    InvalidRelativeHumidity,
    /// The pressure could not be read as a float, or it is not finite.
    InvalidPressure,
    /// The relative humidity lies outside 0 ..= 100 percent.
    RelativeHumidityOutOfRange,
    /// The pressure is not positive.
    PressureOutOfRange,
    /// The saturation vapor pressure at the air temperature failed.
    SaturationVaporPressureError(SaturationVaporPressureError),
    /// The iterative search found no wet-bulb temperature within its step budget.
    DidNotConverge,
}

/// The number of wet-bulb guesses the search evaluates before it gives up.
pub const WET_BULB_MAX_STEPS: u32 = 10_000;

/// The input failure a wet-bulb computation reports, given the outcome of
/// each check on its inputs, in the order they are made: air temperature
/// finite, relative humidity finite, pressure finite, relative humidity
/// within 0 ..= 100, pressure positive, and then the failure (if any) of the
/// saturation vapor pressure at the air temperature. `None` when all pass.
pub open spec fn spec_wet_bulb_input_error(
    temperature_finite: bool,
    humidity_finite: bool,
    pressure_finite: bool,
    humidity_in_range: bool,
    pressure_positive: bool,
    saturation: Option<SaturationVaporPressureError>,
) -> Option<WetBulbError> {
    if !temperature_finite {
        Some(WetBulbError::InvalidTemperature)
    } else if !humidity_finite {
        Some(WetBulbError::InvalidRelativeHumidity)
    } else if !pressure_finite {
        Some(WetBulbError::InvalidPressure)
    } else if !humidity_in_range {
        Some(WetBulbError::RelativeHumidityOutOfRange)
    } else if !pressure_positive {
        Some(WetBulbError::PressureOutOfRange)
    } else {
        match saturation {
            Some(err) => Some(WetBulbError::SaturationVaporPressureError(err)),
            None => None,
        }
    }
}

/// Picks the failure a wet-bulb computation reports for its inputs, if any.
pub fn wet_bulb_input_error(
    temperature_finite: bool,
    humidity_finite: bool,
    pressure_finite: bool,
    humidity_in_range: bool,
    pressure_positive: bool,
    saturation: Option<SaturationVaporPressureError>,
) -> (res: Option<WetBulbError>)
    ensures
        res == spec_wet_bulb_input_error(
            temperature_finite,
            humidity_finite,
            pressure_finite,
            humidity_in_range,
            pressure_positive,
            saturation,
        ),
{
    if !temperature_finite {
        return Some(WetBulbError::InvalidTemperature);
    }
    if !humidity_finite {
        return Some(WetBulbError::InvalidRelativeHumidity);
    }
    if !pressure_finite {
        return Some(WetBulbError::InvalidPressure);
    }
    if !humidity_in_range {
        return Some(WetBulbError::RelativeHumidityOutOfRange);
    }
    if !pressure_positive {
        return Some(WetBulbError::PressureOutOfRange);
    }
    match saturation {
        Some(err) => Some(WetBulbError::SaturationVaporPressureError(err)),
        None => None,
    }
}

/// The state of the wet-bulb search between two evaluated guesses: how many
/// guesses have been evaluated without converging, whether the last step
/// went downwards (the search starts upwards), and how many times the step
/// size has been divided by ten (once at each change of direction).
#[derive(Debug, Clone, Copy, PartialEq, Eq, Structural)]
pub struct WetBulbSearch {
    pub steps: u32,
    pub previous_negative: bool,
    pub refinements: u32,
}

/// What the wet-bulb search does after evaluating a guess.
#[derive(Debug, Clone, Copy, PartialEq, Eq, Structural)]
pub enum WetBulbAction {
    /// The guess is within tolerance: it is the wet-bulb temperature.
    Found,
    /// Move the guess one step in the new state's direction, by the step size
    /// that its refinements give, and evaluate again.
    Step(WetBulbSearch),
    /// The step budget is spent: the search did not converge.
    GiveUp,
}

impl WetBulbSearch {
    /// A search state can be reached from the start: within the step budget,
    /// and never refined more often than it has stepped.
    pub open spec fn well_formed(self) -> bool {
        &&& self.steps < WET_BULB_MAX_STEPS
        &&& self.refinements <= self.steps
    }

    /// The state of a search that has evaluated no guess yet.
    pub open spec fn initial() -> WetBulbSearch {
        WetBulbSearch { steps: 0, previous_negative: false, refinements: 0 }
    }

    /// The state after one more unconverged guess whose difference had the
    /// given sign: one more step, in the direction of that sign, refined once
    /// more if the direction changed.
    pub open spec fn advanced(self, difference_negative: bool) -> WetBulbSearch {
        WetBulbSearch {
            steps: (self.steps + 1) as u32,
            previous_negative: difference_negative,
            refinements: if difference_negative != self.previous_negative {
                (self.refinements + 1) as u32
            } else {
                self.refinements
            },
        }
    }

    /// The state after a run of unconverged guesses, each given by the sign
    /// of its difference, starting from the initial state.
    pub open spec fn after(signs: Seq<bool>) -> WetBulbSearch
        decreases signs.len(),
    {
        if signs.len() == 0 {
            WetBulbSearch::initial()
        } else {
            WetBulbSearch::after(signs.drop_last()).advanced(signs.last())
        }
    }

    /// The state of a search that has evaluated no guess yet: going upwards,
    /// with the initial step size.
    pub fn new() -> (res: WetBulbSearch)
        ensures
            res == WetBulbSearch::initial(),
            res.well_formed(),
    {
        WetBulbSearch { steps: 0, previous_negative: false, refinements: 0 }
    }
}

/// What the search does after a guess: stop if it converged, give up if it
/// was the last guess of the budget, and otherwise step on.
pub open spec fn spec_wet_bulb_step(
    state: WetBulbSearch,
    converged: bool,
    difference_negative: bool,
) -> WetBulbAction {
    if converged {
        WetBulbAction::Found
    } else if state.steps + 1 >= WET_BULB_MAX_STEPS {
        WetBulbAction::GiveUp
    } else {
        WetBulbAction::Step(state.advanced(difference_negative))
    }
}

/// Decides the next move of the wet-bulb search after a guess has been
/// evaluated: whether it converged, and whether the vapor pressure it gives
/// exceeds the actual one (a negative difference).
pub fn wet_bulb_step(state: WetBulbSearch, converged: bool, difference_negative: bool) -> (res:
    WetBulbAction)
    requires
        state.well_formed(),
    ensures
        res == spec_wet_bulb_step(state, converged, difference_negative),
        res matches WetBulbAction::Step(next) ==> next.well_formed() && next.steps == state.steps
            + 1,
        converged ==> res == WetBulbAction::Found,
        !converged && state.steps + 1 >= WET_BULB_MAX_STEPS ==> res == WetBulbAction::GiveUp,
        !converged && state.steps + 1 < WET_BULB_MAX_STEPS ==> res == WetBulbAction::Step(
            WetBulbSearch {
                steps: (state.steps + 1) as u32,
                previous_negative: difference_negative,
                refinements: if difference_negative != state.previous_negative {
                    (state.refinements + 1) as u32
                } else {
                    state.refinements
                },
            },
        ),
{
    if converged {
        return WetBulbAction::Found;
    }
    if state.steps >= WET_BULB_MAX_STEPS - 1 {
        return WetBulbAction::GiveUp;
    }
    let refinements = if difference_negative != state.previous_negative {
        state.refinements + 1
    } else {
        state.refinements
    };
    WetBulbAction::Step(
        WetBulbSearch { steps: state.steps + 1, previous_negative: difference_negative, refinements },
    )
}

/// After any run of fewer than 10 000 unconverged guesses the search has
/// taken one step per guess, is well formed, and has refined its step size
/// no more often than it stepped; the 10 000th unconverged guess, whatever
/// its sign, ends the search without a result.
pub proof fn lemma_wet_bulb_search_budget(signs: Seq<bool>)
    requires
        signs.len() < WET_BULB_MAX_STEPS,
    ensures
        WetBulbSearch::after(signs).steps == signs.len(),
        WetBulbSearch::after(signs).well_formed(),
        signs.len() + 1 == WET_BULB_MAX_STEPS ==> forall|negative: bool|
            #[trigger] spec_wet_bulb_step(WetBulbSearch::after(signs), false, negative)
                == WetBulbAction::GiveUp,
        signs.len() + 1 < WET_BULB_MAX_STEPS ==> forall|negative: bool|
            #[trigger] spec_wet_bulb_step(WetBulbSearch::after(signs), false, negative)
                == WetBulbAction::Step(WetBulbSearch::after(signs.push(negative))),
    decreases signs.len(),
{
    if signs.len() > 0 {
        lemma_wet_bulb_search_budget(signs.drop_last());
    }
    assert forall|negative: bool| signs.len() + 1 < WET_BULB_MAX_STEPS implies #[trigger]
        spec_wet_bulb_step(WetBulbSearch::after(signs), false, negative) == WetBulbAction::Step(
            WetBulbSearch::after(signs.push(negative)),
        ) by {
        assert(signs.push(negative).drop_last() =~= signs);
    }
}

/// A wet-bulb computation's inputs are accepted exactly when every check
/// passes and the saturation vapor pressure succeeds, and each failure is
/// reported exactly when its check is the first to fail.
pub proof fn lemma_wet_bulb_input_checks(
    temperature_finite: bool,
    humidity_finite: bool,
    pressure_finite: bool,
    humidity_in_range: bool,
    pressure_positive: bool,
    saturation: Option<SaturationVaporPressureError>,
)
    ensures
        ({
            let res = spec_wet_bulb_input_error(
                temperature_finite,
                humidity_finite,
                pressure_finite,
                humidity_in_range,
                pressure_positive,
                saturation,
            );
            &&& res is None <==> temperature_finite && humidity_finite && pressure_finite
                && humidity_in_range && pressure_positive && saturation is None
            &&& res == Some(WetBulbError::InvalidTemperature) <==> !temperature_finite
            &&& res == Some(WetBulbError::InvalidRelativeHumidity) <==> temperature_finite
                && !humidity_finite
            &&& res == Some(WetBulbError::InvalidPressure) <==> temperature_finite
                && humidity_finite && !pressure_finite
            &&& res == Some(WetBulbError::RelativeHumidityOutOfRange) <==> temperature_finite
                && humidity_finite && pressure_finite && !humidity_in_range
            &&& res == Some(WetBulbError::PressureOutOfRange) <==> temperature_finite
                && humidity_finite && pressure_finite && humidity_in_range && !pressure_positive
            &&& temperature_finite && humidity_finite && pressure_finite && humidity_in_range
                && pressure_positive && saturation is Some ==> res == Some(
                WetBulbError::SaturationVaporPressureError(saturation.unwrap()),
            )
            &&& res matches Some(WetBulbError::SaturationVaporPressureError(err)) ==> saturation
                == Some(err)
            &&& res != Some(WetBulbError::DidNotConverge)
        }),
{
}

/// The direction of the search before the `i`-th guess of a run: upwards
/// before the first guess, then the sign of the guess before.
pub open spec fn direction_before(signs: Seq<bool>, i: int) -> bool {
    if i == 0 {
        false
    } else {
        signs[i - 1]
    }
}

/// How many guesses of a run turned the search around, counting from a start
/// that goes upwards.
pub open spec fn direction_changes(signs: Seq<bool>) -> nat
    decreases signs.len(),
{
    if signs.len() == 0 {
        0
    } else {
        direction_changes(signs.drop_last()) + if signs.last() != direction_before(
            signs,
            signs.len() - 1,
        ) {
            1nat
        } else {
            0nat
        }
    }
}

/// A guess that converged always ends the search with that guess, whatever
/// state the search is in and whatever the sign of its difference.
pub proof fn lemma_wet_bulb_converged_guess_is_found(state: WetBulbSearch, negative: bool)
    requires
        state.well_formed(),
    ensures
        spec_wet_bulb_step(state, true, negative) == WetBulbAction::Found,
{
}

/// An unconverged guess within the budget moves the search one step in the
/// direction of its difference, and refines the step size exactly when that
/// direction differs from the previous one: one refinement more on a change
/// of direction, none otherwise.
pub proof fn lemma_wet_bulb_refines_on_each_turn(state: WetBulbSearch, negative: bool)
    requires
        state.well_formed(),
        state.steps + 1 < WET_BULB_MAX_STEPS,
    ensures
        spec_wet_bulb_step(state, false, negative) matches WetBulbAction::Step(next) && {
            &&& next.steps == state.steps + 1
            &&& next.previous_negative == negative
            &&& negative != state.previous_negative ==> next.refinements == state.refinements + 1
            &&& negative == state.previous_negative ==> next.refinements == state.refinements
        },
{
}

/// After a run of fewer than 10 000 unconverged guesses, the step size has
/// been refined once for every change of direction in the run (counted from
/// a start that goes upwards), and the search goes in the direction of the
/// last guess.
pub proof fn lemma_wet_bulb_refinements_count_turns(signs: Seq<bool>)
    requires
        signs.len() < WET_BULB_MAX_STEPS,
    ensures
        WetBulbSearch::after(signs).refinements == direction_changes(signs),
        WetBulbSearch::after(signs).previous_negative == direction_before(
            signs,
            signs.len() as int,
        ),
    decreases signs.len(),
{
    if signs.len() > 0 {
        let prefix = signs.drop_last();
        lemma_wet_bulb_refinements_count_turns(prefix);
        lemma_wet_bulb_search_budget(prefix);
        assert(direction_before(signs, signs.len() - 1) == direction_before(
            prefix,
            prefix.len() as int,
        ));
    }
}

} // verus!
