use vstd::prelude::*;

verus! {

/// Why wind components could not be computed from a speed and a direction.
#[derive(Debug, Clone, Copy, PartialEq, Eq, Structural)]
pub enum WindComponentError {
    /// The speed could not be read as a float, or it is negative.
    InvalidSpeed,
    /// The direction could not be read as a float.
    InvalidDirection,
}

/// The failure wind components report for a speed that was read: a negative
/// speed is invalid; `None` otherwise.
pub fn wind_components_input_error(speed_negative: bool) -> (res: Option<WindComponentError>)
    ensures
        res == Some(WindComponentError::InvalidSpeed) <==> speed_negative,
        res is None <==> !speed_negative,
{
    if speed_negative {
        Some(WindComponentError::InvalidSpeed)
    } else {
        None
    }
}

} // verus!
