use vstd::prelude::*;

use super::wind_components::WindComponentError;

verus! {

/// Why a wind shear could not be computed.
#[derive(Debug, Clone, Copy, PartialEq, Eq, Structural)]
pub enum WindShearError {
    /// A component could not be read as a float, or it is not finite, or a
    /// speed and direction could not be turned into components.
    InvalidComponent,
}

impl WindShearError {
    /// Turns a failure to compute the components of a layer's wind into the
    /// shear's failure: whatever went wrong, a component is invalid.
    pub fn from_wind_component_error(err: WindComponentError) -> (res: Self)
        ensures
            res == WindShearError::InvalidComponent,
    {
        match err {
            WindComponentError::InvalidSpeed => WindShearError::InvalidComponent,
            WindComponentError::InvalidDirection => WindShearError::InvalidComponent,
        }
    }
}

/// The failure a wind shear reports for components that were read: any
/// component that is not finite makes it invalid (the only kind of wind-shear
/// failure); `None` exactly when all are finite.
pub fn wind_shear_input_error(
    lower_u_finite: bool,
    lower_v_finite: bool,
    upper_u_finite: bool,
    upper_v_finite: bool,
) -> (res: Option<WindShearError>)
    ensures
        res is None <==> lower_u_finite && lower_v_finite && upper_u_finite && upper_v_finite,
{
    if !lower_u_finite || !lower_v_finite || !upper_u_finite || !upper_v_finite {
        return Some(WindShearError::InvalidComponent);
    }
    None
}

} // verus!
