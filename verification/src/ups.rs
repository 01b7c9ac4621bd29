use vstd::prelude::*;

verus! {

/// Signal the power-rail monitor publishes to the button tasks when the
/// supply changes between mains and battery.
#[derive(Clone, Copy, Debug, PartialEq, Eq, Structural)]
pub enum ButtonState {
    Start,
    Stop,
}

/// Shunt-voltage threshold in microvolts below which the supply is judged to
/// have fallen back to the battery.
pub const ON_BATTERY_THRESHOLD_UV: i16 = -350;

/// Shunt-voltage threshold in microvolts above which the supply is judged to
/// be back on mains power.
pub const ON_POWER_THRESHOLD_UV: i16 = -50;

/// Debounced view the monitor keeps of the supply: exactly one of the two
/// flags is set at any time.
#[derive(Clone, Copy, Debug, PartialEq, Eq, Structural)]
pub struct UpsState {
    pub state_battery: bool,
    pub state_power: bool,
}

impl UpsState {
    /// The monitor starts assuming mains power.
    pub fn new() -> (s: UpsState)
        ensures
            s == (UpsState { state_battery: false, state_power: true }),
    {
        UpsState { state_battery: false, state_power: true }
    }
}

/// One reading of the power-rail monitor: compares the shunt voltage against
/// the two thresholds and publishes a signal exactly when the debounced state
/// flips; between the thresholds, and on repeated readings on the same side,
/// nothing is published and the state is unchanged.
pub fn ups_monitor(state: &mut UpsState, shunt_voltage_uv: i16) -> (published: Option<ButtonState>)
    ensures
        shunt_voltage_uv < ON_BATTERY_THRESHOLD_UV && !old(state).state_battery ==> {
            &&& *final(state) == (UpsState { state_battery: true, state_power: false })
            &&& published == Some(ButtonState::Stop)
        },
        shunt_voltage_uv > ON_POWER_THRESHOLD_UV && !old(state).state_power && !(
        shunt_voltage_uv < ON_BATTERY_THRESHOLD_UV && !old(state).state_battery) ==> {
            &&& *final(state) == (UpsState { state_battery: false, state_power: true })
            &&& published == Some(ButtonState::Start)
        },
        !(shunt_voltage_uv < ON_BATTERY_THRESHOLD_UV && !old(state).state_battery) && !(
        shunt_voltage_uv > ON_POWER_THRESHOLD_UV && !old(state).state_power) ==> {
            &&& *final(state) == *old(state)
            &&& published is None
        },
{
    if shunt_voltage_uv < ON_BATTERY_THRESHOLD_UV && !state.state_battery {
        state.state_battery = true;
        state.state_power = false;
        Some(ButtonState::Stop)
    } else if shunt_voltage_uv > ON_POWER_THRESHOLD_UV && !state.state_power {
        state.state_battery = false;
        state.state_power = true;
        Some(ButtonState::Start)
    } else {
        None
    }
}

} // verus!
