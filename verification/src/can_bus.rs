use vstd::prelude::*;

verus! {

/// Fire-and-forget lifecycle event sent on the bus-telemetry channel, so an
/// external observer gets a log of lifecycle transitions.
#[derive(Clone, Copy, Debug, PartialEq, Eq, Structural)]
pub enum CANMessage {
    Starting,
    InitFP,
    FPInitialized,
    InitActuator,
    ActuatorInitialized,
    ActuatorTestFailed,
    RelaysInitialized,
    ButtonsInitialized,
    ValetMode,
    EnableValetMode,
    DisableValetMode,
    StartCar,
    Authorizing,
    Authorized,
}

/// The line of text each telemetry event stands for on the wire.
pub open spec fn can_text(message: CANMessage) -> Seq<char> {
    match message {
        CANMessage::Starting => "Starting Drive-By-Wire system"@,
        CANMessage::InitFP => "Initializing Fingerprint Scanner"@,
        CANMessage::FPInitialized => "Fingerprint scanner initialized"@,
        CANMessage::InitActuator => "Initializing actuator"@,
        CANMessage::ActuatorInitialized => "Actuator initialized"@,
        CANMessage::ActuatorTestFailed => "Actuator test failed"@,
        CANMessage::RelaysInitialized => "Relays initialized"@,
        CANMessage::ButtonsInitialized => "Drive buttons initialized"@,
        CANMessage::ValetMode => "Valet mode, won't authorize use"@,
        CANMessage::EnableValetMode => "Valet mode enabled"@,
        CANMessage::DisableValetMode => "Valet mode disabled"@,
        CANMessage::StartCar => "Sending start signal to car"@,
        CANMessage::Authorizing => "Authorizing use"@,
        CANMessage::Authorized => "Use authorized"@,
    }
}

/// Render one telemetry event as the line the bus writer emits. The write
/// itself (and the task that drains the channel) lives outside the library.
pub fn write_can(message: &CANMessage) -> (r: &'static str)
    ensures
        r@ == can_text(*message),
{
    match message {
        CANMessage::Starting => "Starting Drive-By-Wire system",
        CANMessage::InitFP => "Initializing Fingerprint Scanner",
        CANMessage::FPInitialized => "Fingerprint scanner initialized",
        CANMessage::InitActuator => "Initializing actuator",
        CANMessage::ActuatorInitialized => "Actuator initialized",
        CANMessage::ActuatorTestFailed => "Actuator test failed",
        CANMessage::RelaysInitialized => "Relays initialized",
        CANMessage::ButtonsInitialized => "Drive buttons initialized",
        CANMessage::ValetMode => "Valet mode, won't authorize use",
        CANMessage::EnableValetMode => "Valet mode enabled",
        CANMessage::DisableValetMode => "Valet mode disabled",
        CANMessage::StartCar => "Sending start signal to car",
        CANMessage::Authorizing => "Authorizing use",
        CANMessage::Authorized => "Use authorized",
    }
}

} // verus!
