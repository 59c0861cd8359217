/// Properties of the transition function, stated over its model.
pub mod safety;
/// Types of the state machine: triggers, steps, locks and events.
pub mod smr_types;
/// The state machine replica itself.
pub mod state_machine;
