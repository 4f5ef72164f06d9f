//! Gateway-level state and the operator configuration shell.

use vstd::prelude::*;

use crate::bms::BmsConfig;
use crate::minmax::MinMax;

verus! {

/// Whether the gateway considers itself on line.
#[derive(Clone, Copy, Debug, PartialEq, Eq, Structural)]
pub enum State {
    Online,
    Offline,
}

/// The fault the gateway is reporting, if any.
#[derive(Clone, Copy, Debug, PartialEq, Eq, Structural)]
pub enum Fault {
    /// The inverter link failed fatally.
    InvFault,
    /// The battery link failed.
    BmsFault,
    /// No fault.
    NoFault,
}

/// The gateway's coarse state: on line or not, and the current fault.
#[derive(Clone, Copy, Debug)]
pub struct GlobalState {
    pub state: State,
    pub fault: Fault,
    /// Wall-clock seconds, set by time synchronization.
    pub time: i64,
}

impl GlobalState {
    pub fn state(&self) -> (r: &State)
        ensures
            r == self.state,
    {
        &self.state
    }

    pub fn fault(&self) -> (r: &Fault)
        ensures
            r == self.fault,
    {
        &self.fault
    }

    pub fn set_state(&mut self, state: State)
        ensures
            *final(self) == (GlobalState { state, ..*old(self) }),
    {
        self.state = state;
    }

    pub fn set_fault(&mut self, fault: Fault)
        ensures
            *final(self) == (GlobalState { fault, ..*old(self) }),
    {
        self.fault = fault;
    }
}

impl Default for GlobalState {
    /// Off line, no fault, epoch time zero.
    fn default() -> (r: GlobalState)
        ensures
            r.state == State::Offline,
            r.fault == Fault::NoFault,
            r.time == 0,
    {
        GlobalState { state: State::Offline, fault: Fault::NoFault, time: 0 }
    }
}

/// The operator configuration as the exporters and the configuration
/// API see it: the safety bounds plus the depth-of-discharge window.
#[derive(Clone, Copy, Debug)]
pub struct Config {
    pub bounds: BmsConfig,
}

impl Config {
    /// The plausible pack voltage range, centivolts.
    pub fn pack_volts(&self) -> (r: &MinMax<u32>)
        ensures
            r == self.bounds.pack_volts,
    {
        &self.bounds.pack_volts
    }

    /// The bounds handed to the fused record on every update.
    pub fn export_as_bms(&self) -> (r: BmsConfig)
        ensures
            r == self.bounds,
    {
        self.bounds
    }

    /// Adopt bounds coming back from the fused record.
    pub fn import_from_bms(&mut self, bms_config: BmsConfig)
        ensures
            final(self).bounds == bms_config,
    {
        self.bounds = bms_config;
    }
}

impl Default for Config {
    fn default() -> (r: Config)
        ensures
            r.bounds.wf(),
    {
        Config { bounds: Default::default() }
    }
}

} // verus!
