//! Legacy tick monitor: a connect/monitor/stop state machine whose
//! periodic loop publishes simulated tick data.
//!
//! The monitoring loop itself (thread, sleep, event emission) lives
//! outside the library; the library owns every decision the loop
//! makes: whether monitoring may start, what one monitoring step does
//! to the state, and what stopping leaves behind. Scalar fields are
//! micro-unit fixed point as everywhere in this crate.

use vstd::prelude::*;

verus! {

/// One published tick of the simulated feed.
#[derive(Debug, Clone, PartialEq, Eq)]
pub struct TickData {
    pub tick_id: u64,
    pub timestamp: u64,
    pub entropy: i64,
    pub scup: i64,
    pub heat: i64,
    pub active_sigils: Vec<String>,
    pub processing_status: String,
}

/// Simulated entropy for a tick, cycling inside 0.3 to 0.7.
pub open spec fn sim_entropy_micro(tick_id: u64) -> int {
    300_000 + 10_000 * (tick_id as int % 40)
}

/// Simulated composite score for a tick, cycling inside 45 to 65 on
/// the 0 to 100 scale.
pub open spec fn sim_scup_micro(tick_id: u64) -> int {
    45_000_000 + 500_000 * (tick_id as int % 40)
}

/// Simulated heat for a tick, cycling inside 0.2 to 0.5.
pub open spec fn sim_heat_micro(tick_id: u64) -> int {
    200_000 + 10_000 * (tick_id as int % 30)
}

/// Builds the simulated tick published for `tick_id` at
/// `elapsed_secs` seconds since monitoring began: no active sigils,
/// an active processing status, and the cyclic simulated metrics.
pub fn simulated_tick(tick_id: u64, elapsed_secs: u64) -> (r: TickData)
    ensures
        r.tick_id == tick_id,
        r.timestamp == elapsed_secs,
        r.entropy == sim_entropy_micro(tick_id),
        r.scup == sim_scup_micro(tick_id),
        r.heat == sim_heat_micro(tick_id),
        r.active_sigils@.len() == 0,
        r.processing_status@ == "Active"@,
{
    TickData {
        tick_id,
        timestamp: elapsed_secs,
        entropy: 300_000 + 10_000 * ((tick_id % 40) as i64),
        scup: 45_000_000 + 500_000 * ((tick_id % 40) as i64),
        heat: 200_000 + 10_000 * ((tick_id % 30) as i64),
        active_sigils: Vec::new(),
        processing_status: "Active".to_owned(),
    }
}

/// Published monitor state.
#[derive(Debug)]
pub struct TickMonitorState {
    pub current_tick: Option<TickData>,
    pub total_ticks: u64,
    pub monitoring_active: bool,
    pub last_update: u64,
    pub connection_status: String,
}

impl Default for TickMonitorState {
    /// Fresh state: no tick seen, monitoring inactive, disconnected.
    fn default() -> (r: TickMonitorState)
        ensures
            r.current_tick is None,
            r.total_ticks == 0,
            !r.monitoring_active,
            r.last_update == 0,
            r.connection_status@ == "Disconnected"@,
    {
        TickMonitorState {
            current_tick: None,
            total_ticks: 0,
            monitoring_active: false,
            last_update: 0,
            connection_status: "Disconnected".to_owned(),
        }
    }
}

/// The tick monitoring state machine. The owner runs the periodic
/// loop, stepping it once per interval until a stop is requested,
/// and performs the thread management the library does not see.
pub struct TickMonitor {
    state: TickMonitorState,
    should_stop: bool,
    connected: bool,
}

impl TickMonitor {
    /// The monitor's published state.
    pub closed spec fn spec_state(&self) -> TickMonitorState {
        self.state
    }

    /// Whether a connection has been established.
    pub closed spec fn is_connected(&self) -> bool {
        self.connected
    }

    /// Whether the monitoring loop has been asked to stop.
    pub closed spec fn stop_requested(&self) -> bool {
        self.should_stop
    }

    /// A published tick never carries sigils in the simulated feed.
    pub closed spec fn well_formed(&self) -> bool {
        self.state.current_tick matches Some(td) ==> td.active_sigils@.len() == 0
    }

    /// Creates a disconnected monitor with default state.
    pub fn new() -> (r: TickMonitor)
        ensures
            r.spec_state().current_tick is None,
            r.spec_state().total_ticks == 0,
            !r.spec_state().monitoring_active,
            r.spec_state().last_update == 0,
            r.spec_state().connection_status@ == "Disconnected"@,
            !r.is_connected(),
            !r.stop_requested(),
            r.well_formed(),
    {
        TickMonitor { state: TickMonitorState::default(), should_stop: false, connected: false }
    }

    /// Copy of the published state.
    pub fn get_state(&self) -> (r: TickMonitorState)
        requires
            self.well_formed(),
        ensures
            r.total_ticks == self.spec_state().total_ticks,
            r.monitoring_active == self.spec_state().monitoring_active,
            r.last_update == self.spec_state().last_update,
            r.connection_status@ == self.spec_state().connection_status@,
            r.current_tick is Some <==> self.spec_state().current_tick is Some,
            r.current_tick matches Some(td) ==> {
                &&& self.spec_state().current_tick matches Some(td0)
                &&& td.tick_id == td0.tick_id
                &&& td.timestamp == td0.timestamp
                &&& td.entropy == td0.entropy
                &&& td.scup == td0.scup
                &&& td.heat == td0.heat
                &&& td.active_sigils@.len() == 0
                &&& td.processing_status@ == td0.processing_status@
            },
    {
        let current_tick: Option<TickData> = match &self.state.current_tick {
            None => None,
            Some(td) => Some(
                TickData {
                    tick_id: td.tick_id,
                    timestamp: td.timestamp,
                    entropy: td.entropy,
                    scup: td.scup,
                    heat: td.heat,
                    active_sigils: Vec::new(),
                    processing_status: td.processing_status.clone(),
                },
            ),
        };
        TickMonitorState {
            current_tick,
            total_ticks: self.state.total_ticks,
            monitoring_active: self.state.monitoring_active,
            last_update: self.state.last_update,
            connection_status: self.state.connection_status.clone(),
        }
    }

    /// Establishes the connection. The memory path is accepted as
    /// given; this legacy monitor keeps no mapping of its own.
    pub fn connect(&mut self, memory_path: &str) -> (r: Result<(), String>)
        requires
            old(self).well_formed(),
        ensures
            r is Ok,
            final(self).is_connected(),
            final(self).spec_state().connection_status@ == "Connected"@,
            final(self).spec_state().current_tick == old(self).spec_state().current_tick,
            final(self).spec_state().total_ticks == old(self).spec_state().total_ticks,
            final(self).spec_state().monitoring_active
                == old(self).spec_state().monitoring_active,
            final(self).spec_state().last_update == old(self).spec_state().last_update,
            final(self).stop_requested() == old(self).stop_requested(),
            final(self).well_formed(),
    {
        self.connected = true;
        self.state.connection_status = "Connected".to_owned();
        Ok(())
    }

    /// Admits the monitoring loop: fails unless connected, and
    /// otherwise clears any pending stop request and restarts the
    /// published tick counter, so a fresh loop numbers its ticks
    /// from one again.
    pub fn start_monitoring(&mut self) -> (r: Result<(), String>)
        requires
            old(self).well_formed(),
        ensures
            r is Ok <==> old(self).is_connected(),
            r matches Err(e) ==> e@ == "Not connected to tick system"@
                && *final(self) == *old(self),
            r is Ok ==> {
                &&& !final(self).stop_requested()
                &&& final(self).is_connected()
                &&& final(self).spec_state().total_ticks == 0
                &&& final(self).spec_state().current_tick == old(self).spec_state().current_tick
                &&& final(self).spec_state().monitoring_active == old(
                    self,
                ).spec_state().monitoring_active
                &&& final(self).spec_state().last_update == old(self).spec_state().last_update
                &&& final(self).spec_state().connection_status@ == old(
                    self,
                ).spec_state().connection_status@
            },
            final(self).well_formed(),
    {
        if !self.connected {
            return Err("Not connected to tick system".to_owned());
        }
        self.should_stop = false;
        self.state.total_ticks = 0;
        Ok(())
    }

    /// One step of the monitoring loop at `elapsed_secs` seconds
    /// since the loop began: advances the tick counter, publishes
    /// the simulated tick, and returns it for emission.
    pub fn monitor_step(&mut self, elapsed_secs: u64) -> (r: TickData)
        requires
            old(self).well_formed(),
            old(self).spec_state().total_ticks < u64::MAX,
        ensures
            final(self).well_formed(),
            final(self).spec_state().total_ticks == old(self).spec_state().total_ticks + 1,
            final(self).spec_state().monitoring_active,
            final(self).spec_state().last_update == elapsed_secs,
            final(self).spec_state().connection_status@ == "Connected"@,
            final(self).is_connected() == old(self).is_connected(),
            final(self).stop_requested() == old(self).stop_requested(),
            r.tick_id == old(self).spec_state().total_ticks + 1,
            r.timestamp == elapsed_secs,
            r.entropy == sim_entropy_micro(r.tick_id),
            r.scup == sim_scup_micro(r.tick_id),
            r.heat == sim_heat_micro(r.tick_id),
            r.active_sigils@.len() == 0,
            r.processing_status@ == "Active"@,
            final(self).spec_state().current_tick matches Some(td) && td.tick_id == r.tick_id
                && td.timestamp == r.timestamp && td.entropy == r.entropy && td.scup == r.scup
                && td.heat == r.heat,
    {
        let tick_counter = self.state.total_ticks + 1;
        let published = simulated_tick(tick_counter, elapsed_secs);
        self.state.current_tick = Some(simulated_tick(tick_counter, elapsed_secs));
        self.state.total_ticks = tick_counter;
        self.state.monitoring_active = true;
        self.state.last_update = elapsed_secs;
        self.state.connection_status = "Connected".to_owned();
        published
    }

    /// Requests the loop to stop and marks monitoring inactive; the
    /// connection status reflects whether the monitor is still
    /// connected. The owner joins the loop after calling this.
    pub fn stop_monitoring(&mut self)
        requires
            old(self).well_formed(),
        ensures
            final(self).stop_requested(),
            !final(self).spec_state().monitoring_active,
            final(self).is_connected() == old(self).is_connected(),
            final(self).spec_state().connection_status@ == (if old(self).is_connected() {
                "Connected"@
            } else {
                "Disconnected"@
            }),
            final(self).spec_state().current_tick == old(self).spec_state().current_tick,
            final(self).spec_state().total_ticks == old(self).spec_state().total_ticks,
            final(self).spec_state().last_update == old(self).spec_state().last_update,
            final(self).well_formed(),
    {
        self.should_stop = true;
        self.state.monitoring_active = false;
        self.state.connection_status = if self.connected {
            "Connected".to_owned()
        } else {
            "Disconnected".to_owned()
        };
    }
}

/// Connects a tick monitor to the conventional tick system path.
pub fn connect_tick_monitor(monitor: &mut TickMonitor) -> (r: Result<(), String>)
    requires
        old(monitor).well_formed(),
    ensures
        r is Ok,
        final(monitor).is_connected(),
        final(monitor).spec_state().connection_status@ == "Connected"@,
        final(monitor).well_formed(),
{
    monitor.connect("/tmp/dawn_tick_system")
}

/// The tick most recently published by a monitor, if any.
pub fn get_current_tick(monitor: &TickMonitor) -> (r: Option<TickData>)
    requires
        monitor.well_formed(),
    ensures
        r is Some <==> monitor.spec_state().current_tick is Some,
        r matches Some(td) ==> (monitor.spec_state().current_tick matches Some(td0)
            && td.tick_id == td0.tick_id && td.entropy == td0.entropy && td.scup == td0.scup
            && td.heat == td0.heat),
{
    let state = monitor.get_state();
    state.current_tick
}

/// Copy of a monitor's published state.
pub fn get_tick_monitor_state(monitor: &TickMonitor) -> (r: TickMonitorState)
    requires
        monitor.well_formed(),
    ensures
        r.total_ticks == monitor.spec_state().total_ticks,
        r.monitoring_active == monitor.spec_state().monitoring_active,
        r.connection_status@ == monitor.spec_state().connection_status@,
{
    monitor.get_state()
}

/// Stops a monitor's loop.
pub fn stop_tick_monitoring(monitor: &mut TickMonitor)
    requires
        old(monitor).well_formed(),
    ensures
        final(monitor).stop_requested(),
        !final(monitor).spec_state().monitoring_active,
        final(monitor).well_formed(),
{
    monitor.stop_monitoring()
}

} // verus!
