//! Thermal control of a cell array: an edge-triggered state machine that
//! cools when any cell runs hot, heats when any cell runs cold, and idles
//! otherwise.

use vstd::prelude::*;

verus! {

/// Temperature above which cooling is wanted: 45 °C (thousandths of a degree).
pub const MAX_TEMPERATURE: i64 = 45_000;

/// Temperature below which heating is wanted: 15 °C (thousandths of a degree).
pub const MIN_TEMPERATURE: i64 = 15_000;

/// Largest change of one random temperature step, exclusive: 5 °C.
pub const TEMPERATURE_STEP: i64 = 5_000;

/// What the thermal controller is doing.
#[derive(Clone, Copy, Debug, PartialEq, Eq, Structural)]
pub enum ThermalState {
    Cooling,
    Heating,
    Idle,
}

/// The actuation signal sent when the controller changes state.
#[derive(Clone, Copy, Debug, PartialEq, Eq, Structural)]
pub enum ThermalSignal {
    CoolingActivated,
    HeatingActivated,
    SystemsDeactivated,
}

/// One cell of the array.
#[derive(Clone, Copy, Debug)]
pub struct BatteryCell {
    /// Position in the array, counted from 1.
    pub id: usize,
    /// Temperature in thousandths of a degree Celsius.
    pub temperature: i64,
}

/// Some cell is hotter than `max_temperature`.
pub open spec fn any_above(cells: Seq<BatteryCell>, max_temperature: int) -> bool {
    exists|i: int| 0 <= i < cells.len() && #[trigger] cells[i].temperature > max_temperature
}

/// Some cell is colder than `min_temperature`.
pub open spec fn any_below(cells: Seq<BatteryCell>, min_temperature: int) -> bool {
    exists|i: int| 0 <= i < cells.len() && #[trigger] cells[i].temperature < min_temperature
}

/// The state the cells call for; cooling wins over heating.
pub open spec fn target_state(cells: Seq<BatteryCell>, max_temperature: int, min_temperature: int) -> ThermalState {
    if any_above(cells, max_temperature) {
        ThermalState::Cooling
    } else if any_below(cells, min_temperature) {
        ThermalState::Heating
    } else {
        ThermalState::Idle
    }
}

/// The signal sent on entering `state`.
pub open spec fn signal_of(state: ThermalState) -> ThermalSignal {
    match state {
        ThermalState::Cooling => ThermalSignal::CoolingActivated,
        ThermalState::Heating => ThermalSignal::HeatingActivated,
        ThermalState::Idle => ThermalSignal::SystemsDeactivated,
    }
}

/// The signal sent when moving from `current` to `target`: none when they
/// are the same.
pub open spec fn transition_signal(current: ThermalState, target: ThermalState) -> Option<ThermalSignal> {
    if current == target {
        None
    } else {
        Some(signal_of(target))
    }
}

/// Cells numbered 1 to `n`, all at `temperature`.
pub open spec fn fresh_cells(cells: Seq<BatteryCell>, n: int, temperature: int) -> bool {
    &&& cells.len() == n
    &&& forall|i: int| 0 <= i < n ==> (#[trigger] cells[i]).id == i + 1 && cells[i].temperature == temperature
}

/// From idle, a cell above the cooling threshold switches cooling on with
/// one signal; monitoring the same cells again sends no further signal.
pub proof fn lemma_cooling_fires_once(cells: Seq<BatteryCell>, max_temperature: int, min_temperature: int)
    requires
        any_above(cells, max_temperature),
    ensures
        target_state(cells, max_temperature, min_temperature) == ThermalState::Cooling,
        transition_signal(ThermalState::Idle, target_state(cells, max_temperature, min_temperature))
            == Some(ThermalSignal::CoolingActivated),
        transition_signal(
            target_state(cells, max_temperature, min_temperature),
            target_state(cells, max_temperature, min_temperature),
        ) == None::<ThermalSignal>,
{
}

/// Monitoring is edge-triggered: once in the state the cells call for,
/// monitoring the same cells again sends no signal.
pub proof fn lemma_monitor_settles(cells: Seq<BatteryCell>, max_temperature: int, min_temperature: int)
    ensures
        transition_signal(
            target_state(cells, max_temperature, min_temperature),
            target_state(cells, max_temperature, min_temperature),
        ) == None::<ThermalSignal>,
{
}

/// A hot cell and a cold cell at once call for cooling, not heating.
pub proof fn lemma_cooling_wins(cells: Seq<BatteryCell>, max_temperature: int, min_temperature: int)
    requires
        any_above(cells, max_temperature),
        any_below(cells, min_temperature),
    ensures
        target_state(cells, max_temperature, min_temperature) == ThermalState::Cooling,
{
}

/// Relies on rand::thread_rng and rand::Rng::gen_range: a value drawn from
/// the half-open range `[low, high)`, which the call panics on when empty.
#[verifier::external_body]
fn random_in_range(low: i64, high: i64) -> (r: i64)
    requires
        low < high,
    ensures
        low <= r < high,
{
    rand::Rng::gen_range(&mut rand::thread_rng(), low..high)
}

impl BatteryCell {
    /// Cell `id` at `initial_temp`.
    pub fn new(id: usize, initial_temp: i64) -> (r: BatteryCell)
        ensures
            r.id == id,
            r.temperature == initial_temp,
    {
        BatteryCell { id, temperature: initial_temp }
    }

    /// Moves the temperature by `change`.
    pub fn apply_temperature_change(&mut self, change: i64)
        requires
            i64::MIN <= old(self).temperature + change <= i64::MAX,
        ensures
            final(self).id == old(self).id,
            final(self).temperature == old(self).temperature + change,
    {
        self.temperature = self.temperature + change;
    }

    /// Moves the temperature by a random amount of less than 5 °C either way.
    pub fn update_temperature(&mut self)
        requires
            i64::MIN + TEMPERATURE_STEP <= old(self).temperature <= i64::MAX - TEMPERATURE_STEP,
        ensures
            final(self).id == old(self).id,
            old(self).temperature - TEMPERATURE_STEP <= final(self).temperature
                < old(self).temperature + TEMPERATURE_STEP,
    {
        let change = random_in_range(-TEMPERATURE_STEP, TEMPERATURE_STEP);
        self.apply_temperature_change(change);
    }
}

/// Watches a fixed array of cells and switches cooling and heating.
pub struct ThermalManagementSystem {
    pub cells: Vec<BatteryCell>,
    pub state: ThermalState,
    /// Cooling is wanted above this temperature.
    pub max_temperature: i64,
    /// Heating is wanted below this temperature.
    pub min_temperature: i64,
}

impl ThermalManagementSystem {
    /// `num_cells` cells numbered from 1, all at `initial_temp`, idle, with
    /// the reference thresholds.
    pub fn new(num_cells: usize, initial_temp: i64) -> (r: ThermalManagementSystem)
        ensures
            fresh_cells(r.cells@, num_cells as int, initial_temp as int),
            r.state == ThermalState::Idle,
            r.max_temperature == MAX_TEMPERATURE,
            r.min_temperature == MIN_TEMPERATURE,
    {
        ThermalManagementSystem::with_thresholds(num_cells, initial_temp, MAX_TEMPERATURE, MIN_TEMPERATURE)
    }

    /// `num_cells` cells numbered from 1, all at `initial_temp`, idle, with
    /// the given thresholds.
    pub fn with_thresholds(
        num_cells: usize,
        initial_temp: i64,
        max_temperature: i64,
        min_temperature: i64,
    ) -> (r: ThermalManagementSystem)
        ensures
            fresh_cells(r.cells@, num_cells as int, initial_temp as int),
            r.state == ThermalState::Idle,
            r.max_temperature == max_temperature,
            r.min_temperature == min_temperature,
    {
        let mut cells: Vec<BatteryCell> = Vec::new();
        let mut id: usize = 0;
        while id < num_cells
            invariant
                id <= num_cells,
                fresh_cells(cells@, id as int, initial_temp as int),
            decreases num_cells - id,
        {
            cells.push(BatteryCell::new(id + 1, initial_temp));
            id = id + 1;
        }
        ThermalManagementSystem { cells, state: ThermalState::Idle, max_temperature, min_temperature }
    }

    /// Reads every cell and moves to the state they call for, returning the
    /// actuation signal when the state changes and nothing when it stays.
    pub fn monitor_temperatures(&mut self) -> (r: Option<ThermalSignal>)
        ensures
            final(self).cells == old(self).cells,
            final(self).max_temperature == old(self).max_temperature,
            final(self).min_temperature == old(self).min_temperature,
            final(self).state == target_state(
                old(self).cells@,
                old(self).max_temperature as int,
                old(self).min_temperature as int,
            ),
            r == transition_signal(old(self).state, final(self).state),
    {
        let mut need_cooling = false;
        let mut need_heating = false;
        let mut i: usize = 0;
        while i < self.cells.len()
            invariant
                i <= self.cells.len(),
                need_cooling == any_above(self.cells@.take(i as int), self.max_temperature as int),
                need_heating == exists|j: int|
                    0 <= j < i && #[trigger] self.cells@[j].temperature < self.min_temperature
                        && self.cells@[j].temperature <= self.max_temperature,
            decreases self.cells.len() - i,
        {
            let t = self.cells[i].temperature;
            if t > self.max_temperature {
                need_cooling = true;
            } else if t < self.min_temperature {
                need_heating = true;
            }
            proof {
                let before = self.cells@.take(i as int);
                let after = self.cells@.take(i + 1);
                assert(after[i as int] == self.cells@[i as int]);
                assert forall|j: int| 0 <= j < i implies #[trigger] after[j] == before[j] by {}
                if any_above(after, self.max_temperature as int) {
                    let j = choose|j: int| 0 <= j < after.len() && #[trigger] after[j].temperature > self.max_temperature;
                    if j < i {
                        assert(before[j] == after[j]);
                    }
                }
                if any_above(before, self.max_temperature as int) {
                    let j = choose|j: int| 0 <= j < before.len() && #[trigger] before[j].temperature > self.max_temperature;
                    assert(after[j] == before[j]);
                }
            }
            i = i + 1;
        }
        proof {
            assert(self.cells@.take(i as int) =~= self.cells@);
            if !need_cooling {
                if any_below(self.cells@, self.min_temperature as int) {
                    let j = choose|j: int| 0 <= j < self.cells@.len() && #[trigger] self.cells@[j].temperature < self.min_temperature;
                    assert(!(self.cells@[j].temperature > self.max_temperature));
                }
            }
        }
        if need_cooling {
            if self.state != ThermalState::Cooling {
                return Some(self.activate_cooling());
            }
        } else if need_heating {
            if self.state != ThermalState::Heating {
                return Some(self.activate_heating());
            }
        } else {
            if self.state != ThermalState::Idle {
                return Some(self.deactivate_systems());
            }
        }
        None
    }

    /// One control cycle: every cell takes a random temperature step of less
    /// than 5 °C either way, then the cells are monitored.
    pub fn run_cycle(&mut self) -> (r: Option<ThermalSignal>)
        requires
            forall|i: int| 0 <= i < old(self).cells.len() ==>
                i64::MIN + TEMPERATURE_STEP <= #[trigger] old(self).cells@[i].temperature
                    <= i64::MAX - TEMPERATURE_STEP,
        ensures
            final(self).cells.len() == old(self).cells.len(),
            forall|i: int| 0 <= i < old(self).cells.len() ==> {
                &&& (#[trigger] final(self).cells@[i]).id == old(self).cells@[i].id
                &&& old(self).cells@[i].temperature - TEMPERATURE_STEP <= final(self).cells@[i].temperature
                &&& final(self).cells@[i].temperature < old(self).cells@[i].temperature + TEMPERATURE_STEP
            },
            final(self).max_temperature == old(self).max_temperature,
            final(self).min_temperature == old(self).min_temperature,
            final(self).state == target_state(
                final(self).cells@,
                old(self).max_temperature as int,
                old(self).min_temperature as int,
            ),
            r == transition_signal(old(self).state, final(self).state),
    {
        let mut i: usize = 0;
        while i < self.cells.len()
            invariant
                i <= self.cells.len(),
                self.cells.len() == old(self).cells.len(),
                forall|j: int| 0 <= j < old(self).cells.len() ==>
                    i64::MIN + TEMPERATURE_STEP <= #[trigger] old(self).cells@[j].temperature
                        <= i64::MAX - TEMPERATURE_STEP,
                self.state == old(self).state,
                self.max_temperature == old(self).max_temperature,
                self.min_temperature == old(self).min_temperature,
                forall|j: int| 0 <= j < self.cells.len() ==>
                    (#[trigger] self.cells@[j]).id == old(self).cells@[j].id,
                forall|j: int| 0 <= j < i ==> {
                    &&& old(self).cells@[j].temperature - TEMPERATURE_STEP <= #[trigger] self.cells@[j].temperature
                    &&& self.cells@[j].temperature < old(self).cells@[j].temperature + TEMPERATURE_STEP
                },
                forall|j: int| i <= j < self.cells.len() ==>
                    #[trigger] self.cells@[j].temperature == old(self).cells@[j].temperature,
            decreases self.cells.len() - i,
        {
            let mut cell = self.cells[i];
            assert(cell.temperature == old(self).cells@[i as int].temperature);
            cell.update_temperature();
            self.cells.set(i, cell);
            i = i + 1;
        }
        self.monitor_temperatures()
    }

    fn activate_cooling(&mut self) -> (r: ThermalSignal)
        ensures
            *final(self) == (ThermalManagementSystem { state: ThermalState::Cooling, ..*old(self) }),
            r == ThermalSignal::CoolingActivated,
    {
        self.state = ThermalState::Cooling;
        ThermalSignal::CoolingActivated
    }

    fn activate_heating(&mut self) -> (r: ThermalSignal)
        ensures
            *final(self) == (ThermalManagementSystem { state: ThermalState::Heating, ..*old(self) }),
            r == ThermalSignal::HeatingActivated,
    {
        self.state = ThermalState::Heating;
        ThermalSignal::HeatingActivated
    }

    fn deactivate_systems(&mut self) -> (r: ThermalSignal)
        ensures
            *final(self) == (ThermalManagementSystem { state: ThermalState::Idle, ..*old(self) }),
            r == ThermalSignal::SystemsDeactivated,
    {
        self.state = ThermalState::Idle;
        ThermalSignal::SystemsDeactivated
    }
}

} // verus!
