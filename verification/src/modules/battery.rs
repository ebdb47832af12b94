//! Battery module: aggregate charge and charging state over all batteries.

use crate::config::RootModuleConfig;
use crate::configs::battery::{
    BatteryConfig, BatteryConfigView, BatteryDisplayConfig, BatteryDisplayConfigView, display_views,
};
use crate::context::Context;
use crate::module::{Module, ModuleView, empty_module, module_view, with_segment};
use crate::segment::{SegmentConfigView, Style, style_view};
use crate::text::{decimal, decimal_string, same_text};
use vstd::prelude::*;
use vstd::string::*;

verus! {

/// Charging state of one battery, or of all batteries taken together.
#[derive(Clone, Copy, Debug, PartialEq, Eq, Structural)]
pub enum State {
    Unknown,
    Charging,
    Discharging,
    Empty,
    Full,
    /// A state that a source reports and that is none of the others. There is
    /// no segment for it.
    Other,
}

/// The state of two batteries taken together.
///
/// Discharging wins over everything, then charging wins over everything else;
/// of the remaining states only two equal ones keep their value.
pub open spec fn merged_state(left: State, right: State) -> State {
    if left == State::Discharging || right == State::Discharging {
        State::Discharging
    } else if left == State::Charging || right == State::Charging {
        State::Charging
    } else if left == right {
        left
    } else {
        State::Unknown
    }
}

/// Merges the states of two batteries into the state of the pair.
pub fn merge_battery_state(left: State, right: State) -> (merged: State)
    ensures
        merged == merged_state(left, right),
{
    if left == right {
        return left;
    }
    match (left, right) {
        (_, State::Discharging) | (State::Discharging, _) => State::Discharging,
        (State::Charging, _) | (_, State::Charging) => State::Charging,
        _ => State::Unknown,
    }
}

/// Merging does not depend on the order of the two batteries.
pub proof fn lemma_merge_commutative(a: State, b: State)
    ensures
        merged_state(a, b) == merged_state(b, a),
{
}

/// A discharging battery makes the pair discharging, whatever the other does.
pub proof fn lemma_merge_discharging_wins(x: State)
    ensures
        merged_state(x, State::Discharging) == State::Discharging,
        merged_state(State::Discharging, x) == State::Discharging,
{
}

/// A charging battery makes the pair charging unless the other discharges.
pub proof fn lemma_merge_charging_wins(x: State)
    requires
        x != State::Discharging,
    ensures
        merged_state(x, State::Charging) == State::Charging,
        merged_state(State::Charging, x) == State::Charging,
{
}

/// Two batteries that neither charge nor discharge keep a state they share
/// and are unknown together when they differ.
pub proof fn lemma_merge_idle(x: State, y: State)
    requires
        x != State::Charging,
        x != State::Discharging,
        y != State::Charging,
        y != State::Discharging,
    ensures
        x == y ==> merged_state(x, y) == x,
        x != y ==> merged_state(x, y) == State::Unknown,
{
}

/// What one battery reported: the energy it holds, the energy it holds when
/// full (both in milliwatt-hours) and its state.
#[derive(Clone, Copy, Debug, PartialEq, Eq)]
pub struct Battery {
    pub energy: i32,
    pub energy_full: i32,
    pub state: State,
}

/// Energy, capacity and state of all readable batteries taken together.
#[derive(Clone, Copy, Debug, PartialEq, Eq)]
pub struct BatterySum {
    pub energy: i128,
    pub energy_full: i128,
    pub state: State,
}

/// Some source gave a reading.
pub open spec fn has_reading(sources: Seq<Option<Battery>>) -> bool {
    exists|i: int| 0 <= i < sources.len() && (#[trigger] sources[i]) is Some
}

/// Some source gave a reading in the given state.
pub open spec fn has_state(sources: Seq<Option<Battery>>, state: State) -> bool {
    exists|i: int|
        0 <= i < sources.len() && (#[trigger] sources[i]) is Some && sources[i].unwrap().state
            == state
}

/// The energy one source adds to the total: nothing when it could not be read.
pub open spec fn energy_of(source: Option<Battery>) -> int {
    match source {
        Some(battery) => battery.energy as int,
        None => 0,
    }
}

/// The capacity one source adds to the total: nothing when it could not be read.
pub open spec fn capacity_of(source: Option<Battery>) -> int {
    match source {
        Some(battery) => battery.energy_full as int,
        None => 0,
    }
}

/// Energy held by all readable batteries.
pub open spec fn total_energy(sources: Seq<Option<Battery>>) -> int
    decreases sources.len(),
{
    if sources.len() == 0 {
        0
    } else {
        total_energy(sources.drop_last()) + energy_of(sources.last())
    }
}

/// Energy that all readable batteries hold when full.
pub open spec fn total_capacity(sources: Seq<Option<Battery>>) -> int
    decreases sources.len(),
{
    if sources.len() == 0 {
        0
    } else {
        total_capacity(sources.drop_last()) + capacity_of(sources.last())
    }
}

/// The state of all readable batteries taken together: discharging if any
/// discharges, else charging if any charges, else the state they all share,
/// else unknown.
pub open spec fn aggregate_state(sources: Seq<Option<Battery>>) -> State {
    if has_state(sources, State::Discharging) {
        State::Discharging
    } else if has_state(sources, State::Charging) {
        State::Charging
    } else if has_state(sources, State::Full) && !has_state(sources, State::Empty) && !has_state(
        sources,
        State::Unknown,
    ) && !has_state(sources, State::Other) {
        State::Full
    } else if has_state(sources, State::Empty) && !has_state(sources, State::Full) && !has_state(
        sources,
        State::Unknown,
    ) && !has_state(sources, State::Other) {
        State::Empty
    } else if has_state(sources, State::Other) && !has_state(sources, State::Full) && !has_state(
        sources,
        State::Empty,
    ) && !has_state(sources, State::Unknown) {
        State::Other
    } else {
        State::Unknown
    }
}

/// The last source adds its own reading, and no other, to what the sources
/// before it hold.
proof fn lemma_has_state_push(sources: Seq<Option<Battery>>, state: State)
    requires
        sources.len() > 0,
    ensures
        has_state(sources, state) <==> has_state(sources.drop_last(), state) || (
        sources.last() is Some && sources.last().unwrap().state == state),
        has_reading(sources) <==> has_reading(sources.drop_last()) || sources.last() is Some,
{
    let front = sources.drop_last();
    let n = sources.len() - 1;
    if has_state(front, state) {
        let i = choose|i: int|
            0 <= i < front.len() && (#[trigger] front[i]) is Some && front[i].unwrap().state
                == state;
        assert(sources[i] == front[i]);
    }
    if has_state(sources, state) {
        let i = choose|i: int|
            0 <= i < sources.len() && (#[trigger] sources[i]) is Some && sources[i].unwrap().state
                == state;
        if i < n {
            assert(front[i] == sources[i]);
        }
    }
    if has_reading(front) {
        let i = choose|i: int| 0 <= i < front.len() && (#[trigger] front[i]) is Some;
        assert(sources[i] == front[i]);
    }
    if has_reading(sources) {
        let i = choose|i: int| 0 <= i < sources.len() && (#[trigger] sources[i]) is Some;
        if i < n {
            assert(front[i] == sources[i]);
        }
    }
    if sources.last() is Some {
        assert(sources[n] is Some);
    }
}

/// A further reading changes the state of the whole as merging its state in
/// does: the state of the whole is the states of the readings merged one
/// after the other.
pub proof fn lemma_aggregate_push(sources: Seq<Option<Battery>>)
    requires
        sources.len() > 0,
        sources.last() is Some,
    ensures
        has_reading(sources),
        has_reading(sources.drop_last()) ==> aggregate_state(sources) == merged_state(
            aggregate_state(sources.drop_last()),
            sources.last().unwrap().state,
        ),
        !has_reading(sources.drop_last()) ==> aggregate_state(sources)
            == sources.last().unwrap().state,
{
    let front = sources.drop_last();
    lemma_has_state_push(sources, State::Discharging);
    lemma_has_state_push(sources, State::Charging);
    lemma_has_state_push(sources, State::Full);
    lemma_has_state_push(sources, State::Empty);
    lemma_has_state_push(sources, State::Unknown);
    lemma_has_state_push(sources, State::Other);
    if has_reading(front) {
        let i = choose|i: int| 0 <= i < front.len() && (#[trigger] front[i]) is Some;
        let state = front[i].unwrap().state;
        assert(has_state(front, state));
    } else {
        assert forall|state: State| !has_state(front, state) by {
            if has_state(front, state) {
                let i = choose|i: int|
                    0 <= i < front.len() && (#[trigger] front[i]) is Some
                        && front[i].unwrap().state == state;
                assert(front[i] is Some);
            }
        }
    }
}

/// The totals of `n` sources are at most `n` readings of the largest magnitude
/// that a reading can have.
pub proof fn lemma_totals_bounded(sources: Seq<Option<Battery>>)
    ensures
        -0x8000_0000 * sources.len() <= total_energy(sources) <= 0x8000_0000 * sources.len(),
        -0x8000_0000 * sources.len() <= total_capacity(sources) <= 0x8000_0000 * sources.len(),
    decreases sources.len(),
{
    if sources.len() > 0 {
        lemma_totals_bounded(sources.drop_last());
    }
}

/// Adds up the energy and the capacity of all batteries that could be read,
/// and merges their states. Sources that could not be read are passed over;
/// without a single reading there is no sum.
pub fn sum_batteries(batteries: &Vec<Option<Battery>>) -> (sum: Option<BatterySum>)
    ensures
        sum is Some <==> has_reading(batteries@),
        sum matches Some(total) ==> {
            &&& total.energy == total_energy(batteries@)
            &&& total.energy_full == total_capacity(batteries@)
            &&& total.state == aggregate_state(batteries@)
        },
{
    let mut sum: Option<BatterySum> = None;
    let mut i: usize = 0;
    while i < batteries.len()
        invariant
            i <= batteries.len(),
            sum is Some <==> has_reading(batteries@.take(i as int)),
            sum is None ==> total_energy(batteries@.take(i as int)) == 0 && total_capacity(
                batteries@.take(i as int),
            ) == 0,
            sum matches Some(total) ==> {
                &&& total.energy == total_energy(batteries@.take(i as int))
                &&& total.energy_full == total_capacity(batteries@.take(i as int))
                &&& total.state == aggregate_state(batteries@.take(i as int))
            },
        decreases batteries.len() - i,
    {
        proof {
            let next = batteries@.take(i + 1);
            assert(next.drop_last() == batteries@.take(i as int));
            assert(next.last() == batteries@[i as int]);
            lemma_has_state_push(next, State::Unknown);
            if next.last() is Some {
                lemma_aggregate_push(next);
            } else {
                lemma_has_state_push(next, State::Discharging);
                lemma_has_state_push(next, State::Charging);
                lemma_has_state_push(next, State::Full);
                lemma_has_state_push(next, State::Empty);
                lemma_has_state_push(next, State::Other);
            }
            lemma_totals_bounded(batteries@.take(i as int));
        }
        match batteries[i] {
            Some(battery) => {
                sum = match sum {
                    Some(total) => Some(
                        BatterySum {
                            energy: total.energy + battery.energy as i128,
                            energy_full: total.energy_full + battery.energy_full as i128,
                            state: merge_battery_state(total.state, battery.state),
                        },
                    ),
                    None => Some(
                        BatterySum {
                            energy: battery.energy as i128,
                            energy_full: battery.energy_full as i128,
                            state: battery.state,
                        },
                    ),
                };
            },
            None => {},
        }
        i += 1;
    }
    assert(batteries@.take(i as int) == batteries@);
    sum
}

/// Charge and state of the machine's batteries taken together.
#[derive(Clone, Copy, Debug, PartialEq, Eq)]
pub struct BatteryStatus {
    /// The charge in percent of the capacity, rounded to a whole number.
    pub percentage: i128,
    pub state: State,
}

/// The charge `energy / capacity` in percent, rounded to the nearest whole
/// number, a half rounded up.
pub open spec fn rounded_percentage(energy: int, capacity: int) -> int
    recommends
        capacity > 0,
{
    (200 * energy + capacity) / (2 * capacity)
}

/// The sources gave figures from which a charge can be derived: some battery
/// could be read, and both totals are positive.
pub open spec fn usable(sources: Option<Vec<Option<Battery>>>) -> bool {
    &&& sources is Some
    &&& has_reading(sources.unwrap()@)
    &&& total_energy(sources.unwrap()@) > 0
    &&& total_capacity(sources.unwrap()@) > 0
}

/// The rounded percentage is the whole number nearest to the exact one: it is
/// off by at most a half, and by less than a half upwards.
pub proof fn lemma_rounded_percentage_nearest(energy: int, capacity: int)
    requires
        capacity > 0,
    ensures
        (2 * rounded_percentage(energy, capacity) - 1) * capacity <= 200 * energy,
        200 * energy < (2 * rounded_percentage(energy, capacity) + 1) * capacity,
{
    let n = 200 * energy + capacity;
    let d = 2 * capacity;
    let p = n / d;
    assert(d * p <= n < d * p + d) by (nonlinear_arith)
        requires
            d > 0,
            p == n / d,
    ;
    assert(d * p == 2 * p * capacity) by (nonlinear_arith)
        requires
            d == 2 * capacity,
    ;
    assert((2 * p - 1) * capacity == 2 * p * capacity - capacity) by (nonlinear_arith);
    assert((2 * p + 1) * capacity == 2 * p * capacity + capacity) by (nonlinear_arith);
}

/// Without a single reading there are no totals.
pub proof fn lemma_no_reading_no_totals(sources: Seq<Option<Battery>>)
    requires
        !has_reading(sources),
    ensures
        total_energy(sources) == 0,
        total_capacity(sources) == 0,
    decreases sources.len(),
{
    if sources.len() > 0 {
        lemma_has_state_push(sources, State::Unknown);
        lemma_no_reading_no_totals(sources.drop_last());
    }
}

/// Derives the overall charge and state from what the battery sources
/// reported. `None` for `sources` says that the batteries could not be
/// queried at all. There is a status exactly when the figures are usable.
pub fn get_battery_status(sources: &Option<Vec<Option<Battery>>>) -> (status: Option<BatteryStatus>)
    ensures
        status is Some <==> usable(*sources),
        status matches Some(found) ==> {
            &&& found.percentage == rounded_percentage(
                total_energy(sources.unwrap()@),
                total_capacity(sources.unwrap()@),
            )
            &&& found.state == aggregate_state(sources.unwrap()@)
        },
{
    let batteries = match sources {
        Some(batteries) => batteries,
        None => {
            return None;
        },
    };
    match sum_batteries(batteries) {
        Some(total) => {
            if total.energy <= 0 {
                return None;
            }
            if total.energy_full <= 0 {
                return None;
            }
            proof {
                lemma_totals_bounded(batteries@);
                assert(batteries@.len() == batteries.len() <= 0xffff_ffff_ffff_ffff);
            }
            let percentage: i128 = (200 * total.energy + total.energy_full) / (2
                * total.energy_full);
            Some(BatteryStatus { percentage, state: total.state })
        },
        None => None,
    }
}

/// The percent sign as the shell of the given name takes it in a prompt.
pub open spec fn percentage_sign(shell: Option<Seq<char>>) -> Seq<char> {
    if shell == Some("zsh"@) {
        "%%"@
    } else if shell == Some("powershell"@) {
        "`%"@
    } else {
        "%"@
    }
}

/// The style for a charge: that of the first entry of the display list whose
/// threshold the charge does not exceed.
pub open spec fn selected_style(display: Seq<BatteryDisplayConfigView>, percentage: int) -> Option<
    Seq<char>,
>
    decreases display.len(),
{
    if display.len() == 0 {
        None
    } else if percentage <= display.first().threshold {
        Some(display.first().style)
    } else {
        selected_style(display.drop_first(), percentage)
    }
}

/// The segment that shows the state, with its key. Full, charging and
/// discharging have one; unknown and empty have one only where the
/// configuration gives it; a state that is none of these has none.
pub open spec fn state_segment(state: State, config: BatteryConfigView) -> Option<
    (Seq<char>, SegmentConfigView),
> {
    match state {
        State::Full => Some(("full_symbol"@, config.full_symbol)),
        State::Charging => Some(("charging_symbol"@, config.charging_symbol)),
        State::Discharging => Some(("discharging_symbol"@, config.discharging_symbol)),
        State::Unknown => match config.unknown_symbol {
            Some(segment) => Some(("unknown_symbol"@, segment)),
            None => None,
        },
        State::Empty => match config.empty_symbol {
            Some(segment) => Some(("empty_symbol"@, segment)),
            None => None,
        },
        State::Other => None,
    }
}

/// The battery module for a context. It shows nothing without usable figures,
/// nothing above the last threshold of the display list, and nothing for
/// batteries in a state that is none of the five it knows. Else it has the
/// style that the charge selects, no prefix, the segment of the state where
/// there is one, and the percentage with the shell's percent sign.
pub open spec fn battery_module(context: Context) -> Option<ModuleView> {
    if !usable(context.batteries) {
        None
    } else {
        let sources = context.batteries.unwrap()@;
        let percentage = rounded_percentage(total_energy(sources), total_capacity(sources));
        let config = BatteryConfig::resolved(context.module_settings("battery"@));
        match selected_style(config.display, percentage) {
            None => None,
            Some(style) => if aggregate_state(sources) == State::Other {
                None
            } else {
                let bare = ModuleView { style, prefix: Seq::empty(), ..empty_module("battery"@) };
                let stated = match state_segment(aggregate_state(sources), config) {
                    Some((key, segment)) => with_segment(bare, key, segment.value, segment.style),
                    None => bare,
                };
                Some(
                    with_segment(
                        stated,
                        "percentage"@,
                        decimal(percentage as nat) + percentage_sign(
                            context.env("STARSHIP_SHELL"@),
                        ),
                        config.percentage.style,
                    ),
                )
            },
        }
    }
}

/// Where no battery could be read, the module shows nothing: no charge of
/// zero percent is made up.
pub proof fn lemma_no_battery_no_module(context: Context)
    requires
        context.batteries matches Some(sources) ==> !has_reading(sources@),
    ensures
        battery_module(context) is None,
{
}

/// Finds the style for a charge in the display list.
fn select_style(display: &Vec<BatteryDisplayConfig>, percentage: i128) -> (style: Option<Style>)
    ensures
        style_view(style) == selected_style(
            display_views(display@),
            percentage as int,
        ),
{
    let ghost views = display_views(display@);
    let mut i: usize = 0;
    assert(views.skip(0) == views);
    while i < display.len()
        invariant
            i <= display.len(),
            views == display_views(display@),
            selected_style(views, percentage as int) == selected_style(
                views.skip(i as int),
                percentage as int,
            ),
        decreases display.len() - i,
    {
        assert(views.skip(i as int).first() == display@[i as int]@);
        assert(views.skip(i as int).drop_first() == views.skip(i + 1));
        if percentage <= display[i].threshold as i128 {
            return Some(display[i].style.clone());
        }
        i += 1;
    }
    None
}

/// Creates the module for the charge and the state of the batteries.
pub fn module(context: &Context) -> (module: Option<Module>)
    ensures
        module_view(module) == battery_module(*context),
{
    let shell = context.get_env("STARSHIP_SHELL");
    let percentage_char = match shell {
        Some(name) => if same_text(name.as_str(), "zsh") {
            "%%"
        } else if same_text(name.as_str(), "powershell") {
            "`%"
        } else {
            "%"
        },
        None => "%",
    };
    assert(percentage_char@ == percentage_sign(context.env("STARSHIP_SHELL"@)));

    let battery_status = get_battery_status(&context.batteries)?;
    let BatteryStatus { state, percentage } = battery_status;

    let mut module = context.new_module("battery");
    let battery_config = BatteryConfig::try_load(context.module_config("battery"));

    let display_style = select_style(&battery_config.display, percentage)?;
    module.set_style(display_style);
    module.set_prefix("");
    proof {
        reveal_strlit("");
        assert(module@.prefix =~= Seq::empty());
    }

    match state {
        State::Full => {
            module.create_segment("full_symbol", &battery_config.full_symbol);
        },
        State::Charging => {
            module.create_segment("charging_symbol", &battery_config.charging_symbol);
        },
        State::Discharging => {
            module.create_segment("discharging_symbol", &battery_config.discharging_symbol);
        },
        State::Unknown => {
            if let Some(unknown_symbol) = &battery_config.unknown_symbol {
                module.create_segment("unknown_symbol", unknown_symbol);
            }
        },
        State::Empty => {
            if let Some(empty_symbol) = &battery_config.empty_symbol {
                module.create_segment("empty_symbol", empty_symbol);
            }
        },
        State::Other => {
            return None;
        },
    }

    let mut percent_string = decimal_string(percentage as u128);
    percent_string.append(percentage_char);
    module.create_segment(
        "percentage",
        &battery_config.percentage.with_value(percent_string.as_str()),
    );

    Some(module)
}

} // verus!
