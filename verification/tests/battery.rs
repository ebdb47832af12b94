use starship::command::Execution;
use starship::config::ConfigValue;
use starship::context::Context;
use starship::module::Module;
use starship::modules::battery::State::{Charging, Discharging, Empty, Full, Other, Unknown};
use starship::modules::battery::{
    get_battery_status, merge_battery_state, module, sum_batteries, Battery, BatteryStatus,
    BatterySum, State,
};

fn reading(energy: i32, energy_full: i32, state: State) -> Option<Battery> {
    Some(Battery { energy, energy_full, state })
}

fn context_with(
    batteries: Option<Vec<Option<Battery>>>,
    shell: Option<&str>,
    settings: Vec<(String, ConfigValue)>,
) -> Context {
    let mut environment = Vec::new();
    if let Some(shell) = shell {
        environment.push(("STARSHIP_SHELL".to_string(), shell.to_string()));
    }
    let executions: Vec<Execution> = Vec::new();
    Context {
        target_path: "/".to_string(),
        environment,
        dir_contents: None,
        config: ConfigValue::Table(vec![("battery".to_string(), ConfigValue::Table(settings))]),
        executions,
        batteries,
    }
}

fn segments_of(module: &Module) -> Vec<(String, String)> {
    module.segments.iter().map(|segment| (segment.key.clone(), segment.value.clone())).collect()
}

fn pair(key: &str, value: &str) -> (String, String) {
    (key.to_string(), value.to_string())
}

#[test]
fn battery_state_merge_always_discharge() {
    for state in &[Full, Empty, Discharging, Charging, Unknown] {
        assert_eq!(merge_battery_state(*state, Discharging), Discharging);
        assert_eq!(merge_battery_state(Discharging, *state), Discharging);
    }
}

#[test]
fn battery_state_merge_charges() {
    // Note: discharging is missing since it wins over charging
    for state in &[Full, Empty, Charging, Unknown] {
        assert_eq!(merge_battery_state(*state, Charging), Charging);
        assert_eq!(merge_battery_state(Charging, *state), Charging);
    }
}

#[test]
fn battery_state_merge_unknown() {
    for left in &[Full, Empty, Unknown] {
        for right in &[Full, Empty, Unknown] {
            if left == right {
                assert_eq!(merge_battery_state(*left, *right), *left);
            } else {
                assert_eq!(merge_battery_state(*left, *right), Unknown);
            }
        }
    }
}

#[test]
fn battery_state_merge_is_commutative() {
    let states = [Full, Empty, Discharging, Charging, Unknown, Other];
    for left in &states {
        for right in &states {
            assert_eq!(merge_battery_state(*left, *right), merge_battery_state(*right, *left));
        }
    }
}

#[test]
fn battery_state_merge_of_a_state_that_is_none_of_the_five() {
    assert_eq!(merge_battery_state(Other, Other), Other);
    assert_eq!(merge_battery_state(Other, Discharging), Discharging);
    assert_eq!(merge_battery_state(Charging, Other), Charging);
    for state in &[Full, Empty, Unknown] {
        assert_eq!(merge_battery_state(Other, *state), Unknown);
        assert_eq!(merge_battery_state(*state, Other), Unknown);
    }
}

#[test]
fn module_declines_on_a_state_that_is_none_of_the_five() {
    let context = context_with(Some(vec![reading(5, 100, Other)]), None, Vec::new());
    assert_eq!(
        get_battery_status(&context.batteries),
        Some(BatteryStatus { percentage: 5, state: Other })
    );
    assert_eq!(module(&context), None);
    let context =
        context_with(Some(vec![reading(2, 50, Other), None, reading(3, 50, Other)]), None, Vec::new());
    assert_eq!(module(&context), None);
    // Together with a battery in another state the whole is in a state
    // that has a segment, or in the unknown one.
    let context =
        context_with(Some(vec![reading(2, 50, Other), reading(3, 50, Charging)]), None, Vec::new());
    let shown = module(&context).expect("the module is active");
    assert_eq!(segments_of(&shown), vec![pair("charging_symbol", "⇡"), pair("percentage", "5%")]);
    let context =
        context_with(Some(vec![reading(2, 50, Other), reading(3, 50, Full)]), None, Vec::new());
    let shown = module(&context).expect("the module is active");
    assert_eq!(segments_of(&shown), vec![pair("percentage", "5%")]);
}

#[test]
fn sum_of_no_batteries_is_none() {
    assert_eq!(sum_batteries(&Vec::new()), None);
    assert_eq!(sum_batteries(&vec![None, None]), None);
}

#[test]
fn sum_adds_energy_and_merges_states() {
    let batteries = vec![reading(10, 40, Full), None, reading(25, 60, Charging)];
    assert_eq!(
        sum_batteries(&batteries),
        Some(BatterySum { energy: 35, energy_full: 100, state: Charging })
    );
}

#[test]
fn sum_of_one_battery_is_that_battery() {
    assert_eq!(
        sum_batteries(&vec![None, reading(7, 9, Empty)]),
        Some(BatterySum { energy: 7, energy_full: 9, state: Empty })
    );
}

#[test]
fn sum_of_idle_batteries_that_differ_is_unknown() {
    let batteries = vec![reading(1, 2, Full), reading(1, 2, Empty), reading(1, 2, Full)];
    assert_eq!(sum_batteries(&batteries).map(|sum| sum.state), Some(Unknown));
    let batteries = vec![reading(1, 2, Full), reading(1, 2, Full)];
    assert_eq!(sum_batteries(&batteries).map(|sum| sum.state), Some(Full));
}

#[test]
fn sum_does_not_overflow_on_extreme_readings() {
    let batteries = vec![reading(i32::MAX, i32::MAX, Full); 3];
    assert_eq!(
        sum_batteries(&batteries),
        Some(BatterySum {
            energy: 3 * (i32::MAX as i128),
            energy_full: 3 * (i32::MAX as i128),
            state: Full
        })
    );
}

#[test]
fn status_gives_the_rounded_percentage() {
    let status = |energy, full| {
        get_battery_status(&Some(vec![reading(energy, full, Discharging)]))
            .map(|status| status.percentage)
    };
    assert_eq!(status(50, 100), Some(50));
    assert_eq!(status(104, 1000), Some(10));
    assert_eq!(status(105, 1000), Some(11));
    assert_eq!(status(1, 3), Some(33));
    assert_eq!(status(2, 3), Some(67));
    assert_eq!(status(1, 1000), Some(0));
    assert_eq!(status(100, 100), Some(100));
    assert_eq!(status(3, 2), Some(150));
}

#[test]
fn status_over_several_batteries() {
    let sources = Some(vec![reading(10, 50, Full), None, reading(20, 50, Discharging)]);
    assert_eq!(
        get_battery_status(&sources),
        Some(BatteryStatus { percentage: 30, state: Discharging })
    );
}

#[test]
fn status_needs_positive_totals() {
    assert_eq!(get_battery_status(&Some(vec![reading(0, 100, Full)])), None);
    assert_eq!(get_battery_status(&Some(vec![reading(50, 0, Full)])), None);
    assert_eq!(get_battery_status(&Some(vec![reading(-5, 100, Full)])), None);
    assert_eq!(get_battery_status(&Some(vec![reading(5, -100, Full)])), None);
    assert_eq!(
        get_battery_status(&Some(vec![reading(5, 100, Full), reading(-5, 100, Full)])),
        None
    );
}

#[test]
fn status_without_batteries_is_none() {
    assert_eq!(get_battery_status(&None), None);
    assert_eq!(get_battery_status(&Some(Vec::new())), None);
    assert_eq!(get_battery_status(&Some(vec![None, None, None])), None);
}

#[test]
fn module_is_inactive_without_batteries() {
    assert_eq!(module(&context_with(None, None, Vec::new())), None);
    assert_eq!(module(&context_with(Some(Vec::new()), None, Vec::new())), None);
    assert_eq!(module(&context_with(Some(vec![None, None]), None, Vec::new())), None);
}

#[test]
fn module_shows_a_low_discharging_battery() {
    let context = context_with(Some(vec![reading(9, 100, Discharging)]), None, Vec::new());
    let module = module(&context).expect("the module is active");
    assert_eq!(module.name, "battery");
    assert_eq!(module.style.descriptor, "bold red");
    assert_eq!(module.prefix, "");
    assert_eq!(module.suffix, " ");
    assert_eq!(segments_of(&module), vec![pair("discharging_symbol", "⇣"), pair("percentage", "9%")]);
}

#[test]
fn module_is_inactive_above_the_last_threshold() {
    let context = context_with(Some(vec![reading(50, 100, Discharging)]), None, Vec::new());
    assert_eq!(module(&context), None);
    let context = context_with(Some(vec![reading(11, 100, Discharging)]), None, Vec::new());
    assert_eq!(module(&context), None);
    let context = context_with(Some(vec![reading(10, 100, Discharging)]), None, Vec::new());
    assert!(module(&context).is_some());
}

#[test]
fn module_selects_the_style_by_the_rounded_percentage() {
    // 10.4 percent rounds to 10, which the threshold of 10 still admits.
    let context = context_with(Some(vec![reading(104, 1000, Charging)]), None, Vec::new());
    let module = module(&context).expect("the module is active");
    assert_eq!(segments_of(&module), vec![pair("charging_symbol", "⇡"), pair("percentage", "10%")]);
    // 10.5 percent rounds to 11.
    let context = context_with(Some(vec![reading(105, 1000, Charging)]), None, Vec::new());
    assert_eq!(starship::modules::battery::module(&context), None);
}

#[test]
fn module_escapes_the_percent_sign_for_the_shell() {
    let batteries = || Some(vec![reading(5, 100, Full)]);
    let percentage = |shell| {
        let module = module(&context_with(batteries(), shell, Vec::new())).unwrap();
        module.segments.last().unwrap().value.clone()
    };
    assert_eq!(percentage(None), "5%");
    assert_eq!(percentage(Some("bash")), "5%");
    assert_eq!(percentage(Some("zsh")), "5%%");
    assert_eq!(percentage(Some("powershell")), "5`%");
}

#[test]
fn module_has_no_symbol_for_unknown_and_empty_by_default() {
    for state in [Unknown, Empty] {
        let context = context_with(Some(vec![reading(5, 100, state)]), None, Vec::new());
        let module = module(&context).expect("the module is active");
        assert_eq!(segments_of(&module), vec![pair("percentage", "5%")]);
    }
}

#[test]
fn module_takes_symbols_and_display_from_the_settings() {
    let display = ConfigValue::List(vec![
        ConfigValue::Table(vec![
            ("threshold".to_string(), ConfigValue::Integer(20)),
            ("style".to_string(), ConfigValue::Text("bold red".to_string())),
        ]),
        ConfigValue::Table(vec![
            ("threshold".to_string(), ConfigValue::Integer(100)),
            ("style".to_string(), ConfigValue::Text("green".to_string())),
        ]),
    ]);
    let settings = || {
        vec![
            ("display".to_string(), display_copy()),
            ("unknown_symbol".to_string(), ConfigValue::Text("?".to_string())),
            ("full_symbol".to_string(), ConfigValue::Text("F".to_string())),
        ]
    };
    fn display_copy() -> ConfigValue {
        ConfigValue::List(vec![
            ConfigValue::Table(vec![
                ("threshold".to_string(), ConfigValue::Integer(20)),
                ("style".to_string(), ConfigValue::Text("bold red".to_string())),
            ]),
            ConfigValue::Table(vec![
                ("threshold".to_string(), ConfigValue::Integer(100)),
                ("style".to_string(), ConfigValue::Text("green".to_string())),
            ]),
        ])
    }
    assert_eq!(display, display_copy());

    let context = context_with(Some(vec![reading(50, 100, Unknown)]), None, settings());
    let module = starship::modules::battery::module(&context).expect("the module is active");
    assert_eq!(module.style.descriptor, "green");
    assert_eq!(segments_of(&module), vec![pair("unknown_symbol", "?"), pair("percentage", "50%")]);

    let context = context_with(Some(vec![reading(20, 100, Full)]), None, settings());
    let module = starship::modules::battery::module(&context).expect("the module is active");
    assert_eq!(module.style.descriptor, "bold red");
    assert_eq!(segments_of(&module), vec![pair("full_symbol", "F"), pair("percentage", "20%")]);

    let context = context_with(Some(vec![reading(101, 100, Full)]), None, settings());
    assert_eq!(starship::modules::battery::module(&context), None);
}
