use starship::command::Execution;
use starship::config::ConfigValue;
use starship::context::{Context, DirContents};
use starship::modules::battery::{Battery, State};
use starship::modules::handle;
use starship::prompt::{get_prompt, prompt_order, required_commands};

fn text(value: &str) -> ConfigValue {
    ConfigValue::Text(value.to_string())
}

fn python_run() -> Vec<Execution> {
    vec![Execution {
        binary: "python".to_string(),
        arg: "--version".to_string(),
        stdout: Some(b"Python 3.7.4\n".to_vec()),
    }]
}

fn low_battery() -> Option<Vec<Option<Battery>>> {
    Some(vec![Some(Battery { energy: 5, energy_full: 100, state: State::Discharging })])
}

fn snapshot(
    entries: &[&str],
    executions: Vec<Execution>,
    batteries: Option<Vec<Option<Battery>>>,
    settings: Vec<(String, ConfigValue)>,
) -> Context {
    Context {
        target_path: "/project".to_string(),
        environment: Vec::new(),
        dir_contents: Some(DirContents::from_entries(
            entries.iter().map(|name| name.to_string()).collect(),
        )),
        config: ConfigValue::Table(settings),
        executions,
        batteries,
    }
}

fn order(names: Vec<ConfigValue>) -> Vec<(String, ConfigValue)> {
    vec![("prompt_order".to_string(), ConfigValue::List(names))]
}

fn names_of(context: &Context) -> Vec<String> {
    get_prompt(context).into_iter().map(|module| module.name).collect()
}

#[test]
fn default_order_is_python_then_battery() {
    let context = snapshot(&["main.py"], python_run(), low_battery(), Vec::new());
    assert_eq!(prompt_order(&context), vec!["python", "battery"]);
    assert_eq!(names_of(&context), vec!["python", "battery"]);
}

#[test]
fn inactive_modules_leave_no_gap() {
    let nothing = snapshot(&["main.rs"], python_run(), None, Vec::new());
    assert!(get_prompt(&nothing).is_empty());
    let battery_only = snapshot(&["main.rs"], python_run(), low_battery(), Vec::new());
    assert_eq!(names_of(&battery_only), vec!["battery"]);
    let python_only = snapshot(&["main.py"], python_run(), None, Vec::new());
    assert_eq!(names_of(&python_only), vec!["python"]);
}

#[test]
fn settings_override_the_order() {
    let settings = order(vec![text("battery"), text("python")]);
    let context = snapshot(&["main.py"], python_run(), low_battery(), settings);
    assert_eq!(prompt_order(&context), vec!["battery", "python"]);
    assert_eq!(names_of(&context), vec!["battery", "python"]);

    let settings = order(vec![text("battery")]);
    let context = snapshot(&["main.py"], python_run(), low_battery(), settings);
    assert_eq!(names_of(&context), vec!["battery"]);

    let settings = order(Vec::new());
    let context = snapshot(&["main.py"], python_run(), low_battery(), settings);
    assert!(get_prompt(&context).is_empty());
}

#[test]
fn unknown_names_show_nothing() {
    let settings = order(vec![text("ruby"), text("python"), text("Python"), text("python")]);
    let context = snapshot(&["main.py"], python_run(), low_battery(), settings);
    assert_eq!(names_of(&context), vec!["python", "python"]);
}

#[test]
fn order_of_the_wrong_shape_falls_back_to_the_default() {
    let settings = order(vec![text("battery"), ConfigValue::Integer(1)]);
    let context = snapshot(&["main.py"], python_run(), low_battery(), settings);
    assert_eq!(prompt_order(&context), vec!["python", "battery"]);
    let settings = vec![("prompt_order".to_string(), text("battery"))];
    let context = snapshot(&["main.py"], python_run(), low_battery(), settings);
    assert_eq!(prompt_order(&context), vec!["python", "battery"]);
}

#[test]
fn prompt_holds_the_segments_of_each_module() {
    let context = snapshot(&["tox.ini"], python_run(), low_battery(), Vec::new());
    let modules = get_prompt(&context);
    let shown: Vec<Vec<(String, String, String)>> = modules
        .iter()
        .map(|module| {
            (0..module.segments.len())
                .map(|i| {
                    (
                        module.segments[i].key.clone(),
                        module.segments[i].value.clone(),
                        module.style_of(i).descriptor.clone(),
                    )
                })
                .collect()
        })
        .collect();
    let triple = |key: &str, value: &str, style: &str| {
        (key.to_string(), value.to_string(), style.to_string())
    };
    assert_eq!(
        shown,
        vec![
            vec![triple("symbol", "🐍 ", "bold yellow"), triple("version", "v3.7.4", "bold yellow")],
            vec![
                triple("discharging_symbol", "⇣", "bold red"),
                triple("percentage", "5%", "bold red")
            ],
        ]
    );
}

#[test]
fn handle_finds_modules_by_name() {
    let context = snapshot(&["main.py"], python_run(), low_battery(), Vec::new());
    assert_eq!(handle("python", &context).map(|module| module.name), Some("python".to_string()));
    assert_eq!(handle("battery", &context).map(|module| module.name), Some("battery".to_string()));
    assert_eq!(handle("character", &context), None);
    assert_eq!(handle("", &context), None);
}

#[test]
fn required_commands_are_those_of_the_active_modules() {
    let active = snapshot(&["main.py"], Vec::new(), None, Vec::new());
    assert_eq!(required_commands(&active), vec!["python --version"]);
    let inactive = snapshot(&["main.rs"], Vec::new(), None, Vec::new());
    assert!(required_commands(&inactive).is_empty());
    let settings = vec![
        ("prompt_order".to_string(), ConfigValue::List(vec![text("battery")])),
    ];
    let unlisted = snapshot(&["main.py"], Vec::new(), None, settings);
    assert!(required_commands(&unlisted).is_empty());
    let settings = vec![(
        "python".to_string(),
        ConfigValue::Table(vec![("pyenv_version_name".to_string(), ConfigValue::Boolean(true))]),
    )];
    let pyenv = snapshot(&["main.py"], Vec::new(), None, settings);
    assert_eq!(required_commands(&pyenv), vec!["pyenv version-name"]);
}
