//! The prompt: the modules in their order, each run on the context.

use crate::config::ConfigValue;
use crate::context::{Context, text_views};
use crate::module::{Module, ModuleView};
use crate::modules::python::{version_command, wanted_command};
use crate::modules::{handle, handled};
use crate::text::same_text;
use vstd::prelude::*;
use vstd::string::*;

verus! {

/// The order of the modules where the settings give none.
pub open spec fn default_order() -> Seq<Seq<char>> {
    seq!["python"@, "battery"@]
}

/// The text that a node of the tree is, if it is one.
pub open spec fn text_of(node: ConfigValue) -> Option<Seq<char>> {
    match node {
        ConfigValue::Text(text) => Some(text@),
        _ => None,
    }
}

/// The order of the modules: the names in the list under `prompt_order`
/// where the settings hold such a list and all of it is text, else the
/// default order.
pub open spec fn configured_order(config: ConfigValue) -> Seq<Seq<char>> {
    match config.field("prompt_order"@) {
        Some(ConfigValue::List(items)) => if forall|i: int|
            0 <= i < items@.len() ==> (#[trigger] text_of(items@[i])) is Some {
            Seq::new(items@.len(), |i: int| text_of(items@[i]).unwrap())
        } else {
            default_order()
        },
        _ => default_order(),
    }
}

/// The names of the modules in the order in which they are shown.
pub fn prompt_order(context: &Context) -> (order: Vec<String>)
    ensures
        text_views(order@) == configured_order(context.config),
{
    let mut order: Vec<String> = Vec::new();
    match context.config.get("prompt_order") {
        Some(ConfigValue::List(items)) => {
            let mut i: usize = 0;
            while i < items.len()
                invariant
                    i <= items.len(),
                    order@.len() == i,
                    context.config.field("prompt_order"@) == Some(ConfigValue::List(*items)),
                    forall|j: int|
                        0 <= j < i ==> (#[trigger] text_of(items@[j])) == Some(order@[j]@),
                decreases items.len() - i,
            {
                match &items[i] {
                    ConfigValue::Text(name) => {
                        order.push(name.clone());
                    },
                    _ => {
                        assert(text_of(items@[i as int]) is None);
                        return default_names();
                    },
                }
                i += 1;
            }
            assert(text_views(order@) =~= configured_order(context.config));
            order
        },
        _ => default_names(),
    }
}

/// The names of the modules in the default order.
fn default_names() -> (order: Vec<String>)
    ensures
        text_views(order@) == default_order(),
{
    let mut order: Vec<String> = Vec::new();
    order.push("python".to_owned());
    order.push("battery".to_owned());
    assert(text_views(order@) =~= default_order());
    order
}

/// What the modules of the given names show for a context, those that show
/// nothing left out.
pub open spec fn rendered(order: Seq<Seq<char>>, context: Context) -> Seq<ModuleView>
    decreases order.len(),
{
    if order.len() == 0 {
        Seq::empty()
    } else {
        let before = rendered(order.drop_last(), context);
        match handled(order.last(), context) {
            Some(module) => before.push(module),
            None => before,
        }
    }
}

/// The modules of a list as plain values.
pub open spec fn module_views(modules: Seq<Module>) -> Seq<ModuleView> {
    modules.map_values(|module: Module| module@)
}

/// Modules that show nothing leave no gap: there are at most as many modules
/// in the prompt as there are names in the order.
pub proof fn lemma_rendered_bounded(order: Seq<Seq<char>>, context: Context)
    ensures
        rendered(order, context).len() <= order.len(),
    decreases order.len(),
{
    if order.len() > 0 {
        lemma_rendered_bounded(order.drop_last(), context);
    }
}

/// Runs the modules in their order on the context and gathers those that
/// show something, first shown first.
pub fn get_prompt(context: &Context) -> (modules: Vec<Module>)
    ensures
        module_views(modules@) == rendered(configured_order(context.config), *context),
{
    let order = prompt_order(context);
    let ghost names = configured_order(context.config);
    let mut modules: Vec<Module> = Vec::new();
    let mut i: usize = 0;
    assert(module_views(modules@) =~= rendered(names.take(0), *context));
    while i < order.len()
        invariant
            i <= order.len(),
            text_views(order@) == names,
            module_views(modules@) == rendered(names.take(i as int), *context),
        decreases order.len() - i,
    {
        let module = handle(order[i].as_str(), context);
        proof {
            assert(names.take(i + 1).drop_last() =~= names.take(i as int));
            assert(names.take(i + 1).last() == order@[i as int]@);
        }
        if let Some(module) = module {
            proof {
                assert(module_views(modules@.push(module)) =~= module_views(modules@).push(
                    module@,
                ));
            }
            modules.push(module);
        }
        i += 1;
    }
    assert(names.take(i as int) =~= names);
    modules
}

/// The commands whose output the modules of the given names need in a
/// context, in the order of the names.
pub open spec fn wanted_commands(order: Seq<Seq<char>>, context: Context) -> Seq<Seq<char>>
    decreases order.len(),
{
    if order.len() == 0 {
        Seq::empty()
    } else {
        let before = wanted_commands(order.drop_last(), context);
        if order.last() == "python"@ && wanted_command(context) is Some {
            before.push(wanted_command(context).unwrap())
        } else {
            before
        }
    }
}

/// The texts of a list of commands.
pub open spec fn command_views(commands: Seq<&'static str>) -> Seq<Seq<char>> {
    commands.map_values(|command: &'static str| command@)
}

/// The commands that have to be run before the prompt is made, so that the
/// modules find the output they need among the runs on record. Each of them
/// holds a space and can be split into its executable and its argument.
pub fn required_commands(context: &Context) -> (commands: Vec<&'static str>)
    ensures
        command_views(commands@) == wanted_commands(configured_order(context.config), *context),
        forall|i: int| 0 <= i < commands@.len() ==> (#[trigger] commands@[i])@.contains(' '),
{
    let order = prompt_order(context);
    let ghost names = configured_order(context.config);
    let mut commands: Vec<&'static str> = Vec::new();
    let mut i: usize = 0;
    assert(command_views(commands@) =~= wanted_commands(names.take(0), *context));
    while i < order.len()
        invariant
            i <= order.len(),
            text_views(order@) == names,
            command_views(commands@) == wanted_commands(names.take(i as int), *context),
            forall|j: int| 0 <= j < commands@.len() ==> (#[trigger] commands@[j])@.contains(' '),
        decreases order.len() - i,
    {
        proof {
            assert(names.take(i + 1).drop_last() =~= names.take(i as int));
            assert(names.take(i + 1).last() == order@[i as int]@);
        }
        if same_text(order[i].as_str(), "python") {
            if let Some(command) = version_command(context) {
                proof {
                    assert(command_views(commands@.push(command)) =~= command_views(
                        commands@,
                    ).push(command@));
                }
                commands.push(command);
            }
        }
        i += 1;
    }
    assert(names.take(i as int) =~= names);
    commands
}

} // verus!
