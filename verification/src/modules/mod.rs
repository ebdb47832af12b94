//! The modules of the prompt, and the registry that finds them by name.

pub mod battery;
pub mod python;

use crate::context::Context;
use crate::module::{Module, ModuleView, module_view};
use crate::text::same_text;
use vstd::prelude::*;
use vstd::string::*;

verus! {

/// What the module of the given name shows for a context. A name that no
/// module has shows nothing.
pub open spec fn handled(name: Seq<char>, context: Context) -> Option<ModuleView> {
    if name == "battery"@ {
        battery::battery_module(context)
    } else if name == "python"@ {
        python::python_module(context, python::virtual_env_name(context))
    } else {
        None
    }
}

/// Runs the module of the given name on the context.
pub fn handle(name: &str, context: &Context) -> (module: Option<Module>)
    ensures
        module_view(module) == handled(name@, *context),
{
    if same_text(name, "battery") {
        battery::module(context)
    } else if same_text(name, "python") {
        proof {
            reveal_strlit("battery");
            reveal_strlit("python");
            assert("battery"@.len() != "python"@.len());
        }
        python::module(context)
    } else {
        None
    }
}

} // verus!
