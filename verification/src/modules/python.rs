//! Python module: the version of the interpreter, and the virtual environment
//! that is active.

use crate::command::{execute, output_of};
use crate::config::RootModuleConfig;
use crate::configs::python::PythonConfig;
use crate::context::{Context, dir_matches, slice_views};
use crate::module::{Module, ModuleView, empty_module, module_view, with_segment};
use crate::segment::SegmentConfig;
use crate::text::{
    chars_of, skip_leading, text_view, trim, trim_bounds, trimmed, without_leading,
};
use vstd::prelude::*;
use vstd::string::*;

verus! {

/// The names of the files that mark a directory as a Python project.
pub open spec fn project_files() -> Seq<Seq<char>> {
    seq![
        "requirements.txt"@,
        ".python-version"@,
        "pyproject.toml"@,
        "Pipfile"@,
        "tox.ini"@,
    ]
}

/// The extensions of the files that mark a directory as a Python project.
pub open spec fn project_extensions() -> Seq<Seq<char>> {
    seq!["py"@]
}

/// The target directory is a Python project: it could be read and holds one
/// of the marking files, or a file with one of the marking extensions.
pub open spec fn is_python_project(context: Context) -> bool {
    dir_matches(
        match context.dir_contents {
            Some(contents) => Some(&contents),
            None => None,
        },
        project_files(),
        project_extensions(),
    )
}

/// The version as the module shows it: the interpreter's output without the
/// leading `Python ` and without white space at its ends, behind a `v`.
pub open spec fn formatted_version(python_stdout: Seq<char>) -> Seq<char> {
    seq!['v'] + trimmed(without_leading(python_stdout, "Python "@))
}

/// The text that shows a virtual environment of the given name.
pub open spec fn virtual_env_text(name: Seq<char>) -> Seq<char> {
    " ("@ + name + ")"@
}

/// The version name that pyenv reports.
pub fn get_pyenv_version(context: &Context) -> (version: Option<String>)
    ensures
        text_view(version) == output_of(context.executions@, "pyenv version-name"@),
{
    proof {
        reveal_strlit("pyenv version-name");
        assert("pyenv version-name"@[5] == ' ');
    }
    execute("pyenv version-name", &context.executions)
}

/// The version that the interpreter reports.
pub fn get_python_version(context: &Context) -> (version: Option<String>)
    ensures
        text_view(version) == output_of(context.executions@, "python --version"@),
{
    proof {
        reveal_strlit("python --version");
        assert("python --version"@[6] == ' ');
    }
    execute("python --version", &context.executions)
}

/// Formats the interpreter's output as the version to show.
pub fn format_python_version(python_stdout: &str) -> (version: String)
    ensures
        version@ == formatted_version(python_stdout@),
{
    let chars = chars_of(python_stdout);
    let pattern = chars_of("Python ");
    proof {
        reveal_strlit("Python ");
        reveal_strlit("v");
    }
    let from = skip_leading(&chars, &pattern);
    let (start, end) = trim_bounds(&chars, from);
    let mut version = "v".to_owned();
    version.append(python_stdout.substring_char(start, end));
    assert(version@ =~= formatted_version(python_stdout@));
    version
}

/// `part` stands in `whole`, in one piece.
pub open spec fn is_stretch_of(part: Seq<char>, whole: Seq<char>) -> bool {
    exists|from: int, to: int|
        0 <= from <= to <= whole.len() && part == #[trigger] whole.subrange(from, to)
}

/// The final component of a path, if it has one, by the rules for paths of
/// the platform that the library is built for.
pub uninterp spec fn file_name_of(path: Seq<char>) -> Option<Seq<char>>;

/// The final component of a path, as `std::path::Path::file_name` gives it.
/// It is settled by the path alone, and where the path has one, it is a piece
/// of the path's own text. Which piece, and whether there is one, follows
/// from the platform's rules for paths and is not claimed here.
#[verifier::external_body]
fn path_file_name(path: &str) -> (name: Option<String>)
    ensures
        text_view(name) == file_name_of(path@),
        name matches Some(name) ==> is_stretch_of(name@, path@),
{
    match std::path::Path::new(path).file_name() {
        Some(name) => Some(name.to_string_lossy().into_owned()),
        None => None,
    }
}

/// The name of the virtual environment that is active in a context: the
/// final component of the path in `VIRTUAL_ENV`. There is none where the
/// variable is not set.
pub open spec fn virtual_env_name(context: Context) -> Option<Seq<char>> {
    match context.env("VIRTUAL_ENV"@) {
        Some(path) => file_name_of(path),
        None => None,
    }
}

/// The name of the virtual environment that is active: the final component
/// of the path in `VIRTUAL_ENV`, a piece of that path. There is none where
/// the variable is not set.
pub fn get_python_virtual_env(context: &Context) -> (name: Option<String>)
    ensures
        text_view(name) == virtual_env_name(*context),
        name matches Some(name) ==> context.env("VIRTUAL_ENV"@) matches Some(path)
            && is_stretch_of(name@, path),
{
    match context.get_env("VIRTUAL_ENV") {
        Some(path) => path_file_name(path.as_str()),
        None => None,
    }
}

/// The Python module for a context in which the active virtual environment,
/// if any, has the given name.
///
/// The module shows nothing unless the directory is a Python project or a
/// virtual environment is active, and nothing where the version command has
/// no output. Else it has the configured style and symbol and the version:
/// with pyenv's version name, the configured prefix and the trimmed name;
/// otherwise the formatted version of the interpreter and, in a virtual
/// environment with a name, that name in brackets.
pub open spec fn python_module(context: Context, virtual_env: Option<Seq<char>>) -> Option<
    ModuleView,
> {
    let is_venv = context.env("VIRTUAL_ENV"@) is Some;
    if !is_python_project(context) && !is_venv {
        None
    } else {
        let config = PythonConfig::resolved(context.module_settings("python"@));
        let styled = ModuleView { style: config.style, ..empty_module("python"@) };
        let begun = with_segment(styled, "symbol"@, config.symbol.value, config.symbol.style);
        if config.pyenv_version_name {
            match output_of(context.executions@, "pyenv version-name"@) {
                Some(name) => Some(
                    with_segment(
                        with_segment(
                            begun,
                            "pyenv_prefix"@,
                            config.pyenv_prefix.value,
                            config.pyenv_prefix.style,
                        ),
                        "version"@,
                        trimmed(name),
                        None,
                    ),
                ),
                None => None,
            }
        } else {
            match output_of(context.executions@, "python --version"@) {
                Some(stdout) => {
                    let versioned = with_segment(
                        begun,
                        "version"@,
                        formatted_version(stdout),
                        None,
                    );
                    if is_venv && virtual_env is Some {
                        Some(
                            with_segment(
                                versioned,
                                "virtualenv"@,
                                virtual_env_text(virtual_env.unwrap()),
                                None,
                            ),
                        )
                    } else {
                        Some(versioned)
                    }
                },
                None => None,
            }
        }
    }
}

/// The command whose output the module needs in a context: none where the
/// module shows nothing anyway, else the one that the configuration selects.
pub open spec fn wanted_command(context: Context) -> Option<Seq<char>> {
    if !is_python_project(context) && context.env("VIRTUAL_ENV"@) is None {
        None
    } else if PythonConfig::resolved(context.module_settings("python"@)).pyenv_version_name {
        Some("pyenv version-name"@)
    } else {
        Some("python --version"@)
    }
}

/// The module reads of the runs on record only the output of the command
/// that it wants: where it wants none it shows nothing, and where that
/// command has no output it shows nothing either.
pub proof fn lemma_module_needs_output(context: Context, virtual_env: Option<Seq<char>>)
    ensures
        python_module(context, virtual_env) is Some <==> (wanted_command(context) matches Some(
            command,
        ) && output_of(context.executions@, command) is Some),
{
}

/// Whether the target directory is a Python project.
pub fn detect_project(context: &Context) -> (found: bool)
    ensures
        found == is_python_project(*context),
{
    let files = vec!["requirements.txt", ".python-version", "pyproject.toml", "Pipfile", "tox.ini"];
    let extensions = vec!["py"];
    assert(slice_views(files@) =~= project_files());
    assert(slice_views(extensions@) =~= project_extensions());
    context.begin_scan().set_files(files).set_extensions(extensions).is_match()
}

/// The command that has to be run for the module, if any.
pub fn version_command(context: &Context) -> (command: Option<&'static str>)
    ensures
        match command {
            Some(command) => wanted_command(*context) == Some(command@),
            None => wanted_command(*context) is None,
        },
        command matches Some(command) ==> command@.contains(' '),
{
    let is_py_project = detect_project(context);
    let is_venv = context.get_env("VIRTUAL_ENV").is_some();
    if !is_py_project && !is_venv {
        return None;
    }
    let config = PythonConfig::try_load(context.module_config("python"));
    proof {
        reveal_strlit("pyenv version-name");
        reveal_strlit("python --version");
        assert("pyenv version-name"@[5] == ' ');
        assert("python --version"@[6] == ' ');
    }
    if config.pyenv_version_name {
        Some("pyenv version-name")
    } else {
        Some("python --version")
    }
}

/// Creates the Python module for a context in which the active virtual
/// environment, if any, has the given name.
pub fn module_in_virtual_env(context: &Context, virtual_env: Option<String>) -> (module: Option<
    Module,
>)
    ensures
        module_view(module) == python_module(*context, text_view(virtual_env)),
{
    let is_py_project = detect_project(context);
    let is_venv = context.get_env("VIRTUAL_ENV").is_some();
    if !is_py_project && !is_venv {
        return None;
    }
    let mut module = context.new_module("python");
    let config = PythonConfig::try_load(context.module_config("python"));

    module.set_style(config.style);
    module.create_segment("symbol", &config.symbol);

    if config.pyenv_version_name {
        let python_version = get_pyenv_version(context)?;
        module.create_segment("pyenv_prefix", &config.pyenv_prefix);
        module.create_segment("version", &SegmentConfig::new(trim(python_version.as_str()).as_str()));
    } else {
        let python_version = get_python_version(context)?;
        let formatted_version = format_python_version(python_version.as_str());
        module.create_segment("version", &SegmentConfig::new(formatted_version.as_str()));

        if is_venv {
            if let Some(name) = virtual_env {
                let mut text = " (".to_owned();
                text.append(name.as_str());
                text.append(")");
                module.create_segment("virtualenv", &SegmentConfig::new(text.as_str()));
            }
        }
    }
    Some(module)
}

/// Creates the module with the current Python version: the module for the
/// context, with the virtual environment named by the final component of the
/// path in `VIRTUAL_ENV`.
pub fn module(context: &Context) -> (module: Option<Module>)
    ensures
        module_view(module) == python_module(*context, virtual_env_name(*context)),
{
    let virtual_env = get_python_virtual_env(context);
    module_in_virtual_env(context, virtual_env)
}

} // verus!
