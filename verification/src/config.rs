//! How the program was asked to run.

use vstd::prelude::*;
use vstd::std_specs::convert::FromSpecImpl;

verus! {

/// The two ways to run a program.
#[derive(Debug, Clone, Copy, PartialEq, Eq, Structural)]
pub enum ApplicationMode {
    /// Run the source at once.
    Interpreter,
    /// Compile the source.
    Compiler,
}

/// The settings of the chosen way to run.
#[derive(Debug, Clone)]
pub enum InnerConfig {
    /// The settings of the interpreter.
    Interpreter(InterpreterModeConfig),
    /// The settings of the compiler.
    Compiler(CompilerModeConfig),
}

/// The settings of the interpreter.
#[derive(Debug, Clone, Copy, PartialEq, Eq, Structural)]
pub struct InterpreterModeConfig {
    /// Whether the source is compiled just in time.
    pub jit_enabled: bool,
}

impl Default for InterpreterModeConfig {
    /// Compiling just in time is on.
    fn default() -> (config: InterpreterModeConfig)
        ensures
            config.jit_enabled,
    {
        InterpreterModeConfig { jit_enabled: true }
    }
}

/// The target of the compiler.
#[derive(Debug, Clone, Copy, PartialEq, Eq, Structural)]
pub enum CompilerBackend {
    /// Machine code, by way of LLVM.
    LLVM,
    /// C.
    C,
    /// JavaScript.
    JavaScript,
}

/// A text in lower case, as `str::to_lowercase` gives it.
pub uninterp spec fn lowercase_of(text: Seq<char>) -> Seq<char>;

/// Calls `str::to_lowercase`. The result is only named.
#[verifier::external_body]
fn to_lowercase(text: &str) -> (lower: String)
    ensures
        lower@ == lowercase_of(text@),
{
    text.to_lowercase()
}

impl CompilerBackend {
    /// The names of the backends, as they are written on the command
    /// line.
    pub fn get_allowed_variants() -> (names: [&'static str; 3])
        ensures
            names[0]@ == "LLVM"@,
            names[1]@ == "C"@,
            names[2]@ == "JavaScript"@,
    {
        ["LLVM", "C", "JavaScript"]
    }

    /// The backend that a name in lower case stands for; LLVM where the
    /// name stands for none.
    pub open spec fn of_lowercase(name: Seq<char>) -> CompilerBackend {
        if name == "llvm"@ {
            CompilerBackend::LLVM
        } else if name == "c"@ {
            CompilerBackend::C
        } else if name == "javascript"@ {
            CompilerBackend::JavaScript
        } else {
            CompilerBackend::LLVM
        }
    }

    /// The backend that a name in lower case stands for.
    pub fn from_lowercase(name: &str) -> (backend: CompilerBackend)
        ensures
            backend == CompilerBackend::of_lowercase(name@),
    {
        if crate::text::text_equals(name, "llvm") {
            CompilerBackend::LLVM
        } else if crate::text::text_equals(name, "c") {
            CompilerBackend::C
        } else if crate::text::text_equals(name, "javascript") {
            CompilerBackend::JavaScript
        } else {
            CompilerBackend::LLVM
        }
    }
}

impl From<String> for CompilerBackend {
    /// The backend that a name stands for, whatever its case; LLVM where
    /// the name stands for none.
    fn from(value: String) -> (backend: CompilerBackend) {
        let lower = to_lowercase(value.as_str());
        CompilerBackend::from_lowercase(lower.as_str())
    }
}

impl FromSpecImpl<String> for CompilerBackend {
    open spec fn obeys_from_spec() -> bool {
        true
    }

    open spec fn from_spec(value: String) -> CompilerBackend {
        CompilerBackend::of_lowercase(lowercase_of(value@))
    }
}

/// Whether the output is coloured.
#[derive(Debug, Clone, Copy, PartialEq, Eq, Structural)]
pub enum ColorChoice {
    /// Always.
    Always,
    /// Never.
    Never,
    /// Where the terminal shows colours.
    Auto,
}

impl ColorChoice {
    /// The choice that a word in lower case stands for: `always`,
    /// `never`, and `auto` for any other word.
    pub open spec fn of_lowercase(word: Seq<char>) -> ColorChoice {
        if word == "always"@ {
            ColorChoice::Always
        } else if word == "never"@ {
            ColorChoice::Never
        } else {
            ColorChoice::Auto
        }
    }

    /// The choice that a word in lower case stands for.
    pub fn from_lowercase(word: &str) -> (choice: ColorChoice)
        ensures
            choice == ColorChoice::of_lowercase(word@),
    {
        if crate::text::text_equals(word, "always") {
            ColorChoice::Always
        } else if crate::text::text_equals(word, "never") {
            ColorChoice::Never
        } else {
            ColorChoice::Auto
        }
    }

    /// The choice for the output streams: none where colours are
    /// disabled, else all where they are forced, else what was asked for,
    /// else what the terminal shows.
    pub fn for_streams(disabled: bool, forced: bool, asked: Option<ColorChoice>) -> (choice:
        ColorChoice)
        ensures
            choice == if disabled {
                ColorChoice::Never
            } else if forced {
                ColorChoice::Always
            } else {
                match asked {
                    Some(asked) => asked,
                    None => ColorChoice::Auto,
                }
            },
    {
        if disabled {
            ColorChoice::Never
        } else if forced {
            ColorChoice::Always
        } else {
            match asked {
                Some(asked) => asked,
                None => ColorChoice::Auto,
            }
        }
    }
}

/// The colour choice that a word stands for, whatever its case; `auto`
/// for any word but `always` and `never`.
pub fn color_choice_from_string(value: String) -> (choice: ColorChoice)
    ensures
        choice == ColorChoice::of_lowercase(lowercase_of(value@)),
{
    let lower = to_lowercase(value.as_str());
    ColorChoice::from_lowercase(lower.as_str())
}

/// Whether the variable `COLOR` asks for colours whatever the terminal
/// is: it is set to `always`.
pub fn is_color_output_force_enabled(color: &Option<String>) -> (result: bool)
    ensures
        result == (color matches Some(value) && value@ == "always"@),
{
    match color {
        Some(value) => crate::text::text_equals(value.as_str(), "always"),
        None => false,
    }
}

/// Whether the output is to be without colours, given whether
/// `NO_COLOR` is set, the values of `COLOR` and `TERM`, and whether the
/// three standard streams are terminals. `NO_COLOR` disables colours;
/// else `COLOR=always` keeps them; else they are disabled by
/// `COLOR=never`, by `TERM=dumb` and by a stream that is no terminal.
pub fn is_color_output_disabled(
    no_color: bool,
    color: &Option<String>,
    term: &Option<String>,
    terminals: bool,
) -> (result: bool)
    ensures
        result == (no_color || (!(color matches Some(value) && value@ == "always"@) && ((color matches Some(
            value,
        ) && value@ == "never"@) || (term matches Some(value) && value@ == "dumb"@)
            || !terminals))),
{
    if no_color {
        return true;
    }
    if is_color_output_force_enabled(color) {
        return false;
    }
    let never = match color {
        Some(value) => crate::text::text_equals(value.as_str(), "never"),
        None => false,
    };
    if never {
        return true;
    }
    let dumb = match term {
        Some(value) => crate::text::text_equals(value.as_str(), "dumb"),
        None => false,
    };
    dumb || !terminals
}

/// The settings of every subcommand.
#[derive(Debug, Clone, Copy, PartialEq, Eq, Structural)]
pub struct GlobalConfig {
    /// How much the program tells about its work.
    pub debug_level: u8,
    /// Whether the output is coloured.
    pub color_choice: ColorChoice,
}

impl Default for GlobalConfig {
    /// Nothing is told, and colours are shown where the terminal shows
    /// them.
    fn default() -> (config: GlobalConfig)
        ensures
            config == (GlobalConfig { debug_level: 0, color_choice: ColorChoice::Auto }),
    {
        GlobalConfig { debug_level: 0, color_choice: ColorChoice::Auto }
    }
}

/// All settings of a run.
#[derive(Debug, Clone)]
pub struct Config {
    /// The settings of every subcommand.
    pub global_config: GlobalConfig,
    /// The settings of the subcommand that runs.
    pub inner: Option<InnerConfig>,
}

impl Default for Config {
    /// The default settings, before any subcommand.
    fn default() -> (config: Config)
        ensures
            config.global_config == (GlobalConfig {
                debug_level: 0,
                color_choice: ColorChoice::Auto,
            }),
            config.inner is None,
    {
        Config { global_config: GlobalConfig::default(), inner: None }
    }
}

impl Config {
    /// The settings of a subcommand.
    pub fn new(global_config: GlobalConfig, inner: InnerConfig) -> (config: Config)
        ensures
            config.global_config == global_config,
            config.inner == Some(inner),
    {
        Config { global_config, inner: Some(inner) }
    }
}

/// The settings of the compiler.
#[derive(Debug, Clone)]
pub struct CompilerModeConfig {
    /// The file to write to, if one was named.
    pub output_file: Option<String>,
    /// The target to compile to.
    pub backend: CompilerBackend,
}

impl Default for CompilerModeConfig {
    /// No file is named, and the backend is LLVM.
    fn default() -> (config: CompilerModeConfig)
        ensures
            config.output_file is None,
            config.backend == CompilerBackend::LLVM,
    {
        CompilerModeConfig { output_file: None, backend: CompilerBackend::LLVM }
    }
}

} // verus!
