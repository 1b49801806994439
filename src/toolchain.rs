use vstd::prelude::*;
use vstd::string::*;

use crate::error::{ErrorModel, GenerationError};
use crate::text::{ascii_tokens, split_ascii_whitespace, str_eq, views};

verus! {

/// A program invocation: the program, its arguments in order, and the
/// environment variables it runs with.
#[derive(Debug, Clone)]
pub struct ToolCommand {
    pub program: String,
    pub args: Vec<String>,
    pub envs: Vec<(String, String)>,
}

/// What a `ToolCommand` holds, as plain sequences.
pub struct CommandModel {
    pub program: Seq<char>,
    pub args: Seq<Seq<char>>,
    pub envs: Seq<(Seq<char>, Seq<char>)>,
}

/// The views of a sequence of environment variable assignments.
pub open spec fn env_views(v: Seq<(String, String)>) -> Seq<(Seq<char>, Seq<char>)> {
    v.map_values(|p: (String, String)| (p.0@, p.1@))
}

impl View for ToolCommand {
    type V = CommandModel;

    open spec fn view(&self) -> CommandModel {
        CommandModel {
            program: self.program@,
            args: views(self.args@),
            envs: env_views(self.envs@),
        }
    }
}

/// A command that runs `program` with no arguments and no added environment.
pub open spec fn plain_command(program: Seq<char>) -> CommandModel {
    CommandModel { program, args: Seq::empty(), envs: Seq::empty() }
}

/// Environment overrides that take part in choosing a tool.
#[derive(Debug, Clone)]
pub struct ToolOverrides {
    /// A command line that runs Zig (`ZIG_COMMAND`), such as `zig` or
    /// `python3 -m ziglang`.
    pub zig_command: Option<String>,
    /// The MinGW `dlltool` program to use (`PYO3_MINGW_DLLTOOL`).
    pub mingw_dlltool: Option<String>,
}

/// The view of an optional string.
pub open spec fn opt_view(o: Option<String>) -> Option<Seq<char>> {
    match o {
        Some(s) => Some(s@),
        None => None,
    }
}

/// The flavor of `dlltool` that builds the import library, with its command
/// and the machine name in its own vocabulary.
#[derive(Debug, Clone)]
pub enum DllToolCommand {
    /// MinGW `dlltool` program (with an architecture prefix)
    Mingw { command: ToolCommand },
    /// LLVM `llvm-dlltool` program
    Llvm { command: ToolCommand, machine: String },
    /// MSVC `lib.exe` program
    LibExe { command: ToolCommand, machine: String },
    /// `zig dlltool`
    Zig { command: ToolCommand, machine: String },
}

/// What a `DllToolCommand` holds, as plain sequences.
pub enum FlavorModel {
    Mingw { command: CommandModel },
    Llvm { command: CommandModel, machine: Seq<char> },
    LibExe { command: CommandModel, machine: Seq<char> },
    Zig { command: CommandModel, machine: Seq<char> },
}

impl View for DllToolCommand {
    type V = FlavorModel;

    open spec fn view(&self) -> FlavorModel {
        match self {
            DllToolCommand::Mingw { command } => FlavorModel::Mingw { command: command@ },
            DllToolCommand::Llvm { command, machine } => FlavorModel::Llvm {
                command: command@,
                machine: machine@,
            },
            DllToolCommand::LibExe { command, machine } => FlavorModel::LibExe {
                command: command@,
                machine: machine@,
            },
            DllToolCommand::Zig { command, machine } => FlavorModel::Zig {
                command: command@,
                machine: machine@,
            },
        }
    }
}

/// Machine names of the LLVM and Zig `dlltool`; other names pass through.
pub open spec fn llvm_machine(arch: Seq<char>) -> Seq<char> {
    if arch == "x86_64"@ {
        "i386:x86-64"@
    } else if arch == "x86"@ {
        "i386"@
    } else if arch == "aarch64"@ {
        "arm64"@
    } else {
        arch
    }
}

/// Machine names of `lib.exe`; other names pass through.
pub open spec fn msvc_machine(arch: Seq<char>) -> Seq<char> {
    if arch == "x86_64"@ {
        "X64"@
    } else if arch == "x86"@ {
        "X86"@
    } else if arch == "aarch64"@ {
        "ARM64"@
    } else {
        arch
    }
}

/// The canonical MinGW-w64 `dlltool` program of an architecture.
pub open spec fn mingw_program(arch: Seq<char>) -> Option<Seq<char>> {
    if arch == "x86_64"@ {
        Some("x86_64-w64-mingw32-dlltool"@)
    } else if arch == "x86"@ {
        Some("i686-w64-mingw32-dlltool"@)
    } else {
        None
    }
}

/// The Rust target whose `lib.exe` serves an architecture.
pub open spec fn msvc_target(arch: Seq<char>) -> Option<Seq<char>> {
    if arch == "x86_64"@ {
        Some("x86_64-pc-windows-msvc"@)
    } else if arch == "x86"@ {
        Some("i686-pc-windows-msvc"@)
    } else if arch == "aarch64"@ {
        Some("aarch64-pc-windows-msvc"@)
    } else {
        None
    }
}

/// The command that a Zig command line stands for: its first token is the
/// program, the others lead its arguments. A line with no token gives none.
pub open spec fn zig_from(line: Seq<char>) -> Option<CommandModel> {
    let t = ascii_tokens(line);
    if t.len() > 0 {
        Some(CommandModel { program: t[0], args: t.drop_first(), envs: Seq::empty() })
    } else {
        None
    }
}

/// The Zig command that the overrides ask for, if any.
pub open spec fn zig_override(zig: Option<Seq<char>>) -> Option<CommandModel> {
    match zig {
        Some(line) => zig_from(line),
        None => None,
    }
}

/// The MinGW `dlltool` program for an architecture: the override, else the
/// canonical one.
pub open spec fn mingw_choice(arch: Seq<char>, mingw: Option<Seq<char>>) -> Result<
    Seq<char>,
    ErrorModel,
> {
    match mingw {
        Some(p) => Ok(p),
        None => match mingw_program(arch) {
            Some(p) => Ok(p),
            None => Err(ErrorModel::UnsupportedTargetArch { arch }),
        },
    }
}

/// The tool chosen for a target. A Zig command comes first, whatever the
/// environment ABI; then MinGW `dlltool` for `gnu`; for `msvc`, `lib.exe`
/// where one was found, else `llvm-dlltool`.
pub open spec fn resolved(
    arch: Seq<char>,
    env: Seq<char>,
    zig: Option<Seq<char>>,
    mingw: Option<Seq<char>>,
    lib_exe: Option<CommandModel>,
) -> Result<FlavorModel, ErrorModel> {
    if zig_override(zig) is Some {
        Ok(FlavorModel::Zig { command: zig_override(zig)->0, machine: llvm_machine(arch) })
    } else if env == "gnu"@ {
        match mingw_choice(arch, mingw) {
            Ok(p) => Ok(FlavorModel::Mingw { command: plain_command(p) }),
            Err(e) => Err(e),
        }
    } else if env == "msvc"@ {
        match lib_exe {
            Some(c) => Ok(FlavorModel::LibExe { command: c, machine: msvc_machine(arch) }),
            None => {
                let command = plain_command("llvm-dlltool"@);
                Ok(FlavorModel::Llvm { command, machine: llvm_machine(arch) })
            },
        }
    } else {
        Err(ErrorModel::UnsupportedTargetEnv { env })
    }
}

/// The view of a tool choice.
pub open spec fn resolved_view(r: Result<DllToolCommand, GenerationError>) -> Result<
    FlavorModel,
    ErrorModel,
> {
    match r {
        Ok(t) => Ok(t@),
        Err(e) => Err(e@),
    }
}

/// The target for which `lib.exe` is to be looked for: only where the choice
/// reaches `lib.exe`, and for an architecture that MSVC serves.
pub open spec fn lib_exe_wanted(arch: Seq<char>, env: Seq<char>, zig: Option<Seq<char>>) -> Option<
    Seq<char>,
> {
    if zig_override(zig) is None && env == "msvc"@ {
        msvc_target(arch)
    } else {
        None
    }
}

/// The file extension of the import library that a flavor writes.
pub open spec fn implib_ext(t: FlavorModel) -> Seq<char> {
    match t {
        FlavorModel::Mingw { .. } => ".dll.a"@,
        _ => ".lib"@,
    }
}

/// The arguments that a flavor takes to turn `def` into the import library `lib`.
pub open spec fn flavor_args(t: FlavorModel, def: Seq<char>, lib: Seq<char>) -> Seq<Seq<char>> {
    match t {
        FlavorModel::Mingw { .. } => seq!["--input-def"@, def, "--output-lib"@, lib],
        FlavorModel::Llvm { machine, .. } => seq!["-m"@, machine, "-d"@, def, "-l"@, lib],
        FlavorModel::LibExe { machine, .. } => seq![
            "/MACHINE:"@ + machine,
            "/DEF:"@ + def,
            "/OUT:"@ + lib,
        ],
        FlavorModel::Zig { machine, .. } => {
            seq!["dlltool"@, "-m"@, machine, "-d"@, def, "-l"@, lib]
        },
    }
}

/// The command that a flavor runs, before its arguments.
pub open spec fn flavor_command(t: FlavorModel) -> CommandModel {
    match t {
        FlavorModel::Mingw { command } => command,
        FlavorModel::Llvm { command, .. } => command,
        FlavorModel::LibExe { command, .. } => command,
        FlavorModel::Zig { command, .. } => command,
    }
}

/// The full invocation of a flavor: its command with the arguments appended.
pub open spec fn invocation(t: FlavorModel, def: Seq<char>, lib: Seq<char>) -> CommandModel {
    let c = flavor_command(t);
    CommandModel { program: c.program, args: c.args + flavor_args(t, def, lib), envs: c.envs }
}

/// A command that runs `program` alone.
fn plain(program: &str) -> (r: ToolCommand)
    ensures
        r@ == plain_command(program@),
{
    let r = ToolCommand { program: String::from_str(program), args: Vec::new(), envs: Vec::new() };
    proof {
        assert(views(r.args@) =~= Seq::empty());
        assert(env_views(r.envs@) =~= Seq::empty());
    }
    r
}

/// The LLVM and Zig machine name of `arch`.
fn to_llvm_machine(arch: &str) -> (r: String)
    ensures
        r@ == llvm_machine(arch@),
{
    if str_eq(arch, "x86_64") {
        String::from_str("i386:x86-64")
    } else if str_eq(arch, "x86") {
        String::from_str("i386")
    } else if str_eq(arch, "aarch64") {
        String::from_str("arm64")
    } else {
        String::from_str(arch)
    }
}

/// The `lib.exe` machine name of `arch`.
fn to_msvc_machine(arch: &str) -> (r: String)
    ensures
        r@ == msvc_machine(arch@),
{
    if str_eq(arch, "x86_64") {
        String::from_str("X64")
    } else if str_eq(arch, "x86") {
        String::from_str("X86")
    } else if str_eq(arch, "aarch64") {
        String::from_str("ARM64")
    } else {
        String::from_str(arch)
    }
}

/// The Rust target name under which `lib.exe` for `arch` is looked up.
pub fn msvc_target_of(arch: &str) -> (r: Option<&'static str>)
    ensures
        match r {
            Some(t) => msvc_target(arch@) == Some(t@),
            None => msvc_target(arch@) is None,
        },
{
    if str_eq(arch, "x86_64") {
        Some("x86_64-pc-windows-msvc")
    } else if str_eq(arch, "x86") {
        Some("i686-pc-windows-msvc")
    } else if str_eq(arch, "aarch64") {
        Some("aarch64-pc-windows-msvc")
    } else {
        None
    }
}

/// Reads a Zig command line: its first token is the program, the rest lead
/// the arguments.
fn find_zig(zig_command: &Option<String>) -> (r: Option<ToolCommand>)
    ensures
        match r {
            Some(c) => zig_override(opt_view(*zig_command)) == Some(c@),
            None => zig_override(opt_view(*zig_command)) is None,
        },
{
    match zig_command {
        None => None,
        Some(line) => {
            let mut tokens = split_ascii_whitespace(line.as_str());
            if tokens.len() == 0 {
                None
            } else {
                let ghost t = views(tokens@);
                let program = tokens.remove(0);
                proof {
                    assert(t[0] == program@);
                    assert(views(tokens@) =~= t.drop_first());
                }
                let c = ToolCommand { program, args: tokens, envs: Vec::new() };
                proof {
                    assert(env_views(c.envs@) =~= Seq::empty());
                }
                Some(c)
            }
        }
    }
}

/// Chooses the MinGW-w64 `dlltool` program for `arch`: the override where
/// one is given, else the canonical program of the architecture.
fn get_mingw_dlltool(arch: &str, mingw_dlltool: &Option<String>) -> (r: Result<
    ToolCommand,
    GenerationError,
>)
    ensures
        match (r, mingw_choice(arch@, opt_view(*mingw_dlltool))) {
            (Ok(c), Ok(p)) => c@ == plain_command(p),
            (Err(e), Err(m)) => e@ == m,
            _ => false,
        },
{
    match mingw_dlltool {
        Some(program) => Ok(plain(program.as_str())),
        None => {
            if str_eq(arch, "x86_64") {
                Ok(plain("x86_64-w64-mingw32-dlltool"))
            } else if str_eq(arch, "x86") {
                Ok(plain("i686-w64-mingw32-dlltool"))
            } else {
                Err(GenerationError::UnsupportedTargetArch { arch: String::from_str(arch) })
            }
        }
    }
}

impl DllToolCommand {
    /// The target for which the caller is to look for `lib.exe` before
    /// calling `find_for_target`: `None` where the choice does not reach
    /// `lib.exe` or MSVC does not serve the architecture.
    pub fn lib_exe_target(arch: &str, env: &str, overrides: &ToolOverrides) -> (r: Option<
        &'static str,
    >)
        ensures
            match r {
                Some(t) => lib_exe_wanted(arch@, env@, opt_view(overrides.zig_command)) == Some(
                    t@,
                ),
                None => lib_exe_wanted(arch@, env@, opt_view(overrides.zig_command)) is None,
            },
    {
        if find_zig(&overrides.zig_command).is_some() {
            None
        } else if str_eq(env, "msvc") {
            msvc_target_of(arch)
        } else {
            None
        }
    }

    /// Chooses the `dlltool` flavor for the target `arch` / `env`.
    ///
    /// `lib_exe` is the `lib.exe` found for the target, if any.
    pub fn find_for_target(
        arch: &str,
        env: &str,
        overrides: &ToolOverrides,
        lib_exe: Option<ToolCommand>,
    ) -> (r: Result<DllToolCommand, GenerationError>)
        ensures
            resolved_view(r) == resolved(
                arch@,
                env@,
                opt_view(overrides.zig_command),
                opt_view(overrides.mingw_dlltool),
                match lib_exe {
                    Some(c) => Some(c@),
                    None => None,
                },
            ),
    {
        if let Some(command) = find_zig(&overrides.zig_command) {
            return Ok(DllToolCommand::Zig { command, machine: to_llvm_machine(arch) });
        }
        if str_eq(env, "gnu") {
            match get_mingw_dlltool(arch, &overrides.mingw_dlltool) {
                Ok(command) => Ok(DllToolCommand::Mingw { command }),
                Err(e) => Err(e),
            }
        } else if str_eq(env, "msvc") {
            match lib_exe {
                Some(command) => {
                    Ok(DllToolCommand::LibExe { command, machine: to_msvc_machine(arch) })
                },
                None => {
                    let command = plain("llvm-dlltool");
                    Ok(DllToolCommand::Llvm { command, machine: to_llvm_machine(arch) })
                },
            }
        } else {
            Err(GenerationError::UnsupportedTargetEnv { env: String::from_str(env) })
        }
    }

    /// The file extension of the import library that this flavor writes:
    /// `.dll.a` for MinGW, `.lib` for the others.
    pub fn implib_file_ext(&self) -> (r: &'static str)
        ensures
            r@ == implib_ext(self@),
    {
        match self {
            DllToolCommand::Mingw { .. } => ".dll.a",
            _ => ".lib",
        }
    }

    /// The complete invocation that turns the definition file `defpath`
    /// into the import library `libpath`.
    pub fn build(self, defpath: &str, libpath: &str) -> (r: ToolCommand)
        ensures
            r@ == invocation(self@, defpath@, libpath@),
    {
        let ghost t = self@;
        let ghost want = flavor_command(t).args + flavor_args(t, defpath@, libpath@);
        match self {
            DllToolCommand::Mingw { mut command } => {
                push_arg(&mut command, "--input-def");
                push_arg(&mut command, defpath);
                push_arg(&mut command, "--output-lib");
                push_arg(&mut command, libpath);
                assert(command@.args =~= want);
                command
            },
            DllToolCommand::Llvm { mut command, machine } => {
                push_arg(&mut command, "-m");
                push_arg(&mut command, machine.as_str());
                push_arg(&mut command, "-d");
                push_arg(&mut command, defpath);
                push_arg(&mut command, "-l");
                push_arg(&mut command, libpath);
                assert(command@.args =~= want);
                command
            },
            DllToolCommand::LibExe { mut command, machine } => {
                let mut a = String::from_str("/MACHINE:");
                a.append(machine.as_str());
                push_arg(&mut command, a.as_str());
                let mut d = String::from_str("/DEF:");
                d.append(defpath);
                push_arg(&mut command, d.as_str());
                let mut o = String::from_str("/OUT:");
                o.append(libpath);
                push_arg(&mut command, o.as_str());
                assert(command@.args =~= want);
                command
            },
            DllToolCommand::Zig { mut command, machine } => {
                push_arg(&mut command, "dlltool");
                push_arg(&mut command, "-m");
                push_arg(&mut command, machine.as_str());
                push_arg(&mut command, "-d");
                push_arg(&mut command, defpath);
                push_arg(&mut command, "-l");
                push_arg(&mut command, libpath);
                assert(command@.args =~= want);
                command
            },
        }
    }
}

/// Appends one argument to a command.
fn push_arg(command: &mut ToolCommand, arg: &str)
    ensures
        final(command)@ == (CommandModel { args: old(command)@.args.push(arg@), ..old(command)@ }),
{
    command.args.push(String::from_str(arg));
    proof {
        assert(views(final(command).args@) =~= views(old(command).args@).push(arg@));
    }
}

} // verus!
