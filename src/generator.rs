use vstd::prelude::*;
use vstd::string::*;

use crate::error::{ErrorModel, GenerationError};
use crate::text::{push_char, str_eq};
use crate::toolchain::{
    implib_ext, invocation, opt_view, resolved, CommandModel, DllToolCommand, FlavorModel,
    ToolCommand, ToolOverrides,
};

verus! {

/// The character of a decimal digit.
pub open spec fn digit(d: nat) -> char {
    (d + 48) as u8 as char
}

/// The decimal numeral of `n`.
pub open spec fn decimal(n: nat) -> Seq<char>
    decreases n,
{
    if n < 10 {
        seq![digit(n)]
    } else {
        decimal(n / 10).push(digit(n % 10))
    }
}

/// Appends the decimal numeral of `n`.
fn push_decimal(s: &mut String, n: u8)
    ensures
        final(s)@ == old(s)@ + decimal(n as nat),
{
    if n >= 100 {
        push_char(s, ((n / 100) + 48) as char);
    }
    if n >= 10 {
        push_char(s, ((n / 10 % 10) + 48) as char);
    }
    push_char(s, ((n % 10) + 48) as char);
    proof {
        let k = n as nat;
        if k >= 100 {
            assert(decimal(k / 10) == decimal(k / 100).push(digit((k / 10) % 10)));
            assert(decimal(k / 100) == seq![digit(k / 100)]);
        } else if k >= 10 {
            assert(decimal(k / 10) == seq![digit(k / 10)]);
        }
        assert(final(s)@ =~= old(s)@ + decimal(k));
    }
}

/// Python interpreter implementations
#[derive(Debug, Clone, Copy, PartialEq, Eq)]
pub enum PythonImplementation {
    /// CPython
    CPython,
    /// PyPy
    PyPy,
}

/// Windows import library generator for Python
///
/// Chooses the definition file of `python3.dll`, `pythonXY.dll` or an
/// ABI-tagged `pythonXY<abi>.dll` (such as `python313t.dll`) and the tool
/// and command that turn it into an import library for a compile target.
#[derive(Debug, Clone)]
pub struct ImportLibraryGenerator {
    /// The compile target architecture name (as in `CARGO_CFG_TARGET_ARCH`)
    arch: String,
    /// The compile target environment ABI name (as in `CARGO_CFG_TARGET_ENV`)
    env: String,
    /// Major and minor Python version (for `pythonXY.dll` only)
    version: Option<(u8, u8)>,
    /// Python interpreter implementation
    implementation: PythonImplementation,
    /// Optional Python ABI flags, such as `"t"` for free-threaded CPython
    abiflags: Option<String>,
}

/// What an `ImportLibraryGenerator` is set to.
pub struct GeneratorModel {
    pub arch: Seq<char>,
    pub env: Seq<char>,
    pub version: Option<(u8, u8)>,
    pub implementation: PythonImplementation,
    pub abiflags: Option<Seq<char>>,
}

impl View for ImportLibraryGenerator {
    type V = GeneratorModel;

    closed spec fn view(&self) -> GeneratorModel {
        GeneratorModel {
            arch: self.arch@,
            env: self.env@,
            version: self.version,
            implementation: self.implementation,
            abiflags: opt_view(self.abiflags),
        }
    }
}

/// The definition file of a build that exists only without ABI flags.
pub open spec fn untagged_def(abiflags: Option<Seq<char>>, plain: Seq<char>) -> Result<
    Seq<char>,
    ErrorModel,
> {
    match abiflags {
        None => Ok(plain),
        Some(_) => Err(ErrorModel::UnsupportedAbiFlags),
    }
}

/// The definition file of a CPython build that also exists free-threaded,
/// with the ABI flags `t` (3.13 and later).
pub open spec fn tagged_def(
    abiflags: Option<Seq<char>>,
    plain: Seq<char>,
    tagged: Seq<char>,
) -> Result<Seq<char>, ErrorModel> {
    match abiflags {
        None => Ok(plain),
        Some(f) => if f == "t"@ {
            Ok(tagged)
        } else {
            Err(ErrorModel::UnsupportedAbiFlags)
        },
    }
}

/// The name of the definition file for a Python build.
pub open spec fn def_file_for(
    implementation: PythonImplementation,
    version: Option<(u8, u8)>,
    abiflags: Option<Seq<char>>,
) -> Result<Seq<char>, ErrorModel> {
    match implementation {
        PythonImplementation::CPython => match version {
            None => Ok("python3.def"@),
            Some((3, 7)) => untagged_def(abiflags, "python37.def"@),
            Some((3, 8)) => untagged_def(abiflags, "python38.def"@),
            Some((3, 9)) => untagged_def(abiflags, "python39.def"@),
            Some((3, 10)) => untagged_def(abiflags, "python310.def"@),
            Some((3, 11)) => untagged_def(abiflags, "python311.def"@),
            Some((3, 12)) => untagged_def(abiflags, "python312.def"@),
            Some((3, 13)) => tagged_def(abiflags, "python313.def"@, "python313t.def"@),
            Some((3, 14)) => tagged_def(abiflags, "python314.def"@, "python314t.def"@),
            _ => Err(ErrorModel::UnsupportedVersion),
        },
        PythonImplementation::PyPy => match version {
            Some((3, 7)) => untagged_def(abiflags, "libpypy3-c.def"@),
            Some((3, 8)) => untagged_def(abiflags, "libpypy3-c.def"@),
            Some((3, 9)) => untagged_def(abiflags, "libpypy3.9-c.def"@),
            Some((3, 10)) => untagged_def(abiflags, "libpypy3.10-c.def"@),
            Some((3, 11)) => untagged_def(abiflags, "libpypy3.11-c.def"@),
            _ => Err(ErrorModel::UnsupportedVersion),
        },
    }
}

/// `name` where no ABI flags are asked for; an error otherwise.
fn untagged(abiflags: &Option<String>, name: &'static str) -> (r: Result<&'static str, GenerationError>)
    ensures
        match (r, untagged_def(opt_view(*abiflags), name@)) {
            (Ok(f), Ok(g)) => f@ == g,
            (Err(e), Err(m)) => e@ == m,
            _ => false,
        },
{
    match abiflags {
        None => Ok(name),
        Some(_) => Err(GenerationError::UnsupportedAbiFlags),
    }
}

/// The file name of the import library: `python3<ext>`, or
/// `python<major><minor><abiflags><ext>` for a versioned build.
pub open spec fn implib_name(
    version: Option<(u8, u8)>,
    abiflags: Option<Seq<char>>,
    ext: Seq<char>,
) -> Seq<char> {
    let tag = match abiflags {
        Some(f) => f,
        None => Seq::empty(),
    };
    match version {
        Some((major, minor)) => "python"@ + decimal(major as nat) + decimal(minor as nat) + tag + ext,
        None => "python3"@ + ext,
    }
}

/// `name` under the directory `dir`, with a `/` between them where `dir`
/// is not empty and does not end in one.
pub open spec fn joined(dir: Seq<char>, name: Seq<char>) -> Seq<char> {
    if dir.len() == 0 {
        name
    } else if dir.last() == '/' {
        dir + name
    } else {
        dir + "/"@ + name
    }
}

/// The last character of `s`.
fn last_char(s: &str) -> (r: Option<char>)
    ensures
        r == (if s@.len() == 0 { None } else { Some(s@.last()) }),
{
    let mut last: Option<char> = None;
    for c in it: s.chars()
        invariant
            it.seq() == s@,
            last == (if it.index() == 0 { None } else { Some(s@[it.index() - 1]) }),
    {
        last = Some(c);
    }
    last
}

/// Builds the path of `name` under `dir`.
fn join(dir: &str, name: &str) -> (r: String)
    ensures
        r@ == joined(dir@, name@),
{
    match last_char(dir) {
        None => String::from_str(name),
        Some(c) => {
            let mut r = String::from_str(dir);
            if c != '/' {
                r.append("/");
            }
            r.append(name);
            r
        },
    }
}

/// What generating an import library takes: the definition file to write,
/// and the command that turns it into the import library.
#[derive(Debug, Clone)]
pub struct GenerationPlan {
    /// The name of the definition file
    pub def_file: String,
    /// Where the definition file goes
    pub def_path: String,
    /// Where the import library goes
    pub implib_path: String,
    /// The command that writes the import library
    pub command: ToolCommand,
}

/// What a `GenerationPlan` holds, as plain sequences.
pub struct PlanModel {
    pub def_file: Seq<char>,
    pub def_path: Seq<char>,
    pub implib_path: Seq<char>,
    pub command: CommandModel,
}

impl View for GenerationPlan {
    type V = PlanModel;

    open spec fn view(&self) -> PlanModel {
        PlanModel {
            def_file: self.def_file@,
            def_path: self.def_path@,
            implib_path: self.implib_path@,
            command: self.command@,
        }
    }
}

/// The plan for a generator set to `g`, writing under `out_dir`.
pub open spec fn planned(
    g: GeneratorModel,
    out_dir: Seq<char>,
    zig: Option<Seq<char>>,
    mingw: Option<Seq<char>>,
    lib_exe: Option<CommandModel>,
) -> Result<PlanModel, ErrorModel> {
    match def_file_for(g.implementation, g.version, g.abiflags) {
        Err(e) => Err(e),
        Ok(def) => match resolved(g.arch, g.env, zig, mingw, lib_exe) {
            Err(e) => Err(e),
            Ok(t) => {
                let def_path = joined(out_dir, def);
                let implib_file = implib_name(g.version, g.abiflags, implib_ext(t));
                let implib_path = joined(out_dir, implib_file);
                Ok(
                    PlanModel {
                        def_file: def,
                        def_path,
                        implib_path,
                        command: invocation(t, def_path, implib_path),
                    },
                )
            },
        },
    }
}

impl ImportLibraryGenerator {
    /// Creates a new import library generator for the specified compile target.
    ///
    /// The compile target architecture name (as in `CARGO_CFG_TARGET_ARCH`)
    /// is passed in `arch`; the environment ABI name (as in
    /// `CARGO_CFG_TARGET_ENV`) in `env`. The generator starts out set to
    /// the version-agnostic CPython `python3.dll`.
    #[must_use]
    pub fn new(arch: &str, env: &str) -> (r: Self)
        ensures
            r@ == (GeneratorModel {
                arch: arch@,
                env: env@,
                version: None,
                implementation: PythonImplementation::CPython,
                abiflags: None,
            }),
    {
        ImportLibraryGenerator {
            arch: String::from_str(arch),
            env: String::from_str(env),
            version: None,
            implementation: PythonImplementation::CPython,
            abiflags: None,
        }
    }

    /// Sets major and minor version for the `pythonXY.dll` import library.
    pub fn version(&mut self, version: Option<(u8, u8)>) -> (r: &mut Self)
        ensures
            r@ == (GeneratorModel { version, ..old(self)@ }),
            final(self)@ == final(r)@,
    {
        self.version = version;
        self
    }

    /// Sets the ABI flags for the `pythonXY<abi>.dll` import library, such
    /// as `"t"` for the free-threaded CPython 3.13 build (`python313t.dll`).
    pub fn abiflags(&mut self, flags: Option<&str>) -> (r: &mut Self)
        ensures
            r@ == (GeneratorModel {
                abiflags: match flags {
                    Some(f) => Some(f@),
                    None => None,
                },
                ..old(self)@
            }),
            final(self)@ == final(r)@,
    {
        self.abiflags = match flags {
            Some(f) => Some(String::from_str(f)),
            None => None,
        };
        self
    }

    /// Sets the Python interpreter implementation.
    pub fn implementation(&mut self, implementation: PythonImplementation) -> (r: &mut Self)
        ensures
            r@ == (GeneratorModel { implementation, ..old(self)@ }),
            final(self)@ == final(r)@,
    {
        self.implementation = implementation;
        self
    }

    /// The compile target architecture name.
    pub fn arch(&self) -> (r: &str)
        ensures
            r@ == self@.arch,
    {
        self.arch.as_str()
    }

    /// The compile target environment ABI name.
    pub fn env(&self) -> (r: &str)
        ensures
            r@ == self@.env,
    {
        self.env.as_str()
    }

    /// The name of the definition file that the requested Python build needs.
    pub fn def_file(&self) -> (r: Result<&'static str, GenerationError>)
        ensures
            match (r, def_file_for(self@.implementation, self@.version, self@.abiflags)) {
                (Ok(f), Ok(g)) => f@ == g,
                (Err(e), Err(m)) => e@ == m,
                _ => false,
            },
    {
        let tagged = match &self.abiflags {
            None => Ok(false),
            Some(f) => if str_eq(f.as_str(), "t") {
                Ok(true)
            } else {
                Err(GenerationError::UnsupportedAbiFlags)
            },
        };
        match self.implementation {
            PythonImplementation::CPython => match self.version {
                None => Ok("python3.def"),
                Some((3, 7)) => untagged(&self.abiflags, "python37.def"),
                Some((3, 8)) => untagged(&self.abiflags, "python38.def"),
                Some((3, 9)) => untagged(&self.abiflags, "python39.def"),
                Some((3, 10)) => untagged(&self.abiflags, "python310.def"),
                Some((3, 11)) => untagged(&self.abiflags, "python311.def"),
                Some((3, 12)) => untagged(&self.abiflags, "python312.def"),
                Some((3, 13)) => match tagged {
                    Ok(true) => Ok("python313t.def"),
                    Ok(false) => Ok("python313.def"),
                    Err(e) => Err(e),
                },
                Some((3, 14)) => match tagged {
                    Ok(true) => Ok("python314t.def"),
                    Ok(false) => Ok("python314.def"),
                    Err(e) => Err(e),
                },
                _ => Err(GenerationError::UnsupportedVersion),
            },
            PythonImplementation::PyPy => match self.version {
                Some((3, 7)) | Some((3, 8)) => untagged(&self.abiflags, "libpypy3-c.def"),
                Some((3, 9)) => untagged(&self.abiflags, "libpypy3.9-c.def"),
                Some((3, 10)) => untagged(&self.abiflags, "libpypy3.10-c.def"),
                Some((3, 11)) => untagged(&self.abiflags, "libpypy3.11-c.def"),
                _ => Err(GenerationError::UnsupportedVersion),
            },
        }
    }

    /// Builds the import library path under `out_dir`, with the file
    /// extension `libext`.
    pub fn implib_file_path(&self, out_dir: &str, libext: &str) -> (r: String)
        ensures
            r@ == joined(out_dir@, implib_name(self@.version, self@.abiflags, libext@)),
    {
        let mut name = String::from_str("python");
        match self.version {
            Some((major, minor)) => {
                push_decimal(&mut name, major);
                push_decimal(&mut name, minor);
                if let Some(f) = &self.abiflags {
                    name.append(f.as_str());
                }
            },
            None => {
                name.append("3");
                proof {
                    reveal_strlit("python");
                    reveal_strlit("3");
                    reveal_strlit("python3");
                    assert(name@ =~= "python3"@);
                }
            },
        }
        name.append(libext);
        proof {
            assert(name@ =~= implib_name(self@.version, self@.abiflags, libext@));
        }
        join(out_dir, name.as_str())
    }

    /// Plans the generation of the import library in `out_dir`: the
    /// definition file and the tool invocation, for the tool overrides and
    /// the `lib.exe` found for the target, if any.
    pub fn plan(
        &self,
        out_dir: &str,
        overrides: &ToolOverrides,
        lib_exe: Option<ToolCommand>,
    ) -> (r: Result<GenerationPlan, GenerationError>)
        ensures
            match (
                r,
                planned(
                    self@,
                    out_dir@,
                    opt_view(overrides.zig_command),
                    opt_view(overrides.mingw_dlltool),
                    match lib_exe {
                        Some(c) => Some(c@),
                        None => None,
                    },
                ),
            ) {
                (Ok(p), Ok(m)) => p@ == m,
                (Err(e), Err(m)) => e@ == m,
                _ => false,
            },
    {
        let def_file = match self.def_file() {
            Ok(f) => f,
            Err(e) => return Err(e),
        };
        let def_path = join(out_dir, def_file);
        let found = DllToolCommand::find_for_target(self.arch(), self.env(), overrides, lib_exe);
        let tool = match found {
            Ok(t) => t,
            Err(e) => return Err(e),
        };
        let implib_path = self.implib_file_path(out_dir, tool.implib_file_ext());
        let command = tool.build(def_path.as_str(), implib_path.as_str());
        Ok(GenerationPlan { def_file: String::from_str(def_file), def_path, implib_path, command })
    }
}

} // verus!
