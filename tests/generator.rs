use python3_dll_a::{
    DllToolCommand, GenerationError, ImportLibraryGenerator, PythonImplementation, ToolOverrides,
};

fn no_overrides() -> ToolOverrides {
    ToolOverrides { zig_command: None, mingw_dlltool: None }
}

#[test]
fn unsupported_version() {
    let mut generator = ImportLibraryGenerator::new("x86_64", "gnu");
    generator.version(Some((3, 99)));
    assert_eq!(generator.def_file(), Err(GenerationError::UnsupportedVersion));
    assert_eq!(
        generator.plan("out", &no_overrides(), None).unwrap_err(),
        GenerationError::UnsupportedVersion
    );
}

#[test]
fn unsupported_abiflags() {
    let mut generator = ImportLibraryGenerator::new("x86_64", "msvc");
    generator.version(Some((3, 13))).abiflags(Some("x"));
    assert_eq!(generator.def_file(), Err(GenerationError::UnsupportedAbiFlags));
    generator.abiflags(Some("t"));
    assert_eq!(generator.def_file(), Ok("python313t.def"));
    generator.abiflags(None);
    assert_eq!(generator.def_file(), Ok("python313.def"));
}

#[test]
fn def_files_of_cpython() {
    let mut generator = ImportLibraryGenerator::new("x86_64", "gnu");
    assert_eq!(generator.def_file(), Ok("python3.def"));
    let names = [
        "python37.def", "python38.def", "python39.def", "python310.def", "python311.def",
        "python312.def", "python313.def", "python314.def",
    ];
    for (minor, name) in (7..=14).zip(names) {
        generator.version(Some((3, minor)));
        assert_eq!(generator.def_file(), Ok(name));
    }
    generator.version(Some((3, 14))).abiflags(Some("t"));
    assert_eq!(generator.def_file(), Ok("python314t.def"));
    generator.version(Some((3, 6)));
    assert_eq!(generator.def_file(), Err(GenerationError::UnsupportedVersion));
    generator.version(Some((3, 12)));
    assert_eq!(generator.def_file(), Err(GenerationError::UnsupportedAbiFlags));
    generator.abiflags(None);
    assert_eq!(generator.def_file(), Ok("python312.def"));
}

#[test]
fn abiflags_on_untagged_versions() {
    for minor in 7..=12 {
        let mut generator = ImportLibraryGenerator::new("x86_64", "msvc");
        generator.version(Some((3, minor))).abiflags(Some("t"));
        assert_eq!(generator.def_file(), Err(GenerationError::UnsupportedAbiFlags));
        assert_eq!(
            generator.plan("out", &no_overrides(), None).unwrap_err(),
            GenerationError::UnsupportedAbiFlags
        );
    }
    let mut pypy = ImportLibraryGenerator::new("x86_64", "gnu");
    pypy.version(Some((3, 9))).implementation(PythonImplementation::PyPy).abiflags(Some("t"));
    assert_eq!(pypy.def_file(), Err(GenerationError::UnsupportedAbiFlags));
    pypy.abiflags(None);
    assert_eq!(pypy.def_file(), Ok("libpypy3.9-c.def"));
}

#[test]
fn def_files_of_pypy() {
    let mut generator = ImportLibraryGenerator::new("x86_64", "msvc");
    generator.implementation(PythonImplementation::PyPy);
    assert_eq!(generator.def_file(), Err(GenerationError::UnsupportedVersion));
    let names = ["libpypy3-c.def", "libpypy3-c.def", "libpypy3.9-c.def", "libpypy3.10-c.def", "libpypy3.11-c.def"];
    for (minor, name) in (7..=11).zip(names) {
        generator.version(Some((3, minor)));
        assert_eq!(generator.def_file(), Ok(name));
    }
    generator.version(Some((3, 12)));
    assert_eq!(generator.def_file(), Err(GenerationError::UnsupportedVersion));
}

#[test]
fn implib_file_names() {
    let mut generator = ImportLibraryGenerator::new("x86_64", "gnu");
    assert_eq!(generator.implib_file_path("out", ".dll.a"), "out/python3.dll.a");
    assert_eq!(generator.implib_file_path("out/", ".lib"), "out/python3.lib");
    assert_eq!(generator.implib_file_path("", ".lib"), "python3.lib");
    generator.version(Some((3, 9)));
    assert_eq!(generator.implib_file_path("out", ".lib"), "out/python39.lib");
    generator.version(Some((3, 13))).abiflags(Some("t"));
    assert_eq!(generator.implib_file_path("/tmp/x", ".lib"), "/tmp/x/python313t.lib");
    generator.version(Some((10, 255))).abiflags(None);
    assert_eq!(generator.implib_file_path("d", ".dll.a"), "d/python10255.dll.a");
    generator.version(None).abiflags(Some("t"));
    assert_eq!(generator.implib_file_path("d", ".lib"), "d/python3.lib");
}

#[test]
fn builder_setters() {
    let mut generator = ImportLibraryGenerator::new("aarch64", "msvc");
    assert_eq!(generator.arch(), "aarch64");
    assert_eq!(generator.env(), "msvc");
    generator.version(Some((3, 11))).implementation(PythonImplementation::PyPy);
    assert_eq!(generator.def_file(), Ok("libpypy3.11-c.def"));
}

#[test]
fn plan_aarch64_msvc_free_threaded() {
    let mut generator = ImportLibraryGenerator::new("aarch64", "msvc");
    generator.version(Some((3, 13))).abiflags(Some("t"));
    let plan = generator.plan("target/python3-dll", &no_overrides(), None).unwrap();
    assert_eq!(plan.def_file, "python313t.def");
    assert_eq!(plan.def_path, "target/python3-dll/python313t.def");
    assert_eq!(plan.implib_path, "target/python3-dll/python313t.lib");
    let stem = plan.implib_path.strip_suffix(".lib").unwrap();
    assert!(stem.ends_with("313t"));
    assert_eq!(plan.command.program, "llvm-dlltool");
    assert_eq!(
        plan.command.args,
        vec![
            "-m",
            "arm64",
            "-d",
            "target/python3-dll/python313t.def",
            "-l",
            "target/python3-dll/python313t.lib"
        ]
    );
}

#[test]
fn plan_gnu_stable_abi() {
    let generator = ImportLibraryGenerator::new("x86", "gnu");
    let plan = generator.plan("out", &no_overrides(), None).unwrap();
    assert_eq!(plan.def_path, "out/python3.def");
    assert_eq!(plan.implib_path, "out/python3.dll.a");
    assert_eq!(plan.command.program, "i686-w64-mingw32-dlltool");
    assert_eq!(plan.command.args, vec!["--input-def", "out/python3.def", "--output-lib", "out/python3.dll.a"]);
}

#[test]
fn plan_version_error_comes_before_target_error() {
    let mut generator = ImportLibraryGenerator::new("x86_64", "musl");
    assert_eq!(
        generator.plan("out", &no_overrides(), None).unwrap_err(),
        GenerationError::UnsupportedTargetEnv { env: "musl".to_string() }
    );
    generator.version(Some((2, 7)));
    assert_eq!(generator.plan("out", &no_overrides(), None).unwrap_err(), GenerationError::UnsupportedVersion);
}

#[test]
fn plan_lib_exe_found() {
    let generator = ImportLibraryGenerator::new("x86", "msvc");
    let overrides = no_overrides();
    let target = DllToolCommand::lib_exe_target(generator.arch(), generator.env(), &overrides);
    assert_eq!(target, Some("i686-pc-windows-msvc"));
    let found = python3_dll_a::ToolCommand { program: "lib.exe".to_string(), args: Vec::new(), envs: Vec::new() };
    let plan = generator.plan("out", &overrides, Some(found)).unwrap();
    assert_eq!(plan.command.program, "lib.exe");
    assert_eq!(plan.command.args, vec!["/MACHINE:X86", "/DEF:out/python3.def", "/OUT:out/python3.lib"]);
}
