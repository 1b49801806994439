use python3_dll_a::{msvc_target_of, DllToolCommand, GenerationError, ToolCommand, ToolOverrides};

fn no_overrides() -> ToolOverrides {
    ToolOverrides { zig_command: None, mingw_dlltool: None }
}

fn zig(line: &str) -> ToolOverrides {
    ToolOverrides { zig_command: Some(line.to_string()), mingw_dlltool: None }
}

fn strings(v: &[&str]) -> Vec<String> {
    v.iter().map(|s| s.to_string()).collect()
}

#[test]
fn resolve_gnu_x86_64_is_mingw() {
    let tool = DllToolCommand::find_for_target("x86_64", "gnu", &no_overrides(), None).unwrap();
    assert_eq!(tool.implib_file_ext(), ".dll.a");
    match tool {
        DllToolCommand::Mingw { command } => {
            assert_eq!(command.program, "x86_64-w64-mingw32-dlltool");
            assert!(command.args.is_empty());
        }
        other => panic!("unexpected flavor {:?}", other),
    }
}

#[test]
fn resolve_gnu_x86_is_mingw32() {
    match DllToolCommand::find_for_target("x86", "gnu", &no_overrides(), None).unwrap() {
        DllToolCommand::Mingw { command } => assert_eq!(command.program, "i686-w64-mingw32-dlltool"),
        other => panic!("unexpected flavor {:?}", other),
    }
}

#[test]
fn resolve_gnu_unknown_arch_fails() {
    assert_eq!(
        DllToolCommand::find_for_target("aarch64", "gnu", &no_overrides(), None).unwrap_err(),
        GenerationError::UnsupportedTargetArch { arch: "aarch64".to_string() }
    );
}

#[test]
fn resolve_gnu_uses_mingw_override() {
    let overrides = ToolOverrides { zig_command: None, mingw_dlltool: Some("my dlltool".to_string()) };
    match DllToolCommand::find_for_target("aarch64", "gnu", &overrides, None).unwrap() {
        DllToolCommand::Mingw { command } => assert_eq!(command.program, "my dlltool"),
        other => panic!("unexpected flavor {:?}", other),
    }
}

#[test]
fn resolve_zig_override_wins() {
    for env in ["gnu", "msvc", "unknown"] {
        let tool = DllToolCommand::find_for_target("x86_64", env, &zig("zig"), None).unwrap();
        assert_eq!(tool.implib_file_ext(), ".lib");
        match tool {
            DllToolCommand::Zig { command, machine } => {
                assert_eq!(command.program, "zig");
                assert!(command.args.is_empty());
                assert_eq!(machine, "i386:x86-64");
            }
            other => panic!("unexpected flavor {:?}", other),
        }
    }
}

#[test]
fn resolve_zig_command_with_arguments() {
    match DllToolCommand::find_for_target("aarch64", "msvc", &zig(" python3 -m  ziglang "), None).unwrap() {
        DllToolCommand::Zig { command, machine } => {
            assert_eq!(command.program, "python3");
            assert_eq!(command.args, strings(&["-m", "ziglang"]));
            assert_eq!(machine, "arm64");
        }
        other => panic!("unexpected flavor {:?}", other),
    }
}

#[test]
fn resolve_blank_zig_command_is_ignored() {
    let tool = DllToolCommand::find_for_target("x86_64", "gnu", &zig("  "), None).unwrap();
    assert!(matches!(tool, DllToolCommand::Mingw { .. }));
}

#[test]
fn resolve_msvc_x86_without_lib_exe_is_llvm() {
    match DllToolCommand::find_for_target("x86", "msvc", &no_overrides(), None).unwrap() {
        DllToolCommand::Llvm { command, machine } => {
            assert_eq!(command.program, "llvm-dlltool");
            assert_eq!(machine, "i386");
        }
        other => panic!("unexpected flavor {:?}", other),
    }
}

#[test]
fn resolve_msvc_unknown_arch_passes_through() {
    match DllToolCommand::find_for_target("riscv64", "msvc", &no_overrides(), None).unwrap() {
        DllToolCommand::Llvm { machine, .. } => assert_eq!(machine, "riscv64"),
        other => panic!("unexpected flavor {:?}", other),
    }
}

#[test]
fn resolve_msvc_with_lib_exe() {
    let found = ToolCommand {
        program: "C:\\VS\\lib.exe".to_string(),
        args: Vec::new(),
        envs: vec![("PATH".to_string(), "C:\\VS".to_string())],
    };
    let tool = DllToolCommand::find_for_target("x86_64", "msvc", &no_overrides(), Some(found)).unwrap();
    assert_eq!(tool.implib_file_ext(), ".lib");
    match tool {
        DllToolCommand::LibExe { command, machine } => {
            assert_eq!(command.program, "C:\\VS\\lib.exe");
            assert_eq!(command.envs.len(), 1);
            assert_eq!(machine, "X64");
        }
        other => panic!("unexpected flavor {:?}", other),
    }
}

#[test]
fn resolve_unknown_env_fails() {
    assert_eq!(
        DllToolCommand::find_for_target("x86_64", "musl", &no_overrides(), None).unwrap_err(),
        GenerationError::UnsupportedTargetEnv { env: "musl".to_string() }
    );
}

#[test]
fn lib_exe_target_only_for_msvc() {
    assert_eq!(
        DllToolCommand::lib_exe_target("aarch64", "msvc", &no_overrides()),
        Some("aarch64-pc-windows-msvc")
    );
    assert_eq!(DllToolCommand::lib_exe_target("x86", "gnu", &no_overrides()), None);
    assert_eq!(DllToolCommand::lib_exe_target("x86", "msvc", &zig("zig")), None);
    assert_eq!(DllToolCommand::lib_exe_target("riscv64", "msvc", &no_overrides()), None);
    assert_eq!(msvc_target_of("x86"), Some("i686-pc-windows-msvc"));
    assert_eq!(msvc_target_of("x86_64"), Some("x86_64-pc-windows-msvc"));
}

fn plain(program: &str) -> ToolCommand {
    ToolCommand { program: program.to_string(), args: Vec::new(), envs: Vec::new() }
}

#[test]
fn build_llvm_arm64() {
    let tool = DllToolCommand::Llvm { command: plain("llvm-dlltool"), machine: "arm64".to_string() };
    let command = tool.build("out/python3.def", "out/python3.lib");
    assert_eq!(command.program, "llvm-dlltool");
    assert_eq!(command.args, strings(&["-m", "arm64", "-d", "out/python3.def", "-l", "out/python3.lib"]));
}

#[test]
fn build_mingw() {
    let tool = DllToolCommand::Mingw { command: plain("x86_64-w64-mingw32-dlltool") };
    let command = tool.build("out/python3.def", "out/python3.dll.a");
    assert_eq!(
        command.args,
        strings(&["--input-def", "out/python3.def", "--output-lib", "out/python3.dll.a"])
    );
}

#[test]
fn build_lib_exe() {
    let tool = DllToolCommand::LibExe { command: plain("lib.exe"), machine: "ARM64".to_string() };
    let command = tool.build("out dir/python3.def", "out dir/python3.lib");
    assert_eq!(
        command.args,
        strings(&["/MACHINE:ARM64", "/DEF:out dir/python3.def", "/OUT:out dir/python3.lib"])
    );
}

#[test]
fn build_zig_keeps_leading_arguments() {
    let command = ToolCommand { program: "python3".to_string(), args: strings(&["-m", "ziglang"]), envs: Vec::new() };
    let tool = DllToolCommand::Zig { command, machine: "i386".to_string() };
    let built = tool.build("a.def", "a.lib");
    assert_eq!(built.program, "python3");
    assert_eq!(
        built.args,
        strings(&["-m", "ziglang", "dlltool", "-m", "i386", "-d", "a.def", "-l", "a.lib"])
    );
}
