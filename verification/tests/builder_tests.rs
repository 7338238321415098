use vm_build::builder::{BuildEnv, Builder, LinkDirective};
use vm_build::mac::MacBuilder;

fn env(profile: &str, embed: Option<&str>) -> BuildEnv {
    BuildEnv {
        profile: profile.to_string(),
        embed_debug_symbols: embed.map(|v| v.to_string()),
        output_directory: "/tmp/out".to_string(),
        working_directory: "/work".to_string(),
    }
}

#[test]
fn build_type_debug_profile() {
    let b = MacBuilder::new(env("debug", None));
    assert_eq!(b.cmake_build_type(), "-DCMAKE_BUILD_TYPE=RelWithDebInfo");
}

#[test]
fn build_type_release_without_toggle() {
    let b = MacBuilder::new(env("release", None));
    assert_eq!(b.cmake_build_type(), "-DCMAKE_BUILD_TYPE=Release");
}

#[test]
fn build_type_release_with_toggle() {
    let b = MacBuilder::new(env("release", Some("true")));
    assert_eq!(b.cmake_build_type(), "-DCMAKE_BUILD_TYPE=RelWithDebInfo");
}

#[test]
fn build_type_toggle_must_be_exactly_true() {
    let b = MacBuilder::new(env("release", Some("TRUE")));
    assert_eq!(b.cmake_build_type(), "-DCMAKE_BUILD_TYPE=Release");
    let b = MacBuilder::new(env("release", Some("1")));
    assert_eq!(b.cmake_build_type(), "-DCMAKE_BUILD_TYPE=Release");
    let b = MacBuilder::new(env("release", Some("")));
    assert_eq!(b.cmake_build_type(), "-DCMAKE_BUILD_TYPE=Release");
}

#[test]
fn build_type_debug_profile_wins_over_toggle() {
    let b = MacBuilder::new(env("debug", Some("true")));
    assert_eq!(b.cmake_build_type(), "-DCMAKE_BUILD_TYPE=RelWithDebInfo");
}

#[test]
fn profile_and_debug_flags() {
    let b = MacBuilder::new(env("debug", None));
    assert_eq!(b.profile(), "debug");
    assert!(b.is_debug());
    assert!(!b.should_embed_debug_symbols());
    let b = MacBuilder::new(env("release", Some("true")));
    assert!(!b.is_debug());
    assert!(b.should_embed_debug_symbols());
}

#[test]
fn artifact_and_directory_paths() {
    let b = MacBuilder::new(env("debug", None));
    assert_eq!(b.output_directory(), "/tmp/out");
    assert_eq!(b.vm_binary(), "/tmp/out/libPharoVMCore.a");
    assert_eq!(b.vm_sources_directory(), "/work/opensmalltalk-vm");
    assert_eq!(
        b.squeak_include_directory(),
        "/work/opensmalltalk-vm/extracted/vm/include"
    );
    assert_eq!(
        b.common_include_directory(),
        "/work/opensmalltalk-vm/extracted/vm/include/common"
    );
    assert_eq!(
        b.platform_include_directory(),
        "/work/opensmalltalk-vm/extracted/vm/include/osx"
    );
    assert_eq!(b.generated_config_directory(), "/tmp/out/build/include/pharovm");
}

#[test]
fn submodule_fetch_command() {
    let b = MacBuilder::new(env("debug", None));
    let cmd = b.init_submodules();
    assert_eq!(cmd.program, "git");
    assert_eq!(cmd.args, vec!["submodule", "update", "--init", "--recursive"]);
}

#[test]
fn compile_command_uses_profile_and_output() {
    let b = MacBuilder::new(env("release", None));
    let cmd = b.compile_sources();
    assert_eq!(cmd.program, "cmake");
    assert_eq!(cmd.args, vec!["--build", "/tmp/out", "--config", "release"]);
}

#[test]
fn configure_command_flags_and_directories() {
    let b = MacBuilder::new(env("release", None));
    let cmd = b.generate_sources();
    assert_eq!(cmd.program, "cmake");
    assert_eq!(
        cmd.args,
        vec![
            "-DCMAKE_BUILD_TYPE=Release",
            "-DFEATURE_LIB_SDL2=OFF",
            "-DFEATURE_LIB_CAIRO=OFF",
            "-DFEATURE_LIB_FREETYPE2=OFF",
            "-DFEATURE_LIB_GIT2=OFF",
            "-DBUILD_BUNDLE=OFF",
            "-DCOMPILE_STATIC_LIBRARIES=ON",
            "-DCOMPILE_EXECUTABLE=OFF",
            "-DPHARO_DEPENDENCIES_PREFER_DOWNLOAD_BINARIES=OFF",
            "-S",
            "/work/opensmalltalk-vm",
            "-B",
            "/tmp/out",
        ]
    );
}

#[test]
fn link_directives_name_library_and_frameworks() {
    let b = MacBuilder::new(env("debug", None));
    let dirs = b.link_libraries();
    assert_eq!(
        dirs,
        vec![
            LinkDirective::SearchPath("/tmp/out".to_string()),
            LinkDirective::LinkStatic("PharoVMCore".to_string()),
            LinkDirective::LinkFramework("AppKit".to_string()),
            LinkDirective::LinkFramework("CoreGraphics".to_string()),
        ]
    );
}

#[test]
fn bindings_plan_header_includes_and_output() {
    let b = MacBuilder::new(env("debug", None));
    let plan = b.generate_bindings();
    assert_eq!(plan.header, "/work/opensmalltalk-vm/include/pharovm/pharoClient.h");
    assert_eq!(
        plan.include_directories,
        vec![
            "/work/opensmalltalk-vm/include",
            "/work/opensmalltalk-vm/include/pharovm",
            "/tmp/out/build/include/pharovm",
            "/tmp/out/generated/64/vm/include",
            "/work/opensmalltalk-vm/extracted/vm/include/common",
            "/work/opensmalltalk-vm/extracted/vm/include/osx",
        ]
    );
    assert_eq!(plan.allowed_functions, vec!["vm_.*", "free"]);
    assert_eq!(plan.output_file, "/tmp/out/bindings.rs");
    assert!(plan.rerun_on_header_change);
}
