use vstd::prelude::*;
use crate::builder::{
    BuildEnv, Builder, CommandLine, CommandLineView, LinkDirective, LinkDirectiveView,
    link_directive_views, spec_cmake_build_type, spec_squeak_include_directory,
    spec_vm_sources_directory,
};
use crate::text::{path_join, spec_join};

verus! {

/// The macOS platform: the artifact is a static library at a fixed name
/// under the output directory, configuration switches off the optional
/// native sub-libraries and selects static-library output, and linking
/// names the core static library and two system frameworks.
#[derive(Clone)]
pub struct MacBuilder {
    pub env: BuildEnv,
}

impl MacBuilder {
    /// A builder over the environment captured at startup.
    pub fn new(env: BuildEnv) -> (r: Self)
        ensures
            r.env == env,
    {
        MacBuilder { env }
    }
}

impl Builder for MacBuilder {
    open spec fn env_spec(&self) -> BuildEnv {
        self.env
    }

    open spec fn vm_binary_spec(&self) -> Seq<char> {
        spec_join(self.env.output_directory@, "libPharoVMCore.a"@)
    }

    open spec fn platform_include_directory_spec(&self) -> Seq<char> {
        spec_join(spec_squeak_include_directory(self.env), "osx"@)
    }

    open spec fn generated_config_directory_spec(&self) -> Seq<char> {
        spec_join(
            spec_join(spec_join(self.env.output_directory@, "build"@), "include"@),
            "pharovm"@,
        )
    }

    open spec fn generate_sources_spec(&self) -> CommandLineView {
        CommandLineView {
            program: "cmake"@,
            args: seq![
                spec_cmake_build_type(self.env),
                "-DFEATURE_LIB_SDL2=OFF"@,
                "-DFEATURE_LIB_CAIRO=OFF"@,
                "-DFEATURE_LIB_FREETYPE2=OFF"@,
                "-DFEATURE_LIB_GIT2=OFF"@,
                "-DBUILD_BUNDLE=OFF"@,
                "-DCOMPILE_STATIC_LIBRARIES=ON"@,
                "-DCOMPILE_EXECUTABLE=OFF"@,
                "-DPHARO_DEPENDENCIES_PREFER_DOWNLOAD_BINARIES=OFF"@,
                "-S"@,
                spec_vm_sources_directory(self.env),
                "-B"@,
                self.env.output_directory@,
            ],
        }
    }

    open spec fn link_libraries_spec(&self) -> Seq<LinkDirectiveView> {
        seq![
            LinkDirectiveView::SearchPath(self.env.output_directory@),
            LinkDirectiveView::LinkStatic("PharoVMCore"@),
            LinkDirectiveView::LinkFramework("AppKit"@),
            LinkDirectiveView::LinkFramework("CoreGraphics"@),
        ]
    }

    fn env(&self) -> (r: &BuildEnv) {
        &self.env
    }

    fn vm_binary(&self) -> (r: String) {
        let out = self.output_directory();
        path_join(out.as_str(), "libPharoVMCore.a")
    }

    fn platform_include_directory(&self) -> (r: String) {
        let squeak = self.squeak_include_directory();
        path_join(squeak.as_str(), "osx")
    }

    fn generated_config_directory(&self) -> (r: String) {
        let out = self.output_directory();
        let build = path_join(out.as_str(), "build");
        let include_dir = path_join(build.as_str(), "include");
        path_join(include_dir.as_str(), "pharovm")
    }

    fn generate_sources(&self) -> (r: CommandLine) {
        let mut args: Vec<String> = Vec::new();
        args.push(self.cmake_build_type());
        args.push("-DFEATURE_LIB_SDL2=OFF".to_owned());
        args.push("-DFEATURE_LIB_CAIRO=OFF".to_owned());
        args.push("-DFEATURE_LIB_FREETYPE2=OFF".to_owned());
        args.push("-DFEATURE_LIB_GIT2=OFF".to_owned());
        args.push("-DBUILD_BUNDLE=OFF".to_owned());
        args.push("-DCOMPILE_STATIC_LIBRARIES=ON".to_owned());
        args.push("-DCOMPILE_EXECUTABLE=OFF".to_owned());
        args.push("-DPHARO_DEPENDENCIES_PREFER_DOWNLOAD_BINARIES=OFF".to_owned());
        args.push("-S".to_owned());
        args.push(self.vm_sources_directory());
        args.push("-B".to_owned());
        args.push(self.output_directory());
        let r = CommandLine { program: "cmake".to_owned(), args };
        proof {
            assert(r@ =~~= self.generate_sources_spec());
        }
        r
    }

    fn link_libraries(&self) -> (r: Vec<LinkDirective>) {
        let mut directives: Vec<LinkDirective> = Vec::new();
        directives.push(LinkDirective::SearchPath(self.output_directory()));
        directives.push(LinkDirective::LinkStatic("PharoVMCore".to_owned()));
        directives.push(LinkDirective::LinkFramework("AppKit".to_owned()));
        directives.push(LinkDirective::LinkFramework("CoreGraphics".to_owned()));
        proof {
            assert(link_directive_views(directives@) =~~= self.link_libraries_spec());
        }
        directives
    }
}

} // verus!
