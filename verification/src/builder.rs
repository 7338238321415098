use vstd::prelude::*;
use crate::text::{path_join, spec_join, str_eq};

verus! {

/// The host-provided configuration a build run starts from. It is captured
/// once, before any step runs, and never changes during the run.
#[derive(Clone)]
pub struct BuildEnv {
    /// The build-profile name; required, so the runner aborts before
    /// constructing this value when it is absent.
    pub profile: String,
    /// The raw value of the optional debug-symbol toggle; `None` when the
    /// toggle is unset.
    pub embed_debug_symbols: Option<String>,
    /// The host build system's scratch directory for this invocation.
    pub output_directory: String,
    /// The directory the VM source tree is located from by fixed
    /// relative path.
    pub working_directory: String,
}

/// One external command: a program name and its arguments, in order.
pub struct CommandLine {
    pub program: String,
    pub args: Vec<String>,
}

/// The mathematical value of a command line: the program's characters and
/// the characters of each argument.
#[verifier::ext_equal]
pub struct CommandLineView {
    pub program: Seq<char>,
    pub args: Seq<Seq<char>>,
}

impl View for CommandLine {
    type V = CommandLineView;

    open spec fn view(&self) -> CommandLineView {
        CommandLineView { program: self.program@, args: self.args@.map_values(|s: String| s@) }
    }
}

/// One declarative link directive for the host build system.
#[derive(Debug, Clone, PartialEq, Eq)]
pub enum LinkDirective {
    /// A native library search path.
    SearchPath(String),
    /// A library to link statically, by name.
    LinkStatic(String),
    /// A system framework to link, by name.
    LinkFramework(String),
}

/// The mathematical value of a link directive.
#[verifier::ext_equal]
pub enum LinkDirectiveView {
    SearchPath(Seq<char>),
    LinkStatic(Seq<char>),
    LinkFramework(Seq<char>),
}

impl View for LinkDirective {
    type V = LinkDirectiveView;

    open spec fn view(&self) -> LinkDirectiveView {
        match self {
            LinkDirective::SearchPath(p) => LinkDirectiveView::SearchPath(p@),
            LinkDirective::LinkStatic(n) => LinkDirectiveView::LinkStatic(n@),
            LinkDirective::LinkFramework(n) => LinkDirectiveView::LinkFramework(n@),
        }
    }
}

/// The views of a sequence of strings.
pub open spec fn string_views(s: Seq<String>) -> Seq<Seq<char>> {
    s.map_values(|x: String| x@)
}

/// The views of a sequence of link directives.
pub open spec fn link_directive_views(s: Seq<LinkDirective>) -> Seq<LinkDirectiveView> {
    s.map_values(|d: LinkDirective| d@)
}

/// Everything the binding generator is to be invoked with: the root header,
/// the ordered include search paths, the allowed-function patterns, and
/// where the generated source goes.
pub struct BindingsPlan {
    /// The VM's public client header.
    pub header: String,
    /// The ordered include search paths handed to the header parser.
    pub include_directories: Vec<String>,
    /// The patterns naming which functions the bindings expose.
    pub allowed_functions: Vec<String>,
    /// The single generated source file, rewritten on every invocation.
    pub output_file: String,
    /// The generator must notify the host build system to re-run this step
    /// whenever a transitively included header changes.
    pub rerun_on_header_change: bool,
}

/// The profile selects a debug build.
pub open spec fn spec_is_debug(env: BuildEnv) -> bool {
    env.profile@ == "debug"@
}

/// The optional toggle is set to exactly `true`; absent or anything else
/// means no.
pub open spec fn spec_should_embed_debug_symbols(env: BuildEnv) -> bool {
    match env.embed_debug_symbols {
        Some(v) => v@ == "true"@,
        None => false,
    }
}

/// The decision table for the native build-type flag: a debug profile
/// builds with debug info; a release profile builds with debug info only
/// when the embed toggle asks for it, and optimized without it otherwise.
pub open spec fn spec_cmake_build_type(env: BuildEnv) -> Seq<char> {
    if spec_is_debug(env) {
        "-DCMAKE_BUILD_TYPE=RelWithDebInfo"@
    } else if spec_should_embed_debug_symbols(env) {
        "-DCMAKE_BUILD_TYPE=RelWithDebInfo"@
    } else {
        "-DCMAKE_BUILD_TYPE=Release"@
    }
}

/// The build-type flag follows the decision table: a debug profile builds
/// with debug info; a release-like profile builds with debug info exactly
/// when the embed toggle asks for it, and optimized otherwise.
pub proof fn lemma_build_type_table(env: BuildEnv)
    ensures
        spec_is_debug(env) ==> spec_cmake_build_type(env)
            == "-DCMAKE_BUILD_TYPE=RelWithDebInfo"@,
        !spec_is_debug(env) && spec_should_embed_debug_symbols(env) ==> spec_cmake_build_type(env)
            == "-DCMAKE_BUILD_TYPE=RelWithDebInfo"@,
        !spec_is_debug(env) && !spec_should_embed_debug_symbols(env) ==> spec_cmake_build_type(env)
            == "-DCMAKE_BUILD_TYPE=Release"@,
{
}

/// The build-type flag is a function of exactly the profile and the
/// debug-symbol toggle: environments that agree on those two agree on the
/// flag, whatever their directories.
pub proof fn lemma_build_type_depends_only_on_profile_and_toggle(a: BuildEnv, b: BuildEnv)
    requires
        spec_is_debug(a) == spec_is_debug(b),
        spec_should_embed_debug_symbols(a) == spec_should_embed_debug_symbols(b),
    ensures
        spec_cmake_build_type(a) == spec_cmake_build_type(b),
{
}

/// The VM source tree's fixed location under the working directory.
pub open spec fn spec_vm_sources_directory(env: BuildEnv) -> Seq<char> {
    spec_join(env.working_directory@, "opensmalltalk-vm"@)
}

/// The extracted-headers root under the VM source tree.
pub open spec fn spec_squeak_include_directory(env: BuildEnv) -> Seq<char> {
    spec_join(
        spec_join(spec_join(spec_vm_sources_directory(env), "extracted"@), "vm"@),
        "include"@,
    )
}

/// The cross-platform header directory under the extracted-headers root.
pub open spec fn spec_common_include_directory(env: BuildEnv) -> Seq<char> {
    spec_join(spec_squeak_include_directory(env), "common"@)
}

/// The VM's top-level include directory.
pub open spec fn spec_vm_include_directory(env: BuildEnv) -> Seq<char> {
    spec_join(spec_vm_sources_directory(env), "include"@)
}

/// The VM's public client header.
pub open spec fn spec_bindings_header(env: BuildEnv) -> Seq<char> {
    spec_join(spec_join(spec_vm_include_directory(env), "pharovm"@), "pharoClient.h"@)
}

/// The generated VM include tree the configure step lays out under the
/// output directory.
pub open spec fn spec_generated_vm_include_directory(env: BuildEnv) -> Seq<char> {
    spec_join(
        spec_join(spec_join(spec_join(env.output_directory@, "generated"@), "64"@), "vm"@),
        "include"@,
    )
}

/// Where the generated bindings source is written.
pub open spec fn spec_bindings_output_file(env: BuildEnv) -> Seq<char> {
    spec_join(env.output_directory@, "bindings.rs"@)
}

/// The fixed recursive-submodule fetch command.
pub open spec fn spec_init_submodules_command() -> CommandLineView {
    CommandLineView {
        program: "git"@,
        args: seq!["submodule"@, "update"@, "--init"@, "--recursive"@],
    }
}

/// The native compile command: build the configured tree in the output
/// directory under the current profile.
pub open spec fn spec_compile_command(env: BuildEnv) -> CommandLineView {
    CommandLineView {
        program: "cmake"@,
        args: seq!["--build"@, env.output_directory@, "--config"@, env.profile@],
    }
}

/// The ordered include search paths handed to the header parser: the VM's
/// top-level include directory, its `pharovm` subdirectory, the generated
/// config directory, the generated VM include tree, the common header
/// directory and the platform header directory.
pub open spec fn spec_include_set(
    env: BuildEnv,
    generated_config_dir: Seq<char>,
    platform_dir: Seq<char>,
) -> Seq<Seq<char>> {
    seq![
        spec_vm_include_directory(env),
        spec_join(spec_vm_include_directory(env), "pharovm"@),
        generated_config_dir,
        spec_generated_vm_include_directory(env),
        spec_common_include_directory(env),
        platform_dir,
    ]
}

/// The capability set a platform implementation supplies to go from native
/// sources on disk to a linked artifact with generated bindings. The
/// platform-independent operations have default bodies; the artifact path,
/// the configure command, the platform include directory, the generated
/// config directory and the link directives must come from the platform.
pub trait Builder: Sized {
    /// The environment this builder was constructed from.
    spec fn env_spec(&self) -> BuildEnv;

    /// The platform's compiled-artifact path.
    spec fn vm_binary_spec(&self) -> Seq<char>;

    /// The platform-specific header subdirectory.
    spec fn platform_include_directory_spec(&self) -> Seq<char>;

    /// Where the configure step deposits its generated config headers.
    spec fn generated_config_directory_spec(&self) -> Seq<char>;

    /// The platform's native configure command.
    spec fn generate_sources_spec(&self) -> CommandLineView;

    /// The platform's link directives.
    spec fn link_libraries_spec(&self) -> Seq<LinkDirectiveView>;

    /// The captured environment.
    fn env(&self) -> (r: &BuildEnv)
        ensures
            *r == self.env_spec(),
    ;

    /// Path of the compiled VM artifact; a file exists there exactly when
    /// the native build is considered done.
    fn vm_binary(&self) -> (r: String)
        ensures
            r@ == self.vm_binary_spec(),
    ;

    /// The platform-specific header subdirectory.
    fn platform_include_directory(&self) -> (r: String)
        ensures
            r@ == self.platform_include_directory_spec(),
    ;

    /// The generated-config include directory the configure step produced.
    fn generated_config_directory(&self) -> (r: String)
        ensures
            r@ == self.generated_config_directory_spec(),
    ;

    /// The command that emits the native build files, with the platform's
    /// feature toggles and the computed build-type flag.
    fn generate_sources(&self) -> (r: CommandLine)
        ensures
            r@ == self.generate_sources_spec(),
    ;

    /// The directives naming what the host build system links and where it
    /// searches.
    fn link_libraries(&self) -> (r: Vec<LinkDirective>)
        ensures
            link_directive_views(r@) == self.link_libraries_spec(),
    ;

    /// The build-profile name.
    fn profile(&self) -> (r: String)
        ensures
            r@ == self.env_spec().profile@,
    {
        self.env().profile.clone()
    }

    /// Whether the profile selects a debug build.
    fn is_debug(&self) -> (r: bool)
        ensures
            r == spec_is_debug(self.env_spec()),
    {
        str_eq(self.env().profile.as_str(), "debug")
    }

    /// Whether the optional toggle asks for debug symbols; unset or any
    /// value other than `true` means no.
    fn should_embed_debug_symbols(&self) -> (r: bool)
        ensures
            r == spec_should_embed_debug_symbols(self.env_spec()),
    {
        match &self.env().embed_debug_symbols {
            Some(v) => str_eq(v.as_str(), "true"),
            None => false,
        }
    }

    /// The native build-type flag, per the decision table of
    /// [`spec_cmake_build_type`].
    fn cmake_build_type(&self) -> (r: String)
        ensures
            r@ == spec_cmake_build_type(self.env_spec()),
    {
        if self.is_debug() {
            "-DCMAKE_BUILD_TYPE=RelWithDebInfo".to_owned()
        } else if self.should_embed_debug_symbols() {
            "-DCMAKE_BUILD_TYPE=RelWithDebInfo".to_owned()
        } else {
            "-DCMAKE_BUILD_TYPE=Release".to_owned()
        }
    }

    /// The host build system's scratch directory.
    fn output_directory(&self) -> (r: String)
        ensures
            r@ == self.env_spec().output_directory@,
    {
        self.env().output_directory.clone()
    }

    /// The external VM source tree, at its fixed relative location.
    fn vm_sources_directory(&self) -> (r: String)
        ensures
            r@ == spec_vm_sources_directory(self.env_spec()),
    {
        path_join(self.env().working_directory.as_str(), "opensmalltalk-vm")
    }

    /// The recursive-submodule fetch that ensures the VM sources are
    /// present and up to date.
    fn init_submodules(&self) -> (r: CommandLine)
        ensures
            r@ == spec_init_submodules_command(),
    {
        let mut args: Vec<String> = Vec::new();
        args.push("submodule".to_owned());
        args.push("update".to_owned());
        args.push("--init".to_owned());
        args.push("--recursive".to_owned());
        let r = CommandLine { program: "git".to_owned(), args };
        proof {
            assert(r@ =~~= spec_init_submodules_command());
        }
        r
    }

    /// The native compile step against the configured output directory.
    fn compile_sources(&self) -> (r: CommandLine)
        ensures
            r@ == spec_compile_command(self.env_spec()),
    {
        let mut args: Vec<String> = Vec::new();
        args.push("--build".to_owned());
        args.push(self.output_directory());
        args.push("--config".to_owned());
        args.push(self.profile());
        let r = CommandLine { program: "cmake".to_owned(), args };
        proof {
            assert(r@ =~~= spec_compile_command(self.env_spec()));
        }
        r
    }

    /// The extracted-headers root under the VM source tree.
    fn squeak_include_directory(&self) -> (r: String)
        ensures
            r@ == spec_squeak_include_directory(self.env_spec()),
    {
        let sources = self.vm_sources_directory();
        let extracted = path_join(sources.as_str(), "extracted");
        let vm = path_join(extracted.as_str(), "vm");
        path_join(vm.as_str(), "include")
    }

    /// The cross-platform header directory.
    fn common_include_directory(&self) -> (r: String)
        ensures
            r@ == spec_common_include_directory(self.env_spec()),
    {
        let squeak = self.squeak_include_directory();
        path_join(squeak.as_str(), "common")
    }

    /// Assembles what the binding generator runs on: the public client
    /// header, the six include search paths in order, the allowed-function
    /// patterns (the `vm_` prefix and the allow-listed deallocation
    /// primitive), and the output file, rewritten every invocation.
    fn generate_bindings(&self) -> (r: BindingsPlan)
        ensures
            r.header@ == spec_bindings_header(self.env_spec()),
            string_views(r.include_directories@) == spec_include_set(
                self.env_spec(),
                self.generated_config_directory_spec(),
                self.platform_include_directory_spec(),
            ),
            string_views(r.allowed_functions@) == seq!["vm_.*"@, "free"@],
            r.output_file@ == spec_bindings_output_file(self.env_spec()),
            r.rerun_on_header_change,
    {
        let sources = self.vm_sources_directory();
        let include_dir = path_join(sources.as_str(), "include");
        let pharovm_dir = path_join(include_dir.as_str(), "pharovm");
        let header = path_join(pharovm_dir.as_str(), "pharoClient.h");
        let out = self.output_directory();
        let generated = path_join(out.as_str(), "generated");
        let generated_64 = path_join(generated.as_str(), "64");
        let generated_vm = path_join(generated_64.as_str(), "vm");
        let generated_vm_include = path_join(generated_vm.as_str(), "include");
        let mut include_directories: Vec<String> = Vec::new();
        include_directories.push(include_dir);
        include_directories.push(pharovm_dir);
        include_directories.push(self.generated_config_directory());
        include_directories.push(generated_vm_include);
        include_directories.push(self.common_include_directory());
        include_directories.push(self.platform_include_directory());
        let mut allowed_functions: Vec<String> = Vec::new();
        allowed_functions.push("vm_.*".to_owned());
        allowed_functions.push("free".to_owned());
        let output_file = path_join(out.as_str(), "bindings.rs");
        let r = BindingsPlan {
            header,
            include_directories,
            allowed_functions,
            output_file,
            rerun_on_header_change: true,
        };
        proof {
            assert(string_views(r.include_directories@) =~~= spec_include_set(
                self.env_spec(),
                self.generated_config_directory_spec(),
                self.platform_include_directory_spec(),
            ));
            assert(string_views(r.allowed_functions@) =~~= seq!["vm_.*"@, "free"@]);
        }
        r
    }
}

} // verus!
