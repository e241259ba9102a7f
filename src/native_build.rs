//! The three external invocations that configure, compile and install the
//! native library out of tree.
use vstd::prelude::*;

verus! {

pub const BUILD_TOOL: &'static str = "cmake";

#[derive(Clone, Copy, Debug, PartialEq, Eq, Structural)]
pub enum BuildPhase {
    Configure,
    Build,
    Install,
}

/// One external process: the program, where it runs, and its arguments.
#[derive(Debug)]
pub struct Invocation {
    pub phase: BuildPhase,
    pub program: String,
    pub dir: String,
    pub args: Vec<String>,
}

pub struct InvocationView {
    pub phase: BuildPhase,
    pub program: Seq<char>,
    pub dir: Seq<char>,
    pub args: Seq<Seq<char>>,
}

/// The text of each string in order.
pub open spec fn texts(v: Seq<String>) -> Seq<Seq<char>> {
    v.map_values(|s: String| s@)
}

impl View for Invocation {
    type V = InvocationView;

    open spec fn view(&self) -> InvocationView {
        InvocationView {
            phase: self.phase,
            program: self.program@,
            dir: self.dir@,
            args: texts(self.args@),
        }
    }
}

/// The argument that sets the install prefix.
pub open spec fn prefix_arg_of(install_root: Seq<char>) -> Seq<char> {
    "-DCMAKE_INSTALL_PREFIX="@ + install_root
}

/// Configure from the parent directory: install under `install_root`, build
/// only a static, position-independent library linked statically against the
/// C++ runtime, with OpenSSL as the encryption backend and C++11.
pub open spec fn configure_args_of(install_root: Seq<char>) -> Seq<Seq<char>> {
    seq![
        ".."@,
        prefix_arg_of(install_root),
        "-DENABLE_SHARED=OFF"@,
        "-DENABLE_STATIC=ON"@,
        "-DUSE_STATIC_LIBSTDCXX=ON"@,
        "-DUSE_ENCLIB=openssl"@,
        "-DENABLE_CXX11=ON"@,
        "-DCMAKE_POSITION_INDEPENDENT_CODE=ON"@,
    ]
}

/// Compile the generated rules in the release configuration.
pub open spec fn build_args_of() -> Seq<Seq<char>> {
    seq!["--build"@, "."@, "--config"@, "Release"@]
}

/// Copy the outputs into the install prefix.
pub open spec fn install_args_of() -> Seq<Seq<char>> {
    seq!["--install"@, "."@]
}

pub open spec fn args_of(phase: BuildPhase, install_root: Seq<char>) -> Seq<Seq<char>> {
    match phase {
        BuildPhase::Configure => configure_args_of(install_root),
        BuildPhase::Build => build_args_of(),
        BuildPhase::Install => install_args_of(),
    }
}

/// The invocation of `phase`, run in `build_dir` for an install under `install_root`.
pub open spec fn invocation_of(
    phase: BuildPhase,
    build_dir: Seq<char>,
    install_root: Seq<char>,
) -> InvocationView {
    InvocationView {
        phase,
        program: BUILD_TOOL@,
        dir: build_dir,
        args: args_of(phase, install_root),
    }
}

/// The phase that follows `phase`, if any.
pub open spec fn next_phase(phase: BuildPhase) -> Option<BuildPhase> {
    match phase {
        BuildPhase::Configure => Some(BuildPhase::Build),
        BuildPhase::Build => Some(BuildPhase::Install),
        BuildPhase::Install => None,
    }
}

pub fn configure_args(install_root: &str) -> (r: Vec<String>)
    ensures
        texts(r@) == configure_args_of(install_root@),
{
    let mut prefix = String::from_str("-DCMAKE_INSTALL_PREFIX=");
    prefix.append(install_root);
    let r = vec![
        String::from_str(".."),
        prefix,
        String::from_str("-DENABLE_SHARED=OFF"),
        String::from_str("-DENABLE_STATIC=ON"),
        String::from_str("-DUSE_STATIC_LIBSTDCXX=ON"),
        String::from_str("-DUSE_ENCLIB=openssl"),
        String::from_str("-DENABLE_CXX11=ON"),
        String::from_str("-DCMAKE_POSITION_INDEPENDENT_CODE=ON"),
    ];
    assert(texts(r@) =~= configure_args_of(install_root@));
    r
}

pub fn build_args() -> (r: Vec<String>)
    ensures
        texts(r@) == build_args_of(),
{
    let r = vec![
        String::from_str("--build"),
        String::from_str("."),
        String::from_str("--config"),
        String::from_str("Release"),
    ];
    assert(texts(r@) =~= build_args_of());
    r
}

pub fn install_args() -> (r: Vec<String>)
    ensures
        texts(r@) == install_args_of(),
{
    let r = vec![String::from_str("--install"), String::from_str(".")];
    assert(texts(r@) =~= install_args_of());
    r
}

/// The invocation of `phase`.
pub fn invocation(phase: BuildPhase, build_dir: &str, install_root: &str) -> (r: Invocation)
    ensures
        r@ == invocation_of(phase, build_dir@, install_root@),
{
    let args = match phase {
        BuildPhase::Configure => configure_args(install_root),
        BuildPhase::Build => build_args(),
        BuildPhase::Install => install_args(),
    };
    Invocation {
        phase,
        program: String::from_str(BUILD_TOOL),
        dir: String::from_str(build_dir),
        args,
    }
}

} // verus!
