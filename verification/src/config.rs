//! The pure logic behind a build script's handling of an interpreter
//! configuration: which source the single initialization reads the
//! configuration from, and the directive lines a build script writes to
//! the build tool's output channel once the configuration is known.
//!
//! Reading environment variables and files, and the process-wide cache
//! that holds the loaded configuration, are the build script's side; the
//! decisions and the rendered lines are all here.

use vstd::prelude::*;
use vstd::string::StringExecFns;

use crate::decimal::dec_str;
use crate::decimal::dec_string;

verus! {

/// The interpreter version a configuration was discovered for.
#[derive(Clone, Copy, PartialEq, Eq, Structural, Debug)]
pub struct PythonVersion {
    pub major: u8,
    pub minor: u8,
}

/// Which interpreter implementation a configuration describes.
#[derive(Clone, Copy, PartialEq, Eq, Structural, Debug)]
pub enum PythonImplementation {
    CPython,
    PyPy,
}

/// An interpreter configuration, as far as the directive logic reads it:
/// the interpreter version, the implementation kind, and whether the
/// build targets the limited stable ABI.
#[derive(Clone, Copy, PartialEq, Eq, Structural, Debug)]
pub struct InterpreterConfig {
    pub version: PythonVersion,
    pub implementation: PythonImplementation,
    pub abi3: bool,
}

/// Where the single initialization reads the configuration from.
#[derive(PartialEq, Eq, Debug)]
pub enum ConfigSource {
    /// The file named by the override environment variable.
    OverrideFile(String),
    /// The fixed cross-compile configuration path written at build time.
    CrossCompileFile,
    /// The embedded text describing the host interpreter.
    HostEmbedded,
}

/// Decides which source the configuration is loaded from, first match
/// wins: an explicit override path when one is given, else the fixed
/// cross-compile path when any cross-compilation variable is set, else
/// the embedded host text.
pub fn select_source(override_path: Option<String>, cross_compiling: bool) -> (r: ConfigSource)
    ensures
        match override_path {
            Some(path) => r == ConfigSource::OverrideFile(path),
            None => r == if cross_compiling {
                ConfigSource::CrossCompileFile
            } else {
                ConfigSource::HostEmbedded
            },
        },
{
    match override_path {
        Some(path) => ConfigSource::OverrideFile(path),
        None => if cross_compiling {
            ConfigSource::CrossCompileFile
        } else {
            ConfigSource::HostEmbedded
        },
    }
}

/// The directive that gates code on minor version `minor` of a 3.x
/// interpreter and newer.
pub open spec fn version_gate_line(minor: nat) -> Seq<char> {
    "cargo:rustc-cfg=Py_3_"@ + dec_str(minor)
}

/// The version-gate directives for a configuration's version: one line
/// per 3.x minor version from 6 up to the configured minor, oldest
/// first, and none for a version outside that range.
pub open spec fn version_gate_lines(version: PythonVersion) -> Seq<Seq<char>> {
    if version.major == 3 && version.minor >= 6 {
        Seq::new((version.minor - 5) as nat, |i: int| version_gate_line((6 + i) as nat))
    } else {
        Seq::empty()
    }
}

/// Every conditional-compilation directive for a configuration: its
/// version gates, then the limited-API flag when it targets the stable
/// ABI, then the alternate-implementation flag when it describes PyPy.
pub open spec fn pyo3_cfg_lines(config: InterpreterConfig) -> Seq<Seq<char>> {
    version_gate_lines(config.version) + (if config.abi3 {
        seq!["cargo:rustc-cfg=Py_LIMITED_API"@]
    } else {
        Seq::empty()
    }) + (if config.implementation is PyPy {
        seq!["cargo:rustc-cfg=PyPy"@]
    } else {
        Seq::empty()
    })
}

/// The conditional-compilation directives for the given configuration,
/// exactly as [`pyo3_cfg_lines`] states them; a build script writes each
/// returned line to the build tool's output channel.
pub fn use_pyo3_cfgs(config: &InterpreterConfig) -> (lines: Vec<String>)
    ensures
        lines.deep_view() == pyo3_cfg_lines(*config),
{
    let mut lines: Vec<String> = Vec::new();
    if config.version.major == 3 && config.version.minor >= 6 {
        let top: usize = config.version.minor as usize;
        let mut minor: usize = 6;
        while minor <= top
            invariant
                6 <= minor <= top + 1,
                top == config.version.minor,
                config.version.major == 3 && config.version.minor >= 6,
                lines.deep_view() == Seq::new(
                    (minor - 6) as nat,
                    |i: int| version_gate_line((6 + i) as nat),
                ),
            decreases top + 1 - minor,
        {
            let ghost before = lines.deep_view();
            let mut line: String = "cargo:rustc-cfg=Py_3_".to_owned();
            let num = dec_string(minor);
            line.append(num.as_str());
            lines.push(line);
            proof {
                assert(lines.deep_view() =~= before.push(version_gate_line(minor as nat)));
                assert(lines.deep_view() =~= Seq::new(
                    (minor + 1 - 6) as nat,
                    |i: int| version_gate_line((6 + i) as nat),
                ));
            }
            minor += 1;
        }
    }
    proof {
        assert(lines.deep_view() =~= version_gate_lines(config.version));
    }
    let ghost gates = lines.deep_view();
    if config.abi3 {
        lines.push("cargo:rustc-cfg=Py_LIMITED_API".to_owned());
    }
    let ghost with_abi3 = lines.deep_view();
    proof {
        assert(with_abi3 =~= gates + (if config.abi3 {
            seq!["cargo:rustc-cfg=Py_LIMITED_API"@]
        } else {
            Seq::<Seq<char>>::empty()
        }));
    }
    match config.implementation {
        PythonImplementation::PyPy => {
            lines.push("cargo:rustc-cfg=PyPy".to_owned());
        },
        PythonImplementation::CPython => {},
    }
    proof {
        assert(lines.deep_view() =~= pyo3_cfg_lines(*config));
    }
    lines
}

/// The extension-module link directives for a target operating system:
/// exactly the two fixed linker-argument lines on the designated system,
/// and none on any other.
pub open spec fn extension_module_link_lines(target_os: Seq<char>) -> Seq<Seq<char>> {
    if target_os == "macos"@ {
        seq![
            "cargo:rustc-cdylib-link-arg=-undefined"@,
            "cargo:rustc-cdylib-link-arg=dynamic_lookup"@,
        ]
    } else {
        Seq::empty()
    }
}

/// The linker-argument directives suitable for an extension module on
/// the given target operating system, exactly as
/// [`extension_module_link_lines`] states them; a build script writes
/// each returned line to the build tool's output channel.
pub fn add_extension_module_link_args(target_os: &str) -> (lines: Vec<String>)
    ensures
        lines.deep_view() == extension_module_link_lines(target_os@),
{
    let mut lines: Vec<String> = Vec::new();
    let os = target_os.to_owned();
    let designated = "macos".to_owned();
    if os == designated {
        lines.push("cargo:rustc-cdylib-link-arg=-undefined".to_owned());
        lines.push("cargo:rustc-cdylib-link-arg=dynamic_lookup".to_owned());
    }
    proof {
        assert(lines.deep_view() =~= extension_module_link_lines(target_os@));
    }
    lines
}

} // verus!
