//! Generation-run configuration: the dependency versions written into
//! the generated crate's manifest, with documented defaults, and the
//! project-description schema that names peripherals by file.
use vstd::prelude::*;
use vstd::string::StringExecFns;

use crate::schema::StringOrNumber;

verus! {

/// The configuration file's optional fields, as parsed.
#[derive(Clone, Debug)]
pub struct ConfigOption {
    pub bit_field_version: Option<String>,
    pub volatile_register_version: Option<String>,
}

/// The resolved configuration: every version pinned.
#[derive(Clone, Debug)]
pub struct Config {
    pub bit_field_version: String,
    pub volatile_register_version: String,
}

/// The default version of the bit-manipulation dependency of the
/// generated crate.
fn default_bit_field_version() -> (r: &'static str)
    ensures
        r@ == "0.10.2"@,
{
    "0.10.2"
}

/// The default version of the volatile-access dependency of the
/// generated crate.
fn default_volatile_register_version() -> (r: &'static str)
    ensures
        r@ == "0.2.2"@,
{
    "0.2.2"
}

/// Resolves a parsed configuration against the documented defaults:
/// a missing version falls back, a given one is kept.
pub fn resolve_config(opt: &ConfigOption) -> (r: Config)
    ensures
        r.bit_field_version@ == (match opt.bit_field_version {
            Some(v) => v@,
            None => "0.10.2"@,
        }),
        r.volatile_register_version@ == (match opt.volatile_register_version {
            Some(v) => v@,
            None => "0.2.2"@,
        }),
{
    let bit_field_version = match &opt.bit_field_version {
        Some(v) => v.clone(),
        None => String::from_str(default_bit_field_version()),
    };
    let volatile_register_version = match &opt.volatile_register_version {
        Some(v) => v.clone(),
        None => String::from_str(default_volatile_register_version()),
    };
    Config { bit_field_version, volatile_register_version }
}

/// The manifest text of the generated crate, with the crate name and
/// the configured dependency versions spliced in.
pub open spec fn spec_cargo_toml(
    crate_name: Seq<char>,
    bit_field: Seq<char>,
    volatile_register: Seq<char>,
) -> Seq<char> {
    "[package]\nname = \""@ + crate_name
        + "\"\nversion = \"0.1.0\"\nedition = \"2021\"\n\n[dependencies]\nbit_field = \""@
        + bit_field + "\"\nvolatile-register = \""@ + volatile_register + "\"\n"@
}

/// Renders the generated crate's manifest.
pub fn gen_cargo_toml(crate_name: &str, config: &Config) -> (r: String)
    ensures
        r@ == spec_cargo_toml(
            crate_name@,
            config.bit_field_version@,
            config.volatile_register_version@,
        ),
{
    let mut out = String::from_str("[package]\nname = \"");
    out.append(crate_name);
    out.append("\"\nversion = \"0.1.0\"\nedition = \"2021\"\n\n[dependencies]\nbit_field = \"");
    out.append(config.bit_field_version.as_str());
    out.append("\"\nvolatile-register = \"");
    out.append(config.volatile_register_version.as_str());
    out.append("\"\n");
    out
}

/// The top-level wrapper of a project description document.
#[derive(Clone, Debug)]
pub struct ProjectWrapper {
    pub project: Project,
}

/// The top-level wrapper of a peripheral description document.
#[derive(Clone, Debug)]
pub struct PeripheralWrapper {
    pub peripheral: Peripheral,
}

/// A project configuration: identity, board and memory geometry, and
/// the peripheral description files it pulls in.
#[derive(Clone, Debug)]
pub struct Project {
    pub id: String,
    pub name: String,
    pub description: String,
    pub version: String,
    pub board: String,
    pub memory_size: u64,
    pub memory_base: u32,
    pub peripheral_files: Vec<String>,
}

/// One enumerated value of a field in a project-style description.
#[derive(Clone, Debug)]
pub struct Values {
    pub value: StringOrNumber,
    pub name: Option<String>,
    pub description: Option<String>,
}

/// One field of a register in a project-style description; values
/// here are raw strings, parsed later at the schema boundary.
#[derive(Clone, Debug)]
pub struct Field {
    pub id: String,
    pub bit_range: String,
    pub access: String,
    pub description: String,
    pub reset: Option<u32>,
    pub values: Option<Vec<Values>>,
}

/// One register of a peripheral in a project-style description.
#[derive(Clone, Debug)]
pub struct Register {
    pub id: String,
    pub name: String,
    pub description: String,
    pub offset: usize,
    pub size: usize,
    pub reset: Option<u32>,
    pub access: String,
    pub fields: Option<Vec<Field>>,
}

/// One peripheral in a project-style description.
#[derive(Clone, Debug)]
pub struct Peripheral {
    pub id: String,
    pub description: String,
    pub registers: Vec<Register>,
}

} // verus!
