//! The command-line subcommands and their arguments, as plain data. The
//! program front end parses them and hands them over in these shapes.
use vstd::prelude::*;

verus! {

/// The `microvm` subcommands.
#[derive(Clone, Debug, PartialEq, Eq)]
pub enum MicroVMSubCmd {
    /// Start the shim instance that microVMs run from.
    Init,
    /// Create a new instance.
    Create(MicroVMCreateArgs),
    /// Stop a running instance and hand its CPUs back to the shim.
    Stop(MicroVMStopArgs),
    /// Remove a stopped non-VFIO instance from the host state.
    Remove(MicroVMRemoveArgs),
}

/// Arguments of `microvm create`.
#[derive(Clone, Debug, PartialEq, Eq)]
pub struct MicroVMCreateArgs {
    /// Path to the configuration file in JSON format.
    pub config_file: String,
}

/// Arguments of `microvm remove`.
#[derive(Clone, Copy, Debug, PartialEq, Eq)]
pub struct MicroVMRemoveArgs {
    /// MicroVM instance ID to remove.
    pub instance_id: u64,
}

/// Arguments of `microvm stop`.
#[derive(Clone, Copy, Debug, PartialEq, Eq)]
pub struct MicroVMStopArgs {
    /// MicroVM instance ID to stop.
    pub instance_id: u64,
}

/// The LibOS instance subcommands.
#[derive(Clone, Debug, PartialEq, Eq)]
pub enum InstanceSubCmd {
    /// List the instances.
    List,
    /// Initialise the instance runtime environment.
    Init,
    /// Execute an instance from an ELF file with its arguments.
    Execute(ExecuteArgs),
    /// Remove an instance.
    Remove {
        /// Instance ID to remove.
        instance_id: i32,
    },
}

/// Arguments of `execute`: the program and its arguments.
#[derive(Clone, Debug, PartialEq, Eq)]
pub struct ExecuteArgs {
    pub exec_args: Vec<String>,
}

} // verus!
