//! Assembles the command line of a contract deployment through `forge create`
//! and interprets what the tool reported.
pub mod deploy;

pub use deploy::{
    build_args, build_command, conclude, interpret_output, report, DeployError,
    DeploymentCommand, DeploymentRequest, DeploymentResult, ProcessOutput, Report,
};
