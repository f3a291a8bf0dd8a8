//! `keygen schema`: a machine-readable description of the whole command
//! surface, for agents that drive the tool without parsing `--help`.

pub mod commands;
pub mod generate;
