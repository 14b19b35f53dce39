//! The daemon's configuration: its two socket paths and their modes, and
//! the one command-line argument that names the binary file holding them.
use vstd::prelude::*;

use crate::client::{argument_source, opens_inline, ArgumentSource, ClientError};
use crate::text::{ends_with, has_prefix, has_suffix};

verus! {

/// Where the daemon listens and with which socket permissions.
#[derive(Debug, PartialEq, Eq)]
pub struct DaemonConfiguration {
    pub ordinary_socket_path: String,
    pub ordinary_socket_mode: u32,
    pub meta_socket_path: String,
    pub meta_socket_mode: u32,
}

impl Clone for DaemonConfiguration {
    fn clone(&self) -> (copy: Self)
        ensures
            copy.ordinary_socket_path@ == self.ordinary_socket_path@,
            copy.ordinary_socket_mode == self.ordinary_socket_mode,
            copy.meta_socket_path@ == self.meta_socket_path@,
            copy.meta_socket_mode == self.meta_socket_mode,
    {
        DaemonConfiguration {
            ordinary_socket_path: self.ordinary_socket_path.clone(),
            ordinary_socket_mode: self.ordinary_socket_mode,
            meta_socket_path: self.meta_socket_path.clone(),
            meta_socket_mode: self.meta_socket_mode,
        }
    }
}

/// The daemon, as configured.
#[derive(Debug, PartialEq, Eq)]
pub struct Daemon {
    configuration: DaemonConfiguration,
}

impl Daemon {
    pub closed spec fn configured_with(&self) -> DaemonConfiguration {
        self.configuration
    }

    pub fn new(configuration: DaemonConfiguration) -> (daemon: Self)
        ensures
            daemon.configured_with() == configuration,
    {
        Daemon { configuration }
    }

    pub fn configuration(&self) -> (configuration: &DaemonConfiguration)
        ensures
            *configuration == self.configured_with(),
    {
        &self.configuration
    }
}

/// Why the daemon's command line names no configuration file.
#[derive(Debug, PartialEq, Eq)]
pub enum ConfigurationArgumentError {
    ExpectedSingleArgument,
    FlagArgument(String),
    /// The argument is request text, not a path: configuration is never
    /// given inline.
    InlineText(String),
    /// The path names a text (`.nota`) file: configuration is read only from
    /// its binary archive.
    TextConfiguration(String),
}

/// The path of the daemon's binary configuration archive: the one argument,
/// when it is neither a flag, nor inline text, nor a `.nota` file.
pub fn configuration_path(arguments: Vec<String>) -> (path: Result<String, ConfigurationArgumentError>)
    ensures
        arguments.len() != 1 ==> path == Err::<String, ConfigurationArgumentError>(
            ConfigurationArgumentError::ExpectedSingleArgument,
        ),
        arguments.len() == 1 ==> {
            let argument = arguments@[0]@;
            if has_prefix(argument, "--"@) {
                path matches Err(ConfigurationArgumentError::FlagArgument(flag)) && flag@ == argument
            } else if opens_inline(argument) {
                path matches Err(ConfigurationArgumentError::InlineText(text)) && text@ == argument
            } else if has_suffix(argument, ".nota"@) {
                path matches Err(ConfigurationArgumentError::TextConfiguration(file)) && file@ == argument
            } else {
                path matches Ok(file) && file@ == argument
            }
        },
{
    match argument_source(arguments) {
        Err(ClientError::ExpectedSingleArgument) => Err(ConfigurationArgumentError::ExpectedSingleArgument),
        Err(ClientError::FlagArgument(flag)) => Err(ConfigurationArgumentError::FlagArgument(flag)),
        Ok(ArgumentSource::Inline(text)) => Err(ConfigurationArgumentError::InlineText(text)),
        Ok(ArgumentSource::File(file)) => {
            if ends_with(file.as_str(), ".nota") {
                Err(ConfigurationArgumentError::TextConfiguration(file))
            } else {
                Ok(file)
            }
        },
    }
}

} // verus!
