//! The immutable configuration value: the command to run and the
//! filesystem shape to construct around it.

use vstd::prelude::*;

verus! {

/// Mathematical image of a [`Config`].
pub struct ConfigView {
    pub initial_dir: Seq<char>,
    pub command: Seq<Seq<char>>,
    pub readonly_dirs: Seq<Seq<char>>,
    pub tmpfs_dirs: Seq<Seq<char>>,
}

impl ConfigView {
    /// The configuration invariant: the command names at least an executable.
    pub open spec fn wf(self) -> bool {
        self.command.len() > 0
    }
}

/// Describes one isolated launch: the working directory to start in,
/// the command (element 0 is the executable path), the directories to
/// expose read-only, and the directories to replace by ephemeral storage.
///
/// Constructed once at startup and never mutated afterwards.
pub struct Config {
    initial_dir: String,
    command: Vec<String>,
    readonly_dirs: Vec<String>,
    tmpfs_dirs: Vec<String>,
}

impl View for Config {
    type V = ConfigView;

    closed spec fn view(&self) -> ConfigView {
        ConfigView {
            initial_dir: self.initial_dir@,
            command: self.command.deep_view(),
            readonly_dirs: self.readonly_dirs.deep_view(),
            tmpfs_dirs: self.tmpfs_dirs.deep_view(),
        }
    }
}

/// Why a configuration value was rejected.
#[derive(Debug, PartialEq, Eq, Structural)]
pub enum ConfigError {
    /// The command sequence was empty: there is nothing to execute.
    EmptyCommand,
}

impl Config {
    /// Validates and builds the configuration. The only rejected input is
    /// an empty command sequence, which would leave nothing to execute.
    pub fn new(
        initial_dir: String,
        command: Vec<String>,
        readonly_dirs: Vec<String>,
        tmpfs_dirs: Vec<String>,
    ) -> (r: Result<Config, ConfigError>)
        ensures
            command@.len() > 0 ==> (r matches Ok(c) && c@ == (ConfigView {
                initial_dir: initial_dir@,
                command: command.deep_view(),
                readonly_dirs: readonly_dirs.deep_view(),
                tmpfs_dirs: tmpfs_dirs.deep_view(),
            }) && c@.wf()),
            command@.len() == 0 ==> (r matches Err(e) && e == ConfigError::EmptyCommand),
    {
        if command.len() == 0 {
            Err(ConfigError::EmptyCommand)
        } else {
            Ok(Config { initial_dir, command, readonly_dirs, tmpfs_dirs })
        }
    }

    pub fn initial_dir(&self) -> (r: &String)
        ensures
            r@ == self@.initial_dir,
    {
        &self.initial_dir
    }

    pub fn command(&self) -> (r: &Vec<String>)
        ensures
            r.deep_view() == self@.command,
    {
        &self.command
    }

    pub fn readonly_dirs(&self) -> (r: &Vec<String>)
        ensures
            r.deep_view() == self@.readonly_dirs,
    {
        &self.readonly_dirs
    }

    pub fn tmpfs_dirs(&self) -> (r: &Vec<String>)
        ensures
            r.deep_view() == self@.tmpfs_dirs,
    {
        &self.tmpfs_dirs
    }
}

} // verus!
