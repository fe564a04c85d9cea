//! How the test runner is set up: the project's configuration, the paths
//! that cheatcodes may reach, the account that sends, and the hardfork.

use vstd::prelude::*;
use crate::paths::{manifest_root, manifest_root_of};
use crate::settings::EvmSettings;

verus! {

/// The EVM hardforks a runner can be set to.
#[derive(Clone, Copy, Debug, PartialEq, Eq, Structural)]
pub enum EvmSpec {
    London,
    Merge,
    Shanghai,
    Cancun,
}

/// The part of a project's configuration that the runner setup reads and
/// changes: the project root, the configured sender, the paths that may be
/// read by cheatcodes, and the paths they may read and write.
pub struct RunnerConfig {
    pub root: String,
    pub sender: [u8; 20],
    pub allow_paths: Vec<String>,
    pub read_write_paths: Vec<String>,
}

/// The settings that a contract runner is built from. A field that is `None`
/// is left to the runner's default.
pub struct RunnerBuilder {
    pub sender: Option<[u8; 20]>,
    pub evm_spec: Option<EvmSpec>,
    pub cheats_config: Option<RunnerConfig>,
}

impl RunnerConfig {
    /// A configuration for the project at `root`, with `sender` as its sender
    /// and no extra paths.
    pub fn with_root(root: &str, sender: [u8; 20]) -> (c: RunnerConfig)
        ensures
            c.root@ == root@,
            c.sender == sender,
            c.allow_paths@.len() == 0,
            c.read_write_paths@.len() == 0,
    {
        RunnerConfig {
            root: root.to_owned(),
            sender,
            allow_paths: Vec::new(),
            read_write_paths: Vec::new(),
        }
    }
}

impl RunnerBuilder {
    /// A builder that leaves every setting to the runner's default.
    pub fn new() -> (b: RunnerBuilder)
        ensures
            b.sender is None,
            b.evm_spec is None,
            b.cheats_config is None,
    {
        RunnerBuilder { sender: None, evm_spec: None, cheats_config: None }
    }

    /// Sets the account that deploys and calls.
    pub fn sender(self, sender: [u8; 20]) -> (b: RunnerBuilder)
        ensures
            b.sender == Some(sender),
            b.evm_spec == self.evm_spec,
            b.cheats_config == self.cheats_config,
    {
        RunnerBuilder { sender: Some(sender), ..self }
    }

    /// Sets the hardfork.
    pub fn evm_spec(self, spec: EvmSpec) -> (b: RunnerBuilder)
        ensures
            b.sender == self.sender,
            b.evm_spec == Some(spec),
            b.cheats_config == self.cheats_config,
    {
        RunnerBuilder { evm_spec: Some(spec), ..self }
    }

    /// Sets the configuration that cheatcodes are given.
    pub fn with_cheats_config(self, config: RunnerConfig) -> (b: RunnerBuilder)
        ensures
            b.sender == self.sender,
            b.evm_spec == self.evm_spec,
            b.cheats_config == Some(config),
    {
        RunnerBuilder { cheats_config: Some(config), ..self }
    }
}

/// A builder whose sender is the sender of the EVM options.
pub fn base_runner(opts: &EvmSettings) -> (b: RunnerBuilder)
    ensures
        b.sender == Some(opts.sender),
        b.evm_spec is None,
        b.cheats_config is None,
{
    RunnerBuilder::new().sender(opts.sender)
}

/// The runner setup for `config`: the manifest root of `manifest_dir` is
/// added to the paths that cheatcodes may read, the configuration goes to
/// the cheatcodes, its sender sends, and the hardfork is Shanghai.
pub fn runner_with_config(config: RunnerConfig, opts: &EvmSettings, manifest_dir: &str) -> (b:
    RunnerBuilder)
    ensures
        b.sender == Some(config.sender),
        b.evm_spec == Some(EvmSpec::Shanghai),
        b.cheats_config is Some,
        ({
            let c = b.cheats_config->Some_0;
            &&& c.root == config.root
            &&& c.sender == config.sender
            &&& c.allow_paths.deep_view() == config.allow_paths.deep_view().push(
                manifest_root_of(manifest_dir@),
            )
            &&& c.read_write_paths == config.read_write_paths
        }),
{
    let mut config = config;
    config.allow_paths.push(manifest_root(manifest_dir));
    let sender = config.sender;
    base_runner(opts).with_cheats_config(config).sender(sender).evm_spec(EvmSpec::Shanghai)
}

/// The runner setup for the project at `project_root`, whose configuration
/// has `default_sender` as sender: cheatcodes may read and write under the
/// manifest root of `manifest_dir`, and read there too.
pub fn runner(
    project_root: &str,
    manifest_dir: &str,
    default_sender: [u8; 20],
    opts: &EvmSettings,
) -> (b: RunnerBuilder)
    ensures
        b.sender == Some(default_sender),
        b.evm_spec == Some(EvmSpec::Shanghai),
        b.cheats_config is Some,
        ({
            let c = b.cheats_config->Some_0;
            &&& c.root@ == project_root@
            &&& c.sender == default_sender
            &&& c.allow_paths.deep_view() == seq![manifest_root_of(manifest_dir@)]
            &&& c.read_write_paths.deep_view() == seq![manifest_root_of(manifest_dir@)]
        }),
{
    let mut config = RunnerConfig::with_root(project_root, default_sender);
    config.read_write_paths = vec![manifest_root(manifest_dir)];
    let b = runner_with_config(config, opts, manifest_dir);
    proof {
        let c = b.cheats_config->Some_0;
        assert(c.allow_paths.deep_view() =~= seq![manifest_root_of(manifest_dir@)]);
        assert(c.read_write_paths.deep_view() =~= seq![manifest_root_of(manifest_dir@)]);
    }
    b
}

} // verus!
