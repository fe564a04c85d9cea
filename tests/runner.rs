use forge_tests::runner::{base_runner, runner, runner_with_config, EvmSpec, RunnerBuilder, RunnerConfig};
use forge_tests::settings::evm_opts;

const SENDER: [u8; 20] = [7u8; 20];
const OTHER: [u8; 20] = [9u8; 20];

#[test]
fn new_builder_is_empty() {
    let b = RunnerBuilder::new();
    assert_eq!(b.sender, None);
    assert_eq!(b.evm_spec, None);
    assert!(b.cheats_config.is_none());
}

#[test]
fn base_runner_uses_evm_sender() {
    let b = base_runner(&evm_opts(SENDER));
    assert_eq!(b.sender, Some(SENDER));
    assert_eq!(b.evm_spec, None);
    assert!(b.cheats_config.is_none());
}

#[test]
fn runner_with_config_adds_manifest_root() {
    let mut config = RunnerConfig::with_root("/p", OTHER);
    config.allow_paths.push("/lib".to_string());
    let b = runner_with_config(config, &evm_opts(SENDER), "/p/forge");
    assert_eq!(b.sender, Some(OTHER));
    assert_eq!(b.evm_spec, Some(EvmSpec::Shanghai));
    let c = b.cheats_config.unwrap();
    assert_eq!(c.root, "/p");
    assert_eq!(c.sender, OTHER);
    assert_eq!(c.allow_paths, vec!["/lib".to_string(), "/p".to_string()]);
    assert!(c.read_write_paths.is_empty());
}

#[test]
fn runner_grants_manifest_root() {
    let b = runner("/work/project", "/work/project/forge_tests", SENDER, &evm_opts(SENDER));
    assert_eq!(b.sender, Some(SENDER));
    assert_eq!(b.evm_spec, Some(EvmSpec::Shanghai));
    let c = b.cheats_config.unwrap();
    assert_eq!(c.root, "/work/project");
    assert_eq!(c.allow_paths, vec!["/work/project/forge_tests".to_string()]);
    assert_eq!(c.read_write_paths, vec!["/work/project/forge_tests".to_string()]);
}

#[test]
fn builder_steps_keep_other_settings() {
    let b = RunnerBuilder::new().evm_spec(EvmSpec::Cancun).sender(SENDER);
    assert_eq!(b.evm_spec, Some(EvmSpec::Cancun));
    assert_eq!(b.sender, Some(SENDER));
    let b = b.with_cheats_config(RunnerConfig::with_root("/r", OTHER));
    assert_eq!(b.evm_spec, Some(EvmSpec::Cancun));
    assert_eq!(b.sender, Some(SENDER));
    assert_eq!(b.cheats_config.unwrap().root, "/r");
}
