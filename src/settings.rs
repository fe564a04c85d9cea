//! The EVM environment that contracts are deployed and called in.

use vstd::prelude::*;

verus! {

/// Chain id of local development networks.
pub const DEV_CHAIN_ID: u64 = 31337;

/// Memory limit of the EVM, in bytes: 2^24.
pub const MEMORY_LIMIT: u64 = 0x100_0000;

/// Verbosity from which calls are traced.
pub const TRACE_VERBOSITY: u8 = 3;

/// The block and transaction environment.
pub struct EvmEnv {
    pub gas_limit: u64,
    pub chain_id: Option<u64>,
    pub tx_origin: [u8; 20],
    pub block_number: u64,
    pub block_timestamp: u64,
}

/// Options of the EVM: its environment, the account that deploys and calls,
/// and that account's starting balance as four little-endian 64-bit words.
pub struct EvmSettings {
    pub env: EvmEnv,
    pub sender: [u8; 20],
    pub initial_balance: [u64; 4],
    pub ffi: bool,
    pub memory_limit: u64,
    pub verbosity: u8,
}

/// The words of the largest 256-bit value, least significant first.
pub open spec fn max_words() -> Seq<u64> {
    seq![u64::MAX, u64::MAX, u64::MAX, u64::MAX]
}

/// Relies on `primitive_types::U256::MAX`, built by `uint` as
/// `U256([u64::max_value(); 4])` over its public little-endian words.
#[verifier::external_body]
fn max_balance() -> (r: [u64; 4])
    ensures
        r@ == max_words(),
{
    primitive_types::U256::MAX.0
}

/// Whether the options are the test options for `sender`: the largest gas
/// limit, the development chain, `sender` as origin and caller with the
/// largest balance, block one at time one, foreign calls allowed, memory
/// limited to 2^24 bytes, and no tracing verbosity.
pub open spec fn is_test_settings(s: EvmSettings, sender: [u8; 20]) -> bool {
    &&& s.env.gas_limit == u64::MAX
    &&& s.env.chain_id == Some(31337u64)
    &&& s.env.tx_origin == sender
    &&& s.env.block_number == 1
    &&& s.env.block_timestamp == 1
    &&& s.sender == sender
    &&& s.initial_balance@ == max_words()
    &&& s.ffi
    &&& s.memory_limit == 0x100_0000
    &&& s.verbosity == 0
}

/// The options that contracts under test run with, `sender` deploying them
/// and calling them.
pub fn evm_opts(sender: [u8; 20]) -> (s: EvmSettings)
    ensures
        is_test_settings(s, sender),
{
    EvmSettings {
        env: EvmEnv {
            gas_limit: u64::MAX,
            chain_id: Some(DEV_CHAIN_ID),
            tx_origin: sender,
            block_number: 1,
            block_timestamp: 1,
        },
        sender,
        initial_balance: max_balance(),
        ffi: true,
        memory_limit: MEMORY_LIMIT,
        verbosity: 0,
    }
}

/// Whether calls are traced at `verbosity`: from verbosity 3 up.
pub fn tracing_enabled(verbosity: u8) -> (r: bool)
    ensures
        r == (verbosity >= 3),
{
    verbosity >= TRACE_VERBOSITY
}

} // verus!
