//! What is read once at start-up: the addresses of a cycle, the endpoint of
//! the network, the interval between cycles and the verbosity of the log.

use crate::address::Address;
use crate::address::AddressError;
use crate::controller::DEFAULT_INTERVAL_SECS;
use crate::cycle::CycleConfig;
use crate::programs::address_views;
use crate::programs::decode_all;
use crate::programs::lemma_decode_all_pointwise;
use crate::programs::parse_all;
use crate::programs::text_views;
use crate::programs::ProgramIds;
use crate::programs::ASSOCIATED_TOKEN_PROGRAM;
use crate::programs::MEMO_PROGRAM;
use crate::programs::SWAP_EXTRA_FIRST;
use crate::programs::SWAP_EXTRA_SECOND;
use crate::programs::SWAP_EXTRA_THIRD;
use crate::programs::SWAP_PROGRAM;
use crate::programs::SYSTEM_PROGRAM;
use crate::programs::TOKEN_2022_PROGRAM;
use crate::programs::TOKEN_PROGRAM;
use crate::swap::PoolAccounts;
use vstd::prelude::*;
use vstd::string::StringSliceAdditionalSpecFns;

verus! {

/// The endpoint of the development network.
pub const DEVNET_URL: &'static str = "https://api.devnet.solana.com";

/// The addresses of a cycle as they are configured: in base58.
#[derive(Clone, Debug, PartialEq, Eq)]
pub struct CycleTexts {
    pub tax_program: String,
    pub token_mint: String,
    pub reward_mint: String,
    pub base_vault: String,
    pub quote_vault: String,
    pub observation_state: String,
    pub pool_id: String,
    pub amm_config: String,
}

/// All texts that a configuration is read from, in the order in which they
/// are read: the mints and the tax program, the nine fixed texts, the pool.
pub open spec fn config_texts(texts: CycleTexts) -> Seq<Seq<char>> {
    seq![
        texts.token_mint@,
        texts.reward_mint@,
        texts.tax_program@,
        SWAP_PROGRAM@,
        TOKEN_PROGRAM@,
        TOKEN_2022_PROGRAM@,
        ASSOCIATED_TOKEN_PROGRAM@,
        SYSTEM_PROGRAM@,
        MEMO_PROGRAM@,
        SWAP_EXTRA_FIRST@,
        SWAP_EXTRA_SECOND@,
        SWAP_EXTRA_THIRD@,
        texts.base_vault@,
        texts.quote_vault@,
        texts.observation_state@,
        texts.pool_id@,
        texts.amm_config@,
    ]
}

/// The addresses of a configuration, in the order of [`config_texts`].
pub open spec fn config_addresses(config: CycleConfig) -> Seq<Seq<u8>> {
    seq![
        config.token_mint@,
        config.reward_mint@,
        config.tax_program@,
        config.programs.swap_program@,
        config.programs.token_program@,
        config.programs.token_2022_program@,
        config.programs.associated_token_program@,
        config.programs.system_program@,
        config.programs.memo_program@,
        config.programs.swap_extra_first@,
        config.programs.swap_extra_second@,
        config.programs.swap_extra_third@,
        config.pool.input_vault@,
        config.pool.output_vault@,
        config.pool.observation_state@,
        config.pool.pool_state@,
        config.pool.amm_config@,
    ]
}

impl CycleConfig {
    /// Reads a configuration from its texts. The base vault is the one that
    /// the swap pays into, the quote vault the one it is paid from.
    ///
    /// Fails with the error of the first text, in the order of
    /// [`config_texts`], that is not an address.
    pub fn from_texts(payer: Address, texts: &CycleTexts, slippage_percent: Option<u8>) -> (res:
        Result<CycleConfig, AddressError>)
        ensures
            match res {
                Ok(config) => {
                    &&& decode_all(config_texts(*texts)) == Ok::<Seq<Seq<u8>>, AddressError>(
                        config_addresses(config),
                    )
                    &&& config.programs.well_formed()
                    &&& config.payer == payer
                    &&& config.slippage_percent == slippage_percent
                },
                Err(e) => decode_all(config_texts(*texts)) == Err::<Seq<Seq<u8>>, AddressError>(e),
            },
    {
        let mut all: Vec<String> = Vec::new();
        all.push(texts.token_mint.clone());
        all.push(texts.reward_mint.clone());
        all.push(texts.tax_program.clone());
        all.push(SWAP_PROGRAM.to_owned());
        all.push(TOKEN_PROGRAM.to_owned());
        all.push(TOKEN_2022_PROGRAM.to_owned());
        all.push(ASSOCIATED_TOKEN_PROGRAM.to_owned());
        all.push(SYSTEM_PROGRAM.to_owned());
        all.push(MEMO_PROGRAM.to_owned());
        all.push(SWAP_EXTRA_FIRST.to_owned());
        all.push(SWAP_EXTRA_SECOND.to_owned());
        all.push(SWAP_EXTRA_THIRD.to_owned());
        all.push(texts.base_vault.clone());
        all.push(texts.quote_vault.clone());
        all.push(texts.observation_state.clone());
        all.push(texts.pool_id.clone());
        all.push(texts.amm_config.clone());
        assert(text_views(all@) =~= config_texts(*texts));
        match parse_all(&all) {
            Err(e) => Err(e),
            Ok(found) => {
                proof {
                    lemma_decode_all_pointwise(config_texts(*texts), address_views(found@));
                }
                let config = CycleConfig {
                    payer,
                    tax_program: found[2],
                    token_mint: found[0],
                    reward_mint: found[1],
                    pool: PoolAccounts {
                        pool_state: found[15],
                        amm_config: found[16],
                        input_vault: found[12],
                        output_vault: found[13],
                        observation_state: found[14],
                    },
                    programs: ProgramIds {
                        swap_program: found[3],
                        token_program: found[4],
                        token_2022_program: found[5],
                        associated_token_program: found[6],
                        system_program: found[7],
                        memo_program: found[8],
                        swap_extra_first: found[9],
                        swap_extra_second: found[10],
                        swap_extra_third: found[11],
                    },
                    slippage_percent,
                };
                assert(config_addresses(config) =~= address_views(found@));
                assert(config_texts(*texts)[3] == SWAP_PROGRAM@);
                assert(config_texts(*texts)[4] == TOKEN_PROGRAM@);
                assert(config_texts(*texts)[5] == TOKEN_2022_PROGRAM@);
                assert(config_texts(*texts)[6] == ASSOCIATED_TOKEN_PROGRAM@);
                assert(config_texts(*texts)[7] == SYSTEM_PROGRAM@);
                assert(config_texts(*texts)[8] == MEMO_PROGRAM@);
                assert(config_texts(*texts)[9] == SWAP_EXTRA_FIRST@);
                assert(config_texts(*texts)[10] == SWAP_EXTRA_SECOND@);
                assert(config_texts(*texts)[11] == SWAP_EXTRA_THIRD@);
                Ok(config)
            },
        }
    }
}

/// What `str::to_lowercase` makes of a text.
pub uninterp spec fn lowercase_of(text: Seq<char>) -> Seq<char>;

/// What `str::to_uppercase` makes of a text.
pub uninterp spec fn uppercase_of(text: Seq<char>) -> Seq<char>;

/// Calls `str::to_lowercase`; the result is the one that [`lowercase_of`]
/// names for the text.
#[verifier::external_body]
fn to_lowercase(text: &str) -> (lowered: String)
    ensures
        lowered@ == lowercase_of(text@),
{
    text.to_lowercase()
}

/// Calls `str::to_uppercase`; the result is the one that [`uppercase_of`]
/// names for the text.
#[verifier::external_body]
fn to_uppercase(text: &str) -> (raised: String)
    ensures
        raised@ == uppercase_of(text@),
{
    text.to_uppercase()
}

/// The endpoint for a network selector in lower case: the development
/// network's for `devnet`, the given main endpoint for `mainnet`, and any
/// other selector is itself the endpoint.
pub open spec fn endpoint_of(selector: Seq<char>, main_endpoint: Seq<char>) -> Seq<char> {
    if selector == "devnet"@ {
        DEVNET_URL@
    } else if selector == "mainnet"@ {
        main_endpoint
    } else {
        selector
    }
}

/// The endpoint for a network selector that is in lower case already.
pub fn endpoint_for(selector: String, main_endpoint: &str) -> (url: String)
    ensures
        url@ == endpoint_of(selector@, main_endpoint@),
{
    if selector == "devnet".to_owned() {
        DEVNET_URL.to_owned()
    } else if selector == "mainnet".to_owned() {
        main_endpoint.to_owned()
    } else {
        selector
    }
}

/// Chooses the endpoint of the network. Without a selector the main network
/// is meant; a selector counts in lower case.
pub fn rpc_url(selector: Option<&str>, main_endpoint: &str) -> (url: String)
    ensures
        url@ == endpoint_of(
            match selector {
                Some(text) => lowercase_of(text@),
                None => lowercase_of("mainnet"@),
            },
            main_endpoint@,
        ),
{
    let lowered = match selector {
        Some(text) => to_lowercase(text),
        None => to_lowercase("mainnet"),
    };
    endpoint_for(lowered, main_endpoint)
}

/// How much is logged.
#[derive(Clone, Copy, Debug, PartialEq, Eq, Structural)]
pub enum LogLevel {
    Off,
    Error,
    Warn,
    Info,
    Debug,
    Trace,
}

/// The verbosity that a text in upper case names, if it names one.
pub open spec fn level_named(raised: Seq<char>) -> Option<LogLevel> {
    if raised == "DEBUG"@ {
        Some(LogLevel::Debug)
    } else if raised == "INFO"@ {
        Some(LogLevel::Info)
    } else if raised == "WARN"@ {
        Some(LogLevel::Warn)
    } else if raised == "ERROR"@ {
        Some(LogLevel::Error)
    } else if raised == "OFF"@ {
        Some(LogLevel::Off)
    } else {
        None
    }
}

/// The verbosity chosen, and whether the configured text named one.
#[derive(Clone, Copy, Debug, PartialEq, Eq, Structural)]
pub struct LevelChoice {
    pub level: LogLevel,
    /// False where the text names no verbosity and `Info` stands in.
    pub recognized: bool,
}

/// Chooses the verbosity of the log. Without a text it is `Info`; a text
/// counts in upper case, and one that names no verbosity gives `Info` too,
/// marked as not recognized.
pub fn log_level(text: Option<&str>) -> (choice: LevelChoice)
    ensures
        choice == match level_named(
            match text {
                Some(text) => uppercase_of(text@),
                None => uppercase_of("INFO"@),
            },
        ) {
            Some(level) => LevelChoice { level, recognized: true },
            None => LevelChoice { level: LogLevel::Info, recognized: false },
        },
{
    let raised = match text {
        Some(text) => to_uppercase(text),
        None => to_uppercase("INFO"),
    };
    level_for(raised)
}

/// The verbosity that a text in upper case names; `Info`, marked as not
/// recognized, where it names none.
pub fn level_for(raised: String) -> (choice: LevelChoice)
    ensures
        choice == match level_named(raised@) {
            Some(level) => LevelChoice { level, recognized: true },
            None => LevelChoice { level: LogLevel::Info, recognized: false },
        },
{
    if raised == "DEBUG".to_owned() {
        LevelChoice { level: LogLevel::Debug, recognized: true }
    } else if raised == "INFO".to_owned() {
        LevelChoice { level: LogLevel::Info, recognized: true }
    } else if raised == "WARN".to_owned() {
        LevelChoice { level: LogLevel::Warn, recognized: true }
    } else if raised == "ERROR".to_owned() {
        LevelChoice { level: LogLevel::Error, recognized: true }
    } else if raised == "OFF".to_owned() {
        LevelChoice { level: LogLevel::Off, recognized: true }
    } else {
        LevelChoice { level: LogLevel::Info, recognized: false }
    }
}

/// The colour that a line of the given level is printed in, as the number
/// of its terminal escape: red, yellow, green, blue, and none for the rest.
pub fn level_color(level: LogLevel) -> (color: u8)
    ensures
        color == match level {
            LogLevel::Error => 31u8,
            LogLevel::Warn => 33u8,
            LogLevel::Info => 32u8,
            LogLevel::Debug => 34u8,
            _ => 0u8,
        },
{
    match level {
        LogLevel::Error => 31,
        LogLevel::Warn => 33,
        LogLevel::Info => 32,
        LogLevel::Debug => 34,
        _ => 0,
    }
}

/// The number that a run of decimal digits writes; none where some byte is
/// no digit.
pub open spec fn digits_value(digits: Seq<u8>) -> Option<nat>
    decreases digits.len(),
{
    if digits.len() == 0 {
        Some(0)
    } else {
        let last = digits.last();
        match digits_value(digits.drop_last()) {
            Some(front) => if 0x30 <= last <= 0x39 {
                Some(front * 10 + (last - 0x30) as nat)
            } else {
                None
            },
            None => None,
        }
    }
}

/// The number that a text writes in decimal: an optional plus sign, then
/// one digit or more, the whole no larger than 64 bits hold.
pub open spec fn decimal_u64(text: Seq<u8>) -> Option<u64> {
    let digits = if text.len() > 0 && text[0] == 0x2b {
        text.drop_first()
    } else {
        text
    };
    if digits.len() == 0 {
        None
    } else {
        match digits_value(digits) {
            Some(value) => if value <= u64::MAX {
                Some(value as u64)
            } else {
                None
            },
            None => None,
        }
    }
}

/// A longer run of digits writes no smaller a number, and a run with a
/// byte that is no digit writes none however it goes on.
proof fn lemma_digits_prefix(digits: Seq<u8>, upto: int)
    requires
        0 <= upto <= digits.len(),
    ensures
        digits_value(digits.take(upto)) is None ==> digits_value(digits) is None,
        digits_value(digits) is Some ==> digits_value(digits.take(upto)) is Some && digits_value(
            digits.take(upto),
        )->Some_0 <= digits_value(digits)->Some_0,
    decreases digits.len() - upto,
{
    if upto == digits.len() {
        assert(digits.take(upto) =~= digits);
    } else {
        let next = digits.take(upto + 1);
        assert(next.drop_last() =~= digits.take(upto));
        lemma_digits_prefix(digits, upto + 1);
    }
}

/// Reads a number written in decimal.
pub fn parse_decimal(text: &str) -> (res: Option<u64>)
    ensures
        res == decimal_u64(text.spec_bytes()),
{
    let bytes = text.as_bytes();
    let start: usize = if bytes.len() > 0 && bytes[0] == 0x2b {
        1
    } else {
        0
    };
    let ghost digits = bytes@.skip(start as int);
    proof {
        if start == 1 {
            assert(digits =~= bytes@.drop_first());
        } else {
            assert(digits =~= bytes@);
        }
    }
    if bytes.len() == start {
        return None;
    }
    let mut value: u64 = 0;
    let mut i: usize = start;
    assert(digits.take(0) =~= Seq::<u8>::empty());
    while i < bytes.len()
        invariant
            start <= i <= bytes.len(),
            start <= 1,
            bytes@ == text.spec_bytes(),
            digits == bytes@.skip(start as int),
            digits.len() > 0,
            decimal_u64(bytes@) == match digits_value(digits) {
                Some(value) => if value <= u64::MAX {
                    Some(value as u64)
                } else {
                    None
                },
                None => None,
            },
            digits_value(digits.take(i - start)) == Some(value as nat),
        decreases bytes.len() - i,
    {
        let byte: u8 = bytes[i];
        let ghost k = i - start;
        let ghost next = digits.take(k + 1);
        proof {
            assert(next.drop_last() =~= digits.take(k));
            assert(next.last() == byte);
            lemma_digits_prefix(digits, k + 1);
        }
        if byte < 0x30 || byte > 0x39 {
            assert(digits_value(next) is None);
            return None;
        }
        let digit: u64 = (byte - 0x30) as u64;
        assert(digits_value(next) == Some(value as nat * 10 + digit as nat));
        let scaled: u64 = match value.checked_mul(10) {
            Some(scaled) => scaled,
            None => {
                return None;
            },
        };
        value = match scaled.checked_add(digit) {
            Some(sum) => sum,
            None => {
                return None;
            },
        };
        i += 1;
    }
    assert(digits.take(i - start) =~= digits);
    Some(value)
}

/// Why the interval could not be read.
#[derive(Clone, Copy, Debug, PartialEq, Eq, Structural)]
pub enum ConfigError {
    /// The interval is not a number of seconds.
    BadInterval,
}

/// Reads the interval between cycles in seconds; an hour where none is
/// configured.
pub fn interval_secs(text: Option<&str>) -> (res: Result<u64, ConfigError>)
    ensures
        res == match text {
            None => Ok::<u64, ConfigError>(DEFAULT_INTERVAL_SECS),
            Some(text) => match decimal_u64(text.spec_bytes()) {
                Some(seconds) => Ok::<u64, ConfigError>(seconds),
                None => Err::<u64, ConfigError>(ConfigError::BadInterval),
            },
        },
{
    match text {
        None => Ok(DEFAULT_INTERVAL_SECS),
        Some(text) => match parse_decimal(text) {
            Some(seconds) => Ok(seconds),
            None => Err(ConfigError::BadInterval),
        },
    }
}

} // verus!
