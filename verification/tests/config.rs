use solana_sdk::pubkey::Pubkey;
use tax_rewards::address::{Address, AddressError};
use tax_rewards::config::{
    endpoint_for, interval_secs, level_color, level_for, log_level, parse_decimal, rpc_url,
    ConfigError, CycleTexts, LevelChoice, LogLevel, DEVNET_URL,
};
use tax_rewards::cycle::CycleConfig;
use tax_rewards::programs::ProgramIds;

fn text(seed: u8) -> String {
    Pubkey::new_from_array([seed; 32]).to_string()
}

fn texts() -> CycleTexts {
    CycleTexts {
        tax_program: text(1),
        token_mint: text(2),
        reward_mint: text(3),
        base_vault: text(4),
        quote_vault: text(5),
        observation_state: text(6),
        pool_id: text(7),
        amm_config: text(8),
    }
}

#[test]
fn a_configuration_is_read_from_its_texts() {
    let config = CycleConfig::from_texts(Address::new([9u8; 32]), &texts(), Some(25)).unwrap();
    assert_eq!(config.payer, Address::new([9u8; 32]));
    assert_eq!(config.tax_program, Address::new([1u8; 32]));
    assert_eq!(config.token_mint, Address::new([2u8; 32]));
    assert_eq!(config.reward_mint, Address::new([3u8; 32]));
    assert_eq!(config.pool.input_vault, Address::new([4u8; 32]));
    assert_eq!(config.pool.output_vault, Address::new([5u8; 32]));
    assert_eq!(config.pool.observation_state, Address::new([6u8; 32]));
    assert_eq!(config.pool.pool_state, Address::new([7u8; 32]));
    assert_eq!(config.pool.amm_config, Address::new([8u8; 32]));
    assert_eq!(config.programs, ProgramIds::resolve().unwrap());
    assert_eq!(config.slippage_percent, Some(25));
}

#[test]
fn the_first_text_that_is_no_address_decides_the_error() {
    let mut bad = texts();
    bad.amm_config = "0".to_string();
    bad.reward_mint = "abc".to_string();
    assert_eq!(
        CycleConfig::from_texts(Address::new([9u8; 32]), &bad, None).unwrap_err(),
        AddressError::WrongSize
    );
    bad.reward_mint = text(3);
    assert_eq!(
        CycleConfig::from_texts(Address::new([9u8; 32]), &bad, None).unwrap_err(),
        AddressError::Invalid
    );
}

#[test]
fn the_endpoint_follows_the_selector() {
    assert_eq!(rpc_url(Some("devnet"), "https://main.example"), DEVNET_URL);
    assert_eq!(rpc_url(Some("DevNet"), "https://main.example"), "https://api.devnet.solana.com");
    assert_eq!(rpc_url(Some("MAINNET"), "https://main.example"), "https://main.example");
    assert_eq!(rpc_url(None, "https://main.example"), "https://main.example");
    assert_eq!(rpc_url(Some("http://Localhost:8899"), "https://main.example"), "http://localhost:8899");
}

#[test]
fn a_selector_in_lower_case_chooses_the_endpoint() {
    assert_eq!(endpoint_for("devnet".to_string(), "m"), DEVNET_URL);
    assert_eq!(endpoint_for("mainnet".to_string(), "m"), "m");
    assert_eq!(endpoint_for("Devnet".to_string(), "m"), "Devnet");
    assert_eq!(endpoint_for("".to_string(), "m"), "");
}

#[test]
fn a_text_in_upper_case_names_the_verbosity() {
    assert_eq!(level_for("OFF".to_string()), LevelChoice { level: LogLevel::Off, recognized: true });
    assert_eq!(level_for("off".to_string()), LevelChoice { level: LogLevel::Info, recognized: false });
    assert_eq!(level_for("TRACE".to_string()), LevelChoice { level: LogLevel::Info, recognized: false });
}

#[test]
fn the_verbosity_follows_its_text() {
    assert_eq!(log_level(None), LevelChoice { level: LogLevel::Info, recognized: true });
    assert_eq!(log_level(Some("debug")), LevelChoice { level: LogLevel::Debug, recognized: true });
    assert_eq!(log_level(Some("Info")), LevelChoice { level: LogLevel::Info, recognized: true });
    assert_eq!(log_level(Some("WARN")), LevelChoice { level: LogLevel::Warn, recognized: true });
    assert_eq!(log_level(Some("error")), LevelChoice { level: LogLevel::Error, recognized: true });
    assert_eq!(log_level(Some("off")), LevelChoice { level: LogLevel::Off, recognized: true });
    assert_eq!(log_level(Some("trace")), LevelChoice { level: LogLevel::Info, recognized: false });
    assert_eq!(log_level(Some("")), LevelChoice { level: LogLevel::Info, recognized: false });
}

#[test]
fn every_level_has_its_colour() {
    assert_eq!(level_color(LogLevel::Error), 31);
    assert_eq!(level_color(LogLevel::Warn), 33);
    assert_eq!(level_color(LogLevel::Info), 32);
    assert_eq!(level_color(LogLevel::Debug), 34);
    assert_eq!(level_color(LogLevel::Trace), 0);
    assert_eq!(level_color(LogLevel::Off), 0);
}

#[test]
fn decimals_are_read_as_the_standard_library_reads_them() {
    for text in [
        "0", "7", "3600", "+5", "007", "18446744073709551615", "18446744073709551616", "", "+",
        "-1", " 1", "1 ", "1_000", "12a", "++1", "99999999999999999999999", "٣",
        "+18446744073709551615", "0000000000000000000000001",
    ] {
        assert_eq!(parse_decimal(text), text.parse::<u64>().ok(), "for {:?}", text);
    }
    assert_eq!(parse_decimal("3600"), Some(3600));
    assert_eq!(parse_decimal("18446744073709551615"), Some(u64::MAX));
    assert_eq!(parse_decimal("18446744073709551616"), None);
}

#[test]
fn the_interval_defaults_to_an_hour() {
    assert_eq!(interval_secs(None), Ok(3600));
    assert_eq!(interval_secs(Some("60")), Ok(60));
    assert_eq!(interval_secs(Some("0")), Ok(0));
    assert_eq!(interval_secs(Some("soon")), Err(ConfigError::BadInterval));
    assert_eq!(interval_secs(Some("")), Err(ConfigError::BadInterval));
}
