use base64::Engine;
use pumpfun::common::logs::{events_in_logs, program_data, starts_with};
use pumpfun::common::stream::{
    EventError, PumpFunEvent, SetParamsEvent, SET_PARAMS_EVENT_DISCRIMINATOR,
};
use pumpfun::address::Address;

fn event() -> (SetParamsEvent, String) {
    let e = SetParamsEvent {
        fee_recipient: Address::new([3u8; 32]),
        initial_virtual_token_reserves: 1,
        initial_virtual_sol_reserves: 2,
        initial_real_token_reserves: 3,
        token_total_supply: 4,
        fee_basis_points: 5,
    };
    let mut bytes = SET_PARAMS_EVENT_DISCRIMINATOR.to_vec();
    bytes.extend(borsh::to_vec(&([3u8; 32], 1u64, 2u64, 3u64, 4u64, 5u64)).unwrap());
    (e, base64::engine::general_purpose::STANDARD.encode(bytes))
}

#[test]
fn program_data_of_a_line() {
    assert_eq!(program_data("Program data: AAAA"), Some("AAAA".to_string()));
    assert_eq!(program_data("Program data:   AAAA \n"), Some("AAAA".to_string()));
    assert_eq!(program_data("Program data:AAAA"), Some("Program data:AAAA".to_string()));
    assert_eq!(
        program_data("Program data: AAProgram data: AA"),
        Some("AAAA".to_string())
    );
    assert_eq!(program_data("Program data:"), Some("Program data:".to_string()));
    assert_eq!(program_data("Program log: AAAA"), None);
    assert_eq!(program_data(" Program data: AAAA"), None);
    assert_eq!(program_data(""), None);
}

#[test]
fn events_of_a_log() {
    let (e, data) = event();
    let logs = vec![
        "Program 6EF8rrecthR5Dkzon8Nwu78hRvfCKubJ14M5uBEwF6P invoke [1]".to_string(),
        format!("Program data: {}", data),
        "Program log: Instruction: SetParams".to_string(),
        "Program data: AAAA".to_string(),
        format!("Program data: {}  ", data),
    ];
    let results = events_in_logs("sig", &logs);
    assert_eq!(
        results,
        vec![
            Ok(PumpFunEvent::SetParams(e)),
            Err(EventError::TooShort { data: "AAAA".to_string() }),
            Ok(PumpFunEvent::SetParams(e)),
        ]
    );
    assert_eq!(events_in_logs("sig", &Vec::new()), vec![]);
    assert_eq!(events_in_logs("sig", &vec!["nothing".to_string()]), vec![]);
}

#[test]
fn prefixes() {
    assert!(starts_with("Program data: AAAA", "Program data:"));
    assert!(starts_with("Program data:", "Program data:"));
    assert!(starts_with("anything", ""));
    assert!(starts_with("", ""));
    assert!(!starts_with("Program data", "Program data:"));
    assert!(!starts_with("program data: AAAA", "Program data:"));
    assert!(!starts_with("", "P"));
    assert!(starts_with("t\u{e9}l\u{e9}gramme", "t\u{e9}l"));
    assert!(!starts_with("t\u{e9}l\u{e9}gramme", "te"));
    for (text, prefix) in [("abc", "ab"), ("abc", "abcd"), ("\u{1F40E}x", "\u{1F40E}"), ("xy", "y")] {
        assert_eq!(starts_with(text, prefix), text.starts_with(prefix));
    }
}
