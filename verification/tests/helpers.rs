use takure::configuration::{default_timeout, default_true, Configuration, GeneralConfiguration};
use takure::helpers::{
    authorization_header, get_current_card_id, module_file_name_step, node_str, request_timeout,
    wide_text, ModuleNameStep, ReadStringFnError, ERROR_INSUFFICIENT_BUFFER,
};
use takure::takure::CardRegistry;

fn general(timeout: u64) -> GeneralConfiguration {
    GeneralConfiguration { enable: true, timeout, auto_update: true }
}

#[test]
fn timeout_is_capped_at_ten_seconds() {
    assert_eq!(request_timeout(&general(3000)), 3000);
    assert_eq!(request_timeout(&general(10000)), 10000);
    assert_eq!(request_timeout(&general(60000)), 10000);
}

#[test]
fn configuration_defaults() {
    assert!(default_true());
    assert_eq!(default_timeout(), 3000);
    let c = Configuration::default();
    assert!(!c.general.enable);
    assert_eq!(c.general.timeout, 0);
    assert!(c.cards.whitelist.is_empty());
    assert_eq!(c.tachi.base_url, "");
}

#[test]
fn bearer_header() {
    assert_eq!(authorization_header("abc123"), "Bearer abc123");
}

#[test]
fn node_str_reads_prefix() {
    let mut buffer = [0u8; 32];
    buffer[..10].copy_from_slice(b"2022022801");
    assert_eq!(node_str(0, &buffer, 10), Some("2022022801".to_string()));
    assert_eq!(node_str(0, &buffer, 3), Some("202".to_string()));
    assert_eq!(node_str(-1, &buffer, 3), None);
    let invalid = [b'M', 0xff, b'X'];
    assert_eq!(node_str(3, &invalid, 3), Some("M\u{fffd}X".to_string()));
}

#[test]
fn wide_text_decodes_until_nul() {
    let units: Vec<u16> = "C:\\game\\takure.dll".encode_utf16().chain([0, 65]).collect();
    assert_eq!(wide_text(&units, units.len()), Ok("C:\\game\\takure.dll".to_string()));
    assert_eq!(wide_text(&units, 2), Ok("C:".to_string()));
    assert_eq!(wide_text(&[0xD800, 0x41], 2), Err(ReadStringFnError::InvalidData));
    assert_eq!(wide_text(&[0xD83D, 0xDE00], 2), Ok("\u{1F600}".to_string()));
}

#[test]
fn module_name_steps() {
    let units: Vec<u16> = "abc".encode_utf16().collect();
    assert!(matches!(module_file_name_step(3, 0, &units), ModuleNameStep::Done(Ok(s)) if s == "abc"));
    assert!(matches!(
        module_file_name_step(0, 5, &units),
        ModuleNameStep::Done(Err(ReadStringFnError::Other { errno: 5 }))
    ));
    assert!(matches!(
        module_file_name_step(3, ERROR_INSUFFICIENT_BUFFER, &units),
        ModuleNameStep::Retry(6)
    ));
    assert!(matches!(
        module_file_name_step(1, 0, &[0xDC00]),
        ModuleNameStep::Done(Err(ReadStringFnError::InvalidData))
    ));
}

#[test]
fn card_read_after_write() {
    let mut registry = CardRegistry::new();
    assert_eq!(get_current_card_id(&registry), None);
    registry.set_current_card_id("E004010000000001".to_string());
    assert_eq!(get_current_card_id(&registry), Some("E004010000000001".to_string()));
    registry.set_current_card_id("E004010000000002".to_string());
    assert_eq!(get_current_card_id(&registry), Some("E004010000000002".to_string()));
}
