use takure::endpoints::{tachi_import_url, tachi_status_url};
use takure::takure::{property_text, version_gate, GameSoftware, VersionGate};
use takure::helpers::node_str;

#[test]
fn endpoints_join_onto_base() {
    assert_eq!(tachi_status_url("https://kamai.tachi.ac/").unwrap(), "https://kamai.tachi.ac/api/v1/status");
    assert_eq!(
        tachi_import_url("https://kamai.tachi.ac/some/path").unwrap(),
        "https://kamai.tachi.ac/ir/direct-manual/import"
    );
    assert!(tachi_status_url("").is_err());
    assert!(tachi_import_url("not a url").is_err());
}

fn software(model: &str, revision: &str, ext: u64) -> GameSoftware {
    GameSoftware {
        model: model.to_string(),
        dest: "J".to_string(),
        spec: "A".to_string(),
        revision: revision.to_string(),
        ext,
    }
}

#[test]
fn version_gates() {
    assert_eq!(version_gate(&None), VersionGate::Unknown);
    assert_eq!(version_gate(&Some(software("MDX", "A", 2024010100))), VersionGate::Supported);
    assert_eq!(version_gate(&Some(software("MDX", "X", 2024010100))), VersionGate::Unsupported);
    assert_eq!(version_gate(&Some(software("MDX", "A", 2021010100))), VersionGate::Unsupported);
}

#[test]
fn property_dump_text() {
    assert_eq!(property_text(b"{\"call\":{}}"), Some("{\"call\":{}}"));
    assert_eq!(property_text(&[0xc3, 0x28]), None);
}

#[test]
fn node_str_of_ascii_field() {
    assert_eq!(node_str(0, b"MDXJ", 3), Some("MDX".to_string()));
}
