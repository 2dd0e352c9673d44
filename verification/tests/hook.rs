use takure::handlers::scores::GameScores;
use takure::sys::NodeType;
use takure::takure::{
    hooked_node, method_action, parse_ext, scores_from_property2, scores_from_property3,
    software_supported, HookAction, HookedNode, SaveFormat,
};
use takure::types::game::{
    CallStruct2, CallStruct3, PlayData3, PlayData3Data, PlayerData2, PlayerData2Data, Property2,
    Property3,
};
use takure::{attach_plan, is_tagged_release, newer_release_available, print_infos, AttachPlan};

#[test]
fn node_names() {
    assert_eq!(hooked_node("playerdata_2"), Some(HookedNode::PlayerData2));
    assert_eq!(hooked_node("playdata_3"), Some(HookedNode::PlayData3));
    assert_eq!(hooked_node("cardmng"), Some(HookedNode::CardMng));
    assert_eq!(hooked_node("eventlog"), None);
}

#[test]
fn method_actions() {
    assert_eq!(method_action(HookedNode::CardMng, "inquire"), HookAction::RecordCardId);
    assert_eq!(method_action(HookedNode::CardMng, "usergamedata_advanced"), HookAction::PassThrough);
    assert_eq!(
        method_action(HookedNode::PlayerData2, "usergamedata_advanced"),
        HookAction::SaveScores(SaveFormat::A3)
    );
    assert_eq!(
        method_action(HookedNode::PlayData3, "playerdata_save"),
        HookAction::SaveScores(SaveFormat::World)
    );
    assert_eq!(
        method_action(HookedNode::PlayerData2, "playerdata_save"),
        HookAction::SaveScores(SaveFormat::World)
    );
    assert_eq!(method_action(HookedNode::PlayData3, "inquire"), HookAction::PassThrough);
}

#[test]
fn property_filters() {
    let prop2 = |mode: &str| Property2 {
        call: CallStruct2 {
            playerdata_2: PlayerData2 {
                data: PlayerData2Data {
                    mode: mode.to_string(),
                    ref_id: "1".to_string(),
                    isgameover: false,
                    note: Vec::new(),
                },
            },
        },
    };
    assert!(matches!(scores_from_property2(prop2("usersave")), Some(GameScores::A3(_))));
    assert!(scores_from_property2(prop2("userload")).is_none());
    let prop3 = |savekind: u8| Property3 {
        call: CallStruct3 {
            playdata_3: PlayData3 {
                data: PlayData3Data { ref_id: "1".to_string(), savekind, result: Err("x".to_string()) },
            },
        },
    };
    assert!(matches!(scores_from_property3(prop3(2)), Some(GameScores::World(_))));
    assert!(scores_from_property3(prop3(1)).is_none());
}

#[test]
fn software_checks() {
    assert_eq!(parse_ext("2022022801"), 2022022801);
    assert_eq!(parse_ext("20220228xx"), 0);
    assert!(software_supported("MDX", "A", 2022022801));
    assert!(software_supported("MDX", "J", 2024010100));
    assert!(!software_supported("MDX", "A", 2022022800));
    assert!(!software_supported("MDX", "O", 2024010100));
    assert!(!software_supported("MDX", "X", 2024010100));
    assert!(!software_supported("KFC", "A", 2024010100));
}

#[test]
fn node_type_codes() {
    assert_eq!(NodeType::NodeNode.code(), 1);
    assert_eq!(NodeType::NodeStr.code(), 11);
    assert_eq!(NodeType::NodeAttr.code(), 46);
    assert_eq!(NodeType::NodeVb.code(), 56);
}

#[test]
fn startup_lines() {
    assert_eq!(print_infos("v1.2.0", "1.2.0", None), vec!["Starting Takure v1.2.0 by auxbh".to_string()]);
    assert_eq!(
        print_infos("abc1234", "1.2.0", Some("2024-01-01")),
        vec!["Starting Takure v1.2.0-abc1234 by auxbh".to_string(), "Build date: 2024-01-01".to_string()]
    );
}

#[test]
fn update_checks() {
    assert!(is_tagged_release("v1.2.0"));
    assert!(!is_tagged_release("v1.2.0-3-gabcdef"));
    assert!(newer_release_available("v1.2.0", "v1.3.0", false));
    assert!(!newer_release_available("v1.3.0", "v1.3.0", false));
    assert!(!newer_release_available("v1.2.0", "v1.3.0", true));
}

#[test]
fn attach_plans() {
    assert_eq!(
        attach_plan(false, true, true),
        AttachPlan { check_for_update: true, enable_boot_hook: true, restore_cached_info: false, self_update: false }
    );
    assert_eq!(
        attach_plan(true, false, true),
        AttachPlan { check_for_update: false, enable_boot_hook: true, restore_cached_info: false, self_update: true }
    );
    assert_eq!(
        attach_plan(true, true, true),
        AttachPlan { check_for_update: false, enable_boot_hook: false, restore_cached_info: true, self_update: false }
    );
    assert_eq!(
        attach_plan(true, false, false),
        AttachPlan { check_for_update: true, enable_boot_hook: true, restore_cached_info: false, self_update: false }
    );
}
