use takure::handlers::scores::{
    admitted_card, build_import, codes_are_supported, highest_stage, is_guest_ref,
    plan_submission, GameScores, ScoreImport, SkipReason, SubmissionPlan,
};
use takure::types::game::{Note, PlayData3Data, PlayerData2Data, Result as StageResult};
use takure::types::tachi::{Difficulty, Flare, Playtype, TachiLamp};

fn note(stagenum: u8, mcode: u32) -> Note {
    Note {
        stagenum,
        mcode,
        notetype: 7,
        clearkind: 9,
        score: 990_000,
        ex_score: 1_500,
        maxcombo: 500,
        fastcount: 3,
        slowcount: 4,
        judge_marvelous: 400,
        judge_perfect: 90,
        judge_great: 10,
        judge_good: 0,
        judge_miss: 0,
        judge_ok: 20,
        playstyle: 1,
    }
}

fn a3(ref_id: &str, isgameover: bool, notes: Vec<Note>) -> GameScores {
    GameScores::A3(PlayerData2Data {
        mode: "usersave".to_string(),
        ref_id: ref_id.to_string(),
        isgameover,
        note: notes,
    })
}

fn stage_result(flare_force: i8) -> StageResult {
    StageResult {
        stagenum: 1,
        mcode: 38_000,
        difficulty: 3,
        clearkind: 6,
        score: 850_000,
        ex_score: 1_200,
        maxcombo: 321,
        fastcount: 11,
        slowcount: 12,
        judge_marv: 300,
        judge_perf: 100,
        judge_great: 20,
        judge_good: 5,
        judge_miss: 2,
        judge_ok: 15,
        style: 0,
        flare_force,
    }
}

fn world(ref_id: &str, result: Result<StageResult, String>) -> GameScores {
    GameScores::World(PlayData3Data { ref_id: ref_id.to_string(), savekind: 2, result })
}

#[test]
fn highest_stage_picks_largest_stage_number() {
    let notes = vec![note(1, 10), note(3, 30), note(0, 99), note(2, 20)];
    assert_eq!(highest_stage(&notes).map(|n| n.mcode), Some(30));
}

#[test]
fn highest_stage_prefers_last_of_equal_stages() {
    let notes = vec![note(2, 10), note(2, 20), note(1, 30)];
    assert_eq!(highest_stage(&notes).map(|n| n.mcode), Some(20));
}

#[test]
fn highest_stage_ignores_stage_zero() {
    let notes = vec![note(0, 10), note(0, 20)];
    assert_eq!(highest_stage(&notes), None);
    assert_eq!(highest_stage(&Vec::new()), None);
}

#[test]
fn guest_reference_ids() {
    assert!(is_guest_ref("X0001234"));
    assert!(is_guest_ref("X000"));
    assert!(!is_guest_ref("X00"));
    assert!(!is_guest_ref("1000X000"));
}

#[test]
fn empty_whitelist_admits_any_card() {
    let card = admitted_card(Some("E004ABCD".to_string()), &Vec::new());
    assert!(matches!(card, Ok(c) if c == "E004ABCD"));
}

#[test]
fn whitelist_rejects_other_cards() {
    let whitelist = vec!["E004AAAA".to_string()];
    assert!(matches!(admitted_card(Some("E004AAAA".to_string()), &whitelist), Ok(_)));
    assert!(matches!(
        admitted_card(Some("E004BBBB".to_string()), &whitelist),
        Err(SkipReason::CardNotWhitelisted(c)) if c == "E004BBBB"
    ));
    assert!(matches!(admitted_card(None, &whitelist), Err(SkipReason::NoCard)));
}

#[test]
fn a3_import_from_highest_note() {
    let scores = a3("1234567890", false, vec![note(1, 10), note(2, 38_123)]);
    assert!(codes_are_supported(&scores));
    match build_import(&scores, 1_700_000_000_000) {
        ScoreImport::Ready(import) => {
            assert_eq!(import.meta.game, "ddr");
            assert_eq!(import.meta.service, "Takure");
            assert_eq!(import.meta.play_type, Playtype::DP);
            assert_eq!(import.scores.len(), 1);
            let s = &import.scores[0];
            assert_eq!(s.identifier, "38123");
            assert_eq!(s.match_type, "inGameID");
            assert_eq!(s.score, 990_000);
            assert_eq!(s.lamp, TachiLamp::PerfectFullCombo);
            assert_eq!(s.difficulty, Difficulty::Expert);
            assert_eq!(s.time_achieved, 1_700_000_000_000);
            assert_eq!(s.judgements.marvelous, 400);
            assert_eq!(s.judgements.ok, 20);
            assert_eq!(s.optional.hit_meta.fast, 3);
            assert_eq!(s.optional.hit_meta.slow, 4);
            assert_eq!(s.optional.hit_meta.max_combo, 500);
            assert_eq!(s.optional.hit_meta.ex_score, 1_500);
            assert_eq!(s.optional.flare, Flare::NoFlare);
        }
        other => panic!("unexpected {:?}", other),
    }
}

#[test]
fn a3_skips() {
    assert!(matches!(
        build_import(&a3("1", true, vec![note(1, 1)]), 5),
        ScoreImport::Skipped(SkipReason::GameOver)
    ));
    assert!(matches!(
        build_import(&a3("X0001", false, vec![note(1, 1)]), 5),
        ScoreImport::Skipped(SkipReason::GuestPlay)
    ));
    assert!(matches!(
        build_import(&a3("1", false, vec![note(0, 1)]), 5),
        ScoreImport::Skipped(SkipReason::NoStagePlayed)
    ));
}

#[test]
fn world_import_with_flare() {
    let scores = world("42", Ok(stage_result(7)));
    match build_import(&scores, 99) {
        ScoreImport::Ready(import) => {
            assert_eq!(import.meta.play_type, Playtype::SP);
            let s = &import.scores[0];
            assert_eq!(s.identifier, "38000");
            assert_eq!(s.lamp, TachiLamp::Life4);
            assert_eq!(s.difficulty, Difficulty::Expert);
            assert_eq!(s.optional.flare, Flare::VII);
            assert_eq!(s.judgements.miss, 2);
            assert_eq!(s.time_achieved, 99);
        }
        other => panic!("unexpected {:?}", other),
    }
}

#[test]
fn world_negative_flare_force_is_no_flare() {
    match build_import(&world("42", Ok(stage_result(-3))), 1) {
        ScoreImport::Ready(import) => assert_eq!(import.scores[0].optional.flare, Flare::NoFlare),
        other => panic!("unexpected {:?}", other),
    }
    match build_import(&world("42", Ok(stage_result(100))), 1) {
        ScoreImport::Ready(import) => assert_eq!(import.scores[0].optional.flare, Flare::NoFlare),
        other => panic!("unexpected {:?}", other),
    }
}

#[test]
fn world_invalid_result_and_guest() {
    assert!(matches!(
        build_import(&world("42", Err("missing field `style`".to_string())), 1),
        ScoreImport::InvalidResult(m) if m == "missing field `style`"
    ));
    assert!(matches!(
        build_import(&world("X000FF", Err("bad".to_string())), 1),
        ScoreImport::Skipped(SkipReason::GuestPlay)
    ));
}

#[test]
fn plan_submits_for_admitted_card() {
    let plan = plan_submission(
        Some("CARD".to_string()),
        &vec!["CARD".to_string()],
        Some(123),
        &a3("7", false, vec![note(1, 5)]),
    );
    match plan {
        SubmissionPlan::Submit { card, import } => {
            assert_eq!(card, "CARD");
            assert_eq!(import.scores[0].identifier, "5");
            assert_eq!(import.scores[0].time_achieved, 123);
        }
        other => panic!("unexpected {:?}", other),
    }
}

#[test]
fn plan_skips_and_failures() {
    let scores = a3("7", false, vec![note(1, 5)]);
    assert!(matches!(
        plan_submission(None, &Vec::new(), Some(1), &scores),
        SubmissionPlan::Skipped(SkipReason::NoCard)
    ));
    assert!(matches!(
        plan_submission(Some("A".to_string()), &vec!["B".to_string()], Some(1), &scores),
        SubmissionPlan::Skipped(SkipReason::CardNotWhitelisted(c)) if c == "A"
    ));
    assert!(matches!(
        plan_submission(Some("A".to_string()), &Vec::new(), None, &scores),
        SubmissionPlan::ClockUnavailable
    ));
    assert!(matches!(
        plan_submission(Some("A".to_string()), &Vec::new(), Some(1), &world("1", Err("e".to_string()))),
        SubmissionPlan::InvalidResult(_)
    ));
}

#[test]
fn guest_play_never_submitted_law() {
    for clock in [None, Some(1u128)] {
        let plan = plan_submission(
            Some("A".to_string()),
            &Vec::new(),
            clock,
            &world("X000AB", Ok(stage_result(1))),
        );
        assert!(!matches!(plan, SubmissionPlan::Submit { .. }));
    }
}

#[test]
fn unsupported_codes_detected() {
    let mut bad = note(1, 5);
    bad.notetype = 9;
    assert!(!codes_are_supported(&a3("7", false, vec![bad])));
    assert!(codes_are_supported(&a3("X0007", false, vec![bad])));
    let mut r = stage_result(0);
    r.style = 3;
    assert!(!codes_are_supported(&world("1", Ok(r))));
}
