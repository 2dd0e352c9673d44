//! From a save request to the Tachi import that is submitted for it.
use vstd::prelude::*;
use crate::text::{decimal, decimal_string};
use crate::types::game::{Note, PlayData3Data, PlayerData2Data, Result as StageResult};
use crate::types::tachi::{
    Difficulty, Flare, HitMeta, Import, ImportMeta, ImportMetaView, ImportScore,
    ImportScoreView, ImportView, Judgements, Optional, Playtype, TachiLamp,
};

verus! {

/// Scores of one save request: DDR A3 or DDR WORLD.
#[derive(Debug, Clone)]
pub enum GameScores {
    A3(PlayerData2Data),
    World(PlayData3Data),
}

/// Why no score is submitted for a save.
#[derive(Debug, Clone)]
pub enum SkipReason {
    /// No card has been inserted.
    NoCard,
    /// The whitelist is not empty and does not hold this card.
    CardNotWhitelisted(String),
    /// DDR A3 reports the game as over.
    GameOver,
    /// A guest (reference id starting with `X000`) played.
    GuestPlay,
    /// No note of the DDR A3 save has a stage number.
    NoStagePlayed,
}

/// What a save makes of its scores once a time is known.
#[derive(Debug, Clone)]
pub enum ScoreImport {
    Skipped(SkipReason),
    /// The DDR WORLD result did not read as a stage result; the message says why.
    InvalidResult(String),
    Ready(Import),
}

/// What the hook does with a save.
#[derive(Debug, Clone)]
pub enum SubmissionPlan {
    Skipped(SkipReason),
    /// The system clock is set before the Unix epoch.
    ClockUnavailable,
    /// The DDR WORLD result did not read as a stage result; the message says why.
    InvalidResult(String),
    /// Submit `import` for `card`.
    Submit { card: String, import: Import },
}

pub enum SkipReasonView {
    NoCard,
    CardNotWhitelisted(Seq<char>),
    GameOver,
    GuestPlay,
    NoStagePlayed,
}

pub enum ScoreImportView {
    Skipped(SkipReasonView),
    InvalidResult(Seq<char>),
    Ready(ImportView),
}

pub enum SubmissionPlanView {
    Skipped(SkipReasonView),
    ClockUnavailable,
    InvalidResult(Seq<char>),
    Submit(Seq<char>, ImportView),
}

impl View for SkipReason {
    type V = SkipReasonView;

    open spec fn view(&self) -> SkipReasonView {
        match self {
            SkipReason::NoCard => SkipReasonView::NoCard,
            SkipReason::CardNotWhitelisted(c) => SkipReasonView::CardNotWhitelisted(c@),
            SkipReason::GameOver => SkipReasonView::GameOver,
            SkipReason::GuestPlay => SkipReasonView::GuestPlay,
            SkipReason::NoStagePlayed => SkipReasonView::NoStagePlayed,
        }
    }
}

impl View for ScoreImport {
    type V = ScoreImportView;

    open spec fn view(&self) -> ScoreImportView {
        match self {
            ScoreImport::Skipped(r) => ScoreImportView::Skipped(r@),
            ScoreImport::InvalidResult(m) => ScoreImportView::InvalidResult(m@),
            ScoreImport::Ready(i) => ScoreImportView::Ready(i@),
        }
    }
}

impl View for SubmissionPlan {
    type V = SubmissionPlanView;

    open spec fn view(&self) -> SubmissionPlanView {
        match self {
            SubmissionPlan::Skipped(r) => SubmissionPlanView::Skipped(r@),
            SubmissionPlan::ClockUnavailable => SubmissionPlanView::ClockUnavailable,
            SubmissionPlan::InvalidResult(m) => SubmissionPlanView::InvalidResult(m@),
            SubmissionPlan::Submit { card, import } => SubmissionPlanView::Submit(card@, import@),
        }
    }
}

/// A guest's reference id starts with `X000`.
pub open spec fn is_guest(ref_id: Seq<char>) -> bool {
    &&& ref_id.len() >= 4
    &&& ref_id[0] == 'X'
    &&& ref_id[1] == '0'
    &&& ref_id[2] == '0'
    &&& ref_id[3] == '0'
}

/// The texts of a whitelist.
pub open spec fn texts(list: Seq<String>) -> Seq<Seq<char>> {
    list.map_values(|s: String| s@)
}

/// An empty whitelist admits every card; otherwise the card must be on it.
pub open spec fn card_admitted(whitelist: Seq<Seq<char>>, card: Seq<char>) -> bool {
    whitelist.len() == 0 || whitelist.contains(card)
}

/// Some note has a stage number.
pub open spec fn has_stage(notes: Seq<Note>) -> bool {
    exists|j: int| 0 <= j < notes.len() && notes[j].stagenum != 0
}

/// Note `i` is the one chosen for submission: it has the highest stage
/// number, and no later note with a stage number equals it.
pub open spec fn is_highest_stage(notes: Seq<Note>, i: int) -> bool {
    &&& 0 <= i < notes.len()
    &&& notes[i].stagenum != 0
    &&& forall|j: int|
        0 <= j < notes.len() && notes[j].stagenum != 0 ==> notes[j].stagenum <= notes[i].stagenum
    &&& forall|j: int|
        i < j < notes.len() && notes[j].stagenum != 0 ==> notes[j].stagenum < notes[i].stagenum
}

/// The note chosen for submission, where `has_stage` holds.
pub open spec fn highest_stage_of(notes: Seq<Note>) -> Note {
    notes[choose|i: int| is_highest_stage(notes, i)]
}

/// Flare of a DDR WORLD flare force: none unless it is positive.
pub open spec fn flare_of(force: i8) -> Flare {
    if force <= 0 {
        Flare::NoFlare
    } else {
        Flare::from_code(force as u8)
    }
}

/// The import score made of a DDR A3 note at time `t`.
pub open spec fn score_of_note(n: Note, t: u128) -> ImportScoreView {
    ImportScoreView {
        score: n.score,
        lamp: TachiLamp::from_code(n.clearkind),
        match_type: "inGameID"@,
        identifier: decimal(n.mcode as nat),
        difficulty: Difficulty::from_code(n.notetype),
        time_achieved: t,
        judgements: Judgements {
            marvelous: n.judge_marvelous,
            perfect: n.judge_perfect,
            great: n.judge_great,
            good: n.judge_good,
            miss: n.judge_miss,
            ok: n.judge_ok,
        },
        optional: Optional {
            hit_meta: HitMeta {
                fast: n.fastcount,
                slow: n.slowcount,
                max_combo: n.maxcombo,
                ex_score: n.ex_score,
            },
            flare: Flare::NoFlare,
        },
    }
}

/// The import score made of a DDR WORLD result at time `t`.
pub open spec fn score_of_result(r: StageResult, t: u128) -> ImportScoreView {
    ImportScoreView {
        score: r.score,
        lamp: TachiLamp::from_code(r.clearkind),
        match_type: "inGameID"@,
        identifier: decimal(r.mcode as nat),
        difficulty: Difficulty::from_code(r.difficulty),
        time_achieved: t,
        judgements: Judgements {
            marvelous: r.judge_marv,
            perfect: r.judge_perf,
            great: r.judge_great,
            good: r.judge_good,
            miss: r.judge_miss,
            ok: r.judge_ok,
        },
        optional: Optional {
            hit_meta: HitMeta {
                fast: r.fastcount,
                slow: r.slowcount,
                max_combo: r.maxcombo,
                ex_score: r.ex_score,
            },
            flare: flare_of(r.flare_force),
        },
    }
}

/// A DDR import with a single score.
pub open spec fn single_import(play_type: Playtype, score: ImportScoreView) -> ImportView {
    ImportView {
        meta: ImportMetaView { game: "ddr"@, play_type: play_type, service: "Takure"@ },
        scores: seq![score],
    }
}

/// What a save makes of its scores at time `t`.
pub open spec fn score_import(scores: GameScores, t: u128) -> ScoreImportView {
    match scores {
        GameScores::A3(d) => {
            if d.isgameover {
                ScoreImportView::Skipped(SkipReasonView::GameOver)
            } else if is_guest(d.ref_id@) {
                ScoreImportView::Skipped(SkipReasonView::GuestPlay)
            } else if !has_stage(d.note@) {
                ScoreImportView::Skipped(SkipReasonView::NoStagePlayed)
            } else {
                let n = highest_stage_of(d.note@);
                ScoreImportView::Ready(
                    single_import(Playtype::from_code(n.playstyle), score_of_note(n, t)),
                )
            }
        },
        GameScores::World(d) => {
            if is_guest(d.ref_id@) {
                ScoreImportView::Skipped(SkipReasonView::GuestPlay)
            } else {
                match d.result {
                    Err(message) => ScoreImportView::InvalidResult(message@),
                    Ok(r) => ScoreImportView::Ready(
                        single_import(Playtype::from_code(r.style), score_of_result(r, t)),
                    ),
                }
            }
        },
    }
}

/// What the hook does with a save, given the inserted card, the whitelist
/// and the clock reading in milliseconds since the Unix epoch.
pub open spec fn submission_plan(
    card: Option<Seq<char>>,
    whitelist: Seq<Seq<char>>,
    clock: Option<u128>,
    scores: GameScores,
) -> SubmissionPlanView {
    match card {
        None => SubmissionPlanView::Skipped(SkipReasonView::NoCard),
        Some(c) => {
            if !card_admitted(whitelist, c) {
                SubmissionPlanView::Skipped(SkipReasonView::CardNotWhitelisted(c))
            } else {
                match clock {
                    None => SubmissionPlanView::ClockUnavailable,
                    Some(t) => match score_import(scores, t) {
                        ScoreImportView::Skipped(r) => SubmissionPlanView::Skipped(r),
                        ScoreImportView::InvalidResult(m) => SubmissionPlanView::InvalidResult(m),
                        ScoreImportView::Ready(i) => SubmissionPlanView::Submit(c, i),
                    },
                }
            }
        },
    }
}

/// The chart and style codes of the stage that would be submitted are game
/// codes (chart at most 8, style at most 2).
pub open spec fn codes_supported(scores: GameScores) -> bool {
    match scores {
        GameScores::A3(d) => (!d.isgameover && !is_guest(d.ref_id@) && has_stage(d.note@)) ==> {
            let n = highest_stage_of(d.note@);
            n.notetype <= 8 && n.playstyle <= 2
        },
        GameScores::World(d) => (!is_guest(d.ref_id@)) ==> match d.result {
            Ok(r) => r.difficulty <= 8 && r.style <= 2,
            Err(_) => true,
        },
    }
}

pub open spec fn card_text(card: Option<String>) -> Option<Seq<char>> {
    match card {
        Some(c) => Some(c@),
        None => None,
    }
}

/// Whether a reference id is a guest's.
pub fn is_guest_ref(ref_id: &str) -> (res: bool)
    ensures
        res == is_guest(ref_id@),
{
    let n = ref_id.unicode_len();
    n >= 4 && ref_id.get_char(0) == 'X' && ref_id.get_char(1) == '0' && ref_id.get_char(2) == '0'
        && ref_id.get_char(3) == '0'
}

fn whitelist_contains(whitelist: &Vec<String>, card: &String) -> (res: bool)
    ensures
        res == texts(whitelist@).contains(card@),
{
    let n = whitelist.len();
    let mut i: usize = 0;
    while i < n
        invariant
            n == whitelist@.len(),
            i <= n,
            forall|j: int| 0 <= j < i ==> whitelist@[j]@ != card@,
        decreases n - i,
    {
        if whitelist[i] == *card {
            assert(texts(whitelist@)[i as int] == card@);
            return true;
        }
        i = i + 1;
    }
    assert forall|j: int| 0 <= j < texts(whitelist@).len() implies texts(whitelist@)[j] != card@ by {
        assert(texts(whitelist@)[j] == whitelist@[j]@);
    }
    false
}

/// The card to submit for, or why there is none: no card inserted, or a
/// non-empty whitelist without it.
pub fn admitted_card(card: Option<String>, whitelist: &Vec<String>) -> (res: core::result::Result<String, SkipReason>)
    ensures
        match card {
            None => res matches Err(SkipReason::NoCard),
            Some(c) => if card_admitted(texts(whitelist@), c@) {
                res matches Ok(d) && d@ == c@
            } else {
                res matches Err(SkipReason::CardNotWhitelisted(d)) && d@ == c@
            },
        },
{
    match card {
        None => Err(SkipReason::NoCard),
        Some(c) => {
            if whitelist.len() != 0 && !whitelist_contains(whitelist, &c) {
                Err(SkipReason::CardNotWhitelisted(c))
            } else {
                Ok(c)
            }
        },
    }
}

/// At most one note is the highest stage.
pub proof fn highest_stage_unique(notes: Seq<Note>, i: int, k: int)
    requires
        is_highest_stage(notes, i),
        is_highest_stage(notes, k),
    ensures
        i == k,
{
    if i < k {
        assert(notes[k].stagenum < notes[i].stagenum);
        assert(notes[i].stagenum <= notes[k].stagenum);
    } else if k < i {
        assert(notes[i].stagenum < notes[k].stagenum);
        assert(notes[k].stagenum <= notes[i].stagenum);
    }
}

fn highest_stage_index(notes: &Vec<Note>) -> (res: Option<usize>)
    ensures
        match res {
            Some(i) => is_highest_stage(notes@, i as int),
            None => !has_stage(notes@),
        },
{
    let n = notes.len();
    let mut best: Option<usize> = None;
    let mut i: usize = 0;
    while i < n
        invariant
            n == notes@.len(),
            i <= n,
            match best {
                Some(b) => {
                    &&& b < i
                    &&& notes@[b as int].stagenum != 0
                    &&& forall|j: int| 0 <= j < i && notes@[j].stagenum != 0
                        ==> notes@[j].stagenum <= notes@[b as int].stagenum
                    &&& forall|j: int| b < j < i && notes@[j].stagenum != 0
                        ==> notes@[j].stagenum < notes@[b as int].stagenum
                },
                None => forall|j: int| 0 <= j < i ==> notes@[j].stagenum == 0,
            },
        decreases n - i,
    {
        let stage = notes[i].stagenum;
        if stage != 0 {
            match best {
                None => {
                    best = Some(i);
                },
                Some(b) => {
                    if stage >= notes[b].stagenum {
                        best = Some(i);
                    }
                },
            }
        }
        i = i + 1;
    }
    best
}

/// The note of a DDR A3 save that is submitted: the one with the highest
/// stage number, the last of them where several share it; none where no
/// note has a stage number.
pub fn highest_stage(notes: &Vec<Note>) -> (res: Option<Note>)
    ensures
        res is Some <==> has_stage(notes@),
        res matches Some(n) ==> n == highest_stage_of(notes@),
{
    match highest_stage_index(notes) {
        Some(i) => {
            proof {
                let k = choose|k: int| is_highest_stage(notes@, k);
                highest_stage_unique(notes@, i as int, k);
            }
            Some(notes[i])
        },
        None => None,
    }
}

fn single_score_import(play_type: Playtype, score: ImportScore) -> (res: Import)
    ensures
        res@ == single_import(play_type, score@),
{
    let import = Import {
        meta: ImportMeta {
            game: String::from_str("ddr"),
            play_type: play_type,
            service: String::from_str("Takure"),
        },
        scores: vec![score],
    };
    assert(import.scores@.map_values(|s: ImportScore| s@) =~= seq![score@]);
    import
}

fn score_from_note(n: &Note, t: u128) -> (res: ImportScore)
    requires
        n.notetype <= 8,
    ensures
        res@ == score_of_note(*n, t),
{
    ImportScore {
        score: n.score,
        lamp: TachiLamp::from(n.clearkind),
        match_type: String::from_str("inGameID"),
        identifier: decimal_string(n.mcode),
        difficulty: Difficulty::from(n.notetype),
        time_achieved: t,
        judgements: Judgements {
            marvelous: n.judge_marvelous,
            perfect: n.judge_perfect,
            great: n.judge_great,
            good: n.judge_good,
            miss: n.judge_miss,
            ok: n.judge_ok,
        },
        optional: Optional {
            hit_meta: HitMeta {
                fast: n.fastcount,
                slow: n.slowcount,
                max_combo: n.maxcombo,
                ex_score: n.ex_score,
            },
            flare: Flare::NoFlare,
        },
    }
}

fn flare_from_force(force: i8) -> (res: Flare)
    ensures
        res == flare_of(force),
{
    if force <= 0 {
        Flare::NoFlare
    } else {
        Flare::from(force as u8)
    }
}

fn score_from_result(r: &StageResult, t: u128) -> (res: ImportScore)
    requires
        r.difficulty <= 8,
    ensures
        res@ == score_of_result(*r, t),
{
    ImportScore {
        score: r.score,
        lamp: TachiLamp::from(r.clearkind),
        match_type: String::from_str("inGameID"),
        identifier: decimal_string(r.mcode),
        difficulty: Difficulty::from(r.difficulty),
        time_achieved: t,
        judgements: Judgements {
            marvelous: r.judge_marv,
            perfect: r.judge_perf,
            great: r.judge_great,
            good: r.judge_good,
            miss: r.judge_miss,
            ok: r.judge_ok,
        },
        optional: Optional {
            hit_meta: HitMeta {
                fast: r.fastcount,
                slow: r.slowcount,
                max_combo: r.maxcombo,
                ex_score: r.ex_score,
            },
            flare: flare_from_force(r.flare_force),
        },
    }
}

/// Whether the chart and style codes of the stage that would be submitted
/// are game codes; where they are not, the import cannot be built.
pub fn codes_are_supported(scores: &GameScores) -> (res: bool)
    ensures
        res == codes_supported(*scores),
{
    match scores {
        GameScores::A3(d) => {
            if d.isgameover || is_guest_ref(d.ref_id.as_str()) {
                true
            } else {
                match highest_stage(&d.note) {
                    Some(n) => n.notetype <= 8 && n.playstyle <= 2,
                    None => true,
                }
            }
        },
        GameScores::World(d) => {
            if is_guest_ref(d.ref_id.as_str()) {
                true
            } else {
                match &d.result {
                    Ok(r) => r.difficulty <= 8 && r.style <= 2,
                    Err(_) => true,
                }
            }
        },
    }
}

/// What a save makes of its scores at time `time_achieved`.
pub fn build_import(scores: &GameScores, time_achieved: u128) -> (res: ScoreImport)
    requires
        codes_supported(*scores),
    ensures
        res@ == score_import(*scores, time_achieved),
{
    match scores {
        GameScores::A3(d) => {
            if d.isgameover {
                return ScoreImport::Skipped(SkipReason::GameOver);
            }
            if is_guest_ref(d.ref_id.as_str()) {
                return ScoreImport::Skipped(SkipReason::GuestPlay);
            }
            match highest_stage(&d.note) {
                Some(n) => {
                    let score = score_from_note(&n, time_achieved);
                    ScoreImport::Ready(single_score_import(Playtype::from(n.playstyle), score))
                },
                None => ScoreImport::Skipped(SkipReason::NoStagePlayed),
            }
        },
        GameScores::World(d) => {
            if is_guest_ref(d.ref_id.as_str()) {
                return ScoreImport::Skipped(SkipReason::GuestPlay);
            }
            match &d.result {
                Err(message) => ScoreImport::InvalidResult(message.clone()),
                Ok(r) => {
                    let score = score_from_result(r, time_achieved);
                    ScoreImport::Ready(single_score_import(Playtype::from(r.style), score))
                },
            }
        },
    }
}

/// What the hook does with a save, given the inserted card, the whitelist
/// and the clock reading in milliseconds since the Unix epoch (`None` where
/// the clock is set before it).
pub fn plan_submission(
    card: Option<String>,
    whitelist: &Vec<String>,
    clock: Option<u128>,
    scores: &GameScores,
) -> (res: SubmissionPlan)
    requires
        (card matches Some(c) && card_admitted(texts(whitelist@), c@) && clock is Some)
            ==> codes_supported(*scores),
    ensures
        res@ == submission_plan(card_text(card), texts(whitelist@), clock, *scores),
{
    let card = match admitted_card(card, whitelist) {
        Ok(c) => c,
        Err(reason) => {
            return SubmissionPlan::Skipped(reason);
        },
    };
    let time_achieved = match clock {
        Some(t) => t,
        None => {
            return SubmissionPlan::ClockUnavailable;
        },
    };
    match build_import(scores, time_achieved) {
        ScoreImport::Skipped(reason) => SubmissionPlan::Skipped(reason),
        ScoreImport::InvalidResult(message) => SubmissionPlan::InvalidResult(message),
        ScoreImport::Ready(import) => SubmissionPlan::Submit { card, import },
    }
}


/// Reference id of the player of a save.
pub open spec fn ref_id_of(scores: GameScores) -> Seq<char> {
    match scores {
        GameScores::A3(d) => d.ref_id@,
        GameScores::World(d) => d.ref_id@,
    }
}

/// A guest's play is never submitted, whatever the card, whitelist and clock.
pub proof fn guest_plays_are_never_submitted(
    card: Option<Seq<char>>,
    whitelist: Seq<Seq<char>>,
    clock: Option<u128>,
    scores: GameScores,
)
    requires
        is_guest(ref_id_of(scores)),
    ensures
        !(submission_plan(card, whitelist, clock, scores) is Submit),
{
}

/// A DDR A3 save that reports the game as over is never submitted.
pub proof fn finished_games_are_never_submitted(
    card: Option<Seq<char>>,
    whitelist: Seq<Seq<char>>,
    clock: Option<u128>,
    d: PlayerData2Data,
)
    requires
        d.isgameover,
    ensures
        !(submission_plan(card, whitelist, clock, GameScores::A3(d)) is Submit),
{
}

/// With a non-empty whitelist, a card that is not on it is skipped, whatever
/// was played.
pub proof fn unlisted_cards_are_skipped(
    card: Seq<char>,
    whitelist: Seq<Seq<char>>,
    clock: Option<u128>,
    scores: GameScores,
)
    requires
        whitelist.len() > 0,
        !whitelist.contains(card),
    ensures
        submission_plan(Some(card), whitelist, clock, scores)
            == SubmissionPlanView::Skipped(SkipReasonView::CardNotWhitelisted(card)),
{
}

/// Every submission is made for the inserted card and carries exactly one
/// DDR score, matched by in-game id and stamped with the clock reading.
pub proof fn submissions_carry_one_score(
    card: Option<Seq<char>>,
    whitelist: Seq<Seq<char>>,
    clock: Option<u128>,
    scores: GameScores,
)
    requires
        submission_plan(card, whitelist, clock, scores) is Submit,
    ensures
        submission_plan(card, whitelist, clock, scores) matches SubmissionPlanView::Submit(c, i) && {
            &&& card == Some(c)
            &&& card_admitted(whitelist, c)
            &&& clock is Some
            &&& i.scores.len() == 1
            &&& i.meta.game == "ddr"@
            &&& i.meta.service == "Takure"@
            &&& i.scores[0].match_type == "inGameID"@
            &&& i.scores[0].time_achieved == clock->0
        },
{
}

/// A DDR WORLD score carries a flare exactly when its flare force is a rank
/// from 1 to 10.
pub proof fn flare_sent_only_for_ranks(force: i8)
    ensures
        (flare_of(force) != Flare::NoFlare) <==> (1 <= force && force <= 10),
{
}


/// A submitted DDR A3 save carries the chosen note's data unchanged: score,
/// chart identifier (the decimal song code), every judgement count under its
/// own name, fast/slow counts, max combo, EX score, and no flare.
pub proof fn a3_submission_copies_the_note(
    card: Option<Seq<char>>,
    whitelist: Seq<Seq<char>>,
    clock: Option<u128>,
    d: PlayerData2Data,
)
    requires
        submission_plan(card, whitelist, clock, GameScores::A3(d)) is Submit,
    ensures
        has_stage(d.note@),
        submission_plan(card, whitelist, clock, GameScores::A3(d)) matches SubmissionPlanView::Submit(c, i) && {
            let n = highest_stage_of(d.note@);
            let s = i.scores[0];
            &&& s.score == n.score
            &&& s.identifier == decimal(n.mcode as nat)
            &&& s.time_achieved == clock->0
            &&& s.judgements.marvelous == n.judge_marvelous
            &&& s.judgements.perfect == n.judge_perfect
            &&& s.judgements.great == n.judge_great
            &&& s.judgements.good == n.judge_good
            &&& s.judgements.miss == n.judge_miss
            &&& s.judgements.ok == n.judge_ok
            &&& s.optional.hit_meta.fast == n.fastcount
            &&& s.optional.hit_meta.slow == n.slowcount
            &&& s.optional.hit_meta.max_combo == n.maxcombo
            &&& s.optional.hit_meta.ex_score == n.ex_score
            &&& s.optional.flare == Flare::NoFlare
            &&& s.lamp == TachiLamp::from_code(n.clearkind)
            &&& s.difficulty == Difficulty::from_code(n.notetype)
            &&& i.meta.play_type == Playtype::from_code(n.playstyle)
        },
{
}

/// A submitted DDR WORLD save carries its stage result unchanged: score,
/// chart identifier (the decimal song code), every judgement count under its
/// own name, fast/slow counts, max combo, EX score, and the flare of a
/// positive flare force (none otherwise).
pub proof fn world_submission_copies_the_result(
    card: Option<Seq<char>>,
    whitelist: Seq<Seq<char>>,
    clock: Option<u128>,
    d: PlayData3Data,
)
    requires
        submission_plan(card, whitelist, clock, GameScores::World(d)) is Submit,
    ensures
        d.result is Ok,
        submission_plan(card, whitelist, clock, GameScores::World(d)) matches SubmissionPlanView::Submit(c, i) && {
            let r = d.result->Ok_0;
            let s = i.scores[0];
            &&& s.score == r.score
            &&& s.identifier == decimal(r.mcode as nat)
            &&& s.time_achieved == clock->0
            &&& s.judgements.marvelous == r.judge_marv
            &&& s.judgements.perfect == r.judge_perf
            &&& s.judgements.great == r.judge_great
            &&& s.judgements.good == r.judge_good
            &&& s.judgements.miss == r.judge_miss
            &&& s.judgements.ok == r.judge_ok
            &&& s.optional.hit_meta.fast == r.fastcount
            &&& s.optional.hit_meta.slow == r.slowcount
            &&& s.optional.hit_meta.max_combo == r.maxcombo
            &&& s.optional.hit_meta.ex_score == r.ex_score
            &&& (r.flare_force <= 0 ==> s.optional.flare == Flare::NoFlare)
            &&& (r.flare_force > 0 ==> s.optional.flare == Flare::from_code(r.flare_force as u8))
            &&& s.lamp == TachiLamp::from_code(r.clearkind)
            &&& s.difficulty == Difficulty::from_code(r.difficulty)
            &&& i.meta.play_type == Playtype::from_code(r.style)
        },
{
}


/// A guest's reference id is exactly one that starts with "X000".
pub proof fn guest_ids_start_with_x000(ref_id: Seq<char>)
    ensures
        is_guest(ref_id) <==> (ref_id.len() >= 4 && ref_id.take(4) == "X000"@),
{
    reveal_strlit("X000");
    if ref_id.len() >= 4 && ref_id.take(4) == "X000"@ {
        assert(ref_id[0] == ref_id.take(4)[0]);
        assert(ref_id[1] == ref_id.take(4)[1]);
        assert(ref_id[2] == ref_id.take(4)[2]);
        assert(ref_id[3] == ref_id.take(4)[3]);
    }
    if is_guest(ref_id) {
        assert(ref_id.take(4) =~= "X000"@);
    }
}

/// The chosen note has a stage number, none has a higher one, and every
/// later note with a stage number has a lower one (so among equal highest
/// stages the last is chosen).
pub proof fn chosen_stage_is_last_highest(notes: Seq<Note>)
    requires
        has_stage(notes),
    ensures
        exists|i: int| 0 <= i < notes.len() && notes[i] == highest_stage_of(notes) && {
            &&& notes[i].stagenum != 0
            &&& forall|j: int| 0 <= j < notes.len() && notes[j].stagenum != 0
                ==> notes[j].stagenum <= notes[i].stagenum
            &&& forall|j: int| i < j < notes.len() ==> notes[j].stagenum != notes[i].stagenum
        },
{
    lemma_highest_stage_exists(notes);
    let c = choose|i: int| is_highest_stage(notes, i);
    assert(is_highest_stage(notes, c));
}

proof fn lemma_highest_stage_exists(notes: Seq<Note>)
    requires
        has_stage(notes),
    ensures
        exists|i: int| is_highest_stage(notes, i),
    decreases notes.len(),
{
    let n = notes.len() - 1;
    let prefix = notes.drop_last();
    if notes[n].stagenum == 0 {
        let j = choose|j: int| 0 <= j < notes.len() && notes[j].stagenum != 0;
        assert(prefix[j] == notes[j]);
        lemma_highest_stage_exists(prefix);
        let i = choose|i: int| is_highest_stage(prefix, i);
        assert(prefix[i] == notes[i]);
        assert forall|j: int| 0 <= j < notes.len() && notes[j].stagenum != 0
            implies notes[j].stagenum <= notes[i].stagenum by {
            assert(prefix[j] == notes[j]);
        }
        assert forall|j: int| i < j < notes.len() && notes[j].stagenum != 0
            implies notes[j].stagenum < notes[i].stagenum by {
            assert(prefix[j] == notes[j]);
        }
        assert(is_highest_stage(notes, i));
    } else if !has_stage(prefix) {
        assert forall|j: int| 0 <= j < n implies notes[j].stagenum == 0 by {
            assert(prefix[j] == notes[j]);
        }
        assert(is_highest_stage(notes, n));
    } else {
        lemma_highest_stage_exists(prefix);
        let i = choose|i: int| is_highest_stage(prefix, i);
        assert(prefix[i] == notes[i]);
        if notes[n].stagenum >= notes[i].stagenum {
            assert forall|j: int| 0 <= j < notes.len() && notes[j].stagenum != 0
                implies notes[j].stagenum <= notes[n].stagenum by {
                if j < n {
                    assert(prefix[j] == notes[j]);
                }
            }
            assert(is_highest_stage(notes, n));
        } else {
            assert forall|j: int| 0 <= j < notes.len() && notes[j].stagenum != 0
                implies notes[j].stagenum <= notes[i].stagenum by {
                if j < n {
                    assert(prefix[j] == notes[j]);
                }
            }
            assert forall|j: int| i < j < notes.len() && notes[j].stagenum != 0
                implies notes[j].stagenum < notes[i].stagenum by {
                if j < n {
                    assert(prefix[j] == notes[j]);
                }
            }
            assert(is_highest_stage(notes, i));
        }
    }
}

} // verus!
