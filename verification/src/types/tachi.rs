//! Tachi's direct-manual import format for DDR.
use vstd::prelude::*;

verus! {

/// One import: its metadata and the scores it carries.
#[derive(Debug, Clone)]
pub struct Import {
    pub meta: ImportMeta,
    pub scores: Vec<ImportScore>,
}

/// Game, play type and submitting service of an import.
#[derive(Debug, Clone)]
pub struct ImportMeta {
    pub game: String,
    pub play_type: Playtype,
    pub service: String,
}

/// Single or double play.
#[derive(Debug, Clone, Copy, PartialEq, Eq, Structural)]
pub enum Playtype {
    SP,
    DP,
}

/// One score of an import.
#[derive(Debug, Clone)]
pub struct ImportScore {
    pub score: u32,
    pub lamp: TachiLamp,
    pub match_type: String,
    pub identifier: String,
    pub difficulty: Difficulty,
    pub time_achieved: u128,
    pub judgements: Judgements,
    pub optional: Optional,
}

/// Clear lamp as Tachi names it.
#[derive(Debug, Clone, Copy, PartialEq, Eq, Structural)]
pub enum TachiLamp {
    Failed,
    Assist,
    Clear,
    Life4,
    FullCombo,
    GreatFullCombo,
    PerfectFullCombo,
    MarvelousFullCombo,
}

/// Chart difficulty.
#[derive(Debug, Clone, Copy, PartialEq, Eq, Structural)]
pub enum Difficulty {
    Beginner,
    Basic,
    Difficult,
    Expert,
    Challenge,
}

/// Judgement counts of a play.
#[derive(Debug, Clone, Copy, PartialEq, Eq, Structural)]
pub struct Judgements {
    pub marvelous: u32,
    pub perfect: u32,
    pub great: u32,
    pub good: u32,
    pub miss: u32,
    pub ok: u32,
}

/// Timing and combo data of a play.
#[derive(Debug, Clone, Copy, PartialEq, Eq, Structural)]
pub struct HitMeta {
    pub fast: u32,
    pub slow: u32,
    pub max_combo: u32,
    pub ex_score: u32,
}

/// Optional data of a score; the flare is left out of the JSON when it is `Flare::NoFlare`.
#[derive(Debug, Clone, Copy, PartialEq, Eq, Structural)]
pub struct Optional {
    pub hit_meta: HitMeta,
    pub flare: Flare,
}

/// Flare rank of a DDR WORLD play.
#[derive(Debug, Clone, Copy, PartialEq, Eq, Structural)]
pub enum Flare {
    NoFlare,
    I,
    II,
    III,
    IV,
    V,
    VI,
    VII,
    VIII,
    IX,
    EX,
}

/// An import score with its texts taken as character sequences.
pub struct ImportScoreView {
    pub score: u32,
    pub lamp: TachiLamp,
    pub match_type: Seq<char>,
    pub identifier: Seq<char>,
    pub difficulty: Difficulty,
    pub time_achieved: u128,
    pub judgements: Judgements,
    pub optional: Optional,
}

/// Import metadata with its texts taken as character sequences.
pub struct ImportMetaView {
    pub game: Seq<char>,
    pub play_type: Playtype,
    pub service: Seq<char>,
}

/// An import taken as metadata and a sequence of scores.
pub struct ImportView {
    pub meta: ImportMetaView,
    pub scores: Seq<ImportScoreView>,
}

impl View for ImportScore {
    type V = ImportScoreView;

    open spec fn view(&self) -> ImportScoreView {
        ImportScoreView {
            score: self.score,
            lamp: self.lamp,
            match_type: self.match_type@,
            identifier: self.identifier@,
            difficulty: self.difficulty,
            time_achieved: self.time_achieved,
            judgements: self.judgements,
            optional: self.optional,
        }
    }
}

impl View for ImportMeta {
    type V = ImportMetaView;

    open spec fn view(&self) -> ImportMetaView {
        ImportMetaView { game: self.game@, play_type: self.play_type, service: self.service@ }
    }
}

impl View for Import {
    type V = ImportView;

    open spec fn view(&self) -> ImportView {
        ImportView { meta: self.meta@, scores: self.scores@.map_values(|s: ImportScore| s@) }
    }
}

impl Default for ImportMeta {
    /// DDR single play, submitted by Takure.
    fn default() -> (res: Self)
        ensures
            res@ == (ImportMetaView { game: "ddr"@, play_type: Playtype::SP, service: "Takure"@ }),
    {
        ImportMeta {
            game: String::from_str("ddr"),
            play_type: Playtype::SP,
            service: String::from_str("Takure"),
        }
    }
}

impl Default for Import {
    fn default() -> (res: Self)
        ensures
            res@.meta == (ImportMetaView { game: "ddr"@, play_type: Playtype::SP, service: "Takure"@ }),
            res@.scores.len() == 0,
    {
        Import { meta: ImportMeta::default(), scores: Vec::new() }
    }
}

impl Default for Judgements {
    fn default() -> (res: Self)
        ensures
            res == (Judgements { marvelous: 0, perfect: 0, great: 0, good: 0, miss: 0, ok: 0 }),
    {
        Judgements { marvelous: 0, perfect: 0, great: 0, good: 0, miss: 0, ok: 0 }
    }
}

impl Default for HitMeta {
    fn default() -> (res: Self)
        ensures
            res == (HitMeta { fast: 0, slow: 0, max_combo: 0, ex_score: 0 }),
    {
        HitMeta { fast: 0, slow: 0, max_combo: 0, ex_score: 0 }
    }
}

impl Default for Flare {
    fn default() -> (res: Self)
        ensures
            res == Flare::NoFlare,
    {
        Flare::NoFlare
    }
}

impl Default for Optional {
    fn default() -> (res: Self)
        ensures
            res == (Optional { hit_meta: HitMeta { fast: 0, slow: 0, max_combo: 0, ex_score: 0 }, flare: Flare::NoFlare }),
    {
        Optional { hit_meta: HitMeta::default(), flare: Flare::default() }
    }
}

impl Playtype {
    /// Play type of a game style code: 0 and 2 are single, 1 is double.
    pub open spec fn from_code(value: u8) -> Playtype {
        if value == 1 { Playtype::DP } else { Playtype::SP }
    }

    /// Play type of a style code; codes above 2 are not game codes.
    pub fn from(value: u8) -> (res: Playtype)
        requires
            value <= 2,
        ensures
            res == Playtype::from_code(value),
    {
        if value == 1 {
            Playtype::DP
        } else {
            Playtype::SP
        }
    }
}

impl Difficulty {
    /// Difficulty of a chart code: 0 to 4 are the single charts, 5 to 8 the
    /// double charts from Basic to Challenge.
    pub open spec fn from_code(value: u8) -> Difficulty {
        if value == 0 {
            Difficulty::Beginner
        } else if value == 1 || value == 5 {
            Difficulty::Basic
        } else if value == 2 || value == 6 {
            Difficulty::Difficult
        } else if value == 3 || value == 7 {
            Difficulty::Expert
        } else {
            Difficulty::Challenge
        }
    }

    /// Difficulty of a chart code; codes above 8 are not game codes.
    pub fn from(value: u8) -> (res: Difficulty)
        requires
            value <= 8,
        ensures
            res == Difficulty::from_code(value),
    {
        if value == 0 {
            Difficulty::Beginner
        } else if value == 1 || value == 5 {
            Difficulty::Basic
        } else if value == 2 || value == 6 {
            Difficulty::Difficult
        } else if value == 3 || value == 7 {
            Difficulty::Expert
        } else {
            Difficulty::Challenge
        }
    }
}

impl TachiLamp {
    /// Lamp of a clear kind: 1, 2, 3, 6, 7, 8, 9 and 10 name a lamp; any other
    /// value counts as failed.
    pub open spec fn from_code(value: u8) -> TachiLamp {
        if value == 2 {
            TachiLamp::Assist
        } else if value == 3 {
            TachiLamp::Clear
        } else if value == 6 {
            TachiLamp::Life4
        } else if value == 7 {
            TachiLamp::FullCombo
        } else if value == 8 {
            TachiLamp::GreatFullCombo
        } else if value == 9 {
            TachiLamp::PerfectFullCombo
        } else if value == 10 {
            TachiLamp::MarvelousFullCombo
        } else {
            TachiLamp::Failed
        }
    }

    /// Lamp of a clear kind.
    pub fn from(value: u8) -> (res: TachiLamp)
        ensures
            res == TachiLamp::from_code(value),
    {
        if value == 2 {
            TachiLamp::Assist
        } else if value == 3 {
            TachiLamp::Clear
        } else if value == 6 {
            TachiLamp::Life4
        } else if value == 7 {
            TachiLamp::FullCombo
        } else if value == 8 {
            TachiLamp::GreatFullCombo
        } else if value == 9 {
            TachiLamp::PerfectFullCombo
        } else if value == 10 {
            TachiLamp::MarvelousFullCombo
        } else {
            TachiLamp::Failed
        }
    }
}

impl Flare {
    /// Flare of a rank number: 1 to 10 are the ranks I to EX, anything else is none.
    pub open spec fn from_code(value: u8) -> Flare {
        if value == 1 {
            Flare::I
        } else if value == 2 {
            Flare::II
        } else if value == 3 {
            Flare::III
        } else if value == 4 {
            Flare::IV
        } else if value == 5 {
            Flare::V
        } else if value == 6 {
            Flare::VI
        } else if value == 7 {
            Flare::VII
        } else if value == 8 {
            Flare::VIII
        } else if value == 9 {
            Flare::IX
        } else if value == 10 {
            Flare::EX
        } else {
            Flare::NoFlare
        }
    }

    /// Flare of a rank number.
    pub fn from(value: u8) -> (res: Flare)
        ensures
            res == Flare::from_code(value),
    {
        if value == 1 {
            Flare::I
        } else if value == 2 {
            Flare::II
        } else if value == 3 {
            Flare::III
        } else if value == 4 {
            Flare::IV
        } else if value == 5 {
            Flare::V
        } else if value == 6 {
            Flare::VI
        } else if value == 7 {
            Flare::VII
        } else if value == 8 {
            Flare::VIII
        } else if value == 9 {
            Flare::IX
        } else if value == 10 {
            Flare::EX
        } else {
            Flare::NoFlare
        }
    }

    /// Whether a flare is absent; such a flare is not serialized.
    pub fn is_none(flare: &Flare) -> (res: bool)
        ensures
            res == (*flare == Flare::NoFlare),
    {
        *flare == Flare::NoFlare
    }
}

/// Single and double charts of the same level share a difficulty: code `n`
/// and code `n + 4` name the same one for `1 <= n <= 4`.
pub proof fn single_and_double_charts_agree(n: u8)
    requires
        1 <= n <= 4,
    ensures
        Difficulty::from_code(n) == Difficulty::from_code((n + 4) as u8),
{
}


/// Flare ranks follow their numbers: 1 to 10 are I, II, ..., IX, EX; 0 and
/// every number above 10 are no flare.
pub proof fn flare_rank_table(v: u8)
    ensures
        v == 1 ==> Flare::from_code(v) == Flare::I,
        v == 2 ==> Flare::from_code(v) == Flare::II,
        v == 3 ==> Flare::from_code(v) == Flare::III,
        v == 4 ==> Flare::from_code(v) == Flare::IV,
        v == 5 ==> Flare::from_code(v) == Flare::V,
        v == 6 ==> Flare::from_code(v) == Flare::VI,
        v == 7 ==> Flare::from_code(v) == Flare::VII,
        v == 8 ==> Flare::from_code(v) == Flare::VIII,
        v == 9 ==> Flare::from_code(v) == Flare::IX,
        v == 10 ==> Flare::from_code(v) == Flare::EX,
        (v == 0 || v > 10) ==> Flare::from_code(v) == Flare::NoFlare,
{
}

/// Different rank numbers from 1 to 10 give different flares.
pub proof fn flare_ranks_distinct(a: u8, b: u8)
    requires
        1 <= a <= 10,
        1 <= b <= 10,
        a != b,
    ensures
        Flare::from_code(a) != Flare::from_code(b),
        Flare::from_code(a) != Flare::NoFlare,
{
}

/// Clear kinds 1, 2, 3, 6, 7, 8, 9, 10 are FAILED, ASSIST, CLEAR, LIFE4,
/// FULL COMBO, GREAT, PERFECT and MARVELOUS FULL COMBO; every other kind is
/// FAILED.
pub proof fn lamp_table(v: u8)
    ensures
        v == 1 ==> TachiLamp::from_code(v) == TachiLamp::Failed,
        v == 2 ==> TachiLamp::from_code(v) == TachiLamp::Assist,
        v == 3 ==> TachiLamp::from_code(v) == TachiLamp::Clear,
        v == 6 ==> TachiLamp::from_code(v) == TachiLamp::Life4,
        v == 7 ==> TachiLamp::from_code(v) == TachiLamp::FullCombo,
        v == 8 ==> TachiLamp::from_code(v) == TachiLamp::GreatFullCombo,
        v == 9 ==> TachiLamp::from_code(v) == TachiLamp::PerfectFullCombo,
        v == 10 ==> TachiLamp::from_code(v) == TachiLamp::MarvelousFullCombo,
        (v == 0 || v == 4 || v == 5 || v > 10) ==> TachiLamp::from_code(v) == TachiLamp::Failed,
{
}

/// Chart codes 0 to 4 are Beginner, Basic, Difficult, Expert, Challenge;
/// 5 to 8 are Basic to Challenge again (the double charts).
pub proof fn difficulty_table(v: u8)
    ensures
        v == 0 ==> Difficulty::from_code(v) == Difficulty::Beginner,
        (v == 1 || v == 5) ==> Difficulty::from_code(v) == Difficulty::Basic,
        (v == 2 || v == 6) ==> Difficulty::from_code(v) == Difficulty::Difficult,
        (v == 3 || v == 7) ==> Difficulty::from_code(v) == Difficulty::Expert,
        (v == 4 || v == 8) ==> Difficulty::from_code(v) == Difficulty::Challenge,
{
}

/// Style codes 0 and 2 are single play, 1 is double play.
pub proof fn playtype_table(v: u8)
    ensures
        (v == 0 || v == 2) ==> Playtype::from_code(v) == Playtype::SP,
        v == 1 ==> Playtype::from_code(v) == Playtype::DP,
{
}

} // verus!
