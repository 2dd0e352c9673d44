//! Save data that DDR A3 (`playerdata_2`) and DDR WORLD (`playdata_3`) send.
use vstd::prelude::*;

verus! {

/// DDR A3 save request.
#[derive(Debug, Clone)]
pub struct Property2 {
    pub call: CallStruct2,
}

#[derive(Debug, Clone)]
pub struct CallStruct2 {
    pub playerdata_2: PlayerData2,
}

#[derive(Debug, Clone)]
pub struct PlayerData2 {
    pub data: PlayerData2Data,
}

/// DDR A3 save data: the mode of the request, the player's reference id,
/// whether the game is over, and the notes of the stages played.
#[derive(Debug, Clone)]
pub struct PlayerData2Data {
    pub mode: String,
    pub ref_id: String,
    pub isgameover: bool,
    pub note: Vec<Note>,
}

/// One stage of a DDR A3 save.
#[derive(Debug, Clone, Copy, PartialEq, Eq, Structural)]
pub struct Note {
    pub stagenum: u8,
    pub mcode: u32,
    pub notetype: u8,
    pub clearkind: u8,
    pub score: u32,
    pub ex_score: u32,
    pub maxcombo: u32,
    pub fastcount: u32,
    pub slowcount: u32,
    pub judge_marvelous: u32,
    pub judge_perfect: u32,
    pub judge_great: u32,
    pub judge_good: u32,
    pub judge_miss: u32,
    pub judge_ok: u32,
    pub playstyle: u8,
}

/// DDR WORLD save request.
#[derive(Debug, Clone)]
pub struct Property3 {
    pub call: CallStruct3,
}

#[derive(Debug, Clone)]
pub struct CallStruct3 {
    pub playdata_3: PlayData3,
}

#[derive(Debug, Clone)]
pub struct PlayData3 {
    pub data: PlayData3Data,
}

/// DDR WORLD save data: the player's reference id, the kind of save, and the
/// stage result, or the message of why the result did not read as one.
#[derive(Debug)]
pub struct PlayData3Data {
    pub ref_id: String,
    pub savekind: u8,
    pub result: core::result::Result<Result, String>,
}

impl Clone for PlayData3Data {
    fn clone(&self) -> (res: Self)
        ensures
            res.ref_id@ == self.ref_id@,
            res.savekind == self.savekind,
            match (res.result, self.result) {
                (Ok(a), Ok(b)) => a == b,
                (Err(a), Err(b)) => a@ == b@,
                _ => false,
            },
    {
        PlayData3Data {
            ref_id: self.ref_id.clone(),
            savekind: self.savekind,
            result: match &self.result {
                Ok(r) => Ok(*r),
                Err(e) => Err(e.clone()),
            },
        }
    }
}

/// Result of one DDR WORLD stage.
#[derive(Debug, Clone, Copy, PartialEq, Eq, Structural)]
pub struct Result {
    pub stagenum: u8,
    pub mcode: u32,
    pub difficulty: u8,
    pub clearkind: u8,
    pub score: u32,
    pub ex_score: u32,
    pub maxcombo: u32,
    pub fastcount: u32,
    pub slowcount: u32,
    pub judge_marv: u32,
    pub judge_perf: u32,
    pub judge_great: u32,
    pub judge_good: u32,
    pub judge_miss: u32,
    pub judge_ok: u32,
    pub style: u8,
    pub flare_force: i8,
}

} // verus!
