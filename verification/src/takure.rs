//! Decisions of the hook around the game's property handling.
use vstd::prelude::*;
use crate::handlers::scores::GameScores;
use crate::text::{parse_u64, parsed_u64, same_text, utf8_text};
use vstd::utf8::{decode_utf8, valid_utf8};
use crate::types::game::{Property2, Property3};

verus! {

/// The card inserted last.
pub struct CardRegistry {
    current: Option<String>,
}

/// What a read of the card registry gives for a registry holding `state`.
pub open spec fn reads_as(res: Option<String>, state: Option<Seq<char>>) -> bool {
    match (res, state) {
        (Some(s), Some(c)) => s@ == c,
        (None, None) => true,
        _ => false,
    }
}

impl View for CardRegistry {
    type V = Option<Seq<char>>;

    closed spec fn view(&self) -> Option<Seq<char>> {
        match self.current {
            Some(c) => Some(c@),
            None => None,
        }
    }
}

impl CardRegistry {
    /// No card inserted yet.
    pub fn new() -> (res: CardRegistry)
        ensures
            res@ is None,
    {
        CardRegistry { current: None }
    }

    /// Records `card_id` as the card inserted last.
    pub fn set_current_card_id(&mut self, card_id: String)
        ensures
            final(self)@ == Some(card_id@),
    {
        self.current = Some(card_id);
    }

    /// A copy of the card inserted last.
    pub fn current(&self) -> (res: Option<String>)
        ensures
            reads_as(res, self@),
    {
        match &self.current {
            Some(c) => Some(c.clone()),
            None => None,
        }
    }
}


/// Reading the registry after a card was recorded gives that card back.
pub proof fn card_read_after_write(res: Option<String>, card_id: Seq<char>)
    requires
        reads_as(res, Some(card_id)),
    ensures
        res matches Some(s) && s@ == card_id,
{
}

/// Bytes of a node name that are read.
pub const NAME_FIELD_LEN: usize = 32;

/// Bytes of a `method` attribute that are read.
pub const METHOD_FIELD_LEN: usize = 21;

/// Bytes of a `cardid` attribute that are read.
pub const CARD_ID_FIELD_LEN: usize = 32;

/// Oldest supported DDR data code.
pub const MIN_SUPPORTED_EXT: u64 = 2022022801;

/// Property nodes that the hook looks at.
#[derive(Debug, Clone, Copy, PartialEq, Eq, Structural)]
pub enum HookedNode {
    PlayerData2,
    PlayData3,
    CardMng,
}

/// Layout of a save request's property.
#[derive(Debug, Clone, Copy, PartialEq, Eq, Structural)]
pub enum SaveFormat {
    /// `usergamedata_advanced`: a DDR A3 `Property2`.
    A3,
    /// `playerdata_save`: a DDR WORLD `Property3`.
    World,
}

/// What the hook does with an intercepted call.
#[derive(Debug, Clone, Copy, PartialEq, Eq, Structural)]
pub enum HookAction {
    /// Leave the property to the game untouched.
    PassThrough,
    /// Record the inquired card as the current one.
    RecordCardId,
    /// Dump the property and process the scores it saves.
    SaveScores(SaveFormat),
}

pub open spec fn node_of_name(name: Seq<char>) -> Option<HookedNode> {
    if name == "playerdata_2"@ {
        Some(HookedNode::PlayerData2)
    } else if name == "playdata_3"@ {
        Some(HookedNode::PlayData3)
    } else if name == "cardmng"@ {
        Some(HookedNode::CardMng)
    } else {
        None
    }
}

/// The call's method decides: a card inquiry on `cardmng`, or one of the two
/// save methods on the other nodes.
pub open spec fn action_of(node: HookedNode, method: Seq<char>) -> HookAction {
    if node == HookedNode::CardMng {
        if method == "inquire"@ {
            HookAction::RecordCardId
        } else {
            HookAction::PassThrough
        }
    } else if method == "usergamedata_advanced"@ {
        HookAction::SaveScores(SaveFormat::A3)
    } else if method == "playerdata_save"@ {
        HookAction::SaveScores(SaveFormat::World)
    } else {
        HookAction::PassThrough
    }
}

/// Which hooked node a node name names, if any.
pub fn hooked_node(name: &str) -> (res: Option<HookedNode>)
    ensures
        res == node_of_name(name@),
{
    if same_text(name, "playerdata_2") {
        Some(HookedNode::PlayerData2)
    } else if same_text(name, "playdata_3") {
        Some(HookedNode::PlayData3)
    } else if same_text(name, "cardmng") {
        Some(HookedNode::CardMng)
    } else {
        None
    }
}

/// What to do with a call of `method` on `node`.
pub fn method_action(node: HookedNode, method: &str) -> (res: HookAction)
    ensures
        res == action_of(node, method@),
{
    if node == HookedNode::CardMng {
        if same_text(method, "inquire") {
            HookAction::RecordCardId
        } else {
            HookAction::PassThrough
        }
    } else if same_text(method, "usergamedata_advanced") {
        HookAction::SaveScores(SaveFormat::A3)
    } else if same_text(method, "playerdata_save") {
        HookAction::SaveScores(SaveFormat::World)
    } else {
        HookAction::PassThrough
    }
}

/// The three node names and the three methods that the hook acts on.
pub proof fn hook_dispatch_table(node: HookedNode)
    ensures
        node_of_name("playerdata_2"@) == Some(HookedNode::PlayerData2),
        node_of_name("playdata_3"@) == Some(HookedNode::PlayData3),
        node_of_name("cardmng"@) == Some(HookedNode::CardMng),
        action_of(HookedNode::CardMng, "inquire"@) == HookAction::RecordCardId,
        node != HookedNode::CardMng ==> action_of(node, "usergamedata_advanced"@)
            == HookAction::SaveScores(SaveFormat::A3),
        node != HookedNode::CardMng ==> action_of(node, "playerdata_save"@)
            == HookAction::SaveScores(SaveFormat::World),
{
    reveal_strlit("playerdata_2");
    reveal_strlit("playdata_3");
    reveal_strlit("cardmng");
    reveal_strlit("inquire");
    reveal_strlit("usergamedata_advanced");
    reveal_strlit("playerdata_save");
    assert("playdata_3"@.len() != "playerdata_2"@.len());
    assert("cardmng"@.len() != "playerdata_2"@.len());
    assert("cardmng"@.len() != "playdata_3"@.len());
    assert("playerdata_save"@.len() != "usergamedata_advanced"@.len());
}

/// A card inquiry never leads to score processing.
pub proof fn card_inquiries_save_nothing(method: Seq<char>)
    ensures
        !(action_of(HookedNode::CardMng, method) is SaveScores),
{
}

/// The text of a dumped save property: `None` where the dump is not valid
/// UTF-8, and the property is then left alone.
pub fn property_text(dump: &[u8]) -> (res: Option<&str>)
    ensures
        res is Some <==> valid_utf8(dump@),
        res matches Some(s) ==> s@ == decode_utf8(dump@),
{
    utf8_text(dump)
}

/// The scores of a DDR A3 save, which counts only in `usersave` mode.
pub fn scores_from_property2(prop: Property2) -> (res: Option<GameScores>)
    ensures
        prop.call.playerdata_2.data.mode@ == "usersave"@ ==> (res matches Some(GameScores::A3(d))
            && d == prop.call.playerdata_2.data),
        prop.call.playerdata_2.data.mode@ != "usersave"@ ==> res is None,
{
    if same_text(prop.call.playerdata_2.data.mode.as_str(), "usersave") {
        Some(GameScores::A3(prop.call.playerdata_2.data))
    } else {
        None
    }
}

/// The scores of a DDR WORLD save, which counts only with save kind 2.
pub fn scores_from_property3(prop: Property3) -> (res: Option<GameScores>)
    ensures
        prop.call.playdata_3.data.savekind == 2 ==> (res matches Some(GameScores::World(d)) && d
            == prop.call.playdata_3.data),
        prop.call.playdata_3.data.savekind != 2 ==> res is None,
{
    if prop.call.playdata_3.data.savekind == 2 {
        Some(GameScores::World(prop.call.playdata_3.data))
    } else {
        None
    }
}

/// The data code of the game software: its `ext` field read as a number,
/// 0 where it does not read as one.
pub fn parse_ext(text: &str) -> (res: u64)
    ensures
        res == match parsed_u64(text@) {
            Some(v) => v,
            None => 0,
        },
{
    match parse_u64(text) {
        Some(v) => v,
        None => 0,
    }
}

/// Software the hook supports: model MDX, not revision O or X, data code
/// from 2022022801 on.
pub open spec fn supported_software(model: Seq<char>, revision: Seq<char>, ext: u64) -> bool {
    model == "MDX"@ && revision != "O"@ && revision != "X"@ && ext >= MIN_SUPPORTED_EXT
}

/// Whether the hook supports the game software it was loaded into.
pub fn software_supported(model: &str, revision: &str, ext: u64) -> (res: bool)
    ensures
        res == supported_software(model@, revision@, ext),
        res <==> (model@ == "MDX"@ && revision@ != "O"@ && revision@ != "X"@ && ext >= 2022022801),
{
    !(!same_text(model, "MDX") || same_text(revision, "O") || same_text(revision, "X")
        || ext < MIN_SUPPORTED_EXT)
}


/// The identification of the game software the hook was loaded into.
#[derive(Debug, Clone)]
pub struct GameSoftware {
    pub model: String,
    pub dest: String,
    pub spec: String,
    pub revision: String,
    pub ext: u64,
}

/// Whether the hook goes on after identifying the game software.
#[derive(Debug, Clone, Copy, PartialEq, Eq, Structural)]
pub enum VersionGate {
    /// The software could not be read: the hook goes on, with a warning.
    Unknown,
    /// The software is not supported: the hook is not enabled.
    Unsupported,
    /// The software is supported: the hook goes on.
    Supported,
}

pub open spec fn version_gate_of(software: Option<GameSoftware>) -> VersionGate {
    match software {
        None => VersionGate::Unknown,
        Some(s) => if supported_software(s.model@, s.revision@, s.ext) {
            VersionGate::Supported
        } else {
            VersionGate::Unsupported
        },
    }
}

/// Decides whether the hook goes on for the game software it read, if any.
pub fn version_gate(software: &Option<GameSoftware>) -> (res: VersionGate)
    ensures
        res == version_gate_of(*software),
        software is None <==> res == VersionGate::Unknown,
        software matches Some(s) ==> (res == VersionGate::Supported <==> (s.model@ == "MDX"@
            && s.revision@ != "O"@ && s.revision@ != "X"@ && s.ext >= 2022022801)),
{
    match software {
        None => VersionGate::Unknown,
        Some(s) => if software_supported(s.model.as_str(), s.revision.as_str(), s.ext) {
            VersionGate::Supported
        } else {
            VersionGate::Unsupported
        },
    }
}

/// Support only grows with the data code: a supported MDX revision stays
/// supported for every later data code, with no upper bound.
pub proof fn support_is_upward_closed(model: Seq<char>, revision: Seq<char>, ext: u64, later: u64)
    requires
        model == "MDX"@,
        revision != "O"@,
        revision != "X"@,
        ext >= 2022022801,
        later >= ext,
    ensures
        supported_software(model, revision, ext),
        supported_software(model, revision, later),
{
}

/// Only software that could not be read or that is supported lets the hook
/// go on; revisions O and X never do.
pub proof fn excluded_revisions_stop_the_hook(s: GameSoftware)
    requires
        s.revision@ == "O"@ || s.revision@ == "X"@,
    ensures
        version_gate_of(Some(s)) == VersionGate::Unsupported,
{
}

} // verus!
