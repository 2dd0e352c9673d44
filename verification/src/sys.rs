//! Property node types of the game's property library.
use vstd::prelude::*;

verus! {

/// Type of a property node; `code` gives the number the library knows it by.
#[derive(Debug, Clone, Copy, PartialEq, Eq, Structural, Hash)]
pub enum NodeType {
    NodeNode,
    NodeS8,
    NodeU8,
    NodeS16,
    NodeU16,
    NodeS32,
    NodeU32,
    NodeS64,
    NodeU64,
    NodeBin,
    NodeStr,
    NodeIp4,
    NodeTime,
    NodeFloat,
    NodeDouble,
    Node2s8,
    Node2u8,
    Node2s16,
    Node2u16,
    Node2s32,
    Node2u32,
    Node2s64,
    Node2u64,
    Node2f,
    Node2d,
    Node3s8,
    Node3u8,
    Node3s16,
    Node3u16,
    Node3s32,
    Node3u32,
    Node3s64,
    Node3u64,
    Node3f,
    Node3d,
    Node4s8,
    Node4u8,
    Node4s16,
    Node4u16,
    Node4s32,
    Node4u32,
    Node4s64,
    Node4u64,
    Node4f,
    Node4d,
    NodeAttr,
    NodeAttrAndNode,
    NodeVs8,
    NodeVu8,
    NodeVs16,
    NodeVu16,
    NodeBool,
    Node2b,
    Node3b,
    Node4b,
    NodeVb,
}

/// Number of a node type in the property library.
pub open spec fn node_type_code(t: NodeType) -> u32 {
    match t {
        NodeType::NodeNode => 1,
        NodeType::NodeS8 => 2,
        NodeType::NodeU8 => 3,
        NodeType::NodeS16 => 4,
        NodeType::NodeU16 => 5,
        NodeType::NodeS32 => 6,
        NodeType::NodeU32 => 7,
        NodeType::NodeS64 => 8,
        NodeType::NodeU64 => 9,
        NodeType::NodeBin => 10,
        NodeType::NodeStr => 11,
        NodeType::NodeIp4 => 12,
        NodeType::NodeTime => 13,
        NodeType::NodeFloat => 14,
        NodeType::NodeDouble => 15,
        NodeType::Node2s8 => 16,
        NodeType::Node2u8 => 17,
        NodeType::Node2s16 => 18,
        NodeType::Node2u16 => 19,
        NodeType::Node2s32 => 20,
        NodeType::Node2u32 => 21,
        NodeType::Node2s64 => 22,
        NodeType::Node2u64 => 23,
        NodeType::Node2f => 24,
        NodeType::Node2d => 25,
        NodeType::Node3s8 => 26,
        NodeType::Node3u8 => 27,
        NodeType::Node3s16 => 28,
        NodeType::Node3u16 => 29,
        NodeType::Node3s32 => 30,
        NodeType::Node3u32 => 31,
        NodeType::Node3s64 => 32,
        NodeType::Node3u64 => 33,
        NodeType::Node3f => 34,
        NodeType::Node3d => 35,
        NodeType::Node4s8 => 36,
        NodeType::Node4u8 => 37,
        NodeType::Node4s16 => 38,
        NodeType::Node4u16 => 39,
        NodeType::Node4s32 => 40,
        NodeType::Node4u32 => 41,
        NodeType::Node4s64 => 42,
        NodeType::Node4u64 => 43,
        NodeType::Node4f => 44,
        NodeType::Node4d => 45,
        NodeType::NodeAttr => 46,
        NodeType::NodeAttrAndNode => 47,
        NodeType::NodeVs8 => 48,
        NodeType::NodeVu8 => 49,
        NodeType::NodeVs16 => 50,
        NodeType::NodeVu16 => 51,
        NodeType::NodeBool => 52,
        NodeType::Node2b => 53,
        NodeType::Node3b => 54,
        NodeType::Node4b => 55,
        NodeType::NodeVb => 56,
    }
}

impl NodeType {
    /// The number the property library knows this node type by.
    pub fn code(&self) -> (res: u32)
        ensures
            res == node_type_code(*self),
    {
        match self {
            NodeType::NodeNode => 1,
            NodeType::NodeS8 => 2,
            NodeType::NodeU8 => 3,
            NodeType::NodeS16 => 4,
            NodeType::NodeU16 => 5,
            NodeType::NodeS32 => 6,
            NodeType::NodeU32 => 7,
            NodeType::NodeS64 => 8,
            NodeType::NodeU64 => 9,
            NodeType::NodeBin => 10,
            NodeType::NodeStr => 11,
            NodeType::NodeIp4 => 12,
            NodeType::NodeTime => 13,
            NodeType::NodeFloat => 14,
            NodeType::NodeDouble => 15,
            NodeType::Node2s8 => 16,
            NodeType::Node2u8 => 17,
            NodeType::Node2s16 => 18,
            NodeType::Node2u16 => 19,
            NodeType::Node2s32 => 20,
            NodeType::Node2u32 => 21,
            NodeType::Node2s64 => 22,
            NodeType::Node2u64 => 23,
            NodeType::Node2f => 24,
            NodeType::Node2d => 25,
            NodeType::Node3s8 => 26,
            NodeType::Node3u8 => 27,
            NodeType::Node3s16 => 28,
            NodeType::Node3u16 => 29,
            NodeType::Node3s32 => 30,
            NodeType::Node3u32 => 31,
            NodeType::Node3s64 => 32,
            NodeType::Node3u64 => 33,
            NodeType::Node3f => 34,
            NodeType::Node3d => 35,
            NodeType::Node4s8 => 36,
            NodeType::Node4u8 => 37,
            NodeType::Node4s16 => 38,
            NodeType::Node4u16 => 39,
            NodeType::Node4s32 => 40,
            NodeType::Node4u32 => 41,
            NodeType::Node4s64 => 42,
            NodeType::Node4u64 => 43,
            NodeType::Node4f => 44,
            NodeType::Node4d => 45,
            NodeType::NodeAttr => 46,
            NodeType::NodeAttrAndNode => 47,
            NodeType::NodeVs8 => 48,
            NodeType::NodeVu8 => 49,
            NodeType::NodeVs16 => 50,
            NodeType::NodeVu16 => 51,
            NodeType::NodeBool => 52,
            NodeType::Node2b => 53,
            NodeType::Node3b => 54,
            NodeType::Node4b => 55,
            NodeType::NodeVb => 56,
        }
    }
}

/// Different node types have different numbers, from 1 to 56.
pub proof fn node_type_codes_distinct(a: NodeType, b: NodeType)
    ensures
        1 <= node_type_code(a) <= 56,
        a != b ==> node_type_code(a) != node_type_code(b),
{
}


/// The property library's number of every node type.
pub proof fn node_type_numbers()
    ensures
        node_type_code(NodeType::NodeNode) == 1,
        node_type_code(NodeType::NodeS8) == 2,
        node_type_code(NodeType::NodeU8) == 3,
        node_type_code(NodeType::NodeS16) == 4,
        node_type_code(NodeType::NodeU16) == 5,
        node_type_code(NodeType::NodeS32) == 6,
        node_type_code(NodeType::NodeU32) == 7,
        node_type_code(NodeType::NodeS64) == 8,
        node_type_code(NodeType::NodeU64) == 9,
        node_type_code(NodeType::NodeBin) == 10,
        node_type_code(NodeType::NodeStr) == 11,
        node_type_code(NodeType::NodeIp4) == 12,
        node_type_code(NodeType::NodeTime) == 13,
        node_type_code(NodeType::NodeFloat) == 14,
        node_type_code(NodeType::NodeDouble) == 15,
        node_type_code(NodeType::Node2s8) == 16,
        node_type_code(NodeType::Node2u8) == 17,
        node_type_code(NodeType::Node2s16) == 18,
        node_type_code(NodeType::Node2u16) == 19,
        node_type_code(NodeType::Node2s32) == 20,
        node_type_code(NodeType::Node2u32) == 21,
        node_type_code(NodeType::Node2s64) == 22,
        node_type_code(NodeType::Node2u64) == 23,
        node_type_code(NodeType::Node2f) == 24,
        node_type_code(NodeType::Node2d) == 25,
        node_type_code(NodeType::Node3s8) == 26,
        node_type_code(NodeType::Node3u8) == 27,
        node_type_code(NodeType::Node3s16) == 28,
        node_type_code(NodeType::Node3u16) == 29,
        node_type_code(NodeType::Node3s32) == 30,
        node_type_code(NodeType::Node3u32) == 31,
        node_type_code(NodeType::Node3s64) == 32,
        node_type_code(NodeType::Node3u64) == 33,
        node_type_code(NodeType::Node3f) == 34,
        node_type_code(NodeType::Node3d) == 35,
        node_type_code(NodeType::Node4s8) == 36,
        node_type_code(NodeType::Node4u8) == 37,
        node_type_code(NodeType::Node4s16) == 38,
        node_type_code(NodeType::Node4u16) == 39,
        node_type_code(NodeType::Node4s32) == 40,
        node_type_code(NodeType::Node4u32) == 41,
        node_type_code(NodeType::Node4s64) == 42,
        node_type_code(NodeType::Node4u64) == 43,
        node_type_code(NodeType::Node4f) == 44,
        node_type_code(NodeType::Node4d) == 45,
        node_type_code(NodeType::NodeAttr) == 46,
        node_type_code(NodeType::NodeAttrAndNode) == 47,
        node_type_code(NodeType::NodeVs8) == 48,
        node_type_code(NodeType::NodeVu8) == 49,
        node_type_code(NodeType::NodeVs16) == 50,
        node_type_code(NodeType::NodeVu16) == 51,
        node_type_code(NodeType::NodeBool) == 52,
        node_type_code(NodeType::Node2b) == 53,
        node_type_code(NodeType::Node3b) == 54,
        node_type_code(NodeType::Node4b) == 55,
        node_type_code(NodeType::NodeVb) == 56,
{
}

} // verus!
