//! Static description of the node types of a track graph: which input
//! ports, output ports and properties each node type carries, and the
//! mapping between a property and its ordinal within a node.

use vstd::prelude::*;

verus! {

/// A port through which a node receives or hands out a value.
#[derive(Debug, Copy, Clone, PartialEq, Eq, Structural)]
pub enum PortId {
    Anchor,
    Path,
    Duration,
    Radius,
    Arc,
    Axis,
    LeadIn,
    LeadOut,
    InWeight,
    OutWeight,
    Start,
    End,
    Position,
    Rotation,
}

/// A keyframed property of a node.
#[derive(Debug, Copy, Clone, PartialEq, Eq, Structural)]
pub enum PropertyId {
    RollSpeed,
    NormalForce,
    LateralForce,
    PitchSpeed,
    YawSpeed,
    DrivenVelocity,
    HeartOffset,
    Friction,
    Resistance,
    TrackStyle,
}

/// The kinds of node a track graph is made of.
#[derive(Debug, Copy, Clone, PartialEq, Eq, Structural)]
pub enum NodeType {
    Force,
    Geometric,
    Curved,
    CopyPath,
    Bridge,
    Anchor,
    Reverse,
    ReversePath,
}

/// Whether a section's duration counts seconds or metres of spine.
#[derive(Debug, Copy, Clone, PartialEq, Eq, Structural)]
pub enum DurationType {
    Time,
    Distance,
}

impl PortId {
    /// The stable numeric code of the port.
    pub open spec fn spec_code(self) -> int {
        match self {
            PortId::Anchor => 0,
            PortId::Path => 1,
            PortId::Duration => 2,
            PortId::Radius => 3,
            PortId::Arc => 4,
            PortId::Axis => 5,
            PortId::LeadIn => 6,
            PortId::LeadOut => 7,
            PortId::InWeight => 8,
            PortId::OutWeight => 9,
            PortId::Start => 10,
            PortId::End => 11,
            PortId::Position => 12,
            PortId::Rotation => 13,
        }
    }

    pub fn code(self) -> (c: u8)
        ensures
            c == self.spec_code(),
    {
        match self {
            PortId::Anchor => 0,
            PortId::Path => 1,
            PortId::Duration => 2,
            PortId::Radius => 3,
            PortId::Arc => 4,
            PortId::Axis => 5,
            PortId::LeadIn => 6,
            PortId::LeadOut => 7,
            PortId::InWeight => 8,
            PortId::OutWeight => 9,
            PortId::Start => 10,
            PortId::End => 11,
            PortId::Position => 12,
            PortId::Rotation => 13,
        }
    }

    /// The port with the given code, if there is one.
    pub fn from_code(c: u8) -> (p: Option<PortId>)
        ensures
            c < 14 ==> p.is_some() && p.unwrap().spec_code() == c,
            c >= 14 ==> p.is_none(),
    {
        match c {
            0 => Some(PortId::Anchor),
            1 => Some(PortId::Path),
            2 => Some(PortId::Duration),
            3 => Some(PortId::Radius),
            4 => Some(PortId::Arc),
            5 => Some(PortId::Axis),
            6 => Some(PortId::LeadIn),
            7 => Some(PortId::LeadOut),
            8 => Some(PortId::InWeight),
            9 => Some(PortId::OutWeight),
            10 => Some(PortId::Start),
            11 => Some(PortId::End),
            12 => Some(PortId::Position),
            13 => Some(PortId::Rotation),
            _ => None,
        }
    }
}

impl PropertyId {
    /// The stable numeric code of the property.
    pub open spec fn spec_code(self) -> int {
        match self {
            PropertyId::RollSpeed => 0,
            PropertyId::NormalForce => 1,
            PropertyId::LateralForce => 2,
            PropertyId::PitchSpeed => 3,
            PropertyId::YawSpeed => 4,
            PropertyId::DrivenVelocity => 5,
            PropertyId::HeartOffset => 6,
            PropertyId::Friction => 7,
            PropertyId::Resistance => 8,
            PropertyId::TrackStyle => 9,
        }
    }

    pub fn code(self) -> (c: u8)
        ensures
            c == self.spec_code(),
    {
        match self {
            PropertyId::RollSpeed => 0,
            PropertyId::NormalForce => 1,
            PropertyId::LateralForce => 2,
            PropertyId::PitchSpeed => 3,
            PropertyId::YawSpeed => 4,
            PropertyId::DrivenVelocity => 5,
            PropertyId::HeartOffset => 6,
            PropertyId::Friction => 7,
            PropertyId::Resistance => 8,
            PropertyId::TrackStyle => 9,
        }
    }

    /// The property with the given code, if there is one.
    pub fn from_code(c: u8) -> (p: Option<PropertyId>)
        ensures
            c < 10 ==> p.is_some() && p.unwrap().spec_code() == c,
            c >= 10 ==> p.is_none(),
    {
        match c {
            0 => Some(PropertyId::RollSpeed),
            1 => Some(PropertyId::NormalForce),
            2 => Some(PropertyId::LateralForce),
            3 => Some(PropertyId::PitchSpeed),
            4 => Some(PropertyId::YawSpeed),
            5 => Some(PropertyId::DrivenVelocity),
            6 => Some(PropertyId::HeartOffset),
            7 => Some(PropertyId::Friction),
            8 => Some(PropertyId::Resistance),
            9 => Some(PropertyId::TrackStyle),
            _ => None,
        }
    }
}

impl NodeType {
    /// How many node types there are.
    pub const COUNT: usize = 8;

    /// The position of the node type in the schema tables.
    pub open spec fn spec_index(self) -> int {
        match self {
            NodeType::Force => 0,
            NodeType::Geometric => 1,
            NodeType::Curved => 2,
            NodeType::CopyPath => 3,
            NodeType::Bridge => 4,
            NodeType::Anchor => 5,
            NodeType::Reverse => 6,
            NodeType::ReversePath => 7,
        }
    }

    pub fn as_index(self) -> (i: usize)
        ensures
            i == self.spec_index(),
            i < NodeType::COUNT,
    {
        match self {
            NodeType::Force => 0,
            NodeType::Geometric => 1,
            NodeType::Curved => 2,
            NodeType::CopyPath => 3,
            NodeType::Bridge => 4,
            NodeType::Anchor => 5,
            NodeType::Reverse => 6,
            NodeType::ReversePath => 7,
        }
    }
}

impl DurationType {
    /// The duration type with the given code: 0 counts time, 1 distance.
    pub fn from_code(c: i32) -> (d: Option<DurationType>)
        ensures
            d == (if c == 0 {
                Some(DurationType::Time)
            } else if c == 1 {
                Some(DurationType::Distance)
            } else {
                None
            }),
    {
        if c == 0 {
            Some(DurationType::Time)
        } else if c == 1 {
            Some(DurationType::Distance)
        } else {
            None
        }
    }
}

/// The input ports of a node type, in port order.
pub open spec fn spec_inputs(node: NodeType) -> Seq<PortId> {
    match node {
        NodeType::Force => seq![PortId::Anchor, PortId::Duration],
        NodeType::Geometric => seq![PortId::Anchor, PortId::Duration],
        NodeType::Curved => seq![
            PortId::Anchor,
            PortId::Radius,
            PortId::Arc,
            PortId::Axis,
            PortId::LeadIn,
            PortId::LeadOut,
        ],
        NodeType::CopyPath => seq![PortId::Anchor, PortId::Path, PortId::Start, PortId::End],
        NodeType::Bridge => seq![PortId::Anchor, PortId::InWeight, PortId::OutWeight],
        NodeType::Anchor => seq![PortId::Position, PortId::Rotation],
        NodeType::Reverse => seq![PortId::Anchor],
        NodeType::ReversePath => seq![PortId::Path],
    }
}

/// The output ports of a node type, in port order.
pub open spec fn spec_outputs(node: NodeType) -> Seq<PortId> {
    match node {
        NodeType::Force => seq![PortId::Anchor, PortId::Path],
        NodeType::Geometric => seq![PortId::Anchor, PortId::Path],
        NodeType::Curved => seq![PortId::Anchor, PortId::Path],
        NodeType::CopyPath => seq![PortId::Anchor, PortId::Path],
        NodeType::Bridge => seq![PortId::Anchor, PortId::Path],
        NodeType::Anchor => seq![PortId::Anchor],
        NodeType::Reverse => seq![PortId::Anchor],
        NodeType::ReversePath => seq![PortId::Path],
    }
}

/// The properties of a node type, in ordinal order.
pub open spec fn spec_properties(node: NodeType) -> Seq<PropertyId> {
    match node {
        NodeType::Force => seq![
            PropertyId::RollSpeed,
            PropertyId::NormalForce,
            PropertyId::LateralForce,
            PropertyId::DrivenVelocity,
            PropertyId::HeartOffset,
            PropertyId::Friction,
            PropertyId::Resistance,
        ],
        NodeType::Geometric => seq![
            PropertyId::RollSpeed,
            PropertyId::PitchSpeed,
            PropertyId::YawSpeed,
            PropertyId::DrivenVelocity,
            PropertyId::HeartOffset,
            PropertyId::Friction,
            PropertyId::Resistance,
        ],
        NodeType::Curved => seq![
            PropertyId::RollSpeed,
            PropertyId::DrivenVelocity,
            PropertyId::HeartOffset,
            PropertyId::Friction,
            PropertyId::Resistance,
        ],
        NodeType::CopyPath => seq![
            PropertyId::DrivenVelocity,
            PropertyId::HeartOffset,
            PropertyId::Friction,
            PropertyId::Resistance,
        ],
        NodeType::Bridge => seq![
            PropertyId::DrivenVelocity,
            PropertyId::HeartOffset,
            PropertyId::Friction,
            PropertyId::Resistance,
            PropertyId::TrackStyle,
        ],
        NodeType::Anchor => seq![],
        NodeType::Reverse => seq![],
        NodeType::ReversePath => seq![],
    }
}

/// The entry of a table at an ordinal, or nothing past its end.
pub open spec fn spec_entry<T>(table: Seq<T>, index: int) -> Option<T> {
    if 0 <= index < table.len() {
        Some(table[index])
    } else {
        None
    }
}

/// Lookup of ports and properties by node type and ordinal.
pub struct NodeSchema;

impl NodeSchema {
    pub fn input_count(node_type: NodeType) -> (n: usize)
        ensures
            n == spec_inputs(node_type).len(),
    {
        match node_type {
            NodeType::Force => 2,
            NodeType::Geometric => 2,
            NodeType::Curved => 6,
            NodeType::CopyPath => 4,
            NodeType::Bridge => 3,
            NodeType::Anchor => 2,
            NodeType::Reverse => 1,
            NodeType::ReversePath => 1,
        }
    }

    pub fn input(node_type: NodeType, index: usize) -> (port: Option<PortId>)
        ensures
            port == spec_entry(spec_inputs(node_type), index as int),
    {
        match node_type {
            NodeType::Force | NodeType::Geometric => match index {
                0 => Some(PortId::Anchor),
                1 => Some(PortId::Duration),
                _ => None,
            },
            NodeType::Curved => match index {
                0 => Some(PortId::Anchor),
                1 => Some(PortId::Radius),
                2 => Some(PortId::Arc),
                3 => Some(PortId::Axis),
                4 => Some(PortId::LeadIn),
                5 => Some(PortId::LeadOut),
                _ => None,
            },
            NodeType::CopyPath => match index {
                0 => Some(PortId::Anchor),
                1 => Some(PortId::Path),
                2 => Some(PortId::Start),
                3 => Some(PortId::End),
                _ => None,
            },
            NodeType::Bridge => match index {
                0 => Some(PortId::Anchor),
                1 => Some(PortId::InWeight),
                2 => Some(PortId::OutWeight),
                _ => None,
            },
            NodeType::Anchor => match index {
                0 => Some(PortId::Position),
                1 => Some(PortId::Rotation),
                _ => None,
            },
            NodeType::Reverse => match index {
                0 => Some(PortId::Anchor),
                _ => None,
            },
            NodeType::ReversePath => match index {
                0 => Some(PortId::Path),
                _ => None,
            },
        }
    }

    pub fn output_count(node_type: NodeType) -> (n: usize)
        ensures
            n == spec_outputs(node_type).len(),
    {
        match node_type {
            NodeType::Force => 2,
            NodeType::Geometric => 2,
            NodeType::Curved => 2,
            NodeType::CopyPath => 2,
            NodeType::Bridge => 2,
            NodeType::Anchor => 1,
            NodeType::Reverse => 1,
            NodeType::ReversePath => 1,
        }
    }

    pub fn output(node_type: NodeType, index: usize) -> (port: Option<PortId>)
        ensures
            port == spec_entry(spec_outputs(node_type), index as int),
    {
        match node_type {
            NodeType::Force
            | NodeType::Geometric
            | NodeType::Curved
            | NodeType::CopyPath
            | NodeType::Bridge => match index {
                0 => Some(PortId::Anchor),
                1 => Some(PortId::Path),
                _ => None,
            },
            NodeType::Anchor | NodeType::Reverse => match index {
                0 => Some(PortId::Anchor),
                _ => None,
            },
            NodeType::ReversePath => match index {
                0 => Some(PortId::Path),
                _ => None,
            },
        }
    }

    pub fn property_count(node_type: NodeType) -> (n: usize)
        ensures
            n == spec_properties(node_type).len(),
            n <= 7,
    {
        match node_type {
            NodeType::Force => 7,
            NodeType::Geometric => 7,
            NodeType::Curved => 5,
            NodeType::CopyPath => 4,
            NodeType::Bridge => 5,
            NodeType::Anchor => 0,
            NodeType::Reverse => 0,
            NodeType::ReversePath => 0,
        }
    }

    pub fn property(node_type: NodeType, index: usize) -> (property: Option<PropertyId>)
        ensures
            property == spec_entry(spec_properties(node_type), index as int),
    {
        match node_type {
            NodeType::Force => match index {
                0 => Some(PropertyId::RollSpeed),
                1 => Some(PropertyId::NormalForce),
                2 => Some(PropertyId::LateralForce),
                3 => Some(PropertyId::DrivenVelocity),
                4 => Some(PropertyId::HeartOffset),
                5 => Some(PropertyId::Friction),
                6 => Some(PropertyId::Resistance),
                _ => None,
            },
            NodeType::Geometric => match index {
                0 => Some(PropertyId::RollSpeed),
                1 => Some(PropertyId::PitchSpeed),
                2 => Some(PropertyId::YawSpeed),
                3 => Some(PropertyId::DrivenVelocity),
                4 => Some(PropertyId::HeartOffset),
                5 => Some(PropertyId::Friction),
                6 => Some(PropertyId::Resistance),
                _ => None,
            },
            NodeType::Curved => match index {
                0 => Some(PropertyId::RollSpeed),
                1 => Some(PropertyId::DrivenVelocity),
                2 => Some(PropertyId::HeartOffset),
                3 => Some(PropertyId::Friction),
                4 => Some(PropertyId::Resistance),
                _ => None,
            },
            NodeType::CopyPath => match index {
                0 => Some(PropertyId::DrivenVelocity),
                1 => Some(PropertyId::HeartOffset),
                2 => Some(PropertyId::Friction),
                3 => Some(PropertyId::Resistance),
                _ => None,
            },
            NodeType::Bridge => match index {
                0 => Some(PropertyId::DrivenVelocity),
                1 => Some(PropertyId::HeartOffset),
                2 => Some(PropertyId::Friction),
                3 => Some(PropertyId::Resistance),
                4 => Some(PropertyId::TrackStyle),
                _ => None,
            },
            NodeType::Anchor | NodeType::Reverse | NodeType::ReversePath => None,
        }
    }
}

/// The ordinal of a property within a node type, or -1 where the node type
/// does not carry the property.
pub open spec fn spec_to_index(property: PropertyId, node: NodeType) -> int {
    let table = spec_properties(node);
    if table.contains(property) {
        table.index_of(property)
    } else {
        -1
    }
}

/// The property at an ordinal of a node type, if the ordinal is in range.
pub open spec fn spec_from_index(index: int, node: NodeType) -> Option<PropertyId> {
    spec_entry(spec_properties(node), index)
}

/// No node type lists a property twice.
pub proof fn lemma_properties_distinct(node: NodeType)
    ensures
        spec_properties(node).no_duplicates(),
{
    let table = spec_properties(node);
    assert forall|i: int, j: int| 0 <= i < table.len() && 0 <= j < table.len() && i != j implies table[i] != table[j] by {
        assert(table[i].spec_code() != table[j].spec_code());
    }
}

/// The property found at ordinal `i` of a node type has ordinal `i` there.
pub proof fn lemma_index_of_entry(node: NodeType, i: int)
    requires
        0 <= i < spec_properties(node).len(),
    ensures
        spec_to_index(spec_properties(node)[i], node) == i,
{
    let table = spec_properties(node);
    lemma_properties_distinct(node);
    assert(table.contains(table[i]));
    let j = table.index_of(table[i]);
    assert(0 <= j < table.len() && table[j] == table[i]);
}

/// Round trip from a property to its ordinal and back: where a node type
/// carries the property, the property's ordinal leads back to it.
pub proof fn lemma_to_index_from_index(property: PropertyId, node: NodeType)
    requires
        spec_properties(node).contains(property),
    ensures
        0 <= spec_to_index(property, node) < spec_properties(node).len(),
        spec_from_index(spec_to_index(property, node), node) == Some(property),
{
    let table = spec_properties(node);
    let j = table.index_of(property);
    assert(0 <= j < table.len() && table[j] == property);
}

/// Round trip from an ordinal to its property and back: an ordinal that
/// names a property is that property's ordinal.
pub proof fn lemma_from_index_to_index(index: int, node: NodeType)
    requires
        spec_from_index(index, node).is_some(),
    ensures
        spec_to_index(spec_from_index(index, node).unwrap(), node) == index,
{
    lemma_index_of_entry(node, index);
}

/// An ordinal names an input, an output or a property exactly when it is
/// below the respective count.
pub proof fn lemma_entries_complete(node: NodeType, index: int)
    ensures
        spec_entry(spec_inputs(node), index).is_some() <==> 0 <= index < spec_inputs(node).len(),
        spec_entry(spec_outputs(node), index).is_some() <==> 0 <= index < spec_outputs(node).len(),
        spec_entry(spec_properties(node), index).is_some() <==> 0 <= index < spec_properties(
            node,
        ).len(),
{
}

/// Conversion between a property and its ordinal within a node type.
pub struct PropertyIndex;

impl PropertyIndex {
    pub fn to_index(property: PropertyId, node: NodeType) -> (index: i32)
        ensures
            index == spec_to_index(property, node),
            -1 <= index < spec_properties(node).len(),
            index >= 0 <==> spec_properties(node).contains(property),
            index >= 0 ==> spec_properties(node)[index as int] == property,
    {
        let count = NodeSchema::property_count(node);
        let ghost table = spec_properties(node);
        let mut i: usize = 0;
        while i < count
            invariant
                i <= count,
                count == table.len(),
                count <= 7,
                table == spec_properties(node),
                forall|k: int| 0 <= k < i ==> table[k] != property,
            decreases count - i,
        {
            if let Some(prop) = NodeSchema::property(node, i) {
                if prop == property {
                    proof {
                        lemma_index_of_entry(node, i as int);
                    }
                    return i as i32;
                }
            }
            i += 1;
        }
        -1
    }

    pub fn from_index(index: i32, node: NodeType) -> (property: Option<PropertyId>)
        ensures
            property == spec_from_index(index as int, node),
    {
        if index < 0 || index as usize >= NodeSchema::property_count(node) {
            None
        } else {
            NodeSchema::property(node, index as usize)
        }
    }
}

} // verus!
