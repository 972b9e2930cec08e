use kexedit::{DurationType, NodeSchema, NodeType, PortId, PropertyId, PropertyIndex};

const ALL_NODE_TYPES: [NodeType; 8] = [
    NodeType::Force,
    NodeType::Geometric,
    NodeType::Curved,
    NodeType::CopyPath,
    NodeType::Bridge,
    NodeType::Anchor,
    NodeType::Reverse,
    NodeType::ReversePath,
];

const ALL_PROPERTIES: [PropertyId; 10] = [
    PropertyId::RollSpeed,
    PropertyId::NormalForce,
    PropertyId::LateralForce,
    PropertyId::PitchSpeed,
    PropertyId::YawSpeed,
    PropertyId::DrivenVelocity,
    PropertyId::HeartOffset,
    PropertyId::Friction,
    PropertyId::Resistance,
    PropertyId::TrackStyle,
];

#[test]
fn property_index_roundtrip() {
    let test_cases = vec![
        (PropertyId::RollSpeed, NodeType::Force, 0),
        (PropertyId::NormalForce, NodeType::Force, 1),
        (PropertyId::LateralForce, NodeType::Force, 2),
        (PropertyId::PitchSpeed, NodeType::Geometric, 1),
        (PropertyId::YawSpeed, NodeType::Geometric, 2),
        (PropertyId::DrivenVelocity, NodeType::Curved, 1),
        (PropertyId::TrackStyle, NodeType::Bridge, 4),
    ];

    for (property, node, expected_index) in test_cases {
        let index = PropertyIndex::to_index(property, node);
        assert_eq!(index, expected_index, "to_index failed for {:?}, {:?}", property, node);

        let recovered = PropertyIndex::from_index(index, node);
        assert_eq!(recovered, Some(property), "from_index failed for index {}, {:?}", index, node);
    }
}

#[test]
fn property_index_invalid() {
    assert_eq!(PropertyIndex::to_index(PropertyId::NormalForce, NodeType::Geometric), -1);
    assert_eq!(PropertyIndex::to_index(PropertyId::TrackStyle, NodeType::Force), -1);
    assert_eq!(PropertyIndex::from_index(99, NodeType::Force), None);
    assert_eq!(PropertyIndex::from_index(-1, NodeType::Force), None);
}

#[test]
fn node_schema_input_counts() {
    assert_eq!(NodeSchema::input_count(NodeType::Force), 2);
    assert_eq!(NodeSchema::input_count(NodeType::Geometric), 2);
    assert_eq!(NodeSchema::input_count(NodeType::Curved), 6);
    assert_eq!(NodeSchema::input_count(NodeType::CopyPath), 4);
    assert_eq!(NodeSchema::input_count(NodeType::Bridge), 3);
    assert_eq!(NodeSchema::input_count(NodeType::Anchor), 2);
    assert_eq!(NodeSchema::input_count(NodeType::Reverse), 1);
    assert_eq!(NodeSchema::input_count(NodeType::ReversePath), 1);
}

#[test]
fn node_schema_output_counts() {
    assert_eq!(NodeSchema::output_count(NodeType::Force), 2);
    assert_eq!(NodeSchema::output_count(NodeType::Geometric), 2);
    assert_eq!(NodeSchema::output_count(NodeType::Curved), 2);
    assert_eq!(NodeSchema::output_count(NodeType::CopyPath), 2);
    assert_eq!(NodeSchema::output_count(NodeType::Bridge), 2);
    assert_eq!(NodeSchema::output_count(NodeType::Anchor), 1);
    assert_eq!(NodeSchema::output_count(NodeType::Reverse), 1);
    assert_eq!(NodeSchema::output_count(NodeType::ReversePath), 1);
}

#[test]
fn node_schema_property_counts() {
    assert_eq!(NodeSchema::property_count(NodeType::Force), 7);
    assert_eq!(NodeSchema::property_count(NodeType::Geometric), 7);
    assert_eq!(NodeSchema::property_count(NodeType::Curved), 5);
    assert_eq!(NodeSchema::property_count(NodeType::CopyPath), 4);
    assert_eq!(NodeSchema::property_count(NodeType::Bridge), 5);
    assert_eq!(NodeSchema::property_count(NodeType::Anchor), 0);
    assert_eq!(NodeSchema::property_count(NodeType::Reverse), 0);
    assert_eq!(NodeSchema::property_count(NodeType::ReversePath), 0);
}

#[test]
fn node_schema_force_inputs() {
    assert_eq!(NodeSchema::input(NodeType::Force, 0), Some(PortId::Anchor));
    assert_eq!(NodeSchema::input(NodeType::Force, 1), Some(PortId::Duration));
    assert_eq!(NodeSchema::input(NodeType::Force, 2), None);
}

#[test]
fn node_schema_curved_inputs() {
    assert_eq!(NodeSchema::input(NodeType::Curved, 0), Some(PortId::Anchor));
    assert_eq!(NodeSchema::input(NodeType::Curved, 1), Some(PortId::Radius));
    assert_eq!(NodeSchema::input(NodeType::Curved, 2), Some(PortId::Arc));
    assert_eq!(NodeSchema::input(NodeType::Curved, 3), Some(PortId::Axis));
    assert_eq!(NodeSchema::input(NodeType::Curved, 4), Some(PortId::LeadIn));
    assert_eq!(NodeSchema::input(NodeType::Curved, 5), Some(PortId::LeadOut));
    assert_eq!(NodeSchema::input(NodeType::Curved, 6), None);
}

#[test]
fn node_schema_outputs() {
    assert_eq!(NodeSchema::output(NodeType::Force, 0), Some(PortId::Anchor));
    assert_eq!(NodeSchema::output(NodeType::Force, 1), Some(PortId::Path));
    assert_eq!(NodeSchema::output(NodeType::Anchor, 0), Some(PortId::Anchor));
    assert_eq!(NodeSchema::output(NodeType::ReversePath, 0), Some(PortId::Path));
}

#[test]
fn node_schema_force_properties() {
    assert_eq!(NodeSchema::property(NodeType::Force, 0), Some(PropertyId::RollSpeed));
    assert_eq!(NodeSchema::property(NodeType::Force, 1), Some(PropertyId::NormalForce));
    assert_eq!(NodeSchema::property(NodeType::Force, 2), Some(PropertyId::LateralForce));
    assert_eq!(NodeSchema::property(NodeType::Force, 3), Some(PropertyId::DrivenVelocity));
    assert_eq!(NodeSchema::property(NodeType::Force, 4), Some(PropertyId::HeartOffset));
    assert_eq!(NodeSchema::property(NodeType::Force, 5), Some(PropertyId::Friction));
    assert_eq!(NodeSchema::property(NodeType::Force, 6), Some(PropertyId::Resistance));
    assert_eq!(NodeSchema::property(NodeType::Force, 7), None);
}

#[test]
fn node_schema_geometric_properties() {
    assert_eq!(NodeSchema::property(NodeType::Geometric, 0), Some(PropertyId::RollSpeed));
    assert_eq!(NodeSchema::property(NodeType::Geometric, 1), Some(PropertyId::PitchSpeed));
    assert_eq!(NodeSchema::property(NodeType::Geometric, 2), Some(PropertyId::YawSpeed));
}

#[test]
fn node_schema_bridge_properties() {
    assert_eq!(NodeSchema::property(NodeType::Bridge, 4), Some(PropertyId::TrackStyle));
}

#[test]
fn all_node_types_complete() {
    for node_type in [
        NodeType::Force,
        NodeType::Geometric,
        NodeType::Curved,
        NodeType::CopyPath,
        NodeType::Bridge,
        NodeType::Anchor,
        NodeType::Reverse,
        NodeType::ReversePath,
    ] {
        let input_count = NodeSchema::input_count(node_type);
        for i in 0..input_count {
            assert!(
                NodeSchema::input(node_type, i).is_some(),
                "Missing input {} for {:?}",
                i,
                node_type
            );
        }
        assert!(NodeSchema::input(node_type, input_count).is_none());

        let output_count = NodeSchema::output_count(node_type);
        for i in 0..output_count {
            assert!(
                NodeSchema::output(node_type, i).is_some(),
                "Missing output {} for {:?}",
                i,
                node_type
            );
        }
        assert!(NodeSchema::output(node_type, output_count).is_none());

        let property_count = NodeSchema::property_count(node_type);
        for i in 0..property_count {
            assert!(
                NodeSchema::property(node_type, i).is_some(),
                "Missing property {} for {:?}",
                i,
                node_type
            );
        }
        assert!(NodeSchema::property(node_type, property_count).is_none());
    }
}

#[test]
fn all_properties_have_index() {
    let test_matrix = vec![
        (NodeType::Force, vec![
            PropertyId::RollSpeed,
            PropertyId::NormalForce,
            PropertyId::LateralForce,
            PropertyId::DrivenVelocity,
            PropertyId::HeartOffset,
            PropertyId::Friction,
            PropertyId::Resistance,
        ]),
        (NodeType::Geometric, vec![
            PropertyId::RollSpeed,
            PropertyId::PitchSpeed,
            PropertyId::YawSpeed,
            PropertyId::DrivenVelocity,
            PropertyId::HeartOffset,
            PropertyId::Friction,
            PropertyId::Resistance,
        ]),
        (NodeType::Curved, vec![
            PropertyId::RollSpeed,
            PropertyId::DrivenVelocity,
            PropertyId::HeartOffset,
            PropertyId::Friction,
            PropertyId::Resistance,
        ]),
        (NodeType::CopyPath, vec![
            PropertyId::DrivenVelocity,
            PropertyId::HeartOffset,
            PropertyId::Friction,
            PropertyId::Resistance,
        ]),
        (NodeType::Bridge, vec![
            PropertyId::DrivenVelocity,
            PropertyId::HeartOffset,
            PropertyId::Friction,
            PropertyId::Resistance,
            PropertyId::TrackStyle,
        ]),
    ];

    for (node_type, properties) in test_matrix {
        for property in properties {
            let index = PropertyIndex::to_index(property, node_type);
            assert!(
                index >= 0,
                "{:?} should have valid index for {:?}",
                property,
                node_type
            );
            let recovered = PropertyIndex::from_index(index, node_type);
            assert_eq!(
                recovered,
                Some(property),
                "Roundtrip failed for {:?} on {:?}",
                property,
                node_type
            );
        }
    }
}

#[test]
fn const_evaluation_works() {
    let input_count: usize = NodeSchema::input_count(NodeType::Force);
    assert_eq!(input_count, 2);

    let property_count: usize = NodeSchema::property_count(NodeType::Geometric);
    assert_eq!(property_count, 7);
}

#[test]
fn property_round_trip_over_every_pair() {
    for node in ALL_NODE_TYPES {
        let count = NodeSchema::property_count(node) as i32;
        for property in ALL_PROPERTIES {
            let index = PropertyIndex::to_index(property, node);
            assert!(-1 <= index && index < count);
            if index >= 0 {
                assert_eq!(PropertyIndex::from_index(index, node), Some(property));
            } else {
                for i in 0..count {
                    assert_ne!(PropertyIndex::from_index(i, node), Some(property));
                }
            }
        }
        for i in 0..count {
            let property = PropertyIndex::from_index(i, node).unwrap();
            assert_eq!(PropertyIndex::to_index(property, node), i);
        }
        assert_eq!(PropertyIndex::from_index(count, node), None);
        assert_eq!(PropertyIndex::from_index(i32::MIN, node), None);
        assert_eq!(PropertyIndex::from_index(i32::MAX, node), None);
    }
}

#[test]
fn schema_tables_in_full() {
    let inputs = |n: NodeType| -> Vec<PortId> {
        (0..NodeSchema::input_count(n)).map(|i| NodeSchema::input(n, i).unwrap()).collect()
    };
    let outputs = |n: NodeType| -> Vec<PortId> {
        (0..NodeSchema::output_count(n)).map(|i| NodeSchema::output(n, i).unwrap()).collect()
    };
    assert_eq!(inputs(NodeType::Geometric), vec![PortId::Anchor, PortId::Duration]);
    assert_eq!(
        inputs(NodeType::CopyPath),
        vec![PortId::Anchor, PortId::Path, PortId::Start, PortId::End]
    );
    assert_eq!(inputs(NodeType::Bridge), vec![PortId::Anchor, PortId::InWeight, PortId::OutWeight]);
    assert_eq!(inputs(NodeType::Anchor), vec![PortId::Position, PortId::Rotation]);
    assert_eq!(inputs(NodeType::Reverse), vec![PortId::Anchor]);
    assert_eq!(inputs(NodeType::ReversePath), vec![PortId::Path]);
    for n in [NodeType::Geometric, NodeType::Curved, NodeType::CopyPath, NodeType::Bridge] {
        assert_eq!(outputs(n), vec![PortId::Anchor, PortId::Path]);
    }
    assert_eq!(outputs(NodeType::Reverse), vec![PortId::Anchor]);
    assert_eq!(NodeSchema::output(NodeType::Anchor, 1), None);
    assert_eq!(NodeSchema::input(NodeType::Force, usize::MAX), None);
    assert_eq!(NodeSchema::property(NodeType::Anchor, 0), None);
    assert_eq!(NodeSchema::property(NodeType::Curved, 0), Some(PropertyId::RollSpeed));
    assert_eq!(NodeSchema::property(NodeType::Curved, 4), Some(PropertyId::Resistance));
    assert_eq!(NodeSchema::property(NodeType::Curved, 5), None);
    assert_eq!(NodeSchema::property(NodeType::CopyPath, 0), Some(PropertyId::DrivenVelocity));
    assert_eq!(NodeSchema::property(NodeType::CopyPath, 4), None);
}

#[test]
fn codes_and_indices() {
    for (i, node) in ALL_NODE_TYPES.iter().enumerate() {
        assert_eq!(node.as_index(), i);
    }
    assert_eq!(NodeType::COUNT, 8);
    for (i, property) in ALL_PROPERTIES.iter().enumerate() {
        assert_eq!(property.code() as usize, i);
        assert_eq!(PropertyId::from_code(i as u8), Some(*property));
    }
    assert_eq!(PropertyId::from_code(10), None);
    assert_eq!(PortId::Anchor.code(), 0);
    assert_eq!(PortId::Rotation.code(), 13);
    for c in 0u8..14 {
        assert_eq!(PortId::from_code(c).unwrap().code(), c);
    }
    assert_eq!(PortId::from_code(14), None);
    assert_eq!(PortId::from_code(255), None);
    assert_eq!(DurationType::from_code(0), Some(DurationType::Time));
    assert_eq!(DurationType::from_code(1), Some(DurationType::Distance));
    assert_eq!(DurationType::from_code(2), None);
    assert_eq!(DurationType::from_code(-1), None);
}
