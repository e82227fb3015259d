use sim_protocol::design_hierarchy::{
    CompactName, DesignHierarchy, Direction, Module, ModuleKind, Signal, SignalType,
};
use sim_protocol::SignalInstanceId;

#[test]
fn signal_instance_id_is_never_zero() {
    assert_eq!(SignalInstanceId::new(0), None);
    assert_eq!(SignalInstanceId::new(7), Some(SignalInstanceId(7)));
    assert_eq!(SignalInstanceId(7).get(), 7);
}

#[test]
fn compact_name_keeps_its_characters() {
    let n = CompactName::new("clk_divider");
    assert_eq!(n.as_str(), "clk_divider");
    let c = n.clone();
    assert_eq!(c.as_str(), "clk_divider");
    assert_eq!(CompactName::new("").as_str(), "");
}

#[test]
fn signal_construction_and_name() {
    let s = Signal::new(
        "data",
        SignalInstanceId(4),
        Some(SignalInstanceId(10)),
        SignalType::Integer { min: 0, max: 255, direction: Direction::To },
    );
    assert_eq!(s.name_str(), "data");
    assert_eq!(s.id, SignalInstanceId(4));
    assert_eq!(s.sub_id_start, Some(SignalInstanceId(10)));
}

#[test]
fn element_id_is_index_arithmetic_over_the_block() {
    let composite = Signal::new(
        "bus",
        SignalInstanceId(4),
        Some(SignalInstanceId(10)),
        SignalType::Array {
            left: 0,
            right: 7,
            direction: Direction::To,
            element_type: Box::new(SignalType::Bit),
        },
    );
    assert_eq!(composite.element_id(0), Some(SignalInstanceId(10)));
    assert_eq!(composite.element_id(7), Some(SignalInstanceId(17)));
    assert_eq!(composite.element_id(u32::MAX), None);
    let scalar = Signal::new("bit", SignalInstanceId(5), None, SignalType::Bit);
    assert_eq!(scalar.element_id(0), None);
}

fn sample_hierarchy() -> DesignHierarchy {
    let mut leaf = Module::new("u_leaf", ModuleKind::design_entity("leaf", "rtl"));
    leaf.push_signal(Signal::new("a", SignalInstanceId(3), None, SignalType::Bit));
    leaf.push_signal(Signal::new("b", SignalInstanceId(4), None, SignalType::Logic));
    let mut top = Module::new("u_top", ModuleKind::design_entity("top", "rtl"));
    top.push_signal(Signal::new(
        "count",
        SignalInstanceId(1),
        None,
        SignalType::Integer { min: 0, max: 255, direction: Direction::To },
    ));
    top.push_submodule(leaf);
    let mut pkg = Module::new("constants", ModuleKind::Package);
    pkg.push_signal(Signal::new("c", SignalInstanceId(9), None, SignalType::Bit));
    DesignHierarchy { root_modules: vec![top, pkg] }
}

#[test]
fn declared_ids_come_in_depth_first_declaration_order() {
    let h = sample_hierarchy();
    assert_eq!(h.collect_declared_ids(), vec![1, 3, 4, 9]);
}

#[test]
fn cloned_hierarchy_declares_the_same_ids() {
    let h = sample_hierarchy();
    let c = h.clone();
    assert_eq!(c.collect_declared_ids(), h.collect_declared_ids());
    assert_eq!(c.root_modules[0].name_str(), "u_top");
}

#[test]
fn module_kinds_carry_entity_and_architecture() {
    let kind = ModuleKind::design_entity("alu", "behavioral");
    match kind {
        ModuleKind::DesignEntity { entity, architecture } => {
            assert_eq!(entity.as_str(), "alu");
            assert_eq!(architecture.as_str(), "behavioral");
        },
        ModuleKind::Package => panic!("expected a design entity"),
    }
}

#[test]
fn identifier_uniqueness_is_checked_over_the_whole_tree() {
    assert!(sample_hierarchy().ids_unique());
    let mut top = Module::new("u_top", ModuleKind::design_entity("top", "rtl"));
    top.push_signal(Signal::new("a", SignalInstanceId(3), None, SignalType::Bit));
    let mut leaf = Module::new("u_leaf", ModuleKind::design_entity("leaf", "rtl"));
    leaf.push_signal(Signal::new("b", SignalInstanceId(3), None, SignalType::Bit));
    top.push_submodule(leaf);
    let duplicated = DesignHierarchy { root_modules: vec![top] };
    assert!(!duplicated.ids_unique());
}
