use azul::dom::AzDomVec;
use azul::dom::Dom;
use azul::dom::IdOrClass;
use azul::dom::NodeData;
use azul::dom::NodeDataInlineCssProperty;
use azul::dom::NodeType;
use azul::dom::TabIndex;
use azul::css::CssProperty;
use azul::css::CssPropertyType;
use azul::optional::FfiOption;
use azul::refany::AzRefAny;
use azul::refany::RefArena;
use azul::string::AzString;
use azul::vector::BufferHeap;
use azul::vector::Vector;

#[test]
fn fresh_nodes_carry_their_kind_and_nothing_else() {
    let n = NodeData::new(NodeType::Body);
    assert!(matches!(n.node_type, NodeType::Body));
    assert!(matches!(n.dataset, FfiOption::Absent));
    assert_eq!(n.ids_and_classes.len(), 0);
    assert_eq!(n.callbacks.len(), 0);
    assert_eq!(n.inline_css_props.len(), 0);
    assert!(matches!(n.clip_mask, FfiOption::Absent));
    assert!(matches!(n.tab_index, FfiOption::Absent));

    assert!(matches!(NodeData::div().node_type, NodeType::Div));
    assert!(matches!(NodeData::body().node_type, NodeType::Body));
    assert!(matches!(NodeData::br().node_type, NodeType::Br));
    assert!(matches!(NodeData::const_default().node_type, NodeType::Div));

    let l = NodeData::label(AzString::from_const_str("hello"));
    match &l.node_type {
        NodeType::Label(s) => assert_eq!(s.as_bytes(), b"hello"),
        _ => panic!("expected a label node"),
    }
}

#[test]
fn node_setters_and_builders_store_what_they_are_given() {
    let mut n = NodeData::div();
    n.set_tab_index(FfiOption::Present(TabIndex::NoKeyboardFocus));
    assert_eq!(n.get_tab_index(), FfiOption::Present(TabIndex::NoKeyboardFocus));

    let ids = Vector::from_const_slice(vec![
        IdOrClass::Id(AzString::from_const_str("root")),
        IdOrClass::Class(AzString::from_const_str("wide")),
    ]);
    n.set_ids_and_classes(ids);
    assert_eq!(n.get_ids_and_classes().len(), 2);

    let props = Vector::from_const_slice(vec![NodeDataInlineCssProperty::Normal(
        CssProperty::auto(CssPropertyType::Width),
    )]);
    let n = n.with_inline_css_props(props);
    assert_eq!(n.get_inline_css_props().len(), 1);
    assert!(matches!(n.get_node_type(), NodeType::Div));
}

#[test]
fn dataset_hangs_an_erased_handle_onto_a_node() {
    let mut arena = RefArena::new();
    let data = AzRefAny::new(
        vec![1, 2, 3],
        77,
        AzString::from_const_str("payload"),
        &mut arena,
    );
    let mut d = Dom::div();
    d.set_dataset(data);
    match &d.root.dataset {
        FfiOption::Present(h) => assert!(h.is_type(&arena, 77)),
        FfiOption::Absent => panic!("expected a dataset"),
    }
}

#[test]
fn set_children_recomputes_the_descendant_estimate() {
    let mut d = Dom::div();
    assert_eq!(d.estimated_total_children, 0);

    let children = AzDomVec::from_const_slice(vec![Dom::div(), Dom::br()]);
    d.set_children(children);
    assert_eq!(d.estimated_total_children, 2);

    let mut parent = Dom::body();
    let nested = AzDomVec::from_const_slice(vec![d]);
    parent.set_children(nested);
    assert_eq!(parent.estimated_total_children, 3);
    assert_eq!(parent.children.len(), 1);
    assert!(matches!(parent.root.node_type, NodeType::Body));
}

#[test]
fn from_iter_collects_under_a_fresh_division() {
    let mut heap = BufferHeap::new();
    let d = Dom::from_iter(vec![Dom::div(), Dom::div(), Dom::br()], &mut heap);
    assert!(matches!(d.root.node_type, NodeType::Div));
    assert_eq!(d.estimated_total_children, 3);
    assert_eq!(d.children.len(), 3);
    assert!(d.children.get(3).is_none());
    assert_eq!(heap.allocations(), 1);
}

#[test]
fn with_children_builds_the_same_tree_as_set_children() {
    let a = Dom::div().with_children(AzDomVec::from_const_slice(vec![Dom::br()]));
    assert_eq!(a.estimated_total_children, 1);
    assert!(matches!(a.children.get(0).unwrap().root.node_type, NodeType::Br));
}
