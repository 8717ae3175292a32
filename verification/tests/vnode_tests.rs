use counter_ui::ordered_map::OrderedMap;
use counter_ui::msg::Msg;
use counter_ui::vnode::{
    empty, input_ev, simple_ev, Attrs, Element, Handler, InputMsg, Listener, Style, VNode,
};

fn pair(key: &str, val: &str) -> (String, String) {
    (key.to_string(), val.to_string())
}

#[test]
fn bare_element_holds_nothing() {
    let el = Element::empty("div");
    assert_eq!(el.tag, "div");
    assert!(el.attrs.vals.is_empty());
    assert!(el.style.vals.is_empty());
    assert!(el.listeners.is_empty());
    assert!(el.children.is_empty());
}

#[test]
fn empty_attrs_and_style() {
    assert_eq!(Attrs::empty(), Attrs { vals: OrderedMap::new() });
    assert_eq!(Style::empty(), Style { vals: OrderedMap::new() });
}

#[test]
fn builders_fill_the_element() {
    let mut el = Element::empty("p");
    el.add_attr("class", "a");
    el.add_attr("id", "b");
    el.add_attr("class", "c");
    el.add_style("color", "red");
    el.add_style("color", "blue");
    el.add_listener(simple_ev("click", Msg::Fetch));
    el.add_text("one");
    el.add_child(empty());
    el.add_children(vec![VNode::new_text("two"), VNode::new_text("three")]);
    assert_eq!(el.attrs.vals.entries(), &vec![pair("class", "c"), pair("id", "b")]);
    assert_eq!(el.style.vals.entries(), &vec![pair("color", "blue")]);
    assert_eq!(
        el.listeners,
        vec![Listener { trigger: "click".to_string(), handler: Handler::Simple(Msg::Fetch) }]
    );
    assert_eq!(
        el.children,
        vec![
            VNode::Text("one".to_string()),
            VNode::Empty,
            VNode::Text("two".to_string()),
            VNode::Text("three".to_string()),
        ]
    );
}

#[test]
fn into_node_wraps_the_element() {
    let mut el = Element::empty("p");
    el.add_text("x");
    let copy = el.clone();
    assert_eq!(el.into_node(), VNode::Element(copy));
}

#[test]
fn listeners_are_built_from_name_and_handler() {
    assert_eq!(
        simple_ev("click", Msg::Increment),
        Listener { trigger: "click".to_string(), handler: Handler::Simple(Msg::Increment) }
    );
    assert_eq!(
        input_ev("input", InputMsg::ChangeWWC),
        Listener { trigger: "input".to_string(), handler: Handler::Input(InputMsg::ChangeWWC) }
    );
}

#[test]
fn simple_handler_ignores_the_text() {
    let handler = Handler::Simple(Msg::Decrement);
    assert_eq!(handler.fire("anything".to_string()), Msg::Decrement);
}

#[test]
fn input_handler_makes_the_message_from_the_text() {
    assert_eq!(
        Handler::Input(InputMsg::ChangeWWC).fire("taps".to_string()),
        Msg::ChangeWWC("taps".to_string())
    );
    assert_eq!(Handler::Input(InputMsg::Log).fire("".to_string()), Msg::Log(String::new()));
}

#[test]
fn clone_copies_the_whole_tree() {
    let mut inner = Element::empty("input");
    inner.add_attr("value", "v");
    inner.add_listener(input_ev("input", InputMsg::Log));
    let mut outer = Element::empty("div");
    outer.add_style("margin", "0");
    outer.add_child(inner.into_node());
    outer.add_text("t");
    outer.add_child(empty());
    let node = outer.into_node();
    let copy = node.clone();
    assert_eq!(copy, node);
}
