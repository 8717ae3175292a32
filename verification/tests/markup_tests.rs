use counter_ui::markup::{el_to_string, is_void_element};
use counter_ui::msg::Msg;
use counter_ui::vnode::{empty, simple_ev, Attrs, Element, VNode};

fn element(tag: &str, attrs: &[(&str, &str)], children: Vec<VNode>) -> VNode {
    let mut el = Element::empty(tag);
    for (key, val) in attrs {
        el.add_attr(key, val);
    }
    el.add_children(children);
    el.into_node()
}

fn text(content: &str) -> VNode {
    VNode::new_text(content)
}

#[test]
fn text_node_is_its_content() {
    assert_eq!(el_to_string(&text("a < b & c")), "a < b & c");
    assert_eq!(el_to_string(&text("")), "");
}

#[test]
fn empty_node_is_nothing() {
    assert_eq!(el_to_string(&empty()), "");
    assert_eq!(el_to_string(&VNode::Empty), "");
}

#[test]
fn element_with_text_child() {
    let node = element("div", &[], vec![text("x")]);
    assert_eq!(el_to_string(&node), "<div>x</div>");
}

#[test]
fn element_without_children() {
    assert_eq!(el_to_string(&element("div", &[], vec![])), "<div></div>");
}

#[test]
fn void_element_drops_children() {
    let node = element("br", &[], vec![text("ignored")]);
    assert_eq!(el_to_string(&node), "<br>");
}

#[test]
fn void_element_keeps_attributes() {
    let node = element("img", &[("src", "a.png"), ("alt", "A")], vec![text("ignored")]);
    assert_eq!(el_to_string(&node), "<img src=\"a.png\" alt=\"A\">");
}

#[test]
fn every_void_tag_is_written_without_closing_tag() {
    let tags = [
        "area", "base", "br", "col", "embed", "hr", "img", "input", "link", "meta", "param",
        "source", "track", "wbr",
    ];
    for tag in tags {
        assert!(is_void_element(tag));
        let node = element(tag, &[], vec![text("ignored"), element("b", &[], vec![])]);
        assert_eq!(el_to_string(&node), format!("<{}>", tag));
    }
}

#[test]
fn other_tags_are_not_void() {
    for tag in ["div", "p", "wrb", "BR", "br ", "", "inputs", "a", "span", "button"] {
        assert!(!is_void_element(tag));
    }
    assert_eq!(el_to_string(&element("wrb", &[], vec![text("kept")])), "<wrb>kept</wrb>");
}

#[test]
fn single_attribute() {
    let node = element("input", &[("value", "5")], vec![]);
    assert_eq!(el_to_string(&node), "<input value=\"5\">");
}

#[test]
fn attributes_in_insertion_order() {
    let node = element("a", &[("href", "/x"), ("class", "k"), ("data-n", "1")], vec![]);
    assert_eq!(el_to_string(&node), "<a href=\"/x\" class=\"k\" data-n=\"1\"></a>");
    let node = element("a", &[("data-n", "1"), ("class", "k"), ("href", "/x")], vec![]);
    assert_eq!(el_to_string(&node), "<a data-n=\"1\" class=\"k\" href=\"/x\"></a>");
}

#[test]
fn second_attribute_of_the_same_name_overwrites() {
    let node = element("input", &[("value", "5"), ("type", "text"), ("value", "6")], vec![]);
    assert_eq!(el_to_string(&node), "<input value=\"6\" type=\"text\">");
}

#[test]
fn attribute_text_is_written_as_it_is() {
    let node = element("p", &[("title", ""), ("made-up", "a b")], vec![]);
    assert_eq!(el_to_string(&node), "<p title=\"\" made-up=\"a b\"></p>");
}

#[test]
fn attrs_to_string_joins_with_single_spaces() {
    let mut attrs = Attrs::empty();
    assert_eq!(attrs.to_string(), "");
    attrs.add("id", "main");
    assert_eq!(attrs.to_string(), "id=\"main\"");
    attrs.add("class", "a b");
    attrs.add("azimuth", "1");
    assert_eq!(attrs.to_string(), "id=\"main\" class=\"a b\" azimuth=\"1\"");
}

#[test]
fn children_are_written_in_order() {
    let node = element(
        "ul",
        &[("class", "list")],
        vec![
            element("li", &[], vec![text("one")]),
            text(" and "),
            element("li", &[], vec![text("two"), element("br", &[], vec![])]),
        ],
    );
    assert_eq!(
        el_to_string(&node),
        "<ul class=\"list\"><li>one</li> and <li>two<br></li></ul>"
    );
}

#[test]
fn deep_nesting() {
    let mut node = text("core");
    let mut expected = String::from("core");
    for _ in 0..200 {
        node = element("div", &[], vec![node]);
        expected = format!("<div>{}</div>", expected);
    }
    assert_eq!(el_to_string(&node), expected);
}

#[test]
fn only_empty_children_is_as_no_children() {
    let with_empties = element("section", &[], vec![empty(), empty(), empty()]);
    let without = element("section", &[], vec![]);
    assert_eq!(el_to_string(&with_empties), "<section></section>");
    assert_eq!(el_to_string(&with_empties), el_to_string(&without));
}

#[test]
fn empty_children_between_others_leave_no_trace() {
    let node = element("p", &[], vec![empty(), text("a"), empty(), text("b"), empty()]);
    assert_eq!(el_to_string(&node), "<p>ab</p>");
}

#[test]
fn style_and_bound_events_are_not_written() {
    let mut el = Element::empty("button");
    el.add_style("padding", "50px");
    el.add_style("color", "red");
    el.add_listener(simple_ev("click", Msg::Increment));
    el.add_text("+");
    assert_eq!(el_to_string(&el.into_node()), "<button>+</button>");
}

#[test]
fn writing_twice_gives_the_same_text() {
    let node = element("div", &[("class", "c")], vec![text("x"), empty()]);
    assert_eq!(el_to_string(&node), el_to_string(&node));
    assert_eq!(el_to_string(&node.clone()), el_to_string(&node));
}
