use counter_ui::markup::el_to_string;
use counter_ui::model::Model;
use counter_ui::msg::Msg;
use counter_ui::view::{
    view, view_httpbin_data, view_main, view_success_level, view_things, view_what_we_count,
};
use counter_ui::vnode::{Element, Handler, InputMsg, Listener, VNode};

fn pair(key: &str, val: &str) -> (String, String) {
    (key.to_string(), val.to_string())
}

fn as_element(node: &VNode) -> &Element {
    match node {
        VNode::Element(el) => el,
        other => panic!("not an element: {:?}", other),
    }
}

#[test]
fn success_level_by_the_hundreds() {
    let cases = [
        (0, "Not very many 🙁"),
        (599, "Not very many 🙁"),
        (600, "I got my first real six-string 😐"),
        (999, "I got my first real six-string 😐"),
        (1000, "Spinal Tap 🙂"),
        (1199, "Spinal Tap 🙂"),
        (1200, "Double pendulum 🙃"),
        (usize::MAX, "Double pendulum 🙃"),
    ];
    for (clicks, words) in cases {
        assert_eq!(el_to_string(&view_success_level(clicks)), format!("<p>{}</p>", words));
    }
}

#[test]
fn success_level_is_a_bare_paragraph() {
    let node = view_success_level(5);
    let el = as_element(&node);
    assert_eq!(el.tag, "p");
    assert!(el.attrs.vals.is_empty());
    assert!(el.style.vals.is_empty());
    assert!(el.listeners.is_empty());
    assert_eq!(el.children, vec![VNode::Text("Not very many 🙁".to_string())]);
}

#[test]
fn no_things_for_a_count_of_zero() {
    assert!(view_things(0, "clicks").is_empty());
}

#[test]
fn things_are_numbered_from_one() {
    let things = view_things(3, "clicks");
    let written: Vec<String> = things.iter().map(el_to_string).collect();
    assert_eq!(
        written,
        vec![
            "<div class=\"thing\">clicks 1</div>",
            "<div class=\"thing\">clicks 2</div>",
            "<div class=\"thing\">clicks 3</div>",
        ]
    );
}

#[test]
fn as_many_things_as_counted() {
    let things = view_things(500, "x");
    assert_eq!(things.len(), 500);
    assert_eq!(el_to_string(&things[9]), "<div class=\"thing\">x 10</div>");
    assert_eq!(el_to_string(&things[499]), "<div class=\"thing\">x 500</div>");
}

#[test]
fn no_payload_is_the_empty_node() {
    assert_eq!(view_httpbin_data(&None), VNode::Empty);
}

#[test]
fn payload_is_preformatted_code() {
    let json = "{\n  \"method\": \"GET\"\n}".to_string();
    let node = view_httpbin_data(&Some(json.clone()));
    assert_eq!(el_to_string(&node), format!("<pre><code>{}</code></pre>", json));
    let pre = as_element(&node);
    assert_eq!(pre.tag, "pre");
    let code = as_element(&pre.children[0]);
    assert_eq!(code.tag, "code");
    assert_eq!(code.children, vec![VNode::Text(json)]);
}

#[test]
fn what_we_count_is_a_heading_and_a_field() {
    let nodes = view_what_we_count("clicks");
    assert_eq!(nodes.len(), 2);
    assert_eq!(el_to_string(&nodes[0]), "<h3>What are we counting?</h3>");
    assert_eq!(el_to_string(&nodes[1]), "<input value=\"clicks\">");
    let field = as_element(&nodes[1]);
    assert_eq!(
        field.listeners,
        vec![Listener {
            trigger: "input".to_string(),
            handler: Handler::Input(InputMsg::ChangeWWC)
        }]
    );
    assert!(field.children.is_empty());
}

#[test]
fn main_part_of_the_default_model() {
    assert_eq!(
        el_to_string(&view_main(500, "clicks")),
        "<div class=\"failure main\"><h3>500 clicks so far</h3><p>Not very many 🙁</p>\
         <button>+</button><button>-</button><h2>Nice!</h2>\
         <h3>What are we counting?</h3><input value=\"clicks\"></div>"
    );
}

#[test]
fn main_part_below_ten_has_no_praise() {
    assert_eq!(
        el_to_string(&view_main(9, "taps")),
        "<div class=\"failure main\"><h3>9 taps so far</h3><p>Not very many 🙁</p>\
         <button>+</button><button>-</button>\
         <h3>What are we counting?</h3><input value=\"taps\"></div>"
    );
    let node = view_main(9, "taps");
    assert_eq!(as_element(&node).children[4], VNode::Empty);
    assert_eq!(as_element(&node).children.len(), 7);
}

#[test]
fn main_part_is_a_success_above_one_thousand() {
    let at = view_main(1000, "clicks");
    assert_eq!(as_element(&at).attrs.vals.entries(), &vec![pair("class", "failure main")]);
    let above = view_main(1001, "clicks");
    assert_eq!(as_element(&above).attrs.vals.entries(), &vec![pair("class", "success main")]);
}

#[test]
fn praise_is_padded_by_fifty_pixels() {
    let node = view_main(10, "clicks");
    let praise = as_element(&as_element(&node).children[4]);
    assert_eq!(praise.tag, "h2");
    assert_eq!(praise.style.vals.entries(), &vec![pair("padding", "50px")]);
    assert_eq!(praise.children, vec![VNode::Text("Nice!".to_string())]);
}

#[test]
fn buttons_are_bound_to_the_counter_messages() {
    let node = view_main(0, "clicks");
    let main = as_element(&node);
    let plus = as_element(&main.children[2]);
    let minus = as_element(&main.children[3]);
    assert_eq!(
        plus.listeners,
        vec![Listener { trigger: "click".to_string(), handler: Handler::Simple(Msg::Increment) }]
    );
    assert_eq!(
        minus.listeners,
        vec![Listener { trigger: "click".to_string(), handler: Handler::Simple(Msg::Decrement) }]
    );
}

#[test]
fn whole_view_of_a_small_model() {
    let model = Model { count: 2, what_we_count: "taps".to_string(), httpbin_data: None };
    let main = "<div class=\"failure main\"><h3>2 taps so far</h3><p>Not very many 🙁</p>\
                <button>+</button><button>-</button>\
                <h3>What are we counting?</h3><input value=\"taps\"></div>";
    let expected = format!(
        "<div><h1>The Grand Total</h1>{main}<button>Fetch data!</button>\
         <pre><code>{main}</code></pre>\
         <div class=\"thing-container\"><div class=\"thing\">taps 1</div>\
         <div class=\"thing\">taps 2</div></div></div>",
        main = main
    );
    assert_eq!(el_to_string(&view(&model, &None)), expected);
}

#[test]
fn whole_view_shows_the_payload() {
    let model = Model { count: 0, what_we_count: "taps".to_string(), httpbin_data: None };
    let node = view(&model, &Some("{}".to_string()));
    let app = as_element(&node);
    assert_eq!(app.children.len(), 6);
    assert_eq!(el_to_string(&app.children[3]), "<pre><code>{}</code></pre>");
    let without = view(&model, &None);
    assert_eq!(as_element(&without).children[3], VNode::Empty);
}

#[test]
fn whole_view_structure() {
    let node = view(&Model::default(), &None);
    let app = as_element(&node);
    assert_eq!(app.tag, "div");
    let title = as_element(&app.children[0]);
    assert_eq!(title.tag, "h1");
    assert_eq!(title.style.vals.entries(), &vec![pair("text-align", "center")]);
    assert_eq!(app.children[1], view_main(500, "clicks"));
    let fetch = as_element(&app.children[2]);
    assert_eq!(
        fetch.listeners,
        vec![Listener { trigger: "click".to_string(), handler: Handler::Simple(Msg::Fetch) }]
    );
    let code = as_element(&as_element(&app.children[4]).children[0]);
    assert_eq!(code.children, vec![VNode::Text(el_to_string(&view_main(500, "clicks")))]);
    let container = as_element(&app.children[5]);
    assert_eq!(container.attrs.vals.entries(), &vec![pair("class", "thing-container")]);
    assert_eq!(container.children, view_things(500, "clicks"));
}

#[test]
fn view_is_built_anew_each_time() {
    let model = Model::default();
    assert_eq!(view(&model, &None), view(&model, &None));
}
