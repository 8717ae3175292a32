//! The view of the application: the virtual element tree that shows a model.

use crate::markup::{el_to_string, markup};
use crate::model::{opt_text, Model, ModelView};
use crate::msg::{Msg, MsgView};
use crate::seed_api::px;
use crate::text::{decimal, pixels, push_decimal};
use crate::vnode::{
    bare, empty, input_ev, simple_ev, trees_of, Element, HandlerView, InputMsg, ListenerView,
    Tree, VNode,
};
use vstd::prelude::*;
use vstd::string::StringExecFns;

verus! {

/// The binding of a click to `msg`.
pub open spec fn on_click(msg: MsgView) -> ListenerView {
    ListenerView { trigger: "click"@, handler: HandlerView::Simple(msg) }
}

/// The binding of an input event to the message that `make` names.
pub open spec fn on_input(make: InputMsg) -> ListenerView {
    ListenerView { trigger: "input"@, handler: HandlerView::Input(make) }
}

/// What is said of a number of clicks, by the hundreds of it.
pub open spec fn success_level_text(clicks: nat) -> Seq<char> {
    if clicks / 100 <= 5 {
        "Not very many 🙁"@
    } else if clicks / 100 <= 9 {
        "I got my first real six-string 😐"@
    } else if clicks / 100 <= 11 {
        "Spinal Tap 🙂"@
    } else {
        "Double pendulum 🙃"@
    }
}

/// A paragraph that says what is thought of a number of clicks.
pub open spec fn success_level_tree(clicks: nat) -> Tree {
    bare("p"@).text(success_level_text(clicks)).tree()
}

/// The thing with the number `number`: the label, a space and the number.
pub open spec fn thing_tree(label: Seq<char>, number: nat) -> Tree {
    bare("div"@).attr("class"@, "thing"@).text(label + " "@ + decimal(number)).tree()
}

/// As many things as were counted, numbered from one.
pub open spec fn things_trees(count: nat, label: Seq<char>) -> Seq<Tree> {
    Seq::new(count, |i: int| thing_tree(label, (i + 1) as nat))
}

/// The payload of the last request as preformatted code, or nothing where there is none.
pub open spec fn httpbin_data_tree(pretty_json: Option<Seq<char>>) -> Tree {
    match pretty_json {
        Some(json) => bare("pre"@).child(bare("code"@).text(json).tree()).tree(),
        None => Tree::Empty,
    }
}

/// A heading and the input field in which the name of what is counted is edited.
pub open spec fn what_we_count_trees(what_we_count: Seq<char>) -> Seq<Tree> {
    seq![
        bare("h3"@).text("What are we counting?"@).tree(),
        bare("input"@).attr("value"@, what_we_count).listener(
            on_input(InputMsg::ChangeWWC),
        ).tree(),
    ]
}

/// The heading of the main part: the count, what is counted, and `so far`.
pub open spec fn so_far_text(count: nat, what_we_count: Seq<char>) -> Seq<char> {
    decimal(count) + " "@ + what_we_count + " so far"@
}

/// The main part: the count, what is thought of it, the two buttons that change it, a
/// word of praise from ten on, and the field for the name of what is counted.
pub open spec fn main_tree(count: nat, what_we_count: Seq<char>) -> Tree {
    bare("div"@).attr(
        "class"@,
        if count > 1000 {
            "success main"@
        } else {
            "failure main"@
        },
    ).child(bare("h3"@).text(so_far_text(count, what_we_count)).tree()).child(
        success_level_tree(count),
    ).child(bare("button"@).listener(on_click(MsgView::Increment)).text("+"@).tree()).child(
        bare("button"@).listener(on_click(MsgView::Decrement)).text("-"@).tree(),
    ).child(
        if count >= 10 {
            bare("h2"@).styled("padding"@, pixels(50)).text("Nice!"@).tree()
        } else {
            Tree::Empty
        },
    ).with_children(what_we_count_trees(what_we_count)).tree()
}

/// The whole application: a title, the main part, the button that requests the payload,
/// the payload where `pretty_json` holds its text, the markup of the main part as
/// preformatted code, and the things counted.
pub open spec fn app_tree(model: ModelView, pretty_json: Option<Seq<char>>) -> Tree {
    bare("div"@).child(
        bare("h1"@).styled("text-align"@, "center"@).text("The Grand Total"@).tree(),
    ).child(main_tree(model.count, model.what_we_count)).child(
        bare("button"@).listener(on_click(MsgView::Fetch)).text("Fetch data!"@).tree(),
    ).child(httpbin_data_tree(pretty_json)).child(
        bare("pre"@).child(
            bare("code"@).text(markup(main_tree(model.count, model.what_we_count))).tree(),
        ).tree(),
    ).child(
        bare("div"@).attr("class"@, "thing-container"@).with_children(
            things_trees(model.count, model.what_we_count),
        ).tree(),
    ).tree()
}

/// A simple component: a paragraph that says what is thought of a number of clicks.
pub fn view_success_level(clicks: usize) -> (node: VNode)
    ensures
        node@ == success_level_tree(clicks as nat),
{
    let level = clicks / 100;
    let descrip = if level <= 5 {
        "Not very many 🙁"
    } else if level <= 9 {
        "I got my first real six-string 😐"
    } else if level <= 11 {
        "Spinal Tap 🙂"
    } else {
        "Double pendulum 🙃"
    };
    let mut paragraph = Element::empty("p");
    paragraph.add_text(descrip);
    paragraph.into_node()
}

/// As many things as were counted, each labelled and numbered from one.
pub fn view_things(count: usize, label: &str) -> (things: Vec<VNode>)
    ensures
        trees_of(things@) == things_trees(count as nat, label@),
{
    let mut output: Vec<VNode> = Vec::new();
    let mut i: usize = 0;
    while i < count
        invariant
            i <= count,
            output@.len() == i,
            forall|j: int| 0 <= j < i ==> output@[j]@ == thing_tree(label@, (j + 1) as nat),
        decreases count - i,
    {
        let mut text = label.to_owned();
        text.append(" ");
        push_decimal(&mut text, i + 1);
        let mut thing = Element::empty("div");
        thing.add_attr("class", "thing");
        thing.add_text(text.as_str());
        output.push(thing.into_node());
        i += 1;
    }
    assert(trees_of(output@) =~= things_trees(count as nat, label@));
    output
}

/// The payload of the last request, whose text `pretty_json` holds, as preformatted
/// code; nothing where there is none.
pub fn view_httpbin_data(pretty_json: &Option<String>) -> (node: VNode)
    ensures
        node@ == httpbin_data_tree(opt_text(*pretty_json)),
{
    match pretty_json {
        Some(json) => {
            let mut code = Element::empty("code");
            code.add_text(json.as_str());
            let mut pre = Element::empty("pre");
            pre.add_child(code.into_node());
            pre.into_node()
        },
        None => empty(),
    }
}

/// A heading and the input field in which the name of what is counted is edited.
pub fn view_what_we_count(what_we_count: &str) -> (nodes: Vec<VNode>)
    ensures
        trees_of(nodes@) == what_we_count_trees(what_we_count@),
{
    let mut heading = Element::empty("h3");
    heading.add_text("What are we counting?");
    let mut field = Element::empty("input");
    field.add_attr("value", what_we_count);
    field.add_listener(input_ev("input", InputMsg::ChangeWWC));
    let mut nodes: Vec<VNode> = Vec::new();
    nodes.push(heading.into_node());
    nodes.push(field.into_node());
    assert(trees_of(nodes@) =~= what_we_count_trees(what_we_count@));
    nodes
}

/// The main part of the application.
pub fn view_main(count: usize, what_we_count: &str) -> (node: VNode)
    ensures
        node@ == main_tree(count as nat, what_we_count@),
{
    let mut main = Element::empty("div");
    main.add_attr(
        "class",
        if count > 1000 {
            "success main"
        } else {
            "failure main"
        },
    );

    let mut so_far = String::new();
    push_decimal(&mut so_far, count);
    so_far.append(" ");
    so_far.append(what_we_count);
    so_far.append(" so far");
    assert(so_far@ =~= so_far_text(count as nat, what_we_count@));
    let mut heading = Element::empty("h3");
    heading.add_text(so_far.as_str());
    main.add_child(heading.into_node());

    main.add_child(view_success_level(count));

    let mut plus = Element::empty("button");
    plus.add_listener(simple_ev("click", Msg::Increment));
    plus.add_text("+");
    main.add_child(plus.into_node());

    let mut minus = Element::empty("button");
    minus.add_listener(simple_ev("click", Msg::Decrement));
    minus.add_text("-");
    main.add_child(minus.into_node());

    if count >= 10 {
        let mut praise = Element::empty("h2");
        let padding = px(50);
        praise.add_style("padding", padding.as_str());
        praise.add_text("Nice!");
        main.add_child(praise.into_node());
    } else {
        main.add_child(empty());
    }

    main.add_children(view_what_we_count(what_we_count));
    main.into_node()
}

/// The top-level component: the tree that shows `model`. Where the model holds a
/// payload, `pretty_json` is its text.
pub fn view(model: &Model, pretty_json: &Option<String>) -> (node: VNode)
    ensures
        node@ == app_tree(model@, opt_text(*pretty_json)),
{
    let mut app = Element::empty("div");

    let mut title = Element::empty("h1");
    title.add_style("text-align", "center");
    title.add_text("The Grand Total");
    app.add_child(title.into_node());

    app.add_child(view_main(model.count, model.what_we_count.as_str()));

    let mut fetch = Element::empty("button");
    fetch.add_listener(simple_ev("click", Msg::Fetch));
    fetch.add_text("Fetch data!");
    app.add_child(fetch.into_node());

    app.add_child(view_httpbin_data(pretty_json));

    let main = view_main(model.count, model.what_we_count.as_str());
    let main_markup = el_to_string(&main);
    let mut code = Element::empty("code");
    code.add_text(main_markup.as_str());
    let mut pre = Element::empty("pre");
    pre.add_child(code.into_node());
    app.add_child(pre.into_node());

    let mut container = Element::empty("div");
    container.add_attr("class", "thing-container");
    container.add_children(view_things(model.count, model.what_we_count.as_str()));
    app.add_child(container.into_node());

    app.into_node()
}

} // verus!
