//! The virtual element tree: text nodes, elements and the empty node.

use crate::markup::attrs_markup;
use crate::msg::{Msg, MsgView};
use crate::ordered_map::{inserted, OrderedMap, Pairs};
use crate::seed_api::attrs_to_string;
use vstd::prelude::*;
use vstd::string::StringExecFns;

verus! {

/// The attributes of an element, in insertion order, each name once.
#[derive(Debug, PartialEq, Eq)]
pub struct Attrs {
    pub vals: OrderedMap,
}

impl View for Attrs {
    type V = Pairs;

    open spec fn view(&self) -> Pairs {
        self.vals@
    }
}

impl Clone for Attrs {
    fn clone(&self) -> (copy: Self)
        ensures
            copy@ == self@,
    {
        Attrs { vals: self.vals.clone() }
    }
}

impl Attrs {
    /// No attributes.
    pub fn empty() -> (attrs: Self)
        ensures
            attrs@ == Seq::<(Seq<char>, Seq<char>)>::empty(),
    {
        Attrs { vals: OrderedMap::new() }
    }

    /// Sets the attribute `key` to `val`. An attribute that is already there keeps its
    /// place and takes the new value; a new one goes behind the others.
    pub fn add(&mut self, key: &str, val: &str)
        ensures
            final(self)@ == inserted(old(self)@, key@, val@),
    {
        self.vals.insert(key, val);
    }

    /// The attributes as they are written in an opening tag.
    pub fn to_string(&self) -> (text: String)
        ensures
            text@ == attrs_markup(self@),
    {
        attrs_to_string(self.vals.entries())
    }
}

/// The style declarations of an element, in insertion order, each name once.
#[derive(Debug, PartialEq, Eq)]
pub struct Style {
    pub vals: OrderedMap,
}

impl View for Style {
    type V = Pairs;

    open spec fn view(&self) -> Pairs {
        self.vals@
    }
}

impl Clone for Style {
    fn clone(&self) -> (copy: Self)
        ensures
            copy@ == self@,
    {
        Style { vals: self.vals.clone() }
    }
}

impl Style {
    /// No declarations.
    pub fn empty() -> (style: Self)
        ensures
            style@ == Seq::<(Seq<char>, Seq<char>)>::empty(),
    {
        Style { vals: OrderedMap::new() }
    }

    /// Sets the declaration `key` to `val`. A declaration that is already there keeps
    /// its place and takes the new value; a new one goes behind the others.
    pub fn add(&mut self, key: &str, val: &str)
        ensures
            final(self)@ == inserted(old(self)@, key@, val@),
    {
        self.vals.insert(key, val);
    }
}

/// A message that is made from the text an input event carries.
#[derive(Clone, Copy, Debug, PartialEq, Eq, Structural)]
pub enum InputMsg {
    ChangeWWC,
    Log,
}

/// What a bound event produces: always the same message, or a message made from the
/// text of the event.
#[derive(Debug, PartialEq, Eq)]
pub enum Handler {
    Simple(Msg),
    Input(InputMsg),
}

/// The mathematical content of a [`Handler`].
pub enum HandlerView {
    Simple(MsgView),
    Input(InputMsg),
}

impl View for Handler {
    type V = HandlerView;

    open spec fn view(&self) -> HandlerView {
        match *self {
            Handler::Simple(msg) => HandlerView::Simple(msg@),
            Handler::Input(make) => HandlerView::Input(make),
        }
    }
}

impl Clone for Handler {
    fn clone(&self) -> (copy: Self)
        ensures
            copy@ == self@,
    {
        match self {
            Handler::Simple(msg) => Handler::Simple(msg.clone()),
            Handler::Input(make) => Handler::Input(*make),
        }
    }
}

/// The binding of an event, by its name, to what it produces.
#[derive(Debug, PartialEq, Eq)]
pub struct Listener {
    pub trigger: String,
    pub handler: Handler,
}

/// The mathematical content of a [`Listener`].
pub struct ListenerView {
    pub trigger: Seq<char>,
    pub handler: HandlerView,
}

impl View for Listener {
    type V = ListenerView;

    open spec fn view(&self) -> ListenerView {
        ListenerView { trigger: self.trigger@, handler: self.handler@ }
    }
}

impl Clone for Listener {
    fn clone(&self) -> (copy: Self)
        ensures
            copy@ == self@,
    {
        Listener { trigger: self.trigger.clone(), handler: self.handler.clone() }
    }
}

/// An element: a tag with attributes, style declarations, bound events and children.
#[derive(Debug, PartialEq, Eq)]
pub struct Element {
    pub tag: String,
    pub attrs: Attrs,
    pub style: Style,
    pub listeners: Vec<Listener>,
    pub children: Vec<VNode>,
}

/// A node of the virtual element tree.
#[derive(Debug, PartialEq, Eq)]
pub enum VNode {
    /// A run of text.
    Text(String),
    /// An element with its subtree.
    Element(Element),
    /// A node that stands for nothing.
    Empty,
}

/// The mathematical content of an [`Element`].
pub struct ElementView {
    pub tag: Seq<char>,
    pub attrs: Pairs,
    pub style: Pairs,
    pub listeners: Seq<ListenerView>,
    pub children: Seq<Tree>,
}

/// The mathematical content of a [`VNode`].
pub enum Tree {
    Text(Seq<char>),
    Element(ElementView),
    Empty,
}

/// The element `tag` with nothing in it.
pub open spec fn bare(tag: Seq<char>) -> ElementView {
    ElementView {
        tag,
        attrs: Seq::empty(),
        style: Seq::empty(),
        listeners: Seq::empty(),
        children: Seq::empty(),
    }
}

impl ElementView {
    /// The element with the attribute `key` set to `val`.
    pub open spec fn attr(self, key: Seq<char>, val: Seq<char>) -> ElementView {
        ElementView { attrs: inserted(self.attrs, key, val), ..self }
    }

    /// The element with the style declaration `key` set to `val`.
    pub open spec fn styled(self, key: Seq<char>, val: Seq<char>) -> ElementView {
        ElementView { style: inserted(self.style, key, val), ..self }
    }

    /// The element with one more bound event.
    pub open spec fn listener(self, listener: ListenerView) -> ElementView {
        ElementView { listeners: self.listeners.push(listener), ..self }
    }

    /// The element with one more child.
    pub open spec fn child(self, child: Tree) -> ElementView {
        ElementView { children: self.children.push(child), ..self }
    }

    /// The element with one more child, a text node.
    pub open spec fn text(self, text: Seq<char>) -> ElementView {
        self.child(Tree::Text(text))
    }

    /// The element with more children, in the order given.
    pub open spec fn with_children(self, children: Seq<Tree>) -> ElementView {
        ElementView { children: self.children + children, ..self }
    }

    /// The element as a tree.
    pub open spec fn tree(self) -> Tree {
        Tree::Element(self)
    }
}

/// The content of an element.
pub open spec fn element_view(el: Element) -> ElementView
    decreases el,
{
    ElementView {
        tag: el.tag@,
        attrs: el.attrs@,
        style: el.style@,
        listeners: el.listeners@.map_values(|l: Listener| l@),
        children: Seq::new(
            el.children@.len(),
            |i: int|
                if 0 <= i < el.children@.len() {
                    tree_of(el.children@[i])
                } else {
                    Tree::Empty
                },
        ),
    }
}

/// The content of a node.
pub open spec fn tree_of(node: VNode) -> Tree
    decreases node,
{
    match node {
        VNode::Text(text) => Tree::Text(text@),
        VNode::Element(el) => Tree::Element(element_view(el)),
        VNode::Empty => Tree::Empty,
    }
}

/// The contents of a sequence of nodes.
pub open spec fn trees_of(nodes: Seq<VNode>) -> Seq<Tree> {
    Seq::new(nodes.len(), |i: int| tree_of(nodes[i]))
}

impl View for Element {
    type V = ElementView;

    open spec fn view(&self) -> ElementView {
        element_view(*self)
    }
}

impl View for VNode {
    type V = Tree;

    open spec fn view(&self) -> Tree {
        tree_of(*self)
    }
}

impl Clone for Element {
    fn clone(&self) -> (copy: Self)
        ensures
            copy@ == self@,
        decreases self,
    {
        let mut listeners: Vec<Listener> = Vec::new();
        let mut i: usize = 0;
        while i < self.listeners.len()
            invariant
                i <= self.listeners.len(),
                listeners@.len() == i,
                forall|j: int| 0 <= j < i ==> listeners@[j]@ == self.listeners@[j]@,
            decreases self.listeners.len() - i,
        {
            listeners.push(self.listeners[i].clone());
            i += 1;
        }
        let mut children: Vec<VNode> = Vec::new();
        let mut k: usize = 0;
        while k < self.children.len()
            invariant
                k <= self.children.len(),
                children@.len() == k,
                forall|j: int| 0 <= j < k ==> children@[j]@ == self.children@[j]@,
            decreases self.children.len() - k,
        {
            children.push(self.children[k].clone());
            k += 1;
        }
        let copy = Element {
            tag: self.tag.clone(),
            attrs: self.attrs.clone(),
            style: self.style.clone(),
            listeners,
            children,
        };
        assert(copy@.listeners =~= self@.listeners);
        assert(copy@.children =~= self@.children);
        copy
    }
}

impl Clone for VNode {
    fn clone(&self) -> (copy: Self)
        ensures
            copy@ == self@,
        decreases self,
    {
        match self {
            VNode::Text(text) => VNode::Text(text.clone()),
            VNode::Element(el) => VNode::Element(el.clone()),
            VNode::Empty => VNode::Empty,
        }
    }
}

/// The children of an element are the contents of its child nodes, in order.
pub proof fn lemma_children(el: Element)
    ensures
        el@.children == trees_of(el.children@),
{
    assert(el@.children =~= trees_of(el.children@));
}

/// A binding of the event `trigger` that always produces `message`.
pub fn simple_ev(trigger: &str, message: Msg) -> (listener: Listener)
    ensures
        listener@ == (ListenerView { trigger: trigger@, handler: HandlerView::Simple(message@) }),
{
    Listener { trigger: trigger.to_owned(), handler: Handler::Simple(message) }
}

/// A binding of the event `trigger` that produces the message that `make` names, made
/// from the text of the event.
pub fn input_ev(trigger: &str, make: InputMsg) -> (listener: Listener)
    ensures
        listener@ == (ListenerView { trigger: trigger@, handler: HandlerView::Input(make) }),
{
    Listener { trigger: trigger.to_owned(), handler: Handler::Input(make) }
}

/// The message a handler produces for an event that carries `text`.
pub open spec fn fired(handler: HandlerView, text: Seq<char>) -> MsgView {
    match handler {
        HandlerView::Simple(msg) => msg,
        HandlerView::Input(InputMsg::ChangeWWC) => MsgView::ChangeWWC(text),
        HandlerView::Input(InputMsg::Log) => MsgView::Log(text),
    }
}

impl Handler {
    /// The message the handler produces for an event that carries `text`.
    pub fn fire(self, text: String) -> (msg: Msg)
        ensures
            msg@ == fired(self@, text@),
    {
        match self {
            Handler::Simple(msg) => msg,
            Handler::Input(InputMsg::ChangeWWC) => Msg::ChangeWWC(text),
            Handler::Input(InputMsg::Log) => Msg::Log(text),
        }
    }
}

/// The node that stands for nothing.
pub fn empty() -> (node: VNode)
    ensures
        node@ == Tree::Empty,
{
    VNode::Empty
}

impl VNode {
    /// A text node.
    pub fn new_text(text: &str) -> (node: VNode)
        ensures
            node@ == Tree::Text(text@),
    {
        VNode::Text(text.to_owned())
    }
}

impl Element {
    /// The element `tag` with nothing in it.
    pub fn empty(tag: &str) -> (el: Element)
        ensures
            el@ == bare(tag@),
    {
        let el = Element {
            tag: tag.to_owned(),
            attrs: Attrs::empty(),
            style: Style::empty(),
            listeners: Vec::new(),
            children: Vec::new(),
        };
        assert(el@.listeners =~= Seq::empty());
        assert(el@.children =~= Seq::empty());
        el
    }

    /// Sets the attribute `key` to `val`.
    pub fn add_attr(&mut self, key: &str, val: &str)
        ensures
            final(self)@ == old(self)@.attr(key@, val@),
    {
        self.attrs.add(key, val);
        assert(self@.children =~= old(self)@.children);
    }

    /// Sets the style declaration `key` to `val`.
    pub fn add_style(&mut self, key: &str, val: &str)
        ensures
            final(self)@ == old(self)@.styled(key@, val@),
    {
        self.style.add(key, val);
        assert(self@.children =~= old(self)@.children);
    }

    /// Binds one more event.
    pub fn add_listener(&mut self, listener: Listener)
        ensures
            final(self)@ == old(self)@.listener(listener@),
    {
        self.listeners.push(listener);
        assert(self@.listeners =~= old(self)@.listeners.push(listener@));
        assert(self@.children =~= old(self)@.children);
    }

    /// Adds `node` behind the children.
    pub fn add_child(&mut self, node: VNode)
        ensures
            final(self)@ == old(self)@.child(node@),
    {
        self.children.push(node);
        assert(self@.children =~= old(self)@.children.push(node@));
    }

    /// Adds a text node behind the children.
    pub fn add_text(&mut self, text: &str)
        ensures
            final(self)@ == old(self)@.text(text@),
    {
        self.add_child(VNode::new_text(text));
    }

    /// Adds `nodes` behind the children, in their order.
    pub fn add_children(&mut self, nodes: Vec<VNode>)
        ensures
            final(self)@ == old(self)@.with_children(trees_of(nodes@)),
    {
        let mut nodes = nodes;
        let ghost added = nodes@;
        self.children.append(&mut nodes);
        assert(self@.children =~= old(self)@.children + trees_of(added));
    }

    /// The element as a node.
    pub fn into_node(self) -> (node: VNode)
        ensures
            node@ == self@.tree(),
    {
        VNode::Element(self)
    }
}

} // verus!
