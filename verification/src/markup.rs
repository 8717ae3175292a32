//! The serializer: what a virtual element tree looks like as markup text.

use crate::ordered_map::Pairs;
use crate::text::same_text;
use crate::vnode::{ElementView, Tree, VNode};
use vstd::prelude::*;
use vstd::string::StringExecFns;

verus! {

/// One attribute as it is written in an opening tag: the name, `="`, the value, `"`.
pub open spec fn attr_markup(entry: (Seq<char>, Seq<char>)) -> Seq<char> {
    entry.0 + "=\""@ + entry.1 + "\""@
}

/// The attributes as they are written in an opening tag: each one in insertion order,
/// with a single space between two of them.
pub open spec fn attrs_markup(attrs: Pairs) -> Seq<char>
    decreases attrs.len(),
{
    if attrs.len() == 0 {
        Seq::empty()
    } else if attrs.len() == 1 {
        attr_markup(attrs[0])
    } else {
        attrs_markup(attrs.drop_last()) + " "@ + attr_markup(attrs.last())
    }
}

/// The tags of the elements that have neither children nor a closing tag.
pub open spec fn is_void(tag: Seq<char>) -> bool {
    ||| tag == "area"@
    ||| tag == "base"@
    ||| tag == "br"@
    ||| tag == "col"@
    ||| tag == "embed"@
    ||| tag == "hr"@
    ||| tag == "img"@
    ||| tag == "input"@
    ||| tag == "link"@
    ||| tag == "meta"@
    ||| tag == "param"@
    ||| tag == "source"@
    ||| tag == "track"@
    ||| tag == "wbr"@
}

/// The opening tag of an element: `<`, the tag, then a space and the attributes where
/// there are any, then `>`.
pub open spec fn opening(tag: Seq<char>, attrs: Pairs) -> Seq<char> {
    if attrs.len() == 0 {
        "<"@ + tag + ">"@
    } else {
        "<"@ + tag + " "@ + attrs_markup(attrs) + ">"@
    }
}

/// The closing tag of an element.
pub open spec fn closing(tag: Seq<char>) -> Seq<char> {
    "</"@ + tag + ">"@
}

/// The markup of a tree. Text is written as it is and the empty node as nothing. An
/// element is written as its opening tag, and, unless its tag is void, the markup of its
/// children in order and its closing tag. Styles and bound events are not written.
pub open spec fn markup(tree: Tree) -> Seq<char>
    decreases tree, 0nat,
{
    match tree {
        Tree::Text(text) => text,
        Tree::Empty => Seq::empty(),
        Tree::Element(el) => {
            if is_void(el.tag) {
                opening(el.tag, el.attrs)
            } else {
                opening(el.tag, el.attrs) + children_markup(el.children) + closing(el.tag)
            }
        },
    }
}

/// The markup of the first `n` of `children`, one after the other.
pub open spec fn markup_upto(children: Seq<Tree>, n: nat) -> Seq<char>
    decreases children, n,
{
    if n == 0 || n > children.len() {
        Seq::empty()
    } else {
        markup_upto(children, (n - 1) as nat) + markup(children[n - 1])
    }
}

/// The markup of all `children`, one after the other.
pub open spec fn children_markup(children: Seq<Tree>) -> Seq<char>
    decreases children, children.len() + 1,
{
    markup_upto(children, children.len())
}

/// The first `n` children are written without regard to what comes behind them.
pub proof fn lemma_markup_upto_prefix(children: Seq<Tree>, more: Seq<Tree>, n: nat)
    requires
        n <= children.len(),
    ensures
        markup_upto(children + more, n) == markup_upto(children, n),
    decreases n,
{
    if n > 0 {
        lemma_markup_upto_prefix(children, more, (n - 1) as nat);
        assert((children + more)[n - 1] == children[n - 1]);
    }
}

/// Children are written one after the other: the markup of two runs of children is the
/// markup of the first run followed by that of the second.
pub proof fn lemma_children_markup_concat(first: Seq<Tree>, second: Seq<Tree>)
    ensures
        children_markup(first + second) == children_markup(first) + children_markup(second),
    decreases second.len(),
{
    if second.len() == 0 {
        assert(first + second =~= first);
        assert(children_markup(first) + children_markup(second) =~= children_markup(first));
    } else {
        let all = first + second;
        let shorter = second.drop_last();
        lemma_children_markup_concat(first, shorter);
        assert(all.drop_last() =~= first + shorter);
        lemma_markup_upto_prefix(all.drop_last(), seq![all.last()], (all.len() - 1) as nat);
        assert(all.drop_last() + seq![all.last()] =~= all);
        lemma_markup_upto_prefix(shorter, seq![second.last()], shorter.len());
        assert(shorter + seq![second.last()] =~= second);
        assert(all.last() == second.last());
        assert(children_markup(all) =~= children_markup(first) + children_markup(second));
    }
}

/// A void element is written as its opening tag alone, whatever children it holds.
pub proof fn lemma_void_element_drops_children(el: ElementView)
    requires
        is_void(el.tag),
    ensures
        markup(el.tree()) == opening(el.tag, el.attrs),
        markup(el.tree()) == markup((ElementView { children: Seq::empty(), ..el }).tree()),
{
}

/// Children that are all the empty node leave no trace: the element is written as if it
/// had no child at all.
pub proof fn lemma_empty_children_vanish(el: ElementView)
    requires
        forall|i: int| 0 <= i < el.children.len() ==> el.children[i] == Tree::Empty,
    ensures
        markup(el.tree()) == markup((ElementView { children: Seq::empty(), ..el }).tree()),
        !is_void(el.tag) ==> markup(el.tree()) == opening(el.tag, el.attrs) + closing(el.tag),
{
    lemma_markup_upto_of_empty_nodes(el.children, el.children.len());
    assert(children_markup(Seq::<Tree>::empty()) =~= Seq::<char>::empty());
    assert(opening(el.tag, el.attrs) + Seq::<char>::empty() + closing(el.tag) =~= opening(
        el.tag,
        el.attrs,
    ) + closing(el.tag));
}

/// Empty nodes write nothing, however many there are.
pub proof fn lemma_markup_upto_of_empty_nodes(children: Seq<Tree>, n: nat)
    requires
        forall|i: int| 0 <= i < children.len() ==> children[i] == Tree::Empty,
    ensures
        markup_upto(children, n) == Seq::<char>::empty(),
    decreases n,
{
    if n > 0 && n <= children.len() {
        lemma_markup_upto_of_empty_nodes(children, (n - 1) as nat);
        assert(markup(children[n - 1]) =~= Seq::<char>::empty());
        assert(markup_upto(children, n) =~= Seq::<char>::empty());
    }
}

/// Style declarations and bound events are not written: two elements that agree in tag,
/// attributes and children have the same markup.
pub proof fn lemma_style_and_listeners_not_written(one: ElementView, other: ElementView)
    requires
        one.tag == other.tag,
        one.attrs == other.attrs,
        one.children == other.children,
    ensures
        markup(one.tree()) == markup(other.tree()),
{
}

/// Whether `tag` names an element that has neither children nor a closing tag.
pub fn is_void_element(tag: &str) -> (void: bool)
    ensures
        void == is_void(tag@),
{
    same_text(tag, "area") || same_text(tag, "base") || same_text(tag, "br") || same_text(
        tag,
        "col",
    ) || same_text(tag, "embed") || same_text(tag, "hr") || same_text(tag, "img") || same_text(
        tag,
        "input",
    ) || same_text(tag, "link") || same_text(tag, "meta") || same_text(tag, "param")
        || same_text(tag, "source") || same_text(tag, "track") || same_text(tag, "wbr")
}

/// Writes a tree as markup text.
pub fn el_to_string(el: &VNode) -> (output: String)
    ensures
        output@ == markup(el@),
    decreases el,
{
    match el {
        VNode::Text(text) => text.clone(),
        VNode::Empty => String::new(),
        VNode::Element(element) => {
            let mut output = String::from_str("<");
            output.append(element.tag.as_str());
            if !element.attrs.vals.is_empty() {
                output.append(" ");
                let attrs = element.attrs.to_string();
                output.append(attrs.as_str());
            }
            output.append(">");
            assert(output@ =~= opening(element.tag@, element.attrs@));
            if is_void_element(element.tag.as_str()) {
                return output;
            }
            let ghost children = element@.children;
            let mut i: usize = 0;
            while i < element.children.len()
                invariant
                    el is Element,
                    el->Element_0 == *element,
                    children == element@.children,
                    i <= element.children.len(),
                    output@ == opening(element.tag@, element.attrs@) + markup_upto(
                        children,
                        i as nat,
                    ),
                decreases element.children.len() - i,
            {
                let child = el_to_string(&element.children[i]);
                output.append(child.as_str());
                assert(output@ =~= opening(element.tag@, element.attrs@) + markup_upto(
                    children,
                    (i + 1) as nat,
                ));
                i += 1;
            }
            output.append("</");
            output.append(element.tag.as_str());
            output.append(">");
            assert(output@ =~= markup(el@));
            output
        },
    }
}

} // verus!
