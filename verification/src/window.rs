//! The window-manager container tree: nodes, flattening, and name
//! collection.
//!
//! A `Window` is one node of the manager's tree; it may stand for an
//! on-screen window, a layout container, or a workspace. A snapshot
//! hands the core a freshly built tree that is never mutated in place.

use vstd::prelude::*;
use vstd::string::StrSliceExecFns;
use vstd::string::StringExecFns;
use crate::effect::Effect;
use crate::effect::EffectView;
use crate::text::spec_pad_right;
use crate::text::str_views;
use crate::text::pad_right;

verus! {

/// Whether a window takes part in the tiled layout or floats above it.
#[derive(Clone, Copy, Debug, PartialEq, Eq, Structural)]
pub enum FloatingState {
    /// The window is tiled.
    Attached,
    /// The user floated the window.
    FloatingOn,
    /// The window was floating and the user attached it again.
    FloatingOff,
}

/// One node of the container tree.
#[derive(Debug)]
pub struct Window {
    /// The node's display name; absent for pure containers.
    pub name: Option<String>,
    /// The session-unique container id.
    pub id: u64,
    /// The low-level display-server window id, if the node has one.
    pub window: Option<u64>,
    /// The manager's classification tag for the node.
    pub type_: Option<String>,
    /// The node's children, in layout order.
    pub nodes: Vec<Window>,
    /// Whether this node holds the input focus.
    pub focused: bool,
    /// The window class, if known.
    pub class: Option<String>,
    /// Whether the window floats above the tiled layout.
    pub floating: FloatingState,
    /// The scratchpad state reported by the manager, if any.
    pub scratchpad_state: Option<String>,
}

/// The mathematical shape of a `Window`: the same tree with strings as
/// character sequences.
#[verifier::ext_equal]
pub ghost struct WindowView {
    pub name: Option<Seq<char>>,
    pub id: u64,
    pub window: Option<u64>,
    pub type_: Option<Seq<char>>,
    pub nodes: Seq<WindowView>,
    pub focused: bool,
    pub class: Option<Seq<char>>,
    pub floating: FloatingState,
    pub scratchpad_state: Option<Seq<char>>,
}

/// The view of an optional string.
pub open spec fn opt_view(o: Option<String>) -> Option<Seq<char>> {
    match o {
        Some(s) => Some(s@),
        None => None,
    }
}

/// The views of a sequence of windows.
pub open spec fn views_of_nodes(s: Seq<Window>) -> Seq<WindowView>
    decreases s,
{
    if s.len() == 0 {
        Seq::empty()
    } else {
        seq![wview(s[0])] + views_of_nodes(s.drop_first())
    }
}

/// The view of one window.
pub open spec fn wview(w: Window) -> WindowView
    decreases w,
{
    WindowView {
        name: opt_view(w.name),
        id: w.id,
        window: w.window,
        type_: opt_view(w.type_),
        nodes: views_of_nodes(w.nodes@),
        focused: w.focused,
        class: opt_view(w.class),
        floating: w.floating,
        scratchpad_state: opt_view(w.scratchpad_state),
    }
}

impl View for Window {
    type V = WindowView;

    open spec fn view(&self) -> WindowView {
        wview(*self)
    }
}

/// `views_of_nodes` maps each window to its view, position by position.
pub proof fn lemma_views_of_nodes(s: Seq<Window>)
    ensures
        views_of_nodes(s).len() == s.len(),
        forall|i: int| 0 <= i < s.len() ==> #[trigger] views_of_nodes(s)[i] == s[i]@,
    decreases s.len(),
{
    if s.len() > 0 {
        lemma_views_of_nodes(s.drop_first());
    }
}

/// Appending a window appends its view.
pub proof fn lemma_views_of_nodes_push(s: Seq<Window>, w: Window)
    ensures
        views_of_nodes(s.push(w)) == views_of_nodes(s) + seq![w@],
{
    lemma_views_of_nodes(s);
    lemma_views_of_nodes(s.push(w));
    assert(views_of_nodes(s.push(w)) =~= views_of_nodes(s) + seq![w@]);
}

/// Taking one more window appends its view.
pub proof fn lemma_views_of_nodes_take(s: Seq<Window>, i: int)
    requires
        0 <= i < s.len(),
    ensures
        views_of_nodes(s.take(i + 1)) == views_of_nodes(s.take(i)) + seq![s[i]@],
{
    assert(s.take(i + 1) =~= s.take(i).push(s[i]));
    lemma_views_of_nodes_push(s.take(i), s[i]);
}

/// Depth-first pre-order flattening of a tree: the node itself, then
/// its children's flattenings in order.
pub open spec fn spec_flatten(v: WindowView) -> Seq<WindowView>
    decreases v,
{
    seq![v] + spec_flatten_all(v.nodes)
}

/// The concatenated flattenings of a forest.
pub open spec fn spec_flatten_all(s: Seq<WindowView>) -> Seq<WindowView>
    decreases s,
{
    if s.len() == 0 {
        Seq::empty()
    } else {
        spec_flatten(s[0]) + spec_flatten_all(s.drop_first())
    }
}

/// Flattening one more tree of a forest appends its flattening.
pub proof fn lemma_flatten_all_push(s: Seq<WindowView>, v: WindowView)
    ensures
        spec_flatten_all(s.push(v)) == spec_flatten_all(s) + spec_flatten(v),
    decreases s.len(),
{
    if s.len() == 0 {
        assert(s.push(v).drop_first() =~= s);
        assert(spec_flatten_all(s.push(v)) =~= spec_flatten_all(s) + spec_flatten(v));
    } else {
        assert(s.push(v).drop_first() =~= s.drop_first().push(v));
        lemma_flatten_all_push(s.drop_first(), v);
        assert(spec_flatten_all(s.push(v)) =~= spec_flatten_all(s) + spec_flatten(v));
    }
}

impl Clone for Window {
    /// A deep copy: the clone has the same view as the original.
    fn clone(&self) -> (res: Self)
        ensures
            res@ == self@,
        decreases *self,
    {
        let mut nodes: Vec<Window> = Vec::new();
        let mut i: usize = 0;
        while i < self.nodes.len()
            invariant
                i <= self.nodes.len(),
                views_of_nodes(nodes@) == views_of_nodes(self.nodes@.take(i as int)),
            decreases self.nodes.len() - i,
        {
            proof {
                assert(decreases_to!(*self => self.nodes));
                assert(decreases_to!(self.nodes => self.nodes@[i as int]));
            }
            let child = self.nodes[i].clone();
            proof {
                lemma_views_of_nodes_push(nodes@, child);
                lemma_views_of_nodes_take(self.nodes@, i as int);
            }
            nodes.push(child);
            i = i + 1;
        }
        proof {
            assert(self.nodes@.take(self.nodes@.len() as int) =~= self.nodes@);
        }
        let res = Window {
            name: clone_opt_string(&self.name),
            id: self.id,
            window: match self.window {
                Some(x) => Some(x),
                None => None,
            },
            type_: clone_opt_string(&self.type_),
            nodes,
            focused: self.focused,
            class: clone_opt_string(&self.class),
            floating: self.floating,
            scratchpad_state: clone_opt_string(&self.scratchpad_state),
        };
        proof {
            assert(res@ =~= self@);
        }
        res
    }
}

/// A copy of an optional string with the same view.
fn clone_opt_string(o: &Option<String>) -> (r: Option<String>)
    ensures
        opt_view(r) == opt_view(*o),
{
    match o {
        Some(s) => Some(s.clone()),
        None => None,
    }
}

impl Window {
    /// Whether the user floated this window above the tiled layout.
    pub fn is_floating(&self) -> (r: bool)
        ensures
            r == spec_is_floating(self@),
    {
        self.floating == FloatingState::FloatingOn
    }

    /// Whether this node is some container such as the root, an output,
    /// or a workspace, rather than a plain window.
    pub fn is_container(&self) -> (r: bool)
        ensures
            r == spec_is_container(self@),
    {
        match &self.type_ {
            None => true,
            Some(tag) => {
                if *tag == "con".to_owned() {
                    match &self.name {
                        None => true,
                        Some(name) => *name == "content".to_owned(),
                    }
                } else {
                    true
                }
            },
        }
    }

    /// Whether the node has any children.
    pub fn has_children(&self) -> (r: bool)
        ensures
            r == spec_has_children(self@),
    {
        proof {
            lemma_views_of_nodes(self.nodes@);
        }
        self.nodes.len() != 0
    }

    /// Push this node's name to an accumulator if it exists.
    pub fn push_name_(&self, v: &mut Vec<String>)
        ensures
            str_views(final(v)@) == str_views(old(v)@) + spec_push_name(self@),
    {
        match &self.name {
            None => {
                proof {
                    assert(str_views(v@) =~= str_views(old(v)@) + spec_push_name(self@));
                }
            },
            Some(name) => {
                v.push(name.clone());
                proof {
                    assert(str_views(v@) =~= str_views(old(v)@) + spec_push_name(self@));
                }
            },
        }
    }

    /// Append the names collected from this tree to `v`: only leaves
    /// contribute names, a node with children only its children's.
    pub fn node_names_(&self, v: &mut Vec<String>)
        ensures
            str_views(final(v)@) == str_views(old(v)@) + spec_node_names(self@),
        decreases *self,
    {
        if self.has_children() {
            let ghost mid = v@;
            let mut i: usize = 0;
            while i < self.nodes.len()
                invariant
                    i <= self.nodes.len(),
                    str_views(v@) == str_views(mid)
                        + spec_node_names_all(views_of_nodes(self.nodes@).take(i as int)),
                decreases self.nodes.len() - i,
            {
                proof {
                    assert(decreases_to!(*self => self.nodes));
                    assert(decreases_to!(self.nodes => self.nodes@[i as int]));
                }
                self.nodes[i].node_names_(v);
                proof {
                    lemma_views_of_nodes(self.nodes@);
                    assert(views_of_nodes(self.nodes@).take(i + 1) =~= views_of_nodes(
                        self.nodes@,
                    ).take(i as int).push(self.nodes@[i as int]@));
                    lemma_node_names_all_push(
                        views_of_nodes(self.nodes@).take(i as int),
                        self.nodes@[i as int]@,
                    );
                }
                i = i + 1;
            }
            proof {
                lemma_views_of_nodes(self.nodes@);
                assert(views_of_nodes(self.nodes@).take(self.nodes@.len() as int) =~= views_of_nodes(
                    self.nodes@,
                ));
            }
        } else {
            self.push_name_(v);
            proof {
                lemma_views_of_nodes(self.nodes@);
            }
        }
    }

    /// The names of the user-visible leaves of this tree, in order.
    pub fn node_names(&self) -> (r: Vec<String>)
        ensures
            str_views(r@) == spec_node_names(self@),
    {
        let mut out_names: Vec<String> = Vec::new();
        self.node_names_(&mut out_names);
        proof {
            assert(str_views(Seq::<String>::empty()) =~= Seq::<Seq<char>>::empty());
        }
        out_names
    }

    /// The display line for this window: the class padded to 15
    /// columns in brackets, the name padded to 20 columns, and the
    /// scratchpad state (or `No Scratchpad`) in angle brackets.
    pub fn name_str(&self) -> (r: String)
        ensures
            r@ == spec_name_str(self@),
    {
        let empty = String::new();
        let class_ref: &String = match &self.class {
            Some(c) => c,
            None => &empty,
        };
        let name_ref: &String = match &self.name {
            Some(n) => n,
            None => &empty,
        };
        let mut r = "[".to_owned();
        r.append(pad_right(class_ref, 15).as_str());
        r.append("] ");
        r.append(pad_right(name_ref, 20).as_str());
        r.append(" <");
        match &self.scratchpad_state {
            Some(s) => r.append(s.as_str()),
            None => r.append("No Scratchpad"),
        }
        r.append(">");
        proof {
            assert(r@ =~= spec_name_str(self@));
        }
        r
    }

    /// The command that focuses this window.
    pub fn focus_window(&self) -> (r: Effect)
        ensures
            r@ == EffectView::Focus(self.id),
    {
        Effect::Focus(self.id)
    }

    /// The command that kills this window.
    pub fn kill(&self) -> (r: Effect)
        ensures
            r@ == EffectView::Kill(self.id),
    {
        Effect::Kill(self.id)
    }

    /// Every node of this tree in depth-first pre-order, pass-through
    /// containers included.
    pub fn flatten(&self) -> (r: Vec<Window>)
        ensures
            views_of_nodes(r@) == spec_flatten(self@),
    {
        let mut children: Vec<Window> = Vec::new();
        self.flatten_window(&mut children);
        children
    }

    /// Append this tree's pre-order flattening to `children`.
    pub fn flatten_window(&self, children: &mut Vec<Window>)
        ensures
            views_of_nodes(final(children)@) == views_of_nodes(old(children)@)
                + spec_flatten(self@),
        decreases *self,
    {
        let cloned = self.clone();
        proof {
            lemma_views_of_nodes_push(children@, cloned);
        }
        children.push(cloned);
        if self.has_children() {
            let ghost mid = children@;
            let mut i: usize = 0;
            while i < self.nodes.len()
                invariant
                    i <= self.nodes.len(),
                    views_of_nodes(children@) == views_of_nodes(mid)
                        + spec_flatten_all(views_of_nodes(self.nodes@).take(i as int)),
                decreases self.nodes.len() - i,
            {
                proof {
                    assert(decreases_to!(*self => self.nodes));
                    assert(decreases_to!(self.nodes => self.nodes@[i as int]));
                }
                self.nodes[i].flatten_window(children);
                proof {
                    lemma_views_of_nodes(self.nodes@);
                    assert(views_of_nodes(self.nodes@).take(i + 1) =~= views_of_nodes(
                        self.nodes@,
                    ).take(i as int).push(self.nodes@[i as int]@));
                    lemma_flatten_all_push(
                        views_of_nodes(self.nodes@).take(i as int),
                        self.nodes@[i as int]@,
                    );
                }
                i = i + 1;
            }
            proof {
                lemma_views_of_nodes(self.nodes@);
                assert(views_of_nodes(self.nodes@).take(self.nodes@.len() as int) =~= views_of_nodes(
                    self.nodes@,
                ));
                assert(views_of_nodes(children@) =~= views_of_nodes(old(children)@)
                    + spec_flatten(self@));
            }
        } else {
            proof {
                lemma_views_of_nodes(self.nodes@);
                assert(views_of_nodes(children@) =~= views_of_nodes(old(children)@)
                    + spec_flatten(self@));
            }
        }
    }
}

/// The name this node contributes to a name collection: its own name
/// if it has one, nothing otherwise.
pub open spec fn spec_push_name(v: WindowView) -> Seq<Seq<char>> {
    match v.name {
        Some(n) => seq![n],
        None => Seq::empty(),
    }
}

/// The names collected from a tree: a node with children contributes
/// its children's collections only, never its own name; a leaf
/// contributes its own name, if present.
pub open spec fn spec_node_names(v: WindowView) -> Seq<Seq<char>>
    decreases v,
{
    if v.nodes.len() != 0 {
        spec_node_names_all(v.nodes)
    } else {
        spec_push_name(v)
    }
}

/// The concatenated name collections of a forest.
pub open spec fn spec_node_names_all(s: Seq<WindowView>) -> Seq<Seq<char>>
    decreases s,
{
    if s.len() == 0 {
        Seq::empty()
    } else {
        spec_node_names(s[0]) + spec_node_names_all(s.drop_first())
    }
}

/// Collecting names from one more tree appends its collection.
pub proof fn lemma_node_names_all_push(s: Seq<WindowView>, v: WindowView)
    ensures
        spec_node_names_all(s.push(v)) == spec_node_names_all(s) + spec_node_names(v),
    decreases s.len(),
{
    if s.len() == 0 {
        assert(s.push(v).drop_first() =~= s);
        assert(spec_node_names_all(s.push(v)) =~= spec_node_names_all(s) + spec_node_names(v));
    } else {
        assert(s.push(v).drop_first() =~= s.drop_first().push(v));
        lemma_node_names_all_push(s.drop_first(), v);
        assert(spec_node_names_all(s.push(v)) =~= spec_node_names_all(s) + spec_node_names(v));
    }
}

/// Whether the user floated the window.
pub open spec fn spec_is_floating(v: WindowView) -> bool {
    v.floating == FloatingState::FloatingOn
}

/// Whether the node is a container: every node whose tag is not `con`,
/// and among `con` nodes those without a name or named `content`.
pub open spec fn spec_is_container(v: WindowView) -> bool {
    match v.type_ {
        None => true,
        Some(t) => if t == "con"@ {
            match v.name {
                None => true,
                Some(n) => n == "content"@,
            }
        } else {
            true
        },
    }
}

/// Whether the node has any children.
pub open spec fn spec_has_children(v: WindowView) -> bool {
    v.nodes.len() != 0
}

/// The display line of a window.
pub open spec fn spec_name_str(v: WindowView) -> Seq<char> {
    "["@ + spec_pad_right(spec_opt_or_empty(v.class), 15) + "] "@ + spec_pad_right(
        spec_opt_or_empty(v.name),
        20,
    ) + " <"@ + spec_scratchpad_text(v.scratchpad_state) + ">"@
}

/// An optional character sequence, or the empty sequence.
pub open spec fn spec_opt_or_empty(o: Option<Seq<char>>) -> Seq<char> {
    match o {
        Some(s) => s,
        None => Seq::empty(),
    }
}

/// The scratchpad column of the display line.
pub open spec fn spec_scratchpad_text(o: Option<Seq<char>>) -> Seq<char> {
    match o {
        Some(s) => s,
        None => "No Scratchpad"@,
    }
}

/// The predicate that keeps the named nodes of a flattening.
pub open spec fn named_pred() -> spec_fn(WindowView) -> bool {
    |n: WindowView| n.name is Some
}

/// The named nodes of a tree in depth-first pre-order: the node itself
/// first, when it has a name, then its children's named nodes in order.
pub open spec fn spec_named_nodes(v: WindowView) -> Seq<WindowView>
    decreases v,
{
    (if v.name is Some {
        seq![v]
    } else {
        Seq::empty()
    }) + spec_named_nodes_all(v.nodes)
}

/// The concatenated named nodes of a forest.
pub open spec fn spec_named_nodes_all(s: Seq<WindowView>) -> Seq<WindowView>
    decreases s,
{
    if s.len() == 0 {
        Seq::empty()
    } else {
        spec_named_nodes(s[0]) + spec_named_nodes_all(s.drop_first())
    }
}

/// Collecting the named nodes of one more tree appends its named nodes.
pub proof fn lemma_named_nodes_all_push(s: Seq<WindowView>, v: WindowView)
    ensures
        spec_named_nodes_all(s.push(v)) == spec_named_nodes_all(s) + spec_named_nodes(v),
    decreases s.len(),
{
    if s.len() == 0 {
        assert(s.push(v).drop_first() =~= s);
        assert(spec_named_nodes_all(s.push(v)) =~= spec_named_nodes_all(s) + spec_named_nodes(v));
    } else {
        assert(s.push(v).drop_first() =~= s.drop_first().push(v));
        lemma_named_nodes_all_push(s.drop_first(), v);
        assert(spec_named_nodes_all(s.push(v)) =~= spec_named_nodes_all(s) + spec_named_nodes(v));
    }
}

/// Filtering a tree's pre-order flattening down to the nodes that carry
/// a name yields exactly the tree's named nodes, still in pre-order; in
/// particular the flattening is at least as long as the count of named
/// nodes.
pub proof fn lemma_flatten_filter_named(v: WindowView)
    ensures
        spec_flatten(v).filter(named_pred()) == spec_named_nodes(v),
        spec_named_nodes(v).len() <= spec_flatten(v).len(),
    decreases v,
{
    reveal_with_fuel(Seq::<_>::filter, 3);
    Seq::filter_distributes_over_add(seq![v], spec_flatten_all(v.nodes), named_pred());
    assert(seq![v].drop_last() =~= Seq::<WindowView>::empty());
    assert(seq![v].filter(named_pred()) =~= if v.name is Some {
        seq![v]
    } else {
        Seq::empty()
    });
    lemma_flatten_all_filter_named(v.nodes);
    Seq::lemma_filter_len(spec_flatten(v), named_pred());
}

/// Filtering a forest's concatenated flattening down to the named
/// nodes yields the forest's concatenated named nodes.
pub proof fn lemma_flatten_all_filter_named(s: Seq<WindowView>)
    ensures
        spec_flatten_all(s).filter(named_pred()) == spec_named_nodes_all(s),
    decreases s,
{
    reveal_with_fuel(Seq::<_>::filter, 2);
    if s.len() == 0 {
        assert(spec_flatten_all(s).filter(named_pred()) =~= spec_named_nodes_all(s));
    } else {
        Seq::filter_distributes_over_add(
            spec_flatten(s[0]),
            spec_flatten_all(s.drop_first()),
            named_pred(),
        );
        lemma_flatten_filter_named(s[0]);
        lemma_flatten_all_filter_named(s.drop_first());
    }
}

} // verus!
