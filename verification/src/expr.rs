//! Programs: nodes listed children first, read from their s-expression
//! text, and the analysis of every node of a program.
use crate::analysis::{children_in, makes, MyAnalysis};
use crate::data::{LiteralData, MyAnalysisData};
use crate::language::{node_from_op, Id, Language, NodeView};
use crate::text::chars_of;
use vstd::prelude::*;

verus! {

/// A program: a list of nodes in which every child comes before its parent.
/// The last node is the root.
pub struct RecExpr {
    nodes: Vec<Language>,
}

/// Whether every node's children come before it.
pub open spec fn children_first(nodes: Seq<NodeView>) -> bool {
    forall|i: int| 0 <= i < nodes.len() ==> #[trigger] children_in(nodes[i], i)
}

/// The models of a list of nodes.
pub open spec fn node_views(nodes: Seq<Language>) -> Seq<NodeView> {
    nodes.map_values(|n: Language| n@)
}

impl View for RecExpr {
    type V = Seq<NodeView>;

    closed spec fn view(&self) -> Seq<NodeView> {
        node_views(self.nodes@)
    }
}

impl RecExpr {
    #[verifier::type_invariant]
    spec fn children_come_first(self) -> bool {
        children_first(node_views(self.nodes@))
    }

    /// The empty program.
    pub fn new() -> (r: RecExpr)
        ensures
            r@ == Seq::<NodeView>::empty(),
    {
        let r = RecExpr { nodes: Vec::new() };
        assert(r@ =~= Seq::<NodeView>::empty());
        r
    }

    /// The number of nodes.
    pub fn len(&self) -> (r: usize)
        ensures
            r == self@.len(),
    {
        self.nodes.len()
    }

    /// Node `i`.
    pub fn node(&self, i: usize) -> (r: &Language)
        requires
            i < self@.len(),
        ensures
            r@ == self@[i as int],
    {
        &self.nodes[i]
    }

    /// Adds a node whose children are already in the program, and returns its
    /// id; `None`, and the program unchanged, where a child is not.
    pub fn add(&mut self, node: Language) -> (r: Option<Id>)
        ensures
            children_in(node@, old(self)@.len() as int) ==> r == Some(old(self)@.len() as Id)
                && final(self)@ == old(self)@.push(node@),
            !children_in(node@, old(self)@.len() as int) ==> r is None && final(self)@ == old(
                self,
            )@,
    {
        proof {
            use_type_invariant(&*self);
        }
        let ch = node.children();
        let n = self.nodes.len();
        let mut i: usize = 0;
        while i < ch.len()
            invariant
                i <= ch@.len(),
                ch@ == node@.children,
                n == self.nodes@.len(),
                forall|j: int| 0 <= j < i ==> #[trigger] ch@[j] < n,
            decreases ch.len() - i,
        {
            if ch[i] >= n {
                return None;
            }
            i = i + 1;
        }
        let ghost nv = node@;
        let mut nodes: Vec<Language> = Vec::new();
        std::mem::swap(&mut nodes, &mut self.nodes);
        nodes.push(node);
        assert(node_views(nodes@) =~= node_views(old(self).nodes@).push(nv));
        *self = RecExpr { nodes };
        Some(n)
    }
}

/// A program text that does not spell a program.
#[derive(Debug)]
pub enum ParseError {
    /// The text is not one s-expression of operators and leaves; the
    /// message says why.
    Syntax(String),
    /// Node `i`, counting children first, names no node of the language.
    Node(usize),
}

/// The nodes that `egg` reads from a program text, children first: each an
/// operator with the positions of its children; or the message of the
/// error it reports.
pub uninterp spec fn symbol_nodes(text: Seq<char>) -> Result<Seq<(Seq<char>, Seq<usize>)>, Seq<char>>;

/// The models of raw nodes.
pub open spec fn raw_view(v: Seq<(String, Vec<usize>)>) -> Seq<(Seq<char>, Seq<usize>)> {
    v.map_values(|p: (String, Vec<usize>)| (p.0@, p.1@))
}

/// Reads a program text with `egg`'s reader, `RecExpr::<SymbolLang>::from_str`:
/// each node comes out as its operator text and the positions of its
/// children. The result is `symbol_nodes` of the text.
#[verifier::external_body]
fn read_symbol_nodes(text: &str) -> (r: Result<Vec<(String, Vec<usize>)>, String>)
    ensures
        match r {
            Ok(v) => symbol_nodes(text@) == Ok::<Seq<(Seq<char>, Seq<usize>)>, Seq<char>>(raw_view(v@)),
            Err(e) => symbol_nodes(text@) == Err::<Seq<(Seq<char>, Seq<usize>)>, Seq<char>>(e@),
        },
{
    match text.parse::<egg::RecExpr<egg::SymbolLang>>() {
        Ok(e) => Ok(
            e.as_ref().iter().map(
                |n| (n.op.as_str().to_string(), n.children.iter().map(|c| usize::from(*c)).collect()),
            ).collect(),
        ),
        Err(e) => Err(e),
    }
}

/// Whether raw node `i` names a node of the language whose children come
/// before it.
pub open spec fn raw_node_ok(raw: Seq<(Seq<char>, Seq<usize>)>, i: int) -> bool {
    node_from_op(raw[i].0, raw[i].1) is Some && children_in(node_from_op(raw[i].0, raw[i].1)->0, i)
}

/// The nodes of the language that raw nodes name.
pub open spec fn nodes_of_raw(raw: Seq<(Seq<char>, Seq<usize>)>) -> Seq<NodeView> {
    raw.map_values(|p: (Seq<char>, Seq<usize>)| node_from_op(p.0, p.1)->0)
}

/// What the program of raw nodes is: the nodes they name where each names
/// a node whose children come before it; else the first that does not.
pub open spec fn program_of_raw(raw: Seq<(Seq<char>, Seq<usize>)>) -> Result<Seq<NodeView>, usize> {
    if forall|i: int| 0 <= i < raw.len() ==> #[trigger] raw_node_ok(raw, i) {
        Ok(nodes_of_raw(raw))
    } else {
        Err(
            (choose|i: int|
                0 <= i < raw.len() && !raw_node_ok(raw, i) && forall|j: int|
                    0 <= j < i ==> #[trigger] raw_node_ok(raw, j)) as usize,
        )
    }
}

/// The program that raw nodes name, each an operator with the positions of
/// its children.
pub fn program_from_nodes(raw: &Vec<(String, Vec<usize>)>) -> (r: Result<RecExpr, ParseError>)
    ensures
        match program_of_raw(raw_view(raw@)) {
            Ok(nodes) => r matches Ok(e) && e@ == nodes,
            Err(i) => r matches Err(ParseError::Node(j)) && j == i,
        },
{
    let ghost rv = raw_view(raw@);
    let mut e = RecExpr::new();
    let mut i: usize = 0;
    while i < raw.len()
        invariant
            i <= raw@.len(),
            rv == raw_view(raw@),
            e@.len() == i,
            forall|j: int| 0 <= j < i ==> #[trigger] raw_node_ok(rv, j),
            e@ == nodes_of_raw(rv).take(i as int),
        decreases raw.len() - i,
    {
        let op = chars_of(raw[i].0.as_str());
        let ch = crate::dims::dims_take(&raw[i].1, raw[i].1.len());
        assert(rv[i as int] == (raw@[i as int].0@, raw@[i as int].1@));
        assert(op@ == rv[i as int].0);
        assert(ch@ =~= rv[i as int].1);
        match Language::from_op(&op, ch) {
            Some(node) => {
                assert(node@ == node_from_op(rv[i as int].0, rv[i as int].1)->0);
                assert(node@ == nodes_of_raw(rv)[i as int]);
                match e.add(node) {
                    Some(_) => {},
                    None => {
                        proof {
                            assert(!raw_node_ok(rv, i as int));
                            let k = choose|k: int|
                                0 <= k < rv.len() && !raw_node_ok(rv, k) && forall|j: int|
                                    0 <= j < k ==> #[trigger] raw_node_ok(rv, j);
                            assert(k == i) by {
                                if k < i {
                                    assert(raw_node_ok(rv, k));
                                } else if k > i {
                                    assert(raw_node_ok(rv, i as int));
                                }
                            }
                        }
                        return Err(ParseError::Node(i));
                    },
                }
            },
            None => {
                proof {
                    assert(!raw_node_ok(rv, i as int));
                    let k = choose|k: int|
                        0 <= k < rv.len() && !raw_node_ok(rv, k) && forall|j: int|
                            0 <= j < k ==> #[trigger] raw_node_ok(rv, j);
                    assert(k == i) by {
                        if k < i {
                            assert(raw_node_ok(rv, k));
                        } else if k > i {
                            assert(raw_node_ok(rv, i as int));
                        }
                    }
                }
                return Err(ParseError::Node(i));
            },
        }
        assert(nodes_of_raw(rv).take(i + 1) =~= nodes_of_raw(rv).take(i as int).push(
            nodes_of_raw(rv)[i as int],
        ));
        i = i + 1;
    }
    assert(nodes_of_raw(rv).take(i as int) =~= nodes_of_raw(rv));
    Ok(e)
}

/// What a program text reads as: `egg`'s reading of the text into raw
/// nodes, then the program they name.
pub open spec fn program_of_text(text: Seq<char>) -> Result<Seq<NodeView>, Option<usize>> {
    match symbol_nodes(text) {
        Ok(raw) => match program_of_raw(raw) {
            Ok(nodes) => Ok(nodes),
            Err(i) => Err(Some(i)),
        },
        Err(_) => Err(None),
    }
}

impl RecExpr {
    /// Reads a program from its s-expression text, as `egg` reads a
    /// `RecExpr` of the language.
    pub fn parse(text: &str) -> (r: Result<RecExpr, ParseError>)
        ensures
            match symbol_nodes(text@) {
                Ok(raw) => match program_of_raw(raw) {
                    Ok(nodes) => r matches Ok(e) && e@ == nodes,
                    Err(i) => r matches Err(ParseError::Node(j)) && j == i,
                },
                Err(m) => r matches Err(ParseError::Syntax(s)) && s@ == m,
            },
    {
        match read_symbol_nodes(text) {
            Ok(raw) => program_from_nodes(&raw),
            Err(m) => Err(ParseError::Syntax(m)),
        }
    }
}

/// Whether `values` are the values of the first `values.len()` nodes of a
/// program: each what the analysis gives its node from the values before it.
pub open spec fn analyzed_prefix<F: Fn(&LiteralData, usize) -> usize>(
    nodes: Seq<NodeView>,
    values: Seq<MyAnalysisData>,
    shapes: Map<Seq<char>, Seq<usize>>,
    scale: F,
) -> bool {
    &&& values.len() <= nodes.len()
    &&& forall|i: int|
        0 <= i < values.len() ==> #[trigger] makes(
            nodes[i],
            values.take(i),
            shapes,
            scale,
            Some(values[i]@),
        )
}

impl MyAnalysis {
    /// The values of all nodes of a program, children first, as adding the
    /// program to an empty e-graph gives them; `None` where some node does
    /// not type check, given the values of the nodes before it.
    pub fn analyze<F: Fn(&LiteralData, usize) -> usize>(&self, expr: &RecExpr, scale: &F) -> (r:
        Option<Vec<MyAnalysisData>>)
        requires
            forall|l: &LiteralData, d: usize| scale.requires((l, d)),
        ensures
            match r {
                Some(v) => v@.len() == expr@.len() && analyzed_prefix(expr@, v@, self@, *scale),
                None => exists|prefix: Seq<MyAnalysisData>|
                    #![trigger analyzed_prefix(expr@, prefix, self@, *scale)]
                    prefix.len() < expr@.len() && analyzed_prefix(expr@, prefix, self@, *scale)
                        && makes(expr@[prefix.len() as int], prefix, self@, *scale, None),
            },
    {
        proof {
            use_type_invariant(expr);
        }
        let mut values: Vec<MyAnalysisData> = Vec::new();
        let mut i: usize = 0;
        while i < expr.len()
            invariant
                i <= expr@.len(),
                values@.len() == i,
                children_first(expr@),
                forall|l: &LiteralData, d: usize| scale.requires((l, d)),
                analyzed_prefix(expr@, values@, self@, *scale),
            decreases expr@.len() - i,
        {
            let node = expr.node(i);
            assert(children_in(expr@[i as int], i as int));
            let v = self.try_make(node, &values, scale);
            match v {
                Some(x) => {
                    let ghost old_values = values@;
                    values.push(x);
                    assert(values@.take(i as int) =~= old_values);
                    assert forall|j: int| 0 <= j < values@.len() implies #[trigger] makes(
                        expr@[j],
                        values@.take(j),
                        self@,
                        *scale,
                        Some(values@[j]@),
                    ) by {
                        if j < i {
                            assert(values@.take(j) =~= old_values.take(j));
                            assert(makes(expr@[j], old_values.take(j), self@, *scale, Some(old_values[j]@)));
                        }
                    }
                },
                None => {
                    assert(analyzed_prefix(expr@, values@, self@, *scale));
                    return None;
                },
            }
            i = i + 1;
        }
        Some(values)
    }
}

} // verus!
