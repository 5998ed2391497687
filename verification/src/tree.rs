//! The study move tree as the annotation passes see it: nodes addressed by
//! index, each with its move, comment, NAGs, stored evaluation and board
//! shapes; and the passes that rewrite those annotations (move-quality
//! glyphs, bulk shape clearing, setting a comment / eval / shapes).

use vstd::prelude::*;

use crate::text::str_eq;

verus! {

/// A stored evaluation, White's point of view: centipawns, or mate in `n`
/// (negative: Black mates).
#[derive(PartialEq, Eq, Structural, Debug, Clone, Copy)]
pub enum Eval {
    Cp(i32),
    Mate(i32),
}

/// A board annotation: an arrow from `orig` to `dest`, or a highlighted
/// square when `dest` is `None`, drawn with `brush`.
pub struct Shape {
    pub orig: String,
    pub dest: Option<String>,
    pub brush: String,
}

/// One node of the tree. The root carries no move.
pub struct Node {
    pub id: usize,
    pub parent: Option<usize>,
    pub children: Vec<usize>,
    pub san: Option<String>,
    pub comment: Option<String>,
    pub nags: Vec<u8>,
    pub eval: Option<Eval>,
    pub shapes: Vec<Shape>,
}

/// A study's move tree: nodes stored at their own id.
pub struct MoveTree {
    pub nodes: Vec<Node>,
    pub root: usize,
}

impl MoveTree {
    /// Every node sits at its own id, and the root is one of them.
    pub open spec fn wf(&self) -> bool {
        &&& self.root < self.nodes@.len()
        &&& forall|i: int| 0 <= i < self.nodes@.len() ==> (#[trigger] self.nodes@[i]).id == i
    }

    /// Whether `id` names a node.
    pub open spec fn has(&self, id: int) -> bool {
        0 <= id < self.nodes@.len()
    }
}

/// Two nodes agree on everything but their NAGs.
pub open spec fn same_but_nags(a: Node, b: Node) -> bool {
    &&& a.id == b.id
    &&& a.parent == b.parent
    &&& a.children@ == b.children@
    &&& a.san == b.san
    &&& a.comment == b.comment
    &&& a.eval == b.eval
    &&& a.shapes@ == b.shapes@
}

/// Two trees agree everywhere except on node `id`, whose fields outside
/// what `changed` allows are kept too.
pub open spec fn same_except(a: MoveTree, b: MoveTree, id: int) -> bool {
    &&& a.root == b.root
    &&& a.nodes@.len() == b.nodes@.len()
    &&& forall|i: int| 0 <= i < a.nodes@.len() && i != id ==> #[trigger] b.nodes@[i] == a.nodes@[i]
}

// ---------------------------------------------------------------------------
// Move-quality glyphs
// ---------------------------------------------------------------------------

/// `$1`..`$6` (`!`, `?`, `!!`, `??`, `!?`, `?!`): the move-quality NAGs,
/// of which a move carries at most one.
pub open spec fn is_quality_nag(n: u8) -> bool {
    1 <= n <= 6
}

/// Whether `n` is a move-quality NAG.
pub fn is_move_quality_nag(n: u8) -> (r: bool)
    ensures
        r == is_quality_nag(n),
{
    1 <= n && n <= 6
}

/// `nags` without its move-quality NAGs, in order.
pub open spec fn positional_nags(nags: Seq<u8>) -> Seq<u8>
    decreases nags.len(),
{
    if nags.len() == 0 {
        nags
    } else {
        let rest = positional_nags(nags.drop_last());
        if is_quality_nag(nags.last()) {
            rest
        } else {
            rest.push(nags.last())
        }
    }
}

/// The NAGs after the quality glyph is replaced by `nag`.
pub open spec fn with_quality(nags: Seq<u8>, nag: Option<u8>) -> Seq<u8> {
    match nag {
        Some(n) => positional_nags(nags).push(n),
        None => positional_nags(nags),
    }
}

/// Removes the move-quality NAGs from `nags`, keeping the rest in order.
fn retain_positional(nags: &mut Vec<u8>)
    ensures
        final(nags)@ == positional_nags(old(nags)@),
{
    let mut kept: Vec<u8> = Vec::new();
    let mut i: usize = 0;
    while i < nags.len()
        invariant
            i <= nags@.len(),
            kept@ == positional_nags(nags@.take(i as int)),
        decreases nags.len() - i,
    {
        let n = nags[i];
        proof {
            assert(nags@.take(i + 1).drop_last() =~= nags@.take(i as int));
        }
        if !is_move_quality_nag(n) {
            kept.push(n);
        }
        i = i + 1;
    }
    proof {
        assert(nags@.take(nags@.len() as int) =~= nags@);
    }
    *nags = kept;
}

/// Replaces any move-quality NAG on node `id` by `nag` (`None` clears it
/// without adding one). Positional NAGs (outside `$1`..`$6`) stay, in order.
pub fn set_quality_nag(tree: &mut MoveTree, id: usize, nag: Option<u8>)
    requires
        old(tree).has(id as int),
    ensures
        same_except(*old(tree), *final(tree), id as int),
        same_but_nags(old(tree).nodes@[id as int], final(tree).nodes@[id as int]),
        final(tree).nodes@[id as int].nags@ == with_quality(old(tree).nodes@[id as int].nags@, nag),
{
    retain_positional(&mut tree.nodes[id].nags);
    if let Some(n) = nag {
        tree.nodes[id].nags.push(n);
    }
}

/// What `positional_nags` keeps is exactly the NAGs that are not quality
/// glyphs, in order.
pub proof fn positional_nags_facts(nags: Seq<u8>)
    ensures
        forall|k: int|
            0 <= k < positional_nags(nags).len() ==> !is_quality_nag(
                #[trigger] positional_nags(nags)[k],
            ),
        positional_nags(positional_nags(nags)) == positional_nags(nags),
        (forall|k: int| 0 <= k < nags.len() ==> !is_quality_nag(#[trigger] nags[k]))
            ==> positional_nags(nags) == nags,
    decreases nags.len(),
{
    if nags.len() > 0 {
        positional_nags_facts(nags.drop_last());
        let rest = positional_nags(nags.drop_last());
        if !is_quality_nag(nags.last()) {
            lemma_positional_push(rest, nags.last());
        }
        if forall|k: int| 0 <= k < nags.len() ==> !is_quality_nag(#[trigger] nags[k]) {
            assert forall|k: int| 0 <= k < nags.drop_last().len() implies !is_quality_nag(
                #[trigger] nags.drop_last()[k],
            ) by {
                assert(nags.drop_last()[k] == nags[k]);
            }
            assert(nags.drop_last().push(nags.last()) =~= nags);
        }
    }
}

proof fn lemma_positional_push(s: Seq<u8>, n: u8)
    requires
        positional_nags(s) == s,
        !is_quality_nag(n),
    ensures
        positional_nags(s.push(n)) == s.push(n),
{
    assert(s.push(n).drop_last() =~= s);
}

/// Re-grading is stable: after `set_quality_nag` the node carries at most
/// one quality glyph (the new one, last), all its positional NAGs in their
/// old order, and grading again with the same glyph changes nothing.
pub proof fn quality_nag_is_replaced(nags: Seq<u8>, nag: Option<u8>)
    requires
        nag matches Some(n) ==> is_quality_nag(n),
    ensures
        forall|k: int|
            0 <= k < positional_nags(nags).len() ==> !is_quality_nag(
                #[trigger] with_quality(nags, nag)[k],
            ),
        with_quality(nags, nag).len() == positional_nags(nags).len() + (if nag is Some {
            1int
        } else {
            0int
        }),
        positional_nags(with_quality(nags, nag)) == positional_nags(nags),
        with_quality(with_quality(nags, nag), nag) == with_quality(nags, nag),
{
    positional_nags_facts(nags);
    let p = positional_nags(nags);
    match nag {
        Some(n) => {
            assert(p.push(n).drop_last() =~= p);
            assert forall|k: int| 0 <= k < p.len() implies !is_quality_nag(
                #[trigger] with_quality(nags, nag)[k],
            ) by {
                assert(with_quality(nags, nag)[k] == p[k]);
            }
        },
        None => {},
    }
}

// ---------------------------------------------------------------------------
// Annotations set by the passes
// ---------------------------------------------------------------------------

impl MoveTree {
    /// Sets node `id`'s comment.
    pub fn set_comment(&mut self, id: usize, comment: String)
        requires
            old(self).has(id as int),
        ensures
            same_except(*old(self), *final(self), id as int),
            ({
                let (a, b) = (old(self).nodes@[id as int], final(self).nodes@[id as int]);
                &&& b.comment == Some(comment)
                &&& a.id == b.id && a.parent == b.parent && a.children@ == b.children@
                &&& a.san == b.san && a.nags@ == b.nags@ && a.eval == b.eval
                &&& a.shapes@ == b.shapes@
            }),
    {
        self.nodes[id].comment = Some(comment);
    }

    /// Sets node `id`'s stored evaluation.
    pub fn set_eval(&mut self, id: usize, eval: Eval)
        requires
            old(self).has(id as int),
        ensures
            same_except(*old(self), *final(self), id as int),
            ({
                let (a, b) = (old(self).nodes@[id as int], final(self).nodes@[id as int]);
                &&& b.eval == Some(eval)
                &&& a.id == b.id && a.parent == b.parent && a.children@ == b.children@
                &&& a.san == b.san && a.nags@ == b.nags@ && a.comment == b.comment
                &&& a.shapes@ == b.shapes@
            }),
    {
        self.nodes[id].eval = Some(eval);
    }

    /// Adds `nag` to node `id`, unless the node already carries it.
    pub fn add_nag(&mut self, id: usize, nag: u8)
        requires
            old(self).has(id as int),
        ensures
            same_except(*old(self), *final(self), id as int),
            same_but_nags(old(self).nodes@[id as int], final(self).nodes@[id as int]),
            final(self).nodes@[id as int].nags@ == if old(self).nodes@[id as int].nags@.contains(
                nag,
            ) {
                old(self).nodes@[id as int].nags@
            } else {
                old(self).nodes@[id as int].nags@.push(nag)
            },
    {
        let mut i: usize = 0;
        let n = self.nodes[id].nags.len();
        while i < n
            invariant
                self.has(id as int),
                n == self.nodes@[id as int].nags@.len(),
                i <= n,
                forall|j: int| 0 <= j < i ==> self.nodes@[id as int].nags@[j] != nag,
            decreases n - i,
        {
            if self.nodes[id].nags[i] == nag {
                proof {
                    assert(self.nodes@[id as int].nags@.contains(nag));
                }
                return;
            }
            i = i + 1;
        }
        self.nodes[id].nags.push(nag);
    }

    /// Replaces node `id`'s shapes.
    pub fn set_shapes(&mut self, id: usize, shapes: Vec<Shape>)
        requires
            old(self).has(id as int),
        ensures
            same_except(*old(self), *final(self), id as int),
            ({
                let (a, b) = (old(self).nodes@[id as int], final(self).nodes@[id as int]);
                &&& b.shapes@ == shapes@
                &&& a.id == b.id && a.parent == b.parent && a.children@ == b.children@
                &&& a.san == b.san && a.nags@ == b.nags@ && a.comment == b.comment
                &&& a.eval == b.eval
            }),
    {
        self.nodes[id].shapes = shapes;
    }
}

// ---------------------------------------------------------------------------
// Board shapes
// ---------------------------------------------------------------------------

/// The brushes the generate / analyse passes draw with: engine plan arrows
/// `plan1`..`plan3` and their dashed `plan1d`..`plan3d`, and `threat`.
pub open spec fn is_generated_brush(b: Seq<char>) -> bool {
    ||| b == "plan1"@
    ||| b == "plan2"@
    ||| b == "plan3"@
    ||| b == "plan1d"@
    ||| b == "plan2d"@
    ||| b == "plan3d"@
    ||| b == "threat"@
}

/// Whether `brush` is one the generated passes draw with.
pub fn generated_brush(brush: &str) -> (r: bool)
    ensures
        r == is_generated_brush(brush@),
{
    str_eq(brush, "plan1") || str_eq(brush, "plan2") || str_eq(brush, "plan3") || str_eq(
        brush,
        "plan1d",
    ) || str_eq(brush, "plan2d") || str_eq(brush, "plan3d") || str_eq(brush, "threat")
}

/// The user-drawn shapes of `shapes`, in order.
pub open spec fn user_shapes(shapes: Seq<Shape>) -> Seq<Shape>
    decreases shapes.len(),
{
    if shapes.len() == 0 {
        shapes
    } else {
        let rest = user_shapes(shapes.drop_last());
        if is_generated_brush(shapes.last().brush@) {
            rest
        } else {
            rest.push(shapes.last())
        }
    }
}

/// A node's shapes after a generating pass: its user-drawn shapes, in order,
/// then the freshly generated ones. Stale generated shapes never survive.
pub fn merge_shapes(existing: Vec<Shape>, generated: Vec<Shape>) -> (r: Vec<Shape>)
    ensures
        r@ == user_shapes(existing@) + generated@,
{
    let mut kept: Vec<Shape> = Vec::new();
    let mut existing = existing;
    let ghost all = existing@;
    let mut i: usize = 0;
    let n = existing.len();
    while i < n
        invariant
            n == all.len(),
            i <= n,
            existing@ =~= all.skip(i as int),
            kept@ == user_shapes(all.take(i as int)),
        decreases n - i,
    {
        let shape = existing.remove(0);
        proof {
            assert(shape == all[i as int]);
            assert(all.take(i + 1).drop_last() =~= all.take(i as int));
        }
        if !generated_brush(shape.brush.as_str()) {
            kept.push(shape);
        }
        i = i + 1;
    }
    proof {
        assert(all.take(n as int) =~= all);
    }
    let mut generated = generated;
    kept.append(&mut generated);
    kept
}

/// What a bulk shape clear removes.
#[derive(PartialEq, Eq, Structural, Debug, Clone, Copy)]
pub enum ClearShapesScope {
    /// Only the generated plan / threat shapes; user-drawn ones stay.
    Generated,
    /// Every shape, generated or user-drawn.
    All,
}

/// Clears shapes on every node per `scope`; nothing else changes.
pub fn clear_shapes(tree: &mut MoveTree, scope: ClearShapesScope)
    ensures
        final(tree).root == old(tree).root,
        final(tree).nodes@.len() == old(tree).nodes@.len(),
        forall|i: int|
            0 <= i < old(tree).nodes@.len() ==> {
                let (a, b) = (old(tree).nodes@[i], #[trigger] final(tree).nodes@[i]);
                &&& a.id == b.id && a.parent == b.parent && a.children@ == b.children@
                &&& a.san == b.san && a.nags@ == b.nags@ && a.comment == b.comment
                &&& a.eval == b.eval
                &&& b.shapes@ == match scope {
                    ClearShapesScope::All => Seq::<Shape>::empty(),
                    ClearShapesScope::Generated => user_shapes(a.shapes@),
                }
            },
{
    let ghost start = tree.nodes@;
    let n = tree.nodes.len();
    let mut i: usize = 0;
    while i < n
        invariant
            n == start.len(),
            tree.nodes@.len() == n,
            tree.root == old(tree).root,
            start == old(tree).nodes@,
            i <= n,
            forall|j: int| i <= j < n ==> #[trigger] tree.nodes@[j] == start[j],
            forall|j: int|
                0 <= j < i ==> {
                    let (a, b) = (start[j], #[trigger] tree.nodes@[j]);
                    &&& a.id == b.id && a.parent == b.parent && a.children@ == b.children@
                    &&& a.san == b.san && a.nags@ == b.nags@ && a.comment == b.comment
                    &&& a.eval == b.eval
                    &&& b.shapes@ == match scope {
                        ClearShapesScope::All => Seq::<Shape>::empty(),
                        ClearShapesScope::Generated => user_shapes(a.shapes@),
                    }
                },
        decreases n - i,
    {
        let mut old_shapes: Vec<Shape> = Vec::new();
        std::mem::swap(&mut old_shapes, &mut tree.nodes[i].shapes);
        let new_shapes = match scope {
            ClearShapesScope::All => Vec::new(),
            ClearShapesScope::Generated => merge_shapes(old_shapes, Vec::new()),
        };
        tree.nodes[i].shapes = new_shapes;
        proof {
            assert(user_shapes(start[i as int].shapes@) + Seq::<Shape>::empty() =~= user_shapes(
                start[i as int].shapes@,
            ));
        }
        i = i + 1;
    }
}

/// Clearing generated shapes keeps every user-drawn shape and leaves no
/// generated one; clearing again changes nothing.
pub proof fn clearing_generated_keeps_user_shapes(shapes: Seq<Shape>)
    ensures
        forall|k: int|
            0 <= k < user_shapes(shapes).len() ==> !is_generated_brush(
                (#[trigger] user_shapes(shapes)[k]).brush@,
            ),
        user_shapes(user_shapes(shapes)) == user_shapes(shapes),
        (forall|k: int| 0 <= k < shapes.len() ==> !is_generated_brush((#[trigger] shapes[k]).brush@))
            ==> user_shapes(shapes) == shapes,
    decreases shapes.len(),
{
    if shapes.len() > 0 {
        clearing_generated_keeps_user_shapes(shapes.drop_last());
        let rest = user_shapes(shapes.drop_last());
        if !is_generated_brush(shapes.last().brush@) {
            assert(rest.push(shapes.last()).drop_last() =~= rest);
        }
        if forall|k: int| 0 <= k < shapes.len() ==> !is_generated_brush((#[trigger] shapes[k]).brush@) {
            assert forall|k: int| 0 <= k < shapes.drop_last().len() implies !is_generated_brush(
                (#[trigger] shapes.drop_last()[k]).brush@,
            ) by {
                assert(shapes.drop_last()[k] == shapes[k]);
            }
            assert(shapes.drop_last().push(shapes.last()) =~= shapes);
        }
    }
}

/// The shapes the generating passes draw are exactly those with the brushes
/// `plan1`, `plan2`, `plan3` (engine plans), `plan1d`, `plan2d`, `plan3d`
/// (their dashed forms) and `threat`. Clearing generated shapes (and
/// regenerating, which keeps the same user shapes) leaves no shape with any
/// of those brushes, and keeps every shape drawn with another brush.
pub proof fn generated_shapes_are_the_engine_brushes(shapes: Seq<Shape>)
    ensures
        forall|k: int|
            0 <= k < user_shapes(shapes).len() ==> {
                let b = (#[trigger] user_shapes(shapes)[k]).brush@;
                &&& b != "plan1"@ && b != "plan2"@ && b != "plan3"@
                &&& b != "plan1d"@ && b != "plan2d"@ && b != "plan3d"@
                &&& b != "threat"@
            },
        forall|k: int|
            0 <= k < shapes.len() ==> {
                let b = (#[trigger] shapes[k]).brush@;
                b != "plan1"@ && b != "plan2"@ && b != "plan3"@ && b != "plan1d"@ && b != "plan2d"@
                    && b != "plan3d"@ && b != "threat"@
            } ==> user_shapes(shapes).contains(shapes[k]),
    decreases shapes.len(),
{
    clearing_generated_keeps_user_shapes(shapes);
    if shapes.len() > 0 {
        let d = shapes.drop_last();
        generated_shapes_are_the_engine_brushes(d);
        let rest = user_shapes(d);
        assert forall|k: int|
            0 <= k < shapes.len() && {
                let b = (#[trigger] shapes[k]).brush@;
                b != "plan1"@ && b != "plan2"@ && b != "plan3"@ && b != "plan1d"@ && b != "plan2d"@
                    && b != "plan3d"@ && b != "threat"@
            } implies user_shapes(shapes).contains(shapes[k]) by {
            if k < d.len() {
                assert(d[k] == shapes[k]);
                assert(rest.contains(d[k]));
                let j = choose|j: int| 0 <= j < rest.len() && rest[j] == d[k];
                if !is_generated_brush(shapes.last().brush@) {
                    assert(rest.push(shapes.last())[j] == rest[j]);
                }
            } else {
                assert(shapes[k] == shapes.last());
                assert(!is_generated_brush(shapes.last().brush@));
                assert(rest.push(shapes.last())[rest.len() as int] == shapes.last());
            }
        }
    }
}

// ---------------------------------------------------------------------------
// Lines
// ---------------------------------------------------------------------------

/// The moves from the root to node `id`, walking parent links at most
/// `fuel` times: `None` when `id` is no node, a link leads outside the tree
/// or the walk does not reach a parentless node in time.
pub open spec fn line_of(nodes: Seq<Node>, id: int, fuel: nat) -> Option<Seq<Seq<char>>>
    decreases fuel,
{
    if !(0 <= id < nodes.len()) {
        None
    } else {
        match nodes[id].parent {
            None => Some(Seq::empty()),
            Some(p) => if fuel == 0 {
                None
            } else {
                match line_of(nodes, p as int, (fuel - 1) as nat) {
                    None => None,
                    Some(l) => match nodes[id].san {
                        Some(s) => Some(l.push(s@)),
                        None => Some(l),
                    },
                }
            },
        }
    }
}

/// More fuel reads the same line once one can be read.
pub proof fn line_of_more_fuel(nodes: Seq<Node>, id: int, f: nat, g: nat)
    requires
        f <= g,
        line_of(nodes, id, f) is Some,
    ensures
        line_of(nodes, id, g) == line_of(nodes, id, f),
    decreases f,
{
    if 0 <= id < nodes.len() {
        if let Some(p) = nodes[id].parent {
            line_of_more_fuel(nodes, p as int, (f - 1) as nat, (g - 1) as nat);
        }
    }
}

/// The moves from the root to node `id` (see `line_of`; a tree's depth
/// never exceeds its size).
pub open spec fn line_to_spec(tree: MoveTree, id: int) -> Option<Seq<Seq<char>>> {
    line_of(tree.nodes@, id, tree.nodes@.len())
}

fn line_steps(nodes: &Vec<Node>, id: usize, fuel: usize) -> (r: Option<Vec<String>>)
    ensures
        match r {
            Some(l) => line_of(nodes@, id as int, fuel as nat) == Some(crate::text::views(l@)),
            None => line_of(nodes@, id as int, fuel as nat) is None,
        },
    decreases fuel,
{
    if id >= nodes.len() {
        return None;
    }
    match nodes[id].parent {
        None => {
            let v: Vec<String> = Vec::new();
            proof {
                assert(crate::text::views(v@) =~= Seq::<Seq<char>>::empty());
            }
            Some(v)
        },
        Some(p) => {
            if fuel == 0 {
                return None;
            }
            match line_steps(nodes, p, fuel - 1) {
                None => None,
                Some(mut l) => {
                    let ghost before = l@;
                    match &nodes[id].san {
                        Some(s) => {
                            l.push(crate::text::copy_str(s.as_str()));
                            proof {
                                assert(crate::text::views(l@) =~= crate::text::views(before).push(
                                    s@,
                                ));
                            }
                        },
                        None => {},
                    }
                    Some(l)
                },
            }
        },
    }
}

impl MoveTree {
    /// The moves from the root to node `id` (see `line_to_spec`).
    pub fn line_to(&self, id: usize) -> (r: Option<Vec<String>>)
        ensures
            match r {
                Some(l) => line_to_spec(*self, id as int) == Some(crate::text::views(l@)),
                None => line_to_spec(*self, id as int) is None,
            },
    {
        line_steps(&self.nodes, id, self.nodes.len())
    }
}

impl MoveTree {
    /// A tree holding only its root, which carries no move.
    pub fn new() -> (r: MoveTree)
        ensures
            r.wf(),
            r.root == 0,
            r.nodes@.len() == 1,
            r.nodes@[0].parent is None,
            r.nodes@[0].san is None,
            r.nodes@[0].children@.len() == 0,
            r.nodes@[0].nags@.len() == 0,
            r.nodes@[0].shapes@.len() == 0,
            r.nodes@[0].comment is None,
            r.nodes@[0].eval is None,
    {
        let mut nodes: Vec<Node> = Vec::new();
        nodes.push(
            Node {
                id: 0,
                parent: None,
                children: Vec::new(),
                san: None,
                comment: None,
                nags: Vec::new(),
                eval: None,
                shapes: Vec::new(),
            },
        );
        MoveTree { nodes, root: 0 }
    }

    /// Appends `san` as the last child of `parent` and returns the new
    /// node's id (the next free one).
    pub fn add_move(&mut self, parent: usize, san: String) -> (id: usize)
        requires
            old(self).has(parent as int),
            old(self).nodes@.len() < usize::MAX,
        ensures
            id == old(self).nodes@.len(),
            final(self).root == old(self).root,
            final(self).nodes@.len() == old(self).nodes@.len() + 1,
            ({
                let n = final(self).nodes@[id as int];
                &&& n.id == id && n.parent == Some(parent) && n.children@.len() == 0
                &&& n.san matches Some(x) && x@ == san@
                &&& n.comment is None && n.nags@.len() == 0 && n.eval is None
                &&& n.shapes@.len() == 0
            }),
            ({
                let (a, b) = (old(self).nodes@[parent as int], final(self).nodes@[parent as int]);
                &&& b.children@ == a.children@.push(id)
                &&& a.id == b.id && a.parent == b.parent && a.san == b.san
                &&& a.comment == b.comment && a.nags@ == b.nags@ && a.eval == b.eval
                &&& a.shapes@ == b.shapes@
            }),
            forall|i: int|
                0 <= i < old(self).nodes@.len() && i != parent ==> #[trigger] final(self).nodes@[i]
                    == old(self).nodes@[i],
            old(self).wf() ==> final(self).wf(),
    {
        let id = self.nodes.len();
        self.nodes.push(
            Node {
                id,
                parent: Some(parent),
                children: Vec::new(),
                san: Some(san),
                comment: None,
                nags: Vec::new(),
                eval: None,
                shapes: Vec::new(),
            },
        );
        self.nodes[parent].children.push(id);
        id
    }
}

// ---------------------------------------------------------------------------
// Toggling a glyph
// ---------------------------------------------------------------------------

/// `nags` without any occurrence of `n`, in order.
pub open spec fn without_nag(nags: Seq<u8>, n: u8) -> Seq<u8>
    decreases nags.len(),
{
    if nags.len() == 0 {
        nags
    } else {
        let rest = without_nag(nags.drop_last(), n);
        if nags.last() == n {
            rest
        } else {
            rest.push(nags.last())
        }
    }
}

/// The NAGs after toggling `n`: present, it is removed; absent, it is
/// added, and a move-quality glyph first displaces any other one.
pub open spec fn toggled(nags: Seq<u8>, n: u8) -> Seq<u8> {
    if nags.contains(n) {
        without_nag(nags, n)
    } else if is_quality_nag(n) {
        positional_nags(nags).push(n)
    } else {
        nags.push(n)
    }
}

fn remove_nag(nags: &mut Vec<u8>, n: u8)
    ensures
        final(nags)@ == without_nag(old(nags)@, n),
{
    let mut kept: Vec<u8> = Vec::new();
    let mut i: usize = 0;
    while i < nags.len()
        invariant
            i <= nags@.len(),
            kept@ == without_nag(nags@.take(i as int), n),
        decreases nags.len() - i,
    {
        let x = nags[i];
        proof {
            assert(nags@.take(i + 1).drop_last() =~= nags@.take(i as int));
        }
        if x != n {
            kept.push(x);
        }
        i = i + 1;
    }
    proof {
        assert(nags@.take(nags@.len() as int) =~= nags@);
    }
    *nags = kept;
}

proof fn lemma_without_absent(nags: Seq<u8>, n: u8)
    requires
        !nags.contains(n),
    ensures
        without_nag(nags, n) == nags,
    decreases nags.len(),
{
    if nags.len() > 0 {
        assert(!nags.drop_last().contains(n)) by {
            if nags.drop_last().contains(n) {
                let k = choose|k: int| 0 <= k < nags.drop_last().len() && nags.drop_last()[k] == n;
                assert(nags[k] == n);
            }
        }
        lemma_without_absent(nags.drop_last(), n);
        assert(nags.last() != n) by {
            assert(nags[nags.len() - 1] == nags.last());
        }
        assert(nags.drop_last().push(nags.last()) =~= nags);
    }
}

/// Toggling a positional glyph twice restores the node's glyphs.
pub proof fn toggling_twice_restores(nags: Seq<u8>, n: u8)
    requires
        !nags.contains(n),
        !is_quality_nag(n),
    ensures
        toggled(toggled(nags, n), n) == nags,
{
    let once = nags.push(n);
    assert(once.contains(n)) by {
        assert(once[nags.len() as int] == n);
    }
    assert(once.drop_last() =~= nags);
    lemma_without_absent(nags, n);
}

/// A NAG outside `$1`..`$6` is in what `positional_nags` keeps exactly
/// when it is in the NAGs, and nothing it keeps lies in `$1`..`$6`.
proof fn positional_keeps_outside_quality(nags: Seq<u8>, n: u8)
    ensures
        (n < 1 || n > 6) ==> (positional_nags(nags).contains(n) <==> nags.contains(n)),
        forall|k: int|
            0 <= k < positional_nags(nags).len() ==> (#[trigger] positional_nags(nags)[k] < 1
                || positional_nags(nags)[k] > 6),
    decreases nags.len(),
{
    if nags.len() > 0 {
        let d = nags.drop_last();
        positional_keeps_outside_quality(d, n);
        let rest = positional_nags(d);
        assert(nags =~= d.push(nags.last()));
        if n < 1 || n > 6 {
            if nags.contains(n) && !d.contains(n) {
                let k = choose|k: int| 0 <= k < nags.len() && nags[k] == n;
                if k < d.len() {
                    assert(d[k] == n);
                }
                assert(nags.last() == n);
                assert(rest.push(n)[rest.len() as int] == n);
            }
            if positional_nags(nags).contains(n) && !rest.contains(n) {
                let k = choose|k: int|
                    0 <= k < positional_nags(nags).len() && positional_nags(nags)[k] == n;
                if !(1 <= nags.last() <= 6) {
                    if k < rest.len() {
                        assert(rest.push(nags.last())[k] == rest[k]);
                    }
                }
                assert(nags[nags.len() - 1] == n);
            }
            if rest.contains(n) {
                let k = choose|k: int| 0 <= k < rest.len() && rest[k] == n;
                if !(1 <= nags.last() <= 6) {
                    assert(rest.push(nags.last())[k] == n);
                }
            }
            if d.contains(n) {
                let k = choose|k: int| 0 <= k < d.len() && d[k] == n;
                assert(nags[k] == n);
            }
        }
        if !(1 <= nags.last() <= 6) {
            assert forall|k: int| 0 <= k < positional_nags(nags).len() implies (
            #[trigger] positional_nags(nags)[k] < 1 || positional_nags(nags)[k] > 6) by {
                if k < rest.len() {
                    assert(rest.push(nags.last())[k] == rest[k]);
                }
            }
        }
    }
}

/// The move-quality glyphs `$1`..`$6` (`!`, `?`, `!!`, `??`, `!?`, `?!`)
/// exclude one another. Grading a move with glyph `q` (by
/// `set_quality_nag`, or by toggling `q` onto a move that lacks it) leaves
/// `q` as the move's only NAG in `$1`..`$6`, and keeps exactly the NAGs
/// it had outside that range. Toggling a glyph it carries removes it.
pub proof fn quality_glyphs_exclude_one_another(nags: Seq<u8>, q: u8)
    requires
        1 <= q <= 6,
    ensures
        with_quality(nags, Some(q)).contains(q),
        forall|k: int|
            0 <= k < with_quality(nags, Some(q)).len() && 1 <= #[trigger] with_quality(
                nags,
                Some(q),
            )[k] <= 6 ==> with_quality(nags, Some(q))[k] == q,
        forall|n: u8|
            (n < 1 || n > 6) ==> (#[trigger] with_quality(nags, Some(q)).contains(n)
                <==> nags.contains(n)),
        forall|k: int|
            0 <= k < with_quality(nags, None).len() ==> (#[trigger] with_quality(nags, None)[k] < 1
                || with_quality(nags, None)[k] > 6),
        !nags.contains(q) ==> toggled(nags, q) == with_quality(nags, Some(q)),
        nags.contains(q) ==> !toggled(nags, q).contains(q),
{
    positional_keeps_outside_quality(nags, q);
    let p = positional_nags(nags);
    let w = p.push(q);
    assert(w[p.len() as int] == q);
    assert forall|k: int| 0 <= k < w.len() && 1 <= #[trigger] w[k] <= 6 implies w[k] == q by {
        if k < p.len() {
            assert(w[k] == p[k]);
        }
    }
    assert forall|n: u8| (n < 1 || n > 6) implies (#[trigger] w.contains(n) <==> nags.contains(n)) by {
        positional_keeps_outside_quality(nags, n);
        if w.contains(n) {
            let k = choose|k: int| 0 <= k < w.len() && w[k] == n;
            if k < p.len() {
                assert(p[k] == n);
            }
        }
        if p.contains(n) {
            let k = choose|k: int| 0 <= k < p.len() && p[k] == n;
            assert(w[k] == n);
        }
    }
    if nags.contains(q) {
        without_nag_drops(nags, q);
    }
}

proof fn without_nag_drops(nags: Seq<u8>, n: u8)
    ensures
        !without_nag(nags, n).contains(n),
    decreases nags.len(),
{
    if nags.len() > 0 {
        without_nag_drops(nags.drop_last(), n);
        let rest = without_nag(nags.drop_last(), n);
        if nags.last() != n {
            if rest.push(nags.last()).contains(n) {
                let k = choose|k: int| 0 <= k < rest.len() + 1 && rest.push(nags.last())[k] == n;
                if k < rest.len() {
                    assert(rest[k] == n);
                }
            }
        }
    }
}

impl MoveTree {
    /// Toggles `nag` on node `id` (see `toggled`).
    pub fn toggle_nag(&mut self, id: usize, nag: u8)
        requires
            old(self).has(id as int),
        ensures
            same_except(*old(self), *final(self), id as int),
            same_but_nags(old(self).nodes@[id as int], final(self).nodes@[id as int]),
            final(self).nodes@[id as int].nags@ == toggled(old(self).nodes@[id as int].nags@, nag),
    {
        let n = self.nodes[id].nags.len();
        let mut i: usize = 0;
        let mut present = false;
        while i < n
            invariant
                self.has(id as int),
                n == self.nodes@[id as int].nags@.len(),
                i <= n,
                present <==> exists|j: int| 0 <= j < i && self.nodes@[id as int].nags@[j] == nag,
            decreases n - i,
        {
            if self.nodes[id].nags[i] == nag {
                present = true;
            }
            i = i + 1;
        }
        if present {
            remove_nag(&mut self.nodes[id].nags, nag);
        } else if is_move_quality_nag(nag) {
            retain_positional(&mut self.nodes[id].nags);
            self.nodes[id].nags.push(nag);
        } else {
            self.nodes[id].nags.push(nag);
        }
    }

    /// Drops every node's stored evaluation (a plain export); nothing else
    /// changes.
    pub fn strip_evals(&mut self)
        ensures
            final(self).root == old(self).root,
            final(self).nodes@.len() == old(self).nodes@.len(),
            forall|i: int|
                0 <= i < old(self).nodes@.len() ==> {
                    let (a, b) = (old(self).nodes@[i], #[trigger] final(self).nodes@[i]);
                    &&& b.eval is None
                    &&& a.id == b.id && a.parent == b.parent && a.children@ == b.children@
                    &&& a.san == b.san && a.nags@ == b.nags@ && a.comment == b.comment
                    &&& a.shapes@ == b.shapes@
                },
    {
        let ghost start = self.nodes@;
        let n = self.nodes.len();
        let mut i: usize = 0;
        while i < n
            invariant
                n == start.len(),
                self.nodes@.len() == n,
                self.root == old(self).root,
                start == old(self).nodes@,
                i <= n,
                forall|j: int| i <= j < n ==> #[trigger] self.nodes@[j] == start[j],
                forall|j: int|
                    0 <= j < i ==> {
                        let (a, b) = (start[j], #[trigger] self.nodes@[j]);
                        &&& b.eval is None
                        &&& a.id == b.id && a.parent == b.parent && a.children@ == b.children@
                        &&& a.san == b.san && a.nags@ == b.nags@ && a.comment == b.comment
                        &&& a.shapes@ == b.shapes@
                    },
            decreases n - i,
        {
            self.nodes[i].eval = None;
            i = i + 1;
        }
    }
}

} // verus!
