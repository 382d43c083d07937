use vstd::prelude::*;
use vstd::seq_lib::*;
use vstd::set_lib::*;
use crate::graph::{
    GraphModel, Link, StageGraph, StageHandle, chain_outcome, chain_pairs, graph_wf,
    has_in_link, has_out_link, linked,
};
use crate::media::caps_compatible;

verus! {

/// Whether `order` lists every stage of `g` exactly once, every adjacent
/// pair of the listing is linked, and every link of `g` joins an adjacent
/// pair of the listing.
pub open spec fn link_is_pair(g: GraphModel, order: Seq<int>, k: int) -> bool {
    exists|i: int|
        0 <= i < order.len() - 1 && g.links[k].upstream == #[trigger] order[i]
            && g.links[k].downstream == order[i + 1]
}

pub open spec fn is_chain_order(g: GraphModel, order: Seq<int>) -> bool {
    &&& order.len() == g.stages.len()
    &&& forall|i: int| 0 <= i < order.len() ==> 0 <= #[trigger] order[i] < g.stages.len()
    &&& forall|i: int, j: int| 0 <= i < j < order.len() ==> order[i] != order[j]
    &&& g.links.len() == order.len() - 1
    &&& forall|i: int, j: int|
        0 <= i < order.len() - 1 && j == i + 1 ==> linked(g, #[trigger] order[i], #[trigger] order[j])
    &&& forall|k: int| 0 <= k < g.links.len() ==> #[trigger] link_is_pair(g, order, k)
}

/// The linear-path invariant: the stages form one simple chain, covering
/// every stage, from a single source to a single sink.
pub open spec fn is_complete_chain(g: GraphModel) -> bool {
    g.stages.len() > 0 && exists|order: Seq<int>| is_chain_order(g, order)
}

/// Stage `i` exists and has no incoming link.
pub open spec fn is_source_stage(g: GraphModel, i: int) -> bool {
    0 <= i < g.stages.len() && !has_in_link(g, i)
}

/// Stage `i` exists and has no outgoing link.
pub open spec fn is_sink_stage(g: GraphModel, i: int) -> bool {
    0 <= i < g.stages.len() && !has_out_link(g, i)
}

/// A duplicate-free sequence of `n` values drawn from `0..n` contains every
/// value of `0..n`.
proof fn lemma_distinct_covers(order: Seq<int>, n: int, v: int)
    requires
        order.len() == n,
        forall|i: int| 0 <= i < n ==> 0 <= #[trigger] order[i] < n,
        forall|i: int, j: int| 0 <= i < j < n ==> order[i] != order[j],
        0 <= v < n,
    ensures
        exists|t: int| 0 <= t < n && order[t] == v,
{
    if !(exists|t: int| 0 <= t < n && order[t] == v) {
        assert(order.no_duplicates());
        order.unique_seq_to_set();
        let s = order.to_set();
        let r = set_int_range(0, n).remove(v);
        assert forall|x: int| s.contains(x) implies r.contains(x) by {
            let t = choose|t: int| 0 <= t < order.len() && order[t] == x;
            assert(0 <= order[t] < n);
        }
        lemma_int_range(0, n);
        lemma_len_subset(s, r);
        assert(s.len() == n);
        assert(r.len() == n - 1);
        assert(false);
    }
}

/// In a chain order, the first entry is the graph's only source and the last
/// its only sink.
proof fn lemma_chain_order_first_last(g: GraphModel, order: Seq<int>)
    requires
        graph_wf(g),
        is_chain_order(g, order),
        order.len() > 0,
    ensures
        is_source_stage(g, order[0]),
        is_sink_stage(g, order[order.len() - 1]),
{
    if has_in_link(g, order[0]) {
        let k = choose|k: int| 0 <= k < g.links.len() && g.links[k].downstream == order[0];
        assert(link_is_pair(g, order, k));
        let i = choose|i: int|
            0 <= i < order.len() - 1 && g.links[k].upstream == #[trigger] order[i]
                && g.links[k].downstream == order[i + 1];
        assert(order[i + 1] == order[0]);
        assert(false);
    }
    if has_out_link(g, order[order.len() - 1]) {
        let k = choose|k: int|
            0 <= k < g.links.len() && g.links[k].upstream == order[order.len() - 1];
        assert(link_is_pair(g, order, k));
        let i = choose|i: int|
            0 <= i < order.len() - 1 && g.links[k].upstream == #[trigger] order[i]
                && g.links[k].downstream == order[i + 1];
        assert(order[i] == order[order.len() - 1]);
        assert(false);
    }
}

/// Any source of a graph with a chain order is that order's first entry.
proof fn lemma_chain_order_source(g: GraphModel, order: Seq<int>, j: int)
    requires
        graph_wf(g),
        is_chain_order(g, order),
        is_source_stage(g, j),
    ensures
        order.len() > 0 && j == order[0],
{
    lemma_distinct_covers(order, order.len() as int, j);
    let t = choose|t: int| 0 <= t < order.len() && order[t] == j;
    if t > 0 {
        assert(linked(g, order[t - 1], order[t]));
        let k = choose|k: int|
            0 <= k < g.links.len() && g.links[k].upstream == order[t - 1] && g.links[k].downstream
                == order[t];
        assert(has_in_link(g, j));
        assert(false);
    }
}

/// Any sink of a graph with a chain order is that order's last entry.
proof fn lemma_chain_order_sink(g: GraphModel, order: Seq<int>, j: int)
    requires
        graph_wf(g),
        is_chain_order(g, order),
        is_sink_stage(g, j),
    ensures
        order.len() > 0 && j == order[order.len() - 1],
{
    lemma_distinct_covers(order, order.len() as int, j);
    let t = choose|t: int| 0 <= t < order.len() && order[t] == j;
    if t < order.len() - 1 {
        assert(linked(g, order[t], order[t + 1]));
        let k = choose|k: int|
            0 <= k < g.links.len() && g.links[k].upstream == order[t] && g.links[k].downstream
                == order[t + 1];
        assert(has_out_link(g, j));
        assert(false);
    }
}

/// Conditions that the completeness walk maintains: it starts at a source,
/// stays in range, never revisits a stage, and follows links.
pub open spec fn is_walk(g: GraphModel, w: Seq<int>) -> bool {
    &&& w.len() >= 1
    &&& is_source_stage(g, w[0])
    &&& forall|t: int| 0 <= t < w.len() ==> 0 <= #[trigger] w[t] < g.stages.len()
    &&& forall|t: int, u: int| 0 <= t < u < w.len() ==> w[t] != w[u]
    &&& forall|t: int, u: int|
        0 <= t < w.len() - 1 && u == t + 1 ==> linked(g, #[trigger] w[t], #[trigger] w[u])
}

/// A walk follows any chain order entry by entry.
proof fn lemma_walk_prefix(g: GraphModel, order: Seq<int>, w: Seq<int>, i: int)
    requires
        graph_wf(g),
        is_chain_order(g, order),
        is_walk(g, w),
        w.len() <= order.len(),
        0 <= i < w.len(),
    ensures
        w[i] == order[i],
    decreases i,
{
    if i == 0 {
        lemma_chain_order_source(g, order, w[0]);
    } else {
        lemma_walk_prefix(g, order, w, i - 1);
        assert(linked(g, w[i - 1], w[i]));
        assert(linked(g, order[i - 1], order[i]));
        let k1 = choose|k: int|
            0 <= k < g.links.len() && g.links[k].upstream == w[i - 1] && g.links[k].downstream
                == w[i];
        let k2 = choose|k: int|
            0 <= k < g.links.len() && g.links[k].upstream == order[i - 1] && g.links[k].downstream
                == order[i];
        if k1 != k2 {
            if k1 < k2 {
                assert(g.links[k1].upstream != g.links[k2].upstream);
            } else {
                assert(g.links[k2].upstream != g.links[k1].upstream);
            }
            assert(false);
        }
    }
}

/// A walk that stops short of covering every stage at a stage with no
/// outgoing link refutes the linear-path invariant.
proof fn lemma_no_chain_when_stuck(g: GraphModel, w: Seq<int>)
    requires
        graph_wf(g),
        is_walk(g, w),
        w.len() < g.stages.len(),
        !has_out_link(g, w[w.len() - 1]),
    ensures
        !is_complete_chain(g),
{
    if is_complete_chain(g) {
        let order = choose|order: Seq<int>| is_chain_order(g, order);
        let i = w.len() - 1;
        lemma_walk_prefix(g, order, w, i);
        assert(linked(g, order[i], order[i + 1]));
        let k = choose|k: int|
            0 <= k < g.links.len() && g.links[k].upstream == order[i] && g.links[k].downstream
                == order[i + 1];
        assert(has_out_link(g, w[i]));
        assert(false);
    }
}

/// If every stage has an incoming link, no chain order exists.
proof fn lemma_no_chain_without_source(g: GraphModel)
    requires
        graph_wf(g),
        g.stages.len() > 0,
        forall|i: int| 0 <= i < g.stages.len() ==> has_in_link(g, i),
    ensures
        !is_complete_chain(g),
{
    if is_complete_chain(g) {
        let order = choose|order: Seq<int>| is_chain_order(g, order);
        lemma_chain_order_first_last(g, order);
        assert(false);
    }
}

/// A walk covering every stage cannot be extended: no link leaves its last
/// stage.
proof fn lemma_full_walk_last_is_sink(g: GraphModel, w: Seq<int>)
    requires
        graph_wf(g),
        is_walk(g, w),
        w.len() == g.stages.len(),
    ensures
        !has_out_link(g, w[w.len() - 1]),
{
    let n = w.len() as int;
    if has_out_link(g, w[n - 1]) {
        let k = choose|k: int| 0 <= k < g.links.len() && g.links[k].upstream == w[n - 1];
        let nxt = g.links[k].downstream as int;
        assert(0 <= nxt < g.stages.len());
        lemma_distinct_covers(w, n, nxt);
        let t = choose|t: int| 0 <= t < n && w[t] == nxt;
        if t == 0 {
            assert(has_in_link(g, w[0]));
            assert(false);
        } else {
            assert(linked(g, w[t - 1], w[t]));
            let k1 = choose|k1: int|
                0 <= k1 < g.links.len() && g.links[k1].upstream == w[t - 1]
                    && g.links[k1].downstream == w[t];
            if k1 != k {
                if k1 < k {
                    assert(g.links[k1].downstream != g.links[k].downstream);
                } else {
                    assert(g.links[k].downstream != g.links[k1].downstream);
                }
            }
            assert(w[t - 1] == w[n - 1]);
            assert(t - 1 == n - 1);
            assert(false);
        }
    }
}

/// A walk covering every stage, in a graph with one link fewer than its
/// stages, whose last stage has no outgoing link, is a chain order.
proof fn lemma_full_walk_is_chain_order(g: GraphModel, w: Seq<int>)
    requires
        graph_wf(g),
        is_walk(g, w),
        w.len() == g.stages.len(),
        g.links.len() == g.stages.len() - 1,
        !has_out_link(g, w[w.len() - 1]),
    ensures
        is_chain_order(g, w),
{
    let n = w.len() as int;
    assert forall|k: int| 0 <= k < g.links.len() implies #[trigger] link_is_pair(g, w, k) by {
        let up = g.links[k].upstream as int;
        assert(0 <= up < g.stages.len());
        lemma_distinct_covers(w, n, up);
        let t = choose|t: int| 0 <= t < n && w[t] == up;
        if t == n - 1 {
            assert(has_out_link(g, w[n - 1]));
            assert(false);
        } else {
            assert(linked(g, w[t], w[t + 1]));
            let k2 = choose|k2: int|
                0 <= k2 < g.links.len() && g.links[k2].upstream == w[t] && g.links[k2].downstream
                    == w[t + 1];
            if k2 != k {
                if k2 < k {
                    assert(g.links[k2].upstream != g.links[k].upstream);
                } else {
                    assert(g.links[k].upstream != g.links[k2].upstream);
                }
                assert(false);
            }
            assert(0 <= t < w.len() - 1 && g.links[k].upstream == w[t] && g.links[k].downstream
                == w[t + 1]);
            assert(link_is_pair(g, w, k));
        }
    }
}

impl StageGraph {
    /// Whether some link ends at stage `i`.
    #[verifier::loop_isolation(false)]
    fn has_incoming(&self, i: usize) -> (r: bool)
        ensures
            r == has_in_link(self@, i as int),
    {
        let m = self.links.len();
        let mut k: usize = 0;
        while k < m
            invariant
                k <= m,
                forall|j: int| 0 <= j < k ==> self@.links[j].downstream != i,
            decreases m - k,
        {
            if self.links[k].downstream == i {
                proof {
                    assert(self@.links[k as int].downstream == i as int);
                }
                return true;
            }
            k += 1;
        }
        false
    }

    /// The first stage with no incoming link, if any.
    #[verifier::loop_isolation(false)]
    fn find_source(&self) -> (r: Option<usize>)
        ensures
            match r {
                Some(i) => i < self@.stages.len() && !has_in_link(self@, i as int),
                None => forall|i: int| 0 <= i < self@.stages.len() ==> has_in_link(self@, i),
            },
    {
        let n = self.stages.len();
        let mut i: usize = 0;
        while i < n
            invariant
                i <= n,
                n == self@.stages.len(),
                forall|j: int| 0 <= j < i ==> has_in_link(self@, j),
            decreases n - i,
        {
            if !self.has_incoming(i) {
                return Some(i);
            }
            i += 1;
        }
        None
    }

    /// The stage downstream of `i`'s outgoing link, if that link exists.
    #[verifier::loop_isolation(false)]
    fn next_stage(&self, i: usize) -> (r: Option<usize>)
        ensures
            match r {
                Some(d) => linked(self@, i as int, d as int),
                None => !has_out_link(self@, i as int),
            },
    {
        let m = self.links.len();
        let mut k: usize = 0;
        while k < m
            invariant
                k <= m,
                forall|j: int| 0 <= j < k ==> self@.links[j].upstream != i,
            decreases m - k,
        {
            if self.links[k].upstream == i {
                let d = self.links[k].downstream;
                proof {
                    assert(self@.links[k as int].upstream == i as int && self@.links[
                        k as int
                    ].downstream == d as int);
                }
                return Some(d);
            }
            k += 1;
        }
        None
    }

    /// Decides the linear-path invariant: whether the stages form a single
    /// simple chain from exactly one source to exactly one sink, covering
    /// every stage.
    #[verifier::loop_isolation(false)]
    pub fn linkage_complete(&self) -> (r: bool)
        requires
            graph_wf(self@),
        ensures
            r == is_complete_chain(self@),
    {
        let n = self.stages.len();
        if n == 0 {
            return false;
        }
        if self.links.len() != n - 1 {
            proof {
                if is_complete_chain(self@) {
                    let order = choose|order: Seq<int>| is_chain_order(self@, order);
                    assert(false);
                }
            }
            return false;
        }
        let source = match self.find_source() {
            Some(s) => s,
            None => {
                proof {
                    lemma_no_chain_without_source(self@);
                }
                return false;
            },
        };
        let mut cur = source;
        let mut count: usize = 1;
        let ghost mut w: Seq<int> = seq![source as int];
        loop
            invariant
                1 <= count <= n,
                w.len() == count,
                is_walk(self@, w),
                w[0] == source as int,
                w[count - 1] == cur as int,
                cur < n,
            decreases n - count,
        {
            match self.next_stage(cur) {
                None => {
                    if count == n {
                        proof {
                            lemma_full_walk_is_chain_order(self@, w);
                        }
                        return true;
                    } else {
                        proof {
                            lemma_no_chain_when_stuck(self@, w);
                        }
                        return false;
                    }
                },
                Some(d) => {
                    if count == n {
                        proof {
                            lemma_full_walk_last_is_sink(self@, w);
                            assert(linked(self@, cur as int, d as int));
                            assert(false);
                        }
                        return false;
                    }
                    proof {
                        let nxt = d as int;
                        let k = choose|k: int|
                            0 <= k < self@.links.len() && self@.links[k].upstream == cur as int
                                && self@.links[k].downstream == nxt;
                        assert(0 <= nxt < n);
                        assert forall|t: int| 0 <= t < w.len() implies w[t] != nxt by {
                            if w[t] == nxt {
                                if t == 0 {
                                    assert(has_in_link(self@, w[0]));
                                    assert(false);
                                } else {
                                    assert(linked(self@, w[t - 1], w[t]));
                                    let k1 = choose|k1: int|
                                        0 <= k1 < self@.links.len() && self@.links[k1].upstream
                                            == w[t - 1] && self@.links[k1].downstream == w[t];
                                    if k1 != k {
                                        if k1 < k {
                                            assert(self@.links[k1].downstream != self@.links[
                                                k
                                            ].downstream);
                                        } else {
                                            assert(self@.links[k].downstream != self@.links[
                                                k1
                                            ].downstream);
                                        }
                                    }
                                    assert(w[t - 1] == w[count - 1]);
                                    assert(t - 1 == count - 1);
                                    assert(false);
                                }
                            }
                        }
                        w = w.push(nxt);
                    }
                    cur = d;
                    count += 1;
                },
            }
        }
    }
}

/// The linear-path invariant implies exactly one source and exactly one
/// sink.
pub proof fn lemma_complete_chain_endpoints(g: GraphModel)
    requires
        graph_wf(g),
        is_complete_chain(g),
    ensures
        exists|s: int| #[trigger] is_source_stage(g, s),
        forall|s: int, t: int| is_source_stage(g, s) && is_source_stage(g, t) ==> s == t,
        exists|s: int| #[trigger] is_sink_stage(g, s),
        forall|s: int, t: int| is_sink_stage(g, s) && is_sink_stage(g, t) ==> s == t,
{
    let order = choose|order: Seq<int>| is_chain_order(g, order);
    lemma_chain_order_first_last(g, order);
    assert(is_source_stage(g, order[0]));
    assert(is_sink_stage(g, order[order.len() - 1]));
    assert forall|s: int, t: int| is_source_stage(g, s) && is_source_stage(g, t) implies s
        == t by {
        lemma_chain_order_source(g, order, s);
        lemma_chain_order_source(g, order, t);
    }
    assert forall|s: int, t: int| is_sink_stage(g, s) && is_sink_stage(g, t) implies s == t by {
        lemma_chain_order_sink(g, order, s);
        lemma_chain_order_sink(g, order, t);
    }
}

/// The links a successful chain attempt establishes: one edge for each
/// adjacent pair of the handles.
pub open spec fn pair_links(hs: Seq<StageHandle>, k: int) -> Seq<Link> {
    Seq::new(k as nat, |i: int| Link { upstream: hs[i].id, downstream: hs[i + 1].id })
}

/// The preconditions under which a chain of handles must link completely:
/// the handles are distinct, cover every stage of a graph with no links yet,
/// interior ports exist, and every adjacent pair of capabilities negotiates.
pub open spec fn linkable_chain(g: GraphModel, hs: Seq<StageHandle>) -> bool {
    &&& graph_wf(g)
    &&& g.links.len() == 0
    &&& hs.len() == g.stages.len()
    &&& hs.len() >= 1
    &&& forall|i: int| 0 <= i < hs.len() ==> #[trigger] hs[i].id < g.stages.len()
    &&& forall|i: int, j: int| 0 <= i < j < hs.len() ==> hs[i].id != hs[j].id
    &&& forall|i: int| 0 <= i < hs.len() - 1 ==> (#[trigger] g.stages[hs[i].id as int]).has_output
    &&& forall|i: int| 1 <= i < hs.len() ==> (#[trigger] g.stages[hs[i].id as int]).has_input
    &&& forall|i: int, j: int|
        0 <= i < hs.len() - 1 && j == i + 1 ==> caps_compatible(
            (#[trigger] g.stages[hs[i].id as int]).output_cap,
            (#[trigger] g.stages[hs[j].id as int]).input_cap,
        )
}

proof fn lemma_chain_prefix_ok(g: GraphModel, hs: Seq<StageHandle>, k: int)
    requires
        linkable_chain(g, hs),
        0 <= k <= chain_pairs(hs),
    ensures
        chain_outcome(g, hs, k).failure is None,
        chain_outcome(g, hs, k).model.stages == g.stages,
        chain_outcome(g, hs, k).model.kinds == g.kinds,
        chain_outcome(g, hs, k).model.links == pair_links(hs, k),
    decreases k,
{
    if k == 0 {
        assert(chain_outcome(g, hs, 0).model.links =~= pair_links(hs, 0));
    } else {
        lemma_chain_prefix_ok(g, hs, k - 1);
        let prev = chain_outcome(g, hs, k - 1).model;
        let u = hs[k - 1].id as int;
        let d = hs[k].id as int;
        assert(prev.stages[u].has_output && prev.stages[d].has_input);
        assert(!has_out_link(prev, u)) by {
            if has_out_link(prev, u) {
                let l = choose|l: int|
                    0 <= l < prev.links.len() && prev.links[l].upstream == u;
                assert(prev.links[l] == pair_links(hs, k - 1)[l]);
                assert(hs[l].id == hs[k - 1].id);
                assert(false);
            }
        }
        assert(!has_in_link(prev, d)) by {
            if has_in_link(prev, d) {
                let l = choose|l: int|
                    0 <= l < prev.links.len() && prev.links[l].downstream == d;
                assert(prev.links[l] == pair_links(hs, k - 1)[l]);
                assert(hs[l + 1].id == hs[k].id);
                assert(false);
            }
        }
        assert(caps_compatible(prev.stages[u].output_cap, prev.stages[d].input_cap));
        assert(chain_outcome(g, hs, k).model.links =~= pair_links(hs, k));
    }
}

/// A graph whose links are exactly the adjacent pairs of a linkable chain
/// of handles is well formed and satisfies the linear-path invariant.
#[verifier::rlimit(100)]
proof fn lemma_pair_linked_graph(g: GraphModel, hs: Seq<StageHandle>, gf: GraphModel)
    requires
        linkable_chain(g, hs),
        gf.stages == g.stages,
        gf.kinds == g.kinds,
        gf.links == pair_links(hs, chain_pairs(hs)),
    ensures
        graph_wf(gf),
        is_complete_chain(gf),
{
    let pairs = chain_pairs(hs);
    let order = Seq::new(hs.len(), |i: int| hs[i].id as int);
    assert forall|i: int, j: int| 0 <= i < order.len() - 1 && j == i + 1 implies linked(
        gf,
        #[trigger] order[i],
        #[trigger] order[j],
    ) by {
        assert(gf.links[i] == pair_links(hs, pairs)[i]);
        assert(gf.links[i].upstream == order[i] && gf.links[i].downstream == order[j]);
    }
    assert forall|k: int| 0 <= k < gf.links.len() implies #[trigger] link_is_pair(
        gf,
        order,
        k,
    ) by {
        assert(gf.links[k] == pair_links(hs, pairs)[k]);
        assert(0 <= k < order.len() - 1 && gf.links[k].upstream == order[k]
            && gf.links[k].downstream == order[k + 1]);
        assert(link_is_pair(gf, order, k));
    }
    assert(order.len() == gf.stages.len());
    assert forall|i: int| 0 <= i < order.len() implies 0 <= #[trigger] order[i]
        < gf.stages.len() by {
        assert(order[i] == hs[i].id);
    }
    assert forall|i: int, j: int| 0 <= i < j < order.len() implies order[i] != order[j] by {
        assert(order[i] == hs[i].id);
        assert(order[j] == hs[j].id);
    }
    assert(gf.links.len() == order.len() - 1);
    assert(is_chain_order(gf, order));
    assert forall|k: int, l: int| 0 <= k < l < gf.links.len() implies gf.links[k].upstream
        != gf.links[l].upstream && gf.links[k].downstream != gf.links[l].downstream by {
        assert(gf.links[k] == pair_links(hs, pairs)[k]);
        assert(gf.links[l] == pair_links(hs, pairs)[l]);
    }
    assert forall|k: int| 0 <= k < gf.links.len() implies gf.links[k].upstream < gf.stages.len()
        && gf.links[k].downstream < gf.stages.len() && gf.stages[gf.links[
        k
    ].upstream as int].has_output && gf.stages[gf.links[k].downstream as int].has_input by {
        assert(gf.links[k] == pair_links(hs, pairs)[k]);
    }
    assert(graph_wf(gf));
}

/// Linking a chain of distinct, port-complete, format-compatible handles
/// that covers a link-free graph succeeds, and the resulting graph satisfies
/// the linear-path invariant.  Exactly one source and one sink then follow
/// by `lemma_complete_chain_endpoints`.
pub proof fn lemma_link_chain_completes(g: GraphModel, hs: Seq<StageHandle>)
    requires
        linkable_chain(g, hs),
    ensures
        chain_outcome(g, hs, chain_pairs(hs)).failure is None,
        graph_wf(chain_outcome(g, hs, chain_pairs(hs)).model),
        is_complete_chain(chain_outcome(g, hs, chain_pairs(hs)).model),
{
    lemma_chain_prefix_ok(g, hs, chain_pairs(hs));
    lemma_pair_linked_graph(g, hs, chain_outcome(g, hs, chain_pairs(hs)).model);
}

} // verus!
