//! The state graph that a tactic decision journal describes: its nodes in
//! identity order, its edges in decision order, and whether every node is
//! still connected to the journal's root.

use crate::digest::{bytes_precede, bytes_precede_from, Digest};
use crate::error::{route_message, NativeTacticRouteRunError};
use crate::schedule::{lemma_bytes_precede_from_total, lemma_bytes_precede_from_transitive};
use crate::decisions::lemma_take_step;
use crate::text::text_eq;
use vstd::prelude::*;

verus! {

pub const TACTIC_CAMPAIGN_GRAPH_PROJECTION_SCHEMA_V1: &'static str = "dusklight-tactic-campaign-graph-projection/v1";

/// A state-graph node identity: a route checkpoint and the state reached there.
#[derive(Clone, Copy, Debug)]
pub struct TacticGraphNodeKey {
    pub checkpoint_sha256: Digest,
    pub state_sha256: Digest,
}

pub open spec fn same_key(a: TacticGraphNodeKey, b: TacticGraphNodeKey) -> bool {
    a.checkpoint_sha256.0@ == b.checkpoint_sha256.0@ && a.state_sha256.0@ == b.state_sha256.0@
}

/// Identity order: by checkpoint bytes, then by state bytes.
pub open spec fn key_precedes(a: TacticGraphNodeKey, b: TacticGraphNodeKey) -> bool {
    bytes_precede(a.checkpoint_sha256.0@, b.checkpoint_sha256.0@) || (a.checkpoint_sha256.0@
        == b.checkpoint_sha256.0@ && bytes_precede(a.state_sha256.0@, b.state_sha256.0@))
}

impl TacticGraphNodeKey {
    /// Whether both identities name the same node.
    pub fn same_as(&self, other: &TacticGraphNodeKey) -> (r: bool)
        ensures
            r == same_key(*self, *other),
    {
        self.checkpoint_sha256.same_as(&other.checkpoint_sha256) && self.state_sha256.same_as(&other.state_sha256)
    }

    /// Whether `self` sorts strictly before `other`.
    pub fn precedes(&self, other: &TacticGraphNodeKey) -> (r: bool)
        ensures
            r == key_precedes(*self, *other),
    {
        if self.checkpoint_sha256.precedes(&other.checkpoint_sha256) {
            true
        } else if self.checkpoint_sha256.same_as(&other.checkpoint_sha256) {
            self.state_sha256.precedes(&other.state_sha256)
        } else {
            false
        }
    }
}

proof fn lemma_bytes_precede_from_asymmetric(a: Seq<u8>, b: Seq<u8>, i: int)
    requires
        bytes_precede_from(a, b, i),
    ensures
        !bytes_precede_from(b, a, i),
    decreases a.len() - i,
{
    if 0 <= i < a.len() && i < b.len() && a[i] == b[i] {
        lemma_bytes_precede_from_asymmetric(a, b, i + 1);
    }
}

/// Identity order is a strict total order on node identities.
pub proof fn lemma_key_order(a: TacticGraphNodeKey, b: TacticGraphNodeKey, c: TacticGraphNodeKey)
    ensures
        key_precedes(a, b) ==> !key_precedes(b, a) && !same_key(a, b),
        key_precedes(a, b) && key_precedes(b, c) ==> key_precedes(a, c),
        same_key(a, b) || key_precedes(a, b) || key_precedes(b, a),
{
    let (ac, bc, cc) = (a.checkpoint_sha256.0@, b.checkpoint_sha256.0@, c.checkpoint_sha256.0@);
    let (ast, bst, cst) = (a.state_sha256.0@, b.state_sha256.0@, c.state_sha256.0@);
    if bytes_precede(ac, bc) {
        lemma_bytes_precede_from_asymmetric(ac, bc, 0);
    }
    if bytes_precede(bc, ac) {
        lemma_bytes_precede_from_asymmetric(bc, ac, 0);
    }
    if bytes_precede(ast, bst) {
        lemma_bytes_precede_from_asymmetric(ast, bst, 0);
    }
    if bytes_precede(ac, bc) && bytes_precede(bc, cc) {
        lemma_bytes_precede_from_transitive(ac, bc, cc, 0);
    }
    if bytes_precede(ast, bst) && bytes_precede(bst, cst) {
        lemma_bytes_precede_from_transitive(ast, bst, cst, 0);
    }
    if !bytes_precede(ac, bc) && !bytes_precede(bc, ac) {
        lemma_bytes_precede_from_total(ac, bc, 0);
        assert(ac =~= ac.subrange(0, 32));
        assert(bc =~= bc.subrange(0, 32));
    }
    if !bytes_precede(ast, bst) && !bytes_precede(bst, ast) {
        lemma_bytes_precede_from_total(ast, bst, 0);
        assert(ast =~= ast.subrange(0, 32));
        assert(bst =~= bst.subrange(0, 32));
    }
}


/// One endpoint of a journaled transition, as the graph shows it. A player
/// position is held as the bit patterns of its three single-precision
/// coordinates.
#[derive(Clone, Debug)]
pub struct TacticGraphEndpoint {
    pub key: TacticGraphNodeKey,
    pub stage: String,
    pub room: u32,
    pub player_position_bits: Option<[u32; 3]>,
    pub terminal: bool,
}

/// Whether the single-precision value with bits `x` is a NaN.
pub open spec fn float_bits_nan(x: u32) -> bool {
    (x & 0x7f80_0000u32) == 0x7f80_0000u32 && (x & 0x007f_ffffu32) != 0u32
}

/// Equality of two single-precision values given by their bits: a NaN
/// equals nothing, and the two zeros are equal.
pub open spec fn float_bits_equal(a: u32, b: u32) -> bool {
    !float_bits_nan(a) && !float_bits_nan(b) && (a == b || ((a & 0x7fff_ffffu32) == 0u32 && (b & 0x7fff_ffffu32)
        == 0u32))
}

pub open spec fn positions_equal(a: Option<[u32; 3]>, b: Option<[u32; 3]>) -> bool {
    match a {
        None => b is None,
        Some(p) => match b {
            None => false,
            Some(q) => float_bits_equal(p@[0], q@[0]) && float_bits_equal(p@[1], q@[1]) && float_bits_equal(
                p@[2],
                q@[2],
            ),
        },
    }
}

/// Two endpoints agree on everything the graph shows of a node.
pub open spec fn same_view(a: TacticGraphEndpoint, b: TacticGraphEndpoint) -> bool {
    &&& a.stage@ == b.stage@
    &&& a.room == b.room
    &&& positions_equal(a.player_position_bits, b.player_position_bits)
    &&& a.terminal == b.terminal
}

proof fn lemma_same_view_transitive(a: TacticGraphEndpoint, b: TacticGraphEndpoint, c: TacticGraphEndpoint)
    requires
        same_view(a, b),
        same_view(b, c),
    ensures
        same_view(a, c),
{
}

fn float_bits_equal_exec(a: u32, b: u32) -> (r: bool)
    ensures
        r == float_bits_equal(a, b),
{
    let a_nan = (a & 0x7f80_0000u32) == 0x7f80_0000u32 && (a & 0x007f_ffffu32) != 0u32;
    let b_nan = (b & 0x7f80_0000u32) == 0x7f80_0000u32 && (b & 0x007f_ffffu32) != 0u32;
    !a_nan && !b_nan && (a == b || ((a & 0x7fff_ffffu32) == 0u32 && (b & 0x7fff_ffffu32) == 0u32))
}

fn positions_equal_exec(a: &Option<[u32; 3]>, b: &Option<[u32; 3]>) -> (r: bool)
    ensures
        r == positions_equal(*a, *b),
{
    match a {
        None => b.is_none(),
        Some(p) => match b {
            None => false,
            Some(q) => float_bits_equal_exec(p[0], q[0]) && float_bits_equal_exec(p[1], q[1])
                && float_bits_equal_exec(p[2], q[2]),
        },
    }
}

/// A node of the projected graph.
#[derive(Clone, Debug)]
pub struct TacticCampaignGraphProjectionNode {
    pub checkpoint_sha256: Digest,
    pub state_sha256: Digest,
    pub stage: String,
    pub room: u32,
    pub player_position_bits: Option<[u32; 3]>,
    pub terminal: bool,
    pub retained_frontier: bool,
    pub current: bool,
}

pub open spec fn node_key(n: TacticCampaignGraphProjectionNode) -> TacticGraphNodeKey {
    TacticGraphNodeKey { checkpoint_sha256: n.checkpoint_sha256, state_sha256: n.state_sha256 }
}

/// Whether some digest of `listed` has the bytes of `d`.
pub open spec fn digest_listed(listed: Seq<Digest>, d: Digest) -> bool {
    exists|i: int| 0 <= i < listed.len() && (#[trigger] listed[i]).0@ == d.0@
}

/// `n` is the node that endpoint `e` shows, given the retained frontier
/// checkpoints and the current node.
pub open spec fn node_shows(
    n: TacticCampaignGraphProjectionNode,
    e: TacticGraphEndpoint,
    retained: Seq<Digest>,
    current: TacticGraphNodeKey,
) -> bool {
    &&& same_key(node_key(n), e.key)
    &&& n.stage@ == e.stage@
    &&& n.room == e.room
    &&& n.player_position_bits == e.player_position_bits
    &&& n.terminal == e.terminal
    &&& n.retained_frontier == digest_listed(retained, n.checkpoint_sha256)
    &&& n.current == same_key(node_key(n), current)
}

/// The node agrees with what endpoint `e` shows.
pub open spec fn node_agrees(n: TacticCampaignGraphProjectionNode, e: TacticGraphEndpoint) -> bool {
    &&& n.stage@ == e.stage@
    &&& n.room == e.room
    &&& positions_equal(n.player_position_bits, e.player_position_bits)
    &&& n.terminal == e.terminal
}

pub open spec fn nodes_sorted(s: Seq<TacticCampaignGraphProjectionNode>) -> bool {
    forall|i: int, j: int| 0 <= i < j < s.len() ==> key_precedes(node_key(#[trigger] s[i]), node_key(#[trigger] s[j]))
}

fn digest_listed_exec(listed: &Vec<Digest>, d: &Digest) -> (r: bool)
    ensures
        r == digest_listed(listed@, *d),
{
    let mut i: usize = 0;
    while i < listed.len()
        invariant
            i <= listed.len(),
            forall|j: int| 0 <= j < i ==> (#[trigger] listed@[j]).0@ != d.0@,
        decreases listed.len() - i,
    {
        if listed[i].same_as(d) {
            return true;
        }
        i = i + 1;
    }
    false
}

fn node_for(
    e: &TacticGraphEndpoint,
    retained: &Vec<Digest>,
    current: &TacticGraphNodeKey,
) -> (n: TacticCampaignGraphProjectionNode)
    ensures
        node_shows(n, *e, retained@, *current),
        n.checkpoint_sha256 == e.key.checkpoint_sha256,
        n.state_sha256 == e.key.state_sha256,
{
    let retained_frontier = digest_listed_exec(retained, &e.key.checkpoint_sha256);
    let is_current = e.key.same_as(current);
    TacticCampaignGraphProjectionNode {
        checkpoint_sha256: e.key.checkpoint_sha256,
        state_sha256: e.key.state_sha256,
        stage: e.stage.clone(),
        room: e.room,
        player_position_bits: e.player_position_bits,
        terminal: e.terminal,
        retained_frontier,
        current: is_current,
    }
}

/// The first position of `nodes` whose identity does not sort before `key`.
fn find_slot(nodes: &Vec<TacticCampaignGraphProjectionNode>, key: &TacticGraphNodeKey) -> (p: usize)
    ensures
        p <= nodes.len(),
        forall|j: int| 0 <= j < p ==> key_precedes(node_key(#[trigger] nodes@[j]), *key),
        p < nodes.len() ==> !key_precedes(node_key(nodes@[p as int]), *key),
{
    let mut p: usize = 0;
    while p < nodes.len()
        invariant
            p <= nodes.len(),
            forall|j: int| 0 <= j < p ==> key_precedes(node_key(#[trigger] nodes@[j]), *key),
        decreases nodes.len() - p,
    {
        let k = TacticGraphNodeKey { checkpoint_sha256: nodes[p].checkpoint_sha256, state_sha256: nodes[p].state_sha256 };
        if !k.precedes(key) {
            return p;
        }
        p = p + 1;
    }
    p
}

/// What admitting one endpoint did: the position it landed at, whether it
/// replaced a node of the same identity, and whether it agreed with it.
struct Admission {
    index: usize,
    replaced: bool,
    consistent: bool,
}

/// Adds the node that `e` shows to the identity-sorted `nodes`, or, where a
/// node of that identity is present, checks that `e` agrees with it and
/// replaces it.
fn admit_endpoint(
    nodes: &mut Vec<TacticCampaignGraphProjectionNode>,
    e: &TacticGraphEndpoint,
    retained: &Vec<Digest>,
    current: &TacticGraphNodeKey,
) -> (r: Admission)
    requires
        nodes_sorted(old(nodes)@),
    ensures
        nodes_sorted(final(nodes)@),
        r.index <= old(nodes)@.len(),
        r.replaced ==> {
            &&& r.index < old(nodes)@.len()
            &&& same_key(node_key(old(nodes)@[r.index as int]), e.key)
            &&& r.consistent == node_agrees(old(nodes)@[r.index as int], *e)
        },
        !r.replaced ==> r.consistent && forall|j: int|
            0 <= j < old(nodes)@.len() ==> !same_key(node_key(#[trigger] old(nodes)@[j]), e.key),
        !r.consistent ==> final(nodes)@ == old(nodes)@,
        r.consistent && r.replaced ==> final(nodes)@ == old(nodes)@.update(
            r.index as int,
            final(nodes)@[r.index as int],
        ),
        r.consistent && !r.replaced ==> final(nodes)@ == old(nodes)@.insert(
            r.index as int,
            final(nodes)@[r.index as int],
        ),
        r.consistent ==> node_shows(final(nodes)@[r.index as int], *e, retained@, *current),
{
    let p = find_slot(nodes, &e.key);
    let ghost before = nodes@;
    if p < nodes.len() {
        let k = TacticGraphNodeKey { checkpoint_sha256: nodes[p].checkpoint_sha256, state_sha256: nodes[p].state_sha256 };
        if k.same_as(&e.key) {
            let agrees = text_eq(nodes[p].stage.as_str(), e.stage.as_str()) && nodes[p].room == e.room
                && positions_equal_exec(&nodes[p].player_position_bits, &e.player_position_bits)
                && nodes[p].terminal == e.terminal;
            if !agrees {
                return Admission { index: p, replaced: true, consistent: false };
            }
            let n = node_for(e, retained, current);
            nodes.set(p, n);
            proof {
                assert forall|i: int, j: int| 0 <= i < j < nodes@.len() implies key_precedes(
                    node_key(#[trigger] nodes@[i]),
                    node_key(#[trigger] nodes@[j]),
                ) by {
                    assert(key_precedes(node_key(before[i]), node_key(before[j])));
                }
            }
            return Admission { index: p, replaced: true, consistent: true };
        }
    }
    proof {
        assert forall|j: int| p <= j < before.len() implies key_precedes(e.key, node_key(#[trigger] before[j])) by {
            lemma_key_order(node_key(before[p as int]), e.key, e.key);
            lemma_key_order(e.key, node_key(before[p as int]), node_key(before[j]));
            if j > p {
                assert(key_precedes(node_key(before[p as int]), node_key(before[j])));
            }
        }
        assert forall|j: int| 0 <= j < before.len() implies !same_key(node_key(#[trigger] before[j]), e.key) by {
            if j < p {
                lemma_key_order(node_key(before[j]), e.key, e.key);
            } else {
                lemma_key_order(e.key, node_key(before[j]), e.key);
            }
        }
    }
    let n = node_for(e, retained, current);
    nodes.insert(p, n);
    proof {
        assert forall|i: int, j: int| 0 <= i < j < nodes@.len() implies key_precedes(
            node_key(#[trigger] nodes@[i]),
            node_key(#[trigger] nodes@[j]),
        ) by {
            if j < p {
                assert(key_precedes(node_key(before[i]), node_key(before[j])));
            } else if j == p {
            } else if i < p {
                assert(key_precedes(node_key(before[i]), e.key));
                assert(key_precedes(e.key, node_key(before[j - 1])));
                lemma_key_order(node_key(before[i]), e.key, node_key(before[j - 1]));
            } else if i == p {
            } else {
                assert(key_precedes(node_key(before[i - 1]), node_key(before[j - 1])));
            }
        }
    }
    Admission { index: p, replaced: false, consistent: true }
}


/// One journaled transition, with the edge fields the graph reports. The
/// reward is held as the bit pattern of its double-precision value.
#[derive(Clone, Debug)]
pub struct TacticGraphTransition {
    pub decision_index: u64,
    pub episode_group: u64,
    pub before: TacticGraphEndpoint,
    pub after: TacticGraphEndpoint,
    pub option_id: String,
    pub reward_bits: u64,
    pub duration_ticks: u64,
    pub start_frame: u64,
    pub end_frame_exclusive: u64,
}

/// The `k`-th endpoint in journal order: each transition's source, then
/// its destination.
#[verifier::opaque]
pub open spec fn endpoint_at(ts: Seq<TacticGraphTransition>, k: int) -> TacticGraphEndpoint {
    if k % 2 == 0 {
        ts[k / 2].before
    } else {
        ts[k / 2].after
    }
}

/// Among the first `m` endpoints, any two of one identity agree.
pub open spec fn endpoints_consistent_upto(ts: Seq<TacticGraphTransition>, m: int) -> bool {
    forall|j: int, k: int|
        0 <= j < k < m && same_key(endpoint_at(ts, j).key, endpoint_at(ts, k).key) ==> same_view(
            #[trigger] endpoint_at(ts, j),
            #[trigger] endpoint_at(ts, k),
        )
}

/// Endpoint `k` is the last of its identity among the first `m`.
pub open spec fn last_upto(ts: Seq<TacticGraphTransition>, k: int, m: int) -> bool {
    &&& 0 <= k < m
    &&& forall|q: int| k < q < m ==> !same_key((#[trigger] endpoint_at(ts, q)).key, endpoint_at(ts, k).key)
}

/// `nodes` is the identity-sorted set of the first `m` endpoints, each
/// node as the last endpoint of its identity shows it.
pub open spec fn nodes_cover(
    ts: Seq<TacticGraphTransition>,
    retained: Seq<Digest>,
    current: TacticGraphNodeKey,
    nodes: Seq<TacticCampaignGraphProjectionNode>,
    m: int,
) -> bool {
    &&& nodes_sorted(nodes)
    &&& forall|i: int|
        0 <= i < nodes.len() ==> exists|k: int|
            last_upto(ts, k, m) && node_shows(#[trigger] nodes[i], #[trigger] endpoint_at(ts, k), retained, current)
    &&& forall|k: int|
        0 <= k < m ==> exists|i: int|
            0 <= i < nodes.len() && same_key(node_key(#[trigger] nodes[i]), (#[trigger] endpoint_at(ts, k)).key)
}

proof fn lemma_consistent_prefix(ts: Seq<TacticGraphTransition>, m1: int, m2: int)
    requires
        m1 <= m2,
        endpoints_consistent_upto(ts, m2),
    ensures
        endpoints_consistent_upto(ts, m1),
{
}

proof fn lemma_distinct_nodes(s: Seq<TacticCampaignGraphProjectionNode>, i: int, j: int)
    requires
        nodes_sorted(s),
        0 <= i < s.len(),
        0 <= j < s.len(),
        i != j,
    ensures
        !same_key(node_key(s[i]), node_key(s[j])),
{
    if i < j {
        lemma_key_order(node_key(s[i]), node_key(s[j]), node_key(s[j]));
    } else {
        lemma_key_order(node_key(s[j]), node_key(s[i]), node_key(s[i]));
    }
}

proof fn lemma_replace_consistent(ts: Seq<TacticGraphTransition>, m: int, k0: int)
    requires
        last_upto(ts, k0, m),
        endpoints_consistent_upto(ts, m),
        same_key(endpoint_at(ts, k0).key, endpoint_at(ts, m).key),
        same_view(endpoint_at(ts, k0), endpoint_at(ts, m)),
    ensures
        endpoints_consistent_upto(ts, m + 1),
{
    let e = endpoint_at(ts, m);
    assert forall|j: int, k: int|
        0 <= j < k < m + 1 && same_key(endpoint_at(ts, j).key, endpoint_at(ts, k).key) implies same_view(
        #[trigger] endpoint_at(ts, j),
        #[trigger] endpoint_at(ts, k),
    ) by {
        if k == m && j != k0 {
            if j > k0 {
                assert(!same_key(endpoint_at(ts, j).key, endpoint_at(ts, k0).key));
            } else {
                assert(same_view(endpoint_at(ts, j), endpoint_at(ts, k0)));
                lemma_same_view_transitive(endpoint_at(ts, j), endpoint_at(ts, k0), e);
            }
        }
    }
}

proof fn lemma_replace_cover(
    ts: Seq<TacticGraphTransition>,
    retained: Seq<Digest>,
    current: TacticGraphNodeKey,
    old_nodes: Seq<TacticCampaignGraphProjectionNode>,
    new_nodes: Seq<TacticCampaignGraphProjectionNode>,
    m: int,
    index: int,
)
    requires
        0 <= m,
        nodes_cover(ts, retained, current, old_nodes, m),
        nodes_sorted(new_nodes),
        0 <= index < old_nodes.len(),
        same_key(node_key(old_nodes[index]), endpoint_at(ts, m).key),
        new_nodes == old_nodes.update(index, new_nodes[index]),
        node_shows(new_nodes[index], endpoint_at(ts, m), retained, current),
    ensures
        nodes_cover(ts, retained, current, new_nodes, m + 1),
{
    assert forall|i: int| 0 <= i < new_nodes.len() implies exists|k: int|
        last_upto(ts, k, m + 1) && node_shows(#[trigger] new_nodes[i], #[trigger] endpoint_at(ts, k), retained, current) by {
        if i == index {
            assert(last_upto(ts, m, m + 1));
            assert(node_shows(new_nodes[i], endpoint_at(ts, m), retained, current));
        } else {
            let ki = choose|k: int|
                last_upto(ts, k, m) && node_shows(#[trigger] old_nodes[i], #[trigger] endpoint_at(ts, k), retained, current);
            lemma_distinct_nodes(old_nodes, i, index);
            assert(last_upto(ts, ki, m + 1));
            assert(node_shows(new_nodes[i], endpoint_at(ts, ki), retained, current));
        }
    }
    assert forall|k: int| 0 <= k < m + 1 implies exists|i: int|
        0 <= i < new_nodes.len() && same_key(node_key(#[trigger] new_nodes[i]), (#[trigger] endpoint_at(ts, k)).key) by {
        if k == m {
            assert(same_key(node_key(new_nodes[index]), endpoint_at(ts, k).key));
        } else {
            let i = choose|i: int|
                0 <= i < old_nodes.len() && same_key(node_key(#[trigger] old_nodes[i]), (#[trigger] endpoint_at(ts, k)).key);
            assert(same_key(node_key(new_nodes[i]), endpoint_at(ts, k).key));
        }
    }
}

proof fn lemma_insert_consistent(
    ts: Seq<TacticGraphTransition>,
    retained: Seq<Digest>,
    current: TacticGraphNodeKey,
    old_nodes: Seq<TacticCampaignGraphProjectionNode>,
    m: int,
)
    requires
        0 <= m,
        nodes_cover(ts, retained, current, old_nodes, m),
        endpoints_consistent_upto(ts, m),
        forall|j: int| 0 <= j < old_nodes.len() ==> !same_key(node_key(#[trigger] old_nodes[j]), endpoint_at(ts, m).key),
    ensures
        endpoints_consistent_upto(ts, m + 1),
{
    let e = endpoint_at(ts, m);
    assert forall|j: int, k: int|
        0 <= j < k < m + 1 && same_key(endpoint_at(ts, j).key, endpoint_at(ts, k).key) implies same_view(
        #[trigger] endpoint_at(ts, j),
        #[trigger] endpoint_at(ts, k),
    ) by {
        if k == m {
            let i = choose|i: int|
                0 <= i < old_nodes.len() && same_key(node_key(#[trigger] old_nodes[i]), (#[trigger] endpoint_at(ts, j)).key);
            assert(!same_key(node_key(old_nodes[i]), e.key));
        }
    }
}

proof fn lemma_insert_shows(
    ts: Seq<TacticGraphTransition>,
    retained: Seq<Digest>,
    current: TacticGraphNodeKey,
    old_nodes: Seq<TacticCampaignGraphProjectionNode>,
    new_nodes: Seq<TacticCampaignGraphProjectionNode>,
    m: int,
    index: int,
)
    requires
        0 <= m,
        nodes_cover(ts, retained, current, old_nodes, m),
        0 <= index <= old_nodes.len(),
        forall|j: int| 0 <= j < old_nodes.len() ==> !same_key(node_key(#[trigger] old_nodes[j]), endpoint_at(ts, m).key),
        new_nodes.len() == old_nodes.len() + 1,
        forall|i: int| 0 <= i < index ==> new_nodes[i] == old_nodes[i],
        forall|i: int| index < i < new_nodes.len() ==> new_nodes[i] == old_nodes[i - 1],
        node_shows(new_nodes[index], endpoint_at(ts, m), retained, current),
    ensures
        forall|i: int|
            0 <= i < new_nodes.len() ==> exists|k: int|
                last_upto(ts, k, m + 1) && node_shows(#[trigger] new_nodes[i], #[trigger] endpoint_at(ts, k), retained, current),
{
    let e = endpoint_at(ts, m);
    assert forall|i: int| 0 <= i < new_nodes.len() implies exists|k: int|
        last_upto(ts, k, m + 1) && node_shows(#[trigger] new_nodes[i], #[trigger] endpoint_at(ts, k), retained, current) by {
        if i == index {
            assert(last_upto(ts, m, m + 1));
            assert(node_shows(new_nodes[i], endpoint_at(ts, m), retained, current));
        } else {
            let oi = if i < index { i } else { i - 1 };
            assert(new_nodes[i] == old_nodes[oi]);
            let ki = choose|k: int|
                last_upto(ts, k, m) && node_shows(#[trigger] old_nodes[oi], #[trigger] endpoint_at(ts, k), retained, current);
            assert(!same_key(node_key(old_nodes[oi]), e.key));
            assert(last_upto(ts, ki, m + 1));
            assert(node_shows(new_nodes[i], endpoint_at(ts, ki), retained, current));
        }
    }
}

proof fn lemma_insert_covers(
    ts: Seq<TacticGraphTransition>,
    retained: Seq<Digest>,
    current: TacticGraphNodeKey,
    old_nodes: Seq<TacticCampaignGraphProjectionNode>,
    new_nodes: Seq<TacticCampaignGraphProjectionNode>,
    m: int,
    index: int,
)
    requires
        0 <= m,
        nodes_cover(ts, retained, current, old_nodes, m),
        0 <= index <= old_nodes.len(),
        new_nodes.len() == old_nodes.len() + 1,
        forall|i: int| 0 <= i < index ==> new_nodes[i] == old_nodes[i],
        forall|i: int| index < i < new_nodes.len() ==> new_nodes[i] == old_nodes[i - 1],
        same_key(node_key(new_nodes[index]), endpoint_at(ts, m).key),
    ensures
        forall|k: int|
            0 <= k < m + 1 ==> exists|i: int|
                0 <= i < new_nodes.len() && same_key(node_key(#[trigger] new_nodes[i]), (#[trigger] endpoint_at(ts, k)).key),
{
    assert forall|k: int| 0 <= k < m + 1 implies exists|i: int|
        0 <= i < new_nodes.len() && same_key(node_key(#[trigger] new_nodes[i]), (#[trigger] endpoint_at(ts, k)).key) by {
        if k == m {
            assert(same_key(node_key(new_nodes[index]), endpoint_at(ts, k).key));
        } else {
            let oi = choose|i: int|
                0 <= i < old_nodes.len() && same_key(node_key(#[trigger] old_nodes[i]), (#[trigger] endpoint_at(ts, k)).key);
            let ni = if oi < index { oi } else { oi + 1 };
            assert(new_nodes[ni] == old_nodes[oi]);
            assert(same_key(node_key(new_nodes[ni]), endpoint_at(ts, k).key));
        }
    }
}

proof fn lemma_insert_cover(
    ts: Seq<TacticGraphTransition>,
    retained: Seq<Digest>,
    current: TacticGraphNodeKey,
    old_nodes: Seq<TacticCampaignGraphProjectionNode>,
    new_nodes: Seq<TacticCampaignGraphProjectionNode>,
    m: int,
    index: int,
)
    requires
        0 <= m,
        nodes_cover(ts, retained, current, old_nodes, m),
        nodes_sorted(new_nodes),
        0 <= index <= old_nodes.len(),
        forall|j: int| 0 <= j < old_nodes.len() ==> !same_key(node_key(#[trigger] old_nodes[j]), endpoint_at(ts, m).key),
        new_nodes == old_nodes.insert(index, new_nodes[index]),
        node_shows(new_nodes[index], endpoint_at(ts, m), retained, current),
    ensures
        nodes_cover(ts, retained, current, new_nodes, m + 1),
{
    assert(new_nodes.len() == old_nodes.len() + 1);
    assert(forall|i: int| 0 <= i < index ==> new_nodes[i] == old_nodes[i]);
    assert(forall|i: int| index < i < new_nodes.len() ==> new_nodes[i] == old_nodes[i - 1]);
    lemma_insert_shows(ts, retained, current, old_nodes, new_nodes, m, index);
    lemma_insert_covers(ts, retained, current, old_nodes, new_nodes, m, index);
}

#[verifier::rlimit(20)]
proof fn lemma_admit_step(
    ts: Seq<TacticGraphTransition>,
    retained: Seq<Digest>,
    current: TacticGraphNodeKey,
    old_nodes: Seq<TacticCampaignGraphProjectionNode>,
    new_nodes: Seq<TacticCampaignGraphProjectionNode>,
    m: int,
    index: int,
    replaced: bool,
    consistent: bool,
)
    requires
        0 <= m,
        nodes_cover(ts, retained, current, old_nodes, m),
        endpoints_consistent_upto(ts, m),
        nodes_sorted(new_nodes),
        0 <= index <= old_nodes.len(),
        replaced ==> {
            &&& index < old_nodes.len()
            &&& same_key(node_key(old_nodes[index]), endpoint_at(ts, m).key)
            &&& consistent == node_agrees(old_nodes[index], endpoint_at(ts, m))
        },
        !replaced ==> consistent && forall|j: int|
            0 <= j < old_nodes.len() ==> !same_key(node_key(#[trigger] old_nodes[j]), endpoint_at(ts, m).key),
        consistent && replaced ==> new_nodes == old_nodes.update(index, new_nodes[index]),
        consistent && !replaced ==> new_nodes == old_nodes.insert(index, new_nodes[index]),
        consistent ==> node_shows(new_nodes[index], endpoint_at(ts, m), retained, current),
    ensures
        consistent ==> nodes_cover(ts, retained, current, new_nodes, m + 1) && endpoints_consistent_upto(ts, m + 1),
        !consistent ==> !endpoints_consistent_upto(ts, m + 1),
{
    if replaced {
        let k0 = choose|k: int|
            last_upto(ts, k, m) && node_shows(#[trigger] old_nodes[index], #[trigger] endpoint_at(ts, k), retained, current);
        assert(same_key(endpoint_at(ts, k0).key, endpoint_at(ts, m).key));
        assert(consistent == same_view(endpoint_at(ts, k0), endpoint_at(ts, m)));
        if consistent {
            lemma_replace_consistent(ts, m, k0);
            lemma_replace_cover(ts, retained, current, old_nodes, new_nodes, m, index);
        } else {
            if endpoints_consistent_upto(ts, m + 1) {
                assert(same_view(endpoint_at(ts, k0), endpoint_at(ts, m)));
            }
        }
    } else {
        lemma_insert_consistent(ts, retained, current, old_nodes, m);
        lemma_insert_cover(ts, retained, current, old_nodes, new_nodes, m, index);
    }
}

proof fn lemma_endpoint_positions(ts: Seq<TacticGraphTransition>, i: int)
    requires
        0 <= i < ts.len(),
    ensures
        endpoint_at(ts, 2 * i) == ts[i].before,
        endpoint_at(ts, 2 * i + 1) == ts[i].after,
{
    reveal(endpoint_at);
    assert((2 * i) % 2 == 0 && (2 * i) / 2 == i);
    assert((2 * i + 1) % 2 == 1 && (2 * i + 1) / 2 == i);
}

/// Admits both endpoints of transition `i`.
fn admit_transition(
    nodes: &mut Vec<TacticCampaignGraphProjectionNode>,
    ts: &Vec<TacticGraphTransition>,
    i: usize,
    retained: &Vec<Digest>,
    current: &TacticGraphNodeKey,
) -> (consistent: bool)
    requires
        i < ts.len(),
        nodes_cover(ts@, retained@, *current, old(nodes)@, 2 * i),
        endpoints_consistent_upto(ts@, 2 * i),
    ensures
        consistent ==> nodes_cover(ts@, retained@, *current, final(nodes)@, 2 * i + 2) && endpoints_consistent_upto(
            ts@,
            2 * i + 2,
        ),
        !consistent ==> !endpoints_consistent_upto(ts@, 2 * i + 2),
{
    proof {
        lemma_endpoint_positions(ts@, i as int);
    }
    let ghost first = nodes@;
    let a = admit_endpoint(nodes, &ts[i].before, retained, current);
    proof {
        lemma_admit_step(ts@, retained@, *current, first, nodes@, 2 * i, a.index as int, a.replaced, a.consistent);
    }
    if !a.consistent {
        proof {
            if endpoints_consistent_upto(ts@, 2 * i + 2) {
                lemma_consistent_prefix(ts@, 2 * i + 1, 2 * i + 2);
            }
        }
        return false;
    }
    let ghost second = nodes@;
    let b = admit_endpoint(nodes, &ts[i].after, retained, current);
    proof {
        lemma_admit_step(ts@, retained@, *current, second, nodes@, 2 * i + 1, b.index as int, b.replaced, b.consistent);
    }
    b.consistent
}

/// The identity-sorted nodes of the journal's endpoints, or `None` where
/// two endpoints of one identity disagree.
fn project_nodes(
    ts: &Vec<TacticGraphTransition>,
    retained: &Vec<Digest>,
    current: &TacticGraphNodeKey,
) -> (r: Option<Vec<TacticCampaignGraphProjectionNode>>)
    ensures
        r is Some <==> endpoints_consistent_upto(ts@, 2 * ts.len()),
        r matches Some(nodes) ==> nodes_cover(ts@, retained@, *current, nodes@, 2 * ts.len()),
{
    let mut nodes: Vec<TacticCampaignGraphProjectionNode> = Vec::new();
    let mut i: usize = 0;
    while i < ts.len()
        invariant
            i <= ts.len(),
            nodes_cover(ts@, retained@, *current, nodes@, 2 * i),
            endpoints_consistent_upto(ts@, 2 * i),
        decreases ts.len() - i,
    {
        if !admit_transition(&mut nodes, ts, i, retained, current) {
            proof {
                if endpoints_consistent_upto(ts@, 2 * ts.len()) {
                    lemma_consistent_prefix(ts@, 2 * i + 2, 2 * ts.len());
                }
            }
            return None;
        }
        i = i + 1;
    }
    Some(nodes)
}

/// `x` is reached from `root` through at most `n` transitions of `ts`,
/// each leading from its source identity to its destination identity.
pub open spec fn reaches_within(
    ts: Seq<TacticGraphTransition>,
    root: TacticGraphNodeKey,
    x: TacticGraphNodeKey,
    n: nat,
) -> bool
    decreases n,
{
    if n == 0 {
        same_key(x, root)
    } else {
        reaches_within(ts, root, x, (n - 1) as nat) || exists|i: int|
            0 <= i < ts.len() && same_key((#[trigger] ts[i]).after.key, x) && reaches_within(
                ts,
                root,
                ts[i].before.key,
                (n - 1) as nat,
            )
    }
}

/// `x` is reached from `root` through transitions of `ts`.
pub open spec fn reachable_from(ts: Seq<TacticGraphTransition>, root: TacticGraphNodeKey, x: TacticGraphNodeKey) -> bool {
    exists|n: nat| #[trigger] reaches_within(ts, root, x, n)
}

pub open spec fn key_listed(s: Seq<TacticGraphNodeKey>, x: TacticGraphNodeKey) -> bool {
    exists|j: int| 0 <= j < s.len() && same_key(#[trigger] s[j], x)
}

/// Every transition whose source is listed has its destination listed.
pub open spec fn closed_under(ts: Seq<TacticGraphTransition>, s: Seq<TacticGraphNodeKey>) -> bool {
    forall|i: int| 0 <= i < ts.len() && key_listed(s, (#[trigger] ts[i]).before.key) ==> key_listed(s, ts[i].after.key)
}

pub open spec fn keys_distinct(s: Seq<TacticGraphNodeKey>) -> bool {
    forall|a: int, b: int| 0 <= a < b < s.len() ==> !same_key(#[trigger] s[a], #[trigger] s[b])
}

/// `x` is the root or the destination of some transition.
pub open spec fn key_candidate(ts: Seq<TacticGraphTransition>, root: TacticGraphNodeKey, x: TacticGraphNodeKey) -> bool {
    same_key(x, root) || exists|i: int| 0 <= i < ts.len() && same_key((#[trigger] ts[i]).after.key, x)
}

proof fn lemma_reaches_same_key(
    ts: Seq<TacticGraphTransition>,
    root: TacticGraphNodeKey,
    x: TacticGraphNodeKey,
    y: TacticGraphNodeKey,
    n: nat,
)
    requires
        reaches_within(ts, root, x, n),
        same_key(x, y),
    ensures
        reaches_within(ts, root, y, n),
    decreases n,
{
    if n > 0 {
        if reaches_within(ts, root, x, (n - 1) as nat) {
            lemma_reaches_same_key(ts, root, x, y, (n - 1) as nat);
        } else {
            let i = choose|i: int|
                0 <= i < ts.len() && same_key((#[trigger] ts[i]).after.key, x) && reaches_within(
                    ts,
                    root,
                    ts[i].before.key,
                    (n - 1) as nat,
                );
            assert(same_key(ts[i].after.key, y));
        }
    }
}

/// A listed set that holds the root and is closed under the transitions
/// holds everything reachable.
proof fn lemma_closed_holds_reachable(
    ts: Seq<TacticGraphTransition>,
    root: TacticGraphNodeKey,
    s: Seq<TacticGraphNodeKey>,
    x: TacticGraphNodeKey,
    n: nat,
)
    requires
        key_listed(s, root),
        closed_under(ts, s),
        reaches_within(ts, root, x, n),
    ensures
        key_listed(s, x),
    decreases n,
{
    if n == 0 {
        let j = choose|j: int| 0 <= j < s.len() && same_key(#[trigger] s[j], root);
        assert(same_key(s[j], x));
    } else if reaches_within(ts, root, x, (n - 1) as nat) {
        lemma_closed_holds_reachable(ts, root, s, x, (n - 1) as nat);
    } else {
        let i = choose|i: int|
            0 <= i < ts.len() && same_key((#[trigger] ts[i]).after.key, x) && reaches_within(
                ts,
                root,
                ts[i].before.key,
                (n - 1) as nat,
            );
        lemma_closed_holds_reachable(ts, root, s, ts[i].before.key, (n - 1) as nat);
        assert(key_listed(s, ts[i].after.key));
        let j = choose|j: int| 0 <= j < s.len() && same_key(#[trigger] s[j], ts[i].after.key);
        assert(same_key(s[j], x));
    }
}

pub open spec fn key_bytes(k: TacticGraphNodeKey) -> (Seq<u8>, Seq<u8>) {
    (k.checkpoint_sha256.0@, k.state_sha256.0@)
}

/// Distinct candidate identities number at most one more than the
/// transitions.
proof fn lemma_distinct_candidates_bound(
    ts: Seq<TacticGraphTransition>,
    root: TacticGraphNodeKey,
    s: Seq<TacticGraphNodeKey>,
)
    requires
        keys_distinct(s),
        forall|j: int| 0 <= j < s.len() ==> key_candidate(ts, root, #[trigger] s[j]),
    ensures
        s.len() <= ts.len() + 1,
{
    let rs = s.map_values(|k: TacticGraphNodeKey| key_bytes(k));
    let cs = seq![key_bytes(root)] + ts.map_values(|t: TacticGraphTransition| key_bytes(t.after.key));
    assert forall|a: int, b: int| 0 <= a < rs.len() && 0 <= b < rs.len() && a != b implies rs[a] != rs[b] by {
        if a < b {
            assert(!same_key(s[a], s[b]));
        } else {
            assert(!same_key(s[b], s[a]));
        }
    }
    assert(rs.no_duplicates());
    rs.unique_seq_to_set();
    assert forall|v: (Seq<u8>, Seq<u8>)| rs.to_set().contains(v) implies cs.to_set().contains(v) by {
        let j = choose|j: int| 0 <= j < rs.len() && rs[j] == v;
        assert(key_candidate(ts, root, s[j]));
        if same_key(s[j], root) {
            assert(cs[0] == v);
        } else {
            let i = choose|i: int| 0 <= i < ts.len() && same_key((#[trigger] ts[i]).after.key, s[j]);
            assert(cs[i + 1] == v);
        }
    }
    vstd::set_lib::lemma_len_subset(rs.to_set(), cs.to_set());
    cs.lemma_cardinality_of_set();
}

fn key_listed_exec(s: &Vec<TacticGraphNodeKey>, x: &TacticGraphNodeKey) -> (r: bool)
    ensures
        r == key_listed(s@, *x),
{
    let mut j: usize = 0;
    while j < s.len()
        invariant
            j <= s.len(),
            forall|q: int| 0 <= q < j ==> !same_key(#[trigger] s@[q], *x),
        decreases s.len() - j,
    {
        if s[j].same_as(x) {
            return true;
        }
        j = j + 1;
    }
    false
}

/// The identities reachable from `root`, found by applying every
/// transition until a full pass adds nothing.
fn reachable_keys(ts: &Vec<TacticGraphTransition>, root: &TacticGraphNodeKey) -> (s: Vec<TacticGraphNodeKey>)
    ensures
        key_listed(s@, *root),
        closed_under(ts@, s@),
        forall|j: int| 0 <= j < s.len() ==> reachable_from(ts@, *root, #[trigger] s@[j]),
{
    let mut reach: Vec<TacticGraphNodeKey> = Vec::new();
    reach.push(*root);
    proof {
        assert(reaches_within(ts@, *root, reach@[0], 0));
        assert(same_key(reach@[0], *root));
    }
    let mut growing = true;
    while growing
        invariant
            reach.len() >= 1,
            same_key(reach@[0], *root),
            keys_distinct(reach@),
            forall|j: int| 0 <= j < reach.len() ==> key_candidate(ts@, *root, #[trigger] reach@[j]),
            forall|j: int| 0 <= j < reach.len() ==> reachable_from(ts@, *root, #[trigger] reach@[j]),
            reach.len() <= ts.len() + 1,
            !growing ==> closed_under(ts@, reach@),
        decreases ts.len() + 1 - reach.len() + if growing { 1int } else { 0int },
    {
        let before = reach.len();
        let mut i: usize = 0;
        while i < ts.len()
            invariant
                i <= ts.len(),
                reach.len() >= before,
                before >= 1,
                same_key(reach@[0], *root),
                keys_distinct(reach@),
                forall|j: int| 0 <= j < reach.len() ==> key_candidate(ts@, *root, #[trigger] reach@[j]),
                forall|j: int| 0 <= j < reach.len() ==> reachable_from(ts@, *root, #[trigger] reach@[j]),
                reach.len() <= ts.len() + 1,
                reach.len() == before ==> forall|q: int|
                    0 <= q < i && key_listed(reach@, (#[trigger] ts@[q]).before.key) ==> key_listed(
                        reach@,
                        ts@[q].after.key,
                    ),
            decreases ts.len() - i,
        {
            if key_listed_exec(&reach, &ts[i].before.key) && !key_listed_exec(&reach, &ts[i].after.key) {
                let ghost old_reach = reach@;
                let x = ts[i].after.key;
                proof {
                    let j = choose|j: int| 0 <= j < old_reach.len() && same_key(#[trigger] old_reach[j], ts@[i as int].before.key);
                    assert(reachable_from(ts@, *root, old_reach[j]));
                    let n = choose|n: nat| #[trigger] reaches_within(ts@, *root, old_reach[j], n);
                    lemma_reaches_same_key(ts@, *root, old_reach[j], ts@[i as int].before.key, n);
                    assert(same_key(ts@[i as int].after.key, x));
                    assert(reaches_within(ts@, *root, x, n + 1));
                }
                reach.push(x);
                proof {
                    assert(key_candidate(ts@, *root, x));
                    assert forall|a: int, b: int| 0 <= a < b < reach@.len() implies !same_key(
                        #[trigger] reach@[a],
                        #[trigger] reach@[b],
                    ) by {
                        if b == reach@.len() - 1 {
                            assert(!same_key(old_reach[a], x));
                        } else {
                            assert(!same_key(old_reach[a], old_reach[b]));
                        }
                    }
                    assert forall|j: int| 0 <= j < reach@.len() implies key_candidate(ts@, *root, #[trigger] reach@[j]) by {
                        if j < old_reach.len() {
                            assert(reach@[j] == old_reach[j]);
                        }
                    }
                    assert forall|j: int| 0 <= j < reach@.len() implies reachable_from(ts@, *root, #[trigger] reach@[j]) by {
                        if j < old_reach.len() {
                            assert(reach@[j] == old_reach[j]);
                        } else {
                            assert(reaches_within(ts@, *root, reach@[j], (choose|n: nat| #[trigger] reaches_within(ts@, *root, x, n))));
                        }
                    }
                    lemma_distinct_candidates_bound(ts@, *root, reach@);
                }
            }
            i = i + 1;
        }
        if reach.len() == before {
            growing = false;
        }
    }
    proof {
        assert(same_key(reach@[0], *root));
    }
    reach
}

/// An edge of the projected graph: one journaled transition.
#[derive(Clone, Debug)]
pub struct TacticCampaignGraphProjectionEdge {
    pub edge_index: u64,
    pub episode_group: u64,
    pub before_state_sha256: Digest,
    pub after_state_sha256: Digest,
    pub source_checkpoint_sha256: Digest,
    pub next_checkpoint_sha256: Digest,
    pub option_id: String,
    pub reward_bits: u64,
    pub duration_ticks: u64,
    pub terminal: bool,
    pub start_frame: u64,
    pub end_frame_exclusive: u64,
}

/// `e` is the edge that transition `t` contributes.
pub open spec fn edge_shows(e: TacticCampaignGraphProjectionEdge, t: TacticGraphTransition) -> bool {
    &&& e.edge_index == t.decision_index
    &&& e.episode_group == t.episode_group
    &&& e.before_state_sha256 == t.before.key.state_sha256
    &&& e.after_state_sha256 == t.after.key.state_sha256
    &&& e.source_checkpoint_sha256 == t.before.key.checkpoint_sha256
    &&& e.next_checkpoint_sha256 == t.after.key.checkpoint_sha256
    &&& e.option_id@ == t.option_id@
    &&& e.reward_bits == t.reward_bits
    &&& e.duration_ticks == t.duration_ticks
    &&& e.terminal == t.after.terminal
    &&& e.start_frame == t.start_frame
    &&& e.end_frame_exclusive == t.end_frame_exclusive
}

/// The state graph of a tactic decision journal.
#[derive(Clone, Debug)]
pub struct TacticCampaignGraphProjection {
    pub schema: String,
    pub root_checkpoint_sha256: Digest,
    pub root_state_sha256: Digest,
    pub root_connected: bool,
    pub frontier_cells: usize,
    pub nodes: Vec<TacticCampaignGraphProjectionNode>,
    pub edges: Vec<TacticCampaignGraphProjectionEdge>,
}

pub open spec fn digests_distinct(s: Seq<Digest>) -> bool {
    forall|a: int, b: int| 0 <= a < b < s.len() ==> (#[trigger] s[a]).0@ != (#[trigger] s[b]).0@
}

/// What the projection of a journal whose transitions are `ts` holds,
/// given the distinct checkpoints that the behaviour archive retains.
pub open spec fn projection_shows(
    p: TacticCampaignGraphProjection,
    ts: Seq<TacticGraphTransition>,
    retained: Seq<Digest>,
) -> bool {
    let root = ts[0].before.key;
    let current = ts.last().after.key;
    &&& p.schema@ == TACTIC_CAMPAIGN_GRAPH_PROJECTION_SCHEMA_V1@
    &&& p.root_checkpoint_sha256 == root.checkpoint_sha256
    &&& p.root_state_sha256 == root.state_sha256
    &&& p.frontier_cells == retained.len()
    &&& nodes_cover(ts, retained, current, p.nodes@, 2 * ts.len() as int)
    &&& p.edges@.len() == ts.len()
    &&& forall|i: int| 0 <= i < ts.len() ==> edge_shows(#[trigger] p.edges@[i], ts[i])
    &&& p.root_connected == forall|i: int|
        0 <= i < p.nodes@.len() ==> reachable_from(ts, root, node_key(#[trigger] p.nodes@[i]))
}

fn edge_for(t: &TacticGraphTransition) -> (e: TacticCampaignGraphProjectionEdge)
    ensures
        edge_shows(e, *t),
{
    TacticCampaignGraphProjectionEdge {
        edge_index: t.decision_index,
        episode_group: t.episode_group,
        before_state_sha256: t.before.key.state_sha256,
        after_state_sha256: t.after.key.state_sha256,
        source_checkpoint_sha256: t.before.key.checkpoint_sha256,
        next_checkpoint_sha256: t.after.key.checkpoint_sha256,
        option_id: t.option_id.clone(),
        reward_bits: t.reward_bits,
        duration_ticks: t.duration_ticks,
        terminal: t.after.terminal,
        start_frame: t.start_frame,
        end_frame_exclusive: t.end_frame_exclusive,
    }
}

/// Projects a tactic decision journal onto its state graph. The nodes are
/// the endpoints of its transitions, one per identity and in identity
/// order, each as the last endpoint of that identity shows it; they are
/// marked where the archive retains their checkpoint and where they are
/// the journal's current node. The edges are the transitions in journal
/// order. The graph is root-connected where every node is reachable from
/// the first transition's source. Fails on an empty journal, and where
/// two endpoints of one identity disagree on what they show.
pub fn project_tactic_decision_graph(
    transitions: &Vec<TacticGraphTransition>,
    retained_checkpoints: &Vec<Digest>,
) -> (r: Result<TacticCampaignGraphProjection, NativeTacticRouteRunError>)
    requires
        digests_distinct(retained_checkpoints@),
    ensures
        r is Err <==> transitions.len() == 0 || !endpoints_consistent_upto(transitions@, 2 * transitions.len()),
        transitions.len() == 0 ==> (r matches Err(e) && e.message@ == "tactic graph has no root transition"@),
        transitions.len() > 0 && !endpoints_consistent_upto(transitions@, 2 * transitions.len()) ==> (r matches Err(e)
            && e.message@ == "tactic decision journal has conflicting graph nodes"@),
        r matches Ok(p) ==> projection_shows(p, transitions@, retained_checkpoints@),
{
    if transitions.len() == 0 {
        return Err(route_message("tactic graph has no root transition"));
    }
    let root = transitions[0].before.key;
    let current = transitions[transitions.len() - 1].after.key;
    let nodes = match project_nodes(transitions, retained_checkpoints, &current) {
        Some(nodes) => nodes,
        None => {
            return Err(route_message("tactic decision journal has conflicting graph nodes"));
        },
    };
    let mut edges: Vec<TacticCampaignGraphProjectionEdge> = Vec::new();
    let mut i: usize = 0;
    while i < transitions.len()
        invariant
            i <= transitions.len(),
            edges@.len() == i,
            forall|j: int| 0 <= j < i ==> edge_shows(#[trigger] edges@[j], transitions@[j]),
        decreases transitions.len() - i,
    {
        edges.push(edge_for(&transitions[i]));
        i = i + 1;
    }
    let reach = reachable_keys(transitions, &root);
    let mut connected = true;
    let mut n: usize = 0;
    while n < nodes.len()
        invariant
            n <= nodes.len(),
            key_listed(reach@, root),
            closed_under(transitions@, reach@),
            forall|j: int| 0 <= j < reach@.len() ==> reachable_from(transitions@, root, #[trigger] reach@[j]),
            connected == forall|j: int| 0 <= j < n ==> reachable_from(transitions@, root, node_key(#[trigger] nodes@[j])),
        decreases nodes.len() - n,
    {
        let k = TacticGraphNodeKey { checkpoint_sha256: nodes[n].checkpoint_sha256, state_sha256: nodes[n].state_sha256 };
        let listed = key_listed_exec(&reach, &k);
        proof {
            if listed {
                let j = choose|j: int| 0 <= j < reach@.len() && same_key(#[trigger] reach@[j], k);
                let m = choose|m: nat| #[trigger] reaches_within(transitions@, root, reach@[j], m);
                lemma_reaches_same_key(transitions@, root, reach@[j], k, m);
                assert(node_key(nodes@[n as int]) == k);
            } else if reachable_from(transitions@, root, k) {
                let m = choose|m: nat| #[trigger] reaches_within(transitions@, root, k, m);
                lemma_closed_holds_reachable(transitions@, root, reach@, k, m);
            }
            assert(node_key(nodes@[n as int]) == k);
        }
        connected = connected && listed;
        n = n + 1;
    }
    Ok(TacticCampaignGraphProjection {
        schema: TACTIC_CAMPAIGN_GRAPH_PROJECTION_SCHEMA_V1.to_owned(),
        root_checkpoint_sha256: root.checkpoint_sha256,
        root_state_sha256: root.state_sha256,
        root_connected: connected,
        frontier_cells: retained_checkpoints.len(),
        nodes,
        edges,
    })
}

/// What the diagnostics read of one journaled decision: its episode group,
/// the digest of its selected action's canonical encoding, and the
/// frontier counts recorded with it (zero where the record predates them).
#[derive(Clone, Copy, Debug)]
pub struct TacticDiagnosticRecord {
    pub episode_group: u64,
    pub selected_action_sha256: Digest,
    pub logical_frontier_records: usize,
    pub directly_restorable_native_frontiers: usize,
    pub replay_only_frontiers: usize,
}

/// Health signals of a tactic campaign, read from its journal and graph.
#[derive(Clone, Copy, Debug)]
pub struct TacticCampaignDiagnostics {
    pub replay_rows: usize,
    pub frontier_cells: usize,
    pub logical_frontier_records: usize,
    pub directly_restorable_native_frontiers: usize,
    pub replay_only_frontiers: usize,
    pub unique_selected_actions: usize,
    pub zero_diversity_selection: bool,
    pub repeated_identical_compositions: bool,
    pub no_progress_loop: bool,
    pub frontier_lost_root_connectivity: bool,
}

/// The number of distinct selected actions among `rs`.
pub open spec fn distinct_actions(rs: Seq<TacticDiagnosticRecord>) -> nat
    decreases rs.len(),
{
    if rs.len() == 0 {
        0
    } else {
        let earlier = rs.drop_last();
        distinct_actions(earlier) + if exists|k: int|
            0 <= k < earlier.len() && (#[trigger] earlier[k]).selected_action_sha256.0@
                == rs.last().selected_action_sha256.0@ {
            0nat
        } else {
            1nat
        }
    }
}

/// The selected actions of episode group `g`, in journal order.
pub open spec fn composition(rs: Seq<TacticDiagnosticRecord>, g: u64) -> Seq<Seq<u8>>
    decreases rs.len(),
{
    if rs.len() == 0 {
        seq![]
    } else {
        let earlier = composition(rs.drop_last(), g);
        if rs.last().episode_group == g {
            earlier.push(rs.last().selected_action_sha256.0@)
        } else {
            earlier
        }
    }
}

pub open spec fn group_present(rs: Seq<TacticDiagnosticRecord>, g: u64) -> bool {
    exists|i: int| 0 <= i < rs.len() && (#[trigger] rs[i]).episode_group == g
}

/// Two different episode groups selected the very same actions in the
/// same order.
pub open spec fn repeats_composition(rs: Seq<TacticDiagnosticRecord>) -> bool {
    exists|g1: u64, g2: u64|
        g1 != g2 && #[trigger] group_present(rs, g1) && #[trigger] group_present(rs, g2) && composition(rs, g1)
            == composition(rs, g2)
}

/// The frontier counts the diagnostics report: those of the last record
/// where it carries them, else the graph's node and frontier counts.
pub open spec fn frontier_counts(rs: Seq<TacticDiagnosticRecord>, graph: TacticCampaignGraphProjection) -> (
    usize,
    usize,
    usize,
) {
    if rs.len() == 0 || rs.last().logical_frontier_records == 0 {
        (graph.nodes@.len() as usize, 0usize, graph.frontier_cells)
    } else {
        (
            rs.last().logical_frontier_records,
            rs.last().directly_restorable_native_frontiers,
            rs.last().replay_only_frontiers,
        )
    }
}

pub open spec fn digest_views(s: Seq<Digest>) -> Seq<Seq<u8>> {
    s.map_values(|d: Digest| d.0@)
}

/// Whether some record before position `i` selected the action that
/// record `i` selected.
fn action_seen_before(rs: &Vec<TacticDiagnosticRecord>, i: usize) -> (r: bool)
    requires
        i < rs.len(),
    ensures
        r == exists|k: int|
            0 <= k < i && (#[trigger] rs@[k]).selected_action_sha256.0@ == rs@[i as int].selected_action_sha256.0@,
{
    let mut k: usize = 0;
    while k < i
        invariant
            k <= i < rs.len(),
            forall|m: int| 0 <= m < k ==> (#[trigger] rs@[m]).selected_action_sha256.0@ != rs@[i as int].selected_action_sha256.0@,
        decreases i - k,
    {
        if rs[k].selected_action_sha256.same_as(&rs[i].selected_action_sha256) {
            return true;
        }
        k = k + 1;
    }
    false
}

fn count_distinct_actions(rs: &Vec<TacticDiagnosticRecord>) -> (n: usize)
    ensures
        n == distinct_actions(rs@),
{
    let mut n: usize = 0;
    let mut i: usize = 0;
    proof {
        assert(rs@.take(0) =~= Seq::<TacticDiagnosticRecord>::empty());
    }
    while i < rs.len()
        invariant
            i <= rs.len(),
            n == distinct_actions(rs@.take(i as int)),
            n <= i,
        decreases rs.len() - i,
    {
        let seen = action_seen_before(rs, i);
        proof {
            lemma_take_step(rs@, i as int);
            let earlier = rs@.take(i as int);
            assert forall|k: int| 0 <= k < i implies #[trigger] earlier[k] == rs@[k] by {}
            let next = rs@.take(i + 1);
            assert(next.last() == rs@[i as int]);
            assert(next.drop_last() == earlier);
            if seen {
                let k = choose|k: int|
                    0 <= k < i && (#[trigger] rs@[k]).selected_action_sha256.0@ == rs@[i as int].selected_action_sha256.0@;
                assert(earlier[k] == rs@[k]);
            }
            assert(seen == exists|k: int|
                0 <= k < earlier.len() && (#[trigger] earlier[k]).selected_action_sha256.0@
                    == next.last().selected_action_sha256.0@);
        }
        if !seen {
            n = n + 1;
        }
        i = i + 1;
    }
    proof {
        assert(rs@.take(rs@.len() as int) =~= rs@);
    }
    n
}

fn composition_of(rs: &Vec<TacticDiagnosticRecord>, g: u64) -> (v: Vec<Digest>)
    ensures
        digest_views(v@) == composition(rs@, g),
{
    let mut v: Vec<Digest> = Vec::new();
    let mut i: usize = 0;
    proof {
        assert(rs@.take(0) =~= Seq::<TacticDiagnosticRecord>::empty());
        assert(digest_views(v@) =~= Seq::<Seq<u8>>::empty());
    }
    while i < rs.len()
        invariant
            i <= rs.len(),
            digest_views(v@) == composition(rs@.take(i as int), g),
        decreases rs.len() - i,
    {
        proof {
            lemma_take_step(rs@, i as int);
        }
        let ghost old_v = v@;
        if rs[i].episode_group == g {
            v.push(rs[i].selected_action_sha256);
            proof {
                assert(digest_views(v@) =~= digest_views(old_v).push(rs@[i as int].selected_action_sha256.0@));
            }
        }
        i = i + 1;
    }
    proof {
        assert(rs@.take(rs@.len() as int) =~= rs@);
    }
    v
}

fn digest_lists_equal(a: &Vec<Digest>, b: &Vec<Digest>) -> (r: bool)
    ensures
        r == (digest_views(a@) == digest_views(b@)),
{
    if a.len() != b.len() {
        proof {
            assert(digest_views(a@).len() != digest_views(b@).len());
        }
        return false;
    }
    let mut i: usize = 0;
    while i < a.len()
        invariant
            i <= a.len() == b.len(),
            forall|j: int| 0 <= j < i ==> (#[trigger] a@[j]).0@ == b@[j].0@,
        decreases a.len() - i,
    {
        if !a[i].same_as(&b[i]) {
            proof {
                assert(digest_views(a@)[i as int] != digest_views(b@)[i as int]);
            }
            return false;
        }
        i = i + 1;
    }
    proof {
        assert(digest_views(a@) =~= digest_views(b@));
    }
    true
}

/// The episode groups present in `rs`, each once.
fn present_groups(rs: &Vec<TacticDiagnosticRecord>) -> (gs: Vec<u64>)
    ensures
        gs@.no_duplicates(),
        forall|g: u64| #[trigger] group_present(rs@, g) <==> gs@.contains(g),
{
    let mut gs: Vec<u64> = Vec::new();
    let mut i: usize = 0;
    while i < rs.len()
        invariant
            i <= rs.len(),
            gs@.no_duplicates(),
            forall|g: u64| (exists|j: int| 0 <= j < i && (#[trigger] rs@[j]).episode_group == g) <==> gs@.contains(g),
        decreases rs.len() - i,
    {
        let g = rs[i].episode_group;
        let mut known = false;
        let mut k: usize = 0;
        while k < gs.len()
            invariant
                k <= gs.len(),
                known == exists|m: int| 0 <= m < k && gs@[m] == g,
            decreases gs.len() - k,
        {
            if gs[k] == g {
                known = true;
            }
            k = k + 1;
        }
        let ghost old_gs = gs@;
        if !known {
            gs.push(g);
        }
        proof {
            assert forall|h: u64| (exists|j: int| 0 <= j < i + 1 && (#[trigger] rs@[j]).episode_group == h) <==> gs@.contains(h) by {
                if gs@.contains(h) && !old_gs.contains(h) {
                    assert(h == g);
                    assert(rs@[i as int].episode_group == h);
                }
                if exists|j: int| 0 <= j < i + 1 && (#[trigger] rs@[j]).episode_group == h {
                    let j = choose|j: int| 0 <= j < i + 1 && (#[trigger] rs@[j]).episode_group == h;
                    if j == i {
                        if known {
                            let m = choose|m: int| 0 <= m < k && gs@[m] == g;
                            assert(old_gs[m] == h);
                        } else {
                            assert(gs@[gs@.len() - 1] == h);
                        }
                    } else {
                        assert(old_gs.contains(h));
                        let m = choose|m: int| 0 <= m < old_gs.len() && old_gs[m] == h;
                        assert(gs@[m] == h);
                    }
                }
            }
        }
        i = i + 1;
    }
    proof {
        assert forall|g: u64| #[trigger] group_present(rs@, g) <==> gs@.contains(g) by {
            if group_present(rs@, g) {
                let j = choose|j: int| 0 <= j < rs@.len() && (#[trigger] rs@[j]).episode_group == g;
                assert(exists|j: int| 0 <= j < i && (#[trigger] rs@[j]).episode_group == g);
            }
        }
    }
    gs
}

fn repeats_composition_exec(rs: &Vec<TacticDiagnosticRecord>) -> (r: bool)
    ensures
        r == repeats_composition(rs@),
{
    let gs = present_groups(rs);
    let mut a: usize = 0;
    while a < gs.len()
        invariant
            a <= gs.len(),
            gs@.no_duplicates(),
            forall|g: u64| #[trigger] group_present(rs@, g) <==> gs@.contains(g),
            forall|x: int, y: int|
                0 <= x < a && x < y < gs.len() ==> composition(rs@, #[trigger] gs@[x]) != composition(rs@, #[trigger] gs@[y]),
        decreases gs.len() - a,
    {
        let first = composition_of(rs, gs[a]);
        let mut b: usize = a + 1;
        while b < gs.len()
            invariant
                a < b <= gs.len(),
                gs@.no_duplicates(),
                forall|g: u64| #[trigger] group_present(rs@, g) <==> gs@.contains(g),
                digest_views(first@) == composition(rs@, gs@[a as int]),
                forall|x: int, y: int|
                    0 <= x < a && x < y < gs.len() ==> composition(rs@, #[trigger] gs@[x]) != composition(rs@, #[trigger] gs@[y]),
                forall|y: int| a < y < b ==> composition(rs@, gs@[a as int]) != composition(rs@, #[trigger] gs@[y]),
            decreases gs.len() - b,
        {
            let second = composition_of(rs, gs[b]);
            if digest_lists_equal(&first, &second) {
                proof {
                    let (g1, g2) = (gs@[a as int], gs@[b as int]);
                    assert(gs@.contains(g1) && gs@.contains(g2));
                    assert(group_present(rs@, g1) && group_present(rs@, g2));
                    assert(g1 != g2);
                }
                return true;
            }
            b = b + 1;
        }
        a = a + 1;
    }
    proof {
        if repeats_composition(rs@) {
            let (g1, g2) = choose|g1: u64, g2: u64|
                g1 != g2 && #[trigger] group_present(rs@, g1) && #[trigger] group_present(rs@, g2) && composition(rs@, g1)
                    == composition(rs@, g2);
            assert(gs@.contains(g1) && gs@.contains(g2));
            let x = choose|x: int| 0 <= x < gs@.len() && gs@[x] == g1;
            let y = choose|y: int| 0 <= y < gs@.len() && gs@[y] == g2;
            if x < y {
                assert(composition(rs@, gs@[x]) != composition(rs@, gs@[y]));
            } else {
                assert(composition(rs@, gs@[y]) != composition(rs@, gs@[x]));
            }
        }
    }
    false
}

/// Reads the health signals of a tactic campaign from its journal records,
/// its projected graph, and whether its transitions loop without progress.
/// Reported frontier counts are those of the last record where it carries
/// them, else the graph's node count, no restorable frontiers, and the
/// graph's frontier cells. Selection has zero diversity where two or more
/// rows select at most one distinct action; compositions repeat where two
/// episode groups select the very same actions in the same order.
pub fn project_tactic_decision_diagnostics(
    records: &Vec<TacticDiagnosticRecord>,
    graph: &TacticCampaignGraphProjection,
    no_progress_loop: bool,
) -> (d: TacticCampaignDiagnostics)
    ensures
        d.replay_rows == records.len(),
        d.frontier_cells == graph.frontier_cells,
        (d.logical_frontier_records, d.directly_restorable_native_frontiers, d.replay_only_frontiers) == frontier_counts(
            records@,
            *graph,
        ),
        d.unique_selected_actions == distinct_actions(records@),
        d.zero_diversity_selection == (records.len() >= 2 && distinct_actions(records@) <= 1),
        d.repeated_identical_compositions == repeats_composition(records@),
        d.no_progress_loop == no_progress_loop,
        d.frontier_lost_root_connectivity == !graph.root_connected,
{
    let unique = count_distinct_actions(records);
    let repeated = repeats_composition_exec(records);
    let (logical, restorable, replay_only) = if records.len() == 0
        || records[records.len() - 1].logical_frontier_records == 0 {
        (graph.nodes.len(), 0usize, graph.frontier_cells)
    } else {
        let last = records[records.len() - 1];
        (last.logical_frontier_records, last.directly_restorable_native_frontiers, last.replay_only_frontiers)
    };
    TacticCampaignDiagnostics {
        replay_rows: records.len(),
        frontier_cells: graph.frontier_cells,
        logical_frontier_records: logical,
        directly_restorable_native_frontiers: restorable,
        replay_only_frontiers: replay_only,
        unique_selected_actions: unique,
        zero_diversity_selection: records.len() >= 2 && unique <= 1,
        repeated_identical_compositions: repeated,
        no_progress_loop,
        frontier_lost_root_connectivity: !graph.root_connected,
    }
}

} // verus!
