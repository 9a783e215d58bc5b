//! The identity of the applicable primitive action surface over a shard of
//! recorded native episodes: a digest over every recorded boundary and the
//! sorted descriptors of the actions applicable there.

use crate::bytes::{append_bytes, push_u32_le, push_u64_le};
use crate::decisions::lemma_take_step;
use crate::digest::{bytes_precede, digest_bytes, sha256_of, Digest};
use crate::error::{route_message, NativeTacticRouteRunError};
use crate::graph_projection::digest_views;
use crate::probe::NativeTacticActionSurfaceAuditContext;
use vstd::bytes::{spec_u32_to_le_bytes, spec_u64_to_le_bytes};
use vstd::prelude::*;
use vstd::utf8::encode_utf8;

verus! {

/// Where `x` belongs in `s`: before the first element it does not follow.
pub open spec fn insertion_point(s: Seq<Seq<u8>>, x: Seq<u8>) -> int
    decreases s.len(),
{
    if s.len() == 0 {
        0
    } else if !bytes_precede(s[0], x) {
        0
    } else {
        1 + insertion_point(s.drop_first(), x)
    }
}

/// `s` in ascending byte order, equal elements kept together.
pub open spec fn sorted_digest_views(s: Seq<Seq<u8>>) -> Seq<Seq<u8>>
    decreases s.len(),
{
    if s.len() == 0 {
        s
    } else {
        let sorted = sorted_digest_views(s.drop_last());
        sorted.insert(insertion_point(sorted, s.last()), s.last())
    }
}

proof fn lemma_insertion_point_at(s: Seq<Seq<u8>>, x: Seq<u8>, p: int)
    requires
        0 <= p <= s.len(),
        forall|j: int| 0 <= j < p ==> bytes_precede(#[trigger] s[j], x),
        p < s.len() ==> !bytes_precede(s[p], x),
    ensures
        insertion_point(s, x) == p,
    decreases p,
{
    if p > 0 {
        assert(bytes_precede(s[0], x));
        let rest = s.drop_first();
        assert forall|j: int| 0 <= j < p - 1 implies bytes_precede(#[trigger] rest[j], x) by {
            assert(rest[j] == s[j + 1]);
        }
        if p < s.len() {
            assert(rest[p - 1] == s[p]);
        }
        lemma_insertion_point_at(rest, x, p - 1);
    }
}

proof fn lemma_sorted_length(s: Seq<Seq<u8>>)
    ensures
        sorted_digest_views(s).len() == s.len(),
    decreases s.len(),
{
    if s.len() > 0 {
        lemma_sorted_length(s.drop_last());
        lemma_insertion_point_bounds(sorted_digest_views(s.drop_last()), s.last());
    }
}

proof fn lemma_insertion_point_bounds(s: Seq<Seq<u8>>, x: Seq<u8>)
    ensures
        0 <= insertion_point(s, x) <= s.len(),
    decreases s.len(),
{
    if s.len() > 0 {
        lemma_insertion_point_bounds(s.drop_first(), x);
    }
}

/// The digests of `ds` in ascending byte order.
pub fn sorted_digests(ds: &Vec<Digest>) -> (r: Vec<Digest>)
    ensures
        digest_views(r@) == sorted_digest_views(digest_views(ds@)),
{
    let mut r: Vec<Digest> = Vec::new();
    let mut i: usize = 0;
    proof {
        assert(digest_views(ds@.take(0)) =~= Seq::<Seq<u8>>::empty());
        assert(digest_views(r@) =~= Seq::<Seq<u8>>::empty());
    }
    while i < ds.len()
        invariant
            i <= ds.len(),
            r@.len() == i,
            digest_views(r@) == sorted_digest_views(digest_views(ds@.take(i as int))),
        decreases ds.len() - i,
    {
        let x = ds[i];
        let mut p: usize = 0;
        while p < r.len() && r[p].precedes(&x)
            invariant
                p <= r.len(),
                forall|j: int| 0 <= j < p ==> bytes_precede((#[trigger] r@[j]).0@, x.0@),
            decreases r.len() - p,
        {
            p = p + 1;
        }
        proof {
            let views = digest_views(r@);
            assert forall|j: int| 0 <= j < p implies bytes_precede(#[trigger] views[j], x.0@) by {
                assert(views[j] == r@[j].0@);
            }
            lemma_insertion_point_at(views, x.0@, p as int);
            lemma_take_step(ds@, i as int);
            let prefix = digest_views(ds@.take(i + 1));
            assert(prefix.drop_last() =~= digest_views(ds@.take(i as int)));
            assert(prefix.last() == x.0@);
        }
        let ghost before = r@;
        r.insert(p, x);
        proof {
            assert(digest_views(r@) =~= digest_views(before).insert(p as int, x.0@));
        }
        i = i + 1;
    }
    proof {
        assert(ds@.take(ds@.len() as int) =~= ds@);
    }
    r
}

pub const NO_APPLICABLE_ACTION_MESSAGE: &'static str = "native tactic action-surface audit has no applicable action";
pub const SURFACE_COUNT_OVERFLOW_MESSAGE: &'static str = "native tactic action-surface count overflows";
pub const DESCRIPTOR_COUNT_OVERFLOW_MESSAGE: &'static str = "native tactic descriptor count overflows";
pub const EMPTY_COVERAGE_MESSAGE: &'static str = "native tactic action-surface audit coverage is empty";

/// One recorded boundary of an audited episode: its index, and the content
/// digests of the action descriptors applicable there.
#[derive(Clone, Debug)]
pub struct NativeTacticAuditStep {
    pub boundary_index: u64,
    pub applicable_descriptors: Vec<Digest>,
}

/// One audited episode: its identifier and its recorded boundaries.
#[derive(Clone, Debug)]
pub struct NativeTacticAuditEpisode {
    pub id: String,
    pub steps: Vec<NativeTacticAuditStep>,
}

/// Counting the boundaries and descriptors of `ss` from `j` on, after
/// `boundaries` and `descriptors` so far; fails at the first boundary
/// without an applicable action or where a count leaves 64 bits.
pub open spec fn walk_steps(ss: Seq<NativeTacticAuditStep>, j: int, boundaries: int, descriptors: int) -> Result<
    (int, int),
    Seq<char>,
>
    decreases ss.len() - j,
{
    if j < 0 || j >= ss.len() {
        Ok((boundaries, descriptors))
    } else if ss[j].applicable_descriptors@.len() == 0 {
        Err(NO_APPLICABLE_ACTION_MESSAGE@)
    } else if boundaries + 1 > u64::MAX {
        Err(SURFACE_COUNT_OVERFLOW_MESSAGE@)
    } else if descriptors + ss[j].applicable_descriptors@.len() > u64::MAX {
        Err(DESCRIPTOR_COUNT_OVERFLOW_MESSAGE@)
    } else {
        walk_steps(ss, j + 1, boundaries + 1, descriptors + ss[j].applicable_descriptors@.len())
    }
}

/// The same count over the episodes of `es` from `i` on.
pub open spec fn walk_episodes(es: Seq<NativeTacticAuditEpisode>, i: int, boundaries: int, descriptors: int) -> Result<
    (int, int),
    Seq<char>,
>
    decreases es.len() - i,
{
    if i < 0 || i >= es.len() {
        Ok((boundaries, descriptors))
    } else {
        match walk_steps(es[i].steps@, 0, boundaries, descriptors) {
            Err(message) => Err(message),
            Ok((b, d)) => walk_episodes(es, i + 1, b, d),
        }
    }
}

pub open spec fn descriptor_bytes(ds: Seq<Seq<u8>>) -> Seq<u8>
    decreases ds.len(),
{
    if ds.len() == 0 {
        seq![]
    } else {
        descriptor_bytes(ds.drop_last()) + ds.last()
    }
}

/// A boundary as the identity covers it: its index, its descriptor count,
/// and its descriptors in ascending byte order.
pub open spec fn step_bytes(st: NativeTacticAuditStep) -> Seq<u8> {
    spec_u64_to_le_bytes(st.boundary_index) + spec_u64_to_le_bytes(st.applicable_descriptors@.len() as u64)
        + descriptor_bytes(sorted_digest_views(digest_views(st.applicable_descriptors@)))
}

pub open spec fn steps_bytes(ss: Seq<NativeTacticAuditStep>) -> Seq<u8>
    decreases ss.len(),
{
    if ss.len() == 0 {
        seq![]
    } else {
        steps_bytes(ss.drop_last()) + step_bytes(ss.last())
    }
}

/// An episode's identifier (length-prefixed UTF-8) and boundary count,
/// before its boundaries.
pub open spec fn episode_header(e: NativeTacticAuditEpisode) -> Seq<u8> {
    spec_u64_to_le_bytes(encode_utf8(e.id@).len() as u64) + encode_utf8(e.id@) + spec_u64_to_le_bytes(
        e.steps@.len() as u64,
    )
}

pub open spec fn episodes_bytes(es: Seq<NativeTacticAuditEpisode>) -> Seq<u8>
    decreases es.len(),
{
    if es.len() == 0 {
        seq![]
    } else {
        episodes_bytes(es.drop_last()) + episode_header(es.last()) + steps_bytes(es.last().steps@)
    }
}

pub open spec fn surface_domain() -> Seq<u8> {
    seq![
        0x64u8, 0x75u8, 0x73u8, 0x6bu8, 0x6cu8, 0x69u8, 0x67u8, 0x68u8, 0x74u8, 0x2du8, 0x6eu8, 0x61u8, 0x74u8, 0x69u8, 0x76u8, 0x65u8, 0x2du8, 0x74u8, 0x61u8, 0x63u8, 0x74u8, 0x69u8, 0x63u8, 0x2du8, 0x61u8, 0x70u8, 0x70u8, 0x6cu8, 0x69u8, 0x63u8, 0x61u8, 0x62u8, 0x6cu8, 0x65u8, 0x2du8, 0x61u8, 0x63u8, 0x74u8, 0x69u8, 0x6fu8, 0x6eu8, 0x2du8, 0x73u8, 0x75u8, 0x72u8, 0x66u8, 0x61u8, 0x63u8, 0x65u8, 0x2fu8, 0x76u8, 0x31u8
    ]
}

/// The bytes the surface identity is the SHA-256 of: the domain, the
/// audit's action schema, the encoder's schema, the tick bound and seed,
/// then every episode.
pub open spec fn surface_stream(
    context: NativeTacticActionSurfaceAuditContext,
    encoder_schema_sha256: Digest,
    es: Seq<NativeTacticAuditEpisode>,
) -> Seq<u8> {
    surface_domain() + context.action_schema_sha256.0@ + encoder_schema_sha256.0@ + spec_u32_to_le_bytes(
        context.maximum_ticks,
    ) + spec_u64_to_le_bytes(context.seed) + spec_u64_to_le_bytes(es.len() as u64) + episodes_bytes(es)
}

fn append_step(bytes: &mut Vec<u8>, st: &NativeTacticAuditStep)
    ensures
        final(bytes)@ == old(bytes)@ + step_bytes(*st),
{
    let ghost start = bytes@;
    push_u64_le(bytes, st.boundary_index);
    push_u64_le(bytes, st.applicable_descriptors.len() as u64);
    let sorted = sorted_digests(&st.applicable_descriptors);
    let ghost views = digest_views(sorted@);
    let ghost head = bytes@;
    let mut k: usize = 0;
    proof {
        assert(views.take(0) =~= Seq::<Seq<u8>>::empty());
        assert(bytes@ =~= head + descriptor_bytes(views.take(0)));
    }
    while k < sorted.len()
        invariant
            k <= sorted.len(),
            views == digest_views(sorted@),
            bytes@ == head + descriptor_bytes(views.take(k as int)),
        decreases sorted.len() - k,
    {
        let v = sorted[k].to_vec();
        append_bytes(bytes, v.as_slice());
        proof {
            lemma_take_step(views, k as int);
            assert(views[k as int] == sorted@[k as int].0@);
        }
        k = k + 1;
    }
    proof {
        assert(views.take(views.len() as int) =~= views);
        assert(bytes@ =~= start + step_bytes(*st));
    }
}

/// The identity of the applicable primitive action surface of an audit:
/// the SHA-256 of the audit context, the goal encoder's schema, and every
/// recorded boundary of every episode with the descriptors of the actions
/// applicable there in ascending byte order; with the number of boundaries
/// and of descriptors covered. Fails on an invalid audit context, at the
/// first boundary with no applicable action, where a count leaves 64 bits,
/// and where no boundary is covered.
pub fn native_tactic_applicable_action_surface_identity(
    context: &NativeTacticActionSurfaceAuditContext,
    tactic_family_schema_sha256: &Digest,
    encoder_schema_sha256: &Digest,
    episodes: &Vec<NativeTacticAuditEpisode>,
) -> (r: Result<(Digest, u64, u64), NativeTacticRouteRunError>)
    ensures
        !context.spec_valid(*tactic_family_schema_sha256) ==> r is Err,
        context.spec_valid(*tactic_family_schema_sha256) ==> match walk_episodes(episodes@, 0, 0, 0) {
            Err(message) => r matches Err(e) && e.message@ == message,
            Ok((b, d)) => if b == 0 || d < b {
                r matches Err(e) && e.message@ == EMPTY_COVERAGE_MESSAGE@
            } else {
                r matches Ok((identity, boundaries, descriptors)) && boundaries == b && descriptors == d
                    && identity.0@ == sha256_of(surface_stream(*context, *encoder_schema_sha256, episodes@))
            },
        },
{
    match context.validate(tactic_family_schema_sha256) {
        Ok(()) => {},
        Err(e) => {
            return Err(e);
        },
    }
    let ghost es = episodes@;
    let mut bytes: Vec<u8> = vec![0x64u8, 0x75u8, 0x73u8, 0x6bu8, 0x6cu8, 0x69u8, 0x67u8, 0x68u8, 0x74u8, 0x2du8, 0x6eu8, 0x61u8, 0x74u8, 0x69u8, 0x76u8, 0x65u8, 0x2du8, 0x74u8, 0x61u8, 0x63u8, 0x74u8, 0x69u8, 0x63u8, 0x2du8, 0x61u8, 0x70u8, 0x70u8, 0x6cu8, 0x69u8, 0x63u8, 0x61u8, 0x62u8, 0x6cu8, 0x65u8, 0x2du8, 0x61u8, 0x63u8, 0x74u8, 0x69u8, 0x6fu8, 0x6eu8, 0x2du8, 0x73u8, 0x75u8, 0x72u8, 0x66u8, 0x61u8, 0x63u8, 0x65u8, 0x2fu8, 0x76u8, 0x31u8];
    proof {
        assert(bytes@ =~= surface_domain());
    }
    let action = context.action_schema_sha256.to_vec();
    append_bytes(&mut bytes, action.as_slice());
    let encoder = encoder_schema_sha256.to_vec();
    append_bytes(&mut bytes, encoder.as_slice());
    push_u32_le(&mut bytes, context.maximum_ticks);
    push_u64_le(&mut bytes, context.seed);
    push_u64_le(&mut bytes, episodes.len() as u64);
    let ghost header = bytes@;
    proof {
        assert(header =~= surface_domain() + context.action_schema_sha256.0@ + encoder_schema_sha256.0@
            + spec_u32_to_le_bytes(context.maximum_ticks) + spec_u64_to_le_bytes(context.seed)
            + spec_u64_to_le_bytes(es.len() as u64));
        assert(es.take(0) =~= Seq::<NativeTacticAuditEpisode>::empty());
        assert(bytes@ =~= header + episodes_bytes(es.take(0)));
    }
    let mut boundaries: u64 = 0;
    let mut descriptors: u64 = 0;
    let mut i: usize = 0;
    while i < episodes.len()
        invariant
            i <= episodes.len(),
            es == episodes@,
            walk_episodes(es, 0, 0, 0) == walk_episodes(es, i as int, boundaries as int, descriptors as int),
            bytes@ == header + episodes_bytes(es.take(i as int)),
        decreases episodes.len() - i,
    {
        let e = &episodes[i];
        let id = e.id.as_str().as_bytes();
        push_u64_le(&mut bytes, id.len() as u64);
        append_bytes(&mut bytes, id);
        push_u64_le(&mut bytes, e.steps.len() as u64);
        let ghost episode_start = bytes@;
        let ghost ss = e.steps@;
        proof {
            assert(episode_start =~= header + episodes_bytes(es.take(i as int)) + episode_header(es[i as int]));
            assert(ss.take(0) =~= Seq::<NativeTacticAuditStep>::empty());
            assert(bytes@ =~= episode_start + steps_bytes(ss.take(0)));
        }
        let mut j: usize = 0;
        while j < e.steps.len()
            invariant
                j <= e.steps.len(),
                i < episodes.len(),
                es == episodes@,
                *e == es[i as int],
                ss == e.steps@,
                walk_episodes(es, 0, 0, 0) == match walk_steps(ss, j as int, boundaries as int, descriptors as int) {
                    Err(message) => Err(message),
                    Ok((b, d)) => walk_episodes(es, i + 1, b, d),
                },
                bytes@ == episode_start + steps_bytes(ss.take(j as int)),
            decreases e.steps.len() - j,
        {
            let st = &e.steps[j];
            if st.applicable_descriptors.len() == 0 {
                return Err(route_message(NO_APPLICABLE_ACTION_MESSAGE));
            }
            boundaries = match boundaries.checked_add(1) {
                Some(v) => v,
                None => {
                    return Err(route_message(SURFACE_COUNT_OVERFLOW_MESSAGE));
                },
            };
            descriptors = match descriptors.checked_add(st.applicable_descriptors.len() as u64) {
                Some(v) => v,
                None => {
                    return Err(route_message(DESCRIPTOR_COUNT_OVERFLOW_MESSAGE));
                },
            };
            append_step(&mut bytes, st);
            proof {
                lemma_take_step(ss, j as int);
            }
            j = j + 1;
        }
        proof {
            assert(ss.take(ss.len() as int) =~= ss);
            lemma_take_step(es, i as int);
        }
        i = i + 1;
    }
    proof {
        assert(es.take(es.len() as int) =~= es);
    }
    if boundaries == 0 || descriptors < boundaries {
        return Err(route_message(EMPTY_COVERAGE_MESSAGE));
    }
    let identity = digest_bytes(bytes.as_slice());
    Ok((identity, boundaries, descriptors))
}

/// Non-decreasing byte order.
pub open spec fn views_sorted(s: Seq<Seq<u8>>) -> bool {
    forall|i: int, j: int| 0 <= i < j < s.len() ==> !bytes_precede(#[trigger] s[j], #[trigger] s[i])
}

pub open spec fn all_digest_length(s: Seq<Seq<u8>>) -> bool {
    forall|i: int| 0 <= i < s.len() ==> (#[trigger] s[i]).len() == 32
}

proof fn lemma_precede_asymmetric(a: Seq<u8>, b: Seq<u8>, i: int)
    requires
        crate::digest::bytes_precede_from(a, b, i),
    ensures
        !crate::digest::bytes_precede_from(b, a, i),
    decreases a.len() - i,
{
    if 0 <= i < a.len() && i < b.len() && a[i] == b[i] {
        lemma_precede_asymmetric(a, b, i + 1);
    }
}

/// Byte order on 32-byte sequences is a strict total order.
proof fn lemma_byte_order(a: Seq<u8>, b: Seq<u8>, c: Seq<u8>)
    requires
        a.len() == 32,
        b.len() == 32,
        c.len() == 32,
    ensures
        bytes_precede(a, b) ==> !bytes_precede(b, a),
        bytes_precede(a, b) && bytes_precede(b, c) ==> bytes_precede(a, c),
        a == b || bytes_precede(a, b) || bytes_precede(b, a),
{
    if bytes_precede(a, b) {
        lemma_precede_asymmetric(a, b, 0);
    }
    if bytes_precede(a, b) && bytes_precede(b, c) {
        crate::schedule::lemma_bytes_precede_from_transitive(a, b, c, 0);
    }
    if !bytes_precede(a, b) && !bytes_precede(b, a) {
        crate::schedule::lemma_bytes_precede_from_total(a, b, 0);
        assert(a =~= a.subrange(0, 32));
        assert(b =~= b.subrange(0, 32));
    }
}

proof fn lemma_insertion_point_props(s: Seq<Seq<u8>>, x: Seq<u8>)
    ensures
        0 <= insertion_point(s, x) <= s.len(),
        forall|j: int| 0 <= j < insertion_point(s, x) ==> bytes_precede(#[trigger] s[j], x),
        insertion_point(s, x) < s.len() ==> !bytes_precede(s[insertion_point(s, x)], x),
    decreases s.len(),
{
    if s.len() > 0 && bytes_precede(s[0], x) {
        let rest = s.drop_first();
        lemma_insertion_point_props(rest, x);
        assert forall|j: int| 0 <= j < insertion_point(s, x) implies bytes_precede(#[trigger] s[j], x) by {
            if j > 0 {
                assert(s[j] == rest[j - 1]);
            }
        }
        if insertion_point(s, x) < s.len() {
            assert(s[insertion_point(s, x)] == rest[insertion_point(rest, x)]);
        }
    }
}

proof fn lemma_insert_keeps_sorted(s: Seq<Seq<u8>>, x: Seq<u8>)
    requires
        views_sorted(s),
        all_digest_length(s),
        x.len() == 32,
    ensures
        views_sorted(s.insert(insertion_point(s, x), x)),
        all_digest_length(s.insert(insertion_point(s, x), x)),
{
    lemma_insertion_point_props(s, x);
    let p = insertion_point(s, x);
    let r = s.insert(p, x);
    assert forall|i: int, j: int| 0 <= i < j < r.len() implies !bytes_precede(#[trigger] r[j], #[trigger] r[i]) by {
        if j < p {
            assert(r[i] == s[i] && r[j] == s[j]);
        } else if j == p {
            assert(r[i] == s[i]);
            lemma_byte_order(s[i], x, x);
        } else if i < p {
            assert(r[i] == s[i] && r[j] == s[j - 1]);
            assert(!bytes_precede(s[j - 1], s[i]));
        } else if i == p {
            assert(r[j] == s[j - 1]);
            assert(!bytes_precede(s[p], x));
            if j - 1 > p {
                assert(!bytes_precede(s[j - 1], s[p]));
            }
            lemma_byte_order(s[j - 1], x, s[p]);
            lemma_byte_order(s[p], x, s[j - 1]);
            lemma_byte_order(x, s[p], s[j - 1]);
        } else {
            assert(r[i] == s[i - 1] && r[j] == s[j - 1]);
        }
    }
    assert forall|i: int| 0 <= i < r.len() implies (#[trigger] r[i]).len() == 32 by {
        if i < p {
            assert(r[i] == s[i]);
        } else if i > p {
            assert(r[i] == s[i - 1]);
        }
    }
}

proof fn lemma_sort_props(s: Seq<Seq<u8>>)
    requires
        all_digest_length(s),
    ensures
        views_sorted(sorted_digest_views(s)),
        all_digest_length(sorted_digest_views(s)),
        sorted_digest_views(s).to_multiset() == s.to_multiset(),
    decreases s.len(),
{
    if s.len() > 0 {
        let rest = s.drop_last();
        assert(all_digest_length(rest));
        lemma_sort_props(rest);
        let sorted = sorted_digest_views(rest);
        lemma_insert_keeps_sorted(sorted, s.last());
        lemma_insertion_point_props(sorted, s.last());
        vstd::seq_lib::to_multiset_insert(sorted, insertion_point(sorted, s.last()), s.last());
        vstd::seq_lib::to_multiset_build(rest, s.last());
        assert(rest.push(s.last()) =~= s);
    }
}

/// Two sorted sequences of 32-byte strings with the same elements are the
/// same sequence.
proof fn lemma_sorted_unique(s: Seq<Seq<u8>>, t: Seq<Seq<u8>>)
    requires
        views_sorted(s),
        views_sorted(t),
        all_digest_length(s),
        all_digest_length(t),
        s.to_multiset() == t.to_multiset(),
    ensures
        s == t,
    decreases s.len(),
{
    vstd::seq_lib::to_multiset_len(s);
    vstd::seq_lib::to_multiset_len(t);
    if s.len() == 0 {
        assert(s =~= t);
    } else {
        vstd::seq_lib::to_multiset_contains(s, s[0]);
        vstd::seq_lib::to_multiset_contains(t, s[0]);
        vstd::seq_lib::to_multiset_contains(t, t[0]);
        vstd::seq_lib::to_multiset_contains(s, t[0]);
        assert(s.contains(s[0]));
        assert(t.contains(t[0]));
        let k = choose|k: int| 0 <= k < t.len() && t[k] == s[0];
        let m = choose|m: int| 0 <= m < s.len() && s[m] == t[0];
        if k > 0 {
            assert(!bytes_precede(t[k], t[0]));
        }
        if m > 0 {
            assert(!bytes_precede(s[m], s[0]));
        }
        lemma_byte_order(s[0], t[0], t[0]);
        assert(s[0] == t[0]);
        vstd::seq_lib::to_multiset_remove(s, 0);
        vstd::seq_lib::to_multiset_remove(t, 0);
        assert(s.remove(0) =~= s.drop_first());
        assert(t.remove(0) =~= t.drop_first());
        let (s1, t1) = (s.drop_first(), t.drop_first());
        assert forall|i: int, j: int| 0 <= i < j < s1.len() implies !bytes_precede(#[trigger] s1[j], #[trigger] s1[i]) by {
            assert(s1[i] == s[i + 1] && s1[j] == s[j + 1]);
        }
        assert forall|i: int, j: int| 0 <= i < j < t1.len() implies !bytes_precede(#[trigger] t1[j], #[trigger] t1[i]) by {
            assert(t1[i] == t[i + 1] && t1[j] == t[j + 1]);
        }
        lemma_sorted_unique(s1, t1);
        assert(s =~= t) by {
            assert forall|i: int| 0 <= i < s.len() implies s[i] == t[i] by {
                if i > 0 {
                    assert(s[i] == s1[i - 1] && t[i] == t1[i - 1]);
                }
            }
        }
    }
}

/// The surface identity does not depend on the order in which a boundary's
/// applicable descriptors are listed: two listings of the same descriptors
/// at the same boundary contribute the same bytes.
pub proof fn lemma_step_bytes_ignore_descriptor_order(a: NativeTacticAuditStep, b: NativeTacticAuditStep)
    requires
        a.boundary_index == b.boundary_index,
        digest_views(a.applicable_descriptors@).to_multiset() == digest_views(b.applicable_descriptors@).to_multiset(),
    ensures
        step_bytes(a) == step_bytes(b),
{
    let (va, vb) = (digest_views(a.applicable_descriptors@), digest_views(b.applicable_descriptors@));
    assert(all_digest_length(va));
    assert(all_digest_length(vb));
    lemma_sort_props(va);
    lemma_sort_props(vb);
    lemma_sorted_unique(sorted_digest_views(va), sorted_digest_views(vb));
    vstd::seq_lib::to_multiset_len(va);
    vstd::seq_lib::to_multiset_len(vb);
    assert(a.applicable_descriptors@.len() == va.len());
    assert(b.applicable_descriptors@.len() == vb.len());
}

} // verus!
