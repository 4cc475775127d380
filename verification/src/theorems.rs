//! What holds of the frame processor, proved from its model.

use vstd::prelude::*;
use crate::frame::{ActorId, Attribute, CreationView, FrameView, Scalar, UpdateView};
use crate::processor::{
    attribute_samples, frame_registry, frame_samples, registry_after_creation,
    registry_after_creations, stream_registry, stream_samples, update_samples, updates_samples,
};
use crate::role::{classify_name, is_ball_name, Role};
use crate::sample::Sample;

verus! {

/// The role that the creations `cs` give to `id`: that of the last creation
/// of `id` whose object name has a role, and none where `cs` holds no such
/// creation.
pub open spec fn last_role(cs: Seq<CreationView>, id: ActorId) -> Option<Role>
    decreases cs.len(),
{
    if cs.len() == 0 {
        None
    } else if cs.last().actor == id && classify_name(cs.last().object_name) is Some {
        classify_name(cs.last().object_name)
    } else {
        last_role(cs.drop_last(), id)
    }
}

/// After a run of creations each actor has the role that the run gives it,
/// and where the run gives it none, what it had before.
pub proof fn creations_override(reg: Map<ActorId, Role>, cs: Seq<CreationView>, id: ActorId)
    ensures
        registry_after_creations(reg, cs).contains_key(id) <==> last_role(cs, id) is Some
            || reg.contains_key(id),
        last_role(cs, id) matches Some(role) ==> registry_after_creations(reg, cs)[id] == role,
        last_role(cs, id) is None ==> registry_after_creations(reg, cs)[id] == reg[id],
    decreases cs.len(),
{
    if cs.len() > 0 {
        creations_override(reg, cs.drop_last(), id);
    }
}

/// A creation with a role decides the role of its actor for the whole run,
/// unless a later creation of the same actor has another role.
pub proof fn last_creation_decides(reg: Map<ActorId, Role>, cs: Seq<CreationView>, i: int)
    requires
        0 <= i < cs.len(),
        classify_name(cs[i].object_name) is Some,
        forall|j: int|
            i < j < cs.len() && (#[trigger] cs[j]).actor == cs[i].actor ==> {
                ||| classify_name(cs[j].object_name) is None
                ||| classify_name(cs[j].object_name) == classify_name(cs[i].object_name)
            },
    ensures
        last_role(cs, cs[i].actor) == classify_name(cs[i].object_name),
        registry_after_creations(reg, cs).contains_key(cs[i].actor),
        Some(registry_after_creations(reg, cs)[cs[i].actor]) == classify_name(cs[i].object_name),
    decreases cs.len(),
{
    if i < cs.len() - 1 {
        last_creation_decides(reg, cs.drop_last(), i);
    }
    creations_override(reg, cs, cs[i].actor);
}

/// Every rigid body in an attribute list yields its sample.
pub proof fn rigid_body_is_sampled(
    time: Scalar,
    role: Role,
    actor: ActorId,
    attributes: Seq<Attribute>,
    a: int,
)
    requires
        0 <= a < attributes.len(),
        attributes[a] is RigidBody,
    ensures
        attribute_samples(time, role, actor, attributes).contains(
            Sample { time, role, actor, position: attributes[a]->RigidBody_0 },
        ),
    decreases attributes.len(),
{
    let all = attribute_samples(time, role, actor, attributes);
    let sample = Sample { time, role, actor, position: attributes[a]->RigidBody_0 };
    if a == attributes.len() - 1 {
        assert(all[all.len() - 1] == sample);
    } else {
        let before = attribute_samples(time, role, actor, attributes.drop_last());
        rigid_body_is_sampled(time, role, actor, attributes.drop_last(), a);
        let k = choose|k: int| 0 <= k < before.len() && before[k] == sample;
        assert(all[k] == sample);
    }
}

/// Every sample of an update is among the samples of the run of updates
/// that holds it.
pub proof fn update_is_sampled(
    reg: Map<ActorId, Role>,
    time: Scalar,
    us: Seq<UpdateView>,
    u: int,
    sample: Sample,
)
    requires
        0 <= u < us.len(),
        update_samples(reg, time, us[u]).contains(sample),
    ensures
        updates_samples(reg, time, us).contains(sample),
    decreases us.len(),
{
    let all = updates_samples(reg, time, us);
    let before = updates_samples(reg, time, us.drop_last());
    let last = update_samples(reg, time, us.last());
    if u == us.len() - 1 {
        let k = choose|k: int| 0 <= k < last.len() && last[k] == sample;
        assert(all[before.len() + k] == sample);
    } else {
        update_is_sampled(reg, time, us.drop_last(), u, sample);
        let k = choose|k: int| 0 <= k < before.len() && before[k] == sample;
        assert(all[k] == sample);
    }
}

/// A creation whose object name marks the ball leaves its actor registered
/// as the ball when the frame is done, unless a later creation of the same
/// frame gives the same actor to a car.
pub proof fn ball_creation_registers_ball(reg: Map<ActorId, Role>, f: FrameView, i: int)
    requires
        0 <= i < f.creations.len(),
        is_ball_name(f.creations[i].object_name),
        forall|j: int|
            i < j < f.creations.len() && (#[trigger] f.creations[j]).actor == f.creations[i].actor
                ==> classify_name(f.creations[j].object_name) != Some(Role::Car),
    ensures
        frame_registry(reg, f).contains_key(f.creations[i].actor),
        frame_registry(reg, f)[f.creations[i].actor] == Role::Ball,
{
    last_creation_decides(reg, f.creations, i);
}

/// The creations of a frame count before its updates: a rigid body of an
/// actor that the same frame creates as the ball yields a ball sample with
/// the frame's time, wherever in the frame the update stands.
pub proof fn ball_created_in_frame_is_sampled(
    reg: Map<ActorId, Role>,
    f: FrameView,
    i: int,
    u: int,
    a: int,
)
    requires
        0 <= i < f.creations.len(),
        is_ball_name(f.creations[i].object_name),
        forall|j: int|
            i < j < f.creations.len() && (#[trigger] f.creations[j]).actor == f.creations[i].actor
                ==> classify_name(f.creations[j].object_name) != Some(Role::Car),
        0 <= u < f.updates.len(),
        f.updates[u].actor == f.creations[i].actor,
        0 <= a < f.updates[u].attributes.len(),
        f.updates[u].attributes[a] is RigidBody,
    ensures
        frame_samples(reg, f).contains(
            Sample {
                time: f.time,
                role: Role::Ball,
                actor: f.creations[i].actor,
                position: f.updates[u].attributes[a]->RigidBody_0,
            },
        ),
{
    ball_creation_registers_ball(reg, f, i);
    let actor = f.creations[i].actor;
    let sample = Sample {
        time: f.time,
        role: Role::Ball,
        actor,
        position: f.updates[u].attributes[a]->RigidBody_0,
    };
    rigid_body_is_sampled(f.time, Role::Ball, actor, f.updates[u].attributes, a);
    update_is_sampled(frame_registry(reg, f), f.time, f.updates, u, sample);
}

/// An update of an actor that has no role yields no sample.
pub proof fn unregistered_update_yields_nothing(
    reg: Map<ActorId, Role>,
    time: Scalar,
    u: UpdateView,
)
    requires
        !reg.contains_key(u.actor),
    ensures
        update_samples(reg, time, u) == Seq::<Sample>::empty(),
{
}

/// A creation whose object name marks neither the ball nor a car leaves the
/// registry as it was. If its actor had no role before, updates of that
/// actor yield no sample afterwards.
pub proof fn unclassified_creation_changes_nothing(
    reg: Map<ActorId, Role>,
    c: CreationView,
    time: Scalar,
    u: UpdateView,
)
    requires
        classify_name(c.object_name) is None,
    ensures
        registry_after_creation(reg, c) == reg,
        !reg.contains_key(c.actor) && u.actor == c.actor ==> update_samples(
            registry_after_creation(reg, c),
            time,
            u,
        ) == Seq::<Sample>::empty(),
{
}

/// All samples of an attribute list carry the time, role and actor that
/// they were made with.
pub proof fn samples_carry_their_origin(
    time: Scalar,
    role: Role,
    actor: ActorId,
    attributes: Seq<Attribute>,
)
    ensures
        forall|k: int|
            0 <= k < attribute_samples(time, role, actor, attributes).len() ==> {
                let s = #[trigger] attribute_samples(time, role, actor, attributes)[k];
                s.time == time && s.role == role && s.actor == actor
            },
    decreases attributes.len(),
{
    if attributes.len() > 0 {
        samples_carry_their_origin(time, role, actor, attributes.drop_last());
    }
}

/// A creation with a role overwrites the role that its actor had, whatever
/// it was, and every sample that a later update of the actor yields carries
/// the new role.
pub proof fn reregistration_overwrites(
    reg: Map<ActorId, Role>,
    c: CreationView,
    time: Scalar,
    u: UpdateView,
)
    requires
        classify_name(c.object_name) is Some,
        u.actor == c.actor,
    ensures
        registry_after_creation(reg, c) == reg.insert(c.actor, classify_name(c.object_name)->0),
        registry_after_creation(reg, c)[c.actor] == classify_name(c.object_name)->0,
        update_samples(registry_after_creation(reg, c), time, u) == attribute_samples(
            time,
            classify_name(c.object_name)->0,
            c.actor,
            u.attributes,
        ),
        forall|k: int|
            0 <= k < update_samples(registry_after_creation(reg, c), time, u).len() ==> (
            #[trigger] update_samples(registry_after_creation(reg, c), time, u)[k]).role
                == classify_name(c.object_name)->0,
{
    samples_carry_their_origin(time, classify_name(c.object_name)->0, c.actor, u.attributes);
}

/// The attribute at index `a` of the update at index `u` yields a sample
/// under `reg`: it is a rigid body, and the update's actor has a role.
pub open spec fn yields_sample(
    reg: Map<ActorId, Role>,
    us: Seq<UpdateView>,
    u: int,
    a: int,
) -> bool {
    &&& 0 <= u < us.len()
    &&& 0 <= a < us[u].attributes.len()
    &&& us[u].attributes[a] is RigidBody
    &&& reg.contains_key(us[u].actor)
}

/// An attribute list without a rigid body yields no sample.
pub proof fn no_rigid_body_no_sample(
    time: Scalar,
    role: Role,
    actor: ActorId,
    attributes: Seq<Attribute>,
)
    requires
        forall|b: int| 0 <= b < attributes.len() ==> attributes[b] !is RigidBody,
    ensures
        attribute_samples(time, role, actor, attributes) == Seq::<Sample>::empty(),
    decreases attributes.len(),
{
    if attributes.len() > 0 {
        no_rigid_body_no_sample(time, role, actor, attributes.drop_last());
    }
}

/// An attribute list with one rigid body yields that one sample.
pub proof fn one_rigid_body_one_sample(
    time: Scalar,
    role: Role,
    actor: ActorId,
    attributes: Seq<Attribute>,
    a: int,
)
    requires
        0 <= a < attributes.len(),
        attributes[a] is RigidBody,
        forall|b: int| 0 <= b < attributes.len() && b != a ==> attributes[b] !is RigidBody,
    ensures
        attribute_samples(time, role, actor, attributes) == seq![
            Sample { time, role, actor, position: attributes[a]->RigidBody_0 },
        ],
    decreases attributes.len(),
{
    if a == attributes.len() - 1 {
        no_rigid_body_no_sample(time, role, actor, attributes.drop_last());
    } else {
        one_rigid_body_one_sample(time, role, actor, attributes.drop_last(), a);
    }
}

/// Updates of which no attribute yields a sample yield none together.
pub proof fn no_yield_no_sample(reg: Map<ActorId, Role>, time: Scalar, us: Seq<UpdateView>)
    requires
        forall|v: int, b: int| !yields_sample(reg, us, v, b),
    ensures
        updates_samples(reg, time, us) == Seq::<Sample>::empty(),
    decreases us.len(),
{
    if us.len() > 0 {
        let rest = us.drop_last();
        assert forall|v: int, b: int| !yields_sample(reg, rest, v, b) by {
            if yields_sample(reg, rest, v, b) {
                assert(yields_sample(reg, us, v, b));
            }
        }
        no_yield_no_sample(reg, time, rest);
        let last = us.last();
        if reg.contains_key(last.actor) {
            assert forall|b: int| 0 <= b < last.attributes.len() implies last.attributes[b]
                !is RigidBody by {
                assert(!yields_sample(reg, us, us.len() - 1, b));
            }
            no_rigid_body_no_sample(time, reg[last.actor], last.actor, last.attributes);
        }
    }
}

/// Updates of which exactly one attribute yields a sample yield that one
/// sample together.
pub proof fn one_yield_one_sample(
    reg: Map<ActorId, Role>,
    time: Scalar,
    us: Seq<UpdateView>,
    u: int,
    a: int,
)
    requires
        yields_sample(reg, us, u, a),
        forall|v: int, b: int| #[trigger] yields_sample(reg, us, v, b) ==> v == u && b == a,
    ensures
        updates_samples(reg, time, us) == seq![
            Sample {
                time,
                role: reg[us[u].actor],
                actor: us[u].actor,
                position: us[u].attributes[a]->RigidBody_0,
            },
        ],
    decreases us.len(),
{
    let rest = us.drop_last();
    let last = us.last();
    if u == us.len() - 1 {
        assert forall|v: int, b: int| !yields_sample(reg, rest, v, b) by {
            if yields_sample(reg, rest, v, b) {
                assert(yields_sample(reg, us, v, b));
            }
        }
        no_yield_no_sample(reg, time, rest);
        assert forall|b: int| 0 <= b < last.attributes.len() && b != a implies last.attributes[b]
            !is RigidBody by {
            if last.attributes[b] is RigidBody {
                assert(yields_sample(reg, us, u, b));
            }
        }
        one_rigid_body_one_sample(time, reg[last.actor], last.actor, last.attributes, a);
    } else {
        assert forall|v: int, b: int| #[trigger] yields_sample(reg, rest, v, b) implies v == u && b
            == a by {
            assert(yields_sample(reg, us, v, b));
        }
        one_yield_one_sample(reg, time, rest, u, a);
        if reg.contains_key(last.actor) {
            assert forall|b: int| 0 <= b < last.attributes.len() implies last.attributes[b]
                !is RigidBody by {
                if last.attributes[b] is RigidBody {
                    assert(yields_sample(reg, us, us.len() - 1, b));
                }
            }
            no_rigid_body_no_sample(time, reg[last.actor], last.actor, last.attributes);
        }
    }
}

/// Processing a frame a second time leaves the registry as the first time
/// left it.
pub proof fn frame_registry_settles(reg: Map<ActorId, Role>, f: FrameView)
    ensures
        frame_registry(frame_registry(reg, f), f) == frame_registry(reg, f),
{
    let once = frame_registry(reg, f);
    let twice = frame_registry(once, f);
    assert forall|id: ActorId| #[trigger]
        twice.dom().contains(id) == once.dom().contains(id) && twice[id] == once[id] by {
        creations_override(reg, f.creations, id);
        creations_override(once, f.creations, id);
    }
}

/// The stream that holds the frame `f` `n` times.
pub open spec fn repeated(f: FrameView, n: nat) -> Seq<FrameView> {
    Seq::new(n, |k: int| f)
}

/// After one or more copies of a frame the registry is what the first copy
/// left.
pub proof fn repeated_frame_registry(reg: Map<ActorId, Role>, f: FrameView, n: nat)
    ensures
        stream_registry(reg, repeated(f, n)) == if n == 0 {
            reg
        } else {
            frame_registry(reg, f)
        },
    decreases n,
{
    if n > 0 {
        assert(repeated(f, n).drop_last() =~= repeated(f, (n - 1) as nat));
        repeated_frame_registry(reg, f, (n - 1) as nat);
        frame_registry_settles(reg, f);
    }
}

/// A stream of `n` copies of a frame in which exactly one attribute yields
/// a sample yields exactly `n` samples: `n` copies of that sample, each with
/// the frame's time.
pub proof fn repeated_frame_yields_one_sample_each(
    reg: Map<ActorId, Role>,
    f: FrameView,
    n: nat,
    u: int,
    a: int,
)
    requires
        yields_sample(frame_registry(reg, f), f.updates, u, a),
        forall|v: int, b: int| #[trigger]
            yields_sample(frame_registry(reg, f), f.updates, v, b) ==> v == u && b == a,
    ensures
        stream_samples(reg, repeated(f, n)) == Seq::new(
            n,
            |k: int|
                Sample {
                    time: f.time,
                    role: frame_registry(reg, f)[f.updates[u].actor],
                    actor: f.updates[u].actor,
                    position: f.updates[u].attributes[a]->RigidBody_0,
                },
        ),
        stream_samples(reg, repeated(f, n)).len() == n,
        forall|k: int|
            0 <= k < n ==> (#[trigger] stream_samples(reg, repeated(f, n))[k]).time == f.time,
    decreases n,
{
    if n > 0 {
        assert(repeated(f, n).drop_last() =~= repeated(f, (n - 1) as nat));
        repeated_frame_yields_one_sample_each(reg, f, (n - 1) as nat, u, a);
        repeated_frame_registry(reg, f, (n - 1) as nat);
        frame_registry_settles(reg, f);
        one_yield_one_sample(frame_registry(reg, f), f.time, f.updates, u, a);
    }
}

/// Processing a stream in two parts, the second with the registry that the
/// first left, gives what processing it whole gives.
pub proof fn stream_splits(reg: Map<ActorId, Role>, a: Seq<FrameView>, b: Seq<FrameView>)
    ensures
        stream_registry(reg, a + b) == stream_registry(stream_registry(reg, a), b),
        stream_samples(reg, a + b) == stream_samples(reg, a) + stream_samples(
            stream_registry(reg, a),
            b,
        ),
    decreases b.len(),
{
    if b.len() > 0 {
        assert((a + b).drop_last() =~= a + b.drop_last());
        stream_splits(reg, a, b.drop_last());
    }
}

/// The creation at index `j` of the frame at index `k` gives `id` a role.
pub open spec fn gives_role(fs: Seq<FrameView>, k: int, j: int, id: ActorId) -> bool {
    &&& 0 <= k < fs.len()
    &&& 0 <= j < fs[k].creations.len()
    &&& fs[k].creations[j].actor == id
    &&& classify_name(fs[k].creations[j].object_name) is Some
}

/// An actor that has a role keeps one: no frame removes an actor from the
/// registry.
pub proof fn registry_never_forgets(reg: Map<ActorId, Role>, fs: Seq<FrameView>, id: ActorId)
    requires
        reg.contains_key(id),
    ensures
        stream_registry(reg, fs).contains_key(id),
    decreases fs.len(),
{
    if fs.len() > 0 {
        registry_never_forgets(reg, fs.drop_last(), id);
        creations_override(stream_registry(reg, fs.drop_last()), fs.last().creations, id);
    }
}

/// A run of creations gives an actor a role only through a creation of that
/// actor whose object name has one.
pub proof fn role_comes_from_a_creation(cs: Seq<CreationView>, id: ActorId) -> (j: int)
    requires
        last_role(cs, id) is Some,
    ensures
        0 <= j < cs.len(),
        cs[j].actor == id,
        classify_name(cs[j].object_name) == last_role(cs, id),
    decreases cs.len(),
{
    if cs.last().actor == id && classify_name(cs.last().object_name) is Some {
        cs.len() - 1
    } else {
        role_comes_from_a_creation(cs.drop_last(), id)
    }
}

/// An actor is in the registry only if it was there from the start or some
/// frame created it under an object name that has a role.
pub proof fn registered_only_by_creation(reg: Map<ActorId, Role>, fs: Seq<FrameView>, id: ActorId)
    requires
        stream_registry(reg, fs).contains_key(id),
        !reg.contains_key(id),
    ensures
        exists|k: int, j: int| gives_role(fs, k, j, id),
    decreases fs.len(),
{
    let before = stream_registry(reg, fs.drop_last());
    creations_override(before, fs.last().creations, id);
    if last_role(fs.last().creations, id) is Some {
        let j = role_comes_from_a_creation(fs.last().creations, id);
        assert(gives_role(fs, fs.len() - 1, j, id));
    } else {
        registered_only_by_creation(reg, fs.drop_last(), id);
        let (k, j) = choose|k: int, j: int| gives_role(fs.drop_last(), k, j, id);
        assert(gives_role(fs, k, j, id));
    }
}

/// Every sample of a run of updates carries the time of the run, an actor
/// that has a role, and that role.
pub proof fn updates_sample_registered_actors(
    reg: Map<ActorId, Role>,
    time: Scalar,
    us: Seq<UpdateView>,
)
    ensures
        forall|i: int|
            0 <= i < updates_samples(reg, time, us).len() ==> {
                let s = #[trigger] updates_samples(reg, time, us)[i];
                s.time == time && reg.contains_key(s.actor) && s.role == reg[s.actor]
            },
    decreases us.len(),
{
    if us.len() > 0 {
        updates_sample_registered_actors(reg, time, us.drop_last());
        let last = us.last();
        if reg.contains_key(last.actor) {
            samples_carry_their_origin(time, reg[last.actor], last.actor, last.attributes);
        }
    }
}

/// Every sample of a stream belongs to an actor that the registry holds
/// when the stream is done.
pub proof fn stream_samples_registered_actors(reg: Map<ActorId, Role>, fs: Seq<FrameView>)
    ensures
        forall|i: int|
            0 <= i < stream_samples(reg, fs).len() ==> stream_registry(reg, fs).contains_key(
                (#[trigger] stream_samples(reg, fs)[i]).actor,
            ),
    decreases fs.len(),
{
    if fs.len() > 0 {
        let head = fs.drop_last();
        let mid = stream_registry(reg, head);
        let f = fs.last();
        stream_samples_registered_actors(reg, head);
        updates_sample_registered_actors(frame_registry(mid, f), f.time, f.updates);
        assert forall|i: int| 0 <= i < stream_samples(reg, fs).len() implies stream_registry(
            reg,
            fs,
        ).contains_key((#[trigger] stream_samples(reg, fs)[i]).actor) by {
            let s = stream_samples(reg, fs)[i];
            if i < stream_samples(reg, head).len() {
                assert(s == stream_samples(reg, head)[i]);
                creations_override(mid, f.creations, s.actor);
            } else {
                assert(s == frame_samples(mid, f)[i - stream_samples(reg, head).len()]);
            }
        }
    }
}

/// An actor that no frame creates under an object name with a role is
/// invisible: a stream that starts with an empty registry yields no sample
/// of it, whatever updates it receives.
pub proof fn never_registered_never_sampled(fs: Seq<FrameView>, id: ActorId)
    requires
        forall|k: int, j: int| !gives_role(fs, k, j, id),
    ensures
        !stream_registry(Map::empty(), fs).contains_key(id),
        forall|i: int|
            0 <= i < stream_samples(Map::empty(), fs).len() ==> (#[trigger] stream_samples(
                Map::empty(),
                fs,
            )[i]).actor != id,
{
    let start = Map::<ActorId, Role>::empty();
    if stream_registry(start, fs).contains_key(id) {
        registered_only_by_creation(start, fs, id);
    }
    stream_samples_registered_actors(start, fs);
}

/// A longer prefix of a stream yields at least as many samples as a shorter
/// one.
pub proof fn prefix_samples_grow(reg: Map<ActorId, Role>, fs: Seq<FrameView>, m: int, n: int)
    requires
        0 <= m <= n <= fs.len(),
    ensures
        stream_samples(reg, fs.take(m)).len() <= stream_samples(reg, fs.take(n)).len(),
    decreases n - m,
{
    if m < n {
        assert(fs.take(n).drop_last() =~= fs.take(n - 1));
        prefix_samples_grow(reg, fs, m, n - 1);
    }
}

/// Every sample of a stream comes from one of its frames and carries that
/// frame's time: the sample at index `i` lies behind the samples of the
/// frames before the frame `k`, and among those of the frames up to `k`.
pub proof fn sample_times_are_frame_times(
    reg: Map<ActorId, Role>,
    fs: Seq<FrameView>,
    i: int,
) -> (k: int)
    requires
        0 <= i < stream_samples(reg, fs).len(),
    ensures
        0 <= k < fs.len(),
        stream_samples(reg, fs)[i].time == fs[k].time,
        stream_samples(reg, fs.take(k)).len() <= i < stream_samples(reg, fs.take(k + 1)).len(),
    decreases fs.len(),
{
    let head = fs.drop_last();
    if i < stream_samples(reg, head).len() {
        let k = sample_times_are_frame_times(reg, head, i);
        assert(head.take(k + 1) =~= fs.take(k + 1));
        assert(head.take(k) =~= fs.take(k));
        k
    } else {
        updates_sample_registered_actors(
            frame_registry(stream_registry(reg, head), fs.last()),
            fs.last().time,
            fs.last().updates,
        );
        assert(fs.take(fs.len() as int) =~= fs);
        fs.len() - 1
    }
}

/// The samples come in the order of the frames: whatever relation holds
/// between the times of any frame and any later frame, and between the time
/// of a frame and itself, holds between the times of any sample and any
/// later sample. Where the frames are ordered by time, so are the samples.
pub proof fn samples_keep_frame_order(
    reg: Map<ActorId, Role>,
    fs: Seq<FrameView>,
    le: spec_fn(Scalar, Scalar) -> bool,
)
    requires
        forall|k: int, l: int|
            0 <= k <= l < fs.len() ==> le(#[trigger] fs[k].time, #[trigger] fs[l].time),
    ensures
        forall|i: int, j: int|
            0 <= i <= j < stream_samples(reg, fs).len() ==> le(
                #[trigger] stream_samples(reg, fs)[i].time,
                #[trigger] stream_samples(reg, fs)[j].time,
            ),
{
    assert forall|i: int, j: int| 0 <= i <= j < stream_samples(reg, fs).len() implies le(
        #[trigger] stream_samples(reg, fs)[i].time,
        #[trigger] stream_samples(reg, fs)[j].time,
    ) by {
        let k = sample_times_are_frame_times(reg, fs, i);
        let l = sample_times_are_frame_times(reg, fs, j);
        if l < k {
            prefix_samples_grow(reg, fs, l + 1, k);
        }
    }
}

} // verus!
