//! The frame processor: what a stream of frames does to the registry and
//! which samples it yields.

use vstd::prelude::*;
use crate::frame::{
    frames_view, ActorCreation, ActorId, ActorUpdate, Attribute, CreationView, Frame, FrameView,
    Scalar, UpdateView,
};
use crate::registry::ActorRegistry;
use crate::role::{classify, classify_name, Role};
use crate::sample::{Sample, SampleCollector};

verus! {

/// The registry once the creation `c` was seen: the actor gets the role of
/// its object name, where that name has one.
pub open spec fn registry_after_creation(
    reg: Map<ActorId, Role>,
    c: CreationView,
) -> Map<ActorId, Role> {
    match classify_name(c.object_name) {
        Some(role) => reg.insert(c.actor, role),
        None => reg,
    }
}

/// The registry once the creations `cs` were seen, first to last.
pub open spec fn registry_after_creations(
    reg: Map<ActorId, Role>,
    cs: Seq<CreationView>,
) -> Map<ActorId, Role> {
    cs.fold_left(reg, |r: Map<ActorId, Role>, c: CreationView| registry_after_creation(r, c))
}

/// The sample that one attribute yields: that of a rigid body, and none for
/// any other attribute.
pub open spec fn attribute_sample(
    time: Scalar,
    role: Role,
    actor: ActorId,
    attribute: Attribute,
) -> Option<Sample> {
    match attribute {
        Attribute::RigidBody(position) => Some(Sample { time, role, actor, position }),
        Attribute::Other => None,
    }
}

/// The samples of one attribute list: one for each rigid body, in order.
pub open spec fn attribute_samples(
    time: Scalar,
    role: Role,
    actor: ActorId,
    attributes: Seq<Attribute>,
) -> Seq<Sample> {
    attributes.filter_map(|a: Attribute| attribute_sample(time, role, actor, a))
}

/// The samples of one update: those of its attributes under the actor's
/// role, and none where the actor has no role.
pub open spec fn update_samples(reg: Map<ActorId, Role>, time: Scalar, u: UpdateView) -> Seq<
    Sample,
> {
    if reg.contains_key(u.actor) {
        attribute_samples(time, reg[u.actor], u.actor, u.attributes)
    } else {
        Seq::empty()
    }
}

/// The samples of the updates `us`, first to last.
pub open spec fn updates_samples(
    reg: Map<ActorId, Role>,
    time: Scalar,
    us: Seq<UpdateView>,
) -> Seq<Sample>
    decreases us.len(),
{
    if us.len() == 0 {
        Seq::empty()
    } else {
        updates_samples(reg, time, us.drop_last()) + update_samples(reg, time, us.last())
    }
}

/// The registry once the frame `f` was processed.
pub open spec fn frame_registry(reg: Map<ActorId, Role>, f: FrameView) -> Map<ActorId, Role> {
    registry_after_creations(reg, f.creations)
}

/// The samples of the frame `f`. Its creations count before its updates.
pub open spec fn frame_samples(reg: Map<ActorId, Role>, f: FrameView) -> Seq<Sample> {
    updates_samples(frame_registry(reg, f), f.time, f.updates)
}

/// The registry once the frames `fs` were processed, first to last.
pub open spec fn stream_registry(reg: Map<ActorId, Role>, fs: Seq<FrameView>) -> Map<
    ActorId,
    Role,
> {
    fs.fold_left(reg, |r: Map<ActorId, Role>, f: FrameView| frame_registry(r, f))
}

/// The samples of the frames `fs`, first to last.
pub open spec fn stream_samples(reg: Map<ActorId, Role>, fs: Seq<FrameView>) -> Seq<Sample>
    decreases fs.len(),
{
    if fs.len() == 0 {
        Seq::empty()
    } else {
        stream_samples(reg, fs.drop_last()) + frame_samples(
            stream_registry(reg, fs.drop_last()),
            fs.last(),
        )
    }
}

/// Registers the new actor under the role of its object name, if it has one.
pub fn process_creation(registry: &mut ActorRegistry, creation: &ActorCreation)
    ensures
        final(registry)@ == registry_after_creation(old(registry)@, creation@),
        classify_name(creation@.object_name) is None ==> final(registry)@ == old(registry)@,
{
    match classify(creation.object_name.as_str()) {
        Some(role) => registry.register(creation.actor, role),
        None => {},
    }
}

/// Appends one sample for each rigid body among the attributes of `update`,
/// provided that its actor has a role.
pub fn process_update(
    registry: &ActorRegistry,
    collector: &mut SampleCollector,
    time: Scalar,
    update: &ActorUpdate,
)
    ensures
        final(collector)@ == old(collector)@ + update_samples(registry@, time, update@),
        !registry@.contains_key(update.actor) ==> final(collector)@ == old(collector)@,
{
    let role = match registry.lookup(update.actor) {
        Some(role) => role,
        None => {
            return ;
        },
    };
    let actor = update.actor;
    let mut i: usize = 0;
    while i < update.attributes.len()
        invariant
            i <= update.attributes.len(),
            collector@ == old(collector)@ + attribute_samples(
                time,
                role,
                actor,
                update.attributes@.take(i as int),
            ),
        decreases update.attributes.len() - i,
    {
        assert(update.attributes@.take(i + 1).drop_last() =~= update.attributes@.take(i as int));
        match update.attributes[i] {
            Attribute::RigidBody(position) => {
                collector.append(Sample { time, role, actor, position });
            },
            Attribute::Other => {},
        }
        i += 1;
    }
    assert(update.attributes@.take(i as int) =~= update.attributes@);
}

/// Processes one frame: first its creations, then its updates.
pub fn process_frame(registry: &mut ActorRegistry, collector: &mut SampleCollector, frame: &Frame)
    ensures
        final(registry)@ == frame_registry(old(registry)@, frame@),
        final(collector)@ == old(collector)@ + frame_samples(old(registry)@, frame@),
{
    let mut i: usize = 0;
    while i < frame.creations.len()
        invariant
            i <= frame.creations.len(),
            registry@ == registry_after_creations(old(registry)@, frame@.creations.take(i as int)),
        decreases frame.creations.len() - i,
    {
        assert(frame@.creations.take(i + 1).drop_last() =~= frame@.creations.take(i as int));
        process_creation(registry, &frame.creations[i]);
        i += 1;
    }
    let mut j: usize = 0;
    while j < frame.updates.len()
        invariant
            j <= frame.updates.len(),
            registry@ == frame_registry(old(registry)@, frame@),
            collector@ == old(collector)@ + updates_samples(
                registry@,
                frame.time,
                frame@.updates.take(j as int),
            ),
        decreases frame.updates.len() - j,
    {
        assert(frame@.updates.take(j + 1).drop_last() =~= frame@.updates.take(j as int));
        process_update(registry, collector, frame.time, &frame.updates[j]);
        j += 1;
    }
    assert(frame@.updates.take(j as int) =~= frame@.updates);
}

/// The samples of a whole stream of frames, starting with no actor known.
pub fn collect_samples(frames: &[Frame]) -> (samples: Vec<Sample>)
    ensures
        samples@ == stream_samples(Map::empty(), frames_view(frames@)),
{
    let mut registry = ActorRegistry::new();
    let mut collector = SampleCollector::new();
    let ghost fs = frames_view(frames@);
    let mut i: usize = 0;
    while i < frames.len()
        invariant
            i <= frames.len(),
            fs == frames_view(frames@),
            registry@ == stream_registry(Map::empty(), fs.take(i as int)),
            collector@ == stream_samples(Map::empty(), fs.take(i as int)),
        decreases frames.len() - i,
    {
        assert(fs.take(i + 1).drop_last() =~= fs.take(i as int));
        process_frame(&mut registry, &mut collector, &frames[i]);
        i += 1;
    }
    assert(fs.take(i as int) =~= fs);
    collector.finalize()
}

} // verus!
