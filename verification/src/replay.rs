//! Reading frames out of a replay that `boxcars` decoded.
//!
//! Verus sees nothing inside a `boxcars::Replay`. What this module reads of
//! one is named by `replay_objects` and `replay_frames`, and a handful of
//! small accessors with assumed contracts hand those parts out one value at
//! a time. Everything built on top of them is verified.

use vstd::prelude::*;
use crate::frame::{
    frames_view, ActorCreation, ActorId, ActorUpdate, Attribute, CreationView, Frame, FrameView,
    Position, Scalar, UpdateView,
};
use crate::processor::{collect_samples, stream_samples};
use crate::sample::Sample;

verus! {

/// `boxcars::Replay`, a decoded replay. Opaque to Verus.
#[verifier::external_type_specification]
#[verifier::external_body]
pub struct ExReplay(boxcars::Replay);

/// `boxcars::ParseError`, the reason why bytes are no replay. Opaque to Verus.
#[verifier::external_type_specification]
#[verifier::external_body]
pub struct ExParseError(boxcars::ParseError);

/// A new actor as the decoder reports it: its id and the index of its object
/// type in the replay's object table.
#[derive(Clone, Copy, Debug, PartialEq, Eq, Structural)]
pub struct NewActor {
    pub actor: ActorId,
    pub object: usize,
}

/// One updated attribute as the decoder reports it.
#[derive(Clone, Copy, Debug, PartialEq, Eq, Structural)]
pub struct AttributeUpdate {
    pub actor: ActorId,
    pub attribute: Attribute,
}

/// One network frame as the decoder reports it.
pub struct DecodedFrame {
    pub time: Scalar,
    pub new_actors: Seq<NewActor>,
    pub updates: Seq<AttributeUpdate>,
}

/// What this crate reads of a decoded replay.
pub struct ReplayView {
    /// The names of the object types, by index.
    pub objects: Seq<Seq<char>>,
    /// The network frames, where the replay has network data.
    pub frames: Option<Seq<DecodedFrame>>,
}

/// The object table of a replay: the field `objects` of `boxcars::Replay`.
pub uninterp spec fn replay_objects(replay: boxcars::Replay) -> Seq<Seq<char>>;

/// The network frames of a replay: the field `network_frames` of
/// `boxcars::Replay`, each frame reduced to its time, its new actors and its
/// updated attributes, and each attribute to a rigid body's location or
/// nothing.
pub uninterp spec fn replay_frames(replay: boxcars::Replay) -> Option<Seq<DecodedFrame>>;

/// What `boxcars::ParserBuilder::parse` makes of the bytes `data` when it
/// must parse the network data: the view of the replay, or nothing where it
/// fails.
pub uninterp spec fn parsed(data: Seq<u8>) -> Option<ReplayView>;

/// What this crate reads of `replay`.
pub open spec fn replay_view(replay: boxcars::Replay) -> ReplayView {
    ReplayView { objects: replay_objects(replay), frames: replay_frames(replay) }
}

/// Calls `boxcars::ParserBuilder::new(data).must_parse_network_data().parse()`.
///
/// Assumed: decoding is a function of the bytes alone. Whether it succeeds,
/// and what this crate reads of the replay that comes out, are the same for
/// the same bytes. Nothing is assumed of which bytes decode, nor of what
/// they decode to. That the decoder returns on every input is taken from its
/// documentation, which states that it is fuzzed against malicious input.
#[verifier::external_body]
fn parse(data: &[u8]) -> (r: Result<boxcars::Replay, boxcars::ParseError>)
    ensures
        match r {
            Ok(replay) => parsed(data@) == Some(replay_view(replay)),
            Err(_) => parsed(data@) is None,
        },
{
    boxcars::ParserBuilder::new(data).must_parse_network_data().parse()
}

/// Reads `replay.objects.get(index)` and clones the name.
///
/// Assumed: the result is the entry of the object table at `index`, and
/// nothing where the table is shorter.
#[verifier::external_body]
fn object_name(replay: &boxcars::Replay, index: usize) -> (name: Option<String>)
    ensures
        match name {
            Some(n) => index < replay_objects(*replay).len() && n@ == replay_objects(
                *replay,
            )[index as int],
            None => index >= replay_objects(*replay).len(),
        },
{
    replay.objects.get(index).cloned()
}

/// Reads the length of `replay.network_frames`'s `frames`.
///
/// Assumed: the result is the number of network frames, and nothing where
/// the replay has no network data.
#[verifier::external_body]
fn frame_count(replay: &boxcars::Replay) -> (n: Option<usize>)
    ensures
        match n {
            Some(k) => replay_frames(*replay) matches Some(fs) && fs.len() == k,
            None => replay_frames(*replay) is None,
        },
{
    match &replay.network_frames {
        Some(network) => Some(network.frames.len()),
        None => None,
    }
}

/// Reads the field `time` of the frame at `frame` as its bit pattern
/// (`to_bits`).
#[verifier::external_body]
fn frame_time(replay: &boxcars::Replay, frame: usize) -> (time: Scalar)
    requires
        replay_frames(*replay) matches Some(fs) && frame < fs.len(),
    ensures
        time == replay_frames(*replay)->0[frame as int].time,
{
    Scalar { bits: replay.network_frames.as_ref().unwrap().frames[frame].time.to_bits() }
}

/// Reads the length of the field `new_actors` of the frame at `frame`.
#[verifier::external_body]
fn new_actor_count(replay: &boxcars::Replay, frame: usize) -> (n: usize)
    requires
        replay_frames(*replay) matches Some(fs) && frame < fs.len(),
    ensures
        n == replay_frames(*replay)->0[frame as int].new_actors.len(),
{
    replay.network_frames.as_ref().unwrap().frames[frame].new_actors.len()
}

/// Reads the entry at `index` of the field `new_actors` of the frame at
/// `frame`: its actor id, with the same 32 bits taken as unsigned, and its
/// object id as `boxcars` itself turns it into an index (`usize::from`).
#[verifier::external_body]
fn new_actor(replay: &boxcars::Replay, frame: usize, index: usize) -> (a: NewActor)
    requires
        replay_frames(*replay) matches Some(fs) && frame < fs.len() && index
            < fs[frame as int].new_actors.len(),
    ensures
        a == replay_frames(*replay)->0[frame as int].new_actors[index as int],
{
    let a = &replay.network_frames.as_ref().unwrap().frames[frame].new_actors[index];
    NewActor { actor: a.actor_id.0 as u32, object: usize::from(a.object_id) }
}

/// Reads the length of the field `updated_actors` of the frame at `frame`.
#[verifier::external_body]
fn update_count(replay: &boxcars::Replay, frame: usize) -> (n: usize)
    requires
        replay_frames(*replay) matches Some(fs) && frame < fs.len(),
    ensures
        n == replay_frames(*replay)->0[frame as int].updates.len(),
{
    replay.network_frames.as_ref().unwrap().frames[frame].updated_actors.len()
}

/// Reads the entry at `index` of the field `updated_actors` of the frame at
/// `frame`: its actor id, with the same 32 bits taken as unsigned, and of its
/// attribute the bit patterns of the location where it is
/// `boxcars::Attribute::RigidBody`.
#[verifier::external_body]
fn attribute_update(replay: &boxcars::Replay, frame: usize, index: usize) -> (u: AttributeUpdate)
    requires
        replay_frames(*replay) matches Some(fs) && frame < fs.len() && index
            < fs[frame as int].updates.len(),
    ensures
        u == replay_frames(*replay)->0[frame as int].updates[index as int],
{
    let u = &replay.network_frames.as_ref().unwrap().frames[frame].updated_actors[index];
    let attribute = match &u.attribute {
        boxcars::Attribute::RigidBody(body) => Attribute::RigidBody(
            Position {
                x: Scalar { bits: body.location.x.to_bits() },
                y: Scalar { bits: body.location.y.to_bits() },
                z: Scalar { bits: body.location.z.to_bits() },
            },
        ),
        _ => Attribute::Other,
    };
    AttributeUpdate { actor: u.actor_id.0 as u32, attribute }
}

/// Why no samples came out of a replay.
#[derive(Debug)]
pub enum ExtractError {
    /// The bytes are no replay that the decoder can read.
    MalformedSource(boxcars::ParseError),
    /// The replay holds no network data, so there is no frame stream.
    InputUnavailable,
    /// A new actor names an object type outside the replay's object table.
    UnknownObject,
}

/// Every new actor of `f` names an entry of `objects`.
pub open spec fn objects_known(objects: Seq<Seq<char>>, f: DecodedFrame) -> bool {
    forall|j: int|
        0 <= j < f.new_actors.len() ==> (#[trigger] f.new_actors[j]).object < objects.len()
}

/// Every new actor of every frame of `fs` names an entry of `objects`.
pub open spec fn all_objects_known(objects: Seq<Seq<char>>, fs: Seq<DecodedFrame>) -> bool {
    forall|i: int| 0 <= i < fs.len() ==> objects_known(objects, #[trigger] fs[i])
}

/// The creation that the new actor `a` stands for: its object's name is
/// looked up in `objects`.
pub open spec fn resolve_new_actor(objects: Seq<Seq<char>>, a: NewActor) -> CreationView {
    CreationView { actor: a.actor, object_name: objects[a.object as int] }
}

/// The update that `u` stands for: one actor with one attribute.
pub open spec fn resolve_update(u: AttributeUpdate) -> UpdateView {
    UpdateView { actor: u.actor, attributes: seq![u.attribute] }
}

/// The frame that `f` stands for, in the shape that the processor takes.
pub open spec fn resolve_frame(objects: Seq<Seq<char>>, f: DecodedFrame) -> FrameView {
    FrameView {
        time: f.time,
        creations: f.new_actors.map_values(|a: NewActor| resolve_new_actor(objects, a)),
        updates: f.updates.map_values(|u: AttributeUpdate| resolve_update(u)),
    }
}

/// The frames that `fs` stand for.
pub open spec fn resolve_frames(objects: Seq<Seq<char>>, fs: Seq<DecodedFrame>) -> Seq<FrameView> {
    fs.map_values(|f: DecodedFrame| resolve_frame(objects, f))
}

/// The frame at index `frame`, or nothing where one of its new actors names
/// no entry of the object table.
fn frame_at(replay: &boxcars::Replay, frame: usize) -> (r: Option<Frame>)
    requires
        replay_frames(*replay) matches Some(fs) && frame < fs.len(),
    ensures
        match r {
            Some(f) => {
                &&& objects_known(replay_objects(*replay), replay_frames(*replay)->0[frame as int])
                &&& f@ == resolve_frame(
                    replay_objects(*replay),
                    replay_frames(*replay)->0[frame as int],
                )
            },
            None => !objects_known(
                replay_objects(*replay),
                replay_frames(*replay)->0[frame as int],
            ),
        },
{
    let ghost objects = replay_objects(*replay);
    let ghost decoded = replay_frames(*replay)->0[frame as int];
    let ghost wanted = resolve_frame(objects, decoded);
    let time = frame_time(replay, frame);

    let mut creations: Vec<ActorCreation> = Vec::new();
    let creation_count = new_actor_count(replay, frame);
    let mut i: usize = 0;
    while i < creation_count
        invariant
            i <= creation_count,
            creation_count == decoded.new_actors.len(),
            replay_frames(*replay) matches Some(fs) && frame < fs.len(),
            decoded == replay_frames(*replay)->0[frame as int],
            objects == replay_objects(*replay),
            wanted == resolve_frame(objects, decoded),
            creations@.len() == i,
            forall|j: int| 0 <= j < i ==> (#[trigger] decoded.new_actors[j]).object < objects.len(),
            forall|j: int| 0 <= j < i ==> (#[trigger] creations@[j])@ == wanted.creations[j],
        decreases creation_count - i,
    {
        let a = new_actor(replay, frame, i);
        match object_name(replay, a.object) {
            Some(object_name) => {
                creations.push(ActorCreation { actor: a.actor, object_name });
            },
            None => {
                return None;
            },
        }
        i += 1;
    }

    let mut updates: Vec<ActorUpdate> = Vec::new();
    let updated = update_count(replay, frame);
    let mut k: usize = 0;
    while k < updated
        invariant
            k <= updated,
            updated == decoded.updates.len(),
            replay_frames(*replay) matches Some(fs) && frame < fs.len(),
            decoded == replay_frames(*replay)->0[frame as int],
            wanted == resolve_frame(objects, decoded),
            updates@.len() == k,
            forall|j: int| 0 <= j < k ==> (#[trigger] updates@[j])@ == wanted.updates[j],
        decreases updated - k,
    {
        let u = attribute_update(replay, frame, k);
        let mut attributes: Vec<Attribute> = Vec::new();
        attributes.push(u.attribute);
        updates.push(ActorUpdate { actor: u.actor, attributes });
        k += 1;
    }

    let f = Frame { time, creations, updates };
    assert(f@.creations =~= wanted.creations);
    assert(f@.updates =~= wanted.updates);
    Some(f)
}

/// The frames of a decoded replay, in the shape that the processor takes.
///
/// Fails where the replay holds no network data, and where a new actor
/// names an object type that the replay's object table does not hold.
pub fn frames_of(replay: &boxcars::Replay) -> (r: Result<Vec<Frame>, ExtractError>)
    ensures
        match r {
            Ok(frames) => {
                &&& replay_frames(*replay) matches Some(fs)
                &&& all_objects_known(replay_objects(*replay), fs)
                &&& frames_view(frames@) == resolve_frames(replay_objects(*replay), fs)
            },
            Err(ExtractError::InputUnavailable) => replay_frames(*replay) is None,
            Err(ExtractError::UnknownObject) => {
                &&& replay_frames(*replay) matches Some(fs)
                &&& !all_objects_known(replay_objects(*replay), fs)
            },
            Err(ExtractError::MalformedSource(_)) => false,
        },
{
    let count = match frame_count(replay) {
        Some(count) => count,
        None => {
            return Err(ExtractError::InputUnavailable);
        },
    };
    let ghost objects = replay_objects(*replay);
    let ghost fs = replay_frames(*replay)->0;
    let mut frames: Vec<Frame> = Vec::new();
    let mut i: usize = 0;
    while i < count
        invariant
            i <= count,
            count == fs.len(),
            replay_frames(*replay) == Some(fs),
            objects == replay_objects(*replay),
            frames@.len() == i,
            forall|j: int| 0 <= j < i ==> objects_known(objects, #[trigger] fs[j]),
            forall|j: int| 0 <= j < i ==> (#[trigger] frames@[j])@ == resolve_frame(objects, fs[j]),
        decreases count - i,
    {
        match frame_at(replay, i) {
            Some(f) => {
                frames.push(f);
            },
            None => {
                return Err(ExtractError::UnknownObject);
            },
        }
        i += 1;
    }
    Ok(frames)
}

/// What decoding and processing make of the bytes of a replay file.
pub open spec fn extraction(data: Seq<u8>) -> Option<Seq<Sample>> {
    match parsed(data) {
        Some(replay) => match replay.frames {
            Some(fs) => if all_objects_known(replay.objects, fs) {
                Some(stream_samples(Map::empty(), resolve_frames(replay.objects, fs)))
            } else {
                None
            },
            None => None,
        },
        None => None,
    }
}

/// Decodes the bytes of a replay file and collects the position samples of
/// its ball and cars, in the order of the frames.
///
/// Fails where the decoder rejects the bytes, where the replay holds no
/// network data, and where a new actor names an unknown object type.
pub fn extract_samples(data: &[u8]) -> (r: Result<Vec<Sample>, ExtractError>)
    ensures
        match r {
            Ok(samples) => extraction(data@) == Some(samples@),
            Err(ExtractError::MalformedSource(_)) => parsed(data@) is None,
            Err(ExtractError::InputUnavailable) => parsed(data@) matches Some(replay)
                && replay.frames is None,
            Err(ExtractError::UnknownObject) => {
                &&& parsed(data@) matches Some(replay)
                &&& replay.frames matches Some(fs)
                &&& !all_objects_known(replay.objects, fs)
            },
        },
{
    let replay = match parse(data) {
        Ok(replay) => replay,
        Err(e) => {
            return Err(ExtractError::MalformedSource(e));
        },
    };
    let frames = match frames_of(&replay) {
        Ok(frames) => frames,
        Err(e) => {
            return Err(e);
        },
    };
    Ok(collect_samples(frames.as_slice()))
}

} // verus!
