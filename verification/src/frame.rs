//! The decoded frames that the pipeline consumes.

use vstd::prelude::*;

verus! {

/// Identifies an actor for as long as it lives. An id may be handed out again
/// once its actor is gone.
pub type ActorId = u32;

/// A single-precision number, carried as its IEEE 754 bit pattern.
///
/// The pipeline never computes with times or coordinates. It only copies
/// them, which the bit pattern does without loss.
#[derive(Clone, Copy, Debug, PartialEq, Eq, Structural)]
pub struct Scalar {
    pub bits: u32,
}

impl Scalar {
    /// The number with the bit pattern `bits`.
    pub fn from_bits(bits: u32) -> (s: Scalar)
        ensures
            s.bits == bits,
    {
        Scalar { bits }
    }

    /// The bit pattern of the number.
    pub fn to_bits(self) -> (bits: u32)
        ensures
            bits == self.bits,
    {
        self.bits
    }
}

/// A point in space.
#[derive(Clone, Copy, Debug, PartialEq, Eq, Structural)]
pub struct Position {
    pub x: Scalar,
    pub y: Scalar,
    pub z: Scalar,
}

/// One attribute value of an actor update.
#[derive(Clone, Copy, Debug, PartialEq, Eq, Structural)]
pub enum Attribute {
    /// The state of a rigid body, of which only the location is kept.
    RigidBody(Position),
    /// Any other kind of attribute.
    Other,
}

/// Announces a new actor.
#[derive(Debug, PartialEq, Eq)]
pub struct ActorCreation {
    pub actor: ActorId,
    pub object_name: String,
}

/// What an [`ActorCreation`] is to specifications.
pub struct CreationView {
    pub actor: ActorId,
    pub object_name: Seq<char>,
}

impl View for ActorCreation {
    type V = CreationView;

    open spec fn view(&self) -> CreationView {
        CreationView { actor: self.actor, object_name: self.object_name@ }
    }
}

impl Clone for ActorCreation {
    fn clone(&self) -> (c: ActorCreation)
        ensures
            c@ == self@,
    {
        ActorCreation { actor: self.actor, object_name: self.object_name.clone() }
    }
}

/// Attribute values that one actor received in one frame.
#[derive(Debug, PartialEq, Eq)]
pub struct ActorUpdate {
    pub actor: ActorId,
    pub attributes: Vec<Attribute>,
}

/// What an [`ActorUpdate`] is to specifications.
pub struct UpdateView {
    pub actor: ActorId,
    pub attributes: Seq<Attribute>,
}

impl View for ActorUpdate {
    type V = UpdateView;

    open spec fn view(&self) -> UpdateView {
        UpdateView { actor: self.actor, attributes: self.attributes@ }
    }
}

impl Clone for ActorUpdate {
    fn clone(&self) -> (u: ActorUpdate)
        ensures
            u@ == self@,
    {
        ActorUpdate { actor: self.actor, attributes: self.attributes.clone() }
    }
}

/// One time-stamped step of the decoded network stream.
#[derive(Debug, PartialEq, Eq)]
pub struct Frame {
    pub time: Scalar,
    pub creations: Vec<ActorCreation>,
    pub updates: Vec<ActorUpdate>,
}

/// What a [`Frame`] is to specifications.
pub struct FrameView {
    pub time: Scalar,
    pub creations: Seq<CreationView>,
    pub updates: Seq<UpdateView>,
}

impl View for Frame {
    type V = FrameView;

    open spec fn view(&self) -> FrameView {
        FrameView {
            time: self.time,
            creations: self.creations@.map_values(|c: ActorCreation| c@),
            updates: self.updates@.map_values(|u: ActorUpdate| u@),
        }
    }
}

impl Clone for Frame {
    fn clone(&self) -> (f: Frame)
        ensures
            f@ == self@,
    {
        let creations = self.creations.clone();
        let updates = self.updates.clone();
        let f = Frame { time: self.time, creations, updates };
        assert(f@.creations =~= self@.creations);
        assert(f@.updates =~= self@.updates);
        f
    }
}

/// The views of a run of frames.
pub open spec fn frames_view(frames: Seq<Frame>) -> Seq<FrameView> {
    frames.map_values(|f: Frame| f@)
}

} // verus!
