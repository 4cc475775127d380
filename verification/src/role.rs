//! Roles of tracked actors and the classification of object names.

use vstd::prelude::*;

verus! {

/// What a tracked actor is.
#[derive(Clone, Copy, Debug, PartialEq, Eq, Structural)]
pub enum Role {
    Ball,
    Car,
}

/// `needle` occurs in `hay` with its first character at index `at`.
pub open spec fn occurs_at(hay: Seq<char>, needle: Seq<char>, at: int) -> bool {
    &&& 0 <= at
    &&& at + needle.len() <= hay.len()
    &&& hay.subrange(at, at + needle.len()) == needle
}

/// `needle` occurs somewhere in `hay` as a contiguous run of characters.
pub open spec fn contains_seq(hay: Seq<char>, needle: Seq<char>) -> bool {
    exists|at: int| occurs_at(hay, needle, at)
}

/// The characters of `s`, in order.
pub fn chars_of(s: &str) -> (v: Vec<char>)
    ensures
        v@ == s@,
{
    let mut v: Vec<char> = Vec::new();
    for c in it: s.chars()
        invariant
            it.seq() == s@,
            v@ == s@.take(it.index()),
    {
        v.push(c);
    }
    v
}

/// Whether `needle` occurs in `hay` at index `at`.
fn matches_at(hay: &Vec<char>, needle: &Vec<char>, at: usize) -> (r: bool)
    requires
        at + needle.len() <= hay.len(),
    ensures
        r == occurs_at(hay@, needle@, at as int),
{
    let mut k: usize = 0;
    while k < needle.len()
        invariant
            k <= needle.len(),
            at + needle.len() <= hay.len(),
            forall|j: int| 0 <= j < k ==> hay@[at + j] == needle@[j],
        decreases needle.len() - k,
    {
        if hay[at + k] != needle[k] {
            return false;
        }
        k += 1;
    }
    assert(hay@.subrange(at as int, at + needle.len()) =~= needle@);
    true
}

/// Whether `needle` occurs somewhere in `hay`.
pub fn contains_chars(hay: &Vec<char>, needle: &Vec<char>) -> (r: bool)
    ensures
        r == contains_seq(hay@, needle@),
{
    if needle.len() > hay.len() {
        return false;
    }
    let last: usize = hay.len() - needle.len();
    let mut at: usize = 0;
    loop
        invariant
            at <= last,
            last == hay.len() - needle.len(),
            forall|i: int| 0 <= i < at ==> !occurs_at(hay@, needle@, i),
        decreases last - at,
    {
        if matches_at(hay, needle, at) {
            return true;
        }
        if at == last {
            return false;
        }
        at += 1;
    }
}

/// Object-name markers of the ball.
pub const BALL_MARKERS: [&'static str; 2] = ["Ball_TA", "Ball_Default"];

/// Object-name markers of a car.
pub const CAR_MARKERS: [&'static str; 2] = ["Car_TA", "Car_Default"];

/// `name` contains at least one of `markers`.
pub open spec fn contains_any(name: Seq<char>, markers: Seq<&'static str>) -> bool {
    exists|k: int| 0 <= k < markers.len() && contains_seq(name, #[trigger] markers[k]@)
}

/// Whether `name` contains one of `markers`.
fn contains_any_marker(name: &Vec<char>, markers: &[&'static str]) -> (r: bool)
    ensures
        r == contains_any(name@, markers@),
{
    let mut k: usize = 0;
    while k < markers.len()
        invariant
            k <= markers.len(),
            forall|j: int| 0 <= j < k ==> !contains_seq(name@, #[trigger] markers@[j]@),
        decreases markers.len() - k,
    {
        let marker = chars_of(markers[k]);
        if contains_chars(name, &marker) {
            return true;
        }
        k += 1;
    }
    false
}

/// An object name that marks the ball.
pub open spec fn is_ball_name(name: Seq<char>) -> bool {
    contains_any(name, BALL_MARKERS@)
}

/// An object name that marks a car.
pub open spec fn is_car_name(name: Seq<char>) -> bool {
    contains_any(name, CAR_MARKERS@)
}

/// Whether the object name `name` is that of the ball.
pub fn is_ball(name: &str) -> (r: bool)
    ensures
        r == is_ball_name(name@),
{
    let chars = chars_of(name);
    contains_any_marker(&chars, &BALL_MARKERS)
}

/// Whether the object name `name` is that of a car.
pub fn is_car(name: &str) -> (r: bool)
    ensures
        r == is_car_name(name@),
{
    let chars = chars_of(name);
    contains_any_marker(&chars, &CAR_MARKERS)
}

/// The role that the object name `name` stands for: the ball where it holds
/// a ball marker, else a car where it holds a car marker, else none.
pub open spec fn classify_name(name: Seq<char>) -> Option<Role> {
    if is_ball_name(name) {
        Some(Role::Ball)
    } else if is_car_name(name) {
        Some(Role::Car)
    } else {
        None
    }
}

/// Classifies an actor by the name of its object type.
pub fn classify(object_name: &str) -> (role: Option<Role>)
    ensures
        role == classify_name(object_name@),
{
    let chars = chars_of(object_name);
    if contains_any_marker(&chars, &BALL_MARKERS) {
        Some(Role::Ball)
    } else if contains_any_marker(&chars, &CAR_MARKERS) {
        Some(Role::Car)
    } else {
        None
    }
}

impl Role {
    /// The tag under which the role is written out.
    pub open spec fn tag_spec(self) -> Seq<char> {
        match self {
            Role::Ball => "ball"@,
            Role::Car => "car"@,
        }
    }

    /// The tag under which the role is written out: `"ball"` or `"car"`.
    pub fn tag(self) -> (t: &'static str)
        ensures
            t@ == self.tag_spec(),
    {
        match self {
            Role::Ball => "ball",
            Role::Car => "car",
        }
    }
}

} // verus!
