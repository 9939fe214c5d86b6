//! Canonical data types: timestamps, raw messages, parsed points and the
//! point buffer.

use vstd::prelude::*;

use std::collections::VecDeque;

use crate::number::Number;

verus! {

/// Millisecond count since a fixed epoch. The type itself does not promise
/// monotonicity; callers supply it.
#[derive(Debug, Clone, Copy, PartialEq, Eq, Structural)]
pub struct Timestamp(pub u64);

impl Timestamp {
    /// Wrap a raw millisecond count.
    pub fn from_millis(millis: u64) -> (r: Self)
        ensures
            r.0 == millis,
    {
        Timestamp(millis)
    }

    /// The raw millisecond count.
    pub fn as_millis(&self) -> (r: u64)
        ensures
            r == self.0,
    {
        self.0
    }
}

impl From<u64> for Timestamp {
    fn from(v: u64) -> (r: Self)
        ensures
            r.0 == v,
    {
        Timestamp::from_millis(v)
    }
}

impl vstd::std_specs::convert::FromSpecImpl<u64> for Timestamp {
    open spec fn obeys_from_spec() -> bool {
        true
    }

    open spec fn from_spec(v: u64) -> Self {
        Timestamp(v)
    }
}

impl From<Timestamp> for u64 {
    fn from(t: Timestamp) -> (r: Self)
        ensures
            r == t.0,
    {
        t.as_millis()
    }
}

impl vstd::std_specs::convert::FromSpecImpl<Timestamp> for u64 {
    open spec fn obeys_from_spec() -> bool {
        true
    }

    open spec fn from_spec(t: Timestamp) -> u64 {
        t.0
    }
}

/// Whether a message travelled from the transport to us or the other way.
#[derive(Debug, Clone, Copy, PartialEq, Eq, Structural)]
pub enum Direction {
    In,
    Out,
}

impl Direction {
    /// A printable name for the direction.
    pub fn as_text(&self) -> (r: &'static str)
        ensures
            *self == Direction::In ==> r@ == "In"@,
            *self == Direction::Out ==> r@ == "Out"@,
    {
        match self {
            Direction::In => "In",
            Direction::Out => "Out",
        }
    }
}

/// The text that lossy UTF-8 decoding yields for the given bytes: what
/// `String::from_utf8_lossy` returns, a function of the bytes alone.
pub uninterp spec fn utf8_lossy(bytes: Seq<u8>) -> Seq<char>;

/// Relies on `String::from_utf8_lossy`: the decoded text depends on the
/// bytes alone, and no bytes decode to no text.
#[verifier::external_body]
fn utf8_lossy_string(bytes: &Vec<u8>) -> (r: String)
    ensures
        r@ == utf8_lossy(bytes@),
        bytes@.len() == 0 ==> r@.len() == 0,
{
    String::from_utf8_lossy(bytes.as_slice()).into_owned()
}

/// A raw line of traffic on a port: a timestamp, a direction, and the text
/// payload. Immutable after construction.
#[derive(Debug)]
pub struct Message {
    pub timestamp: Timestamp,
    pub direction: Direction,
    pub text: String,
}

impl Message {
    pub fn new(timestamp: Timestamp, direction: Direction, text: String) -> (r: Self)
        ensures
            r.timestamp == timestamp,
            r.direction == direction,
            r.text@ == text@,
    {
        Message { timestamp, direction, text }
    }

    pub fn timestamp(&self) -> (r: Timestamp)
        ensures
            r == self.timestamp,
    {
        self.timestamp
    }

    pub fn direction(&self) -> (r: Direction)
        ensures
            r == self.direction,
    {
        self.direction
    }

    pub fn text(&self) -> (r: &str)
        ensures
            r@ == self.text@,
    {
        self.text.as_str()
    }

    /// The message a transport read produces: the bytes decoded lossily
    /// as UTF-8, stamped inbound at the given time. A zero-byte read is
    /// not an error; it yields an empty-text message.
    pub fn from_read_bytes(now: Timestamp, bytes: Vec<u8>) -> (r: Self)
        ensures
            r.timestamp == now,
            r.direction == Direction::In,
            r.text@ == utf8_lossy(bytes@),
            bytes@.len() == 0 ==> r.text@.len() == 0,
    {
        Message::new(now, Direction::In, utf8_lossy_string(&bytes))
    }
}

impl Clone for Message {
    fn clone(&self) -> (r: Self)
        ensures
            r.timestamp == self.timestamp,
            r.direction == self.direction,
            r.text@ == self.text@,
    {
        Message {
            timestamp: self.timestamp,
            direction: self.direction,
            text: self.text.clone(),
        }
    }
}

impl PartialEq for Message {
    fn eq(&self, other: &Self) -> (r: bool)
        ensures
            r == (self.timestamp == other.timestamp && self.direction == other.direction
                && self.text@ == other.text@),
    {
        self.timestamp == other.timestamp && self.direction == other.direction
            && crate::text::str_eq(self.text.as_str(), other.text.as_str())
    }
}

impl vstd::std_specs::cmp::PartialEqSpecImpl for Message {
    open spec fn obeys_eq_spec() -> bool {
        true
    }

    open spec fn eq_spec(&self, other: &Self) -> bool {
        self.timestamp == other.timestamp && self.direction == other.direction && self.text@
            == other.text@
    }
}

/// A single observation: a timestamp, an optional label, and a numeric
/// value. Immutable once built.
#[derive(Debug)]
pub struct Point {
    pub timestamp: Timestamp,
    pub label: Option<String>,
    pub value: Number,
}

impl Point {
    /// Whether this point carries `name` as its label. Unlabeled points
    /// match no name.
    pub open spec fn labeled(&self, name: Seq<char>) -> bool {
        match self.label {
            Some(l) => l@ == name,
            None => false,
        }
    }

    /// Create an unlabeled point. The timestamp is required, to keep time
    /// handling explicit.
    pub fn new(timestamp: Timestamp, value: Number) -> (r: Self)
        ensures
            r.timestamp == timestamp,
            r.label is None,
            r.value == value,
    {
        Point { timestamp, label: None, value }
    }

    /// The same point, with `label` attached.
    pub fn with_label(self, label: String) -> (r: Self)
        ensures
            r.timestamp == self.timestamp,
            r.label matches Some(l) && l@ == label@,
            r.value == self.value,
    {
        Point { timestamp: self.timestamp, label: Some(label), value: self.value }
    }

    pub fn timestamp(&self) -> (r: Timestamp)
        ensures
            r == self.timestamp,
    {
        self.timestamp
    }

    pub fn label(&self) -> (r: Option<&str>)
        ensures
            match r {
                Some(l) => self.label matches Some(s) && s@ == l@,
                None => self.label is None,
            },
    {
        match &self.label {
            Some(l) => Some(l.as_str()),
            None => None,
        }
    }

    pub fn value(&self) -> (r: &Number)
        ensures
            r == self.value,
    {
        &self.value
    }
}

impl Clone for Point {
    fn clone(&self) -> (r: Self)
        ensures
            r == *self,
    {
        let label = match &self.label {
            Some(l) => Some(l.clone()),
            None => None,
        };
        let r = Point { timestamp: self.timestamp, label, value: self.value.clone() };
        proof {
            assert(r.label == self.label);
        }
        r
    }
}

/// The points of `s` whose label equals `name`, in their original order.
pub open spec fn points_with_label(s: Seq<Point>, name: Seq<char>) -> Seq<Point> {
    s.filter(|p: Point| p.labeled(name))
}

/// Insertion-ordered container of points.
///
/// The capacity passed to [`PointBuffer::new`] is an allocation hint, not
/// a bound: the buffer grows without evicting old points. Callers that
/// want a hard cap must drop points themselves.
#[derive(Debug)]
pub struct PointBuffer(VecDeque<Point>);

impl View for PointBuffer {
    type V = Seq<Point>;

    closed spec fn view(&self) -> Seq<Point> {
        self.0@
    }
}

impl PointBuffer {
    /// An empty buffer with room reserved for `capacity` points.
    pub fn new(capacity: usize) -> (r: Self)
        ensures
            r@ == Seq::<Point>::empty(),
    {
        PointBuffer(VecDeque::with_capacity(capacity))
    }

    /// Append a point.
    pub fn push(&mut self, point: Point)
        ensures
            final(self)@ == old(self)@.push(point),
    {
        self.0.push_back(point);
    }

    /// Append an unlabeled point with the given timestamp and value.
    pub fn push_value(&mut self, timestamp: Timestamp, value: Number)
        ensures
            final(self)@.len() == old(self)@.len() + 1,
            final(self)@.subrange(0, old(self)@.len() as int) == old(self)@,
            final(self)@.last().timestamp == timestamp,
            final(self)@.last().label is None,
            final(self)@.last().value == value,
    {
        let p = Point::new(timestamp, value);
        self.push(p);
        proof {
            assert(final(self)@.subrange(0, old(self)@.len() as int) =~= old(self)@);
        }
    }

    /// The most recently pushed point, if any.
    pub fn last(&self) -> (r: Option<&Point>)
        ensures
            match r {
                Some(p) => self@.len() > 0 && *p == self@.last(),
                None => self@.len() == 0,
            },
    {
        let n = self.0.len();
        if n == 0 {
            None
        } else {
            Some(&self.0[n - 1])
        }
    }

    /// Discard all points.
    pub fn clear(&mut self)
        ensures
            final(self)@ == Seq::<Point>::empty(),
    {
        self.0.clear();
    }

    /// The number of points held.
    pub fn len(&self) -> (r: usize)
        ensures
            r == self@.len(),
    {
        self.0.len()
    }

    /// Whether the buffer holds no points.
    pub fn is_empty(&self) -> (r: bool)
        ensures
            r == (self@.len() == 0),
    {
        self.0.len() == 0
    }

    /// All points, in insertion order.
    pub fn iter(&self) -> (r: Vec<Point>)
        ensures
            r@ == self@,
    {
        let n = self.0.len();
        let mut out: Vec<Point> = Vec::new();
        let mut i: usize = 0;
        while i < n
            invariant
                i <= n,
                n == self@.len(),
                out@ == self@.subrange(0, i as int),
            decreases n - i,
        {
            out.push(self.0[i].clone());
            assert(out@ =~= self@.subrange(0, i + 1 as int));
            i = i + 1;
        }
        proof {
            assert(out@ =~= self@);
        }
        out
    }

    /// The points whose label equals `name`, in insertion order.
    /// Unlabeled points are excluded.
    pub fn iter_by_name(&self, name: &str) -> (r: Vec<Point>)
        ensures
            r@ == points_with_label(self@, name@),
    {
        let ghost pred = |p: Point| p.labeled(name@);
        let n = self.0.len();
        let mut out: Vec<Point> = Vec::new();
        let mut i: usize = 0;
        proof {
            reveal(vstd::seq::Seq::filter);
            assert(self@.subrange(0, 0).filter(pred) =~= Seq::<Point>::empty());
        }
        while i < n
            invariant
                i <= n,
                n == self@.len(),
                out@ == self@.subrange(0, i as int).filter(pred),
                pred == (|p: Point| p.labeled(name@)),
            decreases n - i,
        {
            let p = &self.0[i];
            let matches_name = match p.label() {
                Some(l) => crate::text::str_eq(l, name),
                None => false,
            };
            proof {
                reveal(vstd::seq::Seq::filter);
                let pre = self@.subrange(0, i + 1 as int);
                assert(pre.drop_last() =~= self@.subrange(0, i as int));
                assert(pre.last() == self@[i as int]);
            }
            if matches_name {
                out.push(p.clone());
            }
            i = i + 1;
        }
        proof {
            assert(self@.subrange(0, n as int) =~= self@);
        }
        out
    }

    /// A new buffer holding only the points whose label equals `name`.
    pub fn filtered_by_name(&self, name: &str) -> (r: Self)
        ensures
            r@ == points_with_label(self@, name@),
    {
        let points = self.iter_by_name(name);
        let mut q: VecDeque<Point> = VecDeque::new();
        let n = points.len();
        let mut i: usize = 0;
        while i < n
            invariant
                i <= n,
                n == points@.len(),
                q@ == points@.subrange(0, i as int),
            decreases n - i,
        {
            q.push_back(points[i].clone());
            assert(q@ =~= points@.subrange(0, i + 1 as int));
            i = i + 1;
        }
        proof {
            assert(q@ =~= points@);
        }
        PointBuffer(q)
    }
}

impl Clone for PointBuffer {
    fn clone(&self) -> (r: Self)
        ensures
            r@ == self@,
    {
        let q = self.0.clone();
        proof {
            assert forall|i: int| 0 <= i < self.0@.len() implies q@[i] == self.0@[i] by {
                assert(vstd::pervasive::cloned::<Point>(self.0@[i], q@[i]));
            }
            assert(q@ =~= self.0@);
        }
        PointBuffer(q)
    }
}

impl Default for PointBuffer {
    /// An empty buffer with the default capacity hint.
    fn default() -> (r: Self)
        ensures
            r@ == Seq::<Point>::empty(),
    {
        PointBuffer::new(1000)
    }
}

} // verus!
