//! Configuration of a connection, resolved once when it is made.

use std::time::Duration;
use vstd::prelude::*;
use vstd::std_specs::cmp::PartialEqSpecImpl;

verus! {

/// The length of a duration in nanoseconds.
pub uninterp spec fn duration_nanos(d: Duration) -> nat;

/// `Duration::as_nanos` gives the length of the duration in nanoseconds.
pub assume_specification[ Duration::as_nanos ](d: &Duration) -> (nanos: u128)
    ensures
        nanos == duration_nanos(*d),
;

/// `Duration::from_millis` makes a duration of that many milliseconds, which
/// is a million nanoseconds each.
pub assume_specification[ Duration::from_millis ](millis: u64) -> (d: Duration)
    ensures
        duration_nanos(d) == millis * 1_000_000,
;

/// The frame limit that stands for "no limit".
pub const UNLIMITED_FRAME_SIZE: usize = usize::MAX;

/// The default limit on one incoming frame: 64 MiB.
pub const DEFAULT_MAX_FRAME_SIZE: usize = 67_108_864;

/// The default read timeout, in milliseconds.
pub const DEFAULT_READ_TIMEOUT_MILLIS: u64 = 10;

/// Options for a connection. Immutable once the connection is made.
///
/// Two sets of options are equal when they hold the same limit, the same
/// headers and subprotocols in the same order, and timeouts of the same
/// length; a clone is equal to what it was made from.
#[derive(Debug)]
pub struct Options {
    /// The largest incoming frame that is accepted, in bytes. Guards against a
    /// peer that would fill the memory. `usize::MAX` switches the limit off.
    ///
    /// A hosted connection has no such knob and ignores it.
    pub max_incoming_frame_size: usize,
    /// Headers added to the handshake request, in this order.
    pub additional_headers: Vec<(String, String)>,
    /// Subprotocols asked for in the handshake request, in this order.
    pub subprotocols: Vec<String>,
    /// How long one read may block the worker. `None` and zero both mean
    /// that a read blocks until something arrives.
    pub read_timeout: Option<Duration>,
}

/// What a configured read timeout comes to: zero is no timeout.
pub open spec fn effective_timeout(value: Option<Duration>) -> Option<Duration> {
    match value {
        Some(d) => if duration_nanos(d) == 0 {
            None
        } else {
            Some(d)
        },
        None => None,
    }
}

/// Resolves a configured read timeout: zero is no timeout.
pub fn resolve_timeout(value: Option<Duration>) -> (timeout: Option<Duration>)
    ensures
        timeout == effective_timeout(value),
{
    match value {
        Some(d) => if d.as_nanos() == 0 {
            None
        } else {
            Some(d)
        },
        None => None,
    }
}

/// What a configured frame size comes to: the largest value is no limit.
pub open spec fn frame_limit_of(max_incoming_frame_size: usize) -> Option<usize> {
    if max_incoming_frame_size == usize::MAX {
        None
    } else {
        Some(max_incoming_frame_size)
    }
}

/// Whether two read timeouts are both absent or of the same length.
pub open spec fn same_timeout(a: Option<Duration>, b: Option<Duration>) -> bool {
    match (a, b) {
        (Some(x), Some(y)) => duration_nanos(x) == duration_nanos(y),
        (None, None) => true,
        _ => false,
    }
}

impl Options {
    /// Whether two sets of options hold the same values, field by field.
    pub open spec fn same(self, other: Options) -> bool {
        &&& self.max_incoming_frame_size == other.max_incoming_frame_size
        &&& self.headers() == other.headers()
        &&& self.protocols() == other.protocols()
        &&& same_timeout(self.read_timeout, other.read_timeout)
    }

    /// The additional headers as pairs of texts.
    pub open spec fn headers(self) -> Seq<(Seq<char>, Seq<char>)> {
        Seq::new(
            self.additional_headers@.len(),
            |i: int| (self.additional_headers@[i].0@, self.additional_headers@[i].1@),
        )
    }

    /// The subprotocols as texts.
    pub open spec fn protocols(self) -> Seq<Seq<char>> {
        Seq::new(self.subprotocols@.len(), |i: int| self.subprotocols@[i]@)
    }

    fn same_headers(&self, other: &Options) -> (equal: bool)
        ensures
            equal == (self.headers() == other.headers()),
    {
        if self.additional_headers.len() != other.additional_headers.len() {
            assert(self.headers().len() != other.headers().len());
            return false;
        }
        let mut i: usize = 0;
        while i < self.additional_headers.len()
            invariant
                i <= self.additional_headers@.len(),
                self.additional_headers@.len() == other.additional_headers@.len(),
                forall|k: int| 0 <= k < i ==> self.headers()[k] == other.headers()[k],
            decreases self.additional_headers@.len() - i,
        {
            let key_equal = self.additional_headers[i].0 == other.additional_headers[i].0;
            let value_equal = self.additional_headers[i].1 == other.additional_headers[i].1;
            if !key_equal || !value_equal {
                assert(self.headers()[i as int] != other.headers()[i as int]);
                return false;
            }
            i = i + 1;
        }
        assert(self.headers() =~= other.headers());
        true
    }

    fn same_protocols(&self, other: &Options) -> (equal: bool)
        ensures
            equal == (self.protocols() == other.protocols()),
    {
        if self.subprotocols.len() != other.subprotocols.len() {
            assert(self.protocols().len() != other.protocols().len());
            return false;
        }
        let mut i: usize = 0;
        while i < self.subprotocols.len()
            invariant
                i <= self.subprotocols@.len(),
                self.subprotocols@.len() == other.subprotocols@.len(),
                forall|k: int| 0 <= k < i ==> self.protocols()[k] == other.protocols()[k],
            decreases self.subprotocols@.len() - i,
        {
            let equal = self.subprotocols[i] == other.subprotocols[i];
            if !equal {
                assert(self.protocols()[i as int] != other.protocols()[i as int]);
                return false;
            }
            i = i + 1;
        }
        assert(self.protocols() =~= other.protocols());
        true
    }

    /// The limit to hand to the frame decoder: `None` when frames of any size
    /// are accepted.
    pub fn frame_limit(&self) -> (limit: Option<usize>)
        ensures
            limit == frame_limit_of(self.max_incoming_frame_size),
    {
        if self.max_incoming_frame_size == UNLIMITED_FRAME_SIZE {
            None
        } else {
            Some(self.max_incoming_frame_size)
        }
    }

    /// The timeout to apply to reads: `None` when a read is to block until
    /// something arrives, which is what both an absent and a zero timeout ask for.
    pub fn effective_read_timeout(&self) -> (timeout: Option<Duration>)
        ensures
            timeout == effective_timeout(self.read_timeout),
    {
        resolve_timeout(self.read_timeout)
    }
}

impl PartialEq for Options {
    fn eq(&self, other: &Self) -> (equal: bool) {
        let timeouts = match (self.read_timeout, other.read_timeout) {
            (Some(a), Some(b)) => a.as_nanos() == b.as_nanos(),
            (None, None) => true,
            _ => false,
        };
        timeouts && self.max_incoming_frame_size == other.max_incoming_frame_size
            && self.same_headers(other) && self.same_protocols(other)
    }
}

impl PartialEqSpecImpl for Options {
    open spec fn obeys_eq_spec() -> bool {
        true
    }

    open spec fn eq_spec(&self, other: &Self) -> bool {
        self.same(*other)
    }
}

impl Eq for Options {

}

impl Clone for Options {
    fn clone(&self) -> (copy: Self)
        ensures
            copy.same(*self),
            copy.read_timeout == self.read_timeout,
    {
        let mut additional_headers: Vec<(String, String)> = Vec::new();
        let mut i: usize = 0;
        while i < self.additional_headers.len()
            invariant
                i <= self.additional_headers@.len(),
                additional_headers@.len() == i,
                forall|k: int|
                    0 <= k < i ==> (#[trigger] additional_headers@[k]).0@
                        == self.additional_headers@[k].0@ && additional_headers@[k].1@
                        == self.additional_headers@[k].1@,
            decreases self.additional_headers@.len() - i,
        {
            let key = self.additional_headers[i].0.clone();
            let value = self.additional_headers[i].1.clone();
            additional_headers.push((key, value));
            i = i + 1;
        }
        let mut subprotocols: Vec<String> = Vec::new();
        let mut j: usize = 0;
        while j < self.subprotocols.len()
            invariant
                j <= self.subprotocols@.len(),
                subprotocols@.len() == j,
                forall|k: int| 0 <= k < j ==> (#[trigger] subprotocols@[k])@ == self.subprotocols@[k]@,
            decreases self.subprotocols@.len() - j,
        {
            subprotocols.push(self.subprotocols[j].clone());
            j = j + 1;
        }
        let copy = Options {
            max_incoming_frame_size: self.max_incoming_frame_size,
            additional_headers,
            subprotocols,
            read_timeout: self.read_timeout,
        };
        assert(copy.headers() =~= self.headers());
        assert(copy.protocols() =~= self.protocols());
        copy
    }
}

impl Default for Options {
    fn default() -> (options: Self)
        ensures
            options.max_incoming_frame_size == 64 * 1024 * 1024,
            options.additional_headers@.len() == 0,
            options.subprotocols@.len() == 0,
            options.read_timeout matches Some(d) && duration_nanos(d) == 10_000_000,
    {
        Options {
            max_incoming_frame_size: DEFAULT_MAX_FRAME_SIZE,
            additional_headers: Vec::new(),
            subprotocols: Vec::new(),
            read_timeout: Some(Duration::from_millis(DEFAULT_READ_TIMEOUT_MILLIS)),
        }
    }
}

} // verus!
