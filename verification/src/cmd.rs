//! The command surface: one declarative entry per operation, each holding
//! the shared session-registry handle, plus the small pure helpers the
//! commands compute with.
//!
//! Session lookup, transport establishment, argument parsing and value
//! formatting are the host's; a command here carries its handle from
//! construction to run and owns only the decisions that are this crate's:
//! which delivery mode a caller selected and how a session identifier is
//! shortened for display.

use vstd::prelude::*;

verus! {

/// Handle standing for the host-side session registry. The registry itself
/// -- sessions by name, their transports -- lives with the host; commands
/// only carry the handle between construction and run.
#[derive(Clone, Copy, PartialEq, Eq, Structural, Debug)]
pub struct State;

/// How a streaming command delivers its events. The choice is the
/// caller's, made by supplying or omitting a collection window; it is not
/// a property of the bridge itself.
#[derive(Clone, Copy, PartialEq, Eq, Structural, Debug)]
pub enum DeliveryMode {
    /// Yield each event as soon as it is received, until producer closure
    /// or cancellation.
    LiveStream,
    /// Buffer every event arriving within this many milliseconds and
    /// return the whole aggregate in one shot.
    AggregateFor(u64),
}

/// The delivery mode selected by an optional collection window.
pub fn delivery_mode(window_millis: Option<u64>) -> (m: DeliveryMode)
    ensures
        window_millis matches Some(w) ==> m == DeliveryMode::AggregateFor(w),
        window_millis is None ==> m is LiveStream,
{
    match window_millis {
        Some(w) => DeliveryMode::AggregateFor(w),
        None => DeliveryMode::LiveStream,
    }
}

/// Length a session identifier is shortened to for display.
pub const MAX_ZID_LEN: usize = 8;

/// The shortened form of a session identifier: its first [`MAX_ZID_LEN`]
/// characters, or all of it when it is shorter.
pub fn short_zid(zid: &str) -> (r: String)
    ensures
        r@ == zid@.take(
            if zid@.len() < MAX_ZID_LEN { zid@.len() as int } else { MAX_ZID_LEN as int },
        ),
{
    let n: usize = zid.unicode_len();
    let k: usize = if n < MAX_ZID_LEN {
        n
    } else {
        MAX_ZID_LEN
    };
    let s = zid.substring_char(0, k);
    let r = s.to_string();
    proof {
        vstd::string::to_string_from_display_ensures_for_str(s, r);
        assert(zid@.subrange(0, k as int) =~= zid@.take(k as int));
    }
    r
}

/// The configuration command: renders the running session's configuration.
pub struct Config {
    state: State,
}

impl Config {
    /// The session registry this command was built over.
    pub closed spec fn state(self) -> State {
        self.state
    }

    /// A configuration command over the given registry.
    pub fn new(state: State) -> (c: Config)
        ensures
            c.state() == state,
    {
        Config { state }
    }
}

/// The liveliness subscription command: a live stream of liveliness
/// events, bridged from callback delivery to pulls.
pub struct Sub {
    state: State,
}

impl Sub {
    /// The session registry this command was built over.
    pub closed spec fn state(self) -> State {
        self.state
    }

    /// A liveliness subscription command over the given registry.
    pub fn new(state: State) -> (c: Sub)
        ensures
            c.state() == state,
    {
        Sub { state }
    }
}

/// The publisher command: declares a publisher and puts each input value.
pub struct Pub {
    state: State,
}

impl Pub {
    /// The session registry this command was built over.
    pub closed spec fn state(self) -> State {
        self.state
    }

    /// A publisher command over the given registry.
    pub fn new(state: State) -> (c: Pub)
        ensures
            c.state() == state,
    {
        Pub { state }
    }
}

/// The querier command: issues one request per usable input value and
/// pairs each with exactly one batch of replies, through the correlator.
pub struct Querier {
    state: State,
}

impl Querier {
    /// The session registry this command was built over.
    pub closed spec fn state(self) -> State {
        self.state
    }

    /// A querier command over the given registry.
    pub fn new(state: State) -> (c: Querier)
        ensures
            c.state() == state,
    {
        Querier { state }
    }
}

/// The scouting command: discovers peers, either as a live stream or as a
/// deadline-bounded aggregate, per [`DeliveryMode`].
pub struct Scout {
    state: State,
}

impl Scout {
    /// The session registry this command was built over.
    pub closed spec fn state(self) -> State {
        self.state
    }

    /// A scouting command over the given registry.
    pub fn new(state: State) -> (c: Scout)
        ensures
            c.state() == state,
    {
        Scout { state }
    }
}

/// The session-identifier command: prints the session's identifier, in
/// full or shortened with [`short_zid`].
pub struct Zid {
    state: State,
}

impl Zid {
    /// The session registry this command was built over.
    pub closed spec fn state(self) -> State {
        self.state
    }

    /// A session-identifier command over the given registry.
    pub fn new(state: State) -> (c: Zid)
        ensures
            c.state() == state,
    {
        Zid { state }
    }
}

} // verus!
