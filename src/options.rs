use crate::error::{S9Result, S9WebSocketError};
use crate::interval::Interval;
use vstd::prelude::*;

verus! {

/// The settings that both kinds of options hold.
#[derive(Clone, Copy, Debug, PartialEq, Eq, Structural)]
pub struct SharedOptions {
    /// How long the event loop sleeps after each iteration; `None` for no sleep.
    pub spin_wait_duration: Option<Interval>,
    /// The `TCP_NODELAY` flag to set on the socket; `None` to leave it alone.
    pub nodelay: Option<bool>,
    /// The time to live to set on the socket; `None` for the system default.
    pub ttl: Option<u32>,
}

/// A duration setting is either absent or spans some time.
pub open spec fn absent_or_nonzero(d: Option<Interval>) -> bool {
    match d {
        Some(i) => i.total_nanos() > 0,
        None => true,
    }
}

/// One change that connecting makes to the socket, right after the handshake.
#[derive(Clone, Copy, Debug, PartialEq, Eq, Structural)]
pub enum SocketSetting {
    /// Whether reads return at once when no data is ready.
    NonBlocking(bool),
    /// The `TCP_NODELAY` flag.
    NoDelay(bool),
    /// The time to live.
    Ttl(u32),
    /// The read timeout; `None` blocks without bound.
    ReadTimeout(Option<Interval>),
    /// The write timeout; `None` blocks without bound.
    WriteTimeout(Option<Interval>),
}

/// The settings that the shared options ask for, in the order they are applied.
pub open spec fn shared_settings(o: SharedOptions) -> Seq<SocketSetting> {
    (match o.nodelay {
        Some(b) => seq![SocketSetting::NoDelay(b)],
        None => Seq::<SocketSetting>::empty(),
    }) + (match o.ttl {
        Some(t) => seq![SocketSetting::Ttl(t)],
        None => Seq::<SocketSetting>::empty(),
    })
}

impl SharedOptions {
    /// Nothing set.
    pub open spec fn spec_unset() -> SharedOptions {
        SharedOptions { spin_wait_duration: None, nodelay: None, ttl: None }
    }

    fn unset() -> (r: SharedOptions)
        ensures
            r == SharedOptions::spec_unset(),
    {
        SharedOptions { spin_wait_duration: None, nodelay: None, ttl: None }
    }

    fn settings(&self) -> (r: Vec<SocketSetting>)
        ensures
            r@ == shared_settings(*self),
    {
        let mut r: Vec<SocketSetting> = Vec::new();
        match self.nodelay {
            Some(b) => r.push(SocketSetting::NoDelay(b)),
            None => {},
        }
        match self.ttl {
            Some(t) => r.push(SocketSetting::Ttl(t)),
            None => {},
        }
        proof {
            assert(r@ =~= shared_settings(*self));
        }
        r
    }
}

/// Whether `e` is the refusal of the zero duration setting named `what`.
pub open spec fn refused_as_zero(e: S9WebSocketError, what: Seq<char>) -> bool {
    e matches S9WebSocketError::InvalidConfiguration(m) && m@ == what + " cannot be zero"@
}

/// Checks an optional duration setting: a zero duration is refused.
fn check_duration(d: Option<Interval>, what: &str) -> (r: S9Result<()>)
    ensures
        r is Ok <==> absent_or_nonzero(d),
        r is Err ==> refused_as_zero(r->Err_0, what@),
{
    match d {
        Some(i) => {
            if i.is_zero() {
                let mut msg = what.to_string();
                msg.append(" cannot be zero");
                Err(S9WebSocketError::InvalidConfiguration(msg))
            } else {
                Ok(())
            }
        },
        None => Ok(()),
    }
}

/// Configuration of the non-blocking and the channel-driven clients.
#[derive(Clone, Debug)]
pub struct NonBlockingOptions {
    shared: SharedOptions,
}

impl NonBlockingOptions {
    /// The settings these options hold.
    pub closed spec fn spec_shared(&self) -> SharedOptions {
        self.shared
    }

    /// Options that are valid: a sleep, where set, spans some time.
    pub open spec fn wf(&self) -> bool {
        absent_or_nonzero(self.spec_shared().spin_wait_duration)
    }

    /// Options with nothing set.
    pub fn new() -> (r: Self)
        ensures
            r.spec_shared() == SharedOptions::spec_unset(),
            r.wf(),
    {
        NonBlockingOptions { shared: SharedOptions::unset() }
    }

    /// Sets the sleep after each iteration of the event loop, or none.
    ///
    /// A zero duration is refused with `InvalidConfiguration`.
    pub fn spin_wait_duration(self, duration: Option<Interval>) -> (r: S9Result<Self>)
        ensures
            r is Ok <==> absent_or_nonzero(duration),
            r is Err ==> refused_as_zero(r->Err_0, "Spin wait duration"@),
            r is Ok ==> r->Ok_0.spec_shared() == (SharedOptions {
                spin_wait_duration: duration,
                ..self.spec_shared()
            }),
    {
        match check_duration(duration, "Spin wait duration") {
            Ok(()) => {
                let mut o = self;
                o.shared.spin_wait_duration = duration;
                Ok(o)
            },
            Err(e) => Err(e),
        }
    }

    /// Enables or disables `TCP_NODELAY` on the socket.
    pub fn nodelay(self, nodelay: bool) -> (r: Self)
        ensures
            r.spec_shared() == (SharedOptions { nodelay: Some(nodelay), ..self.spec_shared() }),
    {
        let mut o = self;
        o.shared.nodelay = Some(nodelay);
        o
    }

    /// Sets the time to live of the socket, or `None` for the system default.
    pub fn ttl(self, ttl: Option<u32>) -> (r: S9Result<Self>)
        ensures
            r is Ok,
            r->Ok_0.spec_shared() == (SharedOptions { ttl, ..self.spec_shared() }),
    {
        let mut o = self;
        o.shared.ttl = ttl;
        Ok(o)
    }

    /// The sleep after each iteration of the event loop.
    pub fn idle_wait(&self) -> (r: Option<Interval>)
        ensures
            r == self.spec_shared().spin_wait_duration,
    {
        self.shared.spin_wait_duration
    }

    /// What connecting does to the socket: it becomes non-blocking, then takes
    /// the flag and the time to live that are set.
    pub fn socket_settings(&self) -> (r: Vec<SocketSetting>)
        ensures
            r@ == seq![SocketSetting::NonBlocking(true)] + shared_settings(self.spec_shared()),
    {
        let mut r: Vec<SocketSetting> = Vec::new();
        r.push(SocketSetting::NonBlocking(true));
        let mut rest = self.shared.settings();
        r.append(&mut rest);
        r
    }
}

impl Default for NonBlockingOptions {
    fn default() -> (r: Self)
        ensures
            r.spec_shared() == SharedOptions::spec_unset(),
    {
        NonBlockingOptions::new()
    }
}

/// Configuration of the blocking client.
#[derive(Clone, Debug)]
pub struct BlockingOptions {
    shared: SharedOptions,
    read_timeout: Option<Interval>,
    write_timeout: Option<Interval>,
}

impl BlockingOptions {
    /// The settings that these options share with the non-blocking ones.
    pub closed spec fn spec_shared(&self) -> SharedOptions {
        self.shared
    }

    /// The read timeout, or `None` for reads that block without bound.
    pub closed spec fn spec_read_timeout(&self) -> Option<Interval> {
        self.read_timeout
    }

    /// The write timeout, or `None` for writes that block without bound.
    pub closed spec fn spec_write_timeout(&self) -> Option<Interval> {
        self.write_timeout
    }

    /// Options that are valid: every duration that is set spans some time.
    pub open spec fn wf(&self) -> bool {
        &&& absent_or_nonzero(self.spec_shared().spin_wait_duration)
        &&& absent_or_nonzero(self.spec_read_timeout())
        &&& absent_or_nonzero(self.spec_write_timeout())
    }

    /// Options with nothing set.
    pub fn new() -> (r: Self)
        ensures
            r.spec_shared() == SharedOptions::spec_unset(),
            r.spec_read_timeout() is None,
            r.spec_write_timeout() is None,
            r.wf(),
    {
        BlockingOptions { shared: SharedOptions::unset(), read_timeout: None, write_timeout: None }
    }

    /// Sets the sleep after each iteration of the event loop, or none.
    ///
    /// A zero duration is refused with `InvalidConfiguration`.
    pub fn spin_wait_duration(self, duration: Option<Interval>) -> (r: S9Result<Self>)
        ensures
            r is Ok <==> absent_or_nonzero(duration),
            r is Err ==> refused_as_zero(r->Err_0, "Spin wait duration"@),
            r is Ok ==> r->Ok_0.spec_shared() == (SharedOptions {
                spin_wait_duration: duration,
                ..self.spec_shared()
            }),
            r is Ok ==> r->Ok_0.spec_read_timeout() == self.spec_read_timeout(),
            r is Ok ==> r->Ok_0.spec_write_timeout() == self.spec_write_timeout(),
    {
        match check_duration(duration, "Spin wait duration") {
            Ok(()) => {
                let mut o = self;
                o.shared.spin_wait_duration = duration;
                Ok(o)
            },
            Err(e) => Err(e),
        }
    }

    /// Enables or disables `TCP_NODELAY` on the socket.
    pub fn nodelay(self, nodelay: bool) -> (r: Self)
        ensures
            r.spec_shared() == (SharedOptions { nodelay: Some(nodelay), ..self.spec_shared() }),
            r.spec_read_timeout() == self.spec_read_timeout(),
            r.spec_write_timeout() == self.spec_write_timeout(),
    {
        let mut o = self;
        o.shared.nodelay = Some(nodelay);
        o
    }

    /// Sets the time to live of the socket, or `None` for the system default.
    pub fn ttl(self, ttl: Option<u32>) -> (r: S9Result<Self>)
        ensures
            r is Ok,
            r->Ok_0.spec_shared() == (SharedOptions { ttl, ..self.spec_shared() }),
            r->Ok_0.spec_read_timeout() == self.spec_read_timeout(),
            r->Ok_0.spec_write_timeout() == self.spec_write_timeout(),
    {
        let mut o = self;
        o.shared.ttl = ttl;
        Ok(o)
    }

    /// Sets the read timeout, or `None` for reads that block without bound.
    ///
    /// A zero duration is refused with `InvalidConfiguration`.
    pub fn read_timeout(self, timeout: Option<Interval>) -> (r: S9Result<Self>)
        ensures
            r is Ok <==> absent_or_nonzero(timeout),
            r is Err ==> refused_as_zero(r->Err_0, "Read timeout duration"@),
            r is Ok ==> r->Ok_0.spec_shared() == self.spec_shared(),
            r is Ok ==> r->Ok_0.spec_read_timeout() == timeout,
            r is Ok ==> r->Ok_0.spec_write_timeout() == self.spec_write_timeout(),
    {
        match check_duration(timeout, "Read timeout duration") {
            Ok(()) => {
                let mut o = self;
                o.read_timeout = timeout;
                Ok(o)
            },
            Err(e) => Err(e),
        }
    }

    /// Sets the write timeout, or `None` for writes that block without bound.
    ///
    /// A zero duration is refused with `InvalidConfiguration`.
    pub fn write_timeout(self, timeout: Option<Interval>) -> (r: S9Result<Self>)
        ensures
            r is Ok <==> absent_or_nonzero(timeout),
            r is Err ==> refused_as_zero(r->Err_0, "Write timeout duration"@),
            r is Ok ==> r->Ok_0.spec_shared() == self.spec_shared(),
            r is Ok ==> r->Ok_0.spec_read_timeout() == self.spec_read_timeout(),
            r is Ok ==> r->Ok_0.spec_write_timeout() == timeout,
    {
        match check_duration(timeout, "Write timeout duration") {
            Ok(()) => {
                let mut o = self;
                o.write_timeout = timeout;
                Ok(o)
            },
            Err(e) => Err(e),
        }
    }

    /// The sleep after each iteration of the event loop.
    pub fn idle_wait(&self) -> (r: Option<Interval>)
        ensures
            r == self.spec_shared().spin_wait_duration,
    {
        self.shared.spin_wait_duration
    }

    /// Whether reads are bounded by a timeout.
    pub fn has_read_timeout(&self) -> (r: bool)
        ensures
            r == self.spec_read_timeout() is Some,
    {
        self.read_timeout.is_some()
    }

    /// What connecting does to the socket: it takes the flag and the time to
    /// live that are set, then both timeouts.
    pub fn socket_settings(&self) -> (r: Vec<SocketSetting>)
        ensures
            r@ == shared_settings(self.spec_shared()) + seq![
                SocketSetting::ReadTimeout(self.spec_read_timeout()),
                SocketSetting::WriteTimeout(self.spec_write_timeout()),
            ],
    {
        let mut r = self.shared.settings();
        r.push(SocketSetting::ReadTimeout(self.read_timeout));
        r.push(SocketSetting::WriteTimeout(self.write_timeout));
        r
    }
}

impl Default for BlockingOptions {
    fn default() -> (r: Self)
        ensures
            r.spec_shared() == SharedOptions::spec_unset(),
            r.spec_read_timeout() is None,
            r.spec_write_timeout() is None,
    {
        BlockingOptions::new()
    }
}

} // verus!
