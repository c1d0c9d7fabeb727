//! Role configuration and per-session state machine for v0 modules.
//!
//! A v0 module leaves dialing, listening and accepting to the host.  The
//! host records the sockets it has produced in a [`V0Config`], which the
//! host-export functions and the role drivers share.  Descriptors are kept
//! as plain integers; `-1` marks an unset slot.  The caller performs the
//! actual socket operations and feeds the resulting descriptors in.

use vstd::prelude::*;

use crate::error::WaterError;

verus! {

/// Addresses a v0 module is wired to, as read from its configuration file.
#[derive(Debug)]
pub struct Config {
    pub local_address: String,
    pub local_port: u32,
    pub remote_address: String,
    pub remote_port: u32,
}

impl Config {
    /// The placeholder configuration used when no file was given.
    pub fn new() -> (r: Self)
        ensures
            r.local_address@ == "127.0.0.1"@,
            r.local_port == 8080u32,
            r.remote_address@ == "example.com"@,
            r.remote_port == 8082u32,
    {
        Config {
            local_address: String::from_str("127.0.0.1"),
            local_port: 8080,
            remote_address: String::from_str("example.com"),
            remote_port: 8082,
        }
    }
}

impl Clone for Config {
    fn clone(&self) -> (r: Self)
        ensures
            r == *self,
    {
        Config {
            local_address: self.local_address.clone(),
            local_port: self.local_port,
            remote_address: self.remote_address.clone(),
            remote_port: self.remote_port,
        }
    }
}

/// The role a v0 session plays, together with the descriptors it holds.
///
/// A listener holds `(listener_fd, accepted_fd)`; a relay holds
/// `(listener_fd, accepted_fd, dialed_fd)`.  A slot is `-1` until the host
/// records a descriptor in it.
#[derive(Debug, Clone, Copy, PartialEq, Eq, Structural)]
pub enum V0CRole {
    Unknown,
    Dialer(i32),
    Listener(i32, i32),
    Relay(i32, i32, i32),
}

/// Whether `connect` may record a dialed socket in state `r`.
pub open spec fn connect_allowed(r: V0CRole) -> bool {
    match r {
        V0CRole::Unknown => true,
        V0CRole::Relay(_l, _a, d) => d == -1,
        _ => false,
    }
}

/// The error `connect` reports in state `r` when it is not allowed.
pub open spec fn connect_error(r: V0CRole) -> WaterError {
    match r {
        V0CRole::Relay(_l, _a, _d) => WaterError::RelayAlreadyConnected,
        _ => WaterError::NotDialer,
    }
}

/// The state after `connect` records the dialed descriptor `fd`.
pub open spec fn connect_next(r: V0CRole, fd: i32) -> V0CRole {
    match r {
        V0CRole::Unknown => V0CRole::Dialer(fd),
        V0CRole::Relay(l, a, _d) => V0CRole::Relay(l, a, fd),
        x => x,
    }
}

/// Whether `accept` may record an accepted socket in state `r`.
pub open spec fn accept_allowed(r: V0CRole) -> bool {
    match r {
        V0CRole::Listener(_l, a) => a == -1,
        V0CRole::Relay(_l, a, _d) => a == -1,
        _ => false,
    }
}

/// The error `accept` reports in state `r` when it is not allowed.
pub open spec fn accept_error(r: V0CRole) -> WaterError {
    match r {
        V0CRole::Listener(_l, _a) => WaterError::ListenerAlreadyAccepted,
        V0CRole::Relay(_l, _a, _d) => WaterError::ListenerAlreadyAccepted,
        _ => WaterError::NotListener,
    }
}

/// The state after `accept` records the accepted descriptor `fd`.
pub open spec fn accept_next(r: V0CRole, fd: i32) -> V0CRole {
    match r {
        V0CRole::Listener(l, _a) => V0CRole::Listener(l, fd),
        V0CRole::Relay(l, _a, d) => V0CRole::Relay(l, fd, d),
        x => x,
    }
}

/// The descriptors `defer` hands back for closing: the per-session
/// sockets that are set, never the listener.
pub open spec fn defer_closes(r: V0CRole) -> Seq<i32> {
    match r {
        V0CRole::Unknown => Seq::empty(),
        V0CRole::Dialer(fd) => if fd >= 0 { seq![fd] } else { Seq::empty() },
        V0CRole::Listener(_l, a) => if a >= 0 { seq![a] } else { Seq::empty() },
        V0CRole::Relay(_l, a, d) => {
            let with_accepted: Seq<i32> = if a >= 0 { seq![a] } else { Seq::empty() };
            if d >= 0 { with_accepted.push(d) } else { with_accepted }
        },
    }
}

/// The state after `defer`: every per-session slot is unset again.
pub open spec fn deferred(r: V0CRole) -> V0CRole {
    match r {
        V0CRole::Unknown => V0CRole::Unknown,
        V0CRole::Dialer(_fd) => V0CRole::Dialer(-1i32),
        V0CRole::Listener(l, _a) => V0CRole::Listener(l, -1i32),
        V0CRole::Relay(l, _a, _d) => V0CRole::Relay(l, -1i32, -1i32),
    }
}

/// The listener descriptor a state holds; `-1` where it holds none.
pub open spec fn listener_fd_of(r: V0CRole) -> i32 {
    match r {
        V0CRole::Listener(l, _a) => l,
        V0CRole::Relay(l, _a, _d) => l,
        _ => -1i32,
    }
}

/// The state after a migration reset: accepted and dialed slots of a
/// listener or relay are unset, everything else is untouched.
pub open spec fn session_reset(r: V0CRole) -> V0CRole {
    match r {
        V0CRole::Listener(l, _a) => V0CRole::Listener(l, -1i32),
        V0CRole::Relay(l, _a, _d) => V0CRole::Relay(l, -1i32, -1i32),
        x => x,
    }
}

/// The v0 role configuration: the wired addresses plus the session state.
#[derive(Debug)]
pub struct V0Config {
    pub name: String,
    pub loc_addr: String,
    pub loc_port: u32,
    pub remote_addr: String,
    pub remote_port: u32,
    pub conn: V0CRole,
}

impl Clone for V0Config {
    fn clone(&self) -> (r: Self)
        ensures
            r == *self,
    {
        V0Config {
            name: self.name.clone(),
            loc_addr: self.loc_addr.clone(),
            loc_port: self.loc_port,
            remote_addr: self.remote_addr.clone(),
            remote_port: self.remote_port,
            conn: self.conn,
        }
    }
}

impl V0Config {
    /// The configuration after a migration reset (see
    /// [`V0Config::reset_listener_or_relay`]).
    pub open spec fn resetted(self) -> V0Config {
        V0Config { conn: session_reset(self.conn), ..self }
    }

    /// Seed a fresh role configuration; no session state is set yet.
    pub fn init(
        name: String,
        loc_addr: String,
        loc_port: u32,
        remote_addr: String,
        remote_port: u32,
    ) -> (r: Result<Self, WaterError>)
        ensures
            (r matches Ok(c) && c == (V0Config {
                name: name,
                loc_addr: loc_addr,
                loc_port: loc_port,
                remote_addr: remote_addr,
                remote_port: remote_port,
                conn: V0CRole::Unknown,
            })),
    {
        Ok(V0Config { name, loc_addr, loc_port, remote_addr, remote_port, conn: V0CRole::Unknown })
    }

    /// Record the socket the host dialed for this session.
    ///
    /// A fresh configuration becomes a dialer; a relay that has not dialed
    /// yet fills its dialed slot.  A relay that already dialed, and any
    /// other role, is refused and left unchanged.
    pub fn connect(&mut self, fd: i32) -> (r: Result<(), WaterError>)
        requires
            fd >= 0,
        ensures
            r == (if connect_allowed(old(self).conn) {
                Ok::<(), WaterError>(())
            } else {
                Err::<(), WaterError>(connect_error(old(self).conn))
            }),
            *final(self) == (V0Config {
                conn: if connect_allowed(old(self).conn) {
                    connect_next(old(self).conn, fd)
                } else {
                    old(self).conn
                },
                ..*old(self)
            }),
    {
        match self.conn {
            V0CRole::Relay(l, a, d) => {
                if d != -1 {
                    return Err(WaterError::RelayAlreadyConnected);
                }
                self.conn = V0CRole::Relay(l, a, fd);
                Ok(())
            },
            V0CRole::Unknown => {
                self.conn = V0CRole::Dialer(fd);
                Ok(())
            },
            _ => Err(WaterError::NotDialer),
        }
    }

    /// Record the listener socket the host bound, as a listener or as the
    /// listening half of a relay.  Any previous session state is replaced.
    pub fn create_listener(&mut self, fd: i32, is_relay: bool)
        requires
            fd >= 0,
        ensures
            *final(self) == (V0Config {
                conn: if is_relay {
                    V0CRole::Relay(fd, -1i32, -1i32)
                } else {
                    V0CRole::Listener(fd, -1i32)
                },
                ..*old(self)
            }),
    {
        if is_relay {
            self.conn = V0CRole::Relay(fd, -1, -1);
        } else {
            self.conn = V0CRole::Listener(fd, -1);
        }
    }

    /// Record the socket the host accepted for this session.
    ///
    /// Only a listener or relay whose accepted slot is still unset may
    /// accept; one that already accepted must migrate first.
    pub fn accept(&mut self, fd: i32) -> (r: Result<(), WaterError>)
        requires
            fd >= 0,
        ensures
            r == (if accept_allowed(old(self).conn) {
                Ok::<(), WaterError>(())
            } else {
                Err::<(), WaterError>(accept_error(old(self).conn))
            }),
            *final(self) == (V0Config {
                conn: if accept_allowed(old(self).conn) {
                    accept_next(old(self).conn, fd)
                } else {
                    old(self).conn
                },
                ..*old(self)
            }),
    {
        match self.conn {
            V0CRole::Listener(l, a) => {
                if a != -1 {
                    return Err(WaterError::ListenerAlreadyAccepted);
                }
                self.conn = V0CRole::Listener(l, fd);
                Ok(())
            },
            V0CRole::Relay(l, a, d) => {
                if a != -1 {
                    return Err(WaterError::ListenerAlreadyAccepted);
                }
                self.conn = V0CRole::Relay(l, fd, d);
                Ok(())
            },
            _ => Err(WaterError::NotListener),
        }
    }

    /// Release this session's sockets.
    ///
    /// Returns the descriptors the caller must now close: the accepted and
    /// dialed sockets that are set.  The listener socket is never among
    /// them, and every returned slot is unset afterwards, so no descriptor
    /// is handed out for closing twice.
    pub fn defer(&mut self) -> (closed: Vec<i32>)
        ensures
            closed@ == defer_closes(old(self).conn),
            *final(self) == (V0Config { conn: deferred(old(self).conn), ..*old(self) }),
    {
        let mut closed: Vec<i32> = Vec::new();
        match self.conn {
            V0CRole::Unknown => {},
            V0CRole::Dialer(fd) => {
                if fd >= 0 {
                    closed.push(fd);
                }
                self.conn = V0CRole::Dialer(-1i32);
            },
            V0CRole::Listener(l, a) => {
                if a >= 0 {
                    closed.push(a);
                }
                self.conn = V0CRole::Listener(l, -1i32);
            },
            V0CRole::Relay(l, a, d) => {
                if a >= 0 {
                    closed.push(a);
                }
                if d >= 0 {
                    closed.push(d);
                }
                self.conn = V0CRole::Relay(l, -1i32, -1i32);
            },
        }
        assert(closed@ =~= defer_closes(old(self).conn));
        closed
    }

    /// Unset the accepted (and, for a relay, dialed) slot of a migrated
    /// listener or relay, so the fresh instance starts with no session.
    pub fn reset_listener_or_relay(&mut self)
        ensures
            *final(self) == old(self).resetted(),
    {
        match self.conn {
            V0CRole::Listener(l, a) => {
                if a != -1 {
                    self.conn = V0CRole::Listener(l, -1i32);
                }
            },
            V0CRole::Relay(l, a, d) => {
                let a2: i32 = if a != -1 { -1 } else { a };
                let d2: i32 = if d != -1 { -1 } else { d };
                self.conn = V0CRole::Relay(l, a2, d2);
            },
            _ => {},
        }
    }

    /// Whether a dial may proceed in the current state; the test the
    /// host runs before opening a socket it might have to throw away.
    pub fn can_connect(&self) -> (r: bool)
        ensures
            r == connect_allowed(self.conn),
    {
        match self.conn {
            V0CRole::Unknown => true,
            V0CRole::Relay(_l, _a, d) => d == -1,
            _ => false,
        }
    }

    /// The listener descriptor to accept on: available exactly when a
    /// listener or relay has its accepted slot unset.
    pub fn accept_source(&self) -> (r: Result<i32, WaterError>)
        ensures
            r == (if accept_allowed(self.conn) {
                Ok::<i32, WaterError>(listener_fd_of(self.conn))
            } else {
                Err::<i32, WaterError>(accept_error(self.conn))
            }),
    {
        match self.conn {
            V0CRole::Listener(l, a) => {
                if a != -1 {
                    return Err(WaterError::ListenerAlreadyAccepted);
                }
                Ok(l)
            },
            V0CRole::Relay(l, a, _d) => {
                if a != -1 {
                    return Err(WaterError::ListenerAlreadyAccepted);
                }
                Ok(l)
            },
            _ => Err(WaterError::NotListener),
        }
    }

    /// The remote endpoint a dialer or relay session dials.
    pub fn remote_endpoint(&self) -> (r: (String, u32))
        ensures
            r.0@ == self.remote_addr@,
            r.1 == self.remote_port,
    {
        (self.remote_addr.clone(), self.remote_port)
    }

    /// The local endpoint a listener or relay binds.
    pub fn local_endpoint(&self) -> (r: (String, u32))
        ensures
            r.0@ == self.loc_addr@,
            r.1 == self.loc_port,
    {
        (self.loc_addr.clone(), self.loc_port)
    }
}

/// Whether two session states play the same role.
pub open spec fn same_role(a: V0CRole, b: V0CRole) -> bool {
    match (a, b) {
        (V0CRole::Unknown, V0CRole::Unknown) => true,
        (V0CRole::Dialer(_), V0CRole::Dialer(_)) => true,
        (V0CRole::Listener(_, _), V0CRole::Listener(_, _)) => true,
        (V0CRole::Relay(_, _, _), V0CRole::Relay(_, _, _)) => true,
        _ => false,
    }
}

/// Role transitions are monotonic within one core instance: once the
/// role is set, no session transition changes it — only the descriptor
/// slots move.  Connect promotes an unset role to dialer and otherwise
/// keeps the role; accept, defer and the migration reset always keep it.
pub proof fn lemma_role_tag_monotonic(r: V0CRole, fd: i32)
    ensures
        !(r is Unknown) ==> same_role(r, connect_next(r, fd)),
        same_role(r, accept_next(r, fd)),
        same_role(r, deferred(r)),
        same_role(r, session_reset(r)),
{
}

/// Per-session isolation: a migrated listener or relay starts its next
/// session with both the accepted and the dialed slot unset.
pub proof fn lemma_migration_isolates_session(c: V0Config)
    ensures
        c.conn matches V0CRole::Listener(_l, _a) ==> (match c.resetted().conn {
            V0CRole::Listener(_l2, a2) => a2 == -1,
            _ => false,
        }),
        c.conn matches V0CRole::Relay(_l, _a, _d) ==> (match c.resetted().conn {
            V0CRole::Relay(_l2, a2, d2) => a2 == -1 && d2 == -1,
            _ => false,
        }),
{
}

/// Listener preservation: a migration reset carries the listener
/// descriptor over unchanged, as do defer and accept, so the socket that
/// was bound keeps serving every later session.
pub proof fn lemma_migration_preserves_listener(c: V0Config, fd: i32)
    ensures
        c.conn matches V0CRole::Listener(l, _a) ==> c.resetted().conn == V0CRole::Listener(l, -1i32),
        c.conn matches V0CRole::Relay(l, _a, _d) ==> c.resetted().conn == V0CRole::Relay(
            l,
            -1i32,
            -1i32,
        ),
        c.conn matches V0CRole::Listener(l, _a) ==> deferred(c.conn) == V0CRole::Listener(l, -1i32)
            && accept_next(c.conn, fd) == V0CRole::Listener(l, fd),
        c.conn matches V0CRole::Relay(l, _a, _d) ==> deferred(c.conn) == V0CRole::Relay(l, -1i32, -1i32),
{
}

/// Ownership transfer: deferring closes each session socket at most once.
/// The closing set never contains the listener's slot, and a second defer
/// right after a first one closes nothing at all.
pub proof fn lemma_defer_closes_once(r: V0CRole)
    ensures
        defer_closes(deferred(r)) =~= Seq::<i32>::empty(),
        forall|i: int| 0 <= i < defer_closes(r).len() ==> defer_closes(r)[i] >= 0,
{
}

} // verus!
