//! The group dispatcher: resolves actions to opcodes, frames packets,
//! and spaces consecutive transmissions by the minimum interval.
//!
//! The dispatcher is a synchronous state machine over plain clock
//! readings. The caller reads the clock (as nanoseconds on a monotone
//! scale of its choice), asks the dispatcher for the next transmission
//! step, waits out the returned delay, and carries the packet to the
//! network. The dispatcher itself never touches a socket or a clock.

use vstd::prelude::*;
use crate::MciError;
use crate::action::Action;
use crate::opcode::MAX_GROUP;
use crate::opcode::packet_for;
use crate::opcode::resolve_opcode;
use crate::opcode::spec_opcode;
use crate::opcode::spec_packet;

verus! {

/// Minimum spacing between two consecutive transmissions from one
/// dispatcher, in nanoseconds: the radio link rejects commands that
/// follow each other faster than this.
pub const MIN_INTERVAL_NS: u64 = 100_000_000;

/// Destination of every packet a dispatcher produces: an IPv4 address
/// and a UDP port, fixed when the dispatcher is built.
#[derive(Clone, Copy, Debug, PartialEq, Eq)]
pub struct Connection {
    /// The four octets of the destination IPv4 address.
    pub ip: [u8; 4],
    /// The destination UDP port.
    pub port: u16,
}

/// The opcodes one action dispatches, in transmission order. The two
/// composite actions first switch the group on, then send the
/// mode-specific opcode; every other action is a single opcode.
pub open spec fn spec_plan(action: Action, group: u8) -> Seq<u8> {
    match action {
        Action::FullBrightness => seq![
            spec_opcode(Action::On, group),
            spec_opcode(Action::FullBrightness, group),
        ],
        Action::NightMode => seq![
            spec_opcode(Action::On, group),
            spec_opcode(Action::NightMode, group),
        ],
        _ => seq![spec_opcode(action, group)],
    }
}

/// Resolves the full opcode sequence of one action for one group, in
/// the order it must be transmitted.
pub fn plan_for(action: Action, group: u8) -> (r: Result<Vec<u8>, MciError>)
    ensures
        group <= MAX_GROUP ==> (r matches Ok(v) && v@ == spec_plan(action, group)),
        group > MAX_GROUP ==> r == Err::<Vec<u8>, MciError>(MciError::UnknownAction),
{
    match action {
        Action::FullBrightness => {
            let first = resolve_opcode(Action::On, group)?;
            let second = resolve_opcode(Action::FullBrightness, group)?;
            let v: Vec<u8> = vec![first, second];
            assert(v@ =~= spec_plan(action, group));
            Ok(v)
        },
        Action::NightMode => {
            let first = resolve_opcode(Action::On, group)?;
            let second = resolve_opcode(Action::NightMode, group)?;
            let v: Vec<u8> = vec![first, second];
            assert(v@ =~= spec_plan(action, group));
            Ok(v)
        },
        _ => {
            let op = resolve_opcode(action, group)?;
            let v: Vec<u8> = vec![op];
            assert(v@ =~= spec_plan(action, group));
            Ok(v)
        },
    }
}

/// How long a transmission requested at `now` must be delayed, given
/// that the previous transmission happened at `last`: the remainder of
/// the minimum interval, and nothing when the interval has already
/// passed. A clock that ran backwards (`now < last`) delays nothing.
pub open spec fn spec_wait_ns(last: int, now: int) -> int {
    if last <= now && now - last < MIN_INTERVAL_NS {
        MIN_INTERVAL_NS - (now - last)
    } else {
        0
    }
}

/// When a transmission requested at `now` actually happens: after the
/// throttling delay. On a clock that ran backwards the dispatcher
/// keeps the old timestamp rather than trusting the reading.
pub open spec fn spec_send_time(last: int, now: int) -> int {
    if now < last {
        last
    } else {
        now + spec_wait_ns(last, now)
    }
}

/// Law: the throttle keeps consecutive transmissions at least the
/// minimum interval apart. If one transmission happened at `prev_send`
/// and the next is requested at `now >= prev_send` (the clock did not
/// run backwards), the next transmission happens no earlier than
/// `prev_send + MIN_INTERVAL_NS`.
pub proof fn lemma_throttle_spacing(prev_send: int, now: int)
    requires
        prev_send <= now,
    ensures
        spec_send_time(prev_send, now) >= prev_send + MIN_INTERVAL_NS,
        spec_send_time(prev_send, now) == now + spec_wait_ns(prev_send, now),
{
}

/// Law: a transmission requested once the minimum interval has passed
/// is never delayed.
pub proof fn lemma_no_spurious_delay(prev_send: int, now: int)
    requires
        prev_send + MIN_INTERVAL_NS <= now,
    ensures
        spec_wait_ns(prev_send, now) == 0,
        spec_send_time(prev_send, now) == now,
{
}

/// Law: the two composite actions each dispatch exactly two opcodes,
/// in order: the group's `On` opcode first, then the mode-specific
/// opcode. Every other action dispatches exactly one.
pub proof fn lemma_composite_plan(action: Action, group: u8)
    ensures
        spec_plan(Action::FullBrightness, group) == seq![
            spec_opcode(Action::On, group),
            spec_opcode(Action::FullBrightness, group),
        ],
        spec_plan(Action::NightMode, group) == seq![
            spec_opcode(Action::On, group),
            spec_opcode(Action::NightMode, group),
        ],
        action != Action::FullBrightness && action != Action::NightMode ==> spec_plan(
            action,
            group,
        ) == seq![spec_opcode(action, group)],
{
}

/// One step of a dispatch: the packet to transmit and how long to wait
/// before handing it to the network.
pub struct TransmitStep {
    /// The three-byte command packet.
    pub packet: [u8; 3],
    /// Nanoseconds the caller must wait before transmitting.
    pub wait_ns: u64,
}

/// A dispatcher bound to one destination and one group. It resolves
/// each requested action via the opcode table, queues the resulting
/// opcodes, and releases them one transmission step at a time, each
/// step throttled against the previous transmission.
pub struct GroupWhite {
    /// Destination of every packet this dispatcher produces.
    pub connection: Connection,
    /// The group this dispatcher addresses: 0 for all groups, 1..=4
    /// for one zone.
    pub group: u8,
    /// When the previous transmission happened (or when the dispatcher
    /// was built), in nanoseconds on the caller's clock.
    pub last_send_ns: u64,
    /// The minimum spacing between transmissions, in nanoseconds.
    pub min_interval_ns: u64,
    /// Opcodes resolved but not yet released for transmission, in
    /// transmission order.
    pub pending: Vec<u8>,
}

impl GroupWhite {
    /// Well-formedness: the group is one of the five valid values and
    /// the interval is the fixed protocol constant.
    pub open spec fn wf(self) -> bool {
        &&& self.group <= MAX_GROUP
        &&& self.min_interval_ns == MIN_INTERVAL_NS
    }

    /// Builds a dispatcher bound to `connection` and `group`, with
    /// nothing pending. `now_ns` is the clock at construction; the
    /// first transmission is throttled against it.
    pub fn new(connection: Connection, group: u8, now_ns: u64) -> (r: GroupWhite)
        requires
            group <= MAX_GROUP,
        ensures
            r.wf(),
            r.connection == connection,
            r.group == group,
            r.last_send_ns == now_ns,
            r.pending@ == Seq::<u8>::empty(),
    {
        let r = GroupWhite {
            connection,
            group,
            last_send_ns: now_ns,
            min_interval_ns: MIN_INTERVAL_NS,
            pending: Vec::new(),
        };
        assert(r.pending@ =~= Seq::<u8>::empty());
        r
    }

    /// Resolves `action` for the bound group and queues its opcodes
    /// for transmission. The table is total over the valid groups, so
    /// on a well-formed dispatcher this always succeeds.
    pub fn request(&mut self, action: Action) -> (r: Result<(), MciError>)
        requires
            old(self).wf(),
            old(self).pending@.len() == 0,
        ensures
            final(self).wf(),
            final(self).connection == old(self).connection,
            final(self).group == old(self).group,
            final(self).last_send_ns == old(self).last_send_ns,
            r == Ok::<(), MciError>(()),
            final(self).pending@ == spec_plan(action, old(self).group),
    {
        let plan = match plan_for(action, self.group) {
            Ok(plan) => plan,
            Err(e) => {
                return Err(e);
            },
        };
        self.pending = plan;
        Ok(())
    }

    /// Releases the next queued opcode as a transmission step: the
    /// framed packet and the throttling delay that keeps this
    /// transmission at least the minimum interval after the previous
    /// one. The dispatcher records the transmission time (`now_ns`
    /// plus the returned delay) before handing the step out. Returns
    /// `None`, and changes nothing, when nothing is pending.
    pub fn next_send(&mut self, now_ns: u64) -> (r: Option<TransmitStep>)
        requires
            old(self).wf(),
            now_ns + MIN_INTERVAL_NS <= u64::MAX,
        ensures
            final(self).wf(),
            final(self).connection == old(self).connection,
            final(self).group == old(self).group,
            old(self).pending@.len() == 0 ==> r is None && *final(self) == *old(self),
            old(self).pending@.len() > 0 ==> r is Some,
            (r matches Some(step) ==> {
                &&& step.packet@ == spec_packet(old(self).pending@[0])
                &&& step.wait_ns == spec_wait_ns(old(self).last_send_ns as int, now_ns as int)
                &&& final(self).pending@ == old(self).pending@.drop_first()
                &&& final(self).last_send_ns == spec_send_time(
                    old(self).last_send_ns as int,
                    now_ns as int,
                )
            }),
    {
        if self.pending.len() == 0 {
            return None;
        }
        let opcode: u8 = self.pending.remove(0);
        assert(self.pending@ =~= old(self).pending@.drop_first());
        let wait_ns: u64 = if now_ns >= self.last_send_ns {
            let elapsed: u64 = now_ns - self.last_send_ns;
            if elapsed < self.min_interval_ns {
                self.min_interval_ns - elapsed
            } else {
                0
            }
        } else {
            0
        };
        if now_ns >= self.last_send_ns {
            self.last_send_ns = now_ns + wait_ns;
        }
        Some(TransmitStep { packet: packet_for(opcode), wait_ns })
    }

    /// Switches the bound group on.
    pub fn on(&mut self) -> (r: Result<(), MciError>)
        requires
            old(self).wf(),
            old(self).pending@.len() == 0,
        ensures
            final(self).wf(),
            final(self).connection == old(self).connection,
            final(self).group == old(self).group,
            final(self).last_send_ns == old(self).last_send_ns,
            r == Ok::<(), MciError>(()),
            final(self).pending@ == seq![spec_opcode(Action::On, old(self).group)],
    {
        self.request(Action::On)
    }

    /// Switches the bound group off.
    pub fn off(&mut self) -> (r: Result<(), MciError>)
        requires
            old(self).wf(),
            old(self).pending@.len() == 0,
        ensures
            final(self).wf(),
            final(self).connection == old(self).connection,
            final(self).group == old(self).group,
            final(self).last_send_ns == old(self).last_send_ns,
            r == Ok::<(), MciError>(()),
            final(self).pending@ == seq![spec_opcode(Action::Off, old(self).group)],
    {
        self.request(Action::Off)
    }

    /// Steps the group's brightness up by one.
    pub fn increase_brightness(&mut self) -> (r: Result<(), MciError>)
        requires
            old(self).wf(),
            old(self).pending@.len() == 0,
        ensures
            final(self).wf(),
            final(self).connection == old(self).connection,
            final(self).group == old(self).group,
            final(self).last_send_ns == old(self).last_send_ns,
            r == Ok::<(), MciError>(()),
            final(self).pending@ == seq![spec_opcode(Action::BrightnessUp, old(self).group)],
    {
        self.request(Action::BrightnessUp)
    }

    /// Steps the group's brightness down by one.
    pub fn decrease_brightness(&mut self) -> (r: Result<(), MciError>)
        requires
            old(self).wf(),
            old(self).pending@.len() == 0,
        ensures
            final(self).wf(),
            final(self).connection == old(self).connection,
            final(self).group == old(self).group,
            final(self).last_send_ns == old(self).last_send_ns,
            r == Ok::<(), MciError>(()),
            final(self).pending@ == seq![spec_opcode(Action::BrightnessDown, old(self).group)],
    {
        self.request(Action::BrightnessDown)
    }

    /// Steps the group's white colour one notch warmer.
    pub fn increase_warmth(&mut self) -> (r: Result<(), MciError>)
        requires
            old(self).wf(),
            old(self).pending@.len() == 0,
        ensures
            final(self).wf(),
            final(self).connection == old(self).connection,
            final(self).group == old(self).group,
            final(self).last_send_ns == old(self).last_send_ns,
            r == Ok::<(), MciError>(()),
            final(self).pending@ == seq![spec_opcode(Action::WarmthUp, old(self).group)],
    {
        self.request(Action::WarmthUp)
    }

    /// Steps the group's white colour one notch cooler.
    pub fn decrease_warmth(&mut self) -> (r: Result<(), MciError>)
        requires
            old(self).wf(),
            old(self).pending@.len() == 0,
        ensures
            final(self).wf(),
            final(self).connection == old(self).connection,
            final(self).group == old(self).group,
            final(self).last_send_ns == old(self).last_send_ns,
            r == Ok::<(), MciError>(()),
            final(self).pending@ == seq![spec_opcode(Action::WarmthDown, old(self).group)],
    {
        self.request(Action::WarmthDown)
    }

    /// Switches the group on, then sets it to full brightness: two
    /// transmissions, in that order, throttled against each other.
    pub fn brightmode(&mut self) -> (r: Result<(), MciError>)
        requires
            old(self).wf(),
            old(self).pending@.len() == 0,
        ensures
            final(self).wf(),
            final(self).connection == old(self).connection,
            final(self).group == old(self).group,
            final(self).last_send_ns == old(self).last_send_ns,
            r == Ok::<(), MciError>(()),
            final(self).pending@ == seq![
                spec_opcode(Action::On, old(self).group),
                spec_opcode(Action::FullBrightness, old(self).group),
            ],
    {
        self.request(Action::FullBrightness)
    }

    /// Switches the group on, then sets it to night mode: two
    /// transmissions, in that order, throttled against each other.
    pub fn nightmode(&mut self) -> (r: Result<(), MciError>)
        requires
            old(self).wf(),
            old(self).pending@.len() == 0,
        ensures
            final(self).wf(),
            final(self).connection == old(self).connection,
            final(self).group == old(self).group,
            final(self).last_send_ns == old(self).last_send_ns,
            r == Ok::<(), MciError>(()),
            final(self).pending@ == seq![
                spec_opcode(Action::On, old(self).group),
                spec_opcode(Action::NightMode, old(self).group),
            ],
    {
        self.request(Action::NightMode)
    }
}

} // verus!
