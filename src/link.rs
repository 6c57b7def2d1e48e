use vstd::prelude::*;
use crate::input::ControllerInput;
use crate::moving_sum::{seq_sum, window_push, MovingSum};
use crate::wire::{drone_status_of, flight_input_bytes, DroneStatus, FlightInput, DRONE_STATUS_SIZE};

verus! {

/// Number of recent transmissions whose retry counts feed the link score.
pub const QUALITY_WINDOW: usize = 50;

/// Connection state of the radio link, as published to the display.
#[derive(Clone, Copy, Debug, PartialEq, Eq, Structural)]
pub struct RadioStatus {
    pub connected: bool,
}

impl Default for RadioStatus {
    fn default() -> (r: Self)
        ensures
            !r.connected,
    {
        RadioStatus { connected: false }
    }
}

/// Whether the radio link is up.
#[derive(Clone, Copy, Debug, PartialEq, Eq, Structural)]
pub struct RadioState {
    pub connected: bool,
}

/// Records whether the radio link is up.
pub fn update_connected(state: &mut RadioState, connected: bool)
    ensures
        final(state).connected == connected,
{
    state.connected = connected;
}

/// The fixed parameters of the duty cycle.
#[derive(Clone, Copy, Debug, PartialEq, Eq, Structural)]
pub struct LinkConfig {
    /// The link score is published after every this many successful writes.
    pub quality_update_period: u32,
    /// The retry count that stands for a link score of zero.
    pub max_expected_retries: u8,
    /// After this many failed cycles in a row the link is reported lost; 0 never reports it.
    pub failures_before_disconnect: u32,
}

impl LinkConfig {
    pub open spec fn valid(self) -> bool {
        self.quality_update_period > 0 && self.max_expected_retries > 0
    }
}

/// A link score in [0, 1], as the exact fraction `numerator / denominator`.
#[derive(Clone, Copy, Debug, PartialEq, Eq, Structural)]
pub struct LinkScore {
    pub numerator: u32,
    pub denominator: u32,
}

/// The link score of a window of retry counts: one less the average retry
/// count over `max_retries`, and never below zero. An empty window scores one.
pub open spec fn link_score_of(samples: Seq<u8>, max_retries: u8) -> LinkScore {
    let total = samples.len() * max_retries;
    let sum = seq_sum(samples);
    if total == 0 {
        LinkScore { numerator: 1, denominator: 1 }
    } else if sum >= total {
        LinkScore { numerator: 0, denominator: total as u32 }
    } else {
        LinkScore { numerator: (total - sum) as u32, denominator: total as u32 }
    }
}

/// The link score of the retry counts that `window` holds.
pub fn link_score<const N: usize>(window: &MovingSum<N>, max_expected_retries: u8) -> (r: LinkScore)
    requires
        window.wf(),
        max_expected_retries > 0,
    ensures
        r == link_score_of(window.samples(), max_expected_retries),
        0 < r.denominator,
        r.numerator <= r.denominator,
{
    proof {
        window.lemma_bounds();
        assert(window.samples().len() * max_expected_retries <= 257 * 255) by (nonlinear_arith)
            requires
                window.samples().len() <= N,
                N * 255 <= u16::MAX,
                max_expected_retries <= 255,
        ;
    }
    let total: u32 = window.len() as u32 * max_expected_retries as u32;
    let sum: u32 = window.sum() as u32;
    if total == 0 {
        LinkScore { numerator: 1, denominator: 1 }
    } else if sum >= total {
        LinkScore { numerator: 0, denominator: total }
    } else {
        LinkScore { numerator: total - sum, denominator: total }
    }
}

/// What the radio reported while the link waited for an acknowledgement.
#[derive(Clone, Copy, Debug, PartialEq, Eq, Structural)]
pub enum AckWait {
    /// The wait ran out before the radio signalled anything.
    TimedOut,
    /// The radio signalled, with these flags of its status register.
    Interrupt { max_retries_exceeded: bool, data_ready: bool },
}

/// What the radio is to do next in the cycle.
#[derive(Clone, Copy, Debug, PartialEq, Eq, Structural)]
pub enum AckAction {
    /// No reply came: clear the radio's pending status.
    ResetStatus,
    /// The write was never acknowledged: drop it from the transmit queue.
    FlushTx,
    /// The write was delivered and a reply payload waits: read it.
    ReadAck,
    /// The write was delivered without a reply payload.
    Delivered,
}

/// What the duty cycle keeps from one cycle to the next.
pub struct LinkView {
    pub config: LinkConfig,
    /// Retry counts of recent writes, oldest first.
    pub retries: Seq<u8>,
    /// Successful writes since the link score was last published.
    pub writes_since_score: u32,
    pub total_failures: u64,
    pub consecutive_failures: u32,
    /// Buttons pressed since the last confirmed delivery.
    pub latch: u8,
}

/// The command transmitted for the live input: every latched button is held down.
pub open spec fn latched_command(live: ControllerInput, latch: u8) -> FlightInput {
    FlightInput {
        left_stick_x: live.left_stick_x,
        left_stick_y: live.left_stick_y,
        right_stick_x: live.right_stick_x,
        right_stick_y: live.right_stick_y,
        left_trigger: live.left_trigger,
        right_trigger: live.right_trigger,
        buttons: latch,
    }
}

impl LinkView {
    /// The state after sampling `live`: its buttons join the latch.
    pub open spec fn sampled(self, live: ControllerInput) -> LinkView {
        LinkView { latch: self.latch | live.buttons, ..self }
    }

    /// The state after a cycle that ended without confirmed delivery.
    pub open spec fn failed(self) -> LinkView {
        LinkView {
            total_failures: if self.total_failures == u64::MAX {
                self.total_failures
            } else {
                (self.total_failures + 1) as u64
            },
            consecutive_failures: if self.consecutive_failures == u32::MAX {
                self.consecutive_failures
            } else {
                (self.consecutive_failures + 1) as u32
            },
            ..self
        }
    }

    /// The state after a confirmed delivery: the latched buttons reached the
    /// vehicle, so the latch is cleared.
    pub open spec fn delivered(self) -> LinkView {
        LinkView { latch: 0, consecutive_failures: 0, ..self }
    }

    /// Whether enough cycles in a row failed for the link to count as lost.
    pub open spec fn lost(self) -> bool {
        self.config.failures_before_disconnect > 0 && self.consecutive_failures
            >= self.config.failures_before_disconnect
    }
}

/// The radio side of the controller: one fixed-period duty cycle of sample,
/// transmit, await acknowledgement, process it, and update the link score.
/// Each method takes one step of the cycle and says what to do next; the
/// caller does the radio work and the waiting between steps.
pub struct RadioLink {
    config: LinkConfig,
    window: MovingSum<QUALITY_WINDOW>,
    writes_since_score: u32,
    total_failures: u64,
    consecutive_failures: u32,
    latch: u8,
}

impl View for RadioLink {
    type V = LinkView;

    closed spec fn view(&self) -> LinkView {
        LinkView {
            config: self.config,
            retries: self.window.samples(),
            writes_since_score: self.writes_since_score,
            total_failures: self.total_failures,
            consecutive_failures: self.consecutive_failures,
            latch: self.latch,
        }
    }
}

impl RadioLink {
    /// The link's internal invariant.
    pub closed spec fn wf(&self) -> bool {
        &&& self.window.wf()
        &&& self.config.valid()
        &&& self.writes_since_score < self.config.quality_update_period
    }

    /// A link before its first cycle: no retry counts, no failures, nothing latched.
    pub fn new(config: LinkConfig) -> (r: Self)
        requires
            config.valid(),
        ensures
            r.wf(),
            r@ == (LinkView {
                config,
                retries: Seq::empty(),
                writes_since_score: 0,
                total_failures: 0,
                consecutive_failures: 0,
                latch: 0,
            }),
    {
        RadioLink {
            config,
            window: MovingSum::new(),
            writes_since_score: 0,
            total_failures: 0,
            consecutive_failures: 0,
            latch: 0,
        }
    }

    /// Samples the live input at the start of a cycle and returns the wire
    /// record to transmit: the live sticks and triggers, with its buttons and
    /// every button latched since the last confirmed delivery.
    pub fn sample(&mut self, live: &ControllerInput) -> (r: Vec<u8>)
        requires
            old(self).wf(),
        ensures
            final(self).wf(),
            final(self)@ == old(self)@.sampled(*live),
            r@ == flight_input_bytes(latched_command(*live, final(self)@.latch)),
    {
        self.latch = self.latch | live.buttons;
        let command = FlightInput {
            left_stick_x: live.left_stick_x,
            left_stick_y: live.left_stick_y,
            right_stick_x: live.right_stick_x,
            right_stick_y: live.right_stick_y,
            left_trigger: live.left_trigger,
            right_trigger: live.right_trigger,
            buttons: self.latch,
        };
        command.as_bytes()
    }

    fn fail(&mut self)
        requires
            old(self).wf(),
        ensures
            final(self).wf(),
            final(self)@ == old(self)@.failed(),
    {
        if self.total_failures < u64::MAX {
            self.total_failures = self.total_failures + 1;
        }
        if self.consecutive_failures < u32::MAX {
            self.consecutive_failures = self.consecutive_failures + 1;
        }
    }

    /// Records a cycle that failed outside the acknowledgement: the write or
    /// the read of the reply failed at the radio. The latch is kept.
    pub fn record_failure(&mut self)
        requires
            old(self).wf(),
        ensures
            final(self).wf(),
            final(self)@ == old(self)@.failed(),
    {
        self.fail();
    }

    /// Records the retry count of a successful write. On every
    /// `quality_update_period`-th write it returns the link score to publish.
    pub fn on_write_done(&mut self, retries: u8) -> (r: Option<LinkScore>)
        requires
            old(self).wf(),
        ensures
            final(self).wf(),
            final(self)@.retries == window_push(old(self)@.retries, QUALITY_WINDOW as nat, retries),
            old(self)@.writes_since_score + 1 == old(self)@.config.quality_update_period ==> {
                &&& final(self)@.writes_since_score == 0
                &&& r == Some(
                    link_score_of(final(self)@.retries, old(self)@.config.max_expected_retries),
                )
            },
            old(self)@.writes_since_score + 1 != old(self)@.config.quality_update_period ==> {
                &&& final(self)@.writes_since_score == old(self)@.writes_since_score + 1
                &&& r == None::<LinkScore>
            },
            final(self)@.config == old(self)@.config,
            final(self)@.total_failures == old(self)@.total_failures,
            final(self)@.consecutive_failures == old(self)@.consecutive_failures,
            final(self)@.latch == old(self)@.latch,
    {
        self.window.push(retries);
        let writes = self.writes_since_score + 1;
        if writes == self.config.quality_update_period {
            self.writes_since_score = 0;
            Some(link_score(&self.window, self.config.max_expected_retries))
        } else {
            self.writes_since_score = writes;
            None
        }
    }

    /// Takes in how the wait for an acknowledgement ended, and says what the
    /// radio is to do. Only a delivery that the radio confirmed clears the
    /// latch; a timeout leaves the outcome unknown and keeps the latched
    /// buttons for the next cycle, as a write that ran out of retries does.
    pub fn on_ack_wait(&mut self, wait: AckWait) -> (r: AckAction)
        requires
            old(self).wf(),
        ensures
            final(self).wf(),
            match wait {
                AckWait::TimedOut => r == AckAction::ResetStatus && final(self)@ == old(
                    self,
                )@.failed(),
                AckWait::Interrupt { max_retries_exceeded, data_ready } => if max_retries_exceeded {
                    r == AckAction::FlushTx && final(self)@ == old(self)@.failed()
                } else {
                    final(self)@ == old(self)@.delivered() && r == (if data_ready {
                        AckAction::ReadAck
                    } else {
                        AckAction::Delivered
                    })
                },
            },
    {
        match wait {
            AckWait::TimedOut => {
                self.fail();
                AckAction::ResetStatus
            },
            AckWait::Interrupt { max_retries_exceeded, data_ready } => {
                if max_retries_exceeded {
                    self.fail();
                    AckAction::FlushTx
                } else {
                    self.latch = 0;
                    self.consecutive_failures = 0;
                    if data_ready {
                        AckAction::ReadAck
                    } else {
                        AckAction::Delivered
                    }
                }
            },
        }
    }

    /// Takes in the reply payload of a delivered write. A payload of the
    /// vehicle status's size is decoded and returned, to be published; one of
    /// any other size is discarded without being read, and the cycle counts
    /// as failed.
    pub fn on_ack_payload(&mut self, payload: &[u8]) -> (r: Option<DroneStatus>)
        requires
            old(self).wf(),
        ensures
            final(self).wf(),
            payload@.len() == DRONE_STATUS_SIZE ==> r == Some(drone_status_of(payload@))
                && final(self)@ == old(self)@,
            payload@.len() != DRONE_STATUS_SIZE ==> r == None::<DroneStatus> && final(self)@
                == old(self)@.failed(),
    {
        let status = DroneStatus::read_from_bytes(payload);
        if status.is_none() {
            self.fail();
        }
        status
    }

    /// Whether enough cycles in a row failed for the link to count as lost.
    pub fn connection_lost(&self) -> (r: bool)
        ensures
            r == self@.lost(),
    {
        self.config.failures_before_disconnect > 0 && self.consecutive_failures
            >= self.config.failures_before_disconnect
    }

    /// The number of cycles that failed since the link was made.
    pub fn total_failures(&self) -> (r: u64)
        ensures
            r == self@.total_failures,
    {
        self.total_failures
    }
}

/// A button pressed in one cycle whose acknowledgement timed out is still
/// transmitted in the next cycle, whatever the live input then shows.
pub proof fn lemma_latch_survives_timeout(
    v: LinkView,
    pressed: ControllerInput,
    later: ControllerInput,
)
    ensures
        latched_command(later, v.sampled(pressed).failed().sampled(later).latch).buttons
            & pressed.buttons == pressed.buttons,
{
    let l = v.latch;
    let p = pressed.buttons;
    let q = later.buttons;
    assert(((l | p) | q) & p == p) by (bit_vector);
}

} // verus!
