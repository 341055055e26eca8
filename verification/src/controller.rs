//! The client interaction controller: the single owner of all mutable
//! session state. Workflows return results; only the controller writes them
//! back. The one piece of cross-workflow coupling is the shared verification
//! token slot, consumed atomically on workflow start.

use vstd::prelude::*;
use crate::record::CredentialRecord;
use crate::token::{TokenSlot, after_consume, consume_grant};
use crate::workflow::{AcquireError, BulkResult, EmailType, SingleResult};

verus! {

/// One poll of the stock counts, superseded wholesale by the next.
#[derive(Clone, Copy, PartialEq, Eq, Structural, Debug)]
pub struct InventorySnapshot {
    pub outlook: u32,
    pub hotmail: u32,
    pub allocated: u32,
    pub fetched_at: u64,
}

/// Where the inventory poller stands: one fetch on start, exactly one more
/// after a fixed delay, then no further background polling.
#[derive(Clone, Copy, PartialEq, Eq, Structural, Debug)]
pub enum PollPhase {
    Startup,
    DelayScheduled,
    Settled,
}

/// The delay before the second (and last) inventory fetch, in milliseconds.
pub const POLL_DELAY_MILLIS: u32 = 5000;

/// The verification widget's lifecycle. Its external script is injected
/// exactly once per session; a load or render fault takes the subsystem down
/// for the rest of the session, disabling acquisition instead of crashing.
#[derive(Clone, Copy, PartialEq, Eq, Structural, Debug)]
pub enum WidgetPhase {
    NotInjected,
    Loading,
    Ready,
    Down,
}

/// What a workflow start hands back: the request parameters to launch with,
/// or a refusal before any request was made.
pub enum StartDecision {
    Launch { email_type: EmailType, token: Vec<char> },
    NoTokenPresent,
    VerificationUnavailable,
}

/// The aggregate session state, owned exclusively by the controller.
pub struct Controller {
    pub email_type: EmailType,
    pub token: TokenSlot,
    pub single: Option<SingleResult>,
    pub bulk_records: Vec<CredentialRecord>,
    pub error_slot: Option<AcquireError>,
    pub show_credentials: bool,
    pub show_bulk_credentials: bool,
    pub single_busy: bool,
    pub bulk_busy: bool,
    pub inventory: InventorySnapshot,
    pub poll_phase: PollPhase,
    pub widget_phase: WidgetPhase,
}

impl Controller {
    /// A fresh session: random type selected, no token, nothing acquired,
    /// both reveal modes on credentials, both workflows idle, zero stock,
    /// polling not yet started.
    pub fn new() -> (c: Self)
        ensures
            c.email_type == EmailType::Random,
            c.token@ is None,
            c.single is None,
            c.bulk_records@.len() == 0,
            c.error_slot is None,
            c.show_credentials,
            c.show_bulk_credentials,
            !c.single_busy,
            !c.bulk_busy,
            c.inventory == (InventorySnapshot { outlook: 0, hotmail: 0, allocated: 0, fetched_at: 0 }),
            c.poll_phase is Startup,
            c.widget_phase is NotInjected,
    {
        Controller {
            email_type: EmailType::Random,
            token: TokenSlot::new(),
            single: None,
            bulk_records: Vec::new(),
            error_slot: None,
            show_credentials: true,
            show_bulk_credentials: true,
            single_busy: false,
            bulk_busy: false,
            inventory: InventorySnapshot { outlook: 0, hotmail: 0, allocated: 0, fetched_at: 0 },
            poll_phase: PollPhase::Startup,
            widget_phase: WidgetPhase::NotInjected,
        }
    }

    /// Controller construction time: asks for the widget's external script to
    /// be injected and its load callback registered. Effective exactly once
    /// per session, so the widget renders at most one instance.
    pub fn widget_on_init(&mut self) -> (inject: bool)
        ensures
            inject == (old(self).widget_phase is NotInjected),
            old(self).widget_phase is NotInjected ==> final(self).widget_phase is Loading,
            !(old(self).widget_phase is NotInjected) ==> final(self).widget_phase == old(
                self,
            ).widget_phase,
            *final(self) == (Controller { widget_phase: final(self).widget_phase, ..*old(self) }),
    {
        match self.widget_phase {
            WidgetPhase::NotInjected => {
                self.widget_phase = WidgetPhase::Loading;
                true
            },
            _ => false,
        }
    }

    /// The widget's script loaded and the one instance rendered.
    pub fn widget_on_loaded(&mut self)
        requires
            old(self).widget_phase is Loading,
        ensures
            final(self).widget_phase is Ready,
            *final(self) == (Controller { widget_phase: WidgetPhase::Ready, ..*old(self) }),
    {
        self.widget_phase = WidgetPhase::Ready;
    }

    /// The script failed to load, or its reset entry point is missing: the
    /// subsystem is down for the rest of the session and acquisition is
    /// disabled, with the refusal surfaced instead of a crash.
    pub fn widget_on_failed(&mut self)
        ensures
            final(self).widget_phase is Down,
            *final(self) == (Controller { widget_phase: WidgetPhase::Down, ..*old(self) }),
    {
        self.widget_phase = WidgetPhase::Down;
    }

    /// The render surface selected another account type.
    pub fn set_email_type(&mut self, t: EmailType)
        ensures
            *final(self) == (Controller { email_type: t, ..*old(self) }),
    {
        self.email_type = t;
    }

    /// The widget solved a challenge: the token supersedes any held one.
    pub fn on_solved(&mut self, token: Vec<char>)
        ensures
            final(self).token@ == Some(token@),
            *final(self) == (Controller { token: final(self).token, ..*old(self) }),
    {
        self.token.on_solved(token);
    }

    /// Tries to start the single acquisition. With the verification
    /// subsystem down the attempt is refused untouched; otherwise the token
    /// is consumed atomically: with a token present the workflow is launched
    /// busy, carrying that exact token; with none present the attempt is
    /// refused before any request, and nothing but the (already cleared)
    /// token slot changes.
    pub fn start_single(&mut self) -> (d: StartDecision)
        requires
            !old(self).single_busy,
        ensures
            old(self).widget_phase is Down ==> {
                &&& d is VerificationUnavailable
                &&& *final(self) == *old(self)
            },
            !(old(self).widget_phase is Down) ==> final(self).token@ == after_consume(
                old(self).token@,
            ),
            !(old(self).widget_phase is Down) && old(self).token@ is Some ==> {
                &&& d matches StartDecision::Launch { email_type, token }
                &&& email_type == old(self).email_type
                &&& Some(token@) == consume_grant(old(self).token@)
                &&& *final(self) == (Controller {
                    single_busy: true,
                    token: final(self).token,
                    ..*old(self)
                })
            },
            !(old(self).widget_phase is Down) && old(self).token@ is None ==> {
                &&& d is NoTokenPresent
                &&& *final(self) == (Controller { token: final(self).token, ..*old(self) })
            },
    {
        match self.widget_phase {
            WidgetPhase::Down => {
                return StartDecision::VerificationUnavailable;
            },
            _ => {},
        }
        match self.token.consume() {
            Some(token) => {
                self.single_busy = true;
                StartDecision::Launch { email_type: self.email_type, token }
            },
            None => StartDecision::NoTokenPresent,
        }
    }

    /// The single workflow resolved: its result lands in the single slot,
    /// the busy flag clears, and the token slot is reset unconditionally so
    /// the next attempt needs a fresh solution.
    pub fn finish_single(&mut self, res: SingleResult)
        requires
            old(self).single_busy,
        ensures
            final(self).single == Some(res),
            !final(self).single_busy,
            final(self).token@ is None,
            *final(self) == (Controller {
                single: final(self).single,
                single_busy: false,
                token: final(self).token,
                ..*old(self)
            }),
    {
        self.single = Some(res);
        self.single_busy = false;
        self.token.reset();
    }

    /// Tries to start the bulk acquisition: same subsystem gate and atomic
    /// token rule as the single start. Any prior inline error is cleared on
    /// every attempt that reaches the token check.
    pub fn start_bulk(&mut self) -> (d: StartDecision)
        requires
            !old(self).bulk_busy,
        ensures
            old(self).widget_phase is Down ==> {
                &&& d is VerificationUnavailable
                &&& *final(self) == *old(self)
            },
            !(old(self).widget_phase is Down) ==> {
                &&& final(self).token@ == after_consume(old(self).token@)
                &&& final(self).error_slot is None
            },
            !(old(self).widget_phase is Down) && old(self).token@ is Some ==> {
                &&& d matches StartDecision::Launch { email_type, token }
                &&& email_type == old(self).email_type
                &&& Some(token@) == consume_grant(old(self).token@)
                &&& *final(self) == (Controller {
                    bulk_busy: true,
                    error_slot: None,
                    token: final(self).token,
                    ..*old(self)
                })
            },
            !(old(self).widget_phase is Down) && old(self).token@ is None ==> {
                &&& d is NoTokenPresent
                &&& *final(self) == (Controller {
                    error_slot: None,
                    token: final(self).token,
                    ..*old(self)
                })
            },
    {
        match self.widget_phase {
            WidgetPhase::Down => {
                return StartDecision::VerificationUnavailable;
            },
            _ => {},
        }
        self.error_slot = None;
        match self.token.consume() {
            Some(token) => {
                self.bulk_busy = true;
                StartDecision::Launch { email_type: self.email_type, token }
            },
            None => StartDecision::NoTokenPresent,
        }
    }

    /// The bulk workflow resolved: a success replaces the record list, a
    /// failure lands in the error slot and leaves the list standing. The busy
    /// flag clears and the token slot is reset unconditionally.
    pub fn finish_bulk(&mut self, res: BulkResult)
        requires
            old(self).bulk_busy,
        ensures
            !final(self).bulk_busy,
            final(self).token@ is None,
            res matches BulkResult::Success { records } ==> {
                &&& final(self).bulk_records == records
                &&& final(self).error_slot is None
                &&& *final(self) == (Controller {
                    bulk_records: final(self).bulk_records,
                    error_slot: None,
                    bulk_busy: false,
                    token: final(self).token,
                    ..*old(self)
                })
            },
            res matches BulkResult::Failure { error } ==> {
                &&& final(self).error_slot == Some(error)
                &&& final(self).bulk_records == old(self).bulk_records
                &&& *final(self) == (Controller {
                    error_slot: final(self).error_slot,
                    bulk_busy: false,
                    token: final(self).token,
                    ..*old(self)
                })
            },
    {
        match res {
            BulkResult::Success { records } => {
                self.bulk_records = records;
                self.error_slot = None;
            },
            BulkResult::Failure { error } => {
                self.error_slot = Some(error);
            },
        }
        self.bulk_busy = false;
        self.token.reset();
    }

    /// A poll resolved: a fetched snapshot supersedes the held one wholesale;
    /// a failed poll is absorbed and the previous snapshot is retained.
    pub fn apply_inventory(&mut self, fetched: Option<InventorySnapshot>)
        ensures
            fetched matches Some(s) ==> final(self).inventory == s,
            fetched is None ==> final(self).inventory == old(self).inventory,
            *final(self) == (Controller { inventory: final(self).inventory, ..*old(self) }),
    {
        match fetched {
            Some(s) => {
                self.inventory = s;
            },
            None => {},
        }
    }

    /// Controller start: asks for the first inventory fetch and schedules the
    /// single delayed one. Only effective in the startup phase.
    pub fn poll_on_start(&mut self) -> (fetch_now: bool)
        ensures
            fetch_now == (old(self).poll_phase is Startup),
            old(self).poll_phase is Startup ==> final(self).poll_phase is DelayScheduled,
            !(old(self).poll_phase is Startup) ==> final(self).poll_phase == old(self).poll_phase,
            *final(self) == (Controller { poll_phase: final(self).poll_phase, ..*old(self) }),
    {
        match self.poll_phase {
            PollPhase::Startup => {
                self.poll_phase = PollPhase::DelayScheduled;
                true
            },
            _ => false,
        }
    }

    /// The fixed delay elapsed: asks for the one deferred fetch, after which
    /// polling settles for good.
    pub fn poll_on_delay_elapsed(&mut self) -> (fetch_now: bool)
        ensures
            fetch_now == (old(self).poll_phase is DelayScheduled),
            old(self).poll_phase is DelayScheduled ==> final(self).poll_phase is Settled,
            !(old(self).poll_phase is DelayScheduled) ==> final(self).poll_phase == old(
                self,
            ).poll_phase,
            *final(self) == (Controller { poll_phase: final(self).poll_phase, ..*old(self) }),
    {
        match self.poll_phase {
            PollPhase::DelayScheduled => {
                self.poll_phase = PollPhase::Settled;
                true
            },
            _ => false,
        }
    }

    /// Flips the single view between the credential pair and the token pair.
    pub fn toggle_single_view(&mut self)
        ensures
            final(self).show_credentials == !old(self).show_credentials,
            *final(self) == (Controller {
                show_credentials: !old(self).show_credentials,
                ..*old(self)
            }),
    {
        self.show_credentials = !self.show_credentials;
    }

    /// Flips the bulk view between the credential pair and the token pair.
    pub fn toggle_bulk_view(&mut self)
        ensures
            final(self).show_bulk_credentials == !old(self).show_bulk_credentials,
            *final(self) == (Controller {
                show_bulk_credentials: !old(self).show_bulk_credentials,
                ..*old(self)
            }),
    {
        self.show_bulk_credentials = !self.show_bulk_credentials;
    }
}

/// The decision of a start, against the token state it consumed from: a
/// launch carries exactly the consumed token, and a token refusal happens
/// exactly when no token was present.
pub open spec fn start_grants(t: Option<Seq<char>>, d: StartDecision) -> bool {
    match d {
        StartDecision::Launch { email_type, token } => consume_grant(t) == Some(token@),
        StartDecision::NoTokenPresent => consume_grant(t) is None,
        StartDecision::VerificationUnavailable => true,
    }
}

/// Hardened token sharing: when one workflow's start has consumed the token,
/// a second start before any new solve observes absence and is refused, so
/// two in-flight workflows can never carry the same token value.
pub proof fn lemma_second_start_refused(t: Option<Seq<char>>, d: StartDecision)
    requires
        start_grants(after_consume(t), d),
    ensures
        !(d is Launch),
{
}

} // verus!

