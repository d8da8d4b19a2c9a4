use std::collections::HashMap;
use vstd::prelude::*;

use crate::address::Address;

verus! {

broadcast use vstd::std_specs::hash::group_hash_axioms;

/// Whether a schedule fires once or repeats.
#[derive(Clone, Copy, PartialEq, Eq, Debug, Structural)]
pub enum ScheduleKind {
    OneTime,
    Recurring,
}

/// Lifecycle state of a schedule.
#[derive(Clone, Copy, PartialEq, Eq, Debug, Structural)]
pub enum ScheduleStatus {
    Pending,
    Executed,
    Cancelled,
}

/// The errors with which the scheduler refuses a request.
#[derive(Clone, Copy, PartialEq, Eq, Debug, Structural)]
pub enum Error {
    AlreadyInitialized,
    NotInitialized,
    Unauthorized,
    ContractPaused,
    ScheduleNotFound,
    NotPending,
    NotDue,
    InvalidAmount,
    InvalidInterval,
    InvalidExecuteAt,
}

/// A payment schedule entry.
#[derive(Debug, PartialEq, Eq)]
pub struct Schedule {
    pub payer: Address,
    pub recipient: Address,
    pub token: Address,
    pub amount: i128,
    /// Ledger at which the next execution is due.
    pub execute_at: u32,
    /// For recurring schedules: ledgers between executions. 0 for one-time.
    pub interval_ledgers: u32,
    pub kind: ScheduleKind,
    pub status: ScheduleStatus,
    pub executions: u32,
}

impl Clone for Schedule {
    fn clone(&self) -> (r: Self)
        ensures
            r == *self,
    {
        Schedule {
            payer: self.payer.clone(),
            recipient: self.recipient.clone(),
            token: self.token.clone(),
            amount: self.amount,
            execute_at: self.execute_at,
            interval_ledgers: self.interval_ledgers,
            kind: self.kind,
            status: self.status,
            executions: self.executions,
        }
    }
}

/// A token transfer that an execution orders: `amount` of `token` from `from` to `to`.
#[derive(Debug, PartialEq, Eq)]
pub struct Transfer {
    pub token: Address,
    pub from: Address,
    pub to: Address,
    pub amount: i128,
}

/// What the scheduler announces after a successful request.
#[derive(Debug, PartialEq, Eq)]
pub enum Event {
    Created { id: u64, payer: Address, recipient: Address, amount: i128, execute_at: u32 },
    Cancelled { id: u64, caller: Address },
    Modified { id: u64, amount: i128, interval_ledgers: u32 },
    Executed { id: u64, payer: Address, recipient: Address, amount: i128, executions: u32 },
    Paused,
    Unpaused,
    AdminTransferred { new_admin: Address },
}

/// The abstract state of the scheduler.
pub struct SchedulerState {
    pub admin: Option<Address>,
    pub paused: bool,
    /// The identifier of the most recently created schedule (0 before any).
    pub counter: u64,
    pub schedules: Map<u64, Schedule>,
}

/// A schedule that can be stored: a positive amount, a positive interval when
/// it recurs and no interval when it fires once.
pub open spec fn valid_schedule(sched: Schedule) -> bool {
    &&& sched.amount > 0
    &&& sched.kind == ScheduleKind::Recurring ==> sched.interval_ledgers > 0
    &&& sched.kind == ScheduleKind::OneTime ==> sched.interval_ledgers == 0
}

/// Every stored schedule is valid and has an identifier in `1..=counter`.
pub open spec fn well_formed(s: SchedulerState) -> bool {
    forall|id: u64| #[trigger] s.schedules.contains_key(id) ==> {
        &&& 1 <= id <= s.counter
        &&& valid_schedule(s.schedules[id])
    }
}

/// The state before anything happened.
pub open spec fn initial_state() -> SchedulerState {
    SchedulerState { admin: None, paused: false, counter: 0, schedules: Map::empty() }
}

pub open spec fn lookup(s: SchedulerState, id: u64) -> Result<Schedule, Error> {
    if s.schedules.contains_key(id) {
        Ok(s.schedules[id])
    } else {
        Err(Error::ScheduleNotFound)
    }
}

pub open spec fn admin_of(s: SchedulerState) -> Result<Address, Error> {
    match s.admin {
        Some(a) => Ok(a),
        None => Err(Error::NotInitialized),
    }
}

pub open spec fn initialize_result(s: SchedulerState, admin: Address) -> (SchedulerState, Result<(), Error>) {
    if s.admin is Some {
        (s, Err(Error::AlreadyInitialized))
    } else {
        (SchedulerState { admin: Some(admin), paused: false, ..s }, Ok(()))
    }
}

/// The checks that a new schedule must pass, in the order in which they are made.
pub open spec fn schedule_check(
    s: SchedulerState,
    amount: i128,
    execute_at: u32,
    interval_ledgers: u32,
    kind: ScheduleKind,
    current_ledger: u32,
) -> Result<(), Error> {
    if s.paused {
        Err(Error::ContractPaused)
    } else if amount <= 0 {
        Err(Error::InvalidAmount)
    } else if execute_at < current_ledger {
        Err(Error::InvalidExecuteAt)
    } else if kind == ScheduleKind::Recurring && interval_ledgers == 0 {
        Err(Error::InvalidInterval)
    } else {
        Ok(())
    }
}

pub open spec fn new_schedule(
    payer: Address,
    recipient: Address,
    token: Address,
    amount: i128,
    execute_at: u32,
    interval_ledgers: u32,
    kind: ScheduleKind,
) -> Schedule {
    Schedule {
        payer,
        recipient,
        token,
        amount,
        execute_at,
        interval_ledgers: if kind == ScheduleKind::Recurring { interval_ledgers } else { 0 },
        kind,
        status: ScheduleStatus::Pending,
        executions: 0,
    }
}

pub open spec fn schedule_result(
    s: SchedulerState,
    payer: Address,
    recipient: Address,
    token: Address,
    amount: i128,
    execute_at: u32,
    interval_ledgers: u32,
    kind: ScheduleKind,
    current_ledger: u32,
) -> (SchedulerState, Result<(u64, Event), Error>) {
    match schedule_check(s, amount, execute_at, interval_ledgers, kind, current_ledger) {
        Err(e) => (s, Err(e)),
        Ok(_) => {
            let id = (s.counter + 1) as u64;
            let sched = new_schedule(payer, recipient, token, amount, execute_at, interval_ledgers, kind);
            (
                SchedulerState { counter: id, schedules: s.schedules.insert(id, sched), ..s },
                Ok((id, Event::Created { id, payer, recipient, amount, execute_at })),
            )
        },
    }
}

pub open spec fn cancel_result(s: SchedulerState, caller: Address, id: u64) -> (SchedulerState, Result<Event, Error>) {
    if s.paused {
        (s, Err(Error::ContractPaused))
    } else {
        match lookup(s, id) {
            Err(e) => (s, Err(e)),
            Ok(sched) => match admin_of(s) {
                Err(e) => (s, Err(e)),
                Ok(admin) => if caller@ != sched.payer@ && caller@ != admin@ {
                    (s, Err(Error::Unauthorized))
                } else if sched.status != ScheduleStatus::Pending {
                    (s, Err(Error::NotPending))
                } else {
                    let cancelled = Schedule { status: ScheduleStatus::Cancelled, ..sched };
                    (
                        SchedulerState { schedules: s.schedules.insert(id, cancelled), ..s },
                        Ok(Event::Cancelled { id, caller }),
                    )
                },
            },
        }
    }
}

pub open spec fn modify_result(
    s: SchedulerState,
    payer: Address,
    id: u64,
    new_amount: i128,
    new_interval: u32,
) -> (SchedulerState, Result<Event, Error>) {
    if s.paused {
        (s, Err(Error::ContractPaused))
    } else {
        match lookup(s, id) {
            Err(e) => (s, Err(e)),
            Ok(sched) => if sched.payer@ != payer@ {
                (s, Err(Error::Unauthorized))
            } else if sched.status != ScheduleStatus::Pending {
                (s, Err(Error::NotPending))
            } else if new_interval > 0 && sched.kind == ScheduleKind::OneTime {
                (s, Err(Error::InvalidInterval))
            } else {
                let amount = if new_amount > 0 { new_amount } else { sched.amount };
                let interval_ledgers = if new_interval > 0 { new_interval } else { sched.interval_ledgers };
                let modified = Schedule { amount, interval_ledgers, ..sched };
                (
                    SchedulerState { schedules: s.schedules.insert(id, modified), ..s },
                    Ok(Event::Modified { id, amount, interval_ledgers }),
                )
            },
        }
    }
}

/// The checks that an execution must pass, in the order in which they are made;
/// on success, the schedule that is executed.
pub open spec fn execute_check(s: SchedulerState, id: u64, current_ledger: u32) -> Result<Schedule, Error> {
    if s.paused {
        Err(Error::ContractPaused)
    } else {
        match lookup(s, id) {
            Err(e) => Err(e),
            Ok(sched) => if sched.status != ScheduleStatus::Pending {
                Err(Error::NotPending)
            } else if current_ledger < sched.execute_at {
                Err(Error::NotDue)
            } else {
                Ok(sched)
            },
        }
    }
}

/// Whether an execution that passes its checks would count past `u32::MAX`,
/// or set the next due ledger past `u32::MAX`.
pub open spec fn execute_overflows(s: SchedulerState, id: u64, current_ledger: u32) -> bool {
    match execute_check(s, id, current_ledger) {
        Err(_) => false,
        Ok(sched) => sched.executions == u32::MAX || (sched.kind == ScheduleKind::Recurring
            && current_ledger + sched.interval_ledgers > u32::MAX),
    }
}

/// The schedule after one execution at `current_ledger`.
pub open spec fn executed(sched: Schedule, current_ledger: u32) -> Schedule {
    match sched.kind {
        ScheduleKind::OneTime => Schedule {
            executions: (sched.executions + 1) as u32,
            status: ScheduleStatus::Executed,
            ..sched
        },
        ScheduleKind::Recurring => Schedule {
            executions: (sched.executions + 1) as u32,
            execute_at: (current_ledger + sched.interval_ledgers) as u32,
            ..sched
        },
    }
}

pub open spec fn execute_result(s: SchedulerState, id: u64, current_ledger: u32) -> (SchedulerState, Result<(Transfer, Event), Error>) {
    match execute_check(s, id, current_ledger) {
        Err(e) => (s, Err(e)),
        Ok(sched) => {
            let after = executed(sched, current_ledger);
            (
                SchedulerState { schedules: s.schedules.insert(id, after), ..s },
                Ok((
                    Transfer { token: sched.token, from: sched.payer, to: sched.recipient, amount: sched.amount },
                    Event::Executed {
                        id,
                        payer: sched.payer,
                        recipient: sched.recipient,
                        amount: sched.amount,
                        executions: after.executions,
                    },
                )),
            )
        },
    }
}

pub open spec fn set_paused_result(s: SchedulerState, paused: bool) -> (SchedulerState, Result<Event, Error>) {
    match admin_of(s) {
        Err(e) => (s, Err(e)),
        Ok(_) => (
            SchedulerState { paused, ..s },
            Ok(if paused { Event::Paused } else { Event::Unpaused }),
        ),
    }
}

pub open spec fn transfer_admin_result(s: SchedulerState, new_admin: Address) -> (SchedulerState, Result<Event, Error>) {
    match admin_of(s) {
        Err(e) => (s, Err(e)),
        Ok(_) => (
            SchedulerState { admin: Some(new_admin), ..s },
            Ok(Event::AdminTransferred { new_admin }),
        ),
    }
}

/// The scheduler: an administrator, a pause switch, the schedule counter and
/// the schedules by identifier. Its state is always well formed.
pub struct PaymentScheduler {
    admin: Option<Address>,
    paused: bool,
    counter: u64,
    schedules: HashMap<u64, Schedule>,
}

impl View for PaymentScheduler {
    type V = SchedulerState;

    closed spec fn view(&self) -> SchedulerState {
        SchedulerState {
            admin: self.admin,
            paused: self.paused,
            counter: self.counter,
            schedules: self.schedules@,
        }
    }
}


impl PaymentScheduler {
    #[verifier::type_invariant]
    spec fn state_is_well_formed(self) -> bool {
        well_formed(self@)
    }

    /// A scheduler in which nothing has happened yet.
    pub fn new() -> (r: Self)
        ensures
            r@ == initial_state(),
            well_formed(r@),
    {
        PaymentScheduler { admin: None, paused: false, counter: 0, schedules: HashMap::new() }
    }

    /// A scheduler from stored parts: its administrator, pause flag and counter,
    /// and at most one stored schedule with its identifier. Refused (`None`)
    /// when the schedule is not valid or its identifier is not in `1..=counter`.
    pub fn restore(admin: Option<Address>, paused: bool, counter: u64, stored: Option<(u64, Schedule)>) -> (r:
        Option<Self>)
        ensures
            r is Some <==> (stored matches Some((id, sched)) ==> 1 <= id <= counter && valid_schedule(sched)),
            r matches Some(p) ==> {
                &&& p@.admin == admin
                &&& p@.paused == paused
                &&& p@.counter == counter
                &&& p@.schedules == match stored {
                    Some((id, sched)) => Map::empty().insert(id, sched),
                    None => Map::<u64, Schedule>::empty(),
                }
                &&& well_formed(p@)
            },
    {
        let mut schedules = HashMap::new();
        match stored {
            None => {},
            Some((id, sched)) => {
                if id < 1 || id > counter || !Self::is_valid_schedule(&sched) {
                    return None;
                }
                schedules.insert(id, sched);
            },
        }
        Some(PaymentScheduler { admin, paused, counter, schedules })
    }

    fn is_valid_schedule(sched: &Schedule) -> (r: bool)
        ensures
            r == valid_schedule(*sched),
    {
        sched.amount > 0 && match sched.kind {
            ScheduleKind::Recurring => sched.interval_ledgers > 0,
            ScheduleKind::OneTime => sched.interval_ledgers == 0,
        }
    }

    /// Stores `sched` under `id`, an identifier within `1..=counter`.
    fn store(&mut self, id: u64, sched: Schedule)
        requires
            1 <= id <= old(self)@.counter,
            valid_schedule(sched),
        ensures
            final(self)@ == (SchedulerState { schedules: old(self)@.schedules.insert(id, sched), ..old(self)@ }),
    {
        proof {
            use_type_invariant(&*self);
        }
        let mut schedules = HashMap::new();
        std::mem::swap(&mut schedules, &mut self.schedules);
        schedules.insert(id, sched);
        self.schedules = schedules;
    }

    /// Makes `admin` the administrator of an uninitialized scheduler and
    /// unpauses it; refuses a scheduler that already has an administrator.
    /// The counter keeps its value, so identifiers stay fresh.
    pub fn initialize(&mut self, admin: Address) -> (r: Result<(), Error>)
        ensures
            final(self)@ == initialize_result(old(self)@, admin).0,
            r == initialize_result(old(self)@, admin).1,
            well_formed(final(self)@),
    {
        proof {
            use_type_invariant(&*self);
        }
        if self.admin.is_some() {
            return Err(Error::AlreadyInitialized);
        }
        self.admin = Some(admin);
        self.paused = false;
        proof {
            use_type_invariant(&*self);
        }
        Ok(())
    }

    /// Refuses with `ContractPaused` while the scheduler is paused.
    pub fn require_not_paused(&self) -> (r: Result<(), Error>)
        ensures
            r == (if self@.paused { Err(Error::ContractPaused) } else { Ok(()) }),
    {
        if self.paused {
            Err(Error::ContractPaused)
        } else {
            Ok(())
        }
    }

    /// The administrator, or `NotInitialized` when there is none.
    pub fn require_admin(&self) -> (r: Result<Address, Error>)
        ensures
            r == admin_of(self@),
    {
        match &self.admin {
            Some(a) => Ok(a.clone()),
            None => Err(Error::NotInitialized),
        }
    }

    /// The schedule stored under `id`, or `ScheduleNotFound`.
    pub fn get_schedule(&self, id: u64) -> (r: Result<Schedule, Error>)
        ensures
            r == lookup(self@, id),
    {
        match self.schedules.get(&id) {
            Some(sched) => Ok(sched.clone()),
            None => Err(Error::ScheduleNotFound),
        }
    }

    /// The administrator, or `NotInitialized` when there is none.
    pub fn get_admin(&self) -> (r: Result<Address, Error>)
        ensures
            r == admin_of(self@),
    {
        self.require_admin()
    }

    /// Whether the scheduler is paused.
    pub fn is_paused(&self) -> (r: bool)
        ensures
            r == self@.paused,
    {
        self.paused
    }

    /// The identifier of the most recently created schedule (0 before any).
    pub fn schedule_count(&self) -> (r: u64)
        ensures
            r == self@.counter,
    {
        self.counter
    }

    /// The checks that `schedule` makes before it creates a schedule.
    pub fn validate_schedule(
        &self,
        amount: i128,
        execute_at: u32,
        interval_ledgers: u32,
        kind: ScheduleKind,
        current_ledger: u32,
    ) -> (r: Result<(), Error>)
        ensures
            r == schedule_check(self@, amount, execute_at, interval_ledgers, kind, current_ledger),
    {
        if self.paused {
            Err(Error::ContractPaused)
        } else if amount <= 0 {
            Err(Error::InvalidAmount)
        } else if execute_at < current_ledger {
            Err(Error::InvalidExecuteAt)
        } else if kind == ScheduleKind::Recurring && interval_ledgers == 0 {
            Err(Error::InvalidInterval)
        } else {
            Ok(())
        }
    }

    /// Creates a pending schedule under the next identifier and returns that
    /// identifier, with the event that announces it. The identifier is new:
    /// greater than that of every schedule stored before.
    pub fn schedule(
        &mut self,
        payer: Address,
        recipient: Address,
        token: Address,
        amount: i128,
        execute_at: u32,
        interval_ledgers: u32,
        kind: ScheduleKind,
        current_ledger: u32,
    ) -> (r: Result<(u64, Event), Error>)
        requires
            schedule_check(old(self)@, amount, execute_at, interval_ledgers, kind, current_ledger) is Ok
                ==> old(self)@.counter < u64::MAX,
        ensures
            final(self)@ == schedule_result(
                old(self)@, payer, recipient, token, amount, execute_at, interval_ledgers, kind, current_ledger,
            ).0,
            r == schedule_result(
                old(self)@, payer, recipient, token, amount, execute_at, interval_ledgers, kind, current_ledger,
            ).1,
            r matches Ok((id, _)) ==> forall|k: u64| #[trigger] old(self)@.schedules.contains_key(k) ==> k < id,
            well_formed(final(self)@),
    {
        proof {
            use_type_invariant(&*self);
        }
        match self.validate_schedule(amount, execute_at, interval_ledgers, kind, current_ledger) {
            Err(e) => return Err(e),
            Ok(()) => {},
        }
        let id = self.counter + 1;
        let event = Event::Created {
            id,
            payer: payer.clone(),
            recipient: recipient.clone(),
            amount,
            execute_at,
        };
        let stored_interval = match kind {
            ScheduleKind::Recurring => interval_ledgers,
            ScheduleKind::OneTime => 0,
        };
        let sched = Schedule {
            payer,
            recipient,
            token,
            amount,
            execute_at,
            interval_ledgers: stored_interval,
            kind,
            status: ScheduleStatus::Pending,
            executions: 0,
        };
        self.counter = id;
        self.store(id, sched);
        proof {
            use_type_invariant(&*self);
        }
        Ok((id, event))
    }

    /// Cancels a pending schedule at the request of its payer or of the administrator.
    pub fn cancel(&mut self, caller: Address, id: u64) -> (r: Result<Event, Error>)
        ensures
            final(self)@ == cancel_result(old(self)@, caller, id).0,
            r == cancel_result(old(self)@, caller, id).1,
            well_formed(final(self)@),
    {
        proof {
            use_type_invariant(&*self);
        }
        match self.require_not_paused() {
            Err(e) => return Err(e),
            Ok(()) => {},
        }
        let mut sched = match self.get_schedule(id) {
            Err(e) => return Err(e),
            Ok(sched) => sched,
        };
        let admin = match self.require_admin() {
            Err(e) => return Err(e),
            Ok(admin) => admin,
        };
        if !caller.same_as(&sched.payer) && !caller.same_as(&admin) {
            return Err(Error::Unauthorized);
        }
        if sched.status != ScheduleStatus::Pending {
            return Err(Error::NotPending);
        }
        sched.status = ScheduleStatus::Cancelled;
        self.store(id, sched);
        proof {
            use_type_invariant(&*self);
        }
        Ok(Event::Cancelled { id, caller })
    }

    /// Changes the amount (when `new_amount > 0`) and the interval (when
    /// `new_interval > 0`) of a pending schedule at the request of its payer.
    /// A one-time schedule has no interval to change.
    pub fn modify(&mut self, payer: Address, id: u64, new_amount: i128, new_interval: u32) -> (r: Result<
        Event,
        Error,
    >)
        ensures
            final(self)@ == modify_result(old(self)@, payer, id, new_amount, new_interval).0,
            r == modify_result(old(self)@, payer, id, new_amount, new_interval).1,
            well_formed(final(self)@),
    {
        proof {
            use_type_invariant(&*self);
        }
        match self.require_not_paused() {
            Err(e) => return Err(e),
            Ok(()) => {},
        }
        let mut sched = match self.get_schedule(id) {
            Err(e) => return Err(e),
            Ok(sched) => sched,
        };
        if !sched.payer.same_as(&payer) {
            return Err(Error::Unauthorized);
        }
        if sched.status != ScheduleStatus::Pending {
            return Err(Error::NotPending);
        }
        if new_amount > 0 {
            sched.amount = new_amount;
        }
        if new_interval > 0 {
            if sched.kind == ScheduleKind::OneTime {
                return Err(Error::InvalidInterval);
            }
            sched.interval_ledgers = new_interval;
        }
        let event = Event::Modified {
            id,
            amount: sched.amount,
            interval_ledgers: sched.interval_ledgers,
        };
        self.store(id, sched);
        proof {
            use_type_invariant(&*self);
        }
        Ok(event)
    }

    /// Whether `execute(id, current_ledger)` would pass its checks and then
    /// count or schedule past `u32::MAX`.
    pub fn execute_would_overflow(&self, id: u64, current_ledger: u32) -> (r: bool)
        ensures
            r == execute_overflows(self@, id, current_ledger),
    {
        if self.paused {
            return false;
        }
        match self.schedules.get(&id) {
            None => false,
            Some(sched) => {
                if sched.status != ScheduleStatus::Pending || current_ledger < sched.execute_at {
                    false
                } else {
                    sched.executions == u32::MAX || (sched.kind == ScheduleKind::Recurring
                        && current_ledger as u64 + sched.interval_ledgers as u64 > u32::MAX as u64)
                }
            },
        }
    }

    /// Executes a pending schedule that is due: orders the transfer of its
    /// amount from payer to recipient, counts the execution, and either marks a
    /// one-time schedule executed or makes a recurring one due again
    /// `interval_ledgers` after `current_ledger`.
    pub fn execute(&mut self, id: u64, current_ledger: u32) -> (r: Result<(Transfer, Event), Error>)
        requires
            !execute_overflows(old(self)@, id, current_ledger),
        ensures
            final(self)@ == execute_result(old(self)@, id, current_ledger).0,
            r == execute_result(old(self)@, id, current_ledger).1,
            well_formed(final(self)@),
    {
        proof {
            use_type_invariant(&*self);
        }
        match self.require_not_paused() {
            Err(e) => return Err(e),
            Ok(()) => {},
        }
        let mut sched = match self.get_schedule(id) {
            Err(e) => return Err(e),
            Ok(sched) => sched,
        };
        if sched.status != ScheduleStatus::Pending {
            return Err(Error::NotPending);
        }
        if current_ledger < sched.execute_at {
            return Err(Error::NotDue);
        }
        let transfer = Transfer {
            token: sched.token.clone(),
            from: sched.payer.clone(),
            to: sched.recipient.clone(),
            amount: sched.amount,
        };
        sched.executions = sched.executions + 1;
        match sched.kind {
            ScheduleKind::OneTime => {
                sched.status = ScheduleStatus::Executed;
            },
            ScheduleKind::Recurring => {
                sched.execute_at = current_ledger + sched.interval_ledgers;
            },
        }
        let event = Event::Executed {
            id,
            payer: sched.payer.clone(),
            recipient: sched.recipient.clone(),
            amount: sched.amount,
            executions: sched.executions,
        };
        self.store(id, sched);
        proof {
            use_type_invariant(&*self);
        }
        Ok((transfer, event))
    }

    /// Pauses the scheduler; needs an administrator.
    pub fn pause(&mut self) -> (r: Result<Event, Error>)
        ensures
            final(self)@ == set_paused_result(old(self)@, true).0,
            r == set_paused_result(old(self)@, true).1,
            well_formed(final(self)@),
    {
        proof {
            use_type_invariant(&*self);
        }
        match self.require_admin() {
            Err(e) => return Err(e),
            Ok(_) => {},
        }
        self.paused = true;
        proof {
            use_type_invariant(&*self);
        }
        Ok(Event::Paused)
    }

    /// Unpauses the scheduler; needs an administrator.
    pub fn unpause(&mut self) -> (r: Result<Event, Error>)
        ensures
            final(self)@ == set_paused_result(old(self)@, false).0,
            r == set_paused_result(old(self)@, false).1,
            well_formed(final(self)@),
    {
        proof {
            use_type_invariant(&*self);
        }
        match self.require_admin() {
            Err(e) => return Err(e),
            Ok(_) => {},
        }
        self.paused = false;
        proof {
            use_type_invariant(&*self);
        }
        Ok(Event::Unpaused)
    }

    /// Hands the administration to `new_admin`; needs an administrator.
    pub fn transfer_admin(&mut self, new_admin: Address) -> (r: Result<Event, Error>)
        ensures
            final(self)@ == transfer_admin_result(old(self)@, new_admin).0,
            r == transfer_admin_result(old(self)@, new_admin).1,
            well_formed(final(self)@),
    {
        proof {
            use_type_invariant(&*self);
        }
        match self.require_admin() {
            Err(e) => return Err(e),
            Ok(_) => {},
        }
        let event = Event::AdminTransferred { new_admin: new_admin.clone() };
        self.admin = Some(new_admin);
        proof {
            use_type_invariant(&*self);
        }
        Ok(event)
    }
}

} // verus!
