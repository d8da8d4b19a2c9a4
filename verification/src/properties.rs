use vstd::prelude::*;

use crate::address::Address;
use crate::scheduler::{
    admin_of, cancel_result, execute_overflows, execute_result, initial_state,
    initialize_result, lookup, modify_result, new_schedule, schedule_check, schedule_result,
    set_paused_result, transfer_admin_result, well_formed, Error, Event, Schedule, ScheduleKind,
    ScheduleStatus, SchedulerState, Transfer,
};

verus! {

/// The state in which nothing has happened is well formed.
pub proof fn initial_state_is_well_formed()
    ensures
        well_formed(initial_state()),
{
}

/// Initializing keeps the state well formed, schedules created before it
/// included: the counter keeps its value.
pub proof fn initialize_preserves_well_formed(s: SchedulerState, admin: Address)
    requires
        well_formed(s),
    ensures
        initialize_result(s, admin).0.counter == s.counter,
        well_formed(initialize_result(s, admin).0),
{
}

/// Creating a schedule keeps the state well formed.
pub proof fn schedule_preserves_well_formed(
    s: SchedulerState,
    payer: Address,
    recipient: Address,
    token: Address,
    amount: i128,
    execute_at: u32,
    interval_ledgers: u32,
    kind: ScheduleKind,
    current_ledger: u32,
)
    requires
        well_formed(s),
        schedule_check(s, amount, execute_at, interval_ledgers, kind, current_ledger) is Ok ==> s.counter
            < u64::MAX,
    ensures
        well_formed(
            schedule_result(
                s, payer, recipient, token, amount, execute_at, interval_ledgers, kind, current_ledger,
            ).0,
        ),
{
}

/// Cancelling, modifying and executing keep the state well formed.
pub proof fn updates_preserve_well_formed(
    s: SchedulerState,
    caller: Address,
    id: u64,
    new_amount: i128,
    new_interval: u32,
    current_ledger: u32,
)
    requires
        well_formed(s),
    ensures
        well_formed(cancel_result(s, caller, id).0),
        well_formed(modify_result(s, caller, id, new_amount, new_interval).0),
        well_formed(execute_result(s, id, current_ledger).0),
{
}

/// Pausing, unpausing and handing over the administration keep the state well formed.
pub proof fn admin_requests_preserve_well_formed(s: SchedulerState, paused: bool, new_admin: Address)
    requires
        well_formed(s),
    ensures
        well_formed(set_paused_result(s, paused).0),
        well_formed(transfer_admin_result(s, new_admin).0),
{
}


/// A new schedule is stored under the next identifier, which no stored
/// schedule used before; the counter moves to it, the new schedule is pending
/// with no executions (and no interval when it fires once), and every other
/// schedule stays as it was. Every `PaymentScheduler` value is well formed, so
/// this holds of every state that the scheduler reaches.
pub proof fn schedule_stores_under_a_fresh_identifier(
    s: SchedulerState,
    payer: Address,
    recipient: Address,
    token: Address,
    amount: i128,
    execute_at: u32,
    interval_ledgers: u32,
    kind: ScheduleKind,
    current_ledger: u32,
)
    requires
        well_formed(s),
        schedule_check(s, amount, execute_at, interval_ledgers, kind, current_ledger) is Ok,
        s.counter < u64::MAX,
    ensures
        ({
            let (t, r) = schedule_result(
                s, payer, recipient, token, amount, execute_at, interval_ledgers, kind, current_ledger,
            );
            &&& r matches Ok((id, _)) && {
                &&& id == s.counter + 1
                &&& t.counter == id
                &&& !s.schedules.contains_key(id)
                &&& lookup(t, id) == Ok::<Schedule, Error>(
                    new_schedule(payer, recipient, token, amount, execute_at, interval_ledgers, kind),
                )
                &&& t.schedules[id].interval_ledgers == (if kind == ScheduleKind::Recurring {
                    interval_ledgers
                } else {
                    0
                })
                &&& forall|k: u64| #[trigger] s.schedules.contains_key(k) ==> k < id
                &&& t.schedules.remove(id) == s.schedules
            }
            &&& t.admin == s.admin
            &&& t.paused == s.paused
        }),
{
    let t = schedule_result(
        s, payer, recipient, token, amount, execute_at, interval_ledgers, kind, current_ledger,
    ).0;
    let id = (s.counter + 1) as u64;
    assert(t.schedules.remove(id) =~= s.schedules);
}

/// A refused request changes nothing.
pub proof fn refused_requests_change_nothing(
    s: SchedulerState,
    admin: Address,
    payer: Address,
    recipient: Address,
    token: Address,
    amount: i128,
    execute_at: u32,
    interval_ledgers: u32,
    kind: ScheduleKind,
    id: u64,
    new_amount: i128,
    new_interval: u32,
    current_ledger: u32,
    paused: bool,
)
    ensures
        initialize_result(s, admin).1 is Err ==> initialize_result(s, admin).0 == s,
        schedule_result(s, payer, recipient, token, amount, execute_at, interval_ledgers, kind, current_ledger).1 is Err
            ==> schedule_result(
            s, payer, recipient, token, amount, execute_at, interval_ledgers, kind, current_ledger,
        ).0 == s,
        cancel_result(s, payer, id).1 is Err ==> cancel_result(s, payer, id).0 == s,
        modify_result(s, payer, id, new_amount, new_interval).1 is Err ==> modify_result(
            s, payer, id, new_amount, new_interval,
        ).0 == s,
        execute_result(s, id, current_ledger).1 is Err ==> execute_result(s, id, current_ledger).0 == s,
        set_paused_result(s, paused).1 is Err ==> set_paused_result(s, paused).0 == s,
        transfer_admin_result(s, admin).1 is Err ==> transfer_admin_result(s, admin).0 == s,
{
}

/// While the scheduler is paused it refuses to create, cancel, modify or
/// execute schedules, with `ContractPaused`, and changes nothing.
pub proof fn paused_scheduler_refuses_schedule_requests(
    s: SchedulerState,
    payer: Address,
    recipient: Address,
    token: Address,
    amount: i128,
    execute_at: u32,
    interval_ledgers: u32,
    kind: ScheduleKind,
    id: u64,
    new_amount: i128,
    new_interval: u32,
    current_ledger: u32,
)
    requires
        s.paused,
    ensures
        schedule_result(s, payer, recipient, token, amount, execute_at, interval_ledgers, kind, current_ledger)
            == (s, Err::<(u64, Event), Error>(Error::ContractPaused)),
        cancel_result(s, payer, id) == (s, Err::<Event, Error>(Error::ContractPaused)),
        modify_result(s, payer, id, new_amount, new_interval) == (s, Err::<Event, Error>(Error::ContractPaused)),
        execute_result(s, id, current_ledger) == (s, Err::<(Transfer, Event), Error>(Error::ContractPaused)),
{
}

/// Pausing changes only the pause flag, and unpausing a scheduler that was
/// paused from running gives back the state before the pause.
pub proof fn unpause_undoes_pause(s: SchedulerState)
    requires
        s.admin is Some,
        !s.paused,
    ensures
        set_paused_result(s, true).0 == (SchedulerState { paused: true, ..s }),
        set_paused_result(s, true).1 is Ok,
        set_paused_result(set_paused_result(s, true).0, false).0 == s,
        set_paused_result(set_paused_result(s, true).0, false).1 is Ok,
{
}

/// Without an administrator, pausing, unpausing and handing over the
/// administration are refused with `NotInitialized`.
pub proof fn admin_requests_need_an_administrator(s: SchedulerState, paused: bool, new_admin: Address)
    requires
        s.admin is None,
    ensures
        set_paused_result(s, paused) == (s, Err::<Event, Error>(Error::NotInitialized)),
        transfer_admin_result(s, new_admin) == (s, Err::<Event, Error>(Error::NotInitialized)),
{
}

/// A scheduler is initialized once: the first initialization installs the
/// administrator, a second one is refused with `AlreadyInitialized`.
pub proof fn initialize_happens_once(s: SchedulerState, admin: Address, other: Address)
    requires
        s.admin is None,
    ensures
        initialize_result(s, admin).1 is Ok,
        admin_of(initialize_result(s, admin).0) == Ok::<Address, Error>(admin),
        initialize_result(initialize_result(s, admin).0, other).1 == Err::<(), Error>(
            Error::AlreadyInitialized,
        ),
{
}

/// After the administration is handed over, the new administrator is the one
/// that is reported.
pub proof fn transfer_admin_then_get_admin(s: SchedulerState, new_admin: Address)
    requires
        s.admin is Some,
    ensures
        transfer_admin_result(s, new_admin).1 is Ok,
        admin_of(transfer_admin_result(s, new_admin).0) == Ok::<Address, Error>(new_admin),
{
}

/// Only the payer or the administrator cancels a schedule, and only its payer
/// modifies it.
pub proof fn only_authorized_callers_change_schedules(
    s: SchedulerState,
    caller: Address,
    id: u64,
    new_amount: i128,
    new_interval: u32,
)
    ensures
        cancel_result(s, caller, id).1 is Ok ==> {
            &&& s.schedules.contains_key(id)
            &&& s.admin is Some
            &&& (caller@ == s.schedules[id].payer@ || caller@ == s.admin->0@)
        },
        modify_result(s, caller, id, new_amount, new_interval).1 is Ok ==> {
            &&& s.schedules.contains_key(id)
            &&& caller@ == s.schedules[id].payer@
        },
{
}

/// An executed or cancelled schedule never changes again, and executing,
/// cancelling or modifying it (by its payer) is refused with `NotPending`.
pub proof fn settled_schedules_never_change(
    s: SchedulerState,
    k: u64,
    caller: Address,
    recipient: Address,
    token: Address,
    amount: i128,
    execute_at: u32,
    interval_ledgers: u32,
    kind: ScheduleKind,
    id: u64,
    new_amount: i128,
    new_interval: u32,
    current_ledger: u32,
)
    requires
        well_formed(s),
        s.counter < u64::MAX,
        s.schedules.contains_key(k),
        s.schedules[k].status != ScheduleStatus::Pending,
    ensures
        ({
            let t = schedule_result(
                s, caller, recipient, token, amount, execute_at, interval_ledgers, kind, current_ledger,
            ).0;
            t.schedules.contains_key(k) && t.schedules[k] == s.schedules[k]
        }),
        cancel_result(s, caller, id).0.schedules.contains_key(k),
        cancel_result(s, caller, id).0.schedules[k] == s.schedules[k],
        modify_result(s, caller, id, new_amount, new_interval).0.schedules.contains_key(k),
        modify_result(s, caller, id, new_amount, new_interval).0.schedules[k] == s.schedules[k],
        execute_result(s, id, current_ledger).0.schedules.contains_key(k),
        execute_result(s, id, current_ledger).0.schedules[k] == s.schedules[k],
        !s.paused ==> execute_result(s, k, current_ledger).1 == Err::<(Transfer, Event), Error>(
            Error::NotPending,
        ),
        !s.paused && caller@ == s.schedules[k].payer@ ==> modify_result(
            s, caller, k, new_amount, new_interval,
        ).1 == Err::<Event, Error>(Error::NotPending),
        !s.paused && caller@ == s.schedules[k].payer@ && s.admin is Some ==> cancel_result(
            s, caller, k,
        ).1 == Err::<Event, Error>(Error::NotPending),
{
}

/// An execution transfers the schedule's amount of its token from its payer
/// to its recipient, and the amount is positive in a well formed state.
pub proof fn execution_pays_the_scheduled_amount(s: SchedulerState, id: u64, current_ledger: u32)
    requires
        well_formed(s),
        execute_result(s, id, current_ledger).1 is Ok,
    ensures
        ({
            let sched = s.schedules[id];
            let transfer = execute_result(s, id, current_ledger).1->Ok_0.0;
            &&& s.schedules.contains_key(id)
            &&& transfer.token == sched.token
            &&& transfer.from == sched.payer
            &&& transfer.to == sched.recipient
            &&& transfer.amount == sched.amount
            &&& transfer.amount > 0
        }),
{
}

/// A one-time schedule is executed at most once: after an execution it is
/// marked executed, and a later execution is refused with `NotPending`.
pub proof fn one_time_schedule_executes_once(s: SchedulerState, id: u64, current_ledger: u32, later_ledger: u32)
    requires
        execute_result(s, id, current_ledger).1 is Ok,
        s.schedules[id].kind == ScheduleKind::OneTime,
        !execute_overflows(s, id, current_ledger),
    ensures
        ({
            let t = execute_result(s, id, current_ledger).0;
            &&& t.schedules[id].status == ScheduleStatus::Executed
            &&& t.schedules[id].executions == s.schedules[id].executions + 1
            &&& execute_result(t, id, later_ledger) == (t, Err::<(Transfer, Event), Error>(Error::NotPending))
        }),
{
}

/// A recurring schedule stays pending after an execution at ledger `L`, with
/// one more execution counted; it is due again at `L + interval_ledgers`:
/// refused with `NotDue` before that ledger, executed from it on.
pub proof fn recurring_schedule_is_due_again_after_its_interval(
    s: SchedulerState,
    id: u64,
    current_ledger: u32,
    next_ledger: u32,
)
    requires
        well_formed(s),
        execute_result(s, id, current_ledger).1 is Ok,
        s.schedules[id].kind == ScheduleKind::Recurring,
        !execute_overflows(s, id, current_ledger),
    ensures
        ({
            let before = s.schedules[id];
            let t = execute_result(s, id, current_ledger).0;
            let after = t.schedules[id];
            &&& after.status == ScheduleStatus::Pending
            &&& after.executions == before.executions + 1
            &&& after.execute_at == current_ledger + before.interval_ledgers
            &&& after.execute_at > current_ledger
            &&& next_ledger < after.execute_at ==> execute_result(t, id, next_ledger).1
                == Err::<(Transfer, Event), Error>(Error::NotDue)
            &&& next_ledger >= after.execute_at ==> execute_result(t, id, next_ledger).1 is Ok
        }),
{
}

/// A modification changes only the amount and the interval of a schedule.
pub proof fn modify_changes_only_amount_and_interval(
    s: SchedulerState,
    payer: Address,
    id: u64,
    new_amount: i128,
    new_interval: u32,
)
    requires
        modify_result(s, payer, id, new_amount, new_interval).1 is Ok,
    ensures
        ({
            let before = s.schedules[id];
            let t = modify_result(s, payer, id, new_amount, new_interval).0;
            let after = t.schedules[id];
            &&& after == (Schedule { amount: after.amount, interval_ledgers: after.interval_ledgers, ..before })
            &&& after.amount == (if new_amount > 0 { new_amount } else { before.amount })
            &&& after.interval_ledgers == (if new_interval > 0 { new_interval } else { before.interval_ledgers })
            &&& t.counter == s.counter
            &&& t.schedules.remove(id) == s.schedules.remove(id)
        }),
{
    let t = modify_result(s, payer, id, new_amount, new_interval).0;
    assert(t.schedules.remove(id) =~= s.schedules.remove(id));
}

/// No request removes a schedule, and only creating a schedule (or
/// initializing) moves the counter.
pub proof fn schedules_are_never_removed(
    s: SchedulerState,
    k: u64,
    caller: Address,
    recipient: Address,
    token: Address,
    amount: i128,
    execute_at: u32,
    interval_ledgers: u32,
    kind: ScheduleKind,
    id: u64,
    new_amount: i128,
    new_interval: u32,
    current_ledger: u32,
    paused: bool,
)
    requires
        s.schedules.contains_key(k),
        schedule_check(s, amount, execute_at, interval_ledgers, kind, current_ledger) is Ok ==> s.counter
            < u64::MAX,
    ensures
        initialize_result(s, caller).0.schedules.contains_key(k),
        schedule_result(s, caller, recipient, token, amount, execute_at, interval_ledgers, kind, current_ledger).0.schedules.contains_key(k),
        cancel_result(s, caller, id).0.schedules.contains_key(k),
        modify_result(s, caller, id, new_amount, new_interval).0.schedules.contains_key(k),
        execute_result(s, id, current_ledger).0.schedules.contains_key(k),
        set_paused_result(s, paused).0.schedules.contains_key(k),
        transfer_admin_result(s, caller).0.schedules.contains_key(k),
        cancel_result(s, caller, id).0.counter == s.counter,
        modify_result(s, caller, id, new_amount, new_interval).0.counter == s.counter,
        execute_result(s, id, current_ledger).0.counter == s.counter,
        set_paused_result(s, paused).0.counter == s.counter,
        transfer_admin_result(s, caller).0.counter == s.counter,
{
}

/// What creating a schedule does. It succeeds exactly when the scheduler is
/// running, the amount is positive, the first due ledger is not in the past and
/// a recurring schedule has a positive interval; otherwise it is refused with
/// the first failing check, in that order, and nothing changes. On success the
/// new schedule holds the given parties, amount and due ledger, the interval
/// when it recurs (0 when it fires once), is pending with no executions, and is
/// stored under `counter + 1`, which becomes the counter.
pub proof fn schedule_creates_exactly_the_requested_schedule(
    s: SchedulerState,
    payer: Address,
    recipient: Address,
    token: Address,
    amount: i128,
    execute_at: u32,
    interval_ledgers: u32,
    kind: ScheduleKind,
    current_ledger: u32,
)
    ensures
        ({
            let (t, r) = schedule_result(
                s, payer, recipient, token, amount, execute_at, interval_ledgers, kind, current_ledger,
            );
            &&& r is Ok <==> {
                &&& !s.paused
                &&& amount > 0
                &&& execute_at >= current_ledger
                &&& kind == ScheduleKind::Recurring ==> interval_ledgers > 0
            }
            &&& s.paused ==> r == Err::<(u64, Event), Error>(Error::ContractPaused)
            &&& !s.paused && amount <= 0 ==> r == Err::<(u64, Event), Error>(Error::InvalidAmount)
            &&& !s.paused && amount > 0 && execute_at < current_ledger ==> r == Err::<(u64, Event), Error>(
                Error::InvalidExecuteAt,
            )
            &&& !s.paused && amount > 0 && execute_at >= current_ledger && kind == ScheduleKind::Recurring
                && interval_ledgers == 0 ==> r == Err::<(u64, Event), Error>(Error::InvalidInterval)
            &&& r is Err ==> t == s
            &&& (r is Ok && s.counter < u64::MAX) ==> {
                let id = r->Ok_0.0;
                let stored = t.schedules[id];
                &&& id == s.counter + 1
                &&& t.counter == s.counter + 1
                &&& t.admin == s.admin
                &&& t.paused == s.paused
                &&& t.schedules.contains_key(id)
                &&& t.schedules.remove(id) == s.schedules.remove(id)
                &&& stored.payer == payer
                &&& stored.recipient == recipient
                &&& stored.token == token
                &&& stored.amount == amount
                &&& stored.execute_at == execute_at
                &&& stored.kind == kind
                &&& stored.interval_ledgers == (if kind == ScheduleKind::Recurring {
                    interval_ledgers
                } else {
                    0
                })
                &&& stored.status == ScheduleStatus::Pending
                &&& stored.executions == 0
                &&& r->Ok_0.1 == (Event::Created { id, payer, recipient, amount, execute_at })
            }
        }),
{
    let (t, r) = schedule_result(
        s, payer, recipient, token, amount, execute_at, interval_ledgers, kind, current_ledger,
    );
    if r is Ok && s.counter < u64::MAX {
        let id = (s.counter + 1) as u64;
        assert(t.schedules.remove(id) =~= s.schedules.remove(id));
    }
}

/// What executing a schedule does. It succeeds exactly when the scheduler is
/// running and the schedule exists, is pending and is due (`current_ledger`
/// is at least its due ledger); before that ledger it is refused with
/// `NotDue`, and every refusal changes nothing. On success the payer pays the
/// recipient the schedule's amount of its token, one more execution is
/// counted, a one-time schedule becomes executed, a recurring one stays
/// pending and is next due `interval_ledgers` after `current_ledger`, and
/// nothing else changes.
pub proof fn execute_pays_only_when_due(s: SchedulerState, id: u64, current_ledger: u32)
    ensures
        ({
            let (t, r) = execute_result(s, id, current_ledger);
            let before = s.schedules[id];
            let after = t.schedules[id];
            &&& r is Ok <==> {
                &&& !s.paused
                &&& s.schedules.contains_key(id)
                &&& before.status == ScheduleStatus::Pending
                &&& current_ledger >= before.execute_at
            }
            &&& s.paused ==> r == Err::<(Transfer, Event), Error>(Error::ContractPaused)
            &&& !s.paused && !s.schedules.contains_key(id) ==> r == Err::<(Transfer, Event), Error>(
                Error::ScheduleNotFound,
            )
            &&& !s.paused && s.schedules.contains_key(id) && before.status != ScheduleStatus::Pending ==> r
                == Err::<(Transfer, Event), Error>(Error::NotPending)
            &&& !s.paused && s.schedules.contains_key(id) && before.status == ScheduleStatus::Pending
                && current_ledger < before.execute_at ==> r == Err::<(Transfer, Event), Error>(Error::NotDue)
            &&& r is Err ==> t == s
            &&& r is Ok ==> {
                &&& t.admin == s.admin
                &&& t.paused == s.paused
                &&& t.counter == s.counter
                &&& t.schedules.contains_key(id)
                &&& t.schedules.remove(id) == s.schedules.remove(id)
                &&& after.payer == before.payer
                &&& after.recipient == before.recipient
                &&& after.token == before.token
                &&& after.amount == before.amount
                &&& after.kind == before.kind
                &&& after.interval_ledgers == before.interval_ledgers
                &&& before.executions < u32::MAX ==> after.executions == before.executions + 1
                &&& before.kind == ScheduleKind::OneTime ==> {
                    &&& after.status == ScheduleStatus::Executed
                    &&& after.execute_at == before.execute_at
                }
                &&& before.kind == ScheduleKind::Recurring ==> {
                    &&& after.status == ScheduleStatus::Pending
                    &&& current_ledger + before.interval_ledgers <= u32::MAX ==> after.execute_at
                        == current_ledger + before.interval_ledgers
                }
                &&& r->Ok_0.0 == (Transfer {
                    token: before.token,
                    from: before.payer,
                    to: before.recipient,
                    amount: before.amount,
                })
                &&& r->Ok_0.1 == (Event::Executed {
                    id,
                    payer: before.payer,
                    recipient: before.recipient,
                    amount: before.amount,
                    executions: after.executions,
                })
            }
        }),
{
    let (t, r) = execute_result(s, id, current_ledger);
    if r is Ok {
        assert(t.schedules.remove(id) =~= s.schedules.remove(id));
    }
}

/// What modifying a schedule does. It succeeds exactly when the scheduler is
/// running and the schedule exists, belongs to the caller, is pending, and
/// either no new interval is given or the schedule recurs. On success the
/// amount becomes `new_amount` when that is positive and the interval becomes
/// `new_interval` when that is positive; everything else stays. Every refusal
/// changes nothing.
pub proof fn modify_changes_what_the_payer_asks(
    s: SchedulerState,
    payer: Address,
    id: u64,
    new_amount: i128,
    new_interval: u32,
)
    ensures
        ({
            let (t, r) = modify_result(s, payer, id, new_amount, new_interval);
            let before = s.schedules[id];
            let after = t.schedules[id];
            &&& r is Ok <==> {
                &&& !s.paused
                &&& s.schedules.contains_key(id)
                &&& before.payer@ == payer@
                &&& before.status == ScheduleStatus::Pending
                &&& (new_interval == 0 || before.kind == ScheduleKind::Recurring)
            }
            &&& s.paused ==> r == Err::<Event, Error>(Error::ContractPaused)
            &&& !s.paused && !s.schedules.contains_key(id) ==> r == Err::<Event, Error>(Error::ScheduleNotFound)
            &&& !s.paused && s.schedules.contains_key(id) && before.payer@ != payer@ ==> r == Err::<Event, Error>(
                Error::Unauthorized,
            )
            &&& !s.paused && s.schedules.contains_key(id) && before.payer@ == payer@ && before.status
                != ScheduleStatus::Pending ==> r == Err::<Event, Error>(Error::NotPending)
            &&& !s.paused && s.schedules.contains_key(id) && before.payer@ == payer@ && before.status
                == ScheduleStatus::Pending && new_interval > 0 && before.kind == ScheduleKind::OneTime ==> r
                == Err::<Event, Error>(Error::InvalidInterval)
            &&& r is Err ==> t == s
            &&& r is Ok ==> {
                &&& t.admin == s.admin
                &&& t.paused == s.paused
                &&& t.counter == s.counter
                &&& t.schedules.contains_key(id)
                &&& t.schedules.remove(id) == s.schedules.remove(id)
                &&& after.amount == (if new_amount > 0 { new_amount } else { before.amount })
                &&& after.interval_ledgers == (if new_interval > 0 {
                    new_interval
                } else {
                    before.interval_ledgers
                })
                &&& after.payer == before.payer
                &&& after.recipient == before.recipient
                &&& after.token == before.token
                &&& after.execute_at == before.execute_at
                &&& after.kind == before.kind
                &&& after.status == before.status
                &&& after.executions == before.executions
                &&& r->Ok_0 == (Event::Modified {
                    id,
                    amount: after.amount,
                    interval_ledgers: after.interval_ledgers,
                })
            }
        }),
{
    let (t, r) = modify_result(s, payer, id, new_amount, new_interval);
    if r is Ok {
        assert(t.schedules.remove(id) =~= s.schedules.remove(id));
    }
}

/// What cancelling a schedule does. It succeeds exactly when the scheduler is
/// running, the schedule exists, there is an administrator, the caller is the
/// payer or the administrator, and the schedule is pending; every refusal
/// changes nothing. On success, of whatever kind the schedule is, only its
/// status changes, to cancelled, and executing it afterwards is refused with
/// `NotPending` at any ledger.
pub proof fn cancel_settles_the_schedule(s: SchedulerState, caller: Address, id: u64, later_ledger: u32)
    ensures
        ({
            let (t, r) = cancel_result(s, caller, id);
            let before = s.schedules[id];
            &&& r is Ok <==> {
                &&& !s.paused
                &&& s.schedules.contains_key(id)
                &&& s.admin is Some
                &&& (caller@ == before.payer@ || caller@ == s.admin->0@)
                &&& before.status == ScheduleStatus::Pending
            }
            &&& r is Err ==> t == s
            &&& r is Ok ==> {
                &&& t == (SchedulerState {
                    schedules: s.schedules.insert(id, Schedule { status: ScheduleStatus::Cancelled, ..before }),
                    ..s
                })
                &&& r->Ok_0 == (Event::Cancelled { id, caller })
                &&& execute_result(t, id, later_ledger) == (t, Err::<(Transfer, Event), Error>(
                    Error::NotPending,
                ))
            }
        }),
{
}

/// What the administrative requests do. With an administrator, pausing and
/// unpausing set only the pause flag, and handing over the administration
/// replaces only the administrator (a paused scheduler stays paused). Without
/// one they are refused with `NotInitialized` and change nothing.
/// Initializing installs the administrator and unpauses, and only once.
pub proof fn admin_requests_change_only_their_field(s: SchedulerState, paused: bool, new_admin: Address)
    ensures
        s.admin is Some ==> set_paused_result(s, paused) == (SchedulerState { paused, ..s }, Ok::<Event, Error>(
            if paused { Event::Paused } else { Event::Unpaused },
        )),
        s.admin is Some ==> transfer_admin_result(s, new_admin) == (SchedulerState {
            admin: Some(new_admin),
            ..s
        }, Ok::<Event, Error>(Event::AdminTransferred { new_admin })),
        s.admin is Some ==> transfer_admin_result(s, new_admin).0.paused == s.paused,
        s.admin is None ==> set_paused_result(s, paused) == (s, Err::<Event, Error>(Error::NotInitialized)),
        s.admin is None ==> transfer_admin_result(s, new_admin) == (s, Err::<Event, Error>(
            Error::NotInitialized,
        )),
        s.admin is None ==> initialize_result(s, new_admin) == (SchedulerState {
            admin: Some(new_admin),
            paused: false,
            ..s
        }, Ok::<(), Error>(())),
        s.admin is Some ==> initialize_result(s, new_admin) == (s, Err::<(), Error>(Error::AlreadyInitialized)),
{
}

/// Reading gives back what is stored: a schedule is found exactly when one is
/// stored under its identifier, and the administrator is reported exactly when
/// there is one.
pub proof fn reads_give_back_the_stored_values(s: SchedulerState, id: u64)
    ensures
        lookup(s, id) is Ok <==> s.schedules.contains_key(id),
        s.schedules.contains_key(id) ==> lookup(s, id) == Ok::<Schedule, Error>(s.schedules[id]),
        !s.schedules.contains_key(id) ==> lookup(s, id) == Err::<Schedule, Error>(Error::ScheduleNotFound),
        s.admin matches Some(a) ==> admin_of(s) == Ok::<Address, Error>(a),
        s.admin is None ==> admin_of(s) == Err::<Address, Error>(Error::NotInitialized),
{
}

/// An execution overflows exactly when it would be carried out and either
/// the execution count is already `u32::MAX` or the schedule recurs and its
/// next due ledger would pass `u32::MAX`.
pub proof fn execution_overflow_is_exactly_the_machine_limit(s: SchedulerState, id: u64, current_ledger: u32)
    ensures
        execute_overflows(s, id, current_ledger) <==> {
            let sched = s.schedules[id];
            &&& !s.paused
            &&& s.schedules.contains_key(id)
            &&& sched.status == ScheduleStatus::Pending
            &&& current_ledger >= sched.execute_at
            &&& (sched.executions == u32::MAX || (sched.kind == ScheduleKind::Recurring && current_ledger
                + sched.interval_ledgers > u32::MAX))
        },
{
}

} // verus!
