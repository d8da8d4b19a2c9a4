use payment_scheduler::scheduler::{
    Error, Event, PaymentScheduler, ScheduleKind, ScheduleStatus, Transfer,
};
use payment_scheduler::Address;

fn address(name: &str) -> Address {
    Address::new(name.to_string())
}

fn initialized() -> PaymentScheduler {
    let mut p = PaymentScheduler::new();
    p.initialize(address("GADMIN")).unwrap();
    p
}

fn schedule(p: &mut PaymentScheduler, amount: i128, due: u32, interval: u32, kind: ScheduleKind, ledger: u32) -> Result<(u64, Event), Error> {
    p.schedule(address("GPAYER"), address("GRECIPIENT"), address("CTOKEN"), amount, due, interval, kind, ledger)
}

#[test]
fn new_scheduler_is_empty_and_unpaused() {
    let p = PaymentScheduler::new();
    assert_eq!(p.schedule_count(), 0);
    assert!(!p.is_paused());
    assert_eq!(p.get_admin(), Err(Error::NotInitialized));
    assert_eq!(p.get_schedule(1).map(|_| ()), Err(Error::ScheduleNotFound));
}

#[test]
fn admin_requests_without_admin_are_refused() {
    let mut p = PaymentScheduler::new();
    assert_eq!(p.pause(), Err(Error::NotInitialized));
    assert_eq!(p.unpause(), Err(Error::NotInitialized));
    assert_eq!(p.transfer_admin(address("GX")), Err(Error::NotInitialized));
    assert_eq!(p.require_admin(), Err(Error::NotInitialized));
    assert!(!p.is_paused());
}

#[test]
fn cancel_without_admin_is_refused_after_lookup() {
    let mut p = PaymentScheduler::new();
    // a schedule can be created before the scheduler has an administrator
    let (id, _) = schedule(&mut p, 10, 5, 0, ScheduleKind::OneTime, 0).unwrap();
    assert_eq!(p.cancel(address("GPAYER"), 99), Err(Error::ScheduleNotFound));
    assert_eq!(p.cancel(address("GPAYER"), id), Err(Error::NotInitialized));
}

#[test]
fn initialize_after_schedules_keeps_identifiers_fresh() {
    let mut p = PaymentScheduler::new();
    schedule(&mut p, 10, 5, 0, ScheduleKind::OneTime, 0).unwrap();
    assert_eq!(p.schedule_count(), 1);
    p.initialize(address("GADMIN")).unwrap();
    assert_eq!(p.schedule_count(), 1);
    // the next schedule takes a new identifier; the earlier one is kept
    let (id, _) = schedule(&mut p, 20, 5, 0, ScheduleKind::OneTime, 0).unwrap();
    assert_eq!(id, 2);
    assert_eq!(p.get_schedule(1).unwrap().amount, 10);
    assert_eq!(p.get_schedule(2).unwrap().amount, 20);
}

#[test]
fn one_time_schedule_ignores_the_interval() {
    let mut p = initialized();
    let (id, _) = schedule(&mut p, 100, 100, 500, ScheduleKind::OneTime, 0).unwrap();
    assert_eq!(p.get_schedule(id).unwrap().interval_ledgers, 0);
    let (rid, _) = schedule(&mut p, 100, 100, 500, ScheduleKind::Recurring, 0).unwrap();
    assert_eq!(p.get_schedule(rid).unwrap().interval_ledgers, 500);
}

#[test]
fn restore_accepts_only_well_formed_parts() {
    let one_time = |interval: u32, amount: i128| payment_scheduler::scheduler::Schedule {
        payer: address("GPAYER"),
        recipient: address("GRECIPIENT"),
        token: address("CTOKEN"),
        amount,
        execute_at: 10,
        interval_ledgers: interval,
        kind: ScheduleKind::OneTime,
        status: ScheduleStatus::Pending,
        executions: 0,
    };
    let p = PaymentScheduler::restore(Some(address("GADMIN")), false, 3, Some((2, one_time(0, 100)))).unwrap();
    assert_eq!(p.schedule_count(), 3);
    assert_eq!(p.get_schedule(2).unwrap().amount, 100);
    assert_eq!(p.get_schedule(1).map(|_| ()), Err(Error::ScheduleNotFound));
    assert!(PaymentScheduler::restore(None, false, 3, Some((4, one_time(0, 100)))).is_none());
    assert!(PaymentScheduler::restore(None, false, 3, Some((0, one_time(0, 100)))).is_none());
    assert!(PaymentScheduler::restore(None, false, 3, Some((2, one_time(5, 100)))).is_none());
    assert!(PaymentScheduler::restore(None, false, 3, Some((2, one_time(0, 0)))).is_none());
    let empty = PaymentScheduler::restore(None, true, 0, None).unwrap();
    assert!(empty.is_paused());
}

#[test]
fn unknown_schedule_is_not_found() {
    let mut p = initialized();
    assert_eq!(p.execute(7, 100), Err(Error::ScheduleNotFound));
    assert_eq!(p.modify(address("GPAYER"), 7, 1, 0), Err(Error::ScheduleNotFound));
    assert_eq!(p.cancel(address("GPAYER"), 7), Err(Error::ScheduleNotFound));
}

#[test]
fn schedule_announces_creation_and_stores_fresh_ids() {
    let mut p = initialized();
    let (a, ev) = schedule(&mut p, 100, 10, 0, ScheduleKind::OneTime, 0).unwrap();
    assert_eq!(
        ev,
        Event::Created { id: 1, payer: address("GPAYER"), recipient: address("GRECIPIENT"), amount: 100, execute_at: 10 }
    );
    let (b, _) = schedule(&mut p, 300, 10, 7, ScheduleKind::Recurring, 0).unwrap();
    assert_eq!((a, b), (1, 2));
    assert_eq!(p.get_schedule(1).unwrap().amount, 100);
    let second = p.get_schedule(2).unwrap();
    assert_eq!(second.amount, 300);
    assert_eq!(second.interval_ledgers, 7);
    assert_eq!(second.token, address("CTOKEN"));
}

#[test]
fn checks_come_in_order() {
    let mut p = initialized();
    // amount is checked before the due ledger, which is checked before the interval
    assert_eq!(schedule(&mut p, -5, 1, 0, ScheduleKind::Recurring, 10), Err(Error::InvalidAmount));
    assert_eq!(schedule(&mut p, 5, 1, 0, ScheduleKind::Recurring, 10), Err(Error::InvalidExecuteAt));
    assert_eq!(schedule(&mut p, 5, 10, 0, ScheduleKind::Recurring, 10), Err(Error::InvalidInterval));
    assert_eq!(p.validate_schedule(5, 10, 0, ScheduleKind::OneTime, 10), Ok(()));
    assert_eq!(p.schedule_count(), 0);
}

#[test]
fn refused_request_changes_nothing() {
    let mut p = initialized();
    let (id, _) = schedule(&mut p, 100, 10, 0, ScheduleKind::OneTime, 0).unwrap();
    assert_eq!(p.modify(address("GPAYER"), id, 500, 3), Err(Error::InvalidInterval));
    // the amount was not changed by the refused request
    assert_eq!(p.get_schedule(id).unwrap().amount, 100);
}

#[test]
fn execution_orders_the_transfer_and_announces_it() {
    let mut p = initialized();
    let (id, _) = schedule(&mut p, 250, 10, 0, ScheduleKind::OneTime, 0).unwrap();
    let (transfer, event) = p.execute(id, 10).unwrap();
    assert_eq!(
        transfer,
        Transfer { token: address("CTOKEN"), from: address("GPAYER"), to: address("GRECIPIENT"), amount: 250 }
    );
    assert_eq!(
        event,
        Event::Executed { id, payer: address("GPAYER"), recipient: address("GRECIPIENT"), amount: 250, executions: 1 }
    );
}

#[test]
fn recurring_schedule_not_due_before_interval() {
    let mut p = initialized();
    let (id, _) = schedule(&mut p, 100, 10, 50, ScheduleKind::Recurring, 0).unwrap();
    p.execute(id, 20).unwrap();
    assert_eq!(p.get_schedule(id).unwrap().execute_at, 70);
    assert_eq!(p.execute(id, 69), Err(Error::NotDue));
    assert!(p.execute(id, 70).is_ok());
    assert_eq!(p.get_schedule(id).unwrap().executions, 2);
}

#[test]
fn pause_blocks_cancel_and_modify_and_unpause_restores() {
    let mut p = initialized();
    let (id, _) = schedule(&mut p, 100, 10, 5, ScheduleKind::Recurring, 0).unwrap();
    assert_eq!(p.pause(), Ok(Event::Paused));
    assert_eq!(p.require_not_paused(), Err(Error::ContractPaused));
    assert_eq!(p.cancel(address("GPAYER"), id), Err(Error::ContractPaused));
    assert_eq!(p.modify(address("GPAYER"), id, 5, 0), Err(Error::ContractPaused));
    assert_eq!(p.unpause(), Ok(Event::Unpaused));
    assert_eq!(p.require_not_paused(), Ok(()));
    assert_eq!(p.modify(address("GPAYER"), id, 5, 9), Ok(Event::Modified { id, amount: 5, interval_ledgers: 9 }));
}

#[test]
fn cancel_announces_the_caller() {
    let mut p = initialized();
    let (id, _) = schedule(&mut p, 100, 10, 0, ScheduleKind::OneTime, 0).unwrap();
    assert_eq!(p.cancel(address("GADMIN"), id), Ok(Event::Cancelled { id, caller: address("GADMIN") }));
    assert_eq!(p.execute(id, 10), Err(Error::NotPending));
}

#[test]
fn transferred_admin_controls_the_scheduler() {
    let mut p = initialized();
    assert_eq!(
        p.transfer_admin(address("GNEW")),
        Ok(Event::AdminTransferred { new_admin: address("GNEW") })
    );
    let (id, _) = schedule(&mut p, 100, 10, 0, ScheduleKind::OneTime, 0).unwrap();
    // the previous administrator can no longer cancel other people's schedules
    assert_eq!(p.cancel(address("GADMIN"), id), Err(Error::Unauthorized));
    assert!(p.cancel(address("GNEW"), id).is_ok());
}

#[test]
fn execute_overflow_is_detected() {
    let mut p = initialized();
    let (id, _) = schedule(&mut p, 100, 10, u32::MAX, ScheduleKind::Recurring, 0).unwrap();
    assert!(!p.execute_would_overflow(id, 5));
    assert!(p.execute_would_overflow(id, 10));
    let (one, _) = schedule(&mut p, 100, 10, 0, ScheduleKind::OneTime, 0).unwrap();
    assert!(!p.execute_would_overflow(one, u32::MAX));
    assert_eq!(p.get_schedule(one).unwrap().status, ScheduleStatus::Pending);
}

#[test]
fn address_equality_is_by_text() {
    let a = address("GABC");
    assert!(a.same_as(&address("GABC")));
    assert!(!a.same_as(&address("GABD")));
    assert_eq!(a.clone(), a);
    assert_eq!(a.as_str(), "GABC");
}
