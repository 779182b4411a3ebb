use kuksa_broker::collector::SessionAction;
use kuksa_broker::collector::SessionEvent;
use kuksa_broker::collector::SessionState;
use kuksa_broker::collector::authorize_session;
use kuksa_broker::collector::batch_reply;
use kuksa_broker::collector::failure_code;
use kuksa_broker::collector::make_entry_updates;
use kuksa_broker::collector::run_session;
use kuksa_broker::collector::session_step;
use kuksa_broker::collector::translate_failures;
use kuksa_broker::collector::update_datapoints;
use kuksa_broker::store::Store;
use kuksa_broker::types::ChangeType;
use kuksa_broker::types::DataType;
use kuksa_broker::types::DataValue;
use kuksa_broker::types::Datapoint;
use kuksa_broker::types::EntryType;
use kuksa_broker::types::EntryUpdateRecord;
use kuksa_broker::types::FailureKind;
use kuksa_broker::types::Permissions;
use kuksa_broker::types::RegistrationError;
use kuksa_broker::types::RpcCode;

/// Store double that records every call and answers from a script.
struct FakeStore {
    update_calls: Vec<Vec<(i32, EntryUpdateRecord)>>,
    update_results: Vec<Result<(), Vec<(i32, FailureKind)>>>,
    add_calls: Vec<String>,
    add_results: Vec<Result<i32, RegistrationError>>,
}

impl FakeStore {
    fn new() -> FakeStore {
        FakeStore {
            update_calls: Vec::new(),
            update_results: Vec::new(),
            add_calls: Vec::new(),
            add_results: Vec::new(),
        }
    }
}

impl Store for FakeStore {
    fn update_entries(
        &mut self,
        _permissions: &Permissions,
        updates: Vec<(i32, EntryUpdateRecord)>,
    ) -> Result<(), Vec<(i32, FailureKind)>> {
        self.update_calls.push(updates);
        if self.update_results.is_empty() {
            Ok(())
        } else {
            self.update_results.remove(0)
        }
    }

    fn add_entry(
        &mut self,
        _permissions: &Permissions,
        name: String,
        _data_type: DataType,
        _change_type: ChangeType,
        _entry_type: EntryType,
        _description: String,
        _min: Option<DataValue>,
        _max: Option<DataValue>,
        _unit: Option<String>,
        _allowed: Option<Vec<DataValue>>,
    ) -> Result<i32, RegistrationError> {
        self.add_calls.push(name);
        if self.add_results.is_empty() {
            Ok(self.add_calls.len() as i32)
        } else {
            self.add_results.remove(0)
        }
    }
}

fn dp(v: i32) -> Datapoint {
    Datapoint { timestamp: None, value: DataValue::Int32(v) }
}

#[test]
fn update_without_permissions_is_unauthenticated_and_store_untouched() {
    let mut store = FakeStore::new();
    let r = update_datapoints(&mut store, None, vec![(1, dp(50))]);
    let status = r.unwrap_err();
    assert_eq!(status.code, RpcCode::Unauthenticated);
    assert_eq!(status.message, "Unauthenticated");
    assert_eq!(store.update_calls.len(), 0);
}

#[test]
fn update_full_success_reports_no_errors() {
    let mut store = FakeStore::new();
    store.update_results.push(Ok(()));
    let perms = Permissions::allow_all();
    let reply = update_datapoints(&mut store, Some(&perms), vec![(1, dp(5)), (2, dp(6))]).unwrap();
    assert!(reply.errors.is_empty());
    assert_eq!(store.update_calls.len(), 1);
    let sent = &store.update_calls[0];
    assert_eq!(sent.len(), 2);
    assert_eq!(sent[0].0, 1);
    assert!(sent[0].1.path.is_none());
    assert!(sent[0].1.actuator_target.is_none());
    assert!(sent[0].1.description.is_none());
    assert!(matches!(
        sent[0].1.datapoint.as_ref().unwrap().value,
        DataValue::Int32(5)
    ));
}

#[test]
fn update_failures_are_translated_to_wire_codes() {
    let mut store = FakeStore::new();
    store.update_results.push(Err(vec![
        (2, FailureKind::OutOfBounds),
        (7, FailureKind::InternalError),
    ]));
    let perms = Permissions::allow_all();
    let reply = update_datapoints(&mut store, Some(&perms), vec![(2, dp(99)), (7, dp(1))]).unwrap();
    assert_eq!(reply.errors, vec![(2, 4), (7, 3)]);
}

#[test]
fn failure_codes_are_exact() {
    assert_eq!(failure_code(FailureKind::UnknownDatapoint), 0);
    assert_eq!(failure_code(FailureKind::InvalidType), 1);
    assert_eq!(failure_code(FailureKind::AccessDenied), 2);
    assert_eq!(failure_code(FailureKind::InternalError), 3);
    assert_eq!(failure_code(FailureKind::OutOfBounds), 4);
}

#[test]
fn translate_keeps_ids_and_order() {
    let translated = translate_failures(&vec![
        (9, FailureKind::AccessDenied),
        (3, FailureKind::UnknownDatapoint),
    ]);
    assert_eq!(translated, vec![(9, 2), (3, 0)]);
}

#[test]
fn entry_updates_are_value_only_records() {
    let records = make_entry_updates(vec![(4, dp(11)), (5, dp(12))]);
    assert_eq!(records.len(), 2);
    assert_eq!(records[0].0, 4);
    assert_eq!(records[1].0, 5);
    for (_, record) in &records {
        assert!(record.path.is_none());
        assert!(record.actuator_target.is_none());
        assert!(record.description.is_none());
        assert!(record.datapoint.is_some());
    }
}

#[test]
fn authorize_session_requires_permissions() {
    let status = authorize_session(None).unwrap_err();
    assert_eq!(status.code, RpcCode::Unauthenticated);
    let perms = Permissions::allow_all();
    assert_eq!(authorize_session(Some(&perms)).unwrap(), SessionState::Active);
}

#[test]
fn session_step_applies_batches_and_stops_on_anything_else() {
    let (state, action) = session_step(SessionEvent::Batch(vec![(1, dp(2))]));
    assert_eq!(state, SessionState::Active);
    match action {
        SessionAction::Apply(updates) => assert_eq!(updates.len(), 1),
        SessionAction::Stop => panic!("a batch is applied, not stopped on"),
    }
    for event in [SessionEvent::EndOfStream, SessionEvent::TransportError, SessionEvent::Shutdown]
    {
        let (state, action) = session_step(event);
        assert_eq!(state, SessionState::Terminating);
        assert!(matches!(action, SessionAction::Stop));
    }
}

#[test]
fn batch_reply_is_silent_on_success() {
    assert!(batch_reply(Ok(())).is_none());
    let reply = batch_reply(Err(vec![(8, FailureKind::InvalidType)])).unwrap();
    assert_eq!(reply.errors, vec![(8, 1)]);
}

#[test]
fn stream_reports_only_the_failing_id() {
    // One entry within bounds, one outside: exactly one reply message, keyed
    // by the failing id, and no entry for the one that succeeded.
    let mut store = FakeStore::new();
    store.update_results.push(Err(vec![(2, FailureKind::OutOfBounds)]));
    let perms = Permissions::allow_all();
    let events = vec![
        SessionEvent::Batch(vec![(1, dp(10)), (2, dp(99))]),
        SessionEvent::EndOfStream,
    ];
    let (replies, state) = run_session(&mut store, Some(&perms), events).unwrap();
    assert_eq!(state, SessionState::Terminating);
    assert_eq!(replies.len(), 1);
    assert_eq!(replies[0].errors, vec![(2, 4)]);
}

#[test]
fn shutdown_halts_further_processing() {
    let mut store = FakeStore::new();
    store.update_results.push(Ok(()));
    let perms = Permissions::allow_all();
    let events = vec![
        SessionEvent::Batch(vec![(1, dp(1))]),
        SessionEvent::Shutdown,
        SessionEvent::Batch(vec![(2, dp(2))]),
    ];
    let (replies, state) = run_session(&mut store, Some(&perms), events).unwrap();
    assert_eq!(state, SessionState::Terminating);
    assert!(replies.is_empty());
    // The batch after the shutdown signal was never applied.
    assert_eq!(store.update_calls.len(), 1);
}

#[test]
fn session_without_permissions_never_reaches_the_store() {
    let mut store = FakeStore::new();
    let events = vec![SessionEvent::Batch(vec![(1, dp(1))]), SessionEvent::EndOfStream];
    let status = run_session(&mut store, None, events).unwrap_err();
    assert_eq!(status.code, RpcCode::Unauthenticated);
    assert_eq!(store.update_calls.len(), 0);
}

#[test]
fn session_failures_never_abort_the_loop() {
    let mut store = FakeStore::new();
    store.update_results.push(Err(vec![(1, FailureKind::AccessDenied)]));
    store.update_results.push(Ok(()));
    store.update_results.push(Err(vec![(3, FailureKind::UnknownDatapoint)]));
    let perms = Permissions::allow_all();
    let events = vec![
        SessionEvent::Batch(vec![(1, dp(1))]),
        SessionEvent::Batch(vec![(2, dp(2))]),
        SessionEvent::Batch(vec![(3, dp(3))]),
        SessionEvent::TransportError,
    ];
    let (replies, state) = run_session(&mut store, Some(&perms), events).unwrap();
    assert_eq!(state, SessionState::Terminating);
    assert_eq!(store.update_calls.len(), 3);
    assert_eq!(replies.len(), 2);
    assert_eq!(replies[0].errors, vec![(1, 2)]);
    assert_eq!(replies[1].errors, vec![(3, 0)]);
}

#[test]
fn exhausted_events_leave_the_session_active() {
    let mut store = FakeStore::new();
    let perms = Permissions::allow_all();
    let events = vec![SessionEvent::Batch(vec![(1, dp(1))])];
    let (_, state) = run_session(&mut store, Some(&perms), events).unwrap();
    assert_eq!(state, SessionState::Active);
}

/// Store double that checks values against registered entry types and bounds,
/// the way the real store validates updates.
struct ValidatingStore {
    entries: Vec<(i32, DataType, Option<DataValue>, Option<DataValue>)>,
}

impl ValidatingStore {
    fn check(&self, id: i32, value: &DataValue) -> Option<FailureKind> {
        let entry = self.entries.iter().find(|e| e.0 == id)?;
        match (entry.1, value) {
            (DataType::Uint8, DataValue::Int32(v)) => {
                let low = match entry.2 {
                    Some(DataValue::Uint32(m)) => *v < m as i32,
                    _ => false,
                };
                let high = match entry.3 {
                    Some(DataValue::Uint32(m)) => *v > m as i32,
                    _ => false,
                };
                if low || high {
                    Some(FailureKind::OutOfBounds)
                } else {
                    None
                }
            }
            (DataType::Float, DataValue::Int32(_)) => Some(FailureKind::InvalidType),
            _ => None,
        }
    }
}

impl Store for ValidatingStore {
    fn update_entries(
        &mut self,
        _permissions: &Permissions,
        updates: Vec<(i32, EntryUpdateRecord)>,
    ) -> Result<(), Vec<(i32, FailureKind)>> {
        let mut failures = Vec::new();
        for (id, record) in &updates {
            if let Some(datapoint) = &record.datapoint {
                if let Some(kind) = self.check(*id, &datapoint.value) {
                    failures.push((*id, kind));
                }
            }
        }
        if failures.is_empty() {
            Ok(())
        } else {
            Err(failures)
        }
    }

    fn add_entry(
        &mut self,
        _permissions: &Permissions,
        _name: String,
        data_type: DataType,
        _change_type: ChangeType,
        _entry_type: EntryType,
        _description: String,
        min: Option<DataValue>,
        max: Option<DataValue>,
        _unit: Option<String>,
        _allowed: Option<Vec<DataValue>>,
    ) -> Result<i32, RegistrationError> {
        let id = self.entries.len() as i32 + 1;
        self.entries.push((id, data_type, min, max));
        Ok(id)
    }
}

#[test]
fn test_publish_value_min_max_not_fulfilled() {
    let mut store = ValidatingStore { entries: Vec::new() };
    let perms = Permissions::allow_all();

    let entry_id_1 = store
        .add_entry(
            &perms,
            "test.datapoint1".to_owned(),
            DataType::Uint8,
            ChangeType::OnChange,
            EntryType::Sensor,
            "Test datapoint 1".to_owned(),
            Some(DataValue::Uint32(3)),
            Some(DataValue::Uint32(26)),
            None,
            None,
        )
        .unwrap();

    let entry_id_2 = store
        .add_entry(
            &perms,
            "test.datapoint1.Speed".to_owned(),
            DataType::Float,
            ChangeType::OnChange,
            EntryType::Sensor,
            "Test datapoint 1".to_owned(),
            None,
            None,
            None,
            None,
        )
        .unwrap();

    let datapoints = vec![(entry_id_1, dp(50)), (entry_id_2, dp(50))];

    match update_datapoints(&mut store, Some(&perms), datapoints) {
        Ok(response) => {
            assert_eq!(response.errors.len(), 2);
            let error_entry_1 =
                response.errors.iter().find(|e| e.0 == entry_id_1).map(|e| e.1);
            assert_eq!(error_entry_1.unwrap(), failure_code(FailureKind::OutOfBounds));
            let error_entry_2 =
                response.errors.iter().find(|e| e.0 == entry_id_2).map(|e| e.1);
            assert_eq!(error_entry_2.unwrap(), failure_code(FailureKind::InvalidType));
        }
        Err(_) => {
            panic!("Should not happen!");
        }
    }
}
