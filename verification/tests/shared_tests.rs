use order_intake::model::{Delivery, Order, OrderResponse, Payment};
use order_intake::error::LockAcquisitionFailure;
use order_intake::shared::{
    acquired, append_held, create_order, get_orders, list_held, SharedState,
};
use order_intake::store::OrderStore;
use std::sync::{Arc, Mutex};

fn scenario_order(uid: &str) -> Order {
    Order {
        order_uid: uid.to_string(),
        track_number: "T1".to_string(),
        entry: "WBIL".to_string(),
        delivery: Delivery {
            name: "n".to_string(),
            phone: "p".to_string(),
            zip: "z".to_string(),
            city: "c".to_string(),
            address: "a".to_string(),
            region: "r".to_string(),
            email: "e".to_string(),
        },
        payment: Payment {
            transaction: uid.to_string(),
            request_id: String::new(),
            currency: "USD".to_string(),
            provider: "wbpay".to_string(),
            amount: 100,
            payment_dt: 1609459200,
            bank: "alpha".to_string(),
            delivery_cost: 10,
            goods_total: 90,
            custom_fee: 0,
        },
        items: Vec::new(),
        locale: "en".to_string(),
        internal_signature: String::new(),
        customer_id: "c1".to_string(),
        delivery_service: "ups".to_string(),
        shardkey: "1".to_string(),
        sm_id: 1,
        date_created: "2021-01-01T00:00:00Z".to_string(),
        oof_shard: "1".to_string(),
    }
}

#[test]
fn get_orders_on_new_state_is_empty() {
    let state = SharedState::new();
    assert_eq!(get_orders(&state), Ok(Vec::new()));
}

#[test]
fn posted_order_is_answered_pending_and_listed() {
    let state = SharedState::new();
    let response = create_order(&state, scenario_order("a1"));
    assert_eq!(
        response,
        Ok(OrderResponse { order_uid: "a1".to_string(), status: "pending".to_string() })
    );
    let listed = get_orders(&state).unwrap();
    assert!(listed.iter().any(|stored| stored.order_uid == "a1"));
    assert_eq!(listed, vec![scenario_order("a1")]);
}

#[test]
fn create_order_keeps_arrival_order() {
    let state = SharedState::new();
    for uid in ["x", "y", "z"] {
        create_order(&state, scenario_order(uid)).unwrap();
    }
    let listed = get_orders(&state).unwrap();
    let uids: Vec<&str> = listed.iter().map(|stored| stored.order_uid.as_str()).collect();
    assert_eq!(uids, vec!["x", "y", "z"]);
}

#[test]
fn earlier_snapshot_does_not_see_later_orders() {
    let state = SharedState::new();
    create_order(&state, scenario_order("early")).unwrap();
    let snapshot = get_orders(&state).unwrap();
    create_order(&state, scenario_order("late")).unwrap();
    assert_eq!(snapshot.len(), 1);
    assert_eq!(get_orders(&state).unwrap().len(), 2);
}

#[test]
fn concurrent_appends_store_every_order_once() {
    let callers = 16usize;
    let state = Arc::new(SharedState::new());
    let runtime = tokio::runtime::Builder::new_multi_thread().worker_threads(4).build().unwrap();
    runtime.block_on(async {
        let mut tasks = Vec::new();
        for caller in 0..callers {
            let state = Arc::clone(&state);
            tasks.push(tokio::spawn(async move {
                let uid = format!("order-{caller}");
                let response = create_order(&state, scenario_order(&uid)).unwrap();
                assert_eq!(response.order_uid, uid);
                assert_eq!(response.status, "pending");
            }));
        }
        for task in tasks {
            task.await.unwrap();
        }
    });
    let listed = get_orders(&state).unwrap();
    assert_eq!(listed.len(), callers);
    for caller in 0..callers {
        let uid = format!("order-{caller}");
        let found: Vec<&Order> = listed.iter().filter(|stored| stored.order_uid == uid).collect();
        assert_eq!(found.len(), 1);
        assert_eq!(*found[0], scenario_order(&uid));
    }
}

#[test]
fn concurrent_readers_see_whole_orders_only() {
    let state = Arc::new(SharedState::new());
    let runtime = tokio::runtime::Builder::new_multi_thread().worker_threads(4).build().unwrap();
    runtime.block_on(async {
        let writer = {
            let state = Arc::clone(&state);
            tokio::spawn(async move {
                for n in 0..200 {
                    create_order(&state, scenario_order(&format!("w{n}"))).unwrap();
                }
            })
        };
        let reader = {
            let state = Arc::clone(&state);
            tokio::spawn(async move {
                let mut last_seen = 0usize;
                for _ in 0..200 {
                    let listed = get_orders(&state).unwrap();
                    assert!(listed.len() >= last_seen);
                    last_seen = listed.len();
                    for (position, stored) in listed.iter().enumerate() {
                        assert_eq!(*stored, scenario_order(&format!("w{position}")));
                    }
                }
            })
        };
        writer.await.unwrap();
        reader.await.unwrap();
    });
    assert_eq!(get_orders(&state).unwrap().len(), 200);
}

#[test]
fn append_held_pushes_onto_the_guarded_store() {
    let lock = Mutex::new(OrderStore::new());
    {
        let mut guard = lock.lock().unwrap();
        let first = append_held(&mut guard, scenario_order("g1"));
        assert_eq!(
            first,
            OrderResponse { order_uid: "g1".to_string(), status: "pending".to_string() }
        );
        assert_eq!(list_held(&guard), vec![scenario_order("g1")]);
        let second = append_held(&mut guard, scenario_order("g2"));
        assert_eq!(second.order_uid, "g2");
        assert_eq!(list_held(&guard), vec![scenario_order("g1"), scenario_order("g2")]);
    }
    let store = lock.into_inner().unwrap();
    assert_eq!(store.len(), 2);
    assert_eq!(store.list(), vec![scenario_order("g1"), scenario_order("g2")]);
}

#[test]
fn list_held_copies_what_the_guard_guards() {
    let mut store = OrderStore::new();
    store.append(scenario_order("kept-1"));
    store.append(scenario_order("kept-2"));
    let lock = Mutex::new(store);
    let guard = lock.lock().unwrap();
    let snapshot = list_held(&guard);
    assert_eq!(snapshot, vec![scenario_order("kept-1"), scenario_order("kept-2")]);
    assert_eq!(guard.len(), 2);
}

#[test]
fn acquired_hands_on_the_guard_of_a_healthy_lock() {
    let mut store = OrderStore::new();
    store.append(scenario_order("healthy"));
    let lock = Mutex::new(store);
    match acquired(lock.lock()) {
        Ok(guard) => assert_eq!(list_held(&guard), vec![scenario_order("healthy")]),
        Err(_) => panic!("a healthy lock was reported as poisoned"),
    };
}

#[test]
fn acquired_reports_a_poisoned_lock() {
    let lock = Arc::new(Mutex::new(OrderStore::new()));
    let runtime = tokio::runtime::Builder::new_multi_thread().worker_threads(1).build().unwrap();
    let crashed = runtime.block_on(async {
        let lock = Arc::clone(&lock);
        tokio::spawn(async move {
            let mut guard = lock.lock().unwrap();
            append_held(&mut guard, scenario_order("before-panic"));
            panic!("holder gives up while holding the lock");
        })
        .await
    });
    assert!(crashed.is_err());
    assert!(lock.is_poisoned());
    match acquired(lock.lock()) {
        Ok(_) => panic!("a poisoned lock was reported as healthy"),
        Err(failure) => assert_eq!(failure, LockAcquisitionFailure),
    };
}
