use sm_contract::context::{Emission, Invocation};
use sm_contract::host::{dispatch, invoke, ModuleId};
use sm_contract::ports::{PortKind, PortRegistry, Resolution};
use sm_contract::result::{success, ResultMessage};
use sm_contract::router::Router;

#[test]
fn registry_register_is_idempotent() {
    let mut reg = PortRegistry::new();
    assert!(reg.register_entry("go").is_ok());
    assert!(reg.register_entry("go").is_ok());
    assert_eq!(reg.resolve("go"), Resolution::Entry);
}

#[test]
fn registry_conflicting_kinds_are_refused() {
    let mut reg = PortRegistry::new();
    reg.register_output("out").unwrap();
    let err = reg.register_input("out").unwrap_err();
    assert_eq!(err.name, "out");
    assert_eq!(err.declared, PortKind::Output);
    assert_eq!(err.requested, PortKind::Input);
    assert_eq!(reg.resolve("out"), Resolution::Output);
}

#[test]
fn registry_unknown_name() {
    let reg = PortRegistry::new();
    assert_eq!(reg.resolve("anything"), Resolution::Unknown);
    assert_eq!(reg.resolve(""), Resolution::Unknown);
}

#[test]
fn router_fans_out_to_every_subscriber() {
    let mut router = Router::new();
    router.subscribe("output", 1, "in_a");
    router.subscribe("output2", 2, "in_b");
    router.subscribe("output", 3, "in_c");
    let ds = router.deliveries(&"output".to_string(), &vec![7, 8]);
    assert_eq!(ds.len(), 2);
    assert_eq!((ds[0].module, ds[0].handler.as_str()), (1, "in_a"));
    assert_eq!((ds[1].module, ds[1].handler.as_str()), (3, "in_c"));
    assert!(ds.iter().all(|d| d.message == vec![7, 8]));
}

#[test]
fn unsubscribed_channel_drops_message() {
    let mut router = Router::new();
    router.subscribe("other", 0, "in");
    assert!(router.deliveries(&"button_pressed".to_string(), &vec![]).is_empty());
    let d = dispatch(&router, ModuleId::ButtonDriver, "entry", &[]).unwrap();
    assert_eq!(d.result, ResultMessage::Success(None));
    assert!(d.deliveries.is_empty());
}

#[test]
fn route_keeps_emission_order() {
    let mut router = Router::new();
    router.subscribe("output2", 5, "second");
    router.subscribe("output", 4, "first");
    let emissions = vec![
        Emission { channel: "output".to_string(), message: vec![1] },
        Emission { channel: "output2".to_string(), message: vec![2] },
    ];
    let ds = router.route(&emissions);
    assert_eq!(ds.len(), 2);
    assert_eq!((ds[0].module, ds[0].message.clone()), (4, vec![1]));
    assert_eq!((ds[1].module, ds[1].message.clone()), (5, vec![2]));
}

#[test]
fn dispatch_routes_native_entry3() {
    let mut router = Router::new();
    router.subscribe("output", 2, "input2");
    router.subscribe("output2", 2, "input2");
    let d = dispatch(&router, ModuleId::Native, "entry3", &[0x05, 0x00]).unwrap();
    assert_eq!(d.result, success(None));
    assert_eq!(d.deliveries.len(), 2);
    for del in &d.deliveries {
        let mut ctx = Invocation::new();
        let r = invoke(ModuleId::Passthrough, &del.handler, &del.message, &mut ctx);
        assert_eq!(r, Some(success(None)));
        assert_eq!(ctx.log[1].text, "Val: 5");
    }
}

#[test]
fn dispatch_unknown_handler_runs_nothing() {
    let router = Router::new();
    assert!(dispatch(&router, ModuleId::Passthrough, "entry9", &[]).is_none());
    assert!(dispatch(&router, ModuleId::ButtonDriver, "button_pressed", &[]).is_none());
}

#[test]
fn dispatch_reports_failure_of_short_message() {
    let router = Router::new();
    let d = dispatch(&router, ModuleId::Passthrough, "input2", &[1]).unwrap();
    assert!(!d.result.is_success());
    assert!(d.result.failure_reason().is_some());
    assert_eq!(d.log.len(), 2);
}
