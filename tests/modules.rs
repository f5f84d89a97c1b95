use sm_contract::button_driver;
use sm_contract::context::{Invocation, LogLevel};
use sm_contract::native_module;
use sm_contract::passthrough;
use sm_contract::ports::Resolution;
use sm_contract::result::{failure, success, FailureReason, ResultMessage};

#[test]
fn button_press_emits_one_empty_message() {
    let mut ctx = Invocation::new();
    let r = button_driver::entry(&[], &mut ctx);
    assert_eq!(r, ResultMessage::Success(None));
    assert_eq!(ctx.emissions.len(), 1);
    assert_eq!(ctx.emissions[0].channel, "button_pressed");
    assert!(ctx.emissions[0].message.is_empty());
    assert_eq!(ctx.log.len(), 1);
    assert_eq!(ctx.log[0].level, LogLevel::Info);
    assert_eq!(ctx.log[0].text, "Button has been pressed, sending output");
}

#[test]
fn button_driver_declarations() {
    let reg = button_driver::declarations().unwrap();
    assert_eq!(reg.resolve("entry"), Resolution::Entry);
    assert_eq!(reg.resolve("button_pressed"), Resolution::Output);
    assert_eq!(reg.resolve("input"), Resolution::Unknown);
}

#[test]
fn button_driver_invoke_by_name() {
    let mut ctx = Invocation::new();
    assert_eq!(button_driver::invoke("entry", &[1, 2], &mut ctx), Some(success(None)));
    assert_eq!(ctx.emissions.len(), 1);
    assert_eq!(button_driver::invoke("entry2", &[1, 2], &mut ctx), None);
    assert_eq!(ctx.emissions.len(), 1);
    assert_eq!(ctx.log.len(), 1);
}

#[test]
fn passthrough_logs_decoded_value() {
    let mut ctx = Invocation::new();
    let r = passthrough::input2(&[0x05, 0x00], &mut ctx);
    assert_eq!(r, ResultMessage::Success(None));
    assert!(ctx.emissions.is_empty());
    assert_eq!(ctx.log.len(), 2);
    assert_eq!(ctx.log[0].text, "input");
    assert_eq!(ctx.log[1].level, LogLevel::Info);
    assert_eq!(ctx.log[1].text, "Val: 5");
}

#[test]
fn passthrough_logs_multi_digit_value() {
    let mut ctx = Invocation::new();
    let r = passthrough::input2(&[0x34, 0x12, 0xaa], &mut ctx);
    assert_eq!(r, success(None));
    assert_eq!(ctx.log[1].text, "Val: 4660");
    let r = passthrough::input2(&[0xff, 0xff], &mut ctx);
    assert_eq!(r, success(None));
    assert_eq!(ctx.log[3].text, "Val: 65535");
}

#[test]
fn passthrough_short_message_fails_with_one_diagnostic() {
    for data in [&[][..], &[0x05][..]] {
        let mut ctx = Invocation::new();
        let r = passthrough::input2(data, &mut ctx);
        assert_eq!(
            r,
            failure(FailureReason::MessageTooShort { required: 2, actual: data.len() })
        );
        assert!(ctx.emissions.is_empty());
        let errors: Vec<_> = ctx.log.iter().filter(|e| e.level == LogLevel::Error).collect();
        assert_eq!(errors.len(), 1);
        assert_eq!(errors[0].text, "Wrong data received");
    }
}

#[test]
fn pure_trigger_with_empty_message_succeeds_without_emitting() {
    let mut ctx = Invocation::new();
    let r = passthrough::entry(&[], &mut ctx);
    assert_eq!(r, ResultMessage::Success(None));
    assert!(ctx.emissions.is_empty());
    assert_eq!(ctx.log.len(), 1);
    assert_eq!(ctx.log[0].text, "entry");
}

#[test]
fn passthrough_declarations_and_invoke() {
    let reg = passthrough::declarations().unwrap();
    assert_eq!(reg.resolve("input2"), Resolution::Input);
    assert_eq!(reg.resolve("entry"), Resolution::Entry);
    assert_eq!(reg.resolve("output"), Resolution::Unknown);
    let mut ctx = Invocation::new();
    assert_eq!(passthrough::invoke("input2", &[7, 1], &mut ctx), Some(success(None)));
    assert_eq!(ctx.log[1].text, "Val: 263");
    assert_eq!(
        passthrough::invoke("input2", &[7], &mut ctx),
        Some(failure(FailureReason::MessageTooShort { required: 2, actual: 1 }))
    );
    assert_eq!(passthrough::invoke("entry", &[], &mut ctx), Some(success(None)));
    assert_eq!(passthrough::invoke("missing", &[], &mut ctx), None);
    assert!(ctx.emissions.is_empty());
}

#[test]
fn native_entry2_forwards_on_output2_only() {
    let m = vec![1u8, 2, 3];
    let mut ctx = Invocation::new();
    let r = native_module::entry2(&m, &mut ctx);
    assert_eq!(r, ResultMessage::Success(None));
    assert_eq!(ctx.emissions.len(), 1);
    assert_eq!(ctx.emissions[0].channel, "output2");
    assert_eq!(ctx.emissions[0].message, m);
    assert!(ctx.emissions.iter().all(|e| e.channel != "output"));
}

#[test]
fn native_entry_forwards_on_output() {
    let mut ctx = Invocation::new();
    let r = native_module::entry(&[9], &mut ctx);
    assert_eq!(r, success(None));
    assert_eq!(ctx.emissions.len(), 1);
    assert_eq!(ctx.emissions[0].channel, "output");
    assert_eq!(ctx.emissions[0].message, vec![9]);
}

#[test]
fn native_entry3_emits_on_both_channels_in_call_order() {
    let m = vec![0xde, 0xad];
    let mut ctx = Invocation::new();
    let r = native_module::entry3(&m, &mut ctx);
    assert_eq!(r, success(None));
    assert_eq!(ctx.emissions.len(), 2);
    assert_eq!(ctx.emissions[0].channel, "output");
    assert_eq!(ctx.emissions[1].channel, "output2");
    assert_eq!(ctx.emissions[0].message, m);
    assert_eq!(ctx.emissions[1].message, m);
    assert_eq!(ctx.log.len(), 1);
    assert_eq!(ctx.log[0].text, "entry3");
}

#[test]
fn native_declarations_and_invoke() {
    let reg = native_module::declarations().unwrap();
    for name in ["entry", "entry2", "entry3"] {
        assert_eq!(reg.resolve(name), Resolution::Entry);
    }
    assert_eq!(reg.resolve("output"), Resolution::Output);
    assert_eq!(reg.resolve("output2"), Resolution::Output);
    assert_eq!(reg.resolve("output3"), Resolution::Unknown);
    let mut ctx = Invocation::new();
    assert_eq!(native_module::invoke("entry3", &[4], &mut ctx), Some(success(None)));
    assert_eq!(native_module::invoke("entry4", &[4], &mut ctx), None);
    assert_eq!(ctx.emissions.len(), 2);
}
