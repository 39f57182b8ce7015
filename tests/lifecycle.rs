use sdl_lifecycle::{init, ContextError, Runtime, Sdl, Subsystem, Teardown};

fn live_context(rt: &mut Runtime) -> Sdl {
    let ticket = init(rt).ok().expect("first init is admitted");
    ticket.complete(rt, 0, String::new()).ok().expect("native init succeeded")
}

#[test]
fn second_init_is_refused_while_alive() {
    let mut rt = Runtime::new();
    let sdl = live_context(&mut rt);
    assert!(matches!(init(&mut rt), Err(ContextError::AlreadyInitialized)));
    assert!(rt.is_context_alive());
    assert_eq!(rt.context_refs(), 1);
    assert_eq!(sdl.release(&mut rt), vec![Teardown::Quit]);
    assert!(!rt.is_context_alive());
    assert!(init(&mut rt).is_ok());
}

#[test]
fn init_is_refused_while_pending() {
    let mut rt = Runtime::new();
    let _ticket = init(&mut rt).ok().unwrap();
    assert!(matches!(init(&mut rt), Err(ContextError::AlreadyInitialized)));
}

#[test]
fn init_race_admits_one() {
    let mut rt = Runtime::new();
    let mut admitted = 0;
    let mut refused = 0;
    for _ in 0..8 {
        match init(&mut rt) {
            Ok(_) => admitted += 1,
            Err(ContextError::AlreadyInitialized) => refused += 1,
            Err(e) => panic!("unexpected {:?}", e),
        }
    }
    assert_eq!(admitted, 1);
    assert_eq!(refused, 7);
}

#[test]
fn failed_native_init_resets_the_flag() {
    let mut rt = Runtime::new();
    let ticket = init(&mut rt).ok().unwrap();
    match ticket.complete(&mut rt, -1, "no video device".to_string()) {
        Err(ContextError::Native(m)) => assert_eq!(m, "no video device"),
        _ => panic!("expected a native error"),
    }
    assert!(!rt.is_context_alive());
    let sdl = live_context(&mut rt);
    assert_eq!(sdl.release(&mut rt), vec![Teardown::Quit]);
}

#[test]
fn shutdown_only_after_last_context_handle() {
    let mut rt = Runtime::new();
    let a = live_context(&mut rt);
    let b = a.duplicate(&mut rt);
    let c = b.sdldrop(&mut rt);
    assert_eq!(rt.context_refs(), 3);
    assert!(a.release(&mut rt).is_empty());
    assert!(c.release(&mut rt).is_empty());
    assert_eq!(b.release(&mut rt), vec![Teardown::Quit]);
    assert_eq!(rt.context_refs(), 0);
}

#[test]
fn subsystem_quits_once_after_all_duplicates() {
    let mut rt = Runtime::new();
    let sdl = live_context(&mut rt);
    let audio = sdl.audio(&mut rt, 0, String::new()).ok().unwrap();
    assert_eq!(audio.kind(), Subsystem::Audio);
    assert_eq!(audio.ref_count(&rt), 1);
    let mut copies = Vec::new();
    for _ in 0..4 {
        copies.push(audio.duplicate(&mut rt));
    }
    assert_eq!(rt.context_refs(), 2);
    assert_eq!(audio.ref_count(&rt), 5);
    for h in copies {
        assert!(h.release(&mut rt).is_empty());
    }
    assert_eq!(audio.release(&mut rt), vec![Teardown::QuitSubSystem(0x10)]);
    assert_eq!(rt.context_refs(), 1);
    assert_eq!(sdl.release(&mut rt), vec![Teardown::Quit]);
}

#[test]
fn subsystem_keeps_context_alive() {
    let mut rt = Runtime::new();
    let sdl = live_context(&mut rt);
    let video = sdl.video(&mut rt, 0, String::new()).ok().unwrap();
    assert!(sdl.release(&mut rt).is_empty());
    assert!(rt.is_context_alive());
    let again = video.sdl(&mut rt);
    assert_eq!(video.release(&mut rt), vec![Teardown::QuitSubSystem(0x20)]);
    assert_eq!(again.release(&mut rt), vec![Teardown::Quit]);
}

#[test]
fn last_subsystem_reference_ends_the_context() {
    let mut rt = Runtime::new();
    let sdl = live_context(&mut rt);
    let timer = sdl.timer(&mut rt, 0, String::new()).ok().unwrap();
    assert!(sdl.release(&mut rt).is_empty());
    assert_eq!(
        timer.release(&mut rt),
        vec![Teardown::QuitSubSystem(0x1), Teardown::Quit]
    );
    assert!(!rt.is_context_alive());
}

#[test]
fn subsystem_native_failure_is_reported() {
    let mut rt = Runtime::new();
    let sdl = live_context(&mut rt);
    match sdl.haptic(&mut rt, -1, "Haptic: no devices".to_string()) {
        Err(ContextError::Native(m)) => assert_eq!(m, "Haptic: no devices"),
        _ => panic!("expected a native error"),
    }
    assert_eq!(rt.context_refs(), 1);
    assert_eq!(sdl.release(&mut rt), vec![Teardown::Quit]);
}

#[test]
fn every_subsystem_gets_its_flag() {
    let mut rt = Runtime::new();
    let sdl = live_context(&mut rt);
    let handles = vec![
        sdl.audio(&mut rt, 0, String::new()).ok().unwrap(),
        sdl.event(&mut rt, 0, String::new()).ok().unwrap(),
        sdl.joystick(&mut rt, 0, String::new()).ok().unwrap(),
        sdl.haptic(&mut rt, 0, String::new()).ok().unwrap(),
        sdl.game_controller(&mut rt, 0, String::new()).ok().unwrap(),
        sdl.timer(&mut rt, 0, String::new()).ok().unwrap(),
        sdl.video(&mut rt, 0, String::new()).ok().unwrap(),
    ];
    let expected = [0x10u32, 0x4000, 0x200, 0x1000, 0x2000, 0x1, 0x20];
    assert_eq!(rt.context_refs(), 8);
    for (h, flag) in handles.into_iter().zip(expected.iter()) {
        assert_eq!(h.kind().flag(), *flag);
        assert_eq!(h.release(&mut rt), vec![Teardown::QuitSubSystem(*flag)]);
    }
    assert_eq!(sdl.release(&mut rt), vec![Teardown::Quit]);
}

#[test]
fn freed_subsystem_record_is_reused() {
    let mut rt = Runtime::new();
    let sdl = live_context(&mut rt);
    let a = sdl.joystick(&mut rt, 0, String::new()).ok().unwrap();
    assert_eq!(a.release(&mut rt), vec![Teardown::QuitSubSystem(0x200)]);
    let b = sdl.game_controller(&mut rt, 0, String::new()).ok().unwrap();
    let c = b.duplicate(&mut rt);
    assert!(b.release(&mut rt).is_empty());
    assert_eq!(c.release(&mut rt), vec![Teardown::QuitSubSystem(0x2000)]);
    assert_eq!(sdl.release(&mut rt), vec![Teardown::Quit]);
}

#[test]
fn event_pump_is_exclusive() {
    let mut rt = Runtime::new();
    let sdl = live_context(&mut rt);
    let pump = sdl.event_pump(&mut rt).ok().unwrap().complete(&mut rt, 0, String::new()).ok().unwrap();
    assert!(rt.is_event_pump_alive());
    assert!(matches!(sdl.event_pump(&mut rt), Err(ContextError::AlreadyActive)));
    assert_eq!(pump.release(&mut rt), vec![Teardown::QuitSubSystem(0x4000)]);
    assert!(!rt.is_event_pump_alive());
    let again = sdl.event_pump(&mut rt).ok().unwrap().complete(&mut rt, 0, String::new());
    assert!(again.is_ok());
    assert_eq!(
        again.ok().unwrap().release(&mut rt),
        vec![Teardown::QuitSubSystem(0x4000)]
    );
    assert_eq!(sdl.release(&mut rt), vec![Teardown::Quit]);
}

#[test]
fn event_pump_refused_while_pending() {
    let mut rt = Runtime::new();
    let sdl = live_context(&mut rt);
    let ticket = sdl.event_pump(&mut rt).ok().unwrap();
    assert!(matches!(sdl.event_pump(&mut rt), Err(ContextError::AlreadyActive)));
    match ticket.complete(&mut rt, 1, "events failed".to_string()) {
        Err(ContextError::Native(m)) => assert_eq!(m, "events failed"),
        _ => panic!("expected a native error"),
    }
    assert!(!rt.is_event_pump_alive());
    assert_eq!(rt.context_refs(), 1);
    assert_eq!(sdl.release(&mut rt), vec![Teardown::Quit]);
}

#[test]
fn event_pump_keeps_context_alive() {
    let mut rt = Runtime::new();
    let sdl = live_context(&mut rt);
    let pump = sdl.event_pump(&mut rt).ok().unwrap().complete(&mut rt, 0, String::new()).ok().unwrap();
    assert!(sdl.release(&mut rt).is_empty());
    assert_eq!(
        pump.release(&mut rt),
        vec![Teardown::QuitSubSystem(0x4000), Teardown::Quit]
    );
    assert!(!rt.is_context_alive());
}

#[test]
fn shareable_subsystems() {
    assert!(Subsystem::Timer.is_shareable());
    assert!(Subsystem::Events.is_shareable());
    assert!(!Subsystem::Audio.is_shareable());
    assert!(!Subsystem::Video.is_shareable());
}

#[test]
fn mixed_release_order_quits_once_at_the_end() {
    let mut rt = Runtime::new();
    let sdl = live_context(&mut rt);
    let joy = sdl.joystick(&mut rt, 0, String::new()).ok().unwrap();
    let joy2 = joy.duplicate(&mut rt);
    let pump = sdl.event_pump(&mut rt).ok().unwrap().complete(&mut rt, 0, String::new()).ok().unwrap();
    let drop_ref = sdl.sdldrop(&mut rt);
    let mut calls = Vec::new();
    calls.extend(joy.release(&mut rt));
    calls.extend(sdl.release(&mut rt));
    calls.extend(pump.release(&mut rt));
    calls.extend(joy2.release(&mut rt));
    calls.extend(drop_ref.release(&mut rt));
    assert_eq!(
        calls,
        vec![
            Teardown::QuitSubSystem(0x4000),
            Teardown::QuitSubSystem(0x200),
            Teardown::Quit
        ]
    );
    assert!(!rt.is_context_alive());
    assert!(init(&mut rt).is_ok());
}
