use tui_runloop::action::{invoke_update_loop, Action};
use tui_runloop::event::{KeyCode, KeyEventKind, KeyModifiers, KeyPress, RawEvent, ALT_BIT, CONTROL_BIT, SHIFT_BIT};
use tui_runloop::guard::{check_terminate_sequence, reserved_chord, ReservedChord, Termination};
use tui_runloop::run_loop::{AppLoop, Command, Phase};

fn key(modifiers: KeyModifiers, c: char) -> RawEvent {
    RawEvent::Key(KeyPress::new(KeyCode::Char(c), modifiers))
}

fn plain(c: char) -> RawEvent {
    key(KeyModifiers::empty(), c)
}

fn ctrl(c: char) -> RawEvent {
    key(KeyModifiers::control(), c)
}

/// A loop that has drawn its first frame and waits for the batch.
fn polling_loop() -> AppLoop {
    let (mut lp, cmd) = AppLoop::new();
    assert_eq!(cmd, Command::CheckExit);
    assert_eq!(lp.exit_checked(false), Command::Draw);
    assert_eq!(lp.drawn(), Command::Poll);
    assert_eq!(lp.phase(), Phase::Polling);
    lp
}

#[test]
fn modifiers_contains_checks_every_bit() {
    let both = KeyModifiers { bits: CONTROL_BIT | SHIFT_BIT };
    assert!(both.contains(KeyModifiers::control()));
    assert!(both.contains(KeyModifiers::empty()));
    assert!(!KeyModifiers { bits: ALT_BIT }.contains(KeyModifiers::control()));
    assert!(!both.contains(KeyModifiers { bits: CONTROL_BIT | ALT_BIT }));
}

#[test]
fn reserved_chords_are_recognised() {
    assert_eq!(reserved_chord(&ctrl('c')), Some(ReservedChord::Interrupt));
    assert_eq!(reserved_chord(&ctrl('x')), Some(ReservedChord::ErrorDrill));
    assert_eq!(reserved_chord(&ctrl('p')), Some(ReservedChord::CrashDrill));
    let ctrl_shift = KeyModifiers { bits: CONTROL_BIT | SHIFT_BIT };
    assert_eq!(reserved_chord(&key(ctrl_shift, 'c')), Some(ReservedChord::Interrupt));
    let release = RawEvent::Key(KeyPress {
        code: KeyCode::Char('x'),
        modifiers: KeyModifiers::control(),
        kind: KeyEventKind::Release,
    });
    assert_eq!(reserved_chord(&release), Some(ReservedChord::ErrorDrill));
}

#[test]
fn other_events_are_not_reserved() {
    assert_eq!(reserved_chord(&plain('c')), None);
    assert_eq!(reserved_chord(&ctrl('a')), None);
    assert_eq!(reserved_chord(&key(KeyModifiers { bits: ALT_BIT }, 'c')), None);
    assert_eq!(reserved_chord(&RawEvent::Key(KeyPress::new(KeyCode::Esc, KeyModifiers::control()))), None);
    assert_eq!(reserved_chord(&RawEvent::Paste(String::from("c"))), None);
    assert_eq!(reserved_chord(&RawEvent::Resize(80, 24)), None);
    assert_eq!(reserved_chord(&RawEvent::FocusLost), None);
}

#[test]
fn chord_messages() {
    assert_eq!(ReservedChord::Interrupt.message(), "exiting by <C-c>");
    assert_eq!(ReservedChord::ErrorDrill.message(), "exiting with TEST error by <C-x>");
    assert_eq!(ReservedChord::CrashDrill.message(), "TEST panic by <C-p>");
}

#[test]
fn guard_passes_a_batch_without_chords() {
    assert_eq!(check_terminate_sequence(&vec![]), Ok(()));
    let batch = vec![plain('a'), ctrl('a'), RawEvent::Resize(10, 5), plain('c')];
    assert_eq!(check_terminate_sequence(&batch), Ok(()));
}

#[test]
fn guard_stops_at_the_first_chord() {
    let batch = vec![plain('a'), ctrl('x'), ctrl('c'), ctrl('p')];
    assert_eq!(
        check_terminate_sequence(&batch),
        Err(Termination { index: 1, chord: ReservedChord::ErrorDrill })
    );
    let batch = vec![ctrl('p'), ctrl('c')];
    assert_eq!(
        check_terminate_sequence(&batch),
        Err(Termination { index: 0, chord: ReservedChord::CrashDrill })
    );
}

#[test]
fn noop_seed_never_reaches_update() {
    for _ in 0..3 {
        assert_eq!(invoke_update_loop(Action::Noop), None);
    }
    assert_eq!(invoke_update_loop(Action::UpdateTimer), Some(Action::UpdateTimer));
    assert_eq!(
        invoke_update_loop(Action::TranslateRawEvent(plain('q'))),
        Some(Action::TranslateRawEvent(plain('q')))
    );
}

#[test]
fn empty_batch_dispatches_one_tick() {
    let mut lp = polling_loop();
    assert_eq!(lp.polled(vec![]), Command::Update(Action::UpdateTimer));
    assert_eq!(lp.updated(Action::Noop), Command::CheckExit);
    assert_eq!(lp.phase(), Phase::CheckingExit);
    assert_eq!(lp.exit_checked(false), Command::Draw);
}

#[test]
fn events_are_dispatched_in_order_then_the_tick() {
    let mut lp = polling_loop();
    let cmd = lp.polled(vec![plain('a'), RawEvent::Resize(80, 24)]);
    assert_eq!(cmd, Command::Update(Action::TranslateRawEvent(plain('a'))));
    // a chain goes on until the update step returns Noop
    assert_eq!(lp.updated(Action::UpdateTimer), Command::Update(Action::UpdateTimer));
    assert_eq!(lp.updated(Action::Noop), Command::Update(Action::TranslateRawEvent(RawEvent::Resize(80, 24))));
    assert_eq!(lp.updated(Action::Noop), Command::Update(Action::UpdateTimer));
    assert_eq!(lp.updated(Action::Noop), Command::CheckExit);
}

#[test]
fn interrupt_after_a_plain_key_stops_the_iteration() {
    let mut lp = polling_loop();
    let cmd = lp.polled(vec![plain('a'), ctrl('c')]);
    assert_eq!(cmd, Command::Stop(Termination { index: 1, chord: ReservedChord::Interrupt }));
    assert_eq!(lp.phase(), Phase::Stopped);
}

#[test]
fn crash_chord_stops_before_any_draw() {
    let mut lp = polling_loop();
    let cmd = lp.polled(vec![ctrl('p')]);
    assert_eq!(cmd, Command::Stop(Termination { index: 0, chord: ReservedChord::CrashDrill }));
    assert_eq!(lp.phase(), Phase::Stopped);
}

#[test]
fn exiting_model_finishes_without_drawing() {
    let mut lp = polling_loop();
    assert_eq!(lp.polled(vec![plain('q')]), Command::Update(Action::TranslateRawEvent(plain('q'))));
    assert_eq!(lp.updated(Action::Noop), Command::Update(Action::UpdateTimer));
    assert_eq!(lp.updated(Action::Noop), Command::CheckExit);
    assert_eq!(lp.exit_checked(true), Command::Finish);
    assert_eq!(lp.phase(), Phase::Finished);
}

#[test]
fn exiting_at_start_finishes_at_once() {
    let (mut lp, _) = AppLoop::new();
    assert_eq!(lp.exit_checked(true), Command::Finish);
    assert_eq!(lp.phase(), Phase::Finished);
}
