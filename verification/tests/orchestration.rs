use hue_alert::blink::{blink_cycle, blink_poll_step, blink_wait_step, BlinkAction, BlinkState};
use hue_alert::channel::{RecvPoll, SingleSlot, TrySendError};
use hue_alert::config::{get_config, AppConfig, ConfigError};
use hue_alert::dispatch::{dispatch_step, replay_commands, NotificationKind};
use hue_alert::hue::{classify_event, command_for_button, handle_bridge_event, Button};
use hue_alert::notification::{notification_body, notification_summary};
use hue_alert::tray::{icon_resource_name, Icon};
use hue_alert::{AlertState, Command};

#[test]
fn state_follows_last_state_changing_command() {
    let cmds = vec![Command::StartAlert, Command::StopAlert];
    assert_eq!(replay_commands(AlertState::Idle, &cmds), AlertState::Idle);

    let cmds = vec![Command::StopAlert, Command::StartAlert];
    assert_eq!(replay_commands(AlertState::Idle, &cmds), AlertState::Alerting);

    let cmds = vec![
        Command::StartAlert,
        Command::StartAlert,
        Command::StopAlert,
        Command::StartAlert,
    ];
    assert_eq!(replay_commands(AlertState::Idle, &cmds), AlertState::Alerting);

    // `Quit` is not state-changing: the state in force before it remains.
    let cmds = vec![Command::StartAlert, Command::Quit];
    assert_eq!(replay_commands(AlertState::Idle, &cmds), AlertState::Alerting);

    let empty: Vec<Command> = vec![];
    assert_eq!(replay_commands(AlertState::Idle, &empty), AlertState::Idle);
    assert_eq!(replay_commands(AlertState::Alerting, &empty), AlertState::Alerting);
}

#[test]
fn start_alert_twice_is_idempotent() {
    let first = dispatch_step(AlertState::Idle, Some(Command::StartAlert));
    assert_eq!(first.next_state, AlertState::Alerting);
    let second = dispatch_step(first.next_state, Some(Command::StartAlert));
    assert_eq!(second.next_state, AlertState::Alerting);
    // The re-issued side effects are the same, and the redundant `true`
    // keeps the blink controller in its active inner loop.
    assert_eq!(second.blink_signal, Some(true));
    assert_eq!(blink_poll_step(RecvPoll::Value(true)), BlinkState::Active);
}

#[test]
fn blink_cycle_alternates_on_then_off_with_unit_phases() {
    let cycle = blink_cycle();
    assert_eq!(
        cycle,
        vec![
            BlinkAction::LightOnAlert,
            BlinkAction::SleepUnit,
            BlinkAction::LightOff,
            BlinkAction::SleepUnit,
        ]
    );
}

#[test]
fn blink_controller_stops_on_false_and_only_then() {
    // Entered on `true`; empty polls keep it blinking.
    assert_eq!(blink_wait_step(Some(true)), BlinkState::Active);
    assert_eq!(blink_poll_step(RecvPoll::Empty), BlinkState::Active);
    assert_eq!(blink_poll_step(RecvPoll::Value(true)), BlinkState::Active);
    // A `false` poll breaks to the outer wait after the cycle under way.
    assert_eq!(blink_poll_step(RecvPoll::Value(false)), BlinkState::Waiting);
    // A closed channel is fatal to the whole controller.
    assert_eq!(blink_poll_step(RecvPoll::Closed), BlinkState::Terminated);
    // In the outer wait, `false` is a harmless no-op; closure terminates.
    assert_eq!(blink_wait_step(Some(false)), BlinkState::Waiting);
    assert_eq!(blink_wait_step(None), BlinkState::Terminated);
}

#[test]
fn second_send_is_rejected_never_merged() {
    let mut chan: SingleSlot<Command> = SingleSlot::new();
    assert_eq!(chan.try_send(Command::StartAlert), Ok(()));
    // The slot is full: the second command bounces back whole, and the
    // pending command is exactly the first one.
    assert_eq!(
        chan.try_send(Command::StopAlert),
        Err(TrySendError::Full(Command::StopAlert))
    );
    assert_eq!(chan.try_recv(), RecvPoll::Value(Command::StartAlert));
    assert_eq!(chan.try_recv(), RecvPoll::Empty);
}

#[test]
fn closed_channel_rejects_sends_but_delivers_the_pending_item() {
    let mut chan: SingleSlot<Command> = SingleSlot::new();
    assert_eq!(chan.try_send(Command::StopAlert), Ok(()));
    chan.close();
    assert_eq!(
        chan.try_send(Command::StartAlert),
        Err(TrySendError::Closed(Command::StartAlert))
    );
    assert_eq!(chan.try_recv(), RecvPoll::Value(Command::StopAlert));
    assert_eq!(chan.try_recv(), RecvPoll::Closed);
}

#[test]
fn quit_and_channel_closure_both_terminate_the_dispatcher() {
    let quit = dispatch_step(AlertState::Alerting, Some(Command::Quit));
    assert!(quit.terminate);
    assert_eq!(quit.next_state, AlertState::Alerting);
    assert_eq!(quit.notification, None);
    assert_eq!(quit.blink_signal, None);
    assert_eq!(quit.icon, None);

    let closed = dispatch_step(AlertState::Idle, None);
    assert!(closed.terminate);
    assert_eq!(closed.next_state, AlertState::Idle);
    assert_eq!(closed.blink_signal, None);

    let alive = dispatch_step(AlertState::Idle, Some(Command::StartAlert));
    assert!(!alive.terminate);
}

#[test]
fn start_stop_start_quit_scenario() {
    let script = [
        Command::StartAlert,
        Command::StopAlert,
        Command::StartAlert,
        Command::Quit,
    ];
    let mut state = AlertState::Idle;
    let mut notifications: Vec<(String, String)> = Vec::new();
    let mut icons: Vec<Icon> = Vec::new();
    let mut light_calls: Vec<BlinkAction> = Vec::new();
    let mut blink = BlinkState::Waiting;
    let mut terminated = false;

    for cmd in script {
        assert!(!terminated);
        let o = dispatch_step(state, Some(cmd));
        state = o.next_state;
        if let Some(kind) = o.notification {
            notifications.push((
                notification_summary(&kind).to_owned(),
                notification_body(&kind).to_owned(),
            ));
        }
        if let Some(signal) = o.blink_signal {
            // The signal reaches the controller at its next receive (outer
            // wait) or at the poll that closes the cycle under way (active).
            blink = match blink {
                BlinkState::Waiting => blink_wait_step(Some(signal)),
                BlinkState::Active => {
                    // The cycle in progress completes before the poll: the
                    // light is off when a stop signal is observed.
                    light_calls.push(BlinkAction::LightOff);
                    blink_poll_step(RecvPoll::Value(signal))
                }
                BlinkState::Terminated => BlinkState::Terminated,
            };
            if blink == BlinkState::Active {
                // A cycle begins by turning the light on with the alert color.
                assert_eq!(blink_cycle()[0], BlinkAction::LightOnAlert);
                light_calls.push(BlinkAction::LightOnAlert);
            }
        }
        if let Some(icon) = o.icon {
            icons.push(icon);
        }
        if o.terminate {
            terminated = true;
        }
    }

    assert!(terminated);
    let summaries: Vec<&str> = notifications.iter().map(|n| n.0.as_str()).collect();
    let bodies: Vec<&str> = notifications.iter().map(|n| n.1.as_str()).collect();
    assert_eq!(summaries, vec!["Alert", "Alert", "Alert"]);
    assert_eq!(bodies, vec!["Alert started", "Alert stopped", "Alert started"]);
    assert_eq!(icons, vec![Icon::Red, Icon::Green, Icon::Red]);
    // on (first alert) → off (the cycle completes after the stop) → on
    // (second alert); the quit ends the process with no further light call.
    assert_eq!(
        light_calls,
        vec![
            BlinkAction::LightOnAlert,
            BlinkAction::LightOff,
            BlinkAction::LightOnAlert,
        ]
    );
}

#[test]
fn listener_classifies_and_submits_without_blocking() {
    assert_eq!(classify_event(true, false), Some(Button::On));
    assert_eq!(classify_event(false, true), Some(Button::Off));
    assert_eq!(classify_event(true, true), Some(Button::On));
    assert_eq!(classify_event(false, false), None);
    assert_eq!(command_for_button(Button::On), Command::StartAlert);
    assert_eq!(command_for_button(Button::Off), Command::StopAlert);

    let mut chan: SingleSlot<Command> = SingleSlot::new();
    // A matching event on an empty slot submits the command.
    assert_eq!(handle_bridge_event(&mut chan, true, false), Some(Command::StartAlert));
    // A second event before the dispatcher drains the slot is dropped,
    // and the pending command is untouched.
    assert_eq!(handle_bridge_event(&mut chan, false, true), None);
    assert_eq!(chan.try_recv(), RecvPoll::Value(Command::StartAlert));
    // An event matching neither button is ignored.
    assert_eq!(handle_bridge_event(&mut chan, false, false), None);
    assert_eq!(chan.try_recv(), RecvPoll::Empty);
}

#[test]
fn icon_resources_and_notification_texts() {
    assert_eq!(icon_resource_name(&Icon::Red), "red");
    assert_eq!(icon_resource_name(&Icon::Green), "green");
    assert_eq!(notification_summary(&NotificationKind::Started), "Alert");
    assert_eq!(notification_summary(&NotificationKind::Stopped), "Alert");
    assert_eq!(notification_body(&NotificationKind::Started), "Alert started");
    assert_eq!(notification_body(&NotificationKind::Stopped), "Alert stopped");
}

#[test]
fn config_requires_every_setting() {
    let full = get_config(
        Some("192.168.1.2".to_owned()),
        Some("key".to_owned()),
        Some("on-rid".to_owned()),
        Some("off-rid".to_owned()),
        Some("light-1".to_owned()),
    );
    assert_eq!(
        full,
        Ok(AppConfig {
            bridge_address: "192.168.1.2".to_owned(),
            app_key: "key".to_owned(),
            on_button_rid: "on-rid".to_owned(),
            off_button_rid: "off-rid".to_owned(),
            light_id: "light-1".to_owned(),
        })
    );

    let missing_addr = get_config(
        None,
        Some("key".to_owned()),
        Some("on".to_owned()),
        Some("off".to_owned()),
        Some("light".to_owned()),
    );
    assert_eq!(missing_addr, Err(ConfigError::MissingBridgeAddress));

    let missing_key = get_config(
        Some("addr".to_owned()),
        None,
        Some("on".to_owned()),
        Some("off".to_owned()),
        Some("light".to_owned()),
    );
    assert_eq!(missing_key, Err(ConfigError::MissingAppKey));

    let missing_on = get_config(
        Some("addr".to_owned()),
        Some("key".to_owned()),
        None,
        Some("off".to_owned()),
        Some("light".to_owned()),
    );
    assert_eq!(missing_on, Err(ConfigError::MissingOnButtonRid));

    let missing_off = get_config(
        Some("addr".to_owned()),
        Some("key".to_owned()),
        Some("on".to_owned()),
        None,
        Some("light".to_owned()),
    );
    assert_eq!(missing_off, Err(ConfigError::MissingOffButtonRid));

    let missing_light = get_config(
        Some("addr".to_owned()),
        Some("key".to_owned()),
        Some("on".to_owned()),
        Some("off".to_owned()),
        None,
    );
    assert_eq!(missing_light, Err(ConfigError::MissingLightId));

    // Missing settings are reported first to last.
    let all_missing = get_config(None, None, None, None, None);
    assert_eq!(all_missing, Err(ConfigError::MissingBridgeAddress));
}
