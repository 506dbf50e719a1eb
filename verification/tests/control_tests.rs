use server_control::channel::{deliver_next, CommandChannel};
use server_control::config::{server_conf, ssl_conf, DocSource};
use server_control::control::{
    command_of, decide, selection_label, selection_of_index, Action, ControlPlane, Selection,
};
use server_control::worker::{BindError, ControlCommand, WorkerState};

#[test]
fn menu_indices_map_in_order() {
    assert_eq!(selection_of_index(0), Some(Selection::Pause));
    assert_eq!(selection_of_index(1), Some(Selection::Resume));
    assert_eq!(selection_of_index(2), Some(Selection::Reload));
    assert_eq!(selection_of_index(3), Some(Selection::Quit));
    assert_eq!(selection_of_index(4), None);
}

#[test]
fn selections_decide_their_actions() {
    assert_eq!(decide(Some(Selection::Pause)), Action::SendPause);
    assert_eq!(decide(Some(Selection::Resume)), Action::SendResume);
    assert_eq!(decide(Some(Selection::Reload)), Action::StopForReload);
    assert_eq!(decide(Some(Selection::Quit)), Action::StopForQuit);
}

#[test]
fn no_selection_redisplays_the_menu() {
    assert_eq!(decide(None), Action::ShowMenu);
    assert_eq!(command_of(Action::ShowMenu), None);
}

#[test]
fn actions_carry_their_commands() {
    assert_eq!(command_of(Action::SendPause), Some(ControlCommand::Pause));
    assert_eq!(command_of(Action::SendResume), Some(ControlCommand::Resume));
    assert_eq!(command_of(Action::StopForReload), Some(ControlCommand::Stop(true)));
    assert_eq!(command_of(Action::StopForQuit), Some(ControlCommand::Stop(true)));
}

#[test]
fn menu_labels() {
    assert_eq!(selection_label(Selection::Pause), "Pause");
    assert_eq!(selection_label(Selection::Resume), "Resume");
    assert_eq!(selection_label(Selection::Reload), "Reload");
    assert_eq!(selection_label(Selection::Quit), "Quit");
}

#[test]
fn channel_delivers_in_order_and_loses_nothing() {
    let mut ch = CommandChannel::new();
    ch.send(ControlCommand::Pause);
    ch.send(ControlCommand::Resume);
    ch.send(ControlCommand::Stop(true));
    assert_eq!(ch.len(), 3);
    assert_eq!(ch.recv(), Some(ControlCommand::Pause));
    assert_eq!(ch.recv(), Some(ControlCommand::Resume));
    assert_eq!(ch.recv(), Some(ControlCommand::Stop(true)));
    assert_eq!(ch.recv(), None);
}

#[test]
fn delivered_commands_are_processed_one_at_a_time() {
    let mut cp = ControlPlane::new();
    cp.begin_epoch(vec![String::from("127.0.0.1:9443")]);
    cp.confirm_bound();
    let mut w = cp.worker.take().unwrap();
    let mut ch = CommandChannel::new();
    ch.send(ControlCommand::Pause);
    ch.send(ControlCommand::Resume);
    deliver_next(&mut w, &mut ch);
    assert_eq!(w.state, WorkerState::Paused);
    assert_eq!(ch.len(), 1);
    deliver_next(&mut w, &mut ch);
    assert_eq!(w.state, WorkerState::Running);
    assert_eq!(ch.len(), 0);
}

#[test]
fn first_epoch_runs_after_valid_configuration() {
    // The end-to-end start: a valid server and TLS record pair, one epoch.
    let server = server_conf(DocSource::Text(String::from(
        "{\"socket\":\"127.0.0.1:9443\",\"hostname\":\"test\"}",
    )))
    .unwrap();
    let tls = ssl_conf(DocSource::Text(String::from(
        "{\"cert\":\"x\",\"certfile\":\"valid.pem\",\"keyfile\":\"valid.key\",\"socket\":\"127.0.0.1:9443\"}",
    )))
    .unwrap();
    let mut cp = ControlPlane::new();
    cp.begin_epoch(vec![server.socket.clone(), tls.socket.clone()]);
    assert_eq!(cp.epoch, 1);
    let w = cp.worker.as_ref().unwrap();
    assert_eq!(w.state, WorkerState::Starting);
    cp.confirm_bound();
    let w = cp.worker.as_ref().unwrap();
    assert_eq!(w.state, WorkerState::Running);
    assert!(w.bound);
}

#[test]
fn pause_then_connect_refused_resume_then_accepted() {
    let mut cp = ControlPlane::new();
    cp.begin_epoch(vec![String::from("127.0.0.1:9443")]);
    cp.confirm_bound();
    cp.pause();
    assert!(!cp.worker.as_mut().unwrap().try_connect());
    cp.resume();
    assert!(cp.worker.as_mut().unwrap().try_connect());
}

#[test]
fn reload_frees_the_address_before_the_next_epoch_binds() {
    let mut cp = ControlPlane::new();
    cp.begin_epoch(vec![String::from("127.0.0.1:9443")]);
    cp.confirm_bound();
    assert!(cp.worker.as_mut().unwrap().try_connect());
    // Reload: stop gracefully; the in-flight connection forces a drain.
    cp.begin_stop(true);
    let w = cp.worker.as_ref().unwrap();
    assert_eq!(w.state, WorkerState::Stopping);
    assert!(w.bound);
    cp.ack_stopped();
    let w = cp.worker.as_ref().unwrap();
    assert_eq!(w.state, WorkerState::Stopped);
    assert!(!w.bound);
    // Only now may the next epoch begin; the altered configuration moves it
    // to another socket, and the first is no longer bound anywhere.
    cp.begin_epoch(vec![String::from("127.0.0.1:9444")]);
    assert_eq!(cp.epoch, 2);
    let w = cp.worker.as_ref().unwrap();
    assert_eq!(w.addrs, vec![String::from("127.0.0.1:9444")]);
    cp.confirm_bound();
    assert_eq!(cp.worker.as_ref().unwrap().state, WorkerState::Running);
}

#[test]
fn quit_stops_everything_and_exits_zero() {
    let mut cp = ControlPlane::new();
    cp.begin_epoch(vec![String::from("127.0.0.1:9443")]);
    cp.confirm_bound();
    cp.begin_stop(true);
    // Nothing was in flight: the stop is immediate.
    assert_eq!(cp.worker.as_ref().unwrap().state, WorkerState::Stopped);
    assert!(!cp.worker.as_ref().unwrap().bound);
    assert_eq!(cp.finish_quit(), 0);
}

#[test]
fn bind_failure_ends_the_epoch_and_allows_another() {
    let mut cp = ControlPlane::new();
    cp.begin_epoch(vec![String::from("127.0.0.1:80")]);
    cp.bind_failed(BindError::AddressInUse);
    let w = cp.worker.as_ref().unwrap();
    assert_eq!(w.state, WorkerState::Stopped);
    assert_eq!(w.fault, Some(BindError::AddressInUse));
    cp.begin_epoch(vec![String::from("127.0.0.1:8080")]);
    assert_eq!(cp.epoch, 2);
}

#[test]
fn setup_failure_is_fatal_only_before_any_epoch() {
    let mut cp = ControlPlane::new();
    assert!(cp.setup_failure_is_fatal());
    cp.begin_epoch(vec![String::from("127.0.0.1:9443")]);
    assert!(!cp.setup_failure_is_fatal());
}

#[test]
fn unavailable_worker_is_abandoned_for_a_reload() {
    let mut cp = ControlPlane::new();
    cp.begin_epoch(vec![String::from("127.0.0.1:9443")]);
    cp.confirm_bound();
    cp.on_worker_unavailable();
    assert!(cp.worker.is_none());
    cp.begin_epoch(vec![String::from("127.0.0.1:9443")]);
    assert_eq!(cp.epoch, 2);
}
