use presage_bridge::command::{link_outcome, whoami_outcome, Cmd, Servers};
use presage_bridge::consumer::{Action, Consumer, Event, Phase};
use presage_bridge::record::Presage;

#[test]
fn blank_record() {
    let r = Presage::from_account(11);
    assert_eq!(r.account, 11);
    assert!(r.tx_ptr.is_none() && r.qrcode.is_none() && r.uuid.is_none());
    assert!(r.who.is_none() && r.group.is_none() && r.body.is_none());
    assert_eq!((r.timestamp, r.sent), (0, 0));
}

#[test]
fn channel_and_qr_records() {
    let r = Presage::channel_ready(3, 77);
    assert_eq!((r.account, r.tx_ptr), (3, Some(77)));
    assert!(r.qrcode.is_none());
    let r = Presage::qr_ready(3, "sgnl://linkdevice?x".to_string());
    assert_eq!(r.qrcode, Some("sgnl://linkdevice?x".to_string()));
    assert!(r.tx_ptr.is_none() && r.uuid.is_none());
}

#[test]
fn message_leaves_out_empty_fields() {
    let r = Presage::message(1, 5, true, String::new(), String::new(), String::new());
    assert_eq!(r.who, None);
    assert_eq!(r.group, None);
    assert_eq!(r.body, Some(String::new()));
    assert_eq!(r.sent, 1);
}

#[test]
fn whoami_failure_reports_empty_identity() {
    let r = whoami_outcome(4, None);
    assert_eq!(r.uuid, Some(String::new()));
    assert_eq!(r.account, 4);
}

#[test]
fn whoami_reports_identity() {
    let r = whoami_outcome(4, Some("U-1".to_string()));
    assert_eq!(r.uuid, Some("U-1".to_string()));
    assert!(r.body.is_none());
}

#[test]
fn link_outcomes() {
    assert!(link_outcome(4, None).is_none());
    let r = link_outcome(4, Some("U-2".to_string())).unwrap();
    assert_eq!(r.uuid, Some("U-2".to_string()));
}

fn kind(a: &Action) -> &'static str {
    match a {
        Action::AnnounceChannel => "announce",
        Action::Execute(Cmd::LinkDevice { .. }) => "link",
        Action::Execute(Cmd::Whoami) => "whoami",
        Action::Execute(Cmd::Receive) => "receive",
        Action::AwaitCommand => "await",
        Action::Stop => "stop",
    }
}

#[test]
fn consumer_runs_commands_one_at_a_time() {
    let mut c = Consumer::new();
    assert_eq!(c.phase, Phase::Opening);
    assert!(!c.accepts(&Event::CommandArrived(Cmd::Whoami)));
    assert_eq!(kind(&c.step(Event::StoreOpened(true))), "announce");
    assert_eq!(c.phase, Phase::Idle);
    assert_eq!(kind(&c.step(Event::CommandArrived(Cmd::Whoami))), "whoami");
    assert_eq!(c.phase, Phase::Busy);
    assert!(!c.accepts(&Event::CommandArrived(Cmd::Receive)));
    assert_eq!(kind(&c.step(Event::CommandDone)), "await");
    let link = Cmd::LinkDevice { servers: Servers::Production, device_name: "pc".to_string() };
    assert_eq!(kind(&c.step(Event::CommandArrived(link))), "link");
    assert_eq!(kind(&c.step(Event::CommandDone)), "await");
    assert_eq!(kind(&c.step(Event::ChannelClosed)), "stop");
    assert_eq!(c.phase, Phase::Stopped);
}

#[test]
fn consumer_stops_when_store_fails() {
    let mut c = Consumer::new();
    assert_eq!(kind(&c.step(Event::StoreOpened(false))), "stop");
    assert_eq!(c.phase, Phase::Stopped);
    assert!(!c.accepts(&Event::CommandArrived(Cmd::Receive)));
}

#[test]
fn consumer_keeps_command_order() {
    let mut c = Consumer::new();
    c.step(Event::StoreOpened(true));
    let mut seen = Vec::new();
    for cmd in vec![Cmd::Receive, Cmd::Whoami, Cmd::Receive] {
        seen.push(kind(&c.step(Event::CommandArrived(cmd))));
        c.step(Event::CommandDone);
    }
    assert_eq!(seen, vec!["receive", "whoami", "receive"]);
}
