use termdot::bounded_queue::{BoundedQueue, QueueError};
use termdot::ipc_channel::{
    after_create, queue_os_ids, BuildAction, ChannelBuild, CreateAction, IpcChannel, RegionError,
    SessionQueues,
};
use termdot::ipc_context::{HeartBeatTimer, IpcContext, Registry};
use termdot::ipc_event::{
    shell_reaction, shell_silent, terminal_reaction, IpcEvent, ShellReaction, TerminalReaction,
    SHELL_SILENCE_MILLIS,
};
use termdot::register_info::register_list::RegisterList;
use termdot::register_info::{IRegisterInfo, RegisterInfo, DEAD_TIME_MILLIS};
use termdot::{IpcRole, IPC_DATA_SIZE};

fn payload_text(evt: &IpcEvent) -> String {
    match evt {
        IpcEvent::SendData(data, len) => {
            let mut data = data.to_vec();
            data.truncate(*len);
            String::from_utf8(data).unwrap()
        }
        _ => panic!("not a SendData event"),
    }
}

#[test]
fn test_pack_data() {
    let evt = IpcEvent::pack_data("Hello World");
    assert_eq!(evt.len(), 1);

    if let IpcEvent::SendData(data, len) = evt.first().unwrap() {
        let mut data = data.to_vec();
        data.truncate(*len);
        let r = String::from_utf8(data).unwrap();
        assert_eq!(r.as_str(), "Hello World");
    } else {
        unreachable!()
    }
}

#[test]
fn pack_single_event_has_length_eleven() {
    let evt = IpcEvent::pack_data("Hello World");
    assert_eq!(evt.len(), 1);
    match &evt[0] {
        IpcEvent::SendData(_, len) => assert_eq!(*len, 11),
        _ => panic!("expected SendData"),
    }
    assert_eq!(evt[0].decode_payload().unwrap(), "Hello World");
}

#[test]
fn pack_empty_text_gives_no_event() {
    assert!(IpcEvent::pack_data("").is_empty());
}

#[test]
fn pack_ascii_chunk_count() {
    let text = "a".repeat(5000);
    let evt = IpcEvent::pack_data(&text);
    assert_eq!(evt.len(), 3);
    let lens: Vec<usize> = evt
        .iter()
        .map(|e| match e {
            IpcEvent::SendData(_, len) => *len,
            _ => panic!("expected SendData"),
        })
        .collect();
    assert_eq!(lens, vec![2048, 2048, 904]);
}

#[test]
fn pack_exact_capacity_is_one_chunk() {
    let text = "b".repeat(IPC_DATA_SIZE);
    assert_eq!(IpcEvent::pack_data(&text).len(), 1);
    let text = "b".repeat(IPC_DATA_SIZE + 1);
    assert_eq!(IpcEvent::pack_data(&text).len(), 2);
}

#[test]
fn pack_multibyte_round_trip() {
    // 2047 ASCII bytes then a 4-byte character: the first cut must move back.
    let mut text = "x".repeat(2047);
    text.push('💖');
    text.push_str(&"é".repeat(3000));
    let evt = IpcEvent::pack_data(&text);
    match &evt[0] {
        IpcEvent::SendData(_, len) => assert_eq!(*len, 2047),
        _ => panic!("expected SendData"),
    }
    let mut joined = String::new();
    for e in &evt {
        match e {
            IpcEvent::SendData(_, len) => assert!(*len <= IPC_DATA_SIZE && *len > 0),
            _ => panic!("expected SendData"),
        }
        joined.push_str(&payload_text(e));
    }
    assert_eq!(joined, text);
}

#[test]
fn pack_host_name_and_version() {
    let evt = IpcEvent::pack_host_name("termdot");
    match evt {
        IpcEvent::HostNameChanged(data, len) => {
            assert_eq!(len, 7);
            assert_eq!(&data[..len], b"termdot");
        }
        _ => panic!("expected HostNameChanged"),
    }
    let evt = IpcEvent::pack_terminal_version("0.1.3");
    match evt {
        IpcEvent::TerminalVersion(data, len) => {
            assert_eq!(len, 5);
            assert_eq!(&data[..len], b"0.1.3");
        }
        _ => panic!("expected TerminalVersion"),
    }
    assert_eq!(evt.decode_payload().unwrap(), "0.1.3");
}

#[test]
fn decode_rejects_invalid_utf8_and_other_variants() {
    let mut data = [0u8; IPC_DATA_SIZE];
    data[0] = 0xff;
    data[1] = b'a';
    assert_eq!(IpcEvent::SendData(data, 2).decode_payload(), None);
    assert_eq!(IpcEvent::SendData(data, IPC_DATA_SIZE + 1).decode_payload(), None);
    assert_eq!(IpcEvent::Ready.decode_payload(), None);
    assert_eq!(IpcEvent::SendData(data, 0).decode_payload(), Some(String::new()));
}

#[test]
fn liveness_window() {
    let info = RegisterInfo::new(7, 1000);
    assert!(info.is_alive(1000));
    assert!(info.is_alive(1000 + DEAD_TIME_MILLIS - 1));
    assert!(!info.is_alive(1000 + DEAD_TIME_MILLIS));
    assert!(!info.is_alive(5000));
    // A query time before the beat counts as no time passed.
    assert!(info.is_alive(10));
    let mut info = info;
    info.heart_beat(5000);
    assert!(info.is_alive(5000));
    assert_eq!(info.id(), 7);
    assert_eq!(info.last_heart_beat(), 5000);
}

#[test]
fn table_capacity_drops_extra_add() {
    let mut table: RegisterList<3, RegisterInfo> = RegisterList::new();
    assert!(table.is_empty());
    for id in 0..3u64 {
        table.add(RegisterInfo::new(id, 0));
    }
    assert_eq!(table.len(), 3);
    table.add(RegisterInfo::new(99, 0));
    assert_eq!(table.len(), 3);
    assert!(!table.has(99));
    table.remove(1);
    assert_eq!(table.len(), 2);
    assert!(!table.has(1));
    table.add(RegisterInfo::new(99, 0));
    assert!(table.has(99));
    assert_eq!(table.position(99), Some(1));
    table.clear();
    assert_eq!(table.len(), 0);
}

#[test]
fn table_remove_absent_and_duplicates() {
    let mut table: RegisterList<4, RegisterInfo> = RegisterList::new();
    table.add(RegisterInfo::new(5, 10));
    table.add(RegisterInfo::new(5, 20));
    table.add(RegisterInfo::new(6, 30));
    table.remove(42);
    assert_eq!(table.len(), 3);
    assert_eq!(table.get_ref(5).unwrap().last_heart_beat(), 10);
    table.remove(5);
    assert_eq!(table.len(), 2);
    assert_eq!(table.get_ref(5).unwrap().last_heart_beat(), 20);
    table.remove(6);
    assert_eq!(table.position(6), None);
}

#[test]
fn table_sweep_removes_exactly_dead() {
    let mut table: RegisterList<4, RegisterInfo> = RegisterList::new();
    table.add(RegisterInfo::new(1, 0));
    table.add(RegisterInfo::new(2, 301));
    table.add(RegisterInfo::new(3, 600));
    table.check_valid(800);
    assert!(!table.has(1));
    assert!(table.has(2));
    assert!(table.has(3));
    assert_eq!(table.len(), 2);
    table.check_valid(800);
    assert_eq!(table.len(), 2);
}

#[test]
fn table_get_mut_overwrites_first_match() {
    let mut table: RegisterList<2, RegisterInfo> = RegisterList::new();
    table.add(RegisterInfo::new(8, 0));
    assert!(table.get_mut(8, RegisterInfo::new(8, 900)));
    assert_eq!(table.get_ref(8).unwrap().last_heart_beat(), 900);
    assert!(!table.get_mut(9, RegisterInfo::new(9, 900)));
}

#[test]
fn bounded_queue_full_and_fifo() {
    let mut q: BoundedQueue<u64> = BoundedQueue::new(2);
    assert_eq!(q.try_read(), None);
    assert_eq!(q.try_write(1), Ok(()));
    assert_eq!(q.try_write(2), Ok(()));
    assert_eq!(q.try_write(3), Err(QueueError::Full));
    assert_eq!(q.len(), 2);
    assert_eq!(q.try_read(), Some(1));
    assert_eq!(q.try_read(), Some(2));
    assert_eq!(q.try_read(), None);
    q.try_write(4).unwrap();
    q.clear();
    assert_eq!(q.len(), 0);
    assert_eq!(q.capacity(), 2);
}

#[test]
fn create_policy() {
    assert_eq!(after_create(Ok(()), true), CreateAction::Use);
    assert_eq!(after_create(Err(RegionError::AlreadyExists), true), CreateAction::OpenAndClear);
    assert_eq!(after_create(Err(RegionError::AlreadyExists), false), CreateAction::Open);
    assert_eq!(after_create(Err(RegionError::PermissionDenied), true), CreateAction::Abort);
    assert_eq!(after_create(Err(RegionError::NotFound), false), CreateAction::Abort);
}

#[test]
fn shell_channel_build_fresh() {
    let (mut b, a) = ChannelBuild::shell(3);
    assert_eq!(a, BuildAction::Create(IpcRole::Shell));
    assert_eq!(b.step(Ok(())), BuildAction::Create(IpcRole::Terminal));
    assert!(b.channel().is_none());
    assert_eq!(b.step(Ok(())), BuildAction::Ready);
    let ch = b.channel().unwrap();
    assert_eq!(ch.role(), IpcRole::Shell);
    assert_eq!(ch.session(), 3);
}

#[test]
fn shell_channel_build_recovers_stale_queues() {
    let (mut b, _) = ChannelBuild::shell(3);
    assert_eq!(b.step(Err(RegionError::AlreadyExists)), BuildAction::Open(IpcRole::Shell));
    assert_eq!(b.step(Ok(())), BuildAction::Clear(IpcRole::Shell));
    assert_eq!(b.step(Ok(())), BuildAction::Create(IpcRole::Terminal));
    assert_eq!(b.step(Err(RegionError::AlreadyExists)), BuildAction::Open(IpcRole::Terminal));
    assert_eq!(b.step(Ok(())), BuildAction::Clear(IpcRole::Terminal));
    assert_eq!(b.step(Ok(())), BuildAction::Ready);
}

#[test]
fn channel_build_failures() {
    let (mut b, _) = ChannelBuild::shell(3);
    assert_eq!(b.step(Err(RegionError::ResourceExhausted)), BuildAction::Failed);
    assert!(b.channel().is_none());
    assert_eq!(b.step(Ok(())), BuildAction::Failed);

    let (mut b, _) = ChannelBuild::shell(3);
    b.step(Err(RegionError::AlreadyExists));
    assert_eq!(b.step(Err(RegionError::PermissionDenied)), BuildAction::Failed);

    let (mut b, a) = ChannelBuild::terminal(4);
    assert_eq!(a, BuildAction::Open(IpcRole::Shell));
    assert_eq!(b.step(Ok(())), BuildAction::Open(IpcRole::Terminal));
    assert_eq!(b.step(Err(RegionError::NotFound)), BuildAction::Failed);

    let (mut b, _) = ChannelBuild::terminal(4);
    b.step(Ok(()));
    assert_eq!(b.step(Ok(())), BuildAction::Ready);
    assert_eq!(b.channel().unwrap().role(), IpcRole::Terminal);
}

#[test]
fn heart_beat_timer_paces_beats() {
    let mut t = HeartBeatTimer::new();
    assert!(t.tick(1000));
    assert!(!t.tick(1050));
    assert!(!t.tick(1099));
    assert!(t.tick(1100));
    assert!(!t.tick(900));
}

#[test]
fn queue_names_follow_convention() {
    let (sn, tn) = queue_os_ids(42);
    assert_eq!(sn, "/t_sh_42");
    assert_eq!(tn, "/t_tm_42");
    let (sn, _) = queue_os_ids(u64::MAX);
    assert_eq!(sn, "/t_sh_18446744073709551615");
}

#[test]
fn channel_role_asymmetry() {
    let mut queues = SessionQueues::new();
    let shell = IpcChannel::shell(9);
    let terminal = IpcChannel::terminal(9);
    assert_eq!(shell.role(), IpcRole::Shell);
    assert_eq!(terminal.session(), 9);
    shell.try_send(&mut queues, IpcEvent::HeartBeat).unwrap();
    assert_eq!(shell.try_recv(&mut queues), None);
    terminal.try_send(&mut queues, IpcEvent::Exit).unwrap();
    assert_eq!(terminal.try_recv(&mut queues), Some(IpcEvent::HeartBeat));
    assert_eq!(terminal.try_recv(&mut queues), None);
    assert_eq!(shell.try_recv(&mut queues), Some(IpcEvent::Exit));
    shell.try_send(&mut queues, IpcEvent::Ready).unwrap();
    queues.clear();
    assert_eq!(terminal.try_recv(&mut queues), None);
}

#[test]
fn channel_full_queue_reports_error() {
    let mut queues = SessionQueues::new();
    let shell = IpcChannel::shell(1);
    for _ in 0..IPC_DATA_SIZE {
        shell.try_send(&mut queues, IpcEvent::HeartBeat).unwrap();
    }
    assert_eq!(shell.try_send(&mut queues, IpcEvent::HeartBeat), Err(QueueError::Full));
}

#[test]
fn handshake_drops_dead_or_missing_session() {
    let mut reg = Registry::new();
    let shell = IpcContext::shell();
    let terminal = IpcContext::terminal();
    shell.regsiter_session(&mut reg, RegisterInfo::new(5, 0), 0);
    shell.try_send(&mut reg, 5).unwrap();
    // Expired before the terminal polled.
    assert_eq!(terminal.try_recv(&mut reg, DEAD_TIME_MILLIS), None);
    // Never registered.
    shell.try_send(&mut reg, 6).unwrap();
    assert_eq!(terminal.try_recv(&mut reg, 10), None);
    // Registered then removed.
    shell.regsiter_session(&mut reg, RegisterInfo::new(7, 100), 100);
    shell.try_send(&mut reg, 7).unwrap();
    shell.remove_session(&mut reg, 7);
    assert_eq!(terminal.try_recv(&mut reg, 110), None);
    // The dropped ids are not requeued.
    assert_eq!(terminal.try_recv(&mut reg, 110), None);
}

#[test]
fn registry_heart_beat_and_sweep() {
    let mut reg = Registry::new();
    let ctx = IpcContext::terminal();
    ctx.regsiter_terminal(&mut reg, RegisterInfo::new(1, 0), 0);
    ctx.regsiter_shell(&mut reg, RegisterInfo::new(2, 0), 0);
    assert!(ctx.heart_beat_terminal(&mut reg, 1, 400));
    assert!(!ctx.heart_beat_shell(&mut reg, 3, 400));
    assert!(!ctx.heart_beat_session(&mut reg, 1, 400));
    ctx.check_register_validation(&mut reg, 700);
    assert!(reg.terminal_register_list.has(1));
    assert!(!reg.shell_register_list.has(2));
    ctx.remove_terminal(&mut reg, 1);
    assert!(reg.terminal_register_list.is_empty());
    ctx.regsiter_shell(&mut reg, RegisterInfo::new(2, 700), 700);
    ctx.remove_shell(&mut reg, 2);
    assert_eq!(reg.shell_register_list.len(), 0);
}

#[test]
fn end_to_end_session() {
    let mut reg = Registry::new();
    let shell_ctx = IpcContext::shell();
    let terminal_ctx = IpcContext::terminal();
    let now = 1_000;

    shell_ctx.regsiter_session(&mut reg, RegisterInfo::new(42, now), now);
    shell_ctx.try_send(&mut reg, 42).unwrap();
    let mut queues = SessionQueues::new();
    let shell = IpcChannel::shell(42);
    shell.try_send(&mut queues, IpcEvent::Ready).unwrap();

    let id = terminal_ctx.try_recv(&mut reg, now + 50).unwrap();
    assert_eq!(id, 42);
    let terminal = IpcChannel::terminal(id);
    assert_eq!(terminal.try_recv(&mut queues), Some(IpcEvent::Ready));

    shell.try_send(&mut queues, IpcEvent::SetTerminalSize(80, 24)).unwrap();
    for evt in IpcEvent::pack_data("ls -la") {
        shell.try_send(&mut queues, evt).unwrap();
    }
    assert_eq!(terminal.try_recv(&mut queues), Some(IpcEvent::SetTerminalSize(80, 24)));
    let chunk = terminal.try_recv(&mut queues).unwrap();
    assert_eq!(chunk.decode_payload().unwrap(), "ls -la");
    assert_eq!(terminal.try_recv(&mut queues), None);
}

#[test]
fn shell_reacts_to_terminal_events() {
    assert_eq!(shell_reaction(&IpcEvent::HeartBeat), ShellReaction::Ignore);
    assert_eq!(shell_reaction(&IpcEvent::Ready), ShellReaction::Ignore);
    assert_eq!(shell_reaction(&IpcEvent::RequestExit), ShellReaction::ReplyExit);
    assert_eq!(shell_reaction(&IpcEvent::Exit), ShellReaction::Close);
    assert_eq!(shell_reaction(&IpcEvent::SetTerminalSize(80, 24)), ShellReaction::Resize(80, 24));
    let version = IpcEvent::pack_terminal_version("0.2.0");
    assert_eq!(
        shell_reaction(&version),
        ShellReaction::SetTerminalVersion(String::from("0.2.0"))
    );
    let mut bad = [0u8; IPC_DATA_SIZE];
    bad[0] = 0xc3;
    assert_eq!(
        shell_reaction(&IpcEvent::TerminalVersion(bad, 1)),
        ShellReaction::SetTerminalVersion(String::from("UNKNOWN_VERSION"))
    );
    assert_eq!(shell_reaction(&IpcEvent::SendData(bad, 1)), ShellReaction::Reject);
    let data = IpcEvent::pack_data("ls");
    assert_eq!(shell_reaction(&data[0]), ShellReaction::Input(String::from("ls")));
}

#[test]
fn terminal_reacts_to_shell_events() {
    assert_eq!(terminal_reaction(&IpcEvent::HeartBeat), TerminalReaction::PeerAlive);
    assert_eq!(terminal_reaction(&IpcEvent::Ready), TerminalReaction::ShellReady);
    assert_eq!(terminal_reaction(&IpcEvent::Exit), TerminalReaction::Close);
    assert_eq!(terminal_reaction(&IpcEvent::SetTerminalSize(1, 2)), TerminalReaction::Ignore);
    let data = IpcEvent::pack_data("ok");
    assert_eq!(terminal_reaction(&data[0]), TerminalReaction::Output(b"ok".to_vec()));
    let host = IpcEvent::pack_host_name("box");
    assert_eq!(terminal_reaction(&host), TerminalReaction::TitleChanged(String::from("box")));
    let mut bad = [0u8; IPC_DATA_SIZE];
    bad[0] = 0x80;
    assert_eq!(terminal_reaction(&IpcEvent::HostNameChanged(bad, 1)), TerminalReaction::Reject);
    assert_eq!(terminal_reaction(&IpcEvent::SendData(bad, IPC_DATA_SIZE + 1)), TerminalReaction::Reject);
    assert_eq!(terminal_reaction(&IpcEvent::SendData(bad, 1)), TerminalReaction::Output(vec![0x80]));
}

#[test]
fn shell_silence_detection() {
    assert_eq!(SHELL_SILENCE_MILLIS, 1000);
    assert!(!shell_silent(None, 1_000_000));
    assert!(!shell_silent(Some(100), 1100));
    assert!(shell_silent(Some(100), 1101));
    assert!(!shell_silent(Some(5000), 10));
}
