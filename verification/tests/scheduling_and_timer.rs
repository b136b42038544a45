use kernel_core::scheduler::{RegisterState, RoundRobinScheduler, Task, TaskIdCounter};
use kernel_core::syscall::Syscall;
use kernel_core::timer::{self, configure_pit, handle_timer_interrupt, uptime_ticks, TickCounter};

#[test]
fn round_robin_rotates_tasks() {
    let mut ids = TaskIdCounter::new();
    let mut scheduler = RoundRobinScheduler::new();
    let t1 = Task::new(0x1000, 0x8000, &mut ids);
    let t2 = Task::new(0x2000, 0x9000, &mut ids);
    let id1 = scheduler.add_task(t1).unwrap();
    let id2 = scheduler.add_task(t2).unwrap();

    assert_eq!(scheduler.current_task().unwrap().id, id1);
    let sw = scheduler.on_timer_tick().unwrap();
    assert_eq!(sw.previous_task, id1);
    assert_eq!(sw.next_task, id2);
    assert_eq!(scheduler.current_task().unwrap().id, id2);
}

#[test]
fn context_save_and_restore_tracks_registers() {
    let mut ids = TaskIdCounter::new();
    let mut scheduler = RoundRobinScheduler::new();
    let _ = scheduler.add_task(Task::new(0x3000, 0xA000, &mut ids)).unwrap();

    let mut regs = RegisterState::empty();
    regs.rax = 42;
    regs.rsp = 0xBEEF;
    scheduler.save_current_registers(regs);

    let loaded = scheduler.load_next_registers().unwrap();
    assert_eq!(loaded.rax, 42);
    assert_eq!(loaded.rsp, 0xBEEF);
}

#[test]
fn two_tasks_strictly_alternate() {
    let mut ids = TaskIdCounter::new();
    let mut scheduler = RoundRobinScheduler::new();
    let id1 = scheduler.add_task(Task::new(0x1000, 0x8000, &mut ids)).unwrap();
    let id2 = scheduler.add_task(Task::new(0x2000, 0x9000, &mut ids)).unwrap();

    let first = scheduler.on_timer_tick().unwrap();
    let second = scheduler.on_timer_tick().unwrap();
    let third = scheduler.on_timer_tick().unwrap();
    assert_eq!(first.next_task, id2);
    assert_eq!(second.next_task, id1);
    assert_eq!(third.next_task, id2);
}

#[test]
fn three_tasks_rotate_through_distinct_neighbours() {
    let mut ids = TaskIdCounter::new();
    let mut scheduler = RoundRobinScheduler::new();
    let id1 = scheduler.add_task(Task::new(0x1000, 0x8000, &mut ids)).unwrap();
    let id2 = scheduler.add_task(Task::new(0x2000, 0x9000, &mut ids)).unwrap();
    let id3 = scheduler.add_task(Task::new(0x3000, 0xA000, &mut ids)).unwrap();

    let first = scheduler.on_timer_tick().unwrap();
    let second = scheduler.on_timer_tick().unwrap();
    assert_eq!(first.next_task, id2);
    assert_eq!(second.next_task, id3);
    assert_ne!(first.next_task, second.next_task);
    let third = scheduler.on_timer_tick().unwrap();
    assert_eq!(third.next_task, id1);
}

#[test]
fn zero_or_one_task_produces_no_switch() {
    let mut ids = TaskIdCounter::new();
    let mut scheduler = RoundRobinScheduler::new();
    assert!(scheduler.on_timer_tick().is_none());
    assert!(scheduler.current_task().is_none());
    assert!(scheduler.load_next_registers().is_none());

    let _ = scheduler.add_task(Task::new(0x1000, 0x8000, &mut ids)).unwrap();
    assert!(scheduler.on_timer_tick().is_none());
}

#[test]
fn run_queue_admits_exactly_sixteen_tasks() {
    let mut ids = TaskIdCounter::new();
    let mut scheduler = RoundRobinScheduler::new();
    for i in 0..16u64 {
        scheduler
            .add_task(Task::new(0x1000 + i, 0x8000 + i, &mut ids))
            .expect("capacity should be available");
    }
    let overflow = scheduler.add_task(Task::new(0xf000, 0xff00, &mut ids));
    assert_eq!(overflow, Err("run queue full"));
}

#[test]
fn task_ids_count_up_from_one() {
    let mut ids = TaskIdCounter::new();
    let t1 = Task::new(0x1000, 0x8000, &mut ids);
    let t2 = Task::new(0x2000, 0x9000, &mut ids);
    assert_eq!(t1.id, 1);
    assert_eq!(t2.id, 2);
    assert_eq!(t1.registers.rip, 0x1000);
    assert_eq!(t1.registers.rsp, 0x8000);
    assert_eq!(t1.registers.rflags, 0x202);
    assert_eq!(t1.stack_pointer, 0x8000);
}

#[test]
fn pit_divisor_is_computed() {
    let cfg = configure_pit(100);
    assert_eq!(cfg.divisor, 11_931);
}

#[test]
fn pit_divisor_is_clamped_at_both_ends() {
    assert_eq!(configure_pit(0).frequency_hz, 1);
    assert_eq!(configure_pit(0).divisor, 0xffff);
    assert_eq!(configure_pit(18).divisor, 0xffff);
    assert_eq!(configure_pit(2_000_000).divisor, 1);
}

#[test]
fn timer_ticks_increment() {
    let mut ticks = TickCounter::new();
    timer::init(100, &mut ticks);
    assert_eq!(handle_timer_interrupt(&mut ticks), 1);
    assert_eq!(handle_timer_interrupt(&mut ticks), 2);
    assert_eq!(uptime_ticks(&ticks), 2);
}

#[test]
fn bare_tick_counts_without_reporting() {
    let mut ticks = TickCounter::new();
    timer::tick(&mut ticks);
    timer::tick(&mut ticks);
    timer::tick(&mut ticks);
    assert_eq!(uptime_ticks(&ticks), 3);
}

#[test]
fn timer_init_resets_the_count() {
    let mut ticks = TickCounter::new();
    let _ = handle_timer_interrupt(&mut ticks);
    let cfg = timer::init(50, &mut ticks);
    assert_eq!(uptime_ticks(&ticks), 0);
    assert_eq!(cfg.frequency_hz, 50);
    assert_eq!(cfg.divisor, 23_863);
}

#[test]
fn syscall_numbers_span_the_identifier_space() {
    assert_eq!(Syscall::Yield.number(), 0);
    assert_eq!(Syscall::Send.number(), 1);
    assert_eq!(Syscall::Receive.number(), 2);
    assert_eq!(Syscall::Spawn.number(), 3);
}

#[test]
fn ipc_message_envelope_has_the_documented_shape() {
    let message = kernel_core::ipc::Message {
        sender_pid: 7,
        channel: 3,
        len: 5,
        payload: [0u8; 256],
    };
    assert_eq!(message.payload.len(), kernel_core::ipc::IPC_PAYLOAD_MAX);
    assert_eq!(message.sender_pid, 7);
    assert_eq!(message.channel, 3);
    assert_eq!(message.len, 5);
}
