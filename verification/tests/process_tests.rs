use lib::descriptor::Descriptor;
use lib::fs_trait::FilesystemIndex;
use lib::process::{
    fn_ptr_mappings, IdentityMapping, PidAllocator, Process, ProcessState, DESCRIPTOR_ERROR,
    PAGE_SIZE, PTE_EXECUTABLE, PTE_READABLE, PTE_USER, PTE_WRITABLE,
};
use lib::process_data::ProcessData;

fn idx(n: usize) -> FilesystemIndex {
    FilesystemIndex { mount_id: 0, inode: n }
}

#[test]
fn fresh_process_data() {
    let d = ProcessData::new(2, 0, 0);
    assert_eq!(d.stack_size, 2);
    assert_eq!(d.descriptors.len(), 3);
    for fd in 0..3 {
        assert_eq!(d.get_descriptor(fd), Some(Descriptor::Null(None)));
    }
    assert!(d.children.is_empty());
    assert_eq!(d.parent_pid, 0);
    assert_eq!(d.cwd, "/bin/");
}

#[test]
fn connect_to_terminal() {
    let mut d = ProcessData::new(1, 0, 0);
    d.connect_to_term();
    assert_eq!(d.get_descriptor(0), Some(Descriptor::UARTIn));
    assert_eq!(d.get_descriptor(1), Some(Descriptor::UARTOut));
    assert_eq!(d.get_descriptor(2), Some(Descriptor::UARTError));
    d.connect_to_term();
    assert_eq!(d.descriptors.len(), 3);
}

#[test]
fn children_and_parent() {
    let mut d = ProcessData::new(1, 0, 0);
    d.register_child(5);
    d.register_child(9);
    assert_eq!(d.children, vec![5, 9]);
    d.set_parent(3);
    assert_eq!(d.parent_pid, 3);
}

#[test]
fn open_takes_lowest_free_number() {
    let mut d = ProcessData::new(1, 0, 0);
    assert_eq!(d.open_descriptor(Descriptor::InodeFile(idx(1))), 3);
    assert_eq!(d.open_descriptor(Descriptor::InodeFile(idx(2))), 4);
    assert_eq!(d.open_descriptor(Descriptor::InodeFile(idx(3))), 5);
    assert_eq!(d.close_descriptor(4), Some(Descriptor::InodeFile(idx(2))));
    assert_eq!(d.close_descriptor(4), None);
    assert_eq!(d.lowest_free_descriptor(), 4);
    assert_eq!(d.open_descriptor(Descriptor::InodeFile(idx(4))), 4);
    assert_eq!(d.get_descriptor(4), Some(Descriptor::InodeFile(idx(4))));
    assert_eq!(d.close_descriptor(0), Some(Descriptor::Null(None)));
    assert_eq!(d.lowest_free_descriptor(), 6);
}

#[test]
fn pids_count_up() {
    let mut p = PidAllocator::new();
    assert_eq!(p.peek(), 0);
    assert_eq!(p.next_pid(), 0);
    assert_eq!(p.next_pid(), 1);
    assert_eq!(p.peek(), 2);
}

#[test]
fn process_from_components() {
    let mut pids = PidAllocator::new();
    let p = Process::from_components(0x8000, 0x9000, 2, 0x10000, &mut pids);
    assert_eq!(p.pid, 0);
    assert_eq!(p.program_counter, 0x8000);
    assert_eq!(p.root, 0x9000);
    assert_eq!(p.stack, 0x10000);
    assert_eq!(p.frame.regs.len(), 32);
    assert_eq!(p.frame.regs[2], 0x10000 + 2 * PAGE_SIZE);
    assert_eq!(p.frame.regs[10], 0);
    assert_eq!(p.get_state(), ProcessState::Running);
    assert_eq!(p.data.get_descriptor(0), Some(Descriptor::Null(None)));
    let q = Process::from_components(0, 0, 1, 0, &mut pids);
    assert_eq!(q.pid, 1);
}

#[test]
fn kill_marks_dead() {
    let mut pids = PidAllocator::new();
    let mut p = Process::from_components(0, 0, 1, 0, &mut pids);
    p.kill(3);
    assert_eq!(p.get_state(), ProcessState::Dead);
}

#[test]
fn open_read_write_close() {
    let mut pids = PidAllocator::new();
    let mut p = Process::from_components(0, 0, 1, 0, &mut pids);
    let missing: Result<FilesystemIndex, &str> = Err("not found");
    assert_eq!(p.open(missing, 0), Err("not found"));
    assert_eq!(p.data.descriptors.len(), 3);
    let found: Result<FilesystemIndex, &str> = Ok(idx(12));
    assert_eq!(p.open(found, 0), Ok(3));
    assert_eq!(p.read(3), Ok(Descriptor::InodeFile(idx(12))));
    assert_eq!(p.write(3), Ok(Descriptor::InodeFile(idx(12))));
    assert_eq!(p.read(9), Err(DESCRIPTOR_ERROR));
    assert_eq!(p.write(9), Err(usize::MAX));
    assert_eq!(p.close(3), (0, Some(Descriptor::InodeFile(idx(12)))));
    assert_eq!(p.close(3), (DESCRIPTOR_ERROR, None));
    assert_eq!(p.read(3), Err(DESCRIPTOR_ERROR));
}

#[test]
fn fork_copies_registers_with_zero_return() {
    let mut pids = PidAllocator::new();
    let mut parent = Process::from_components(0x100, 0x200, 3, 0x4000, &mut pids);
    parent.frame.regs[10] = 77;
    parent.frame.regs[5] = 5;
    parent.connect_to_term();
    let child = parent.forked(&mut pids, 0x300);
    assert_eq!(child.pid, 1);
    assert_eq!(child.program_counter, 0x104);
    assert_eq!(child.root, 0x300);
    assert_eq!(child.stack, 0x4000);
    assert_eq!(child.frame.regs[10], 0);
    assert_eq!(child.frame.regs[5], 5);
    assert_eq!(child.frame.regs[2], 0x4000 + 3 * PAGE_SIZE);
    assert_eq!(parent.frame.regs[10], 77);
    assert_eq!(child.data.get_descriptor(1), Some(Descriptor::UARTOut));
    assert_eq!(child.data.stack_size, 3);
    assert_eq!(child.get_state(), ProcessState::Running);
}

#[test]
fn pages_released_on_exit() {
    let mut pids = PidAllocator::new();
    let mut p = Process::from_components(0, 0, 3, 0x10000, &mut pids);
    assert_eq!(p.stack_pages(), vec![0x10000, 0x11000, 0x12000]);
    assert_eq!(p.owned_memory(), None);
    p.data.mem_ptr = 0x20000;
    p.data.mem_size = 4;
    assert_eq!(p.owned_memory(), Some((0x20000, 4)));
}

#[test]
fn last_stack_page_may_end_the_address_space() {
    let mut pids = PidAllocator::new();
    let mut p = Process::from_components(0, 0, 0, 0, &mut pids);
    p.stack = usize::MAX - (PAGE_SIZE - 1);
    p.data.stack_size = 1;
    assert_eq!(p.stack_pages(), vec![usize::MAX - (PAGE_SIZE - 1)]);
    p.data.stack_size = 0;
    assert_eq!(p.stack_pages(), Vec::<usize>::new());
}

#[test]
fn kernel_function_process_mappings() {
    let m = fn_ptr_mappings(0x8000_0000, 0x8001_0000, 0x8002_0000, 0x8003_0000, 0x9000_0000);
    assert_eq!(
        m,
        vec![
            IdentityMapping { start: 0x8000_0000, end: 0x8001_0000, flags: PTE_READABLE | PTE_EXECUTABLE | PTE_USER },
            IdentityMapping { start: 0x8002_0000, end: 0x8003_0000, flags: PTE_READABLE | PTE_EXECUTABLE | PTE_USER },
            IdentityMapping { start: 0x9000_0000, end: 0x9000_1000, flags: PTE_READABLE | PTE_WRITABLE | PTE_USER },
        ]
    );
    assert_eq!(PTE_READABLE | PTE_WRITABLE | PTE_EXECUTABLE | PTE_USER, 0x1E);
}

#[test]
fn filesystem_interface_set_up_on_first_file_call() {
    let mut pids = PidAllocator::new();
    let mut p = Process::from_components(0, 0, 1, 0, &mut pids);
    assert!(!p.fs_interface_ready);
    assert_eq!(p.close(7), (DESCRIPTOR_ERROR, None));
    assert!(!p.fs_interface_ready);
    assert_eq!(p.read(7), Err(DESCRIPTOR_ERROR));
    assert!(p.fs_interface_ready);
    let mut q = Process::from_components(0, 0, 1, 0, &mut pids);
    let missing: Result<FilesystemIndex, ()> = Err(());
    assert_eq!(q.open(missing, 0), Err(()));
    assert!(q.fs_interface_ready);
    let child = q.forked(&mut pids, 0);
    assert!(!child.fs_interface_ready);
    let mut r = Process::from_components(0, 0, 1, 0, &mut pids);
    r.ensure_fs();
    assert!(r.fs_interface_ready);
    r.ensure_fs();
    assert!(r.fs_interface_ready);
    let mut t = Process::from_components(0, 0, 1, 0, &mut pids);
    t.init_fs();
    assert!(t.fs_interface_ready);
    assert_eq!(t.write(1), Ok(Descriptor::Null(None)));
}
