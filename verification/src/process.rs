//! Processes: creation, forking, state, and the descriptor side of the file
//! system calls.
use vstd::prelude::*;

use crate::descriptor::Descriptor;
use crate::fs_trait::FilesystemIndex;
use crate::process_data::{
    has_free_descriptor, initial_descriptors, is_lowest_free_descriptor, same_besides_descriptors,
    terminal_descriptors, ProcessData,
};

verus! {

/// Size of a memory page in bytes.
pub const PAGE_SIZE: usize = 4096;

/// Number of general purpose registers saved in a trap frame.
pub const REGISTER_COUNT: usize = 32;

/// Index of the stack pointer register (`sp`, x2).
pub const STACK_POINTER_REGISTER: usize = 2;

/// Index of the first argument and return value register (`a0`, x10).
pub const RETURN_VALUE_REGISTER: usize = 10;

/// The value a failed descriptor system call returns.
pub const DESCRIPTOR_ERROR: usize = usize::MAX;

/// Hands out process identifiers in increasing order.
pub struct PidAllocator {
    next: u16,
}

/// What a call of `next_pid` does: from the allocator `before` it hands
/// out `pid` and leaves the allocator `after`.
pub open spec fn allocates(before: PidAllocator, after: PidAllocator, pid: u16) -> bool {
    &&& pid == before.upcoming()
    &&& after.upcoming() == before.upcoming() + 1
}

impl PidAllocator {
    /// The identifier the next call of `next_pid` gives.
    pub closed spec fn upcoming(&self) -> u16 {
        self.next
    }

    /// An allocator whose first identifier is 0.
    pub fn new() -> (r: Self)
        ensures
            r.upcoming() == 0,
    {
        PidAllocator { next: 0 }
    }

    /// The identifier the next call of `next_pid` gives.
    pub fn peek(&self) -> (r: u16)
        ensures
            r == self.upcoming(),
    {
        self.next
    }

    /// Take the next identifier.
    pub fn next_pid(&mut self) -> (r: u16)
        requires
            old(self).upcoming() < u16::MAX,
        ensures
            allocates(*old(self), *final(self), r),
    {
        self.next = self.next + 1;
        self.next - 1
    }
}

/// Across a run of `next_pid` calls, where `states[i]` is the allocator
/// before the `i`-th call and `pids[i]` what it handed out, the allocator has
/// counted up by one per call.
pub proof fn lemma_allocation_run(states: Seq<PidAllocator>, pids: Seq<u16>, k: int)
    requires
        states.len() == pids.len() + 1,
        forall|i: int| 0 <= i < pids.len() ==> allocates(states[i], #[trigger] states[i + 1], pids[i]),
        0 <= k < states.len(),
    ensures
        states[k].upcoming() == states[0].upcoming() + k,
    decreases k,
{
    if k > 0 {
        lemma_allocation_run(states, pids, k - 1);
        assert(allocates(states[k - 1], states[(k - 1) + 1], pids[k - 1]));
    }
}

/// Identifiers handed out by successive `next_pid` calls on one allocator
/// strictly increase, so no two are equal: `states[i]` is the allocator
/// before the `i`-th call and `pids[i]` what that call handed out.
pub proof fn lemma_pids_increase(states: Seq<PidAllocator>, pids: Seq<u16>)
    requires
        states.len() == pids.len() + 1,
        forall|i: int| 0 <= i < pids.len() ==> allocates(states[i], #[trigger] states[i + 1], pids[i]),
    ensures
        forall|i: int, j: int| 0 <= i < j < pids.len() ==> #[trigger] pids[i] < #[trigger] pids[j],
{
    assert forall|i: int, j: int| 0 <= i < j < pids.len() implies #[trigger] pids[i] < #[trigger] pids[j] by {
        lemma_allocation_run(states, pids, i);
        lemma_allocation_run(states, pids, j);
        assert(allocates(states[i], states[i + 1], pids[i]));
        assert(allocates(states[j], states[j + 1], pids[j]));
    }
}

/// Process State Enumeration
#[derive(Debug, Clone, Copy, PartialEq, Eq, Structural)]
pub enum ProcessState {
    Running,
    Sleeping,
    Waiting,
    Dead,
}

/// The registers saved when a process traps.
#[derive(Debug)]
pub struct TrapFrame {
    pub regs: Vec<usize>,
}

impl TrapFrame {
    /// A frame with every register zero.
    pub fn new() -> (r: Self)
        ensures
            r.regs@ == Seq::new(REGISTER_COUNT as nat, |i: int| 0usize),
    {
        let mut regs: Vec<usize> = Vec::new();
        let mut i: usize = 0;
        while i < REGISTER_COUNT
            invariant
                i <= REGISTER_COUNT,
                regs@ == Seq::new(i as nat, |j: int| 0usize),
            decreases REGISTER_COUNT - i,
        {
            regs.push(0);
            i = i + 1;
            assert(regs@ =~= Seq::new(i as nat, |j: int| 0usize));
        }
        TrapFrame { regs }
    }
}

/// The top of a stack of `stack_size` pages at `stack_ptr`.
pub open spec fn stack_top(stack_ptr: usize, stack_size: usize) -> int {
    stack_ptr + stack_size * PAGE_SIZE
}

/// The registers of a fresh process: all zero but the stack pointer.
pub open spec fn fresh_registers(stack_ptr: usize, stack_size: usize) -> Seq<usize> {
    Seq::new(REGISTER_COUNT as nat, |i: int| 0usize).update(
        STACK_POINTER_REGISTER as int,
        stack_top(stack_ptr, stack_size) as usize,
    )
}

/// The page addresses of a stack of `stack_size` pages at `stack_ptr`.
pub open spec fn stack_page_addresses(stack_ptr: usize, stack_size: usize) -> Seq<usize> {
    Seq::new(stack_size as nat, |i: int| (stack_ptr + i * PAGE_SIZE) as usize)
}

/// Whether `b` has the frame, stack, program counter, identifier and page
/// table of `a`.
pub open spec fn same_execution_context(a: &Process, b: &Process) -> bool {
    &&& b.frame.regs@ == a.frame.regs@
    &&& b.stack == a.stack
    &&& b.program_counter == a.program_counter
    &&& b.pid == a.pid
    &&& b.root == a.root
}

/// Number of stack pages a process started from a kernel function gets.
pub const FN_PTR_STACK_PAGES: usize = 2;

/// Page table entry flag: readable.
pub const PTE_READABLE: u64 = 1 << 1;

/// Page table entry flag: writable.
pub const PTE_WRITABLE: u64 = 1 << 2;

/// Page table entry flag: executable.
pub const PTE_EXECUTABLE: u64 = 1 << 3;

/// Page table entry flag: accessible in user mode.
pub const PTE_USER: u64 = 1 << 4;

/// An identity mapping of the pages from `start` to `end` (the address of
/// the last page mapped) with the given entry flags.
#[derive(Clone, Copy, Debug, PartialEq, Eq, Structural)]
pub struct IdentityMapping {
    pub start: usize,
    pub end: usize,
    pub flags: u64,
}

/// The mappings of a process started from a kernel function whose stack
/// starts at `stack`: the kernel's text and read-only data readable and
/// executable from user mode, and the stack readable and writable.
pub open spec fn fn_ptr_mappings_spec(
    text_start: usize,
    text_end: usize,
    rodata_start: usize,
    rodata_end: usize,
    stack: usize,
) -> Seq<IdentityMapping> {
    seq![
        IdentityMapping { start: text_start, end: text_end, flags: PTE_READABLE | PTE_EXECUTABLE | PTE_USER },
        IdentityMapping { start: rodata_start, end: rodata_end, flags: PTE_READABLE | PTE_EXECUTABLE | PTE_USER },
        IdentityMapping {
            start: stack,
            end: (stack + (FN_PTR_STACK_PAGES - 1) * PAGE_SIZE) as usize,
            flags: PTE_READABLE | PTE_WRITABLE | PTE_USER,
        },
    ]
}

/// The identity mappings, in order, that the page table of a process
/// started from a kernel function gets: the kernel's text and read-only
/// data, then its stack of `FN_PTR_STACK_PAGES` pages at `stack`.
pub fn fn_ptr_mappings(
    text_start: usize,
    text_end: usize,
    rodata_start: usize,
    rodata_end: usize,
    stack: usize,
) -> (r: Vec<IdentityMapping>)
    requires
        stack + (FN_PTR_STACK_PAGES - 1) * PAGE_SIZE <= usize::MAX,
    ensures
        r@ == fn_ptr_mappings_spec(text_start, text_end, rodata_start, rodata_end, stack),
{
    let kernel_flags: u64 = PTE_READABLE | PTE_EXECUTABLE | PTE_USER;
    let stack_flags: u64 = PTE_READABLE | PTE_WRITABLE | PTE_USER;
    let mut mappings: Vec<IdentityMapping> = Vec::new();
    mappings.push(IdentityMapping { start: text_start, end: text_end, flags: kernel_flags });
    mappings.push(IdentityMapping { start: rodata_start, end: rodata_end, flags: kernel_flags });
    mappings.push(
        IdentityMapping {
            start: stack,
            end: stack + (FN_PTR_STACK_PAGES - 1) * PAGE_SIZE,
            flags: stack_flags,
        },
    );
    assert(mappings@ =~= fn_ptr_mappings_spec(text_start, text_end, rodata_start, rodata_end, stack));
    mappings
}

/// Process Structure
pub struct Process {
    pub frame: TrapFrame,
    /// Address of the stack's lowest page.
    pub stack: usize,
    pub program_counter: usize,
    pub pid: u16,
    /// Address of the root page table.
    pub root: usize,
    pub state: ProcessState,
    pub data: ProcessData,
    /// Whether the process's filesystem interface has been set up; it is
    /// set up on the first file system call.
    pub fs_interface_ready: bool,
}

impl Process {
    /// The frame holds every register.
    pub open spec fn wf(&self) -> bool {
        self.frame.regs@.len() == REGISTER_COUNT as nat
    }

    /// A new running process that starts at `entry_point`, with the page
    /// table at `page_table`, a stack of `stack_size` pages at `stack_ptr`
    /// (the stack pointer at its top), the next identifier of `pids`, and
    /// fresh process data.
    pub fn from_components(
        entry_point: usize,
        page_table: usize,
        stack_size: usize,
        stack_ptr: usize,
        pids: &mut PidAllocator,
    ) -> (r: Self)
        requires
            stack_top(stack_ptr, stack_size) <= usize::MAX,
            old(pids).upcoming() < u16::MAX,
        ensures
            r.wf(),
            r.frame.regs@ == fresh_registers(stack_ptr, stack_size),
            r.stack == stack_ptr,
            r.program_counter == entry_point,
            allocates(*old(pids), *final(pids), r.pid),
            r.root == page_table,
            r.state == ProcessState::Running,
            r.data.stack_size == stack_size,
            r.data.mem_ptr == 0,
            r.data.mem_size == 0,
            r.data.descriptors@ == initial_descriptors(),
            r.data.children@ == Seq::<u16>::empty(),
            r.data.parent_pid == 0,
            r.data.cwd@ == "/bin/"@,
            !r.fs_interface_ready,
    {
        let mut temp_result = Process {
            frame: TrapFrame::new(),
            stack: stack_ptr,
            program_counter: entry_point,
            pid: pids.next_pid(),
            root: page_table,
            state: ProcessState::Running,
            data: ProcessData::new(stack_size, 0, 0),
            fs_interface_ready: false,
        };
        temp_result.frame.regs.set(STACK_POINTER_REGISTER, stack_ptr + stack_size * PAGE_SIZE);
        temp_result
    }

    /// The current state.
    pub fn get_state(&self) -> (r: ProcessState)
        ensures
            r == self.state,
    {
        self.state
    }

    /// Kill the process with exit code `value`: its state becomes `Dead`.
    pub fn kill(&mut self, value: usize)
        ensures
            final(self).state == ProcessState::Dead,
            same_execution_context(&*old(self), &*final(self)),
            final(self).data.descriptors@ == old(self).data.descriptors@,
            same_besides_descriptors(&old(self).data, &final(self).data),
            final(self).fs_interface_ready == old(self).fs_interface_ready,
    {
        self.state = ProcessState::Dead;
    }

    /// Connect standard input, output and error to the terminal.
    pub fn connect_to_term(&mut self)
        ensures
            final(self).data.descriptors@ == terminal_descriptors(old(self).data.descriptors@),
            same_besides_descriptors(&old(self).data, &final(self).data),
            same_execution_context(&*old(self), &*final(self)),
            final(self).state == old(self).state,
            final(self).fs_interface_ready == old(self).fs_interface_ready,
    {
        self.data.connect_to_term();
    }

    /// Set up the filesystem interface.
    pub fn init_fs(&mut self)
        ensures
            final(self).fs_interface_ready,
            final(self).data.descriptors@ == old(self).data.descriptors@,
            same_besides_descriptors(&old(self).data, &final(self).data),
            same_execution_context(&*old(self), &*final(self)),
            final(self).state == old(self).state,
    {
        self.fs_interface_ready = true;
    }

    /// Set up the filesystem interface unless it already is.
    pub fn ensure_fs(&mut self)
        ensures
            final(self).fs_interface_ready,
            final(self).data.descriptors@ == old(self).data.descriptors@,
            same_besides_descriptors(&old(self).data, &final(self).data),
            same_execution_context(&*old(self), &*final(self)),
            final(self).state == old(self).state,
    {
        if !self.fs_interface_ready {
            self.init_fs();
        }
    }

    /// Open a file: `lookup` is the filesystem's answer for the path. The
    /// filesystem interface is set up first if it is not yet. An error is
    /// handed back with the descriptors unchanged; a found inode is
    /// installed under the lowest free descriptor number from 3 on, which is
    /// returned.
    pub fn open<E>(&mut self, lookup: Result<FilesystemIndex, E>, _mode: usize) -> (r: Result<usize, E>)
        requires
            has_free_descriptor(old(self).data.descriptors@),
        ensures
            lookup is Err ==> r == Err::<usize, E>(lookup->Err_0) && final(self).data.descriptors@
                == old(self).data.descriptors@,
            lookup is Ok ==> r is Ok && is_lowest_free_descriptor(
                old(self).data.descriptors@,
                r->Ok_0,
            ) && final(self).data.descriptors@ == old(self).data.descriptors@.insert(
                r->Ok_0,
                Descriptor::InodeFile(lookup->Ok_0),
            ),
            final(self).fs_interface_ready,
            same_besides_descriptors(&old(self).data, &final(self).data),
            same_execution_context(&*old(self), &*final(self)),
            final(self).state == old(self).state,
    {
        self.ensure_fs();
        match lookup {
            Ok(inode) => Ok(self.data.open_descriptor(Descriptor::InodeFile(inode))),
            Err(e) => Err(e),
        }
    }

    /// The descriptor a read from `fd` is made on, or the error value the
    /// call returns when `fd` is not open. The filesystem interface is set
    /// up first if it is not yet.
    pub fn read(&mut self, fd: usize) -> (r: Result<Descriptor, usize>)
        ensures
            r == (if old(self).data.descriptors@.contains_key(fd) {
                Ok::<Descriptor, usize>(old(self).data.descriptors@[fd])
            } else {
                Err::<Descriptor, usize>(DESCRIPTOR_ERROR)
            }),
            final(self).fs_interface_ready,
            final(self).data.descriptors@ == old(self).data.descriptors@,
            same_besides_descriptors(&old(self).data, &final(self).data),
            same_execution_context(&*old(self), &*final(self)),
            final(self).state == old(self).state,
    {
        self.ensure_fs();
        match self.data.get_descriptor(fd) {
            Some(d) => Ok(d),
            None => Err(DESCRIPTOR_ERROR),
        }
    }

    /// The descriptor a write to `fd` is made on, or the error value the
    /// call returns when `fd` is not open. The filesystem interface is set
    /// up first if it is not yet.
    pub fn write(&mut self, fd: usize) -> (r: Result<Descriptor, usize>)
        ensures
            r == (if old(self).data.descriptors@.contains_key(fd) {
                Ok::<Descriptor, usize>(old(self).data.descriptors@[fd])
            } else {
                Err::<Descriptor, usize>(DESCRIPTOR_ERROR)
            }),
            final(self).fs_interface_ready,
            final(self).data.descriptors@ == old(self).data.descriptors@,
            same_besides_descriptors(&old(self).data, &final(self).data),
            same_execution_context(&*old(self), &*final(self)),
            final(self).state == old(self).state,
    {
        self.ensure_fs();
        match self.data.get_descriptor(fd) {
            Some(d) => Ok(d),
            None => Err(DESCRIPTOR_ERROR),
        }
    }

    /// Close `fd`: when it was open, the result 0 and the removed descriptor,
    /// which the caller then closes; otherwise the error value, no
    /// descriptor, and nothing changed.
    pub fn close(&mut self, fd: usize) -> (r: (usize, Option<Descriptor>))
        ensures
            r == (if old(self).data.descriptors@.contains_key(fd) {
                (0usize, Some(old(self).data.descriptors@[fd]))
            } else {
                (DESCRIPTOR_ERROR, None::<Descriptor>)
            }),
            final(self).data.descriptors@ == old(self).data.descriptors@.remove(fd),
            same_besides_descriptors(&old(self).data, &final(self).data),
            same_execution_context(&*old(self), &*final(self)),
            final(self).state == old(self).state,
            final(self).fs_interface_ready == old(self).fs_interface_ready,
    {
        match self.data.close_descriptor(fd) {
            Some(descriptor) => (0, Some(descriptor)),
            None => (DESCRIPTOR_ERROR, None),
        }
    }

    /// A copy of this process for `fork`: the next identifier of `pids`,
    /// the page table at `duplicated_root` (a copy of this one's mappings),
    /// the same stack, execution resuming after the call instruction, the
    /// same registers but a 0 return value, and fresh process data with the
    /// standard descriptors on the terminal.
    pub fn forked(&self, pids: &mut PidAllocator, duplicated_root: usize) -> (r: Self)
        requires
            self.wf(),
            self.program_counter + 4 <= usize::MAX,
            stack_top(self.stack, self.data.stack_size) <= usize::MAX,
            old(pids).upcoming() < u16::MAX,
        ensures
            r.wf(),
            allocates(*old(pids), *final(pids), r.pid),
            r.program_counter == self.program_counter + 4,
            r.root == duplicated_root,
            r.stack == self.stack,
            r.state == ProcessState::Running,
            r.frame.regs@ == self.frame.regs@.update(RETURN_VALUE_REGISTER as int, 0usize),
            r.data.stack_size == self.data.stack_size,
            r.data.mem_ptr == 0,
            r.data.mem_size == 0,
            r.data.descriptors@ == terminal_descriptors(initial_descriptors()),
            r.data.children@ == Seq::<u16>::empty(),
            r.data.parent_pid == 0,
            r.data.cwd@ == "/bin/"@,
            !r.fs_interface_ready,
    {
        let stack_size = self.data.stack_size;
        let mut temp = Self::from_components(
            self.program_counter + 4,
            duplicated_root,
            stack_size,
            self.stack,
            pids,
        );
        let regs = self.frame.regs.clone();
        proof {
            assert forall|i: int| 0 <= i < regs@.len() implies regs@[i] == self.frame.regs@[i] by {
                assert(cloned::<usize>(self.frame.regs@[i], regs@[i]));
            }
            assert(regs@ =~= self.frame.regs@);
        }
        temp.frame = TrapFrame { regs };
        temp.frame.regs.set(RETURN_VALUE_REGISTER, 0);
        temp.connect_to_term();
        temp
    }

    /// The addresses of the stack's pages, lowest first: what is given back
    /// to the page allocator when the process goes.
    pub fn stack_pages(&self) -> (r: Vec<usize>)
        requires
            self.data.stack_size > 0 ==> self.stack + (self.data.stack_size - 1) * PAGE_SIZE
                <= usize::MAX,
        ensures
            r@ == stack_page_addresses(self.stack, self.data.stack_size),
    {
        let mut pages: Vec<usize> = Vec::new();
        let mut i: usize = 0;
        while i < self.data.stack_size
            invariant
                i <= self.data.stack_size,
                self.data.stack_size > 0 ==> self.stack + (self.data.stack_size - 1) * PAGE_SIZE
                    <= usize::MAX,
                pages@ == stack_page_addresses(self.stack, i),
            decreases self.data.stack_size - i,
        {
            pages.push(self.stack + PAGE_SIZE * i);
            i = i + 1;
            assert(pages@ =~= stack_page_addresses(self.stack, i));
        }
        pages
    }

    /// The memory allocated to the process, as (address, pages), when it
    /// has any: what is given back when the process goes.
    pub fn owned_memory(&self) -> (r: Option<(usize, usize)>)
        ensures
            r == (if self.data.mem_ptr != 0 {
                Some((self.data.mem_ptr, self.data.mem_size))
            } else {
                None
            }),
    {
        if self.data.mem_ptr != 0 {
            Some((self.data.mem_ptr, self.data.mem_size))
        } else {
            None
        }
    }
}

} // verus!
