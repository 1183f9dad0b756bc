//! Per-process bookkeeping: memory sizes, open file descriptors, children,
//! parent and working directory.
use vstd::prelude::*;

use std::collections::BTreeMap;

use crate::descriptor::Descriptor;

verus! {

/// The descriptor numbers every process starts with: standard input, output
/// and error.
pub const STANDARD_DESCRIPTORS: usize = 3;

/// The descriptors of a fresh process: standard input, output and error all
/// null.
pub open spec fn initial_descriptors() -> Map<usize, Descriptor> {
    Map::empty().insert(0, Descriptor::Null(None)).insert(1, Descriptor::Null(None)).insert(
        2,
        Descriptor::Null(None),
    )
}

/// `m` with standard input, output and error connected to the terminal.
pub open spec fn terminal_descriptors(m: Map<usize, Descriptor>) -> Map<usize, Descriptor> {
    m.insert(0, Descriptor::UARTIn).insert(1, Descriptor::UARTOut).insert(2, Descriptor::UARTError)
}

/// Whether `fd` is the lowest descriptor number, from 3 on, that `m` does
/// not use.
pub open spec fn is_lowest_free_descriptor(m: Map<usize, Descriptor>, fd: usize) -> bool {
    &&& fd >= STANDARD_DESCRIPTORS
    &&& !m.contains_key(fd)
    &&& forall|k: usize| STANDARD_DESCRIPTORS <= k < fd ==> #[trigger] m.contains_key(k)
}

/// Whether `m` leaves some descriptor number from 3 on free.
pub open spec fn has_free_descriptor(m: Map<usize, Descriptor>) -> bool {
    exists|k: usize| k >= STANDARD_DESCRIPTORS && !#[trigger] m.contains_key(k)
}

/// A finite set that holds every number from `lo` up to `hi` has at least
/// `hi - lo` elements.
pub proof fn lemma_range_in_set_bounds_len(s: Set<usize>, lo: usize, hi: usize)
    requires
        s.finite(),
        lo <= hi,
        forall|k: usize| lo <= k < hi ==> #[trigger] s.contains(k),
    ensures
        s.len() >= hi - lo,
    decreases hi - lo,
{
    if lo < hi {
        let top = (hi - 1) as usize;
        let rest = s.remove(top);
        assert forall|k: usize| lo <= k < top implies #[trigger] rest.contains(k) by {
            assert(s.contains(k));
        }
        lemma_range_in_set_bounds_len(rest, lo, top);
        assert(s.contains(top));
    }
}

/// A table of fewer than `usize::MAX - 3` descriptors leaves a number free.
pub proof fn lemma_small_table_has_free(m: Map<usize, Descriptor>)
    requires
        m.dom().finite(),
        m.len() < usize::MAX - STANDARD_DESCRIPTORS,
    ensures
        has_free_descriptor(m),
{
    if !has_free_descriptor(m) {
        assert forall|k: usize| STANDARD_DESCRIPTORS <= k < usize::MAX implies #[trigger] m.dom().contains(
            k,
        ) by {
            assert(m.contains_key(k));
        }
        lemma_range_in_set_bounds_len(m.dom(), STANDARD_DESCRIPTORS, usize::MAX);
        assert(m.dom().len() == m.len());
    }
}

/// Closing the descriptor that an open just installed gives back the
/// descriptor table from before the open, and closing it again finds
/// nothing.
pub proof fn lemma_close_undoes_open(m: Map<usize, Descriptor>, fd: usize, d: Descriptor)
    requires
        is_lowest_free_descriptor(m, fd),
    ensures
        m.insert(fd, d).contains_key(fd),
        m.insert(fd, d).remove(fd) == m,
        !m.insert(fd, d).remove(fd).contains_key(fd),
{
    assert(m.insert(fd, d).remove(fd) =~= m);
}

/// Connecting a process to the terminal twice is the same as once, and the
/// standard descriptors are then the terminal's whatever they were before.
pub proof fn lemma_connect_idempotent(m: Map<usize, Descriptor>)
    ensures
        terminal_descriptors(terminal_descriptors(m)) == terminal_descriptors(m),
        terminal_descriptors(m)[0] == Descriptor::UARTIn,
        terminal_descriptors(m)[1] == Descriptor::UARTOut,
        terminal_descriptors(m)[2] == Descriptor::UARTError,
        forall|k: usize| k >= STANDARD_DESCRIPTORS ==> (#[trigger] terminal_descriptors(m).contains_key(k) == m.contains_key(k)),
{
    assert(terminal_descriptors(terminal_descriptors(m)) =~= terminal_descriptors(m));
}

/// The lowest free descriptor number is unique: two numbers that both are
/// are equal.
pub proof fn lemma_lowest_free_unique(m: Map<usize, Descriptor>, a: usize, b: usize)
    requires
        is_lowest_free_descriptor(m, a),
        is_lowest_free_descriptor(m, b),
    ensures
        a == b,
{
    if a < b {
        assert(m.contains_key(a));
    } else if b < a {
        assert(m.contains_key(b));
    }
}

/// Whether `b` holds the same sizes, memory, children, parent and working
/// directory as `a` (its descriptors may differ).
pub open spec fn same_besides_descriptors(a: &ProcessData, b: &ProcessData) -> bool {
    &&& b.stack_size == a.stack_size
    &&& b.mem_ptr == a.mem_ptr
    &&& b.mem_size == a.mem_size
    &&& b.children@ == a.children@
    &&& b.parent_pid == a.parent_pid
    &&& b.cwd@ == a.cwd@
}

/// Process data.
pub struct ProcessData {
    /// Stack size in pages.
    pub stack_size: usize,
    /// Address of the memory allocated to the process (0 for none).
    pub mem_ptr: usize,
    /// Size in pages of the memory allocated to the process.
    pub mem_size: usize,
    /// Open descriptors by number.
    pub descriptors: BTreeMap<usize, Descriptor>,
    /// Children, oldest first.
    pub children: Vec<u16>,
    pub parent_pid: u16,
    /// Working directory.
    pub cwd: String,
}

impl ProcessData {
    /// Fresh process data: standard input, output and error null, no
    /// children, parent 0, working directory `/bin/`.
    pub fn new(stack_size: usize, mem_ptr: usize, mem_size: usize) -> (r: Self)
        ensures
            r.stack_size == stack_size,
            r.mem_ptr == mem_ptr,
            r.mem_size == mem_size,
            r.descriptors@ == initial_descriptors(),
            r.children@ == Seq::<u16>::empty(),
            r.parent_pid == 0,
            r.cwd@ == "/bin/"@,
    {
        broadcast use vstd::std_specs::btree::group_btree_axioms;
        let mut descriptors: BTreeMap<usize, Descriptor> = BTreeMap::new();
        descriptors.insert(0, Descriptor::Null(None));
        descriptors.insert(1, Descriptor::Null(None));
        descriptors.insert(2, Descriptor::Null(None));
        ProcessData {
            stack_size,
            mem_ptr,
            mem_size,
            descriptors,
            children: Vec::new(),
            parent_pid: 0,
            cwd: "/bin/".to_owned(),
        }
    }

    /// Connect standard input, output and error to the terminal.
    pub fn connect_to_term(&mut self)
        ensures
            final(self).descriptors@ == terminal_descriptors(old(self).descriptors@),
            same_besides_descriptors(&*old(self), &*final(self)),
    {
        self.descriptors.insert(0, Descriptor::UARTIn);
        self.descriptors.insert(1, Descriptor::UARTOut);
        self.descriptors.insert(2, Descriptor::UARTError);
    }

    /// Register a child process.
    pub fn register_child(&mut self, child_pid: u16)
        ensures
            final(self).children@ == old(self).children@.push(child_pid),
            final(self).descriptors@ == old(self).descriptors@,
            final(self).stack_size == old(self).stack_size,
            final(self).mem_ptr == old(self).mem_ptr,
            final(self).mem_size == old(self).mem_size,
            final(self).parent_pid == old(self).parent_pid,
            final(self).cwd@ == old(self).cwd@,
    {
        self.children.push(child_pid);
    }

    /// Set the parent PID.
    pub fn set_parent(&mut self, parent: u16)
        ensures
            final(self).parent_pid == parent,
            final(self).children@ == old(self).children@,
            final(self).descriptors@ == old(self).descriptors@,
            final(self).stack_size == old(self).stack_size,
            final(self).mem_ptr == old(self).mem_ptr,
            final(self).mem_size == old(self).mem_size,
            final(self).cwd@ == old(self).cwd@,
    {
        self.parent_pid = parent;
    }

    /// The lowest descriptor number from 3 on that is not in use.
    pub fn lowest_free_descriptor(&self) -> (r: usize)
        requires
            has_free_descriptor(self.descriptors@),
        ensures
            is_lowest_free_descriptor(self.descriptors@, r),
    {
        broadcast use vstd::std_specs::btree::group_btree_axioms;
        let ghost free = choose|k: usize|
            k >= STANDARD_DESCRIPTORS && !#[trigger] self.descriptors@.contains_key(k);
        let mut i: usize = STANDARD_DESCRIPTORS;
        while self.descriptors.contains_key(&i)
            invariant
                STANDARD_DESCRIPTORS <= i <= free,
                free >= STANDARD_DESCRIPTORS,
                !self.descriptors@.contains_key(free),
                forall|k: usize| STANDARD_DESCRIPTORS <= k < i ==> #[trigger] self.descriptors@.contains_key(k),
            decreases free - i,
        {
            i = i + 1;
        }
        i
    }

    /// Install `descriptor` under the lowest free number from 3 on, and
    /// return that number.
    pub fn open_descriptor(&mut self, descriptor: Descriptor) -> (r: usize)
        requires
            has_free_descriptor(old(self).descriptors@),
        ensures
            is_lowest_free_descriptor(old(self).descriptors@, r),
            final(self).descriptors@ == old(self).descriptors@.insert(r, descriptor),
            same_besides_descriptors(&*old(self), &*final(self)),
    {
        broadcast use vstd::std_specs::btree::group_btree_axioms;
        let fd = self.lowest_free_descriptor();
        self.descriptors.insert(fd, descriptor);
        fd
    }

    /// The descriptor installed under `fd`, if any.
    pub fn get_descriptor(&self, fd: usize) -> (r: Option<Descriptor>)
        ensures
            r == (if self.descriptors@.contains_key(fd) {
                Some(self.descriptors@[fd])
            } else {
                None
            }),
    {
        broadcast use vstd::std_specs::btree::group_btree_axioms;
        match self.descriptors.get(&fd) {
            Some(d) => Some(*d),
            None => None,
        }
    }

    /// Remove the descriptor installed under `fd` and hand it back, if there
    /// was one.
    pub fn close_descriptor(&mut self, fd: usize) -> (r: Option<Descriptor>)
        ensures
            r == (if old(self).descriptors@.contains_key(fd) {
                Some(old(self).descriptors@[fd])
            } else {
                None
            }),
            final(self).descriptors@ == old(self).descriptors@.remove(fd),
            same_besides_descriptors(&*old(self), &*final(self)),
    {
        broadcast use vstd::std_specs::btree::group_btree_axioms;
        self.descriptors.remove(&fd)
    }
}

} // verus!
