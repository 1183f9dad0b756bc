//! The interface every filesystem provides, with the checks that its
//! provided operations make before they change anything.
use vstd::prelude::*;

use crate::descriptor::Descriptor;
use crate::ioctl::IOControlCommand;

verus! {

/// Identifies an inode: the mount it belongs to and its number there.
#[derive(Clone, Copy, Debug, PartialEq, Eq, Structural)]
pub struct FilesystemIndex {
    pub mount_id: usize,
    pub inode: usize,
}

/// Errors of filesystem operations.
#[derive(Clone, Copy, Debug, PartialEq, Eq, Structural)]
pub enum FilesystemError {
    FileNotFound,
    BadINode,
    PermissionDenied,
    FilesystemNotMounted,
    INodeIsDirectory,
    INodeIsNotADirectory,
    DirectoryNotEmpty,
}

/// The result of a filesystem operation.
pub type FilesystemResult<T> = Result<T, FilesystemError>;

/// The mode bit that marks a directory.
pub const DIRECTORY_MODE_BIT: u16 = 0x4000;

/// Status of an inode.
#[derive(Clone, Copy, Debug, PartialEq, Eq, Structural)]
pub struct FileStat {
    pub mode: u16,
    pub size: usize,
}

/// An entry of a directory.
#[derive(Debug)]
pub struct DirectoryEntry {
    pub index: FilesystemIndex,
    pub name: String,
}

/// Whether a mode describes a directory.
pub open spec fn is_directory_mode_spec(mode: u16) -> bool {
    mode & DIRECTORY_MODE_BIT != 0
}

/// Whether an entry name is one of the two every directory holds, `.` and
/// `..`.
pub open spec fn is_self_or_parent_name(name: Seq<char>) -> bool {
    name == "."@ || name == ".."@
}

/// Whether a list of entries holds nothing but `.` and `..`.
pub open spec fn only_self_and_parent(entries: Seq<DirectoryEntry>) -> bool {
    forall|i: int| 0 <= i < entries.len() ==> is_self_or_parent_name(#[trigger] entries[i].name@)
}

/// Whether a mode describes a directory.
pub fn is_directory_mode(mode: u16) -> (r: bool)
    ensures
        r == is_directory_mode_spec(mode),
{
    mode & DIRECTORY_MODE_BIT != 0
}

/// `Ok` when the inode is not a directory, `INodeIsDirectory` otherwise.
pub fn check_not_directory(stat: &FileStat) -> (r: FilesystemResult<()>)
    ensures
        r == (if is_directory_mode_spec(stat.mode) {
            Err(FilesystemError::INodeIsDirectory)
        } else {
            Ok(())
        }),
{
    if is_directory_mode(stat.mode) {
        Err(FilesystemError::INodeIsDirectory)
    } else {
        Ok(())
    }
}

/// `Ok` when the inode is a directory, `INodeIsNotADirectory` otherwise.
pub fn check_directory(stat: &FileStat) -> (r: FilesystemResult<()>)
    ensures
        r == (if is_directory_mode_spec(stat.mode) {
            Ok(())
        } else {
            Err(FilesystemError::INodeIsNotADirectory)
        }),
{
    if is_directory_mode(stat.mode) {
        Ok(())
    } else {
        Err(FilesystemError::INodeIsNotADirectory)
    }
}

/// `Ok` when the directory holds nothing but `.` and `..`,
/// `DirectoryNotEmpty` otherwise.
pub fn check_directory_empty(entries: &Vec<DirectoryEntry>) -> (r: FilesystemResult<()>)
    ensures
        r == (if only_self_and_parent(entries@) {
            Ok(())
        } else {
            Err(FilesystemError::DirectoryNotEmpty)
        }),
{
    let dot = ".".to_owned();
    let dot_dot = "..".to_owned();
    let mut i: usize = 0;
    while i < entries.len()
        invariant
            i <= entries@.len(),
            dot@ == "."@,
            dot_dot@ == ".."@,
            forall|j: int| 0 <= j < i ==> is_self_or_parent_name(#[trigger] entries@[j].name@),
        decreases entries@.len() - i,
    {
        let name = &entries[i].name;
        if *name != dot && *name != dot_dot {
            return Err(FilesystemError::DirectoryNotEmpty);
        }
        i = i + 1;
    }
    Ok(())
}

/// The outcome of checking that a status result describes a directory:
/// an error of the status is handed on.
pub open spec fn directory_outcome(stat: FilesystemResult<FileStat>) -> FilesystemResult<()> {
    match stat {
        Err(e) => Err(e),
        Ok(st) => if is_directory_mode_spec(st.mode) {
            Ok(())
        } else {
            Err(FilesystemError::INodeIsNotADirectory)
        },
    }
}

/// The outcome of checking that a status result describes something other
/// than a directory: an error of the status is handed on.
pub open spec fn not_directory_outcome(stat: FilesystemResult<FileStat>) -> FilesystemResult<()> {
    match stat {
        Err(e) => Err(e),
        Ok(st) => if is_directory_mode_spec(st.mode) {
            Err(FilesystemError::INodeIsDirectory)
        } else {
            Ok(())
        },
    }
}

/// A directory listing as the filesystem's model holds it.
pub open spec fn listing_view(r: FilesystemResult<Vec<DirectoryEntry>>) -> FilesystemResult<
    Seq<DirectoryEntry>,
> {
    match r {
        Ok(v) => Ok(v@),
        Err(e) => Err(e),
    }
}

/// Generic filesystem.
///
/// The spec functions describe, for a state of the filesystem, what the
/// operations the provided methods rely on report and which state they
/// leave; each implementation defines them for its own state. Reading the
/// status or the entries of an inode leaves the state as it is; removing an
/// entry, removing an inode and dropping a link lead to the state their spec
/// function names, whether they succeed or not.
pub trait Filesystem: Sized {
    /// What `get_stat(inode)` reports in this state.
    closed spec fn stat_of(&self, inode: FilesystemIndex) -> FilesystemResult<FileStat> {
        arbitrary()
    }

    /// What `get_dir_entries(inode)` reports in this state.
    closed spec fn entries_of(&self, inode: FilesystemIndex) -> FilesystemResult<Seq<DirectoryEntry>> {
        arbitrary()
    }

    /// What `decrement_links(inode)` reports in this state.
    closed spec fn decrement_result(&self, inode: FilesystemIndex) -> FilesystemResult<usize> {
        arbitrary()
    }

    /// The state `decrement_links(inode)` leaves.
    closed spec fn after_decrement(&self, inode: FilesystemIndex) -> Self {
        arbitrary()
    }

    /// What `remove_dir_entry(directory, name)` reports in this state.
    closed spec fn entry_removal_result(&self, directory: FilesystemIndex, name: Seq<char>) -> FilesystemResult<()> {
        arbitrary()
    }

    /// The state `remove_dir_entry(directory, name)` leaves.
    closed spec fn after_entry_removal(&self, directory: FilesystemIndex, name: Seq<char>) -> Self {
        arbitrary()
    }

    /// What `remove_inode(inode)` reports in this state.
    closed spec fn inode_removal_result(&self, inode: FilesystemIndex) -> FilesystemResult<()> {
        arbitrary()
    }

    /// The state `remove_inode(inode)` leaves.
    closed spec fn after_inode_removal(&self, inode: FilesystemIndex) -> Self {
        arbitrary()
    }

    /// Initialize the filesystem on the current disk.
    fn init(&mut self) -> FilesystemResult<()>;

    /// Sync the filesystem with the current disk.
    fn sync(&mut self) -> FilesystemResult<()>;

    /// Set the mount id of the filesystem.
    fn set_mount_id(&mut self, mount_id: usize);

    /// The index of the root directory.
    fn get_root_index(&mut self) -> FilesystemResult<FilesystemIndex>;

    /// The inode at a path.
    fn path_to_inode(&mut self, path: String) -> FilesystemResult<FilesystemIndex>;

    /// The path of an inode.
    fn inode_to_path(&mut self, inode: FilesystemIndex) -> FilesystemResult<String>;

    /// The entries of the directory at an inode.
    fn get_dir_entries(&mut self, inode: FilesystemIndex) -> (r: FilesystemResult<Vec<DirectoryEntry>>)
        ensures
            listing_view(r) == old(self).entries_of(inode),
            *final(self) == *old(self),
    ;

    /// The status of an inode.
    fn get_stat(&mut self, inode: FilesystemIndex) -> (r: FilesystemResult<FileStat>)
        ensures
            r == old(self).stat_of(inode),
            *final(self) == *old(self),
    ;

    /// Create a file in the directory at an inode.
    fn create_file(&mut self, inode: FilesystemIndex, name: String) -> FilesystemResult<FilesystemIndex>;

    /// Create a directory in the directory at an inode.
    fn create_directory(&mut self, inode: FilesystemIndex, name: String) -> FilesystemResult<FilesystemIndex>;

    /// Remove an inode.
    fn remove_inode(&mut self, inode: FilesystemIndex) -> (r: FilesystemResult<()>)
        ensures
            r == old(self).inode_removal_result(inode),
            *final(self) == old(self).after_inode_removal(inode),
    ;

    /// Remove an entry from the directory at an inode.
    fn remove_dir_entry(&mut self, directory_index: FilesystemIndex, name: String) -> (r: FilesystemResult<()>)
        ensures
            r == old(self).entry_removal_result(directory_index, name@),
            *final(self) == old(self).after_entry_removal(directory_index, name@),
    ;

    /// Add a link to an inode; the new number of links.
    fn increment_links(&mut self, inode: FilesystemIndex) -> FilesystemResult<usize>;

    /// Remove a link from an inode; the new number of links.
    fn decrement_links(&mut self, inode: FilesystemIndex) -> (r: FilesystemResult<usize>)
        ensures
            r == old(self).decrement_result(inode),
            *final(self) == old(self).after_decrement(inode),
    ;

    /// The data stored in an inode.
    fn read_inode(&mut self, inode: FilesystemIndex) -> FilesystemResult<Vec<u8>>;

    /// Write data to an inode.
    fn write_inode(&mut self, inode: FilesystemIndex, data: &[u8]) -> FilesystemResult<()>;

    /// Mount a filesystem at an inode.
    fn mount_fs_at(&mut self, inode: FilesystemIndex, root: FilesystemIndex, name: String) -> FilesystemResult<()>;

    /// Open a descriptor for an inode.
    fn open_fd(&mut self, inode: FilesystemIndex, mode: usize) -> FilesystemResult<Descriptor>;

    /// Execute an ioctl command on an inode.
    fn exec_ioctl(&mut self, inode: FilesystemIndex, cmd: IOControlCommand) -> FilesystemResult<usize>;

    /// `INodeIsDirectory` when the inode is a directory; an error reading its
    /// status is handed on. Nothing changes.
    fn assert_not_directory(&mut self, inode: FilesystemIndex) -> (r: FilesystemResult<()>)
        ensures
            r == not_directory_outcome(old(self).stat_of(inode)),
            *final(self) == *old(self),
    {
        match self.get_stat(inode) {
            Ok(stat) => check_not_directory(&stat),
            Err(e) => Err(e),
        }
    }

    /// `INodeIsNotADirectory` when the inode is not a directory; an error
    /// reading its status is handed on. Nothing changes.
    fn assert_directory(&mut self, inode: FilesystemIndex) -> (r: FilesystemResult<()>)
        ensures
            r == directory_outcome(old(self).stat_of(inode)),
            *final(self) == *old(self),
    {
        match self.get_stat(inode) {
            Ok(stat) => check_directory(&stat),
            Err(e) => Err(e),
        }
    }

    /// Remove the link `name` of the directory `directory` to `inode`: the
    /// inode must not be a directory and `directory` must be one (nothing
    /// changes otherwise); then a link of the inode is dropped, and when none
    /// is left the entry and then the inode are removed. The first error
    /// stops the sequence; what was done before it stays done.
    fn unlink_inode(&mut self, inode: FilesystemIndex, directory: FilesystemIndex, name: String) -> (r: FilesystemResult<()>)
        ensures
            (match not_directory_outcome(old(self).stat_of(inode)) {
                Err(e) => r == Err::<(), FilesystemError>(e) && *final(self) == *old(self),
                Ok(_) => match directory_outcome(old(self).stat_of(directory)) {
                    Err(e) => r == Err::<(), FilesystemError>(e) && *final(self) == *old(self),
                    Ok(_) => {
                        let dropped = old(self).after_decrement(inode);
                        match old(self).decrement_result(inode) {
                            Err(e) => r == Err::<(), FilesystemError>(e) && *final(self) == dropped,
                            Ok(links) => if links != 0 {
                                r == Ok::<(), FilesystemError>(()) && *final(self) == dropped
                            } else {
                                let unlisted = dropped.after_entry_removal(directory, name@);
                                match dropped.entry_removal_result(directory, name@) {
                                    Err(e) => r == Err::<(), FilesystemError>(e) && *final(self) == unlisted,
                                    Ok(_) => r == unlisted.inode_removal_result(inode)
                                        && *final(self) == unlisted.after_inode_removal(inode),
                                }
                            },
                        }
                    },
                },
            }),
            (old(self).stat_of(inode) matches Ok(st) && is_directory_mode_spec(st.mode)) ==> r
                == Err::<(), FilesystemError>(FilesystemError::INodeIsDirectory),
            (not_directory_outcome(old(self).stat_of(inode)) is Ok && (old(self).stat_of(
                directory,
            ) matches Ok(sd) && !is_directory_mode_spec(sd.mode))) ==> r == Err::<
                (),
                FilesystemError,
            >(FilesystemError::INodeIsNotADirectory),
            r is Ok ==> not_directory_outcome(old(self).stat_of(inode)) is Ok && directory_outcome(
                old(self).stat_of(directory),
            ) is Ok && old(self).decrement_result(inode) is Ok,
    {
        match self.assert_not_directory(inode) {
            Ok(_) => {},
            Err(e) => {
                return Err(e);
            },
        }
        match self.assert_directory(directory) {
            Ok(_) => {},
            Err(e) => {
                return Err(e);
            },
        }
        let links = match self.decrement_links(inode) {
            Ok(n) => n,
            Err(e) => {
                return Err(e);
            },
        };
        if links == 0 {
            match self.remove_dir_entry(directory, name) {
                Ok(_) => {},
                Err(e) => {
                    return Err(e);
                },
            }
            self.remove_inode(inode)
        } else {
            Ok(())
        }
    }

    /// Remove the empty directory `inode`, listed as `name` in `parent`:
    /// both must be directories and the listing of `inode` must hold nothing
    /// but `.` and `..` (nothing changes otherwise); then the entry in
    /// `parent` and then the inode are removed. The first error stops the
    /// sequence; what was done before it stays done.
    fn remove_directory(&mut self, inode: FilesystemIndex, parent: FilesystemIndex, name: String) -> (r: FilesystemResult<()>)
        ensures
            (match directory_outcome(old(self).stat_of(inode)) {
                Err(e) => r == Err::<(), FilesystemError>(e) && *final(self) == *old(self),
                Ok(_) => match directory_outcome(old(self).stat_of(parent)) {
                    Err(e) => r == Err::<(), FilesystemError>(e) && *final(self) == *old(self),
                    Ok(_) => match old(self).entries_of(inode) {
                        Err(e) => r == Err::<(), FilesystemError>(e) && *final(self) == *old(self),
                        Ok(entries) => if !only_self_and_parent(entries) {
                            r == Err::<(), FilesystemError>(FilesystemError::DirectoryNotEmpty)
                                && *final(self) == *old(self)
                        } else {
                            let unlisted = old(self).after_entry_removal(parent, name@);
                            match old(self).entry_removal_result(parent, name@) {
                                Err(e) => r == Err::<(), FilesystemError>(e) && *final(self) == unlisted,
                                Ok(_) => r == unlisted.inode_removal_result(inode)
                                    && *final(self) == unlisted.after_inode_removal(inode),
                            }
                        },
                    },
                },
            }),
            (old(self).stat_of(inode) matches Ok(st) && !is_directory_mode_spec(st.mode)) ==> r
                == Err::<(), FilesystemError>(FilesystemError::INodeIsNotADirectory),
            (directory_outcome(old(self).stat_of(inode)) is Ok && (old(self).stat_of(
                parent,
            ) matches Ok(sp) && !is_directory_mode_spec(sp.mode))) ==> r == Err::<
                (),
                FilesystemError,
            >(FilesystemError::INodeIsNotADirectory),
            (directory_outcome(old(self).stat_of(inode)) is Ok && directory_outcome(
                old(self).stat_of(parent),
            ) is Ok && (old(self).entries_of(inode) matches Ok(es) && !only_self_and_parent(es)))
                ==> r == Err::<(), FilesystemError>(FilesystemError::DirectoryNotEmpty)
                && *final(self) == *old(self),
            r is Ok ==> directory_outcome(old(self).stat_of(inode)) is Ok && directory_outcome(
                old(self).stat_of(parent),
            ) is Ok && (old(self).entries_of(inode) matches Ok(es) && only_self_and_parent(es))
                && old(self).entry_removal_result(parent, name@) is Ok,
    {
        match self.assert_directory(inode) {
            Ok(_) => {},
            Err(e) => {
                return Err(e);
            },
        }
        match self.assert_directory(parent) {
            Ok(_) => {},
            Err(e) => {
                return Err(e);
            },
        }
        let entries = match self.get_dir_entries(inode) {
            Ok(entries) => entries,
            Err(e) => {
                return Err(e);
            },
        };
        match check_directory_empty(&entries) {
            Ok(_) => {},
            Err(e) => {
                return Err(e);
            },
        }
        match self.remove_dir_entry(parent, name) {
            Ok(_) => {},
            Err(e) => {
                return Err(e);
            },
        }
        self.remove_inode(inode)
    }
}

/// Exactly one of the two checks on an inode's status succeeds when the
/// status can be read, and both hand on the same error when it cannot.
pub proof fn lemma_directory_checks_complementary(stat: FilesystemResult<FileStat>)
    ensures
        stat is Ok ==> (directory_outcome(stat) is Ok) != (not_directory_outcome(stat) is Ok),
        stat is Err ==> directory_outcome(stat) == not_directory_outcome(stat),
{
}

/// Whether a mode describes a directory depends on the `0x4000` bit alone:
/// two modes that agree on it agree on being a directory, a mode with only
/// that bit is one and the zero mode is not. So a regular file's mode such
/// as `0x81ED` (rwxr-xr-x) is not a directory while `0x41ED` is.
pub proof fn lemma_directory_bit_alone(a: u16, b: u16)
    ensures
        (a & 0x4000u16) == (b & 0x4000u16) ==> is_directory_mode_spec(a) == is_directory_mode_spec(b),
        is_directory_mode_spec(0x4000u16),
        !is_directory_mode_spec(0u16),
        is_directory_mode_spec(a) == ((a & 0x4000u16) == 0x4000u16),
        !is_directory_mode_spec(0x81EDu16),
        is_directory_mode_spec(0x41EDu16),
{
    assert((a & 0x4000u16) == (b & 0x4000u16) ==> ((a & 0x4000u16 != 0) == (b & 0x4000u16 != 0)))
        by (bit_vector);
    assert((a & 0x4000u16 != 0) == ((a & 0x4000u16) == 0x4000u16)) by (bit_vector);
    assert(0x4000u16 & 0x4000u16 != 0) by (bit_vector);
    assert(0u16 & 0x4000u16 == 0) by (bit_vector);
    assert(0x81EDu16 & 0x4000u16 == 0) by (bit_vector);
    assert(0x41EDu16 & 0x4000u16 != 0) by (bit_vector);
}

/// A status whose mode lacks the `0x4000` bit passes the not-a-directory
/// check and fails the directory check, and one with the bit does the
/// opposite; errors reading the status are handed on by both.
pub proof fn lemma_directory_checks_on_mode(st: FileStat)
    ensures
        st.mode & 0x4000u16 == 0 ==> not_directory_outcome(Ok(st)) == Ok::<(), FilesystemError>(
            (),
        ) && directory_outcome(Ok(st)) == Err::<(), FilesystemError>(
            FilesystemError::INodeIsNotADirectory,
        ),
        st.mode & 0x4000u16 != 0 ==> directory_outcome(Ok(st)) == Ok::<(), FilesystemError>(())
            && not_directory_outcome(Ok(st)) == Err::<(), FilesystemError>(
            FilesystemError::INodeIsDirectory,
        ),
{
}

/// A listing counts as empty exactly when every entry's name is the string
/// `.` or the string `..`: any other name, hidden files such as `.profile`
/// included, makes it non-empty.
pub proof fn lemma_empty_listing_names(entries: Seq<DirectoryEntry>)
    ensures
        only_self_and_parent(entries) <==> forall|i: int|
            0 <= i < entries.len() ==> (#[trigger] entries[i].name@ == "."@ || entries[i].name@
                == ".."@),
        forall|i: int|
            0 <= i < entries.len() && #[trigger] entries[i].name@ != "."@ && entries[i].name@
                != ".."@ ==> !only_self_and_parent(entries),
{
    assert forall|i: int|
        0 <= i < entries.len() && #[trigger] entries[i].name@ != "."@ && entries[i].name@
            != ".."@ implies !only_self_and_parent(entries) by {
        assert(!is_self_or_parent_name(entries[i].name@));
    }
}

} // verus!
