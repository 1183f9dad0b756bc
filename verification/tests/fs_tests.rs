use lib::descriptor::Descriptor;
use lib::fs_trait::{
    check_directory, check_directory_empty, check_not_directory, is_directory_mode,
    DirectoryEntry, FileStat, Filesystem, FilesystemError, FilesystemIndex, FilesystemResult,
};
use lib::ioctl::IOControlCommand;

fn idx(n: usize) -> FilesystemIndex {
    FilesystemIndex { mount_id: 0, inode: n }
}

fn entry(name: &str) -> DirectoryEntry {
    DirectoryEntry { index: idx(0), name: name.to_string() }
}

/// A tiny in-memory filesystem: inode 1 is a directory, inodes from 10 on
/// are files, inode 2 is a directory holding only `.` and `..`.
struct Toy {
    links: Vec<usize>,
    removed_entries: Vec<String>,
    removed_inodes: Vec<usize>,
    dir_entries: Vec<DirectoryEntry>,
}

impl Toy {
    fn new() -> Self {
        Toy {
            links: vec![0; 20],
            removed_entries: Vec::new(),
            removed_inodes: Vec::new(),
            dir_entries: vec![entry("."), entry("..")],
        }
    }
}

impl Filesystem for Toy {
    fn init(&mut self) -> FilesystemResult<()> { Ok(()) }
    fn sync(&mut self) -> FilesystemResult<()> { Ok(()) }
    fn set_mount_id(&mut self, _mount_id: usize) {}
    fn get_root_index(&mut self) -> FilesystemResult<FilesystemIndex> { Ok(idx(1)) }
    fn path_to_inode(&mut self, _path: String) -> FilesystemResult<FilesystemIndex> { Ok(idx(1)) }
    fn inode_to_path(&mut self, _inode: FilesystemIndex) -> FilesystemResult<String> { Ok("/".to_string()) }
    fn get_dir_entries(&mut self, _inode: FilesystemIndex) -> FilesystemResult<Vec<DirectoryEntry>> {
        Ok(self.dir_entries.iter().map(|e| DirectoryEntry { index: e.index, name: e.name.clone() }).collect())
    }
    fn get_stat(&mut self, inode: FilesystemIndex) -> FilesystemResult<FileStat> {
        let mode = if inode.inode < 10 { 0x41ED } else { 0x81A4 };
        Ok(FileStat { mode, size: 0 })
    }
    fn create_file(&mut self, _inode: FilesystemIndex, _name: String) -> FilesystemResult<FilesystemIndex> { Ok(idx(11)) }
    fn create_directory(&mut self, _inode: FilesystemIndex, _name: String) -> FilesystemResult<FilesystemIndex> { Ok(idx(3)) }
    fn remove_inode(&mut self, inode: FilesystemIndex) -> FilesystemResult<()> {
        self.removed_inodes.push(inode.inode);
        Ok(())
    }
    fn remove_dir_entry(&mut self, _directory_index: FilesystemIndex, name: String) -> FilesystemResult<()> {
        self.removed_entries.push(name);
        Ok(())
    }
    fn increment_links(&mut self, inode: FilesystemIndex) -> FilesystemResult<usize> {
        self.links[inode.inode] += 1;
        Ok(self.links[inode.inode])
    }
    fn decrement_links(&mut self, inode: FilesystemIndex) -> FilesystemResult<usize> {
        self.links[inode.inode] -= 1;
        Ok(self.links[inode.inode])
    }
    fn read_inode(&mut self, _inode: FilesystemIndex) -> FilesystemResult<Vec<u8>> { Ok(Vec::new()) }
    fn write_inode(&mut self, _inode: FilesystemIndex, _data: &[u8]) -> FilesystemResult<()> { Ok(()) }
    fn mount_fs_at(&mut self, _inode: FilesystemIndex, _root: FilesystemIndex, _name: String) -> FilesystemResult<()> { Ok(()) }
    fn open_fd(&mut self, inode: FilesystemIndex, _mode: usize) -> FilesystemResult<Descriptor> {
        Ok(Descriptor::InodeFile(inode))
    }
    fn exec_ioctl(&mut self, _inode: FilesystemIndex, _cmd: IOControlCommand) -> FilesystemResult<usize> { Ok(0) }
}

#[test]
fn directory_mode_bit() {
    assert!(is_directory_mode(0x41ED));
    assert!(!is_directory_mode(0x81A4));
    assert_eq!(check_directory(&FileStat { mode: 0x4000, size: 0 }), Ok(()));
    assert_eq!(check_directory(&FileStat { mode: 0x8000, size: 0 }), Err(FilesystemError::INodeIsNotADirectory));
    assert_eq!(check_not_directory(&FileStat { mode: 0x4000, size: 0 }), Err(FilesystemError::INodeIsDirectory));
    assert_eq!(check_not_directory(&FileStat { mode: 0x8000, size: 0 }), Ok(()));
}

#[test]
fn empty_directory_check() {
    assert_eq!(check_directory_empty(&vec![]), Ok(()));
    assert_eq!(check_directory_empty(&vec![entry("."), entry("..")]), Ok(()));
    assert_eq!(
        check_directory_empty(&vec![entry("."), entry("a"), entry("..")]),
        Err(FilesystemError::DirectoryNotEmpty)
    );
    assert_eq!(check_directory_empty(&vec![entry("...")]), Err(FilesystemError::DirectoryNotEmpty));
}

#[test]
fn unlink_removes_last_link_only() {
    let mut fs = Toy::new();
    fs.increment_links(idx(12)).unwrap();
    fs.increment_links(idx(12)).unwrap();
    assert_eq!(fs.unlink_inode(idx(12), idx(1), "a".to_string()), Ok(()));
    assert!(fs.removed_entries.is_empty());
    assert_eq!(fs.unlink_inode(idx(12), idx(1), "b".to_string()), Ok(()));
    assert_eq!(fs.removed_entries, vec!["b".to_string()]);
    assert_eq!(fs.removed_inodes, vec![12]);
}

#[test]
fn unlink_refuses_directories() {
    let mut fs = Toy::new();
    assert_eq!(fs.unlink_inode(idx(2), idx(1), "d".to_string()), Err(FilesystemError::INodeIsDirectory));
    assert_eq!(fs.unlink_inode(idx(12), idx(13), "f".to_string()), Err(FilesystemError::INodeIsNotADirectory));
    assert!(fs.removed_inodes.is_empty());
}

#[test]
fn remove_directory_requires_empty() {
    let mut fs = Toy::new();
    assert_eq!(fs.remove_directory(idx(2), idx(1), "d".to_string()), Ok(()));
    assert_eq!(fs.removed_inodes, vec![2]);
    fs.dir_entries.push(entry("x"));
    assert_eq!(fs.remove_directory(idx(2), idx(1), "d".to_string()), Err(FilesystemError::DirectoryNotEmpty));
    assert_eq!(fs.remove_directory(idx(12), idx(1), "f".to_string()), Err(FilesystemError::INodeIsNotADirectory));
    assert_eq!(fs.assert_directory(idx(1)), Ok(()));
    assert_eq!(fs.assert_not_directory(idx(11)), Ok(()));
}

#[test]
fn directory_checks_hand_on_status_errors() {
    struct Broken;
    impl Filesystem for Broken {
        fn init(&mut self) -> FilesystemResult<()> { Ok(()) }
        fn sync(&mut self) -> FilesystemResult<()> { Ok(()) }
        fn set_mount_id(&mut self, _mount_id: usize) {}
        fn get_root_index(&mut self) -> FilesystemResult<FilesystemIndex> { Err(FilesystemError::FilesystemNotMounted) }
        fn path_to_inode(&mut self, _path: String) -> FilesystemResult<FilesystemIndex> { Err(FilesystemError::FileNotFound) }
        fn inode_to_path(&mut self, _inode: FilesystemIndex) -> FilesystemResult<String> { Err(FilesystemError::BadINode) }
        fn get_dir_entries(&mut self, _inode: FilesystemIndex) -> FilesystemResult<Vec<DirectoryEntry>> { Err(FilesystemError::BadINode) }
        fn get_stat(&mut self, _inode: FilesystemIndex) -> FilesystemResult<FileStat> { Err(FilesystemError::BadINode) }
        fn create_file(&mut self, _inode: FilesystemIndex, _name: String) -> FilesystemResult<FilesystemIndex> { Err(FilesystemError::PermissionDenied) }
        fn create_directory(&mut self, _inode: FilesystemIndex, _name: String) -> FilesystemResult<FilesystemIndex> { Err(FilesystemError::PermissionDenied) }
        fn remove_inode(&mut self, _inode: FilesystemIndex) -> FilesystemResult<()> { Err(FilesystemError::BadINode) }
        fn remove_dir_entry(&mut self, _directory_index: FilesystemIndex, _name: String) -> FilesystemResult<()> { Err(FilesystemError::BadINode) }
        fn increment_links(&mut self, _inode: FilesystemIndex) -> FilesystemResult<usize> { Err(FilesystemError::BadINode) }
        fn decrement_links(&mut self, _inode: FilesystemIndex) -> FilesystemResult<usize> { Err(FilesystemError::BadINode) }
        fn read_inode(&mut self, _inode: FilesystemIndex) -> FilesystemResult<Vec<u8>> { Err(FilesystemError::BadINode) }
        fn write_inode(&mut self, _inode: FilesystemIndex, _data: &[u8]) -> FilesystemResult<()> { Err(FilesystemError::BadINode) }
        fn mount_fs_at(&mut self, _inode: FilesystemIndex, _root: FilesystemIndex, _name: String) -> FilesystemResult<()> { Err(FilesystemError::BadINode) }
        fn open_fd(&mut self, _inode: FilesystemIndex, _mode: usize) -> FilesystemResult<Descriptor> { Err(FilesystemError::BadINode) }
        fn exec_ioctl(&mut self, _inode: FilesystemIndex, _cmd: IOControlCommand) -> FilesystemResult<usize> { Err(FilesystemError::BadINode) }
    }
    let mut fs = Broken;
    assert_eq!(fs.assert_directory(idx(1)), Err(FilesystemError::BadINode));
    assert_eq!(fs.assert_not_directory(idx(1)), Err(FilesystemError::BadINode));
    assert_eq!(fs.unlink_inode(idx(11), idx(1), "f".to_string()), Err(FilesystemError::BadINode));
    assert_eq!(fs.remove_directory(idx(2), idx(1), "d".to_string()), Err(FilesystemError::BadINode));
}

#[test]
fn unlink_stops_at_failed_entry_removal() {
    struct Sticky {
        links: usize,
        inode_removed: bool,
    }
    impl Filesystem for Sticky {
        fn init(&mut self) -> FilesystemResult<()> { Ok(()) }
        fn sync(&mut self) -> FilesystemResult<()> { Ok(()) }
        fn set_mount_id(&mut self, _mount_id: usize) {}
        fn get_root_index(&mut self) -> FilesystemResult<FilesystemIndex> { Ok(idx(1)) }
        fn path_to_inode(&mut self, _path: String) -> FilesystemResult<FilesystemIndex> { Ok(idx(1)) }
        fn inode_to_path(&mut self, _inode: FilesystemIndex) -> FilesystemResult<String> { Ok("/".to_string()) }
        fn get_dir_entries(&mut self, _inode: FilesystemIndex) -> FilesystemResult<Vec<DirectoryEntry>> { Ok(Vec::new()) }
        fn get_stat(&mut self, inode: FilesystemIndex) -> FilesystemResult<FileStat> {
            Ok(FileStat { mode: if inode.inode < 10 { 0x4000 } else { 0x8000 }, size: 0 })
        }
        fn create_file(&mut self, _inode: FilesystemIndex, _name: String) -> FilesystemResult<FilesystemIndex> { Ok(idx(11)) }
        fn create_directory(&mut self, _inode: FilesystemIndex, _name: String) -> FilesystemResult<FilesystemIndex> { Ok(idx(3)) }
        fn remove_inode(&mut self, _inode: FilesystemIndex) -> FilesystemResult<()> {
            self.inode_removed = true;
            Ok(())
        }
        fn remove_dir_entry(&mut self, _directory_index: FilesystemIndex, _name: String) -> FilesystemResult<()> {
            Err(FilesystemError::PermissionDenied)
        }
        fn increment_links(&mut self, _inode: FilesystemIndex) -> FilesystemResult<usize> { self.links += 1; Ok(self.links) }
        fn decrement_links(&mut self, _inode: FilesystemIndex) -> FilesystemResult<usize> { self.links -= 1; Ok(self.links) }
        fn read_inode(&mut self, _inode: FilesystemIndex) -> FilesystemResult<Vec<u8>> { Ok(Vec::new()) }
        fn write_inode(&mut self, _inode: FilesystemIndex, _data: &[u8]) -> FilesystemResult<()> { Ok(()) }
        fn mount_fs_at(&mut self, _inode: FilesystemIndex, _root: FilesystemIndex, _name: String) -> FilesystemResult<()> { Ok(()) }
        fn open_fd(&mut self, inode: FilesystemIndex, _mode: usize) -> FilesystemResult<Descriptor> { Ok(Descriptor::InodeFile(inode)) }
        fn exec_ioctl(&mut self, _inode: FilesystemIndex, _cmd: IOControlCommand) -> FilesystemResult<usize> { Ok(0) }
    }
    let mut fs = Sticky { links: 1, inode_removed: false };
    assert_eq!(fs.unlink_inode(idx(12), idx(1), "f".to_string()), Err(FilesystemError::PermissionDenied));
    assert_eq!(fs.links, 0);
    assert!(!fs.inode_removed);
    assert_eq!(fs.remove_directory(idx(2), idx(1), "d".to_string()), Err(FilesystemError::PermissionDenied));
    assert!(!fs.inode_removed);
}
