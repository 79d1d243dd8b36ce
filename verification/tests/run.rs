//! Whole runs of the program against a system that lives in memory.

use rsmkswap::device::{OpenOperation, BTRFS_SUPER_MAGIC, FS_NOCOW_FL};
use rsmkswap::endian::Endian;
use rsmkswap::error::{MkswapError, SWAP_LABEL_LENGTH};
use rsmkswap::header::SWAP_SIGNATURE;
use rsmkswap::mkswap::{run, Launch, Request};
use rsmkswap::pagesize::PageSizeQuery;
use rsmkswap::session::{Progress, Reply, Session};

/// A system with one file or device.
struct System {
    pagesize: i64,
    alias: i64,
    present: bool,
    content: Vec<u8>,
    mode: u32,
    magic: i64,
    flags: i32,
    allocate_fails: bool,
    owner: u32,
    user: u32,
    is_block_device: bool,
    block_status: i32,
    block_size: u64,
    size_line: String,
    size_path: String,
    bad: Vec<usize>,
    write_fails: bool,
    notices: Vec<String>,
}

fn empty_system() -> System {
    System {
        pagesize: 4096,
        alias: 4096,
        present: false,
        content: Vec::new(),
        mode: 0o644,
        magic: 0xef53,
        flags: 0,
        allocate_fails: false,
        owner: 0,
        user: 0,
        is_block_device: false,
        block_status: 0,
        block_size: 0,
        size_line: String::new(),
        size_path: String::new(),
        bad: Vec::new(),
        write_fails: false,
        notices: Vec::new(),
    }
}

fn system_with(content: Vec<u8>) -> System {
    let mut system = empty_system();
    system.present = true;
    system.content = content;
    system
}

impl System {
    fn open(&mut self, op: OpenOperation) -> Reply {
        match op {
            OpenOperation::Open { create } => {
                if !self.present && !create {
                    return Reply::Error(String::from("No such file or directory (os error 2)"));
                }
                self.present = true;
                Reply::Number(0)
            }
            OpenOperation::SetPermissions { mode } => {
                self.mode = mode;
                Reply::Number(0)
            }
            OpenOperation::QueryFilesystem => Reply::Number(self.magic),
            OpenOperation::ReadFlags => Reply::Number(self.flags as i64),
            OpenOperation::WriteFlags { flags } => {
                self.flags = flags;
                Reply::Number(0)
            }
            OpenOperation::Allocate { len } => {
                if self.allocate_fails {
                    return Reply::Error(String::from("Operation not supported"));
                }
                self.content.resize(len as usize, 0);
                Reply::Number(0)
            }
        }
    }

    fn perform(&mut self, session: &Session) -> Reply {
        match session {
            Session::AskingPageSize { query: PageSizeQuery::PageSize, .. } => {
                Reply::Number(self.pagesize)
            }
            Session::AskingPageSize { query: PageSizeQuery::PageSizeAlias, .. } => {
                Reply::Number(self.alias)
            }
            Session::Opening { op, .. } => self.open(*op),
            Session::Examining { .. } => Reply::Metadata {
                owner: self.owner,
                user: self.user,
                is_block_device: self.is_block_device,
                size: self.content.len() as u64,
            },
            Session::AskingBlockSize { .. } => {
                Reply::BlockSize { status: self.block_status, size: self.block_size }
            }
            Session::ReadingSizeFile { path, .. } => {
                self.size_path = path.clone();
                Reply::Line(self.size_line.clone())
            }
            Session::Checking { scan, .. } => {
                assert!(scan.has_position());
                let at = scan.position() as usize;
                if self.bad.contains(&at) {
                    return Reply::Count(-1);
                }
                let end = self.content.len().min(at + scan.pagesize);
                Reply::Count(end as isize - at as isize)
            }
            Session::Writing { image } => {
                if self.write_fails {
                    return Reply::Error(String::from("No space left on device (os error 28)"));
                }
                let at = image.position as usize;
                let end = at + image.bytes.len();
                if self.content.len() < end {
                    self.content.resize(end, 0);
                }
                self.content[at..end].copy_from_slice(&image.bytes);
                Reply::Number(0)
            }
        }
    }

    /// Sets up an area; the result is what the user is told.
    fn set_up(&mut self, request: Request) -> Result<String, MkswapError> {
        let mut session = request.begin();
        loop {
            let reply = self.perform(&session);
            assert!(session.is_accepted(&reply));
            let step = session.step(reply);
            self.notices.extend(step.notice);
            session = match step.next {
                Progress::Continue(next) => next,
                Progress::Finished(summary) => return Ok(summary),
                Progress::Failed(e) => return Err(e),
            };
        }
    }

    /// Runs the program, with arguments that are not refused out of hand.
    fn run(&mut self, args: &[String]) -> Result<String, MkswapError> {
        match run(args)? {
            Launch::Proceed(request) => self.set_up(request),
            Launch::Exit { status } => panic!("exit with {status}"),
        }
    }
}

fn strings(args: &[&str]) -> Vec<String> {
    args.iter().map(|s| String::from(*s)).collect()
}

fn request(args: &[&str]) -> Request {
    match run(&strings(args)) {
        Ok(Launch::Proceed(request)) => request,
        _ => panic!("no request"),
    }
}

fn exit_status(args: &[&str]) -> Option<i32> {
    match run(&strings(args)) {
        Ok(Launch::Exit { status }) => Some(status),
        _ => None,
    }
}

fn message(args: &[&str]) -> String {
    run(&strings(args)).err().unwrap().to_string()
}

#[test]
fn test_valid_args() {
    let args = vec![
        String::from("rsmkswap"),
        String::from("swapfile_test"),
        String::from("--label"),
        String::from("test_swap"),
        String::from("-F"),
        String::from("--size"),
        String::from("65535"),
        String::from("--uuid"),
        String::from("123e4567-e89b-12d3-a456-426614174000"),
    ];
    let mut system = empty_system();
    let result = system.run(&args);

    let buf = &system.content[..4096];
    let sig = &buf[4086..];

    assert!(result.is_ok());
    assert_eq!(SWAP_SIGNATURE, sig);
}

#[test]
fn test_invalid_device() {
    let args = vec![
        String::from("mkswap"),
        String::from("/rsmkswaptest/invalid/device"),
    ];
    let result = empty_system().run(&args);
    assert!(result.is_err());
}

#[test]
fn test_long_label() {
    let args = vec![
        String::from("mkswap"),
        String::from("-F"),
        String::from("swapfile_long_label"),
        String::from("--size"),
        String::from("65535"),
        String::from("--label"),
        String::from("WAAAYTOOLONGOFALABELFORASWAPFILE"),
    ];
    let result = run(&args);
    assert!(result.err().unwrap().to_string().contains(
        format!("Label is too long, maximum size is {SWAP_LABEL_LENGTH} characters").as_str()
    ));
}

#[test]
fn test_with_invalid_uuid() {
    let args = vec![
        String::from("mkswap"),
        String::from("-F"),
        String::from("swapfile_invalid_uuid"),
        String::from("--size"),
        String::from("65535"),
        String::from("--uuid"),
        String::from("invalid-uuid"),
    ];
    let result = run(&args);

    assert!(result.is_err());
    assert!(result.err().unwrap().to_string().contains("Invalid UUID"));
}

#[test]
fn test_with_too_small_device() {
    let args = vec![
        String::from("mkswap"),
        String::from("swapfile_too_small"),
        String::from("--file"),
        String::from("--size"),
        String::from("1024"),
    ];
    let result = empty_system().run(&args);
    assert!(result.is_err());
    assert!(
        result
            .err()
            .unwrap()
            .to_string()
            .contains("Swap area needs to be at least")
    );
}

#[test]
fn test_all_features() {
    let args = vec![
        String::from("mkswap"),
        String::from("swapfile"),
        String::from("-F"),
        String::from("--size"),
        String::from("45056"),
        String::from("--uuid"),
        String::from("123e4567-e89b-12d3-a456-426614174000"),
        String::from("--label"),
        String::from("SWAPTEST"),
        String::from("--check"),
        String::from("--offset"),
        String::from("4096"),
        String::from("--pagesize"),
        String::from("4096"),
    ];
    let mut system = empty_system();
    let result = system.run(&args);
    let offset: usize = 4096;

    let buf = &system.content[..4096 + offset];
    let sig = &buf[4086 + offset..];

    assert!(result.is_ok());
    assert_eq!(SWAP_SIGNATURE, sig);
}

#[test]
fn readme_example_makes_a_swap_file() {
    let mut system = empty_system();
    let summary = system
        .run(&strings(&["rsmkswap", "-F", "-s", "81920", "swepfile", "--label", "SWEPFILE"]))
        .unwrap();
    assert!(summary.starts_with(
        "Setting up swapspace version 1, size = 76 KiB (77824 bytes)\nLABEL=SWEPFILE, UUID="
    ));
    assert_eq!(system.content.len(), 81920);
    assert_eq!(system.mode, 0o600);
    assert_eq!(&system.content[1052..1060], b"SWEPFILE");
    assert_eq!(&system.content[1028..1032], &19u32.to_ne_bytes());
    assert!(system.notices.is_empty());
}

#[test]
fn summary_names_label_and_uuid() {
    let uuid = "123e4567-e89b-12d3-a456-426614174000";
    let mut system = system_with(vec![0u8; 40960]);
    assert_eq!(
        system.run(&strings(&["rsmkswap", "disk", "-u", uuid, "-L", "data"])).unwrap(),
        "Setting up swapspace version 1, size = 36 KiB (36864 bytes)\n\
         LABEL=data, UUID=123e4567-e89b-12d3-a456-426614174000"
    );
    assert_eq!(
        system.run(&strings(&["rsmkswap", "disk", "-u", uuid])).unwrap(),
        "Setting up swapspace version 1, size = 36 KiB (36864 bytes)\n\
         no label, UUID=123e4567-e89b-12d3-a456-426614174000"
    );
}

#[test]
fn only_the_rest_of_the_first_page_is_written() {
    let mut system = system_with(vec![0xaa; 12 * 4096 + 5]);
    system.run(&strings(&["rsmkswap", "disk", "-o", "5000"])).unwrap();
    assert_eq!(system.content.len(), 12 * 4096 + 5);
    for (i, byte) in system.content.iter().enumerate() {
        if i < 5000 + 1024 || i >= 5000 + 4096 {
            assert_eq!(*byte, 0xaa);
        }
    }
    assert_eq!(&system.content[5000 + 4086..5000 + 4096], b"SWAPSPACE2");
    assert_eq!(&system.content[5000 + 1024..5000 + 1028], &1u32.to_ne_bytes());
    // 49157 - 5000 = 44157 bytes are ten pages
    assert_eq!(&system.content[5000 + 1028..5000 + 1032], &9u32.to_ne_bytes());
    assert_eq!(system.mode, 0o644);
}

#[test]
fn byte_order_is_that_asked_for() {
    for (name, version, last) in [
        ("little", [1, 0, 0, 0], [9, 0, 0, 0]),
        ("BIG", [0, 0, 0, 1], [0, 0, 0, 9]),
        ("Native", 1u32.to_ne_bytes(), 9u32.to_ne_bytes()),
    ] {
        let mut system = system_with(vec![0u8; 40960]);
        system.run(&strings(&["rsmkswap", "disk", "-e", name])).unwrap();
        assert_eq!(system.content[1024..1028], version);
        assert_eq!(system.content[1028..1032], last);
    }
}

#[test]
fn bad_pages_are_listed() {
    let mut system = system_with(vec![0u8; 12 * 4096]);
    system.bad = vec![3 * 4096, 11 * 4096];
    system.run(&strings(&["rsmkswap", "disk", "-c", "-v", "-e", "big"])).unwrap();
    assert_eq!(system.notices, ["bad page at index 3", "bad page at index 11"]);
    assert_eq!(system.content[1032..1036], [0, 0, 0, 2]);
    assert_eq!(system.content[1536..1544], [0, 0, 0, 3, 0, 0, 0, 11]);
    assert!(system.content[1544..4086].iter().all(|b| *b == 0));
    assert_eq!(&system.content[4086..4096], b"SWAPSPACE2");
}

#[test]
fn bad_pages_are_silent_without_verbose() {
    let mut system = system_with(vec![0u8; 12 * 4096]);
    system.bad = vec![4096];
    system.run(&strings(&["rsmkswap", "disk", "--check", "-e", "little"])).unwrap();
    assert!(system.notices.is_empty());
    assert_eq!(system.content[1032..1036], [1, 0, 0, 0]);
    assert_eq!(system.content[1536..1540], [1, 0, 0, 0]);
}

#[test]
fn too_many_bad_pages_are_refused() {
    // a page of 2048 bytes has room for 125 bad pages
    let mut system = system_with(vec![0u8; 200 * 2048]);
    system.bad = (1..127).map(|page| page * 2048).collect();
    let args = strings(&["rsmkswap", "disk", "-c", "-P", "2048"]);
    let e = system.run(&args).err().unwrap();
    assert!(matches!(e, MkswapError::MaxBadPagesExceeded { max_badpages: 125 }));
    assert_eq!(e.to_string(), "Too many bad pages: 125");
    assert!(system.content.iter().all(|b| *b == 0));
    system.bad.pop();
    assert!(system.run(&args).is_ok());
}

#[test]
fn small_page_size_needs_force() {
    let mut system = system_with(vec![0u8; 40960]);
    let e = system.run(&strings(&["rsmkswap", "disk", "-P", "1024"])).err().unwrap();
    assert!(matches!(e, MkswapError::UsageError { .. }));
    assert_eq!(e.to_string(), "Bad user-specified page size 1024");
    // 1546 bytes hold a header and the signature, but are no power of two
    let e = system.run(&strings(&["rsmkswap", "disk", "-P", "1546"])).err().unwrap();
    assert_eq!(e.to_string(), "Bad user-specified page size 1546");
    system.run(&strings(&["rsmkswap", "disk", "-f", "-P", "1546"])).unwrap();
    assert_eq!(&system.content[1536..1546], b"SWAPSPACE2");
    assert_eq!(
        system.notices,
        ["Using user-specified page size 1546, instead of the system value 4096"]
    );
}

#[test]
fn page_too_small_for_a_header_is_not_accepted() {
    let request = request(&["rsmkswap", "disk", "-f", "-P", "512"]);
    let session = request.begin();
    let reply = Reply::Number(4096);
    assert!(session.is_accepted(&reply));
    let Progress::Continue(session) = session.step(reply).next else { panic!("not opened") };
    let Progress::Continue(session) = session.step(Reply::Number(0)).next else {
        panic!("not open")
    };
    let metadata = |size| Reply::Metadata { owner: 0, user: 0, is_block_device: false, size };
    assert!(!session.is_accepted(&metadata(40960)));
    assert!(session.is_accepted(&metadata(5119)));
    assert!(!session.is_accepted(&Reply::Number(0)));
    let Progress::Failed(e) = session.step(metadata(5119)).next else { panic!("not refused") };
    assert_eq!(e.to_string(), "Swap area needs to be at least 5 KiB");
}

#[test]
fn empty_page_is_not_accepted() {
    let session = request(&["rsmkswap", "disk", "-f", "-P", "0"]).begin();
    let Progress::Continue(session) = session.step(Reply::Number(4096)).next else {
        panic!("not opened")
    };
    let Progress::Continue(session) = session.step(Reply::Number(0)).next else {
        panic!("not open")
    };
    let reply = Reply::Metadata { owner: 0, user: 0, is_block_device: false, size: 40960 };
    assert!(!session.is_accepted(&reply));
}

#[test]
fn too_few_pages_are_refused() {
    // ten pages of this size are more than 64 bits can count
    let size = (1u64 << 62).to_string();
    let mut system = empty_system();
    system.present = true;
    system.is_block_device = true;
    system.block_size = u64::MAX;
    let e = system.run(&strings(&["rsmkswap", "disk", "-P", &size])).err().unwrap();
    assert!(matches!(e, MkswapError::TooFewPages { pages: 3 }));
    assert_eq!(e.to_string(), "Too few pages for a swap area (3), minimum is 10");
}

#[test]
fn too_many_pages_are_refused() {
    let mut system = empty_system();
    system.present = true;
    system.is_block_device = true;
    system.block_size = 4096 * (u32::MAX as u64 + 1);
    let e = system.run(&strings(&["rsmkswap", "disk"])).err().unwrap();
    assert!(matches!(e, MkswapError::IoError { .. }));
    assert_eq!(e.to_string(), "swap area is too large: max size is 16383 GiB");
    system.block_size -= 1;
    system.run(&strings(&["rsmkswap", "disk", "-e", "big"])).unwrap();
    assert_eq!(system.content[1028..1032], [0xff, 0xff, 0xff, 0xfe]);
}

#[test]
fn offset_behind_the_device_is_refused() {
    let mut system = system_with(vec![0u8; 40960]);
    let e = system.run(&strings(&["rsmkswap", "disk", "-o", "40961"])).err().unwrap();
    assert!(matches!(e, MkswapError::SwapAreaTooSmall { min_swapsize: 40960 }));
    assert_eq!(e.to_string(), "Swap area needs to be at least 40 KiB");
}

#[test]
fn btrfs_file_is_not_copied_on_write() {
    let args = strings(&["rsmkswap", "-F", "-s", "65536", "file"]);
    let mut system = empty_system();
    system.magic = BTRFS_SUPER_MAGIC;
    system.flags = 0x10;
    system.run(&args).unwrap();
    assert_eq!(system.flags, 0x10 | FS_NOCOW_FL);
    assert_eq!(system.mode, 0o600);

    let mut other = empty_system();
    other.flags = 0x10;
    other.run(&args).unwrap();
    assert_eq!(other.flags, 0x10);
}

#[test]
fn failed_allocation_does_not_matter() {
    let mut system = empty_system();
    system.allocate_fails = true;
    system.run(&strings(&["rsmkswap", "-F", "-s", "65536", "file"])).unwrap();
    assert_eq!(&system.content[4086..4096], b"SWAPSPACE2");
}

#[test]
fn failed_open_names_the_device() {
    let e = empty_system().run(&strings(&["rsmkswap", "/dev/sdz9"])).err().unwrap();
    assert!(matches!(e, MkswapError::IoError { .. }));
    assert_eq!(
        e.to_string(),
        "failed to open sdz9: No such file or directory (os error 2)"
    );
}

#[test]
fn failed_write_is_reported() {
    let mut system = system_with(vec![0u8; 40960]);
    system.write_fails = true;
    let e = system.run(&strings(&["rsmkswap", "disk"])).err().unwrap();
    assert_eq!(e.to_string(), "No space left on device (os error 28)");
}

#[test]
fn owner_is_warned_about() {
    let mut system = system_with(vec![0u8; 40960]);
    system.owner = 1000;
    system.run(&strings(&["rsmkswap", "/var/swap/file"])).unwrap();
    assert_eq!(
        system.notices,
        ["rsmkswap: file: insecure file owner 1000, fix with: chown 0:0 /var/swap/file"]
    );
    system.notices.clear();
    system.user = 1000;
    system.run(&strings(&["rsmkswap", "/var/swap/file"])).unwrap();
    assert!(system.notices.is_empty());
}

#[test]
fn block_device_tells_its_size() {
    let mut system = empty_system();
    system.present = true;
    system.is_block_device = true;
    system.block_size = 20 * 4096;
    system.run(&strings(&["rsmkswap", "/dev/sda1", "-e", "little"])).unwrap();
    assert_eq!(system.content[1028..1032], [19, 0, 0, 0]);
    assert_eq!(system.size_path, "");
}

#[test]
fn size_of_block_device_is_read_from_a_file() {
    let mut system = empty_system();
    system.present = true;
    system.is_block_device = true;
    system.block_status = -1;
    system.block_size = 7;
    system.size_line = String::from("160\n");
    system.run(&strings(&["rsmkswap", "/dev/sda1", "-e", "little"])).unwrap();
    assert_eq!(system.size_path, "/sys/class/block/sda1/size");
    // 160 sectors of 512 bytes are 20 pages
    assert_eq!(system.content[1028..1032], [19, 0, 0, 0]);
}

#[test]
fn second_page_size_query_counts() {
    let mut system = system_with(vec![0u8; 81920]);
    system.pagesize = -1;
    system.alias = 8192;
    system.run(&strings(&["rsmkswap", "disk"])).unwrap();
    assert_eq!(&system.content[8182..8192], b"SWAPSPACE2");
    system.alias = 0;
    let e = system.run(&strings(&["rsmkswap", "disk"])).err().unwrap();
    assert_eq!(
        e.to_string(),
        "Failed to determine page size, please check your system configuration"
    );
}

#[test]
fn options_are_read() {
    let r = request(&[
        "rsmkswap", "--lab", "name", "--uuid", "{123E4567-e89b-12d3-a456-426614174000}", "-cvf",
        "--page", "65536", "--end", "LITTLE", "-o512", "-F", "--size=1000000", "/mnt/./swap/",
    ]);
    assert_eq!(r.device, "/mnt/./swap/");
    assert_eq!(r.devname, "swap");
    assert_eq!(r.label, "name");
    assert_eq!(r.endianness, Endian::Little);
    assert_eq!(
        r.uuid,
        [0x12, 0x3e, 0x45, 0x67, 0xe8, 0x9b, 0x12, 0xd3, 0xa4, 0x56, 0x42, 0x66, 0x14, 0x17, 0x40, 0]
    );
    assert!(r.check && r.verbose && r.force && r.create);
    assert_eq!(r.pagesize, Some(65536));
    assert_eq!(r.filesize, 1000000);
    assert_eq!(r.offset, 512);
}

#[test]
fn options_have_defaults() {
    let r = request(&["rsmkswap", "disk"]);
    assert_eq!(r.label, "");
    assert_eq!(r.endianness, Endian::Native);
    assert!(!r.check && !r.verbose && !r.force && !r.create);
    assert_eq!(r.pagesize, None);
    assert_eq!(r.filesize, 0);
    assert_eq!(r.offset, 0);
}

#[test]
fn drawn_uuid_is_random() {
    let a = request(&["rsmkswap", "disk"]);
    let b = request(&["rsmkswap", "disk"]);
    assert_ne!(a.uuid, b.uuid);
    assert_eq!(a.uuid[6] >> 4, 4);
    assert_eq!(a.uuid[8] >> 6, 2);
}

#[test]
fn clap_refuses_with_status_2() {
    assert_eq!(exit_status(&["rsmkswap"]), Some(2));
    assert_eq!(exit_status(&["rsmkswap", "disk", "-F"]), Some(2));
    assert_eq!(exit_status(&["rsmkswap", "disk", "-s", "65536"]), Some(2));
    assert_eq!(exit_status(&["rsmkswap", "disk", "-F", "-s", "many"]), Some(2));
    assert_eq!(exit_status(&["rsmkswap", "disk", "-F", "-s", "18446744073709551616"]), Some(2));
    assert_eq!(exit_status(&["rsmkswap", "disk", "-P", "-1"]), Some(2));
    assert_eq!(exit_status(&["rsmkswap", "disk", "-o", "0x10"]), Some(2));
    assert_eq!(exit_status(&["rsmkswap", "disk", "--nonsense"]), Some(2));
    assert_eq!(exit_status(&["rsmkswap", "disk", "other"]), Some(2));
    assert_eq!(exit_status(&["rsmkswap", "disk", "-L"]), Some(2));
}

#[test]
fn help_and_version_exit_with_status_0() {
    assert_eq!(exit_status(&["rsmkswap", "--help"]), Some(0));
    assert_eq!(exit_status(&["rsmkswap", "-h"]), Some(0));
    assert_eq!(exit_status(&["rsmkswap", "--version"]), Some(0));
    assert_eq!(exit_status(&["rsmkswap", "-V", "disk"]), Some(0));
}

#[test]
fn wrong_options_are_reported() {
    assert_eq!(
        message(&["rsmkswap", "disk", "-e", "Middle"]),
        "invalid endianness Middle is not supported"
    );
    assert_eq!(
        message(&["rsmkswap", "disk", "-L", "seventeen letters"]),
        "Label is too long, maximum size is 16 characters"
    );
    // sixteen characters, but more bytes
    assert_eq!(
        message(&["rsmkswap", "disk", "-L", "sixteen letterß!"]),
        "Label is too long, maximum size is 16 characters"
    );
    let text = message(&["rsmkswap", "disk", "-u", "zz"]);
    assert!(text.starts_with("Invalid UUID 'zz': "));
    assert!(text.len() > "Invalid UUID 'zz': ".len());
    // the label is looked at first, then the byte order, then the UUID
    assert_eq!(
        message(&["rsmkswap", "disk", "-e", "Middle", "-u", "zz"]),
        "invalid endianness Middle is not supported"
    );
}

#[test]
fn label_of_sixteen_bytes_fits() {
    let mut system = system_with(vec![0u8; 40960]);
    system.run(&strings(&["rsmkswap", "disk", "-L", "sixteen letters!"])).unwrap();
    assert_eq!(&system.content[1052..1068], b"sixteen letters!");
}

#[test]
fn device_is_named_by_its_last_component() {
    assert_eq!(request(&["rsmkswap", "/dev/sda1"]).devname, "sda1");
    assert_eq!(request(&["rsmkswap", "file"]).devname, "file");
    assert_eq!(request(&["rsmkswap", "a/b//."]).devname, "b");
    assert_eq!(request(&["rsmkswap", "/dev/.."]).devname, "..");
    assert_eq!(request(&["rsmkswap", "/"]).devname, "/");
    assert_eq!(request(&["rsmkswap", ".."]).devname, "..");
}

#[test]
fn errors_end_the_session() {
    let examining = || {
        let session = request(&["rsmkswap", "/dev/sda1"]).begin();
        let Progress::Continue(session) = session.step(Reply::Number(4096)).next else {
            panic!("not opened")
        };
        let Progress::Continue(session) = session.step(Reply::Number(0)).next else {
            panic!("not open")
        };
        session
    };
    let error = || Reply::Error(String::from("Input/output error (os error 5)"));
    let Progress::Failed(e) = examining().step(error()).next else { panic!("not failed") };
    assert_eq!(e.to_string(), "Input/output error (os error 5)");

    let metadata = Reply::Metadata { owner: 0, user: 0, is_block_device: true, size: 0 };
    let Progress::Continue(session) = examining().step(metadata).next else {
        panic!("not examined")
    };
    let reply = Reply::BlockSize { status: 0, size: 0 };
    let Progress::Continue(session) = session.step(reply).next else { panic!("not asked") };
    assert!(matches!(
        &session,
        Session::ReadingSizeFile { plan, path }
            if path == "/sys/class/block/sda1/size" && plan.request.device == "/dev/sda1"
    ));
    assert!(session.is_accepted(&error()));
    let Progress::Failed(e) = session.step(error()).next else { panic!("not failed") };
    assert!(matches!(e, MkswapError::IoError { .. }));
    assert_eq!(e.to_string(), "Input/output error (os error 5)");
}

#[test]
fn session_takes_only_replies_to_its_operation() {
    let session = request(&["rsmkswap", "disk"]).begin();
    assert!(session.is_accepted(&Reply::Number(-1)));
    assert!(!session.is_accepted(&Reply::Error(String::new())));
    assert!(!session.is_accepted(&Reply::Line(String::new())));
    assert!(!session.is_accepted(&Reply::Count(0)));
    assert!(!session.is_accepted(&Reply::BlockSize { status: 0, size: 0 }));
}

#[test]
fn offset_moves_the_area() {
    let uuid = "123e4567-e89b-12d3-a456-426614174000";
    let mut plain = system_with(vec![0u8; 50000]);
    let told = plain.run(&strings(&["rsmkswap", "disk", "-u", uuid])).unwrap();
    let mut moved = system_with(vec![0u8; 50000 + 777]);
    let args = strings(&["rsmkswap", "disk", "-u", uuid, "-o", "777"]);
    assert_eq!(moved.run(&args).unwrap(), told);
    assert_eq!(moved.content[777..], plain.content[..]);
    assert!(moved.content[..777].iter().all(|b| *b == 0));
}

#[test]
fn failure_changes_nothing() {
    let mut system = system_with(vec![0xaa; 40959]);
    assert!(system.run(&strings(&["rsmkswap", "disk"])).is_err());
    assert_eq!(system.content, vec![0xaa; 40959]);
    assert_eq!(system.mode, 0o644);

    let mut system = empty_system();
    assert!(system.run(&strings(&["rsmkswap", "-F", "-s", "40959", "file"])).is_err());
    assert!(!system.present);

    let args = strings(&["rsmkswap", "-F", "-s", "65536", "-P", "1000", "file"]);
    let e = system.run(&args).err().unwrap();
    assert!(matches!(e, MkswapError::UsageError { .. }));
    assert!(!system.present);
}
