//! The parts of the library, one by one.

use rsmkswap::area::{min_swapsize, SizeSource};
use rsmkswap::cli::{clapp, read_arguments, Options};
use rsmkswap::device::{
    get_blockdev_size, open_device, open_device_step, parse_blockdev_size, BlockSize,
    OpenOperation, OpenProgress, BTRFS_SUPER_MAGIC, FS_NOCOW_FL,
};
use rsmkswap::endian::Endian;
use rsmkswap::error::MkswapError;
use rsmkswap::header::{write_at, SwapHeader, SWAP_HEADER_SIZE};
use rsmkswap::mkswap::{check_options, endian_from_name, mkswap, parse_endianness, Request};
use rsmkswap::pagesize::{choose_page_size, getpagesize, PageSizeAnswer, PageSizeQuery};
use rsmkswap::scan::check_device;
use rsmkswap::swapheader;
use rsmkswap::text::{append_decimal, file_name, same_text, strip_prefix, trim};

fn plain_options() -> Options {
    Options {
        device: Some(String::from("/dev/sda1")),
        label: None,
        uuid: None,
        file: false,
        check: false,
        filesize: None,
        pagesize: None,
        verbose: false,
        force: false,
        endianness: None,
        offset: None,
    }
}

fn plain_request() -> Request {
    check_options(plain_options(), Some(Endian::Native), Ok([7; 16])).unwrap_or_else(|_| {
        panic!("refused")
    })
}

#[test]
fn numbers_are_converted() {
    let x: u32 = 0x0102_0304;
    assert_eq!(Endian::Native.convert(x), x);
    assert_eq!(Endian::Little.convert(x).to_ne_bytes(), [4, 3, 2, 1]);
    assert_eq!(Endian::Big.convert(x).to_ne_bytes(), [1, 2, 3, 4]);
    for e in [Endian::Native, Endian::Little, Endian::Big] {
        assert_eq!(e.convert(e.convert(x)), x);
    }
}

#[test]
fn byte_orders_mirror() {
    let mut little = Endian::Little.convert(0xdead_beef).to_ne_bytes();
    little.reverse();
    assert_eq!(little, Endian::Big.convert(0xdead_beef).to_ne_bytes());
}

#[test]
fn header_is_built() {
    let header = SwapHeader::new()
        .label("name")
        .unwrap_or_else(|_| panic!("label"))
        .pages(10)
        .unwrap_or_else(|_| panic!("pages"))
        .uuid([9; 16])
        .nr_badpages(&[3, 4], 4096)
        .unwrap_or_else(|_| panic!("bad pages"));
    assert_eq!(header.version, 1);
    assert_eq!(header.last_page, 9);
    assert_eq!(header.nr_badpages, 2);
    assert_eq!(header.uuid, [9; 16]);
    assert_eq!(&header.label, b"name\0\0\0\0\0\0\0\0\0\0\0\0");
    assert_eq!(header.badpages, [0]);
    assert!(header.bootbits.iter().all(|b| *b == 0));
    assert!(header.padding.iter().all(|w| *w == 0));
    let header = header.set_endian(Endian::Big);
    assert_eq!(header.version.to_ne_bytes(), [0, 0, 0, 1]);
    assert_eq!(header.last_page.to_ne_bytes(), [0, 0, 0, 9]);
    assert_eq!(header.nr_badpages.to_ne_bytes(), [0, 0, 0, 2]);
    let header = header.set_endian(Endian::Big);
    assert_eq!((header.version, header.last_page, header.nr_badpages), (1, 9, 2));
}

#[test]
fn header_fields_are_independent() {
    let a = SwapHeader::new().label("x").ok().unwrap().pages(12).ok().unwrap();
    let b = SwapHeader::new().pages(12).ok().unwrap().label("x").ok().unwrap();
    assert_eq!((a.label, a.last_page), (b.label, b.last_page));
}

#[test]
fn header_refuses() {
    let e = SwapHeader::new().label("seventeen letters").err().unwrap();
    assert!(matches!(e, MkswapError::TooLongLabel));
    let e = SwapHeader::new().pages(9).err().unwrap();
    assert!(matches!(e, MkswapError::TooFewPages { pages: 9 }));
    // (1550 - 10 - 1536) / 4 is one
    assert!(SwapHeader::new().nr_badpages(&[1], 1550).is_ok());
    let e = SwapHeader::new().nr_badpages(&[1, 2], 1550).err().unwrap();
    assert!(matches!(e, MkswapError::MaxBadPagesExceeded { max_badpages: 1 }));
    assert!(SwapHeader::new().nr_badpages(&[], 1546).is_ok());
}

#[test]
fn second_label_covers_the_first_in_part() {
    let header = SwapHeader::new().label("longer").ok().unwrap().label("abc").ok().unwrap();
    assert_eq!(&header.label[..7], b"abcger\0");
}

#[test]
fn header_is_written_into_a_page() {
    let header = SwapHeader::new().label("name").ok().unwrap().pages(258).ok().unwrap();
    let header = header.uuid([9; 16]).set_endian(Endian::Little);
    let mut page = vec![0xffu8; 2048];
    header.write_to(&mut page, 2048);
    assert_eq!(page.len(), 2048);
    assert!(page[..1024].iter().all(|b| *b == 0));
    assert_eq!(page[1024..1036], [1, 0, 0, 0, 1, 1, 0, 0, 0, 0, 0, 0]);
    assert_eq!(page[1036..1052], [9; 16]);
    assert_eq!(&page[1052..1068], b"name\0\0\0\0\0\0\0\0\0\0\0\0");
    assert!(page[1068..2038].iter().all(|b| *b == 0xff));
    assert_eq!(&page[2038..], b"SWAPSPACE2");
    let mut short: Vec<u8> = Vec::new();
    header.write_to(&mut short, 2048);
    assert_eq!(short.len(), 2048);
    assert_eq!(&short[2038..], b"SWAPSPACE2");
}

#[test]
fn writing_extends_a_buffer() {
    let mut buf = vec![1u8, 2, 3];
    write_at(&mut buf, 1, &[9]);
    assert_eq!(buf, [1, 9, 3]);
    write_at(&mut buf, 2, &[7, 8]);
    assert_eq!(buf, [1, 9, 7, 8]);
    write_at(&mut buf, 6, &[5]);
    assert_eq!(buf, [1, 9, 7, 8, 0, 0, 5]);
    write_at(&mut buf, 20, &[]);
    assert_eq!(buf.len(), 7);
}

#[test]
fn header_size_has_room_for_one_bad_page() {
    assert_eq!(SWAP_HEADER_SIZE, 1540);
}

#[test]
fn other_builder_builds() {
    let header = swapheader::SwapHeader::new()
        .label(String::from("name"))
        .unwrap_or_else(|_| panic!("label"))
        .uuid([9; 16])
        .pages(10)
        .unwrap_or_else(|_| panic!("pages"))
        .bad_pages(vec![3, 4, 5], 4096)
        .unwrap_or_else(|_| panic!("bad pages"));
    assert_eq!(header.version, 1);
    assert_eq!(header.last_page, 9);
    assert_eq!(header.nr_badpages, 2);
    assert_eq!(header.uuid, [9; 16]);
    assert_eq!(&header.volume_name, b"name\0\0\0\0\0\0\0\0\0\0\0\0");
    let header = header.bad_pages(Vec::new(), 4096).ok().unwrap();
    assert_eq!(header.nr_badpages, 0);
}

#[test]
fn other_builder_refuses() {
    let e = swapheader::SwapHeader::new().label(String::from("seventeen letters")).err().unwrap();
    assert_eq!(e, swapheader::MkswapError::TooLongLabel);
    assert_eq!(e.to_string(), "Label is too long, maximum size is 16 characters");
    let e = swapheader::SwapHeader::new().pages(9).err().unwrap();
    assert_eq!(e, swapheader::MkswapError::TooFewPages { pages: 9 });
    assert_eq!(e.to_string(), "Too few pages for a swap area (9), minimum is 10");
    // (1550 - 1546) / 4 is one, and a list of three counts as two
    assert!(swapheader::SwapHeader::new().bad_pages(vec![1, 2], 1550).is_ok());
    let e = swapheader::SwapHeader::new().bad_pages(vec![1, 2, 3], 1550).err().unwrap();
    assert_eq!(
        e,
        swapheader::MkswapError::MaxBadPagesExceeded { bad_pages: 2, max_badpages: 1 }
    );
    assert_eq!(e.to_string(), "Too many bad pages detected: 2/1");
}

#[test]
fn errors_have_messages() {
    assert_eq!(
        MkswapError::TooLongLabel.to_string(),
        "Label is too long, maximum size is 16 characters"
    );
    assert_eq!(
        MkswapError::TooFewPages { pages: 7 }.to_string(),
        "Too few pages for a swap area (7), minimum is 10"
    );
    assert_eq!(
        MkswapError::MaxBadPagesExceeded { max_badpages: 637 }.to_string(),
        "Too many bad pages: 637"
    );
    assert_eq!(
        MkswapError::SwapAreaTooSmall { min_swapsize: 40959 }.to_string(),
        "Swap area needs to be at least 39 KiB"
    );
    assert_eq!(MkswapError::IoError { msg: String::from("a") }.to_string(), "a");
    assert_eq!(MkswapError::UsageError { msg: String::from("b") }.to_string(), "b");
}

#[test]
fn page_size_is_told() {
    let first = PageSizeQuery::PageSize;
    let second = PageSizeQuery::PageSizeAlias;
    assert!(matches!(getpagesize(first, 4096), PageSizeAnswer::Known(4096)));
    assert!(matches!(getpagesize(first, 0), PageSizeAnswer::Ask(PageSizeQuery::PageSizeAlias)));
    assert!(matches!(getpagesize(second, 16384), PageSizeAnswer::Known(16384)));
    assert!(matches!(
        getpagesize(second, -1),
        PageSizeAnswer::Failed(MkswapError::IoError { .. })
    ));
}

#[test]
fn page_size_is_chosen() {
    let choice = choose_page_size(None, false, 4096).ok().unwrap();
    assert_eq!((choice.size, choice.notice), (4096, None));
    let choice = choose_page_size(Some(4096), false, 4096).ok().unwrap();
    assert_eq!((choice.size, choice.notice), (4096, None));
    let choice = choose_page_size(Some(8192), false, 4096).ok().unwrap();
    assert_eq!(choice.size, 8192);
    assert_eq!(
        choice.notice.unwrap(),
        "Using user-specified page size 8192, instead of the system value 4096"
    );
    // the smallest power of two with room for a header is 2048
    assert!(choose_page_size(Some(2048), false, 4096).is_ok());
    for size in [0, 1, 1024, 1550, 3000, 4097] {
        let e = choose_page_size(Some(size), false, 4096).err().unwrap();
        assert_eq!(e.to_string(), format!("Bad user-specified page size {size}"));
        assert_eq!(choose_page_size(Some(size), true, 4096).ok().unwrap().size, size);
    }
}

#[test]
fn smallest_area_has_ten_pages() {
    assert_eq!(min_swapsize(4096), 40960);
    assert_eq!(min_swapsize(0), 0);
    assert_eq!(min_swapsize(usize::MAX), u64::MAX);
}

#[test]
fn area_holds_whole_pages() {
    let plan = plain_request().plan(4096).ok().unwrap();
    let area = plan.area(45055).ok().unwrap();
    assert_eq!(area.pages, 10);
    let plan = plain_request().plan(4096).ok().unwrap();
    let e = plan.area(40959).err().unwrap();
    assert!(matches!(e, MkswapError::SwapAreaTooSmall { min_swapsize: 40960 }));
}

#[test]
fn created_file_has_to_be_large_enough() {
    let mut options = plain_options();
    options.file = true;
    options.filesize = Some(40959);
    let request = check_options(options, Some(Endian::Big), Ok([0; 16])).ok().unwrap();
    let e = request.plan(4096).err().unwrap();
    assert!(matches!(e, MkswapError::SwapAreaTooSmall { min_swapsize: 40960 }));
    let mut options = plain_options();
    options.file = true;
    options.filesize = Some(40960);
    let request = check_options(options, Some(Endian::Big), Ok([0; 16])).ok().unwrap();
    let plan = request.plan(4096).ok().unwrap();
    assert_eq!(plan.size_source(true, 5), SizeSource::Known(40960));
    assert!(plan.area(40960).is_ok());
}

#[test]
fn size_comes_from_the_right_source() {
    let plan = plain_request().plan(4096).ok().unwrap();
    assert_eq!(plan.size_source(true, 5), SizeSource::BlockDevice);
    assert_eq!(plan.size_source(false, 5), SizeSource::Known(5));
}

#[test]
fn image_is_the_rest_of_the_first_page() {
    let area = plain_request().plan(2048).ok().unwrap().area(20480).ok().unwrap();
    let image = area.image(&[2, 5]).ok().unwrap();
    assert_eq!(image.position, 1024);
    assert_eq!(image.bytes.len(), 1024);
    assert_eq!(image.bytes[..4], 1u32.to_ne_bytes());
    assert_eq!(image.bytes[4..8], 9u32.to_ne_bytes());
    assert_eq!(image.bytes[8..12], 2u32.to_ne_bytes());
    assert_eq!(image.bytes[12..28], [7; 16]);
    assert_eq!(image.bytes[512..516], 2u32.to_ne_bytes());
    assert_eq!(image.bytes[516..520], 5u32.to_ne_bytes());
    assert_eq!(&image.bytes[1014..], b"SWAPSPACE2");
    assert_eq!(
        image.summary,
        "Setting up swapspace version 1, size = 18 KiB (18432 bytes)\n\
         no label, UUID=07070707-0707-0707-0707-070707070707"
    );
    assert!(area.start_check().is_none());
}

#[test]
fn opening_takes_its_steps() {
    let step = |op, reply| match open_device_step("file", 65536, op, reply) {
        OpenProgress::Next(op) => op,
        _ => panic!("the end"),
    };
    let ok = |n: i64| -> Result<i64, String> { Ok(n) };
    assert_eq!(open_device(true), OpenOperation::Open { create: true });
    let op = step(OpenOperation::Open { create: true }, ok(0));
    assert_eq!(op, OpenOperation::SetPermissions { mode: 0o600 });
    let op = step(op, ok(0));
    assert_eq!(op, OpenOperation::QueryFilesystem);
    assert_eq!(step(op, ok(0xef53)), OpenOperation::Allocate { len: 65536 });
    let op = step(op, ok(BTRFS_SUPER_MAGIC));
    assert_eq!(op, OpenOperation::ReadFlags);
    let op = step(op, ok(-0x7fff_ffff));
    assert_eq!(op, OpenOperation::WriteFlags { flags: -0x7fff_ffff | FS_NOCOW_FL });
    let op = step(op, ok(0));
    assert_eq!(op, OpenOperation::Allocate { len: 65536 });
    assert!(matches!(open_device_step("file", 65536, op, ok(0)), OpenProgress::Opened));
}

#[test]
fn opening_an_existing_device_does_nothing_else() {
    let op = open_device(false);
    assert_eq!(op, OpenOperation::Open { create: false });
    assert!(matches!(open_device_step("sda1", 0, op, Ok(0)), OpenProgress::Opened));
}

#[test]
fn opening_fails_with_its_operation() {
    for op in [
        OpenOperation::SetPermissions { mode: 0o600 },
        OpenOperation::QueryFilesystem,
        OpenOperation::ReadFlags,
        OpenOperation::WriteFlags { flags: 0 },
    ] {
        let OpenProgress::Failed(e) = open_device_step("f", 1, op, Err(String::from("no"))) else {
            panic!("not failed")
        };
        assert_eq!(e.to_string(), "no");
    }
    let op = OpenOperation::Allocate { len: 1 };
    assert!(matches!(
        open_device_step("f", 1, op, Err(String::from("no"))),
        OpenProgress::Opened
    ));
}

#[test]
fn block_size_is_known_or_in_a_file() {
    assert!(matches!(get_blockdev_size("sda", 0, 512), BlockSize::Known(512)));
    for (status, size) in [(0, 0), (-1, 512), (-1, 0)] {
        let BlockSize::InFile(path) = get_blockdev_size("sda", status, size) else {
            panic!("known")
        };
        assert_eq!(path, "/sys/class/block/sda/size");
    }
}

#[test]
fn sectors_have_512_bytes() {
    assert_eq!(parse_blockdev_size("sda", "80\n").ok(), Some(40960));
    assert_eq!(parse_blockdev_size("sda", " \t+0080 \u{2003}\n").ok(), Some(40960));
    assert_eq!(parse_blockdev_size("sda", "0").ok(), Some(0));
    assert_eq!(
        parse_blockdev_size("sda", "36028797018963967").ok(),
        Some(18446744073709551104)
    );
    assert_eq!(
        parse_blockdev_size("sda", "36028797018963968").err().unwrap().to_string(),
        "Unable to determine size of block device"
    );
    assert_eq!(
        parse_blockdev_size("sda", "").err().unwrap().to_string(),
        "empty size file for block device sda"
    );
    assert_eq!(
        parse_blockdev_size("sda", "\n").err().unwrap().to_string(),
        "Invalid size value for block device sda: cannot parse integer from empty string"
    );
    assert_eq!(
        parse_blockdev_size("sda", "8 0\n").err().unwrap().to_string(),
        "Invalid size value for block device sda: invalid digit found in string"
    );
    assert_eq!(
        parse_blockdev_size("sda", "18446744073709551616").err().unwrap().to_string(),
        "Invalid size value for block device sda: number too large to fit in target type"
    );
}

#[test]
fn search_finds_short_pages() {
    let mut scan = check_device(4096, 5, 100, true);
    let mut positions: Vec<i64> = Vec::new();
    let mut reports: Vec<String> = Vec::new();
    for count in [4096, 4095, 0, -1] {
        assert!(scan.is_pending());
        assert!(scan.has_position());
        positions.push(scan.position());
        reports.extend(scan.record(count));
    }
    assert!(!scan.is_pending());
    assert_eq!(positions, [4196, 8292, 12388, 16484]);
    assert_eq!(scan.badpages, [2, 3, 4]);
    assert_eq!(
        reports,
        ["bad page at index 2", "bad page at index 3", "bad page at index 4"]
    );
    assert!(!check_device(4096, 1, 0, false).is_pending());
    assert!(!check_device(4096, 0, 0, false).is_pending());
}

#[test]
fn search_position_is_signed() {
    let scan = check_device(4096, 5, u64::MAX, false);
    assert!(scan.has_position());
    assert_eq!(scan.position(), 4095);
    let scan = check_device(4096, 5, i64::MAX as u64 - 4095, false);
    assert!(!scan.has_position());
    let scan = check_device(4096, 5, i64::MAX as u64 - 4096, false);
    assert!(scan.has_position());
    assert_eq!(scan.position(), i64::MAX);
}

#[test]
fn endianness_is_named() {
    assert_eq!(parse_endianness("native"), Some(Endian::Native));
    assert_eq!(parse_endianness("LiTTle"), Some(Endian::Little));
    assert_eq!(parse_endianness("BIG"), Some(Endian::Big));
    assert_eq!(parse_endianness(""), None);
    assert_eq!(parse_endianness("big "), None);
    assert_eq!(endian_from_name("big"), Some(Endian::Big));
    assert_eq!(endian_from_name("BIG"), None);
}

#[test]
fn options_are_checked_in_order() {
    let mut options = plain_options();
    options.device = None;
    options.label = Some(String::from("seventeen letters"));
    let e = check_options(options, None, Err(String::from("bad"))).err().unwrap();
    assert_eq!(
        e.to_string(),
        "Nowhere to set up swap on?\nTry 'rsmkswap --help' for more information."
    );
    let mut options = plain_options();
    options.uuid = Some(String::from("u"));
    let e = check_options(options, Some(Endian::Big), Err(String::from("bad"))).err().unwrap();
    assert!(matches!(e, MkswapError::UsageError { .. }));
    assert_eq!(e.to_string(), "Invalid UUID 'u': bad");
}

#[test]
fn told_uuid_is_read_back() {
    let area = plain_request().plan(4096).ok().unwrap().area(40960).ok().unwrap();
    let summary = area.image(&[]).ok().unwrap().summary;
    let told = &summary[summary.len() - 36..];
    let mut options = plain_options();
    options.uuid = Some(String::from(told));
    assert_eq!(mkswap(options).ok().unwrap().uuid, [7; 16]);
}

#[test]
fn arguments_are_read() {
    let args = [String::from("rsmkswap"), String::from("-Lx"), String::from("disk")];
    let options = read_arguments(&args).ok().unwrap();
    assert_eq!(options.device.as_deref(), Some("disk"));
    assert_eq!(options.label.as_deref(), Some("x"));
    assert_eq!(options.uuid, None);
    assert_eq!(options.filesize, None);
    assert_eq!(read_arguments(&args[..2]).err(), Some(2));
}

#[test]
fn command_line_is_described() {
    let command = clapp();
    assert_eq!(command.get_name(), "rsmkswap");
    assert_eq!(command.get_version(), Some("0.1.0"));
    let names: Vec<String> = command.get_arguments().map(|a| a.get_id().to_string()).collect();
    assert_eq!(
        names,
        [
            "device", "label", "uuid", "file", "check", "filesize", "pagesize", "verbose", "force",
            "endianness", "offset"
        ]
    );
    let longs: Vec<Option<&str>> = command.get_arguments().map(|a| a.get_long()).collect();
    assert_eq!(longs[5], Some("size"));
    let shorts: Vec<char> = command.get_arguments().filter_map(|a| a.get_short()).collect();
    assert_eq!(shorts, ['L', 'u', 'F', 'c', 's', 'P', 'v', 'f', 'e', 'o']);
}

#[test]
fn numbers_are_written_in_decimal() {
    let mut out = String::from("n=");
    append_decimal(&mut out, 0);
    append_decimal(&mut out, 1024);
    append_decimal(&mut out, u64::MAX);
    assert_eq!(out, "n=0102418446744073709551615");
}

#[test]
fn text_is_cut() {
    assert_eq!(trim("\u{a0} a b\r\n"), "a b");
    assert_eq!(trim(" \n"), "");
    assert_eq!(strip_prefix("/dev/sda", "/dev/"), Some("sda"));
    assert_eq!(strip_prefix("/de", "/dev/"), None);
    assert!(same_text("é", "é"));
    assert!(!same_text("a", "A"));
}

#[test]
fn path_has_a_last_component() {
    assert_eq!(file_name("/usr/bin/"), Some("bin"));
    assert_eq!(file_name("tmp/foo.txt"), Some("foo.txt"));
    assert_eq!(file_name("foo.txt/."), Some("foo.txt"));
    assert_eq!(file_name("foo.txt/.//"), Some("foo.txt"));
    assert_eq!(file_name("foo.txt/.."), None);
    assert_eq!(file_name("/"), None);
    assert_eq!(file_name(""), None);
    assert_eq!(file_name("."), None);
}

#[test]
fn uuid_has_four_notations() {
    let uuid = |text: &str| {
        let mut options = plain_options();
        options.uuid = Some(String::from(text));
        mkswap(options).ok().map(|request| request.uuid)
    };
    let bytes = [
        0xf9, 0x16, 0x8c, 0x5e, 0xce, 0xb2, 0x4f, 0xaa, 0xb6, 0xbf, 0x32, 0x9b, 0xf3, 0x9f, 0xa1, 0xe4,
    ];
    for text in [
        "f9168c5eceb24faab6bf329bf39fa1e4",
        "F9168C5ECEB24FAAB6BF329BF39FA1E4",
        "F9168C5E-CEB2-4faa-B6BF-329BF39FA1E4",
        "{f9168c5e-ceb2-4faa-b6bf-329bf39fa1e4}",
        "urn:uuid:f9168c5e-ceb2-4faa-b6bf-329bf39fa1e4",
        "Urn:UUID:F9168c5e-ceb2-4faa-b6bf-329bf39fa1e4",
    ] {
        assert_eq!(uuid(text), Some(bytes));
    }
    for text in [
        "",
        "f9168c5eceb24faab6bf329bf39fa1e",
        "f9168c5eceb24faab6bf329bf39fa1eg",
        "f9168c5e-ceb24-faa-b6bf-329bf39fa1e4",
        "f9168c5e-ceb2-4faa-b6bf-329bf39fa1e4 ",
        "{f9168c5eceb24faab6bf329bf39fa1e4}",
        "(f9168c5e-ceb2-4faa-b6bf-329bf39fa1e4)",
        "urn:uuid:f9168c5eceb24faab6bf329bf39fa1e4",
        "urn-uuid:f9168c5e-ceb2-4faa-b6bf-329bf39fa1e4",
        "f9168c5eceb24faab6bf329bf39fa1\u{e9}",
        "f9168c5eceb24faab6bf329bf39fa1e\u{ff14}",
    ] {
        assert_eq!(uuid(text), None);
    }
}
