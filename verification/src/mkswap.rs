//! From the arguments of the program to a request for a swap area.

use vstd::prelude::*;
use vstd::utf8::{encode_utf8, is_ascii_chars};

use crate::cli::{parsed, read_arguments, rsmkswap_settings, Options, OptionsView};
use crate::endian::Endian;
use crate::error::{outcome, ErrorView, MkswapError, SWAP_LABEL_LENGTH};
use crate::identity::{
    denotes_uuid, hex_bytes, hyphenated, is_random_uuid, lemma_hyphenated, parse_uuid,
    random_uuid, uuid_digits, uuid_from_text,
};
use crate::text::{
    ascii_lowercase, file_name, file_name_of, lowercase, opt_text, same_text, strip_prefix, texts,
    to_lowercase, without_prefix,
};

verus! {

/// A request for a swap area that passed the checks that need nothing but its options.
pub struct Request {
    /// The path of the device or file.
    pub device: String,
    /// The name of the device or file.
    pub devname: String,
    /// The label of the area; empty for none.
    pub label: String,
    /// The byte order of the header.
    pub endianness: Endian,
    /// The UUID of the area.
    pub uuid: [u8; 16],
    /// Whether to create a file.
    pub create: bool,
    /// The size of the file to create.
    pub filesize: u64,
    /// The page size that was asked for.
    pub pagesize: Option<usize>,
    /// Whether to accept any page size.
    pub force: bool,
    /// Whether to look for bad pages.
    pub check: bool,
    /// Whether to report bad pages one by one.
    pub verbose: bool,
    /// Where the area starts on the device.
    pub offset: u64,
}

/// A [`Request`] as a mathematical value.
pub struct RequestView {
    pub device: Seq<char>,
    pub devname: Seq<char>,
    pub label: Seq<char>,
    pub endianness: Endian,
    pub uuid: Seq<u8>,
    pub create: bool,
    pub filesize: u64,
    pub pagesize: Option<usize>,
    pub force: bool,
    pub check: bool,
    pub verbose: bool,
    pub offset: u64,
}

impl View for Request {
    type V = RequestView;

    open spec fn view(&self) -> RequestView {
        RequestView {
            device: self.device@,
            devname: self.devname@,
            label: self.label@,
            endianness: self.endianness,
            uuid: self.uuid@,
            create: self.create,
            filesize: self.filesize,
            pagesize: self.pagesize,
            force: self.force,
            check: self.check,
            verbose: self.verbose,
            offset: self.offset,
        }
    }
}

impl RequestView {
    /// The label fits in a header.
    pub open spec fn wf(self) -> bool {
        &&& encode_utf8(self.label).len() <= SWAP_LABEL_LENGTH
        &&& self.uuid.len() == 16
    }
}

/// The byte order with a name in lower case.
pub open spec fn endian_named(name: Seq<char>) -> Option<Endian> {
    if name == "native"@ {
        Some(Endian::Native)
    } else if name == "little"@ {
        Some(Endian::Little)
    } else if name == "big"@ {
        Some(Endian::Big)
    } else {
        None
    }
}

/// The byte order that was asked for by name, whatever the case of its letters.
pub open spec fn requested_endian(name: Option<Seq<char>>) -> Option<Endian> {
    match name {
        Some(s) => endian_named(lowercase(s)),
        None => Some(Endian::Native),
    }
}

/// `uuid` is the UUID that was asked for, or the reason why there is none, or, where none was
/// asked for, some random UUID.
pub open spec fn answers_uuid(
    requested: Option<Seq<char>>,
    uuid: Result<Seq<u8>, Seq<char>>,
) -> bool {
    match requested {
        Some(s) => uuid == uuid_from_text(s),
        None => uuid is Ok && is_random_uuid(uuid->Ok_0),
    }
}

/// The name of a device: the last component of its path, or else the path without `/dev/`.
pub open spec fn device_name(device: Seq<char>) -> Seq<char> {
    match file_name_of(device) {
        Some(name) => name,
        None => match without_prefix(device, "/dev/"@) {
            Some(rest) => rest,
            None => device,
        },
    }
}

/// The text, empty where there is none.
pub open spec fn text_or_empty(s: Option<Seq<char>>) -> Seq<char> {
    match s {
        Some(t) => t,
        None => Seq::empty(),
    }
}

/// The first thing that is wrong with some options, given the byte order that they name: there
/// is no device, the label is too long, or there is no such byte order.
pub open spec fn fault_of(o: OptionsView, endianness: Option<Endian>) -> Option<ErrorView> {
    if o.device is None {
        Some(
            ErrorView::UsageError {
                msg: "Nowhere to set up swap on?\nTry 'rsmkswap --help' for more information."@,
            },
        )
    } else if encode_utf8(text_or_empty(o.label)).len() > SWAP_LABEL_LENGTH {
        Some(ErrorView::TooLongLabel)
    } else if endianness is None {
        Some(
            ErrorView::UsageError {
                msg: "invalid endianness "@ + text_or_empty(o.endianness) + " is not supported"@,
            },
        )
    } else {
        None
    }
}

/// The request that some options make, given the byte order and the UUID that they name, or
/// the first thing that is wrong with them.
pub open spec fn request_of(
    o: OptionsView,
    endianness: Option<Endian>,
    uuid: Result<Seq<u8>, Seq<char>>,
) -> Result<RequestView, ErrorView> {
    if fault_of(o, endianness) is Some {
        Err(fault_of(o, endianness)->0)
    } else {
        match uuid {
            Err(text) => Err(
                ErrorView::UsageError {
                    msg: "Invalid UUID '"@ + text_or_empty(o.uuid) + "': "@ + text,
                },
            ),
            Ok(bytes) => Ok(
                RequestView {
                    device: o.device->0,
                    devname: device_name(o.device->0),
                    label: text_or_empty(o.label),
                    endianness: endianness->0,
                    uuid: bytes,
                    create: o.file,
                    filesize: match o.filesize {
                        Some(n) => n,
                        None => 0,
                    },
                    pagesize: o.pagesize,
                    force: o.force,
                    check: o.check,
                    verbose: o.verbose,
                    offset: match o.offset {
                        Some(n) => n,
                        None => 0,
                    },
                },
            ),
        }
    }
}

/// The byte order with a name in lower case.
pub fn endian_from_name(name: &str) -> (r: Option<Endian>)
    ensures
        r == endian_named(name@),
{
    if same_text(name, "native") {
        Some(Endian::Native)
    } else if same_text(name, "little") {
        Some(Endian::Little)
    } else if same_text(name, "big") {
        Some(Endian::Big)
    } else {
        None
    }
}

/// The byte order that was asked for by name. In an ASCII name the case of the letters does
/// not matter.
pub fn parse_endianness(name: &str) -> (r: Option<Endian>)
    ensures
        r == endian_named(lowercase(name@)),
        name.is_ascii() ==> r == endian_named(name@.map_values(|c: char| ascii_lowercase(c))),
{
    endian_from_name(to_lowercase(name).as_str())
}

/// The name of a device: the last component of its path, or else the path without `/dev/`.
fn name_device(device: &str) -> (r: String)
    ensures
        r@ == device_name(device@),
{
    match file_name(device) {
        Some(name) => name.to_owned(),
        None => match strip_prefix(device, "/dev/") {
            Some(rest) => rest.to_owned(),
            None => device.to_owned(),
        },
    }
}

/// A UUID, or the reason why there is none, as mathematical values.
pub open spec fn uuid_view(uuid: Result<[u8; 16], String>) -> Result<Seq<u8>, Seq<char>> {
    match uuid {
        Ok(bytes) => Ok(bytes@),
        Err(text) => Err(text@),
    }
}

/// The text, empty where there is none.
fn or_empty(s: Option<String>) -> (r: String)
    ensures
        r@ == text_or_empty(opt_text(s)),
{
    match s {
        Some(t) => t,
        None => String::new(),
    }
}

/// The text, empty where there is none.
fn str_or_empty(s: &Option<String>) -> (r: &str)
    ensures
        r@ == text_or_empty(opt_text(*s)),
{
    match s {
        Some(t) => t.as_str(),
        None => {
            proof {
                reveal_strlit("");
            }
            assert(""@ =~= Seq::<char>::empty());
            ""
        },
    }
}

/// Finds the first thing that is wrong with some options, given the byte order that they name.
fn find_fault(options: &Options, endianness: Option<Endian>) -> (r: Option<MkswapError>)
    ensures
        match r {
            Some(e) => fault_of(options@, endianness) == Some(e@),
            None => fault_of(options@, endianness) is None,
        },
{
    let mut msg: String = String::new();
    if options.device.is_none() {
        msg.append("Nowhere to set up swap on?\nTry 'rsmkswap --help' for more information.");
        assert(msg@
            =~= "Nowhere to set up swap on?\nTry 'rsmkswap --help' for more information."@);
        return Some(MkswapError::UsageError { msg });
    }
    if str_or_empty(&options.label).as_bytes().len() > SWAP_LABEL_LENGTH {
        return Some(MkswapError::TooLongLabel);
    }
    if endianness.is_none() {
        let name = str_or_empty(&options.endianness);
        msg.append("invalid endianness ");
        msg.append(name);
        msg.append(" is not supported");
        assert(msg@ =~= "invalid endianness "@ + name@ + " is not supported"@);
        return Some(MkswapError::UsageError { msg });
    }
    None
}

/// A request holds the switches and numbers of the options, as the user gave them.
pub open spec fn keeps_options(options: Options, request: Request) -> bool {
    &&& options.device matches Some(device) && request.device@ == device@
    &&& options.label matches Some(label) ==> request.label@ == label@
    &&& request.create == options.file
    &&& options.filesize matches Some(n) ==> request.filesize == n
    &&& request.pagesize == options.pagesize
    &&& request.force == options.force
    &&& request.check == options.check
    &&& request.verbose == options.verbose
    &&& options.offset matches Some(n) ==> request.offset == n
}

/// Checks options, given the byte order and the UUID that they name.
pub fn check_options(
    options: Options,
    endianness: Option<Endian>,
    uuid: Result<[u8; 16], String>,
) -> (r: Result<Request, MkswapError>)
    ensures
        outcome(r) == request_of(options@, endianness, uuid_view(uuid)),
        r matches Ok(request) ==> request@.wf() && keeps_options(options, request),
        r matches Ok(request) ==> (uuid matches Ok(bytes) && request.uuid == bytes),
{
    match find_fault(&options, endianness) {
        Some(e) => Err(e),
        None => make_request(options, endianness, uuid),
    }
}

/// Makes a request of options with which nothing is wrong, but for the UUID that they name.
fn make_request(
    options: Options,
    endianness: Option<Endian>,
    uuid: Result<[u8; 16], String>,
) -> (r: Result<Request, MkswapError>)
    requires
        fault_of(options@, endianness) is None,
    ensures
        outcome(r) == request_of(options@, endianness, uuid_view(uuid)),
        r matches Ok(request) ==> request@.wf() && keeps_options(options, request),
        r matches Ok(request) ==> (uuid matches Ok(bytes) && request.uuid == bytes),
{
    let uuid = match uuid {
        Ok(uuid) => uuid,
        Err(text) => {
            let name = str_or_empty(&options.uuid);
            let mut msg: String = String::new();
            msg.append("Invalid UUID '");
            msg.append(name);
            msg.append("': ");
            msg.append(text.as_str());
            assert(msg@ =~= "Invalid UUID '"@ + name@ + "': "@ + text@);
            return Err(MkswapError::UsageError { msg });
        },
    };
    let device = options.device.unwrap();
    let endianness = endianness.unwrap();
    let label = or_empty(options.label);
    let devname = name_device(device.as_str());
    Ok(
        Request {
            device,
            devname,
            label,
            endianness,
            uuid,
            create: options.file,
            filesize: match options.filesize {
                Some(n) => n,
                None => 0,
            },
            pagesize: options.pagesize,
            force: options.force,
            check: options.check,
            verbose: options.verbose,
            offset: match options.offset {
                Some(n) => n,
                None => 0,
            },
        },
    )
}

/// Turns options into a request for a swap area. Where no UUID was asked for, one is drawn. A
/// UUID in the notation in which it is told to the user is taken as it is, and in the name of a
/// byte order the case of ASCII letters does not matter.
pub fn mkswap(options: Options) -> (r: Result<Request, MkswapError>)
    ensures
        exists|uuid: Result<Seq<u8>, Seq<char>>|
            answers_uuid(options@.uuid, uuid) && outcome(r) == #[trigger] request_of(
                options@,
                requested_endian(options@.endianness),
                uuid,
            ),
        forall|b: Seq<u8>|
            b.len() == 16 && options@.uuid == Some(#[trigger] hyphenated(b)) ==> outcome(r)
                == request_of(options@, requested_endian(options@.endianness), Ok(b)),
        options@.uuid matches Some(s) ==> !denotes_uuid(s) ==> r is Err,
        options@.endianness matches Some(s) ==> is_ascii_chars(s) ==> requested_endian(Some(s))
            == endian_named(s.map_values(|c: char| ascii_lowercase(c))),
        options@.uuid matches Some(s) ==> (r matches Ok(request) ==> denotes_uuid(s)
            && request.uuid@ == hex_bytes(uuid_digits(s)->0)),
        r matches Ok(request) ==> request@.wf() && keeps_options(options, request),
{
    let endianness = match &options.endianness {
        Some(name) => parse_endianness(name.as_str()),
        None => Some(Endian::Native),
    };
    proof {
        assert forall|b: Seq<u8>|
            b.len() == 16 && options@.uuid == Some(#[trigger] hyphenated(b)) implies uuid_from_text(
            hyphenated(b),
        ) == Ok::<Seq<u8>, Seq<char>>(b) by {
            lemma_hyphenated(b);
        }
    }
    // a UUID is drawn only where nothing else is wrong
    if let Some(e) = find_fault(&options, endianness) {
        proof {
            let marks = Seq::new(16, |i: int| if i == 6 { 0x40u8 } else { 0x80u8 });
            let uuid = match options@.uuid {
                Some(s) => uuid_from_text(s),
                None => Ok(marks),
            };
            assert(answers_uuid(options@.uuid, uuid));
            assert(request_of(options@, endianness, uuid) == Err::<RequestView, ErrorView>(e@));
        }
        return Err(e);
    }
    let uuid = match &options.uuid {
        Some(text) => parse_uuid(text.as_str()),
        None => Ok(random_uuid()),
    };
    assert(answers_uuid(options@.uuid, uuid_view(uuid)));
    make_request(options, endianness, uuid)
}

/// What the arguments of the program come to.
pub enum Launch {
    /// The program exits with this status, after clap had its say.
    Exit { status: i32 },
    /// A swap area is to be set up.
    Proceed(Request),
}

/// A [`Launch`] as a mathematical value.
pub enum LaunchView {
    Exit { status: i32 },
    Proceed(RequestView),
}

impl View for Launch {
    type V = LaunchView;

    open spec fn view(&self) -> LaunchView {
        match *self {
            Launch::Exit { status } => LaunchView::Exit { status },
            Launch::Proceed(request) => LaunchView::Proceed(request@),
        }
    }
}

/// What the arguments of the program come to, given what clap made of them, and the UUID.
pub open spec fn launch_of(
    parse: Result<OptionsView, i32>,
    uuid: Result<Seq<u8>, Seq<char>>,
) -> Result<LaunchView, ErrorView> {
    match parse {
        Err(status) => Ok(LaunchView::Exit { status }),
        Ok(o) => match request_of(o, requested_endian(o.endianness), uuid) {
            Ok(request) => Ok(LaunchView::Proceed(request)),
            Err(e) => Err(e),
        },
    }
}

/// Turns the arguments of the program, the first of which is its name, into a request for a
/// swap area.
pub fn run(args: &[String]) -> (r: Result<Launch, MkswapError>)
    ensures
        ({
            let parse = parsed(rsmkswap_settings(), texts(args@));
            exists|uuid: Result<Seq<u8>, Seq<char>>|
                (parse is Ok ==> answers_uuid(parse->Ok_0.uuid, uuid)) && outcome(r)
                    == #[trigger] launch_of(parse, uuid)
        }),
        ({
            let parse = parsed(rsmkswap_settings(), texts(args@));
            parse matches Ok(o) ==> {
                &&& forall|b: Seq<u8>|
                    b.len() == 16 && o.uuid == Some(#[trigger] hyphenated(b)) ==> outcome(r)
                        == launch_of(parse, Ok(b))
                &&& o.uuid matches Some(s) ==> !denotes_uuid(s) ==> r is Err
                &&& o.endianness matches Some(s) ==> is_ascii_chars(s) ==> requested_endian(Some(s))
                    == endian_named(s.map_values(|c: char| ascii_lowercase(c)))
            }
        }),
        r matches Ok(Launch::Proceed(request)) ==> request@.wf() && (request.create
            || request.filesize == 0),
        r matches Ok(Launch::Exit { status }) ==> status == 0 || status == 2,
{
    let ghost parse = parsed(rsmkswap_settings(), texts(args@));
    match read_arguments(args) {
        Err(status) => {
            let r = Ok(Launch::Exit { status });
            assert(outcome(r) == launch_of(parse, Err(Seq::empty())));
            r
        },
        Ok(options) => {
            let ghost o = options@;
            let request = mkswap(options);
            let ghost uuid = choose|uuid: Result<Seq<u8>, Seq<char>>|
                answers_uuid(o.uuid, uuid) && outcome(request) == #[trigger] request_of(
                    o,
                    requested_endian(o.endianness),
                    uuid,
                );
            let r = match request {
                Ok(request) => Ok(Launch::Proceed(request)),
                Err(e) => Err(e),
            };
            assert(outcome(r) == launch_of(parse, uuid));
            r
        },
    }
}

} // verus!
