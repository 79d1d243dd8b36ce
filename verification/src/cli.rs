//! The command line.

use clap::builder::{RangedU64ValueParser, Resettable};
use clap::{Arg, ArgAction, Command, Id};
use std::str::FromStr;
use vstd::prelude::*;

use crate::text::{opt_text, texts};

verus! {

/// The command line of a program, as it is being put together.
#[verifier::external_type_specification]
#[verifier::external_body]
pub struct ExCommand(Command);

/// One argument of a command line.
pub struct ArgDef {
    /// The name by which the program asks for the argument.
    pub id: &'static str,
    /// The letter behind `-`.
    pub short: Option<char>,
    /// The word behind `--`. An argument with neither is found by its position.
    pub long: Option<&'static str>,
    /// Whether the command line is refused without it.
    pub required: bool,
    /// The argument without which this one is refused.
    pub needs: Option<&'static str>,
    /// The name of its value in the help text.
    pub value_name: Option<&'static str>,
    /// The help text.
    pub help: &'static str,
}

/// What an argument holds.
pub enum ArgKind {
    /// Whether it is there.
    Switch,
    /// A text.
    Text,
    /// A number of 64 bits.
    U64,
    /// A number of the machine's word size.
    Usize,
}

/// An [`ArgDef`] as a mathematical value.
pub struct ArgView {
    pub id: Seq<char>,
    pub short: Option<char>,
    pub long: Option<Seq<char>>,
    pub required: bool,
    pub needs: Option<Seq<char>>,
    pub value_name: Option<Seq<char>>,
    pub help: Seq<char>,
}

/// The text, `None` where there is none.
pub open spec fn opt_str(s: Option<&'static str>) -> Option<Seq<char>> {
    match s {
        Some(t) => Some(t@),
        None => None,
    }
}

impl View for ArgDef {
    type V = ArgView;

    open spec fn view(&self) -> ArgView {
        ArgView {
            id: self.id@,
            short: self.short,
            long: opt_str(self.long),
            required: self.required,
            needs: opt_str(self.needs),
            value_name: opt_str(self.value_name),
            help: self.help@,
        }
    }
}

/// What was put into a command line.
pub enum Setting {
    /// The name of the program, its version, its description, and whether a long argument
    /// may be shortened to an unambiguous prefix.
    Program { name: Seq<char>, version: Seq<char>, about: Seq<char>, infer_long_args: bool },
    /// An argument and what it holds.
    Argument { arg: ArgView, kind: ArgKind },
}

/// What a command line consists of, in the order in which it was put together.
pub uninterp spec fn settings(c: Command) -> Seq<Setting>;

/// `Command::new`, `Command::version`, `Command::about` and `Command::infer_long_args` of
/// clap: a command line without arguments.
#[verifier::external_body]
fn new_command(
    name: &'static str,
    version: &'static str,
    about: &'static str,
    infer_long_args: bool,
) -> (r: Command)
    ensures
        settings(r) == seq![
            Setting::Program { name: name@, version: version@, about: about@, infer_long_args },
        ],
{
    Command::new(name).version(version).about(about).infer_long_args(infer_long_args)
}

/// `Command::arg` of clap, for an argument that is either there or not.
/// `Arg::short` does not take a hyphen.
#[verifier::external_body]
fn add_switch(c: Command, arg: ArgDef) -> (r: Command)
    requires
        arg.short != Some('-'),
    ensures
        settings(r) == settings(c).push(Setting::Argument { arg: arg@, kind: ArgKind::Switch }),
{
    c.arg(
        Arg::new(arg.id)
            .short(arg.short)
            .long(arg.long)
            .action(ArgAction::SetTrue)
            .required(arg.required)
            .requires(Resettable::from(arg.needs.map(Id::from)))
            .value_name(arg.value_name)
            .help(arg.help),
    )
}

/// `Command::arg` of clap, for an argument that holds a text.
/// `Arg::short` does not take a hyphen.
#[verifier::external_body]
fn add_text(c: Command, arg: ArgDef) -> (r: Command)
    requires
        arg.short != Some('-'),
    ensures
        settings(r) == settings(c).push(Setting::Argument { arg: arg@, kind: ArgKind::Text }),
{
    c.arg(
        Arg::new(arg.id)
            .short(arg.short)
            .long(arg.long)
            .action(ArgAction::Set)
            .required(arg.required)
            .requires(Resettable::from(arg.needs.map(Id::from)))
            .value_name(arg.value_name)
            .help(arg.help),
    )
}

/// `Command::arg` of clap, for an argument that holds a number of 64 bits.
/// `Arg::short` does not take a hyphen.
#[verifier::external_body]
fn add_u64(c: Command, arg: ArgDef) -> (r: Command)
    requires
        arg.short != Some('-'),
    ensures
        settings(r) == settings(c).push(Setting::Argument { arg: arg@, kind: ArgKind::U64 }),
{
    c.arg(
        Arg::new(arg.id)
            .short(arg.short)
            .long(arg.long)
            .action(ArgAction::Set)
            .value_parser(RangedU64ValueParser::<u64>::new())
            .required(arg.required)
            .requires(Resettable::from(arg.needs.map(Id::from)))
            .value_name(arg.value_name)
            .help(arg.help),
    )
}

/// `Command::arg` of clap, for an argument that holds a number of the machine's word size.
/// `Arg::short` does not take a hyphen.
#[verifier::external_body]
fn add_usize(c: Command, arg: ArgDef) -> (r: Command)
    requires
        arg.short != Some('-'),
    ensures
        settings(r) == settings(c).push(Setting::Argument { arg: arg@, kind: ArgKind::Usize }),
{
    c.arg(
        Arg::new(arg.id)
            .short(arg.short)
            .long(arg.long)
            .action(ArgAction::Set)
            .value_parser(usize::from_str)
            .required(arg.required)
            .requires(Resettable::from(arg.needs.map(Id::from)))
            .value_name(arg.value_name)
            .help(arg.help),
    )
}

/// An argument and what it holds.
pub open spec fn argument(
    kind: ArgKind,
    id: Seq<char>,
    short: Option<char>,
    long: Option<Seq<char>>,
    required: bool,
    needs: Option<Seq<char>>,
    value_name: Option<Seq<char>>,
    help: Seq<char>,
) -> Setting {
    Setting::Argument {
        arg: ArgView { id, short, long, required, needs, value_name, help },
        kind,
    }
}

/// The command line of `rsmkswap`.
pub open spec fn rsmkswap_settings() -> Seq<Setting> {
    seq![
        Setting::Program {
            name: "rsmkswap"@,
            version: "0.1.0"@,
            about: "Set up a Linux swap area"@,
            infer_long_args: true,
        },
        argument(
            ArgKind::Text,
            "device"@,
            None,
            None,
            true,
            None,
            None,
            "block device or swap file"@,
        ),
        argument(
            ArgKind::Text,
            "label"@,
            Some('L'),
            Some("label"@),
            false,
            None,
            None,
            "set a label"@,
        ),
        argument(
            ArgKind::Text,
            "uuid"@,
            Some('u'),
            Some("uuid"@),
            false,
            None,
            None,
            "set the UUID to use"@,
        ),
        argument(
            ArgKind::Switch,
            "file"@,
            Some('F'),
            Some("file"@),
            false,
            Some("filesize"@),
            None,
            "create a swap file"@,
        ),
        argument(
            ArgKind::Switch,
            "check"@,
            Some('c'),
            Some("check"@),
            false,
            None,
            None,
            "check the swap device for bad pages"@,
        ),
        argument(
            ArgKind::U64,
            "filesize"@,
            Some('s'),
            Some("size"@),
            false,
            Some("file"@),
            Some("SIZE"@),
            "size of the swap file in bytes"@,
        ),
        argument(
            ArgKind::Usize,
            "pagesize"@,
            Some('P'),
            Some("pagesize"@),
            false,
            None,
            Some("PAGESIZE"@),
            "set the pagesize of the target"@,
        ),
        argument(
            ArgKind::Switch,
            "verbose"@,
            Some('v'),
            Some("verbose"@),
            false,
            None,
            None,
            "verbose output"@,
        ),
        argument(
            ArgKind::Switch,
            "force"@,
            Some('f'),
            Some("force"@),
            false,
            None,
            None,
            "allow swap size area to be larger than device"@,
        ),
        argument(
            ArgKind::Text,
            "endianness"@,
            Some('e'),
            Some("endianness"@),
            false,
            None,
            None,
            "specify the endianness to use (native, little, or big)"@,
        ),
        argument(
            ArgKind::U64,
            "offset"@,
            Some('o'),
            Some("offset"@),
            false,
            None,
            None,
            "specify the offset in the device"@,
        ),
    ]
}

/// The command line of `rsmkswap`.
pub fn clapp() -> (r: Command)
    ensures
        settings(r) == rsmkswap_settings(),
{
    let c = new_command("rsmkswap", "0.1.0", "Set up a Linux swap area", true);
    let c = add_text(
        c,
        ArgDef {
            id: "device",
            short: None,
            long: None,
            required: true,
            needs: None,
            value_name: None,
            help: "block device or swap file",
        },
    );
    let c = add_text(
        c,
        ArgDef {
            id: "label",
            short: Some('L'),
            long: Some("label"),
            required: false,
            needs: None,
            value_name: None,
            help: "set a label",
        },
    );
    let c = add_text(
        c,
        ArgDef {
            id: "uuid",
            short: Some('u'),
            long: Some("uuid"),
            required: false,
            needs: None,
            value_name: None,
            help: "set the UUID to use",
        },
    );
    let c = add_switch(
        c,
        ArgDef {
            id: "file",
            short: Some('F'),
            long: Some("file"),
            required: false,
            needs: Some("filesize"),
            value_name: None,
            help: "create a swap file",
        },
    );
    let c = add_switch(
        c,
        ArgDef {
            id: "check",
            short: Some('c'),
            long: Some("check"),
            required: false,
            needs: None,
            value_name: None,
            help: "check the swap device for bad pages",
        },
    );
    let c = add_u64(
        c,
        ArgDef {
            id: "filesize",
            short: Some('s'),
            long: Some("size"),
            required: false,
            needs: Some("file"),
            value_name: Some("SIZE"),
            help: "size of the swap file in bytes",
        },
    );
    let c = add_usize(
        c,
        ArgDef {
            id: "pagesize",
            short: Some('P'),
            long: Some("pagesize"),
            required: false,
            needs: None,
            value_name: Some("PAGESIZE"),
            help: "set the pagesize of the target",
        },
    );
    let c = add_switch(
        c,
        ArgDef {
            id: "verbose",
            short: Some('v'),
            long: Some("verbose"),
            required: false,
            needs: None,
            value_name: None,
            help: "verbose output",
        },
    );
    let c = add_switch(
        c,
        ArgDef {
            id: "force",
            short: Some('f'),
            long: Some("force"),
            required: false,
            needs: None,
            value_name: None,
            help: "allow swap size area to be larger than device",
        },
    );
    let c = add_text(
        c,
        ArgDef {
            id: "endianness",
            short: Some('e'),
            long: Some("endianness"),
            required: false,
            needs: None,
            value_name: None,
            help: "specify the endianness to use (native, little, or big)",
        },
    );
    let c = add_u64(
        c,
        ArgDef {
            id: "offset",
            short: Some('o'),
            long: Some("offset"),
            required: false,
            needs: None,
            value_name: None,
            help: "specify the offset in the device",
        },
    );
    assert(settings(c) =~= rsmkswap_settings());
    c
}

/// What a user asked for on the command line.
pub struct Options {
    /// The device or file to set up.
    pub device: Option<String>,
    /// The label of the area.
    pub label: Option<String>,
    /// The UUID of the area.
    pub uuid: Option<String>,
    /// Whether to create a file.
    pub file: bool,
    /// Whether to look for bad pages.
    pub check: bool,
    /// The size of the file to create.
    pub filesize: Option<u64>,
    /// The page size of the machine that will use the area.
    pub pagesize: Option<usize>,
    /// Whether to report bad pages one by one.
    pub verbose: bool,
    /// Whether to accept any page size.
    pub force: bool,
    /// The name of the byte order.
    pub endianness: Option<String>,
    /// Where the area starts.
    pub offset: Option<u64>,
}

/// [`Options`] as a mathematical value.
pub struct OptionsView {
    pub device: Option<Seq<char>>,
    pub label: Option<Seq<char>>,
    pub uuid: Option<Seq<char>>,
    pub file: bool,
    pub check: bool,
    pub filesize: Option<u64>,
    pub pagesize: Option<usize>,
    pub verbose: bool,
    pub force: bool,
    pub endianness: Option<Seq<char>>,
    pub offset: Option<u64>,
}

impl View for Options {
    type V = OptionsView;

    open spec fn view(&self) -> OptionsView {
        OptionsView {
            device: opt_text(self.device),
            label: opt_text(self.label),
            uuid: opt_text(self.uuid),
            file: self.file,
            check: self.check,
            filesize: self.filesize,
            pagesize: self.pagesize,
            verbose: self.verbose,
            force: self.force,
            endianness: opt_text(self.endianness),
            offset: self.offset,
        }
    }
}

impl OptionsView {
    /// There is a device, and the size of a file goes with a file to create.
    pub open spec fn wf(self) -> bool {
        &&& self.device is Some
        &&& self.file <==> self.filesize is Some
    }
}

/// What clap makes of the arguments of a command line: the options, or the status with which
/// the program is to exit.
pub uninterp spec fn parsed(command: Seq<Setting>, args: Seq<Seq<char>>) -> Result<
    OptionsView,
    i32,
>;

/// `Command::try_get_matches_from` of clap: reads the arguments, the first of which is the
/// name of the program. The outcome depends on nothing but the command line and the
/// arguments. The required argument is there, and no argument is there without the one that it
/// needs. Where clap refuses the arguments, or was asked for help or for the version, the
/// outcome is the status with which it would exit: 2 for a refusal, otherwise 0.
#[verifier::external_body]
fn parse(c: Command, args: &[String]) -> (r: Result<Options, i32>)
    requires
        settings(c) == rsmkswap_settings(),
    ensures
        match r {
            Ok(options) => parsed(settings(c), texts(args@)) == Ok::<OptionsView, i32>(options@),
            Err(status) => parsed(settings(c), texts(args@)) == Err::<OptionsView, i32>(status),
        },
        r matches Ok(options) ==> options@.wf(),
        r matches Err(status) ==> status == 0 || status == 2,
{
    match c.try_get_matches_from(args) {
        Ok(m) => Ok(Options {
            device: m.get_one("device").cloned(), label: m.get_one("label").cloned(),
            uuid: m.get_one("uuid").cloned(), file: m.get_flag("file"),
            check: m.get_flag("check"), filesize: m.get_one("filesize").copied(),
            pagesize: m.get_one("pagesize").copied(), verbose: m.get_flag("verbose"),
            force: m.get_flag("force"), endianness: m.get_one("endianness").cloned(),
            offset: m.get_one("offset").copied(),
        }),
        Err(e) => Err(e.exit_code()),
    }
}

/// Reads the arguments of `rsmkswap`, the first of which is the name of the program: the
/// options, or the status with which the program is to exit.
pub fn read_arguments(args: &[String]) -> (r: Result<Options, i32>)
    ensures
        match r {
            Ok(options) => parsed(rsmkswap_settings(), texts(args@)) == Ok::<OptionsView, i32>(
                options@,
            ),
            Err(status) => parsed(rsmkswap_settings(), texts(args@)) == Err::<OptionsView, i32>(
                status,
            ),
        },
        r matches Ok(options) ==> options@.wf(),
        r matches Err(status) ==> status == 0 || status == 2,
{
    parse(clapp(), args)
}

} // verus!
