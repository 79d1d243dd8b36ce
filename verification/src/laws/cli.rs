//! What holds of the command line.

use vstd::prelude::*;

use crate::cli::{rsmkswap_settings, ArgKind, ArgView, OptionsView, Setting};

verus! {

/// The `i`-th argument of the command line.
pub open spec fn argument_at(i: int) -> ArgView {
    rsmkswap_settings()[i + 1]->Argument_arg
}

/// What the `i`-th argument holds.
pub open spec fn kind_at(i: int) -> ArgKind {
    rsmkswap_settings()[i + 1]->Argument_kind
}

/// An argument is found by its letter and its word.
pub open spec fn is_option(i: int, id: Seq<char>, short: char, long: Seq<char>) -> bool {
    let arg = argument_at(i);
    arg.id == id && arg.short == Some(short) && arg.long == Some(long) && !arg.required
}

/// The command line is that of a program that sets up swap areas: a device, which is required,
/// and ten options, of which `--file` and `--size` go together.
pub proof fn law_command_line()
    ensures
        rsmkswap_settings().len() == 12,
        rsmkswap_settings()[0] == (Setting::Program {
            name: "rsmkswap"@,
            version: "0.1.0"@,
            about: "Set up a Linux swap area"@,
            infer_long_args: true,
        }),
        forall|i: int| 0 <= i < 11 ==> #[trigger] rsmkswap_settings()[i + 1] is Argument,
        argument_at(0).id == "device"@ && argument_at(0).required,
        argument_at(0).short is None && argument_at(0).long is None,
        is_option(1, "label"@, 'L', "label"@) && kind_at(1) is Text,
        is_option(2, "uuid"@, 'u', "uuid"@) && kind_at(2) is Text,
        is_option(3, "file"@, 'F', "file"@) && kind_at(3) is Switch,
        is_option(4, "check"@, 'c', "check"@) && kind_at(4) is Switch,
        is_option(5, "filesize"@, 's', "size"@) && kind_at(5) is U64,
        is_option(6, "pagesize"@, 'P', "pagesize"@) && kind_at(6) is Usize,
        is_option(7, "verbose"@, 'v', "verbose"@) && kind_at(7) is Switch,
        is_option(8, "force"@, 'f', "force"@) && kind_at(8) is Switch,
        is_option(9, "endianness"@, 'e', "endianness"@) && kind_at(9) is Text,
        is_option(10, "offset"@, 'o', "offset"@) && kind_at(10) is U64,
        kind_at(0) is Text,
        argument_at(3).needs == Some("filesize"@) && argument_at(5).needs == Some("file"@),
        argument_at(5).value_name == Some("SIZE"@),
        argument_at(6).value_name == Some("PAGESIZE"@),
        forall|i: int|
            0 <= i < 11 && i != 3 && i != 5 ==> (#[trigger] argument_at(i)).needs is None,
        forall|i: int|
            0 <= i < 11 && i != 5 && i != 6 ==> (#[trigger] argument_at(i)).value_name is None,
{
}

/// The help says what each argument is for.
pub proof fn law_help()
    ensures
        argument_at(0).help == "block device or swap file"@,
        argument_at(1).help == "set a label"@,
        argument_at(2).help == "set the UUID to use"@,
        argument_at(3).help == "create a swap file"@,
        argument_at(4).help == "check the swap device for bad pages"@,
        argument_at(5).help == "size of the swap file in bytes"@,
        argument_at(6).help == "set the pagesize of the target"@,
        argument_at(7).help == "verbose output"@,
        argument_at(8).help == "allow swap size area to be larger than device"@,
        argument_at(9).help == "specify the endianness to use (native, little, or big)"@,
        argument_at(10).help == "specify the offset in the device"@,
{
}

/// No two options have the same letter.
pub proof fn law_letters_differ(i: int, j: int)
    requires
        0 <= i < j < 11,
    ensures
        argument_at(i).short != argument_at(j).short,
{
    assert(argument_at(0).short is None);
    assert(i == 0 || i == 1 || i == 2 || i == 3 || i == 4 || i == 5 || i == 6 || i == 7 || i == 8
        || i == 9);
}

/// Options fit together exactly where there is a device, and a size with a file to create.
pub proof fn law_options_fit_together(o: OptionsView)
    ensures
        o.wf() <==> o.device is Some && (o.file && o.filesize is Some || !o.file && o.filesize
            is None),
{
}

} // verus!
