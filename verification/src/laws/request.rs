//! What holds of requests: every option counts, and none is changed.

use vstd::prelude::*;
use vstd::utf8::encode_utf8;

use crate::cli::OptionsView;
use crate::endian::Endian;
use crate::error::ErrorView;
use crate::mkswap::{
    endian_named, fault_of, launch_of, request_of, requested_endian, LaunchView, RequestView,
};
use crate::text::lowercase;

verus! {

/// A request holds what the user gave: the path, the label, the byte order, the UUID, the
/// switches, and every number as it is. What was not given is empty, or zero.
pub proof fn law_request_keeps_the_options(
    o: OptionsView,
    endianness: Option<Endian>,
    uuid: Result<Seq<u8>, Seq<char>>,
)
    requires
        request_of(o, endianness, uuid) is Ok,
    ensures
        ({
            let r = request_of(o, endianness, uuid)->Ok_0;
            &&& Some(r.device) == o.device
            &&& o.label is Some ==> Some(r.label) == o.label
            &&& o.label is None ==> r.label.len() == 0
            &&& Some(r.endianness) == endianness
            &&& Ok::<Seq<u8>, Seq<char>>(r.uuid) == uuid
            &&& r.create <==> o.file
            &&& o.filesize is Some ==> Some(r.filesize) == o.filesize
            &&& o.filesize is None ==> r.filesize == 0
            &&& r.pagesize == o.pagesize
            &&& r.force <==> o.force
            &&& r.check <==> o.check
            &&& r.verbose <==> o.verbose
            &&& o.offset is Some ==> Some(r.offset) == o.offset
            &&& o.offset is None ==> r.offset == 0
        }),
{
}

/// A request is made exactly where there is a device, the label has no more than sixteen bytes,
/// the byte order is known and the UUID is one; the first of these that fails is told.
pub proof fn law_request_is_refused_for_a_reason(
    o: OptionsView,
    endianness: Option<Endian>,
    uuid: Result<Seq<u8>, Seq<char>>,
)
    ensures
        ({
            let r = request_of(o, endianness, uuid);
            let long = o.label matches Some(label) && encode_utf8(label).len() > 16;
            &&& r is Ok <==> o.device is Some && !long && endianness is Some && uuid is Ok
            &&& o.device is None ==> r == Err::<RequestView, ErrorView>(
                ErrorView::UsageError {
                    msg:
                        "Nowhere to set up swap on?\nTry 'rsmkswap --help' for more information."@,
                },
            )
            &&& r == Err::<RequestView, ErrorView>(ErrorView::TooLongLabel) <==> o.device is Some
                && long
            &&& o.device is Some && !long && endianness is None ==> (o.endianness matches Some(
                name,
            ) ==> r == Err::<RequestView, ErrorView>(
                ErrorView::UsageError {
                    msg: "invalid endianness "@ + name + " is not supported"@,
                },
            ))
            &&& o.device is Some && !long && endianness is Some ==> (uuid matches Err(
                text,
            ) ==> o.uuid matches Some(name) ==> r == Err::<RequestView, ErrorView>(
                ErrorView::UsageError { msg: "Invalid UUID '"@ + name + "': "@ + text },
            ))
            &&& r matches Err(e) ==> e is UsageError || e is TooLongLabel
        }),
{
    assert(encode_utf8(Seq::<char>::empty()).len() == 0);
}

/// A fault that is found before the UUID is looked at is the one that is told.
pub proof fn law_fault_comes_before_the_uuid(
    o: OptionsView,
    endianness: Option<Endian>,
    one: Result<Seq<u8>, Seq<char>>,
    other: Result<Seq<u8>, Seq<char>>,
)
    ensures
        fault_of(o, endianness) matches Some(e) ==> request_of(o, endianness, one) == Err::<
            RequestView,
            ErrorView,
        >(e) && request_of(o, endianness, other) == Err::<RequestView, ErrorView>(e),
        fault_of(o, endianness) is None && one is Ok ==> request_of(o, endianness, one) is Ok,
{
}

/// There are three byte orders to ask for, each by its name, and the native one is used where
/// none is asked for.
pub proof fn law_byte_orders_have_names(name: Seq<char>)
    ensures
        endian_named(name) == Some(Endian::Native) <==> name == "native"@,
        endian_named(name) == Some(Endian::Little) <==> name == "little"@,
        endian_named(name) == Some(Endian::Big) <==> name == "big"@,
        requested_endian(Some(name)) == endian_named(lowercase(name)),
        requested_endian(None) == Some(Endian::Native),
{
    reveal_strlit("native");
    reveal_strlit("little");
    reveal_strlit("big");
    assert("native"@.len() == 6 && "little"@.len() == 6 && "big"@.len() == 3);
    assert("native"@[0] == 'n' && "little"@[0] == 'l');
}

/// A run goes on with the request that its options make, ends with what is wrong with them, or
/// exits with the status that clap gives.
pub proof fn law_launch_follows_the_options(
    o: OptionsView,
    status: i32,
    uuid: Result<Seq<u8>, Seq<char>>,
)
    ensures
        launch_of(Err(status), uuid) == Ok::<LaunchView, ErrorView>(LaunchView::Exit { status }),
        ({
            let r = request_of(o, requested_endian(o.endianness), uuid);
            &&& r matches Ok(request) ==> launch_of(Ok(o), uuid) == Ok::<LaunchView, ErrorView>(
                LaunchView::Proceed(request),
            )
            &&& r matches Err(e) ==> launch_of(Ok(o), uuid) == Err::<LaunchView, ErrorView>(e)
        }),
{
}

} // verus!
