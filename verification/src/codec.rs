use crate::byte_order::bytes_u16;
use crate::byte_order::bytes_u32;
use crate::byte_order::value_u16;
use crate::byte_order::value_u32;
use crate::byte_order::ByteOrder;
use crate::kind::EventKind;
use crate::layout::copy_field;
use crate::layout::padded;
use crate::layout::put_padded;
use crate::layout::put_zeros;
use crate::layout::scan_text;
use crate::layout::text_len;
use crate::layout::CREATE_BUS_AT;
use crate::layout::CREATE_COUNTRY_AT;
use crate::layout::CREATE_DATA_AT;
use crate::layout::CREATE_NAME_AT;
use crate::layout::CREATE_PRODUCT_AT;
use crate::layout::CREATE_SIZE_AT;
use crate::layout::CREATE_VENDOR_AT;
use crate::layout::CREATE_VERSION_AT;
use crate::layout::DATA_SIZE;
use crate::layout::EVENT_SIZE;
use crate::layout::INPUT_DATA_AT;
use crate::layout::INPUT_SIZE_AT;
use crate::layout::LOCATION_SIZE;
use crate::layout::NAME_SIZE;
use crate::layout::OUTPUT_DATA_AT;
use crate::layout::OUTPUT_SIZE_AT;
use crate::layout::OUTPUT_TYPE_AT;
use crate::layout::SERIAL_SIZE;
use crate::layout::zeros;
use crate::record::CreateRequest;
use crate::record::CreateRequestView;
use crate::record::OutputReport;
use crate::record::OutputReportView;
use crate::record::Record;
use crate::record::RecordView;
use crate::record::DATA_MAX;
use crate::record::NAME_MAX;
use vstd::prelude::*;

verus! {

/// Why a record cannot be written to a frame.
#[derive(Clone, Copy, Debug, PartialEq, Eq, Structural)]
pub enum EncodeError {
    /// The name leaves no room for its terminator.
    NameTooLong,
    /// The report descriptor is longer than the kernel accepts.
    DescriptorTooLong,
    /// The report is longer than its buffer.
    ReportTooLong,
}

/// Why a frame cannot be read.
#[derive(Clone, Copy, Debug, PartialEq, Eq, Structural)]
pub enum DecodeError {
    /// The frame does not have `EVENT_SIZE` bytes.
    FrameLength,
    /// The name field of a `Create` record holds no terminator.
    UnterminatedName,
    /// The descriptor of a `Create` record claims more bytes than its buffer has.
    DescriptorSize,
    /// A report claims more bytes than its buffer has.
    ReportSize,
}

/// A length field and its data buffer: the number of bytes of `data`, then `data` and zero
/// bytes up to the size of the buffer.
pub open spec fn sized_data(data: Seq<u8>, order: ByteOrder) -> Seq<u8> {
    bytes_u16(data.len() as u16, order) + padded(data, DATA_SIZE as nat)
}

/// The payload of a `Create` record, field after field.
pub open spec fn create_payload(request: CreateRequestView, order: ByteOrder) -> Seq<u8> {
    padded(request.name, NAME_SIZE as nat) + zeros(SERIAL_SIZE as nat) + zeros(
        LOCATION_SIZE as nat,
    ) + sized_data(request.descriptor, order) + bytes_u32(request.bus, order) + bytes_u16(
        request.vendor,
        order,
    ) + bytes_u16(request.product, order) + bytes_u32(request.version, order) + bytes_u32(
        request.country,
        order,
    )
}

/// The payload of an `Output` record, field after field.
pub open spec fn output_payload(report: OutputReportView, order: ByteOrder) -> Seq<u8> {
    seq![report.rtype] + sized_data(report.data, order)
}

/// The payload of a record: empty but for `Create`, `Input` and `Output`.
pub open spec fn payload(record: RecordView, order: ByteOrder) -> Seq<u8> {
    match record {
        RecordView::Create(request) => create_payload(request, order),
        RecordView::Input(data) => sized_data(data, order),
        RecordView::Output(report) => output_payload(report, order),
        _ => Seq::empty(),
    }
}

/// The frame of a record: its tag, its payload, and zero bytes up to `EVENT_SIZE`.
pub open spec fn spec_encode(record: RecordView, order: ByteOrder) -> Seq<u8>
    recommends
        spec_encode_error(record) is None,
{
    padded(bytes_u32(record.tag(), order) + payload(record, order), EVENT_SIZE as nat)
}

/// The reason why a record cannot be written to a frame, if there is one.
pub open spec fn spec_encode_error(record: RecordView) -> Option<EncodeError> {
    match record {
        RecordView::Create(request) => if request.name.len() > NAME_MAX {
            Some(EncodeError::NameTooLong)
        } else if request.descriptor.len() > DATA_MAX {
            Some(EncodeError::DescriptorTooLong)
        } else {
            None
        },
        RecordView::Input(data) => if data.len() > DATA_MAX {
            Some(EncodeError::ReportTooLong)
        } else {
            None
        },
        RecordView::Output(report) => if report.data.len() > DATA_MAX {
            Some(EncodeError::ReportTooLong)
        } else {
            None
        },
        _ => None,
    }
}

/// The `len` bytes of `frame` from `at` on.
pub open spec fn field(frame: Seq<u8>, at: int, len: int) -> Seq<u8> {
    frame.subrange(at, at + len)
}

/// What a frame with the tag of `Create` says.
pub open spec fn spec_decode_create(frame: Seq<u8>, order: ByteOrder) -> Result<
    RecordView,
    DecodeError,
> {
    let name = field(frame, CREATE_NAME_AT as int, NAME_SIZE as int);
    let size = value_u16(field(frame, CREATE_SIZE_AT as int, 2), order);
    if text_len(name) >= NAME_SIZE {
        Err(DecodeError::UnterminatedName)
    } else if size > DATA_SIZE {
        Err(DecodeError::DescriptorSize)
    } else {
        Ok(
            RecordView::Create(
                CreateRequestView {
                    name: name.take(text_len(name) as int),
                    descriptor: field(frame, CREATE_DATA_AT as int, size as int),
                    bus: value_u32(field(frame, CREATE_BUS_AT as int, 4), order),
                    vendor: value_u16(field(frame, CREATE_VENDOR_AT as int, 2), order),
                    product: value_u16(field(frame, CREATE_PRODUCT_AT as int, 2), order),
                    version: value_u32(field(frame, CREATE_VERSION_AT as int, 4), order),
                    country: value_u32(field(frame, CREATE_COUNTRY_AT as int, 4), order),
                },
            ),
        )
    }
}

/// What a frame with the tag of `Input` says.
pub open spec fn spec_decode_input(frame: Seq<u8>, order: ByteOrder) -> Result<
    RecordView,
    DecodeError,
> {
    let size = value_u16(field(frame, INPUT_SIZE_AT as int, 2), order);
    if size > DATA_SIZE {
        Err(DecodeError::ReportSize)
    } else {
        Ok(RecordView::Input(field(frame, INPUT_DATA_AT as int, size as int)))
    }
}

/// What a frame with the tag of `Output` says.
pub open spec fn spec_decode_output(frame: Seq<u8>, order: ByteOrder) -> Result<
    RecordView,
    DecodeError,
> {
    let size = value_u16(field(frame, OUTPUT_SIZE_AT as int, 2), order);
    if size > DATA_SIZE {
        Err(DecodeError::ReportSize)
    } else {
        Ok(
            RecordView::Output(
                OutputReportView {
                    rtype: frame[OUTPUT_TYPE_AT as int],
                    data: field(frame, OUTPUT_DATA_AT as int, size as int),
                },
            ),
        )
    }
}

/// The tag of a frame: the number that its first four bytes hold.
pub open spec fn frame_tag(frame: Seq<u8>, order: ByteOrder) -> u32 {
    value_u32(field(frame, 0, 4), order)
}

/// What a frame says: the record that it holds, or the reason why it holds none. The tag
/// decides how the rest is read; a tag that names no kind gives `Unknown` with that tag.
pub open spec fn spec_decode(frame: Seq<u8>, order: ByteOrder) -> Result<RecordView, DecodeError> {
    if frame.len() != EVENT_SIZE {
        Err(DecodeError::FrameLength)
    } else {
        match EventKind::spec_from_u32(frame_tag(frame, order)) {
            None => Ok(RecordView::Unknown(frame_tag(frame, order))),
            Some(EventKind::Create) => spec_decode_create(frame, order),
            Some(EventKind::Destroy) => Ok(RecordView::Destroy),
            Some(EventKind::Input) => spec_decode_input(frame, order),
            Some(EventKind::Output) => spec_decode_output(frame, order),
            Some(kind) => Ok(RecordView::Signal(kind)),
        }
    }
}

/// Appends a length field and its data buffer to `out`.
fn put_sized_data(out: &mut Vec<u8>, data: &[u8], order: ByteOrder)
    requires
        data@.len() <= DATA_MAX,
    ensures
        final(out)@ == old(out)@ + sized_data(data@, order),
{
    let size: u16 = data.len() as u16;
    order.put_u16(out, size);
    put_padded(out, data, DATA_SIZE);
    assert(out@ =~= old(out)@ + sized_data(data@, order));
}

/// Builds the payload of a `Create` record.
fn build_create_payload(request: &CreateRequest, order: ByteOrder) -> (out: Vec<u8>)
    requires
        request@.name.len() <= NAME_MAX,
        request@.descriptor.len() <= DATA_MAX,
    ensures
        out@ == create_payload(request@, order),
{
    let mut out: Vec<u8> = Vec::new();
    put_padded(&mut out, request.name.as_slice(), NAME_SIZE);
    assert(out@ =~= padded(request@.name, NAME_SIZE as nat));
    put_zeros(&mut out, SERIAL_SIZE);
    put_zeros(&mut out, LOCATION_SIZE);
    put_sized_data(&mut out, request.descriptor.as_slice(), order);
    order.put_u32(&mut out, request.bus);
    order.put_u16(&mut out, request.vendor);
    order.put_u16(&mut out, request.product);
    order.put_u32(&mut out, request.version);
    order.put_u32(&mut out, request.country);
    out
}

/// Builds the payload of a record.
fn build_payload(record: &Record, order: ByteOrder) -> (out: Vec<u8>)
    requires
        spec_encode_error(record@) is None,
    ensures
        out@ == payload(record@, order),
{
    match record {
        Record::Create(request) => build_create_payload(request, order),
        Record::Input(data) => {
            let mut out: Vec<u8> = Vec::new();
            put_sized_data(&mut out, data.as_slice(), order);
            assert(out@ =~= sized_data(data@, order));
            out
        },
        Record::Output(report) => {
            let mut out: Vec<u8> = Vec::new();
            out.push(report.rtype);
            assert(out@ =~= seq![report.rtype]);
            put_sized_data(&mut out, report.data.as_slice(), order);
            out
        },
        _ => Vec::new(),
    }
}

/// The reason why `record` cannot be written to a frame, if there is one.
pub fn encode_error(record: &Record) -> (error: Option<EncodeError>)
    ensures
        error == spec_encode_error(record@),
{
    match record {
        Record::Create(request) => {
            if request.name.len() > NAME_MAX {
                Some(EncodeError::NameTooLong)
            } else if request.descriptor.len() > DATA_MAX {
                Some(EncodeError::DescriptorTooLong)
            } else {
                None
            }
        },
        Record::Input(data) => {
            if data.len() > DATA_MAX {
                Some(EncodeError::ReportTooLong)
            } else {
                None
            }
        },
        Record::Output(report) => {
            if report.data.len() > DATA_MAX {
                Some(EncodeError::ReportTooLong)
            } else {
                None
            }
        },
        _ => None,
    }
}

/// The payload of a record that can be written fits the frame behind the tag.
pub proof fn lemma_payload_fits(record: RecordView, order: ByteOrder)
    requires
        spec_encode_error(record) is None,
    ensures
        4 + payload(record, order).len() <= EVENT_SIZE,
        spec_encode(record, order).len() == EVENT_SIZE,
{
}

/// Writes `record` to a frame of `EVENT_SIZE` bytes, with the integer fields in `order`.
/// Fails only for a record with a name, a descriptor or a report that is too long.
pub fn encode(record: &Record, order: ByteOrder) -> (result: Result<Vec<u8>, EncodeError>)
    ensures
        match result {
            Ok(frame) => {
                &&& spec_encode_error(record@) is None
                &&& frame@ == spec_encode(record@, order)
                &&& frame@.len() == EVENT_SIZE
            },
            Err(error) => spec_encode_error(record@) == Some(error),
        },
{
    match encode_error(record) {
        Some(error) => Err(error),
        None => {
            let mut frame: Vec<u8> = Vec::with_capacity(EVENT_SIZE);
            order.put_u32(&mut frame, record.tag());
            let mut body = build_payload(record, order);
            frame.append(&mut body);
            proof {
                lemma_payload_fits(record@, order);
                assert(frame@ =~= bytes_u32(record@.tag(), order) + payload(record@, order));
            }
            let used: usize = frame.len();
            put_zeros(&mut frame, EVENT_SIZE - used);
            Ok(frame)
        },
    }
}

/// Reads the length field at `size_at` and the data that follows it at `data_at`.
fn read_sized_data(frame: &[u8], size_at: usize, data_at: usize, order: ByteOrder) -> (result:
    Option<Vec<u8>>)
    requires
        size_at + 2 <= frame@.len(),
        data_at + DATA_SIZE <= frame@.len(),
    ensures
        match result {
            Some(data) => {
                &&& value_u16(field(frame@, size_at as int, 2), order) <= DATA_SIZE
                &&& data@ == field(
                    frame@,
                    data_at as int,
                    value_u16(field(frame@, size_at as int, 2), order) as int,
                )
            },
            None => value_u16(field(frame@, size_at as int, 2), order) > DATA_SIZE,
        },
{
    let size: u16 = order.get_u16(frame, size_at);
    if size as usize > DATA_SIZE {
        None
    } else {
        Some(copy_field(frame, data_at, size as usize))
    }
}

/// Reads a frame with the tag of `Create`.
fn decode_create(frame: &[u8], order: ByteOrder) -> (result: Result<Record, DecodeError>)
    requires
        frame@.len() == EVENT_SIZE,
    ensures
        match result {
            Ok(record) => spec_decode_create(frame@, order) == Ok::<RecordView, DecodeError>(
                record@,
            ),
            Err(error) => spec_decode_create(frame@, order) == Err::<RecordView, DecodeError>(
                error,
            ),
        },
{
    let name_len: usize = scan_text(frame, CREATE_NAME_AT, NAME_SIZE);
    if name_len >= NAME_SIZE {
        return Err(DecodeError::UnterminatedName);
    }
    match read_sized_data(frame, CREATE_SIZE_AT, CREATE_DATA_AT, order) {
        None => Err(DecodeError::DescriptorSize),
        Some(descriptor) => {
            let name = copy_field(frame, CREATE_NAME_AT, name_len);
            let request = CreateRequest {
                name,
                descriptor,
                bus: order.get_u32(frame, CREATE_BUS_AT),
                vendor: order.get_u16(frame, CREATE_VENDOR_AT),
                product: order.get_u16(frame, CREATE_PRODUCT_AT),
                version: order.get_u32(frame, CREATE_VERSION_AT),
                country: order.get_u32(frame, CREATE_COUNTRY_AT),
            };
            proof {
                let whole = field(frame@, CREATE_NAME_AT as int, NAME_SIZE as int);
                assert(request@.name =~= whole.take(text_len(whole) as int));
            }
            Ok(Record::Create(request))
        },
    }
}

/// Reads a frame: the record that it holds, with the integer fields read in `order`.
/// Fails for a frame that does not have `EVENT_SIZE` bytes, and for one whose fields
/// contradict its layout. A tag that names no kind is no failure: it gives `Unknown`.
pub fn decode(frame: &[u8], order: ByteOrder) -> (result: Result<Record, DecodeError>)
    ensures
        match result {
            Ok(record) => spec_decode(frame@, order) == Ok::<RecordView, DecodeError>(record@),
            Err(error) => spec_decode(frame@, order) == Err::<RecordView, DecodeError>(error),
        },
{
    if frame.len() != EVENT_SIZE {
        return Err(DecodeError::FrameLength);
    }
    let tag: u32 = order.get_u32(frame, 0);
    match EventKind::from_u32(tag) {
        None => Ok(Record::Unknown(tag)),
        Some(EventKind::Create) => decode_create(frame, order),
        Some(EventKind::Destroy) => Ok(Record::Destroy),
        Some(EventKind::Input) => {
            match read_sized_data(frame, INPUT_SIZE_AT, INPUT_DATA_AT, order) {
                None => Err(DecodeError::ReportSize),
                Some(data) => Ok(Record::Input(data)),
            }
        },
        Some(EventKind::Output) => {
            match read_sized_data(frame, OUTPUT_SIZE_AT, OUTPUT_DATA_AT, order) {
                None => Err(DecodeError::ReportSize),
                Some(data) => Ok(
                    Record::Output(OutputReport { rtype: frame[OUTPUT_TYPE_AT], data }),
                ),
            }
        },
        Some(kind) => Ok(Record::Signal(kind)),
    }
}

/// A text that is free of zero bytes and shorter than its field is read back from the field.
proof fn lemma_text_of_padded(text: Seq<u8>, width: nat)
    requires
        text.len() < width,
        forall|i: int| 0 <= i < text.len() ==> text[i] != 0,
    ensures
        text_len(padded(text, width)) == text.len(),
        padded(text, width).take(text.len() as int) == text,
{
    let whole = padded(text, width);
    assert(whole[text.len() as int] == 0);
    assert forall|i: int| 0 <= i < text.len() implies whole[i] != 0 by {
        assert(whole[i] == text[i]);
    }
    crate::layout::lemma_text_len_is(whole, text.len());
    assert(whole.take(text.len() as int) =~= text);
}

/// The frame of a `Create` record holds each field at its place.
proof fn lemma_create_fields(request: CreateRequestView, order: ByteOrder)
    requires
        request.name.len() <= NAME_MAX,
        request.descriptor.len() <= DATA_MAX,
    ensures
        ({
            let frame = spec_encode(RecordView::Create(request), order);
            &&& frame.len() == EVENT_SIZE
            &&& field(frame, 0, 4) == bytes_u32(EventKind::Create.spec_tag(), order)
            &&& field(frame, CREATE_NAME_AT as int, NAME_SIZE as int) == padded(
                request.name,
                NAME_SIZE as nat,
            )
            &&& field(frame, CREATE_SIZE_AT as int, 2) == bytes_u16(
                request.descriptor.len() as u16,
                order,
            )
            &&& field(frame, CREATE_DATA_AT as int, request.descriptor.len() as int)
                == request.descriptor
            &&& field(frame, CREATE_BUS_AT as int, 4) == bytes_u32(request.bus, order)
            &&& field(frame, CREATE_VENDOR_AT as int, 2) == bytes_u16(request.vendor, order)
            &&& field(frame, CREATE_PRODUCT_AT as int, 2) == bytes_u16(request.product, order)
            &&& field(frame, CREATE_VERSION_AT as int, 4) == bytes_u32(request.version, order)
            &&& field(frame, CREATE_COUNTRY_AT as int, 4) == bytes_u32(request.country, order)
        }),
{
    let frame = spec_encode(RecordView::Create(request), order);
    assert(field(frame, 0, 4) =~= bytes_u32(EventKind::Create.spec_tag(), order));
    assert(field(frame, CREATE_NAME_AT as int, NAME_SIZE as int) =~= padded(
        request.name,
        NAME_SIZE as nat,
    ));
    assert(field(frame, CREATE_SIZE_AT as int, 2) =~= bytes_u16(
        request.descriptor.len() as u16,
        order,
    ));
    assert(field(frame, CREATE_DATA_AT as int, request.descriptor.len() as int)
        =~= request.descriptor);
    assert(field(frame, CREATE_BUS_AT as int, 4) =~= bytes_u32(request.bus, order));
    assert(field(frame, CREATE_VENDOR_AT as int, 2) =~= bytes_u16(request.vendor, order));
    assert(field(frame, CREATE_PRODUCT_AT as int, 2) =~= bytes_u16(request.product, order));
    assert(field(frame, CREATE_VERSION_AT as int, 4) =~= bytes_u32(request.version, order));
    assert(field(frame, CREATE_COUNTRY_AT as int, 4) =~= bytes_u32(request.country, order));
}

/// Fixed size: the frame of every record that can be written, whatever its variant, has
/// exactly `EVENT_SIZE` bytes, and all of them behind the tag and the payload are zero.
pub proof fn lemma_fixed_size(record: RecordView, order: ByteOrder)
    requires
        spec_encode_error(record) is None,
    ensures
        spec_encode(record, order).len() == EVENT_SIZE,
        forall|i: int|
            4 + payload(record, order).len() <= i < EVENT_SIZE ==> spec_encode(record, order)[i]
                == 0,
{
    lemma_payload_fits(record, order);
}

/// The frame of a record without a payload is its tag and zero bytes.
pub proof fn lemma_bare_frame(record: RecordView, order: ByteOrder)
    requires
        record is Destroy || record is Signal || record is Unknown,
    ensures
        spec_encode(record, order) == bytes_u32(record.tag(), order) + zeros(
            (EVENT_SIZE - 4) as nat,
        ),
{
    assert(spec_encode(record, order) =~= bytes_u32(record.tag(), order) + zeros(
        (EVENT_SIZE - 4) as nat,
    ));
}

/// The tag of the frame of a record is the tag of the record.
pub proof fn lemma_frame_tag(record: RecordView, order: ByteOrder)
    requires
        spec_encode_error(record) is None,
    ensures
        frame_tag(spec_encode(record, order), order) == record.tag(),
{
    lemma_payload_fits(record, order);
    assert(field(spec_encode(record, order), 0, 4) =~= bytes_u32(record.tag(), order));
    crate::byte_order::lemma_u32_round_trip(record.tag(), order);
}

/// Unknown-kind tolerance: a frame of `EVENT_SIZE` bytes whose tag names no kind is read
/// without failure, as `Unknown` with that tag, whatever its other bytes are.
pub proof fn lemma_unknown_tag_is_read(frame: Seq<u8>, order: ByteOrder)
    requires
        frame.len() == EVENT_SIZE,
        EventKind::spec_from_u32(frame_tag(frame, order)) is None,
    ensures
        spec_decode(frame, order) == Ok::<RecordView, DecodeError>(
            RecordView::Unknown(frame_tag(frame, order)),
        ),
{
}

/// A frame of `EVENT_SIZE` bytes is read without failure unless its tag is that of
/// `Create`, `Input` or `Output` and the fields contradict the layout.
pub proof fn lemma_decode_succeeds(frame: Seq<u8>, order: ByteOrder)
    requires
        frame.len() == EVENT_SIZE,
    ensures
        ({
            let kind = EventKind::spec_from_u32(frame_tag(frame, order));
            kind != Some(EventKind::Create) && kind != Some(EventKind::Input) && kind != Some(
                EventKind::Output,
            ) ==> spec_decode(frame, order) is Ok
        }),
{
}

/// The frame of a valid `Create` record is read back as that record.
proof fn lemma_round_trip_create(request: CreateRequestView, order: ByteOrder)
    requires
        request.wf(),
    ensures
        spec_decode_create(spec_encode(RecordView::Create(request), order), order) == Ok::<
            RecordView,
            DecodeError,
        >(RecordView::Create(request)),
{
    let frame = spec_encode(RecordView::Create(request), order);
    lemma_create_fields(request, order);
    lemma_text_of_padded(request.name, NAME_SIZE as nat);
    crate::byte_order::lemma_u16_round_trip(request.descriptor.len() as u16, order);
    crate::byte_order::lemma_u32_round_trip(request.bus, order);
    crate::byte_order::lemma_u16_round_trip(request.vendor, order);
    crate::byte_order::lemma_u16_round_trip(request.product, order);
    crate::byte_order::lemma_u32_round_trip(request.version, order);
    crate::byte_order::lemma_u32_round_trip(request.country, order);
}

/// The frame of a valid `Input` record is read back as that record.
proof fn lemma_round_trip_input(data: Seq<u8>, order: ByteOrder)
    requires
        data.len() <= DATA_MAX,
    ensures
        spec_decode_input(spec_encode(RecordView::Input(data), order), order) == Ok::<
            RecordView,
            DecodeError,
        >(RecordView::Input(data)),
{
    let frame = spec_encode(RecordView::Input(data), order);
    assert(field(frame, INPUT_SIZE_AT as int, 2) =~= bytes_u16(data.len() as u16, order));
    assert(field(frame, INPUT_DATA_AT as int, data.len() as int) =~= data);
    crate::byte_order::lemma_u16_round_trip(data.len() as u16, order);
}

/// The frame of a valid `Output` record is read back as that record.
proof fn lemma_round_trip_output(report: OutputReportView, order: ByteOrder)
    requires
        report.data.len() <= DATA_MAX,
    ensures
        spec_decode_output(spec_encode(RecordView::Output(report), order), order) == Ok::<
            RecordView,
            DecodeError,
        >(RecordView::Output(report)),
{
    let frame = spec_encode(RecordView::Output(report), order);
    assert(field(frame, OUTPUT_SIZE_AT as int, 2) =~= bytes_u16(report.data.len() as u16, order));
    assert(field(frame, OUTPUT_DATA_AT as int, report.data.len() as int) =~= report.data);
    assert(frame[OUTPUT_TYPE_AT as int] == report.rtype);
    crate::byte_order::lemma_u16_round_trip(report.data.len() as u16, order);
}

/// Round trip: the frame of a valid record is read back as that record.
pub proof fn lemma_round_trip(record: RecordView, order: ByteOrder)
    requires
        record.wf(),
    ensures
        spec_encode_error(record) is None,
        spec_decode(spec_encode(record, order), order) == Ok::<RecordView, DecodeError>(record),
{
    lemma_frame_tag(record, order);
    lemma_payload_fits(record, order);
    match record {
        RecordView::Create(request) => {
            lemma_round_trip_create(request, order);
        },
        RecordView::Input(data) => {
            lemma_round_trip_input(data, order);
        },
        RecordView::Output(report) => {
            lemma_round_trip_output(report, order);
        },
        RecordView::Destroy => {},
        RecordView::Signal(kind) => {
            crate::kind::lemma_kind_of_own_tag(kind);
        },
        RecordView::Unknown(tag) => {
            crate::kind::lemma_tag_of_kind(tag);
        },
    }
}

} // verus!
