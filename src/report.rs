//! Fixed-layout HID reports: a report id, an optional size field, a payload and
//! an optional trailing byte-sum checksum, framed and checked by one codec.
use vstd::prelude::*;

verus! {

/// Width of a report's size field.
#[derive(Clone, Copy, Debug, PartialEq, Eq)]
pub enum SizeField {
    Absent,
    Byte,
    Word,
}

/// The fixed layout of one kind of report.
#[derive(Clone, Copy, Debug, PartialEq, Eq)]
pub struct ReportLayout {
    pub report_id: u8,
    pub size_field: SizeField,
    pub payload_len: usize,
    /// Whether a little-endian 16-bit byte sum of all preceding bytes ends
    /// the report.
    pub checksum: bool,
    /// Whether a received report is refused when its checksum field differs
    /// from the byte sum; where not, the checksum is trusted as received.
    pub verify_on_read: bool,
}

/// Why bytes received from a device were not taken as a report.
#[derive(Clone, Copy, Debug, PartialEq, Eq)]
pub enum ReportError {
    /// The buffer does not have the report's size.
    WrongLength,
    /// The checksum field differs from the byte sum of the preceding bytes.
    BadChecksum,
    /// A payload byte holds no value of its field.
    BadField,
}

/// Bytes of the size field.
pub open spec fn size_width(size_field: SizeField) -> nat {
    match size_field {
        SizeField::Absent => 0,
        SizeField::Byte => 1,
        SizeField::Word => 2,
    }
}

impl ReportLayout {
    /// Bytes that precede the payload.
    pub open spec fn header_len(&self) -> nat {
        1 + size_width(self.size_field)
    }

    /// Serialized size of the whole report.
    pub open spec fn total_len(&self) -> nat {
        (self.header_len() + self.payload_len + if self.checksum {
            2int
        } else {
            0int
        }) as nat
    }

    /// The size field must hold the report's size.
    pub open spec fn fits(&self) -> bool {
        match self.size_field {
            SizeField::Absent => self.total_len() <= usize::MAX,
            SizeField::Byte => self.total_len() < 0x100,
            SizeField::Word => self.total_len() < 0x10000,
        }
    }
}

/// Little-endian bytes of a 16-bit value.
pub open spec fn le16(v: nat) -> Seq<u8> {
    seq![(v % 256) as u8, ((v / 256) % 256) as u8]
}

/// The constant bytes that open a report: its id, then its size.
pub open spec fn header(layout: ReportLayout) -> Seq<u8> {
    let id = seq![layout.report_id];
    match layout.size_field {
        SizeField::Absent => id,
        SizeField::Byte => id.push(layout.total_len() as u8),
        SizeField::Word => id + le16(layout.total_len()),
    }
}

/// Sum of a run of bytes.
pub open spec fn byte_sum(bytes: Seq<u8>) -> nat
    decreases bytes.len(),
{
    if bytes.len() == 0 {
        0
    } else {
        byte_sum(bytes.drop_last()) + bytes.last() as nat
    }
}

/// The checksum of a run of bytes: their sum modulo 2^16.
pub open spec fn checksum_of(bytes: Seq<u8>) -> nat {
    byte_sum(bytes) % 0x10000
}

/// A report on the wire: header, payload, and, where the layout has one, the
/// checksum of everything before it.
pub open spec fn frame(layout: ReportLayout, payload: Seq<u8>) -> Seq<u8> {
    let body = header(layout) + payload;
    if layout.checksum {
        body + le16(checksum_of(body))
    } else {
        body
    }
}

/// The payload bytes of a received report.
pub open spec fn payload_of(layout: ReportLayout, bytes: Seq<u8>) -> Seq<u8> {
    bytes.subrange(layout.header_len() as int, (layout.header_len() + layout.payload_len) as int)
}

/// A received report carries a checksum that matches its bytes, or has none,
/// or its layout trusts the checksum on read.
pub open spec fn checksum_ok(layout: ReportLayout, bytes: Seq<u8>) -> bool {
    layout.checksum && layout.verify_on_read ==> {
        let n = (layout.header_len() + layout.payload_len) as int;
        bytes.subrange(n, n + 2) == le16(checksum_of(bytes.subrange(0, n)))
    }
}

/// What decoding a received buffer gives: its payload, or why it is refused.
pub open spec fn spec_unframe(layout: ReportLayout, bytes: Seq<u8>) -> Result<Seq<u8>, ReportError> {
    if bytes.len() != layout.total_len() {
        Err(ReportError::WrongLength)
    } else if !checksum_ok(layout, bytes) {
        Err(ReportError::BadChecksum)
    } else {
        Ok(payload_of(layout, bytes))
    }
}

proof fn lemma_byte_sum_push(bytes: Seq<u8>, b: u8)
    ensures
        byte_sum(bytes.push(b)) == byte_sum(bytes) + b,
{
    assert(bytes.push(b).drop_last() =~= bytes);
}

/// The 16-bit wrapping byte sum of `bytes`.
pub fn bytesum(bytes: &[u8]) -> (r: u16)
    ensures
        r == checksum_of(bytes@),
{
    let mut sum: u16 = 0;
    let mut i: usize = 0;
    while i < bytes.len()
        invariant
            i <= bytes@.len(),
            sum == checksum_of(bytes@.subrange(0, i as int)),
        decreases bytes@.len() - i,
    {
        proof {
            lemma_byte_sum_push(bytes@.subrange(0, i as int), bytes@[i as int]);
            assert(bytes@.subrange(0, i + 1) =~= bytes@.subrange(0, i as int).push(bytes@[i as int]));
        }
        sum = sum.wrapping_add(bytes[i] as u16);
        i += 1;
    }
    assert(bytes@.subrange(0, i as int) =~= bytes@);
    sum
}

/// Appends the little-endian bytes of `v`.
fn push_le16(out: &mut Vec<u8>, v: u16)
    ensures
        final(out)@ == old(out)@ + le16(v as nat),
{
    out.push((v % 256) as u8);
    out.push((v / 256) as u8);
    assert(final(out)@ =~= old(out)@ + le16(v as nat));
}

/// The constant bytes that open a report.
pub fn header_bytes(layout: &ReportLayout) -> (r: Vec<u8>)
    requires
        layout.fits(),
    ensures
        r@ == header(*layout),
{
    let mut out: Vec<u8> = Vec::new();
    out.push(layout.report_id);
    let checksum_len: usize = if layout.checksum {
        2
    } else {
        0
    };
    match layout.size_field {
        SizeField::Absent => {},
        SizeField::Byte => {
            let total = 2 + layout.payload_len + checksum_len;
            out.push(total as u8);
        },
        SizeField::Word => {
            let total = 3 + layout.payload_len + checksum_len;
            push_le16(&mut out, total as u16);
        },
    }
    assert(out@ =~= header(*layout));
    out
}

/// Frames a payload as a report: the constant header, the payload, and the
/// checksum where the layout has one.
pub fn frame_report(layout: &ReportLayout, payload: &[u8]) -> (r: Vec<u8>)
    requires
        layout.fits(),
        payload@.len() == layout.payload_len,
    ensures
        r@ == frame(*layout, payload@),
        r@.len() == layout.total_len(),
{
    let mut out = header_bytes(layout);
    let mut i: usize = 0;
    let ghost head = out@;
    while i < payload.len()
        invariant
            i <= payload@.len(),
            head == header(*layout),
            out@ == head + payload@.subrange(0, i as int),
        decreases payload@.len() - i,
    {
        out.push(payload[i]);
        assert(out@ =~= head + payload@.subrange(0, i + 1));
        i += 1;
    }
    assert(payload@.subrange(0, i as int) =~= payload@);
    if layout.checksum {
        let sum = bytesum(out.as_slice());
        push_le16(&mut out, sum);
    }
    out
}

/// Takes the payload out of a received report, checking its size and, where
/// the layout has one and does not trust it, its checksum. The id and size
/// bytes are not checked.
pub fn unframe_report(layout: &ReportLayout, bytes: &[u8]) -> (r: Result<Vec<u8>, ReportError>)
    requires
        layout.fits(),
    ensures
        r matches Ok(p) ==> spec_unframe(*layout, bytes@) == Ok::<Seq<u8>, ReportError>(p@),
        r matches Err(e) ==> spec_unframe(*layout, bytes@) == Err::<Seq<u8>, ReportError>(e),
{
    let header_len: usize = match layout.size_field {
        SizeField::Absent => 1,
        SizeField::Byte => 2,
        SizeField::Word => 3,
    };
    let checksum_len: usize = if layout.checksum {
        2
    } else {
        0
    };
    if bytes.len() != header_len + layout.payload_len + checksum_len {
        return Err(ReportError::WrongLength);
    }
    let end = header_len + layout.payload_len;
    if layout.checksum && layout.verify_on_read {
        let mut body: Vec<u8> = Vec::new();
        let mut i: usize = 0;
        while i < end
            invariant
                i <= end,
                end <= bytes@.len(),
                body@ == bytes@.subrange(0, i as int),
            decreases end - i,
        {
            body.push(bytes[i]);
            assert(body@ =~= bytes@.subrange(0, i + 1));
            i += 1;
        }
        let sum = bytesum(body.as_slice());
        let ghost expected = le16(sum as nat);
        let ghost found = bytes@.subrange(end as int, end + 2);
        if bytes[end] != (sum % 256) as u8 || bytes[end + 1] != (sum / 256) as u8 {
            proof {
                if found == expected {
                    assert(found[0] == expected[0]);
                    assert(found[1] == expected[1]);
                }
            }
            return Err(ReportError::BadChecksum);
        }
        assert(found =~= expected);
    }
    let mut payload: Vec<u8> = Vec::new();
    let mut i: usize = header_len;
    while i < end
        invariant
            header_len <= i <= end,
            end <= bytes@.len(),
            payload@ == bytes@.subrange(header_len as int, i as int),
        decreases end - i,
    {
        payload.push(bytes[i]);
        assert(payload@ =~= bytes@.subrange(header_len as int, i + 1));
        i += 1;
    }
    Ok(payload)
}

/// A report framed by [`frame_report`] passes the checks of [`unframe_report`]
/// and gives back its payload; its checksum field is the 16-bit byte sum of
/// header and payload.
pub proof fn lemma_frame_round_trip(layout: ReportLayout, payload: Seq<u8>)
    requires
        payload.len() == layout.payload_len,
    ensures
        spec_unframe(layout, frame(layout, payload)) == Ok::<Seq<u8>, ReportError>(payload),
        layout.checksum ==> frame(layout, payload).subrange(
            layout.header_len() + layout.payload_len,
            layout.total_len() as int,
        ) == le16(byte_sum(header(layout) + payload) % 0x10000),
{
    let body = header(layout) + payload;
    let f = frame(layout, payload);
    assert(header(layout).len() == layout.header_len());
    assert(f.subrange(0, body.len() as int) =~= body);
    assert(payload_of(layout, f) =~= payload);
    if layout.checksum {
        assert(f.subrange(body.len() as int, body.len() as int + 2) =~= le16(checksum_of(body)));
    }
}

/// A received report whose layout trusts its checksum is taken whatever its
/// checksum field holds, as long as it has the report's size.
pub proof fn lemma_trusted_checksum(layout: ReportLayout, bytes: Seq<u8>)
    requires
        !layout.verify_on_read,
        bytes.len() == layout.total_len(),
    ensures
        spec_unframe(layout, bytes) == Ok::<Seq<u8>, ReportError>(payload_of(layout, bytes)),
{
}

/// A kind of report: its layout.
pub trait Report: Sized {
    spec fn layout() -> ReportLayout;

    fn report_layout() -> (r: ReportLayout)
        ensures
            r == Self::layout(),
            r.fits(),
    ;
}

/// A report that is written to the device.
pub trait ReportWrite: Report {
    /// The payload bytes of this report.
    spec fn spec_payload(&self) -> Seq<u8>;

    fn payload(&self) -> (r: Vec<u8>)
        ensures
            r@ == self.spec_payload(),
            r@.len() == Self::layout().payload_len,
    ;
}

/// A report that is read from the device.
pub trait ReportRead: Report {
    /// The report that payload bytes hold, if each field's byte is valid.
    spec fn spec_parse(payload: Seq<u8>) -> Option<Self>;

    fn parse(payload: &[u8]) -> (r: Option<Self>)
        requires
            payload@.len() == Self::layout().payload_len,
        ensures
            r == Self::spec_parse(payload@),
    ;
}

/// What reading a received buffer as a report gives.
pub open spec fn spec_decode<R: ReportRead>(bytes: Seq<u8>) -> Result<R, ReportError> {
    match spec_unframe(R::layout(), bytes) {
        Ok(p) => match R::spec_parse(p) {
            Some(r) => Ok(r),
            None => Err(ReportError::BadField),
        },
        Err(e) => Err(e),
    }
}

/// The bytes to send for a report: constant id and size, its payload, and
/// its checksum where the layout has one.
pub fn encode_report<R: ReportWrite>(report: &R) -> (r: Vec<u8>)
    ensures
        r@ == frame(R::layout(), report.spec_payload()),
{
    let layout = R::report_layout();
    let payload = report.payload();
    frame_report(&layout, payload.as_slice())
}

/// The report that a received buffer holds: its size and checksum are
/// checked, then each field.
pub fn decode_report<R: ReportRead>(bytes: &[u8]) -> (r: Result<R, ReportError>)
    ensures
        r == spec_decode::<R>(bytes@),
{
    let layout = R::report_layout();
    match unframe_report(&layout, bytes) {
        Ok(payload) => {
            proof {
                assert(payload@.len() == layout.payload_len);
            }
            match R::parse(payload.as_slice()) {
                Some(r) => Ok(r),
                None => Err(ReportError::BadField),
            }
        },
        Err(e) => Err(e),
    }
}

/// The buffer handed to the device to fetch a report: the constant header,
/// then zeros for the device to fill.
pub fn read_request(layout: &ReportLayout) -> (r: Vec<u8>)
    requires
        layout.fits(),
    ensures
        r@.len() == layout.total_len(),
        r@.subrange(0, layout.header_len() as int) == header(*layout),
        forall|k: int| layout.header_len() <= k < layout.total_len() ==> r@[k] == 0,
{
    let mut out = header_bytes(layout);
    let total: usize = out.len() + layout.payload_len + if layout.checksum {
        2
    } else {
        0
    };
    let ghost head = out@;
    while out.len() < total
        invariant
            head == header(*layout),
            total == layout.total_len(),
            head.len() <= out@.len() <= total,
            out@.subrange(0, head.len() as int) == head,
            forall|k: int| head.len() <= k < out@.len() ==> out@[k] == 0,
        decreases total - out@.len(),
    {
        out.push(0);
        assert(out@.subrange(0, head.len() as int) =~= head);
    }
    assert(head.len() == layout.header_len());
    out
}

/// Transient failures of a device call are retried until this many attempts
/// have failed.
pub const MAX_ATTEMPTS: u32 = 10;

/// How one device call failed.
#[derive(Clone, Copy, Debug, PartialEq, Eq)]
pub enum IoError {
    /// The call was interrupted by a signal.
    Interrupted,
    /// The device had nothing ready.
    WouldBlock,
    /// The device did not answer in time.
    TimedOut,
    /// Any other failure, by its OS error number.
    Os(i32),
}

impl IoError {
    /// A failure that a retry may cure.
    pub open spec fn spec_is_transient(&self) -> bool {
        !(self is Os)
    }

    pub fn is_transient(&self) -> (r: bool)
        ensures
            r == self.spec_is_transient(),
    {
        match self {
            IoError::Os(_) => false,
            _ => true,
        }
    }
}

/// Whether to try a device call again after its `failures`-th failure, the
/// latest being `error`: only transient failures are retried, and only until
/// [`MAX_ATTEMPTS`] attempts have failed.
pub fn should_retry(failures: u32, error: &IoError) -> (r: bool)
    ensures
        r == (error.spec_is_transient() && failures < MAX_ATTEMPTS),
{
    error.is_transient() && failures < MAX_ATTEMPTS
}

/// Appends a run of bytes.
pub fn append_bytes(out: &mut Vec<u8>, bytes: &[u8])
    ensures
        final(out)@ == old(out)@ + bytes@,
{
    let mut i: usize = 0;
    while i < bytes.len()
        invariant
            i <= bytes@.len(),
            out@ == old(out)@ + bytes@.subrange(0, i as int),
        decreases bytes@.len() - i,
    {
        out.push(bytes[i]);
        assert(out@ =~= old(out)@ + bytes@.subrange(0, i + 1));
        i += 1;
    }
    assert(bytes@.subrange(0, i as int) =~= bytes@);
}

/// The `N` bytes of `bytes` from `start` on.
pub fn take_bytes<const N: usize>(bytes: &[u8], start: usize) -> (r: [u8; N])
    requires
        start + N <= bytes@.len(),
    ensures
        r@ == bytes@.subrange(start as int, start + N),
{
    let mut r = [0u8; N];
    let len = bytes.len();
    let mut i: usize = 0;
    while i < N
        invariant
            i <= N,
            len == bytes@.len(),
            start + N <= bytes@.len(),
            r@.len() == N,
            forall|k: int| 0 <= k < i ==> r@[k] == bytes@[start + k],
        decreases N - i,
    {
        r[i] = bytes[start + i];
        i += 1;
    }
    assert(r@ =~= bytes@.subrange(start as int, start + N));
    r
}

} // verus!
