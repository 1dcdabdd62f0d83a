//! The audio-function values of the class driver: range entries of the
//! class's RANGE requests, isochronous feedback, speeds, errors, and the
//! configuration of the streaming terminals.

use vstd::prelude::*;
use core::marker::PhantomData;
use usb_device::endpoint::{In, IsochronousSynchronizationType, Out};
use crate::bytes::{le1, le2, le4, le_u16, le_u32, low_byte};
use crate::constants::TerminalType;
use crate::cursor::{lemma_wrote_stop, lemma_wrote_then, wrote, Cursor, CursorError};
use crate::descriptors::{AccessControl, ChannelConfig, ClockSource, ClockType, FormatType1, InputTerminal, LockDelay, OutputTerminal};
use crate::sealed::Sealed;

verus! {

#[verifier::external_type_specification]
#[verifier::external_body]
pub struct ExUsbError(usb_device::UsbError);

#[verifier::external_type_specification]
#[verifier::external_body]
pub struct ExIsochronousSynchronizationType(IsochronousSynchronizationType);

#[verifier::external_type_specification]
#[verifier::external_body]
pub struct ExIn(In);

#[verifier::external_type_specification]
#[verifier::external_body]
pub struct ExOut(Out);

/// Errors of the callbacks an audio function implements.
#[derive(Clone, Copy, Debug, PartialEq, Eq, Structural)]
pub enum UsbAudioClassError {
    NotImplemented,
    Other,
}

/// `v` as `width` little-endian bytes (two's complement when negative).
pub open spec fn le_bytes(v: int, width: nat) -> Seq<u8> {
    if width == 1 {
        le1(v)
    } else if width == 2 {
        le2(v)
    } else {
        le4(v)
    }
}

/// The integer types a range entry can hold: `i8`, `i16`, `i32`, `u8`,
/// `u16` and `u32`.
pub trait RangeType: Sealed + Copy {
    /// The integer the value stands for.
    spec fn spec_int(self) -> int;

    /// The width of the type in bytes.
    spec fn spec_width() -> nat;

    /// Zero.
    fn zero() -> (r: Self)
        ensures
            r.spec_int() == 0,
    ;

    /// The width of the type in bytes.
    fn width() -> (r: usize)
        ensures
            r == Self::spec_width(),
            r == 1 || r == 2 || r == 4,
    ;

    /// The value as little-endian bytes.
    fn to_le_bytes(&self) -> (r: Vec<u8>)
        ensures
            r@ == le_bytes(self.spec_int(), Self::spec_width()),
    ;

    /// The value as an `i64`, which holds every value of the six types.
    fn to_i64(&self) -> (r: i64)
        ensures
            r == self.spec_int(),
    ;
}

impl RangeType for i8 {
    open spec fn spec_int(self) -> int {
        self as int
    }

    open spec fn spec_width() -> nat {
        1
    }

    fn to_i64(&self) -> (r: i64) {
        *self as i64
    }

    fn zero() -> (r: Self) {
        0
    }

    fn width() -> (r: usize) {
        1
    }

    fn to_le_bytes(&self) -> (r: Vec<u8>) {
        let u: u8 = if *self < 0 { (*self as i16 + 256) as u8 } else { *self as u8 };
        let mut v: Vec<u8> = Vec::new();
        v.push(u);
        assert(v@ =~= le1(self.spec_int()));
        v
    }
}

impl RangeType for i16 {
    open spec fn spec_int(self) -> int {
        self as int
    }

    open spec fn spec_width() -> nat {
        2
    }

    fn to_i64(&self) -> (r: i64) {
        *self as i64
    }

    fn zero() -> (r: Self) {
        0
    }

    fn width() -> (r: usize) {
        2
    }

    fn to_le_bytes(&self) -> (r: Vec<u8>) {
        let u: u16 = if *self < 0 { (*self as i32 + 65536) as u16 } else { *self as u16 };
        let b = le_u16(u);
        let mut v: Vec<u8> = Vec::new();
        v.push(b[0]);
        v.push(b[1]);
        proof {
            let x = self.spec_int();
            if x < 0 {
                assert(low_byte(u as int) == low_byte(x));
                assert((u as int) / 256 == x / 256 + 256);
                assert(low_byte((u as int) / 256) == low_byte(x / 256));
            }
        }
        assert(v@ =~= le2(self.spec_int()));
        v
    }
}

impl RangeType for i32 {
    open spec fn spec_int(self) -> int {
        self as int
    }

    open spec fn spec_width() -> nat {
        4
    }

    fn to_i64(&self) -> (r: i64) {
        *self as i64
    }

    fn zero() -> (r: Self) {
        0
    }

    fn width() -> (r: usize) {
        4
    }

    fn to_le_bytes(&self) -> (r: Vec<u8>) {
        let u: u32 = if *self < 0 { (*self as i64 + 4294967296) as u32 } else { *self as u32 };
        let b = le_u32(u);
        let mut v: Vec<u8> = Vec::new();
        v.push(b[0]);
        v.push(b[1]);
        v.push(b[2]);
        v.push(b[3]);
        proof {
            let x = self.spec_int();
            if x < 0 {
                let y = u as int;
                assert(y == x + 4294967296);
                assert(y / 256 == x / 256 + 16777216);
                assert(y / 65536 == x / 65536 + 65536);
                assert((y / 65536) / 256 == (x / 65536) / 256 + 256);
                assert(le2(y) =~= le2(x));
                assert(le2(y / 65536) =~= le2(x / 65536));
            }
        }
        assert(v@ =~= le4(self.spec_int()));
        v
    }
}

impl RangeType for u8 {
    open spec fn spec_int(self) -> int {
        self as int
    }

    open spec fn spec_width() -> nat {
        1
    }

    fn to_i64(&self) -> (r: i64) {
        *self as i64
    }

    fn zero() -> (r: Self) {
        0
    }

    fn width() -> (r: usize) {
        1
    }

    fn to_le_bytes(&self) -> (r: Vec<u8>) {
        let mut v: Vec<u8> = Vec::new();
        v.push(*self);
        v
    }
}

impl RangeType for u16 {
    open spec fn spec_int(self) -> int {
        self as int
    }

    open spec fn spec_width() -> nat {
        2
    }

    fn to_i64(&self) -> (r: i64) {
        *self as i64
    }

    fn zero() -> (r: Self) {
        0
    }

    fn width() -> (r: usize) {
        2
    }

    fn to_le_bytes(&self) -> (r: Vec<u8>) {
        let b = le_u16(*self);
        let mut v: Vec<u8> = Vec::new();
        v.push(b[0]);
        v.push(b[1]);
        assert(v@ =~= b@);
        v
    }
}

impl RangeType for u32 {
    open spec fn spec_int(self) -> int {
        self as int
    }

    open spec fn spec_width() -> nat {
        4
    }

    fn to_i64(&self) -> (r: i64) {
        *self as i64
    }

    fn zero() -> (r: Self) {
        0
    }

    fn width() -> (r: usize) {
        4
    }

    fn to_le_bytes(&self) -> (r: Vec<u8>) {
        let b = le_u32(*self);
        let mut v: Vec<u8> = Vec::new();
        v.push(b[0]);
        v.push(b[1]);
        v.push(b[2]);
        v.push(b[3]);
        assert(v@ =~= b@);
        v
    }
}

/// One subrange of a RANGE attribute: minimum, maximum and resolution.
#[derive(Clone, Copy, Debug, PartialEq, Eq, Ord)]
pub struct RangeEntry<T: RangeType> {
    pub min: T,
    pub max: T,
    pub res: T,
}

impl<T: RangeType> RangeEntry<T> {
    /// The bytes of the entry: minimum, maximum and resolution, each in
    /// little-endian order.
    pub open spec fn spec_bytes(&self) -> Seq<u8> {
        le_bytes(self.min.spec_int(), T::spec_width()) + le_bytes(self.max.spec_int(), T::spec_width())
            + le_bytes(self.res.spec_int(), T::spec_width())
    }

    pub fn new(min: T, max: T, res: T) -> (r: Self)
        ensures
            r.min == min,
            r.max == max,
            r.res == res,
    {
        Self { min, max, res }
    }

    /// A subrange of a single value: that value is both its minimum and its
    /// maximum, and its resolution is zero.
    pub fn new_fixed(fixed: T) -> (r: Self)
        ensures
            r.min == fixed,
            r.max == fixed,
            r.res.spec_int() == 0,
    {
        Self { min: fixed, max: fixed, res: T::zero() }
    }

    /// Writes minimum, maximum and resolution in little-endian order. On
    /// success it returns the number of bytes written: three times the width
    /// of `T`.
    pub fn write(&self, writer: &mut Cursor<&mut [u8]>) -> (r: Result<usize, CursorError>)
        ensures
            wrote(*old(writer), *final(writer), self.spec_bytes(), match r {
                Ok(_) => Ok::<(), CursorError>(()),
                Err(e) => Err::<(), CursorError>(e),
            }),
            r is Ok ==> r == Ok::<usize, CursorError>((3 * T::spec_width()) as usize),
            r is Ok ==> 3 * T::spec_width() == self.spec_bytes().len(),
    {
        let ghost c0 = *writer;
        let a = self.min.to_le_bytes();
        let r1 = writer.write_all(a.as_slice());
        let ghost c1 = *writer;
        let b = self.max.to_le_bytes();
        let c = self.res.to_le_bytes();
        if r1.is_err() {
            proof {
                lemma_wrote_stop(c0, c1, a@, b@ + c@, r1);
                assert(a@ + (b@ + c@) =~= self.spec_bytes());
            }
            return Err(CursorError::WriteZero);
        }
        let r2 = writer.write_all(b.as_slice());
        let ghost c2 = *writer;
        proof {
            lemma_wrote_then(c0, c1, c2, a@, b@, r1, r2);
        }
        if r2.is_err() {
            proof {
                lemma_wrote_stop(c0, c2, a@ + b@, c@, r2);
                assert(a@ + b@ + c@ =~= self.spec_bytes());
            }
            return Err(CursorError::WriteZero);
        }
        let r3 = writer.write_all(c.as_slice());
        proof {
            lemma_wrote_then(c0, c2, *writer, a@ + b@, c@, r2, r3);
            assert(a@ + b@ + c@ =~= self.spec_bytes());
        }
        if r3.is_err() {
            return Err(CursorError::WriteZero);
        }
        let width = T::width();
        Ok(width * 3)
    }
}

/// An isochronous feedback value: an integer and a fractional part of
/// samples per frame (or microframe).
#[derive(Copy, Clone, Debug, PartialEq, Eq, Structural)]
pub struct UsbIsochronousFeedback {
    pub int: u16,
    pub frac: u16,
}

impl UsbIsochronousFeedback {
    /// The 16.16 value: the integer part in the high half, the fraction in
    /// the low half.
    pub open spec fn spec_u32_16_16(&self) -> int {
        self.int * 65536 + self.frac
    }

    /// The 10.14 value of the 16.16 value: the integer part shifted by 14
    /// bits over the top 14 bits of the 16-bit fraction; an integer part that
    /// does not fit in 10 bits saturates to the largest 10.14 value.
    pub open spec fn spec_u32_10_14(&self) -> int {
        if self.int >= 1024 {
            0x00ff_ffff
        } else {
            self.int * 16384 + self.frac / 4
        }
    }

    /// Accepts all u16 values, saturating the output depending on format
    /// (the 10.14 form saturates when `integer` does not fit in 10 bits)
    pub fn new_frac(integer: u16, frac: u16) -> (r: Self)
        ensures
            r.int == integer,
            r.frac == frac,
    {
        Self { int: integer, frac }
    }

    /// Assumed 16.16, not either of the USB formats
    pub fn new(value: u32) -> (r: Self)
        ensures
            r.int == value / 65536,
            r.frac == value % 65536,
            r.spec_u32_16_16() == value,
    {
        let integer = (value >> 16u32) as u16;
        let frac = (value & 0xffffu32) as u16;
        assert((value >> 16u32) as u16 == value / 65536 && (value & 0xffffu32) as u16 == value % 65536) by (bit_vector);
        Self { int: integer, frac }
    }

    /// Serialize into a u32 in 16.16 representation for USB HS
    pub fn to_u32_12_13(&self) -> (r: u32)
        ensures
            r == self.spec_u32_16_16(),
    {
        let integer = (self.int as u32) << 16u32;
        // ostensibly 13 bits, so should require << 3, but USB allows us to use
        // these bits for 'extra precision'. So we may as well just treat it as
        // 16.16. The application can << 3 if it wants to for some reason.
        let frac = (self.frac as u32) & 0xffffu32;
        let i = self.int;
        let f = self.frac;
        assert((((i as u32) << 16u32) | ((f as u32) & 0xffffu32)) == (i as u32) * 65536 + (f as u32)) by (bit_vector);
        integer | frac
    }

    /// Serialize into a u32 in 10.14 representation for USB FS (take the 3 LSB)
    pub fn to_u32_10_14(&self) -> (r: u32)
        ensures
            r == self.spec_u32_10_14(),
    {
        if self.int >= 1024 {
            return 0x00ff_ffffu32;
        }
        let integer = (self.int as u32) << 14u32;
        let frac = (self.frac as u32) >> 2u32;
        let i = self.int;
        let f = self.frac;
        assert(i < 1024 ==> (((i as u32) << 14u32) | ((f as u32) >> 2u32)) == (i as u32) * 16384 + (f as u32) / 4) by (bit_vector);
        integer | frac
    }

    /// Serialize into 16.16 little endian byte array for USB HS
    pub fn to_bytes_12_13(&self) -> (r: [u8; 4])
        ensures
            r@ == le4(self.spec_u32_16_16()),
    {
        le_u32(self.to_u32_12_13())
    }

    /// Serialize into 10.14 little endian byte array for USB FS
    pub fn to_bytes_10_14(&self) -> (r: [u8; 3])
        ensures
            r@ == le4(self.spec_u32_10_14()).take(3),
    {
        let bytes = le_u32(self.to_u32_10_14());
        let r = [bytes[0], bytes[1], bytes[2]];
        assert(r@ =~= bytes@.take(3));
        r
    }
}

/// The feedback formats agree: whenever the integer part fits in 10 bits,
/// the 10.14 value is the 16.16 value divided by four (the two lowest bits of
/// the fraction dropped), and otherwise it saturates to the largest 10.14
/// value; it always fits in three bytes. The 16.16 value is sent as the
/// fraction's two little-endian bytes followed by the integer part's.
pub proof fn lemma_feedback_formats(fb: UsbIsochronousFeedback)
    ensures
        fb.int < 1024 ==> fb.spec_u32_10_14() == fb.spec_u32_16_16() / 4,
        fb.int >= 1024 ==> fb.spec_u32_10_14() == 0x00ff_ffff,
        0 <= fb.spec_u32_10_14() <= 0x00ff_ffff,
        le4(fb.spec_u32_16_16()) == le2(fb.frac as int) + le2(fb.int as int),
{
    let v = fb.spec_u32_16_16();
    assert(v == fb.int * 65536 + fb.frac);
    assert(v / 65536 == fb.int as int);
    assert(v % 256 == fb.frac % 256);
    assert((v / 256) % 256 == (fb.frac / 256) % 256);
    assert(le2(v) =~= le2(fb.frac as int));
}

/// The speed of the USB link.
#[derive(Copy, Clone, Debug, PartialEq, Eq, Structural)]
pub enum UsbSpeed {
    /// Not supported for audio.
    Low,
    Full,
    High,
    Super,
}

/// USB audio errors, including possible USB Stack errors
#[derive(Clone, Copy, Debug)]
pub enum Error {
    InvalidValue,
    BandwidthExceeded,
    StreamNotInitialized,
    InvalidSpeed,
    UsbError(usb_device::UsbError),
}

impl From<usb_device::UsbError> for Error {
    fn from(err: usb_device::UsbError) -> (r: Self) {
        Error::UsbError(err)
    }
}

impl vstd::std_specs::convert::FromSpecImpl<usb_device::UsbError> for Error {
    open spec fn obeys_from_spec() -> bool {
        true
    }

    open spec fn from_spec(err: usb_device::UsbError) -> Self {
        Error::UsbError(err)
    }
}

/// The configuration of a streaming terminal pair in direction `D` (`In`:
/// to the host, `Out`: from the host). The USB streaming terminal takes the
/// id `base_id` and the audio terminal `base_id + 1`.
pub struct TerminalConfig<D> {
    /// USB terminal in the D direction will have this id, audio terminal will have this id + 1
    base_id: u8,
    clock_source_id: u8,
    num_channels: u8,
    format: FormatType1,
    terminal_type: TerminalType,
    channel_config: ChannelConfig,
    sync_type: IsochronousSynchronizationType,
    lock_delay: LockDelay,
    string: Option<u8>,
    _direction: PhantomData<D>,
}

impl<D> TerminalConfig<D> {
    pub closed spec fn spec_base_id(&self) -> u8 {
        self.base_id
    }

    pub closed spec fn spec_clock_source_id(&self) -> u8 {
        self.clock_source_id
    }

    pub closed spec fn spec_num_channels(&self) -> u8 {
        self.num_channels
    }

    pub closed spec fn spec_format(&self) -> FormatType1 {
        self.format
    }

    pub closed spec fn spec_terminal_type(&self) -> TerminalType {
        self.terminal_type
    }

    pub closed spec fn spec_channel_config(&self) -> ChannelConfig {
        self.channel_config
    }

    pub closed spec fn spec_sync_type(&self) -> IsochronousSynchronizationType {
        self.sync_type
    }

    pub closed spec fn spec_lock_delay(&self) -> LockDelay {
        self.lock_delay
    }

    pub closed spec fn spec_string(&self) -> Option<u8> {
        self.string
    }

    pub fn new(
        base_id: u8,
        clock_source_id: u8,
        num_channels: u8,
        format: FormatType1,
        terminal_type: TerminalType,
        channel_config: ChannelConfig,
        sync_type: IsochronousSynchronizationType,
        lock_delay: LockDelay,
        string: Option<u8>,
    ) -> (r: Self)
        ensures
            r.spec_base_id() == base_id,
            r.spec_clock_source_id() == clock_source_id,
            r.spec_num_channels() == num_channels,
            r.spec_format() == format,
            r.spec_terminal_type() == terminal_type,
            r.spec_channel_config() == channel_config,
            r.spec_sync_type() == sync_type,
            r.spec_lock_delay() == lock_delay,
            r.spec_string() == string,
    {
        TerminalConfig {
            base_id,
            clock_source_id,
            num_channels,
            format,
            terminal_type,
            channel_config,
            sync_type,
            lock_delay,
            string,
            _direction: PhantomData,
        }
    }

    /// Bytes per audio frame: bytes per sample times channels.
    pub fn bytes_per_frame(&self) -> (r: u32)
        ensures
            r == self.spec_format().bytes_per_sample * self.spec_num_channels(),
    {
        let b = self.format.bytes_per_sample as u32;
        let n = self.num_channels as u32;
        assert(b * n <= 255 * 255) by (nonlinear_arith)
            requires
                b <= 255,
                n <= 255,
        ;
        b * n
    }

    /// The id of the USB streaming terminal.
    pub fn base_id(&self) -> (r: u8)
        ensures
            r == self.spec_base_id(),
    {
        self.base_id
    }

    /// The number of channels of the stream.
    pub fn num_channels(&self) -> (r: u8)
        ensures
            r == self.spec_num_channels(),
    {
        self.num_channels
    }

    /// The spatial locations of the stream's channels.
    pub fn channel_config(&self) -> (r: ChannelConfig)
        ensures
            r == self.spec_channel_config(),
    {
        self.channel_config
    }

    /// The string index of the terminals.
    pub fn string(&self) -> (r: Option<u8>)
        ensures
            r == self.spec_string(),
    {
        self.string
    }

    /// The format of the stream.
    pub fn format(&self) -> (r: FormatType1)
        ensures
            r == self.spec_format(),
    {
        self.format
    }

    /// The lock delay of the stream's data endpoint.
    pub fn lock_delay(&self) -> (r: LockDelay)
        ensures
            r == self.spec_lock_delay(),
    {
        self.lock_delay
    }

    /// The synchronization type of the stream's data endpoint.
    pub fn sync_type(&self) -> (r: IsochronousSynchronizationType)
        ensures
            r == self.spec_sync_type(),
    {
        self.sync_type
    }
}

/// The terminals of a stream from the host: the USB streaming input terminal
/// (id `base_id`) feeds the output terminal of the configured type (id
/// `base_id + 1`).
pub open spec fn spec_out_terminals(cfg: &TerminalConfig<Out>) -> (InputTerminal, OutputTerminal) {
    (
        InputTerminal {
            id: cfg.spec_base_id(),
            terminal_type: TerminalType::UsbStreaming,
            assoc_terminal: 0,
            clock_source: cfg.spec_clock_source_id(),
            num_channels: cfg.spec_num_channels(),
            channel_config: cfg.spec_channel_config(),
            channel_names: 0,
            copy_protect_control: AccessControl::NotPresent,
            connector_control: AccessControl::NotPresent,
            overload_control: AccessControl::NotPresent,
            cluster_control: AccessControl::NotPresent,
            underflow_control: AccessControl::NotPresent,
            overflow_control: AccessControl::NotPresent,
            phantom_power_control: AccessControl::NotPresent,
            string: cfg.spec_string(),
        },
        OutputTerminal {
            id: (cfg.spec_base_id() + 1) as u8,
            terminal_type: cfg.spec_terminal_type(),
            assoc_terminal: 0,
            source_id: cfg.spec_base_id(),
            clock_source: cfg.spec_clock_source_id(),
            copy_protect_control: AccessControl::NotPresent,
            connector_control: AccessControl::NotPresent,
            overload_control: AccessControl::NotPresent,
            underflow_control: AccessControl::NotPresent,
            overflow_control: AccessControl::NotPresent,
            string: cfg.spec_string(),
        },
    )
}

/// The terminals of a stream to the host: the input terminal of the
/// configured type (id `base_id + 1`) feeds the USB streaming output terminal
/// (id `base_id`).
pub open spec fn spec_in_terminals(cfg: &TerminalConfig<In>) -> (InputTerminal, OutputTerminal) {
    (
        InputTerminal {
            id: (cfg.spec_base_id() + 1) as u8,
            terminal_type: cfg.spec_terminal_type(),
            assoc_terminal: 0,
            clock_source: cfg.spec_clock_source_id(),
            num_channels: cfg.spec_num_channels(),
            channel_config: cfg.spec_channel_config(),
            channel_names: 0,
            copy_protect_control: AccessControl::NotPresent,
            connector_control: AccessControl::NotPresent,
            overload_control: AccessControl::NotPresent,
            cluster_control: AccessControl::NotPresent,
            underflow_control: AccessControl::NotPresent,
            overflow_control: AccessControl::NotPresent,
            phantom_power_control: AccessControl::NotPresent,
            string: cfg.spec_string(),
        },
        OutputTerminal {
            id: cfg.spec_base_id(),
            terminal_type: TerminalType::UsbStreaming,
            assoc_terminal: 0,
            source_id: (cfg.spec_base_id() + 1) as u8,
            clock_source: cfg.spec_clock_source_id(),
            copy_protect_control: AccessControl::NotPresent,
            connector_control: AccessControl::NotPresent,
            overload_control: AccessControl::NotPresent,
            underflow_control: AccessControl::NotPresent,
            overflow_control: AccessControl::NotPresent,
            string: cfg.spec_string(),
        },
    )
}

/// The terminals of a stream from the host: a USB streaming input terminal
/// with the stream's id, channel cluster, clock and string feeds an output
/// terminal of the configured type with the next id, on the same clock; no
/// terminal is associated and no control is present.
pub proof fn lemma_out_terminals(cfg: TerminalConfig<Out>)
    requires
        cfg.spec_base_id() < 255,
    ensures
        ({
            let (it, ot) = spec_out_terminals(&cfg);
            &&& it.id == cfg.spec_base_id() && it.terminal_type == TerminalType::UsbStreaming
            &&& it.num_channels == cfg.spec_num_channels() && it.channel_config == cfg.spec_channel_config()
            &&& it.clock_source == cfg.spec_clock_source_id() && it.string == cfg.spec_string()
            &&& it.assoc_terminal == 0 && it.channel_names == 0
            &&& ot.id == cfg.spec_base_id() + 1 && ot.terminal_type == cfg.spec_terminal_type()
            &&& ot.source_id == it.id && ot.clock_source == cfg.spec_clock_source_id()
            &&& ot.string == cfg.spec_string() && ot.assoc_terminal == 0
            &&& it.copy_protect_control == AccessControl::NotPresent && it.connector_control == AccessControl::NotPresent
            &&& it.overload_control == AccessControl::NotPresent && it.cluster_control == AccessControl::NotPresent
            &&& it.underflow_control == AccessControl::NotPresent && it.overflow_control == AccessControl::NotPresent
            &&& it.phantom_power_control == AccessControl::NotPresent
            &&& ot.copy_protect_control == AccessControl::NotPresent && ot.connector_control == AccessControl::NotPresent
            &&& ot.overload_control == AccessControl::NotPresent && ot.underflow_control == AccessControl::NotPresent
            &&& ot.overflow_control == AccessControl::NotPresent
        }),
{
}

/// The terminals of a stream to the host: an input terminal of the
/// configured type with the next id after the stream's, carrying the
/// stream's channel cluster, feeds a USB streaming output terminal with the
/// stream's id, both on the stream's clock; no terminal is associated and no
/// control is present.
pub proof fn lemma_in_terminals(cfg: TerminalConfig<In>)
    requires
        cfg.spec_base_id() < 255,
    ensures
        ({
            let (it, ot) = spec_in_terminals(&cfg);
            &&& ot.id == cfg.spec_base_id() && ot.terminal_type == TerminalType::UsbStreaming
            &&& it.id == cfg.spec_base_id() + 1 && it.terminal_type == cfg.spec_terminal_type()
            &&& it.num_channels == cfg.spec_num_channels() && it.channel_config == cfg.spec_channel_config()
            &&& ot.source_id == it.id
            &&& it.clock_source == cfg.spec_clock_source_id() && ot.clock_source == cfg.spec_clock_source_id()
            &&& it.string == cfg.spec_string() && ot.string == cfg.spec_string()
            &&& it.assoc_terminal == 0 && ot.assoc_terminal == 0 && it.channel_names == 0
            &&& it.copy_protect_control == AccessControl::NotPresent && it.connector_control == AccessControl::NotPresent
            &&& it.overload_control == AccessControl::NotPresent && it.cluster_control == AccessControl::NotPresent
            &&& it.underflow_control == AccessControl::NotPresent && it.overflow_control == AccessControl::NotPresent
            &&& it.phantom_power_control == AccessControl::NotPresent
            &&& ot.copy_protect_control == AccessControl::NotPresent && ot.connector_control == AccessControl::NotPresent
            &&& ot.overload_control == AccessControl::NotPresent && ot.underflow_control == AccessControl::NotPresent
            &&& ot.overflow_control == AccessControl::NotPresent
        }),
{
}

/// The terminal descriptors of a stream: the input terminal and the output
/// terminal, the output fed by the input.
pub trait TerminalConfigurationDescriptors {
    fn get_configuration_descriptors(&self) -> (InputTerminal, OutputTerminal)
        requires
            self.spec_ids_fit(),
    ;

    /// The terminal ids fit in a byte.
    spec fn spec_ids_fit(&self) -> bool;
}

impl TerminalConfigurationDescriptors for TerminalConfig<Out> {
    open spec fn spec_ids_fit(&self) -> bool {
        self.spec_base_id() < 255
    }

    fn get_configuration_descriptors(&self) -> (r: (InputTerminal, OutputTerminal))
        ensures
            r == spec_out_terminals(self),
            r.1.source_id == r.0.id,
            r.0.clock_source == r.1.clock_source,
            r.0.id == self.spec_base_id() && r.0.terminal_type == TerminalType::UsbStreaming,
            r.0.num_channels == self.spec_num_channels() && r.0.channel_config == self.spec_channel_config(),
            r.1.id == self.spec_base_id() + 1 && r.1.terminal_type == self.spec_terminal_type(),
            r.0.clock_source == self.spec_clock_source_id(),
    {
        let input_terminal = InputTerminal {
            id: self.base_id,
            terminal_type: TerminalType::UsbStreaming,
            assoc_terminal: 0,
            clock_source: self.clock_source_id,
            num_channels: self.num_channels,
            channel_config: self.channel_config,
            channel_names: 0,  // not supported
            copy_protect_control: AccessControl::NotPresent,
            connector_control: AccessControl::NotPresent,
            overload_control: AccessControl::NotPresent,
            cluster_control: AccessControl::NotPresent,
            underflow_control: AccessControl::NotPresent,
            overflow_control: AccessControl::NotPresent,
            phantom_power_control: AccessControl::NotPresent,
            string: self.string,
        };
        let output_terminal = OutputTerminal {
            id: self.base_id + 1,
            terminal_type: self.terminal_type,
            assoc_terminal: 0,
            source_id: self.base_id,
            clock_source: self.clock_source_id,
            copy_protect_control: AccessControl::NotPresent,
            connector_control: AccessControl::NotPresent,
            overload_control: AccessControl::NotPresent,
            underflow_control: AccessControl::NotPresent,
            overflow_control: AccessControl::NotPresent,
            string: self.string,
        };
        (input_terminal, output_terminal)
    }
}

impl TerminalConfigurationDescriptors for TerminalConfig<In> {
    open spec fn spec_ids_fit(&self) -> bool {
        self.spec_base_id() < 255
    }

    fn get_configuration_descriptors(&self) -> (r: (InputTerminal, OutputTerminal))
        ensures
            r == spec_in_terminals(self),
            r.1.source_id == r.0.id,
            r.0.clock_source == r.1.clock_source,
            r.1.id == self.spec_base_id() && r.1.terminal_type == TerminalType::UsbStreaming,
            r.0.id == self.spec_base_id() + 1 && r.0.terminal_type == self.spec_terminal_type(),
            r.0.num_channels == self.spec_num_channels() && r.0.channel_config == self.spec_channel_config(),
            r.0.clock_source == self.spec_clock_source_id(),
    {
        let output_terminal = OutputTerminal {
            id: self.base_id,
            terminal_type: TerminalType::UsbStreaming,
            assoc_terminal: 0,
            source_id: self.base_id + 1,
            clock_source: self.clock_source_id,
            copy_protect_control: AccessControl::NotPresent,
            connector_control: AccessControl::NotPresent,
            overload_control: AccessControl::NotPresent,
            underflow_control: AccessControl::NotPresent,
            overflow_control: AccessControl::NotPresent,
            string: self.string,
        };
        let input_terminal = InputTerminal {
            id: self.base_id + 1,
            terminal_type: self.terminal_type,
            assoc_terminal: 0,
            clock_source: self.clock_source_id,
            num_channels: self.num_channels,
            channel_config: self.channel_config,
            channel_names: 0,
            copy_protect_control: AccessControl::NotPresent,
            connector_control: AccessControl::NotPresent,
            cluster_control: AccessControl::NotPresent,
            overload_control: AccessControl::NotPresent,
            underflow_control: AccessControl::NotPresent,
            overflow_control: AccessControl::NotPresent,
            phantom_power_control: AccessControl::NotPresent,
            string: self.string,
        };
        (input_terminal, output_terminal)
    }
}

/// The access of a clock's frequency control: read-only for internal fixed
/// and internal variable clocks, programmable for external and internal
/// programmable ones.
pub open spec fn spec_frequency_access(clock_type: ClockType) -> AccessControl {
    match clock_type {
        ClockType::InternalFixed | ClockType::InternalVariable => AccessControl::ReadOnly,
        ClockType::External | ClockType::InternalProgrammable => AccessControl::Programmable,
    }
}

/// A clock whose rate can be set (an external clock, or a programmable
/// internal one) has a programmable frequency control; a fixed or variable
/// internal clock has a read-only one. The frequency control is never absent.
pub proof fn lemma_frequency_access_by_clock_type(clock_type: ClockType)
    ensures
        (clock_type == ClockType::External || clock_type == ClockType::InternalProgrammable)
            <==> spec_frequency_access(clock_type) == AccessControl::Programmable,
        (clock_type == ClockType::InternalFixed || clock_type == ClockType::InternalVariable)
            <==> spec_frequency_access(clock_type) == AccessControl::ReadOnly,
        spec_frequency_access(clock_type) != AccessControl::NotPresent,
{
}

/// The clock source descriptor built for a clock carries what was given for
/// it, with no associated terminal; its frequency control is programmable
/// exactly for external and programmable internal clocks; its validity
/// control is read-only when the validity can be read and absent when
/// reading it is not implemented; and no descriptor is built when reading
/// the validity fails otherwise.
pub proof fn lemma_clock_source_descriptor_fields(
    id: u8,
    clock_type: ClockType,
    sof_sync: bool,
    validity: Result<bool, UsbAudioClassError>,
    string: Option<u8>,
)
    ensures
        spec_clock_source_descriptor(id, clock_type, sof_sync, validity, string) is None
            <==> validity == Err::<bool, UsbAudioClassError>(UsbAudioClassError::Other),
        spec_clock_source_descriptor(id, clock_type, sof_sync, validity, string) matches Some(cs) ==> {
            &&& cs.id == id && cs.clock_type == clock_type && cs.sof_sync == sof_sync && cs.string == string
            &&& cs.assoc_terminal == 0
            &&& (cs.frequency_access == AccessControl::Programmable) <==> (clock_type == ClockType::External
                || clock_type == ClockType::InternalProgrammable)
            &&& (cs.frequency_access == AccessControl::ReadOnly) <==> (clock_type == ClockType::InternalFixed
                || clock_type == ClockType::InternalVariable)
            &&& (cs.validity_access == AccessControl::ReadOnly) <==> validity == Ok::<bool, UsbAudioClassError>(true)
            &&& (cs.validity_access == AccessControl::NotPresent) <==> (validity == Ok::<bool, UsbAudioClassError>(
                false) || validity == Err::<bool, UsbAudioClassError>(UsbAudioClassError::NotImplemented))
        },
{
}

/// The access of a clock's frequency control for its clock type.
pub fn frequency_access(clock_type: ClockType) -> (r: AccessControl)
    ensures
        r == spec_frequency_access(clock_type),
        clock_type == ClockType::External ==> r == AccessControl::Programmable,
        clock_type == ClockType::InternalProgrammable ==> r == AccessControl::Programmable,
        clock_type == ClockType::InternalFixed ==> r == AccessControl::ReadOnly,
        clock_type == ClockType::InternalVariable ==> r == AccessControl::ReadOnly,
{
    match clock_type {
        ClockType::InternalFixed | ClockType::InternalVariable => AccessControl::ReadOnly,
        ClockType::External | ClockType::InternalProgrammable => AccessControl::Programmable,
    }
}

/// Whether the clock validity can be read, from what reading it gave: any
/// value means it can, `NotImplemented` means it cannot, any other error
/// is passed on.
pub fn validity_access(validity: Result<bool, UsbAudioClassError>) -> (r: Result<bool, UsbAudioClassError>)
    ensures
        r == match validity {
            Ok(_) => Ok::<bool, UsbAudioClassError>(true),
            Err(UsbAudioClassError::NotImplemented) => Ok::<bool, UsbAudioClassError>(false),
            Err(err) => Err::<bool, UsbAudioClassError>(err),
        },
{
    match validity {
        Ok(_) => Ok(true),
        Err(UsbAudioClassError::NotImplemented) => Ok(false),
        Err(err) => Err(err),
    }
}

/// The clock source descriptor of a clock, or `None` when reading its
/// validity fails with an error other than `NotImplemented`.
pub open spec fn spec_clock_source_descriptor(
    id: u8,
    clock_type: ClockType,
    sof_sync: bool,
    validity: Result<bool, UsbAudioClassError>,
    string: Option<u8>,
) -> Option<ClockSource> {
    match validity {
        Ok(true) => Some(ClockSource {
            id,
            clock_type,
            sof_sync,
            frequency_access: spec_frequency_access(clock_type),
            validity_access: AccessControl::ReadOnly,
            assoc_terminal: 0,
            string,
        }),
        Ok(false) | Err(UsbAudioClassError::NotImplemented) => Some(ClockSource {
            id,
            clock_type,
            sof_sync,
            frequency_access: spec_frequency_access(clock_type),
            validity_access: AccessControl::NotPresent,
            assoc_terminal: 0,
            string,
        }),
        _ => None,
    }
}

/// The clock source descriptor of a clock: `None` (the request is
/// unsupported) when its validity access is an error other than
/// `NotImplemented`; otherwise its frequency access follows the clock type
/// and its validity control is read-only when the validity can be read and
/// absent otherwise.
pub fn clock_source_descriptor(
    id: u8,
    clock_type: ClockType,
    sof_sync: bool,
    validity: Result<bool, UsbAudioClassError>,
    string: Option<u8>,
) -> (r: Option<ClockSource>)
    ensures
        r == spec_clock_source_descriptor(id, clock_type, sof_sync, validity, string),
{
    let frequency_access = frequency_access(clock_type);
    let validity_access = match validity {
        Ok(true) => AccessControl::ReadOnly,
        Ok(false) | Err(UsbAudioClassError::NotImplemented) => AccessControl::NotPresent,
        _ => return None,
    };
    Some(ClockSource {
        id: id,
        clock_type,
        sof_sync,
        frequency_access,
        validity_access,
        assoc_terminal: 0,
        string,
    })
}

/// The data endpoint interval, the feedback endpoint interval and the audio
/// packet rate in Hz for a link speed; low speed is not supported for audio.
pub fn stream_timing(speed: UsbSpeed) -> (r: Result<(u8, u8, u32), Error>)
    ensures
        r matches Ok(t) ==> t == match speed {
            UsbSpeed::Full => (1u8, 1u8, 1000u32),
            _ => (1u8, 4u8, 8000u32),
        },
        r is Err <==> speed == UsbSpeed::Low,
        r matches Err(e) ==> e is InvalidSpeed,
{
    match speed {
        UsbSpeed::Full => Ok((1, 1, 1000)),
        UsbSpeed::High | UsbSpeed::Super => Ok((1, 4, 8000)),
        UsbSpeed::Low => Err(Error::InvalidSpeed),
    }
}

/// Whether `a` comes before or equals `b` in the order of (minimum, maximum,
/// resolution).
pub open spec fn range_le(a: RangeEntry<u32>, b: RangeEntry<u32>) -> bool {
    a.min < b.min || (a.min == b.min && (a.max < b.max || (a.max == b.max && a.res <= b.res)))
}

/// The maximum of the greatest subrange (in the order of minimum, maximum,
/// resolution): the highest rate a clock offers when its subranges ascend
/// and do not overlap.
pub fn max_rate(rates: &[RangeEntry<u32>]) -> (r: u32)
    requires
        rates@.len() > 0,
    ensures
        exists|i: int| 0 <= i < rates@.len() && r == rates@[i].max
            && forall|j: int| 0 <= j < rates@.len() ==> range_le(#[trigger] rates@[j], rates@[i]),
{
    let mut best: usize = 0;
    let mut i: usize = 1;
    while i < rates.len()
        invariant
            0 <= best < i <= rates@.len(),
            forall|j: int| 0 <= j < i ==> range_le(#[trigger] rates@[j], rates@[best as int]),
        decreases rates@.len() - i,
    {
        let a = rates[i];
        let b = rates[best];
        if a.min > b.min || (a.min == b.min && (a.max > b.max || (a.max == b.max && a.res >= b.res))) {
            best = i;
        }
        i = i + 1;
    }
    rates[best].max
}

/// The smallest integer at least `a / b`.
pub open spec fn ceil_div(a: int, b: int) -> int {
    if a % b == 0 {
        a / b
    } else {
        a / b + 1
    }
}

/// The maximum packet size of a data endpoint: room for the frames of the
/// highest rate in one packet, plus one frame of headroom for rate control,
/// truncated to 16 bits.
pub fn data_packet_size(max_rate: u32, audio_rate: u32, bytes_per_frame: u32) -> (r: u16)
    requires
        audio_rate > 0,
        ceil_div(max_rate as int, audio_rate as int) + 1 <= u32::MAX,
        (ceil_div(max_rate as int, audio_rate as int) + 1) * bytes_per_frame <= u32::MAX,
    ensures
        r == ((ceil_div(max_rate as int, audio_rate as int) + 1) * bytes_per_frame) % 65536,
{
    let q: u32 = max_rate / audio_rate;
    let frames: u32 = if max_rate % audio_rate == 0 { q } else { q + 1 };
    let size: u32 = (frames + 1) * bytes_per_frame;
    (size % 65536) as u16
}

} // verus!
