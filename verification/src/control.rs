//! The decisions of the class driver: what each control request asks of the
//! audio function and what the function answers, which endpoint events go
//! where, and the bytes of the feedback and of the control responses.

use vstd::prelude::*;
use usb_device::endpoint::{In, Out};
use crate::bytes::{le2, le4, le4_value, lemma_le4_roundtrip, le_u16, le_u32, read_le_u32};
use crate::class::{
    spec_in_terminals, spec_out_terminals, RangeEntry, TerminalConfig, TerminalConfigurationDescriptors,
    UsbAudioClassError, UsbIsochronousFeedback, UsbSpeed,
};
use crate::constants::{
    TerminalType, ClassSpecificACInterfaceDescriptorSubtype, ClassSpecificDescriptorType, ClassSpecificRequest,
    ClockSourceControlSelector, FormatType, FunctionCode, FunctionProtocol, InterfaceProtocol, InterfaceSubclass,
    USB_CLASS_AUDIO,
};
use crate::cursor::{lemma_wrote_then, wrote, Cursor, CursorError};
use crate::descriptors::{
    descriptor_bytes, descriptors_size, lemma_descriptors_bytes_len, lemma_descriptors_prefix_size, AccessControl,
    AudioClassDescriptor, AudioStreamingEndpoint, AudioStreamingInterface, ClockSource, Descriptor, FormatType1,
    InputTerminal, OutputTerminal, Type1FormatBitmap,
};

verus! {

/// The standard request code GET_INTERFACE.
pub const GET_INTERFACE: u8 = 10;

/// The standard request code SET_INTERFACE.
pub const SET_INTERFACE: u8 = 11;

/// The type of a control request (bits 6..5 of bmRequestType).
#[derive(Clone, Copy, Debug, PartialEq, Eq, Structural)]
pub enum RequestType {
    Standard,
    Class,
    Vendor,
    Reserved,
}

/// The recipient of a control request (bits 4..0 of bmRequestType).
#[derive(Clone, Copy, Debug, PartialEq, Eq, Structural)]
pub enum Recipient {
    Device,
    Interface,
    Endpoint,
    Other,
    Reserved,
}

/// The fields of a control request's SETUP packet that the class reads.
#[derive(Clone, Copy, Debug, PartialEq, Eq, Structural)]
pub struct ControlRequest {
    pub request_type: RequestType,
    pub recipient: Recipient,
    pub request: u8,
    pub value: u16,
    pub index: u16,
}

impl ControlRequest {
    /// The entity addressed by a class request: the high byte of wIndex.
    pub open spec fn spec_entity(&self) -> int {
        self.index as int / 256
    }

    /// The interface addressed: the low byte of wIndex.
    pub open spec fn spec_interface(&self) -> int {
        self.index as int % 256
    }

    /// The control selector of a class request: the high byte of wValue.
    pub open spec fn spec_control(&self) -> int {
        self.value as int / 256
    }

    /// The alternate setting of SET_INTERFACE: the low byte of wValue.
    pub open spec fn spec_alt_setting(&self) -> int {
        self.value as int % 256
    }

    /// Whether this is a class request of code `code` to an interface.
    pub open spec fn spec_is_class_interface(&self, code: ClassSpecificRequest) -> bool {
        &&& self.request_type == RequestType::Class
        &&& self.recipient == Recipient::Interface
        &&& ClassSpecificRequest::spec_from_value(self.request) == Some(code)
    }
}

/// The direction of an audio stream, as the host sees it.
#[derive(Clone, Copy, Debug, PartialEq, Eq, Structural)]
pub enum StreamDirection {
    /// To the host.
    In,
    /// From the host.
    Out,
}

/// An audio stream: its terminal configuration, its AudioStreaming interface
/// number and that interface's current alternate setting.
pub struct StreamState<D> {
    pub config: TerminalConfig<D>,
    pub interface: u8,
    pub alt_setting: u8,
}

/// What a control OUT request asks the audio function to do.
#[derive(Clone, Copy, Debug, PartialEq, Eq, Structural)]
pub enum ControlOutAction {
    /// The class does not handle the request.
    Ignore,
    /// The alternate setting of a stream's interface changed: tell the clock
    /// and the audio function, start the feedback cycle when asked, and
    /// accept the request.
    AltSettingChanged { direction: StreamDirection, alt_setting: u8, start_feedback: bool },
    /// The host sets the sampling frequency: hand it to the clock, update the
    /// nominal feedback, and accept the request.
    SetSampleRate(u32),
}

/// What a control IN request is answered with.
#[derive(Clone, Copy, Debug, PartialEq, Eq, Structural)]
pub enum ControlInAction {
    /// The class does not handle the request.
    Ignore,
    /// Accept with the one byte of this alternate setting.
    AltSetting(u8),
    /// Accept with the clock's sampling frequency (`sample_rate_response`).
    SampleRate,
    /// Accept with the clock's validity (`clock_validity_response`).
    ClockValidity,
    /// Accept with the clock's frequency subranges
    /// (`sample_rate_range_response`).
    SampleRateRange,
}

/// The state of the audio class that its decisions read and change: the
/// interface numbers, the streams and their alternate settings, the endpoint
/// numbers, the link speed and the audio packet rate.
pub struct ClassState<'a> {
    pub control_iface: u8,
    pub device_category: FunctionCode,
    pub output: Option<StreamState<Out>>,
    pub input: Option<StreamState<In>>,
    pub has_feedback: bool,
    pub additional_descriptors: Option<&'a [AudioClassDescriptor]>,
    pub in_iface: u8,
    pub out_iface: u8,
    pub in_ep: usize,
    pub out_ep: usize,
    pub fb_ep: usize,
    pub speed: UsbSpeed,
    /// audio packet rate in hz
    pub audio_rate: u32,
}

impl<'a> ClassState<'a> {
    /// The stream whose AudioStreaming interface is `iface`, the input stream
    /// first.
    pub open spec fn spec_stream_for(&self, iface: int) -> Option<StreamDirection> {
        if self.input is Some && iface == self.in_iface {
            Some(StreamDirection::In)
        } else if self.output is Some && iface == self.out_iface {
            Some(StreamDirection::Out)
        } else {
            None
        }
    }

    /// The current alternate setting of a stream that is present.
    pub open spec fn spec_alt_setting(&self, direction: StreamDirection) -> u8 {
        match direction {
            StreamDirection::In => self.input->Some_0.alt_setting,
            StreamDirection::Out => self.output->Some_0.alt_setting,
        }
    }

    /// The state with the alternate setting of a present stream set to `alt`.
    pub open spec fn spec_with_alt_setting(self, direction: StreamDirection, alt: u8) -> Self {
        match direction {
            StreamDirection::In => ClassState {
                input: Some(StreamState { alt_setting: alt, ..self.input->Some_0 }),
                ..self
            },
            StreamDirection::Out => ClassState {
                output: Some(StreamState { alt_setting: alt, ..self.output->Some_0 }),
                ..self
            },
        }
    }

    /// Whether a control OUT request is SET_INTERFACE to a streaming
    /// interface with an alternate setting other than its current one.
    pub open spec fn spec_changes_alt_setting(&self, req: ControlRequest) -> bool {
        &&& req.request_type == RequestType::Standard
        &&& req.recipient == Recipient::Interface
        &&& req.request == SET_INTERFACE
        &&& self.spec_stream_for(req.spec_interface()) matches Some(d)
        &&& self.spec_alt_setting(d) != req.spec_alt_setting()
    }

    /// Whether a control OUT request sets the clock's sampling frequency
    /// with at least four bytes of data.
    pub open spec fn spec_sets_sample_rate(&self, req: ControlRequest, data: Seq<u8>) -> bool {
        &&& req.spec_is_class_interface(ClassSpecificRequest::Cur)
        &&& req.spec_interface() == self.control_iface
        &&& req.spec_entity() == 1
        &&& ClockSourceControlSelector::spec_from_value(req.spec_control() as u8) == Some(ClockSourceControlSelector::SamFreqControl)
        &&& data.len() >= 4
    }

    /// The action a control OUT request with data `data` asks for.
    pub open spec fn spec_control_out_action(&self, req: ControlRequest, data: Seq<u8>) -> ControlOutAction {
        if self.spec_changes_alt_setting(req) {
            let d = self.spec_stream_for(req.spec_interface())->Some_0;
            ControlOutAction::AltSettingChanged {
                direction: d,
                alt_setting: req.spec_alt_setting() as u8,
                start_feedback: d == StreamDirection::Out,
            }
        } else if self.spec_sets_sample_rate(req, data) {
            ControlOutAction::SetSampleRate(le4_value(data) as u32)
        } else {
            ControlOutAction::Ignore
        }
    }

    /// The state after a control OUT request: only a change of alternate
    /// setting changes it.
    pub open spec fn spec_control_out_state(self, req: ControlRequest) -> Self {
        if self.spec_changes_alt_setting(req) {
            self.spec_with_alt_setting(self.spec_stream_for(req.spec_interface())->Some_0, req.spec_alt_setting() as u8)
        } else {
            self
        }
    }

    /// The answer to a control IN request.
    pub open spec fn spec_control_in_action(&self, req: ControlRequest) -> ControlInAction {
        if req.request_type == RequestType::Standard && req.recipient == Recipient::Interface
            && req.request == GET_INTERFACE {
            match self.spec_stream_for(req.spec_interface()) {
                Some(d) => ControlInAction::AltSetting(self.spec_alt_setting(d)),
                None => ControlInAction::Ignore,
            }
        } else if req.spec_is_class_interface(ClassSpecificRequest::Cur) && req.spec_interface() == self.control_iface
            && req.spec_entity() == 1 {
            match ClockSourceControlSelector::spec_from_value(req.spec_control() as u8) {
                Some(ClockSourceControlSelector::SamFreqControl) => ControlInAction::SampleRate,
                Some(ClockSourceControlSelector::ClockValidControl) => ControlInAction::ClockValidity,
                _ => ControlInAction::Ignore,
            }
        } else if req.spec_is_class_interface(ClassSpecificRequest::Range) && req.spec_interface() == self.control_iface
            && req.spec_entity() == 1 && ClockSourceControlSelector::spec_from_value(req.spec_control() as u8) == Some(
            ClockSourceControlSelector::SamFreqControl,
        ) {
            ControlInAction::SampleRateRange
        } else {
            ControlInAction::Ignore
        }
    }

    /// The stream whose AudioStreaming interface is `iface`, the input stream
    /// first.
    fn stream_for(&self, iface: u8) -> (r: Option<StreamDirection>)
        ensures
            r == self.spec_stream_for(iface as int),
    {
        if self.input.is_some() && iface == self.in_iface {
            Some(StreamDirection::In)
        } else if self.output.is_some() && iface == self.out_iface {
            Some(StreamDirection::Out)
        } else {
            None
        }
    }

    fn set_alt_interface(&mut self, req: &ControlRequest) -> (r: ControlOutAction)
        requires
            req.request_type == RequestType::Standard,
            req.recipient == Recipient::Interface,
            req.request == SET_INTERFACE,
        ensures
            r == old(self).spec_control_out_action(*req, Seq::<u8>::empty()),
            *final(self) == old(self).spec_control_out_state(*req),
    {
        let iface = (req.index % 256) as u8;
        let alt_setting = (req.value % 256) as u8;
        match self.stream_for(iface) {
            Some(StreamDirection::In) => {
                let mut input = self.input.take().unwrap();
                if input.alt_setting != alt_setting {
                    input.alt_setting = alt_setting;
                    self.input = Some(input);
                    ControlOutAction::AltSettingChanged {
                        direction: StreamDirection::In,
                        alt_setting,
                        start_feedback: false,
                    }
                } else {
                    self.input = Some(input);
                    ControlOutAction::Ignore
                }
            },
            Some(StreamDirection::Out) => {
                let mut output = self.output.take().unwrap();
                if output.alt_setting != alt_setting {
                    output.alt_setting = alt_setting;
                    self.output = Some(output);
                    ControlOutAction::AltSettingChanged {
                        direction: StreamDirection::Out,
                        alt_setting,
                        start_feedback: true,
                    }
                } else {
                    self.output = Some(output);
                    ControlOutAction::Ignore
                }
            },
            None => ControlOutAction::Ignore,
        }
    }

    /// Decides a control OUT request: SET_INTERFACE to a streaming interface
    /// that changes its alternate setting records the new setting; SET CUR of
    /// the clock's sampling frequency (entity 1 of the control interface)
    /// with four bytes of data or more sets the rate those bytes give in
    /// little-endian order; anything else is ignored.
    pub fn control_out(&mut self, req: &ControlRequest, data: &[u8]) -> (r: ControlOutAction)
        ensures
            r == old(self).spec_control_out_action(*req, data@),
            *final(self) == old(self).spec_control_out_state(*req),
    {
        if req.request_type == RequestType::Standard && req.recipient == Recipient::Interface
            && req.request == SET_INTERFACE {
            return self.set_alt_interface(req);
        }
        if req.request_type == RequestType::Class && req.recipient == Recipient::Interface {
            if let Some(ClassSpecificRequest::Cur) = ClassSpecificRequest::from_value(req.request) {
                let entity = (req.index / 256) as u8;
                let interface = (req.index % 256) as u8;
                let control = (req.value / 256) as u8;
                if interface == self.control_iface && entity == 1 {
                    if let Some(ClockSourceControlSelector::SamFreqControl) = ClockSourceControlSelector::from_value(control) {
                        if data.len() >= 4 {
                            let rate = read_le_u32(data);
                            return ControlOutAction::SetSampleRate(rate);
                        }
                    }
                }
            }
        }
        ControlOutAction::Ignore
    }

    /// Decides a control IN request: GET_INTERFACE of a streaming interface
    /// is answered with its alternate setting; GET CUR of the clock's
    /// sampling frequency or validity, and GET RANGE of its sampling
    /// frequency (entity 1 of the control interface), with what the clock
    /// gives; anything else is ignored.
    pub fn control_in(&self, req: &ControlRequest) -> (r: ControlInAction)
        ensures
            r == self.spec_control_in_action(*req),
    {
        if req.request_type == RequestType::Standard && req.recipient == Recipient::Interface
            && req.request == GET_INTERFACE {
            let iface = (req.index % 256) as u8;
            return match self.stream_for(iface) {
                Some(StreamDirection::In) => ControlInAction::AltSetting(self.input.as_ref().unwrap().alt_setting),
                Some(StreamDirection::Out) => ControlInAction::AltSetting(self.output.as_ref().unwrap().alt_setting),
                None => ControlInAction::Ignore,
            };
        }
        if req.request_type == RequestType::Class && req.recipient == Recipient::Interface {
            let entity = (req.index / 256) as u8;
            let interface = (req.index % 256) as u8;
            let control = (req.value / 256) as u8;
            if interface == self.control_iface && entity == 1 {
                match ClassSpecificRequest::from_value(req.request) {
                    Some(ClassSpecificRequest::Cur) => {
                        return match ClockSourceControlSelector::from_value(control) {
                            Some(ClockSourceControlSelector::SamFreqControl) => ControlInAction::SampleRate,
                            Some(ClockSourceControlSelector::ClockValidControl) => ControlInAction::ClockValidity,
                            _ => ControlInAction::Ignore,
                        };
                    },
                    Some(ClassSpecificRequest::Range) => {
                        if let Some(ClockSourceControlSelector::SamFreqControl) = ClockSourceControlSelector::from_value(control) {
                            return ControlInAction::SampleRateRange;
                        }
                    },
                    _ => {},
                }
            }
        }
        ControlInAction::Ignore
    }
}

/// After SET_INTERFACE selects an alternate setting on a streaming
/// interface, GET_INTERFACE on that interface answers that setting.
pub proof fn lemma_alt_setting_read_after_write(s: ClassState, set: ControlRequest, get: ControlRequest)
    requires
        set.request_type == RequestType::Standard,
        set.recipient == Recipient::Interface,
        set.request == SET_INTERFACE,
        get.request_type == RequestType::Standard,
        get.recipient == Recipient::Interface,
        get.request == GET_INTERFACE,
        get.spec_interface() == set.spec_interface(),
        s.spec_stream_for(set.spec_interface()) is Some,
    ensures
        s.spec_control_out_state(set).spec_control_in_action(get) == ControlInAction::AltSetting(
            set.spec_alt_setting() as u8,
        ),
{
}

/// SET_INTERFACE with the alternate setting a streaming interface already
/// has is ignored: repeating a SET_INTERFACE changes nothing the second time.
pub proof fn lemma_alt_setting_idempotent(s: ClassState, set: ControlRequest, data: Seq<u8>)
    requires
        set.request_type == RequestType::Standard,
        set.recipient == Recipient::Interface,
        set.request == SET_INTERFACE,
    ensures
        s.spec_control_out_state(set).spec_control_out_action(set, data) == ControlOutAction::Ignore,
        s.spec_control_out_state(set).spec_control_out_state(set) == s.spec_control_out_state(set),
{
}

/// The four bytes with which GET CUR answers a sampling frequency, sent back
/// with SET CUR of the clock's sampling frequency, set that same frequency;
/// and such a request leaves the state as it is.
pub proof fn lemma_sample_rate_round_trip(s: ClassState, set: ControlRequest, rate: u32)
    requires
        set.spec_is_class_interface(ClassSpecificRequest::Cur),
        set.spec_interface() == s.control_iface,
        set.spec_entity() == 1,
        ClockSourceControlSelector::spec_from_value(set.spec_control() as u8) == Some(
            ClockSourceControlSelector::SamFreqControl,
        ),
    ensures
        s.spec_control_out_action(set, le4(rate as int)) == ControlOutAction::SetSampleRate(rate),
        s.spec_control_out_state(set) == s,
{
    lemma_le4_roundtrip(rate as int);
}

/// What each answer to a control IN request is owed to. The alternate
/// setting of a streaming interface answers only a standard GET_INTERFACE
/// (request 10) to that interface, with that stream's current setting. The
/// clock's sampling frequency and validity answer only a class GET CUR
/// (request 1) to the clock source, entity 1, of the AudioControl interface,
/// with control selector 1 (sampling frequency) or 2 (validity); its
/// frequency subranges answer only a class GET RANGE (request 2) of selector
/// 1 there. Every other request is ignored.
pub proof fn lemma_control_in_answers(s: ClassState, req: ControlRequest)
    ensures
        s.spec_control_in_action(req) matches ControlInAction::AltSetting(a) ==> {
            &&& req.request_type == RequestType::Standard && req.recipient == Recipient::Interface
            &&& req.request == 10
            &&& ((s.input is Some && req.index % 256 == s.in_iface && a == s.input->Some_0.alt_setting)
                || (s.output is Some && req.index % 256 == s.out_iface && a == s.output->Some_0.alt_setting))
        },
        s.spec_control_in_action(req) == ControlInAction::SampleRate ==> {
            &&& req.request_type == RequestType::Class && req.recipient == Recipient::Interface
            &&& req.request == 1 && req.index / 256 == 1 && req.index % 256 == s.control_iface
            &&& req.value / 256 == 1
        },
        s.spec_control_in_action(req) == ControlInAction::ClockValidity ==> {
            &&& req.request_type == RequestType::Class && req.recipient == Recipient::Interface
            &&& req.request == 1 && req.index / 256 == 1 && req.index % 256 == s.control_iface
            &&& req.value / 256 == 2
        },
        s.spec_control_in_action(req) == ControlInAction::SampleRateRange ==> {
            &&& req.request_type == RequestType::Class && req.recipient == Recipient::Interface
            &&& req.request == 2 && req.index / 256 == 1 && req.index % 256 == s.control_iface
            &&& req.value / 256 == 1
        },
        (req.request_type == RequestType::Class && req.recipient == Recipient::Interface
            && req.index % 256 == s.control_iface && req.index / 256 == 1 && req.value / 256 == 1)
            ==> (req.request == 1 ==> s.spec_control_in_action(req) == ControlInAction::SampleRate)
            && (req.request == 2 ==> s.spec_control_in_action(req) == ControlInAction::SampleRateRange),
        (req.request_type == RequestType::Class && req.recipient == Recipient::Interface
            && req.index % 256 == s.control_iface && req.index / 256 == 1 && req.value / 256 == 2
            && req.request == 1) ==> s.spec_control_in_action(req) == ControlInAction::ClockValidity,
{
}

/// What each action of a control OUT request is owed to. A change of
/// alternate setting comes only from a standard SET_INTERFACE (request 11)
/// to a streaming interface whose current setting differs from the one
/// asked (the low byte of wValue), and starts the feedback only for the
/// stream from the host. A new sampling frequency comes only from a class
/// SET CUR (request 1) to the clock source, entity 1, of the AudioControl
/// interface with selector 1, and is the little-endian value of the first
/// four data bytes.
pub proof fn lemma_control_out_actions(s: ClassState, req: ControlRequest, data: Seq<u8>)
    ensures
        s.spec_control_out_action(req, data) matches ControlOutAction::AltSettingChanged {
            direction,
            alt_setting,
            start_feedback,
        } ==> {
            &&& req.request_type == RequestType::Standard && req.recipient == Recipient::Interface
            &&& req.request == 11 && alt_setting == req.value % 256
            &&& start_feedback == (direction == StreamDirection::Out)
            &&& direction == StreamDirection::In ==> s.input is Some && req.index % 256 == s.in_iface
                && s.input->Some_0.alt_setting != alt_setting
            &&& direction == StreamDirection::Out ==> s.output is Some && req.index % 256 == s.out_iface
                && s.output->Some_0.alt_setting != alt_setting
        },
        s.spec_control_out_action(req, data) matches ControlOutAction::SetSampleRate(rate) ==> {
            &&& req.request_type == RequestType::Class && req.recipient == Recipient::Interface
            &&& req.request == 1 && req.index / 256 == 1 && req.index % 256 == s.control_iface
            &&& req.value / 256 == 1 && data.len() >= 4
            &&& rate == data[0] + 256 * data[1] + 65536 * data[2] + 16777216 * data[3]
        },
{
}

/// Errors of a control response, which the USB stack reports.
#[derive(Clone, Copy, Debug, PartialEq, Eq, Structural)]
pub enum ResponseError {
    /// The response does not fit in the control buffer.
    BufferOverflow,
    /// The clock could not give what was asked.
    InvalidState,
}

/// The answer to GET CUR of the sampling frequency in a control buffer of
/// `capacity` bytes: the rate as four little-endian bytes, of length 4, or
/// `BufferOverflow` when fewer than four bytes fit.
pub fn sample_rate_response(rate: u32, capacity: usize) -> (r: Result<(Vec<u8>, usize), ResponseError>)
    ensures
        capacity >= 4 ==> (r matches Ok((bytes, n)) && bytes@ == le4(rate as int) && n == 4),
        capacity < 4 ==> r == Err::<(Vec<u8>, usize), ResponseError>(ResponseError::BufferOverflow),
{
    if capacity < 4 {
        return Err(ResponseError::BufferOverflow);
    }
    let b = le_u32(rate);
    let mut v: Vec<u8> = Vec::new();
    v.push(b[0]);
    v.push(b[1]);
    v.push(b[2]);
    v.push(b[3]);
    assert(v@ =~= b@);
    Ok((v, 4))
}

/// The answer to GET CUR of the clock validity in a control buffer of
/// `capacity` bytes: when the clock gives its validity, one byte (1 when
/// valid, 0 otherwise; nothing is written when the buffer is empty) and
/// length 1; `InvalidState` when the clock gives an error.
pub fn clock_validity_response(validity: Result<bool, UsbAudioClassError>, capacity: usize) -> (r: Result<
    (Vec<u8>, usize),
    ResponseError,
>)
    ensures
        match validity {
            Ok(valid) => (r matches Ok((bytes, n)) && n == 1 && bytes@ == (if capacity >= 1 {
                seq![if valid { 1u8 } else { 0u8 }]
            } else {
                Seq::<u8>::empty()
            })),
            Err(_) => r == Err::<(Vec<u8>, usize), ResponseError>(ResponseError::InvalidState),
        },
{
    match validity {
        Ok(valid) => {
            let mut v: Vec<u8> = Vec::new();
            if capacity >= 1 {
                v.push(if valid { 1 } else { 0 });
            }
            assert(v@ =~= (if capacity >= 1 { seq![if valid { 1u8 } else { 0u8 }] } else { Seq::<u8>::empty() }));
            Ok((v, 1))
        },
        Err(_) => Err(ResponseError::InvalidState),
    }
}

/// The bytes of `rates`, one entry after the other.
pub open spec fn range_entries_bytes(rates: Seq<RangeEntry<u32>>) -> Seq<u8>
    decreases rates.len(),
{
    if rates.len() == 0 {
        Seq::<u8>::empty()
    } else {
        range_entries_bytes(rates.drop_last()) + rates.last().spec_bytes()
    }
}

proof fn lemma_range_entries_bytes_len(rates: Seq<RangeEntry<u32>>)
    ensures
        range_entries_bytes(rates).len() == 12 * rates.len(),
    decreases rates.len(),
{
    if rates.len() > 0 {
        lemma_range_entries_bytes_len(rates.drop_last());
    }
}

/// The answer to GET RANGE of the sampling frequency in a control buffer of
/// `capacity` bytes. When the clock gives its subranges and they all fit
/// (two bytes of count and twelve bytes per subrange), the count (modulo
/// 2^16) and then each subrange, with their length: 2 plus 12 per
/// subrange. `BufferOverflow` when they do not fit,
/// `InvalidState` when the clock gives an error.
pub fn sample_rate_range_response(rates: Result<&[RangeEntry<u32>], UsbAudioClassError>, capacity: usize) -> (r: Result<
    (Vec<u8>, usize),
    ResponseError,
>)
    ensures
        match rates {
            Ok(rates) => if 2 + 12 * rates@.len() <= capacity {
                (r matches Ok((bytes, n)) && bytes@ == le2(rates@.len() as int % 65536) + range_entries_bytes(rates@)
                    && n == 2 + 12 * rates@.len())
            } else {
                r == Err::<(Vec<u8>, usize), ResponseError>(ResponseError::BufferOverflow)
            },
            Err(_) => r == Err::<(Vec<u8>, usize), ResponseError>(ResponseError::InvalidState),
        },
{
    let entries = match rates {
        Ok(entries) => entries,
        Err(_) => return Err(ResponseError::InvalidState),
    };
    let mut store: Vec<u8> = vec![0u8; capacity];
    let mut buf = Cursor::new(store.as_mut_slice());
    let ghost c0 = buf;
    let count = (entries.len() % 65536) as u16;
    let r0 = buf.write_u16_le(count);
    proof {
        lemma_range_entries_bytes_len(entries@);
    }
    if r0.is_err() {
        return Err(ResponseError::BufferOverflow);
    }
    let ghost head = le2(count as int);
    let mut written: usize = 2;
    let mut i: usize = 0;
    proof {
        assert(entries@.take(0) =~= Seq::<RangeEntry<u32>>::empty());
        assert(head + range_entries_bytes(entries@.take(0)) =~= head);
    }
    while i < entries.len()
        invariant
            i <= entries@.len(),
            rates == Ok::<&[RangeEntry<u32>], UsbAudioClassError>(entries),
            c0.spec_pos() == 0,
            c0.spec_inner()@.len() == capacity,
            head.len() == 2,
            written == 2 + 12 * i,
            wrote(c0, buf, head + range_entries_bytes(entries@.take(i as int)), Ok::<(), CursorError>(())),
        decreases entries@.len() - i,
    {
        let ghost c1 = buf;
        let ri = entries[i].write(&mut buf);
        proof {
            let a = head + range_entries_bytes(entries@.take(i as int));
            let d = entries@[i as int].spec_bytes();
            lemma_wrote_then(c0, c1, buf, a, d, Ok::<(), CursorError>(()), match ri {
                Ok(_) => Ok::<(), CursorError>(()),
                Err(e) => Err::<(), CursorError>(e),
            });
            assert(entries@.take(i + 1).drop_last() =~= entries@.take(i as int));
            assert(a + d =~= head + range_entries_bytes(entries@.take(i + 1)));
            lemma_range_entries_bytes_len(entries@.take(i + 1));
        }
        match ri {
            Ok(n) => {
                written = written + n;
            },
            Err(_) => {
                assert(!(2 + 12 * (i + 1) <= capacity));
                return Err(ResponseError::BufferOverflow);
            },
        }
        i = i + 1;
    }
    proof {
        assert(entries@.take(entries@.len() as int) =~= entries@);
    }
    let end = buf.position();
    let inner = buf.into_inner();
    let mut bytes: Vec<u8> = Vec::new();
    let mut k: usize = 0;
    while k < end
        invariant
            k <= end,
            end <= inner@.len(),
            bytes@ == inner@.take(k as int),
        decreases end - k,
    {
        bytes.push(inner[k]);
        k = k + 1;
        assert(bytes@ =~= inner@.take(k as int));
    }
    Ok((bytes, written))
}

/// The feedback payload for the link speed: the three bytes of the 10.14
/// value at low and full speed, the four bytes of the 16.16 value at high and
/// super speed.
pub fn feedback_payload(speed: UsbSpeed, fb: UsbIsochronousFeedback) -> (r: Vec<u8>)
    ensures
        r@ == match speed {
            UsbSpeed::Low | UsbSpeed::Full => le4(fb.spec_u32_10_14()).take(3),
            UsbSpeed::High | UsbSpeed::Super => le4(fb.spec_u32_16_16()),
        },
{
    let mut v: Vec<u8> = Vec::new();
    match speed {
        UsbSpeed::Low | UsbSpeed::Full => {
            let b = fb.to_bytes_10_14();
            v.push(b[0]);
            v.push(b[1]);
            v.push(b[2]);
            assert(v@ =~= b@);
        },
        UsbSpeed::High | UsbSpeed::Super => {
            let b = fb.to_bytes_12_13();
            v.push(b[0]);
            v.push(b[1]);
            v.push(b[2]);
            v.push(b[3]);
            assert(v@ =~= b@);
        },
    }
    v
}

impl<'a> ClassState<'a> {
    /// Whether data arriving on endpoint `index` is audio from the host.
    pub fn is_audio_out_endpoint(&self, index: usize) -> (r: bool)
        ensures
            r == (index == self.out_ep),
    {
        index == self.out_ep
    }

    /// Whether the completion of an IN transfer on endpoint `index` is that
    /// of the feedback endpoint, which then sends the next feedback.
    pub fn is_feedback_endpoint(&self, index: usize) -> (r: bool)
        ensures
            r == (self.has_feedback && index == self.fb_ep),
    {
        self.has_feedback && index == self.fb_ep
    }

    /// Whether polling drains the audio OUT endpoint: only when both streams
    /// are present and both are in alternate setting 0.
    pub fn poll_drains_output(&self) -> (r: bool)
        ensures
            r == (self.output is Some && self.output->Some_0.alt_setting == 0 && self.input is Some
                && self.input->Some_0.alt_setting == 0),
    {
        match (&self.output, &self.input) {
            (Some(o), Some(i)) => o.alt_setting == 0 && i.alt_setting == 0,
            _ => false,
        }
    }
}

/// The role of an endpoint in the configuration.
#[derive(Clone, Copy, Debug, PartialEq, Eq, Structural)]
pub enum EndpointRole {
    /// The data endpoint of the stream to the host.
    AudioIn,
    /// The data endpoint of the stream from the host.
    AudioOut,
    /// The feedback endpoint of the stream from the host.
    Feedback,
}

/// A class-specific descriptor of the configuration.
#[derive(Clone, Copy, Debug, PartialEq, Eq, Structural)]
pub enum ClassDescriptor {
    /// The class-specific AC interface header.
    AcHeader { category: FunctionCode, total_length: u16 },
    Clock(ClockSource),
    Input(InputTerminal),
    Output(OutputTerminal),
    Additional(AudioClassDescriptor),
    StreamGeneral(AudioStreamingInterface),
    Format(FormatType1),
    StreamEndpoint(AudioStreamingEndpoint),
}

impl ClassDescriptor {
    /// The size the descriptor states in its length byte.
    pub open spec fn spec_size(&self) -> int {
        match self {
            ClassDescriptor::AcHeader { .. } => 9,
            ClassDescriptor::Clock(d) => d.spec_size(),
            ClassDescriptor::Input(d) => d.spec_size(),
            ClassDescriptor::Output(d) => d.spec_size(),
            ClassDescriptor::Additional(d) => d.spec_size(),
            ClassDescriptor::StreamGeneral(d) => d.spec_size(),
            ClassDescriptor::Format(d) => d.spec_size(),
            ClassDescriptor::StreamEndpoint(d) => d.spec_size(),
        }
    }

    /// The descriptor type byte.
    pub open spec fn spec_descriptor_type(&self) -> u8 {
        match self {
            ClassDescriptor::StreamEndpoint(d) => d.spec_descriptor_type(),
            _ => 0x24,
        }
    }

    /// The bytes after the length and descriptor type bytes.
    pub open spec fn spec_payload(&self) -> Seq<u8> {
        match self {
            ClassDescriptor::AcHeader { category, total_length } => seq![0x01u8, 0u8, 2u8, category.spec_value()]
                + le2(*total_length as int) + seq![0u8],
            ClassDescriptor::Clock(d) => d.spec_payload(),
            ClassDescriptor::Input(d) => d.spec_payload(),
            ClassDescriptor::Output(d) => d.spec_payload(),
            ClassDescriptor::Additional(d) => d.spec_payload(),
            ClassDescriptor::StreamGeneral(d) => d.spec_payload(),
            ClassDescriptor::Format(d) => d.spec_payload(),
            ClassDescriptor::StreamEndpoint(d) => d.spec_payload(),
        }
    }

    /// All the bytes the descriptor is written as: its length byte, its
    /// descriptor type and its payload.
    pub open spec fn spec_bytes(&self) -> Seq<u8> {
        descriptor_bytes(self.spec_size(), self.spec_descriptor_type(), self.spec_payload())
    }

    /// The size the descriptor states in its length byte, which is the
    /// number of bytes it is written as.
    pub fn size(&self) -> (r: u8)
        ensures
            r == self.spec_size(),
    {
        match self {
            ClassDescriptor::AcHeader { .. } => 9,
            ClassDescriptor::Clock(d) => d.size(),
            ClassDescriptor::Input(d) => d.size(),
            ClassDescriptor::Output(d) => d.size(),
            ClassDescriptor::Additional(d) => d.size(),
            ClassDescriptor::StreamGeneral(d) => d.size(),
            ClassDescriptor::Format(d) => d.size(),
            ClassDescriptor::StreamEndpoint(d) => d.size(),
        }
    }

    /// The descriptor type byte.
    pub fn descriptor_type(&self) -> (r: u8)
        ensures
            r == self.spec_descriptor_type(),
    {
        match self {
            ClassDescriptor::StreamEndpoint(d) => d.descriptor_type(),
            _ => ClassSpecificDescriptorType::Interface.value(),
        }
    }

    /// The bytes after the length and descriptor type bytes: as many as the
    /// stated size, less two.
    pub fn payload(&self) -> (r: Vec<u8>)
        ensures
            r@ == self.spec_payload(),
            r@.len() + 2 == self.spec_size(),
    {
        match self {
            ClassDescriptor::AcHeader { category, total_length } => {
                let mut v: Vec<u8> = Vec::new();
                v.push(ClassSpecificACInterfaceDescriptorSubtype::Header.value());
                v.push(0);  // bcdADC[0]
                v.push(2);  // bcdADC[1]
                v.push(category.value());  // bCategory
                let t = le_u16(*total_length);  // wTotalLength
                v.push(t[0]);
                v.push(t[1]);
                v.push(0);  // bmControls
                assert(v@ =~= self.spec_payload());
                v
            },
            ClassDescriptor::Clock(d) => d.payload(),
            ClassDescriptor::Input(d) => d.payload(),
            ClassDescriptor::Output(d) => d.payload(),
            ClassDescriptor::Additional(d) => d.payload(),
            ClassDescriptor::StreamGeneral(d) => d.payload(),
            ClassDescriptor::Format(d) => d.payload(),
            ClassDescriptor::StreamEndpoint(d) => d.payload(),
        }
    }
}

/// One step of writing the configuration descriptors.
#[derive(Clone, Copy, Debug, PartialEq, Eq, Structural)]
pub enum ConfigRecord {
    /// An interface association descriptor.
    InterfaceAssociation {
        first_interface: u8,
        interface_count: u8,
        function_class: u8,
        function_sub_class: u8,
        function_protocol: u8,
    },
    /// A standard interface descriptor (with no string).
    Interface {
        number: u8,
        alternate_setting: u8,
        interface_class: u8,
        interface_sub_class: u8,
        interface_protocol: u8,
    },
    /// A class-specific descriptor.
    ClassSpecific(ClassDescriptor),
    /// The standard descriptor of an endpoint.
    Endpoint(EndpointRole),
}

/// The class-specific AS interface descriptor of a stream: PCM of type I on
/// the stream's USB streaming terminal, without alternate-setting controls.
pub open spec fn spec_stream_general<D>(config: TerminalConfig<D>) -> AudioStreamingInterface {
    AudioStreamingInterface {
        terminal_id: config.spec_base_id(),
        active_alt_setting: AccessControl::NotPresent,
        valid_alt_settings: AccessControl::NotPresent,
        format_type: FormatType::Type1,
        format_bitmap: Type1FormatBitmap::Pcm,
        num_channels: config.spec_num_channels(),
        channel_config: config.spec_channel_config(),
        string: config.spec_string(),
    }
}

/// The class-specific data endpoint descriptor of a stream: no controls, the
/// configured lock delay.
pub open spec fn spec_stream_endpoint<D>(config: TerminalConfig<D>) -> AudioStreamingEndpoint {
    AudioStreamingEndpoint {
        max_packets_only: false,
        pitch_control: AccessControl::NotPresent,
        overrun_control: AccessControl::NotPresent,
        underrun_control: AccessControl::NotPresent,
        lock_delay: config.spec_lock_delay(),
    }
}

/// The records of a stream: its AudioStreaming interface in alternate
/// setting 0 (no endpoint, zero bandwidth) and 1 (live data), the
/// class-specific AS interface and format descriptors, then its data
/// endpoint and the class-specific endpoint descriptor.
pub open spec fn spec_stream_records<D>(stream: StreamState<D>, role: EndpointRole) -> Seq<ConfigRecord> {
    seq![
        ConfigRecord::Interface {
            number: stream.interface,
            alternate_setting: 0,
            interface_class: 1,
            interface_sub_class: 2,
            interface_protocol: 0x20,
        },
        ConfigRecord::Interface {
            number: stream.interface,
            alternate_setting: 1,
            interface_class: 1,
            interface_sub_class: 2,
            interface_protocol: 0x20,
        },
        ConfigRecord::ClassSpecific(ClassDescriptor::StreamGeneral(spec_stream_general(stream.config))),
        ConfigRecord::ClassSpecific(ClassDescriptor::Format(stream.config.spec_format())),
        ConfigRecord::Endpoint(role),
        ConfigRecord::ClassSpecific(ClassDescriptor::StreamEndpoint(spec_stream_endpoint(stream.config))),
    ]
}

/// In the configuration, each stream's class-specific AS interface
/// descriptor links (bTerminalLink) to that stream's USB streaming terminal
/// among the AC terminal descriptors: the input terminal of type USB
/// streaming for the stream from the host, the output terminal of type USB
/// streaming for the stream to the host. It declares the channels of that
/// terminal, PCM of format type I, and is followed by the stream's format.
pub proof fn lemma_streams_link_usb_terminals(s: ClassState)
    ensures
        s.output matches Some(o) ==> {
            let recs = spec_stream_records(o, EndpointRole::AudioOut);
            &&& s.spec_terminal_records()[0] matches ConfigRecord::ClassSpecific(ClassDescriptor::Input(it))
            &&& recs[2] matches ConfigRecord::ClassSpecific(ClassDescriptor::StreamGeneral(g))
            &&& it.terminal_type == TerminalType::UsbStreaming
            &&& g.terminal_id == it.id
            &&& g.num_channels == it.num_channels && g.channel_config == it.channel_config
            &&& g.format_type == FormatType::Type1 && g.format_bitmap == Type1FormatBitmap::Pcm
            &&& recs[3] == ConfigRecord::ClassSpecific(ClassDescriptor::Format(o.config.spec_format()))
        },
        s.input matches Some(i) ==> {
            let recs = spec_stream_records(i, EndpointRole::AudioIn);
            let k = if s.output is Some { 3int } else { 1int };
            &&& s.spec_terminal_records()[k] matches ConfigRecord::ClassSpecific(ClassDescriptor::Output(ot))
            &&& s.spec_terminal_records()[k - 1] matches ConfigRecord::ClassSpecific(ClassDescriptor::Input(it))
            &&& recs[2] matches ConfigRecord::ClassSpecific(ClassDescriptor::StreamGeneral(g))
            &&& ot.terminal_type == TerminalType::UsbStreaming
            &&& g.terminal_id == ot.id
            &&& g.num_channels == it.num_channels && g.channel_config == it.channel_config
            &&& g.format_type == FormatType::Type1 && g.format_bitmap == Type1FormatBitmap::Pcm
            &&& recs[3] == ConfigRecord::ClassSpecific(ClassDescriptor::Format(i.config.spec_format()))
        },
{
}

fn stream_records<D>(stream: &StreamState<D>, role: EndpointRole) -> (r: Vec<ConfigRecord>)
    ensures
        r@ == spec_stream_records(*stream, role),
{
    let mut v: Vec<ConfigRecord> = Vec::new();
    let class = USB_CLASS_AUDIO;
    let sub_class = InterfaceSubclass::AudioStreaming.value();
    let protocol = InterfaceProtocol::Version2.value();
    // zero bandwidth configuration: alternate setting 0 has no data endpoint
    v.push(
        ConfigRecord::Interface {
            number: stream.interface,
            alternate_setting: 0,
            interface_class: class,
            interface_sub_class: sub_class,
            interface_protocol: protocol,
        },
    );
    // live data configuration
    v.push(
        ConfigRecord::Interface {
            number: stream.interface,
            alternate_setting: 1,
            interface_class: class,
            interface_sub_class: sub_class,
            interface_protocol: protocol,
        },
    );
    let as_general = AudioStreamingInterface {
        terminal_id: stream.config.base_id(),  // Always the USB streaming terminal id
        active_alt_setting: AccessControl::NotPresent,
        valid_alt_settings: AccessControl::NotPresent,
        format_type: FormatType::Type1,
        format_bitmap: Type1FormatBitmap::Pcm,  // only PCM is supported
        num_channels: stream.config.num_channels(),
        channel_config: stream.config.channel_config(),
        string: stream.config.string(),
    };
    v.push(ConfigRecord::ClassSpecific(ClassDescriptor::StreamGeneral(as_general)));
    v.push(ConfigRecord::ClassSpecific(ClassDescriptor::Format(stream.config.format())));
    v.push(ConfigRecord::Endpoint(role));
    let cs_ep = AudioStreamingEndpoint {
        max_packets_only: false,
        pitch_control: AccessControl::NotPresent,
        overrun_control: AccessControl::NotPresent,
        underrun_control: AccessControl::NotPresent,
        lock_delay: stream.config.lock_delay(),
    };
    v.push(ConfigRecord::ClassSpecific(ClassDescriptor::StreamEndpoint(cs_ep)));
    assert(v@ =~= spec_stream_records(*stream, role));
    v
}

/// The sum of the stated sizes of the class-specific descriptors among
/// `records`.
pub open spec fn records_length(records: Seq<ConfigRecord>) -> int
    decreases records.len(),
{
    if records.len() == 0 {
        0
    } else {
        records_length(records.drop_last()) + match records.last() {
            ConfigRecord::ClassSpecific(d) => d.spec_size(),
            _ => 0,
        }
    }
}

/// Every class-specific descriptor of the configuration is written as as
/// many bytes as its length byte states.
pub proof fn lemma_class_descriptor_bytes_len(d: ClassDescriptor)
    ensures
        d.spec_bytes().len() == d.spec_size(),
{
}

/// The bytes of the class-specific descriptors among `records`, one after
/// the other.
pub open spec fn records_bytes(records: Seq<ConfigRecord>) -> Seq<u8>
    decreases records.len(),
{
    if records.len() == 0 {
        Seq::<u8>::empty()
    } else {
        records_bytes(records.drop_last()) + match records.last() {
            ConfigRecord::ClassSpecific(d) => d.spec_bytes(),
            _ => Seq::<u8>::empty(),
        }
    }
}

proof fn lemma_records_bytes_len(records: Seq<ConfigRecord>)
    ensures
        records_bytes(records).len() == records_length(records),
    decreases records.len(),
{
    if records.len() > 0 {
        lemma_records_bytes_len(records.drop_last());
        if let ConfigRecord::ClassSpecific(d) = records.last() {
            lemma_class_descriptor_bytes_len(d);
        }
    }
}

/// The records of the additional descriptors.
pub open spec fn spec_additional_records(descs: Seq<AudioClassDescriptor>) -> Seq<ConfigRecord> {
    descs.map_values(|d: AudioClassDescriptor| ConfigRecord::ClassSpecific(ClassDescriptor::Additional(d)))
}

impl<'a> ClassState<'a> {
    /// The additional descriptors, none when there are none.
    pub open spec fn spec_additional(&self) -> Seq<AudioClassDescriptor> {
        match self.additional_descriptors {
            Some(d) => d@,
            None => Seq::<AudioClassDescriptor>::empty(),
        }
    }

    /// The number of interfaces of the function: the control interface and
    /// one per stream.
    pub open spec fn spec_interface_count(&self) -> int {
        1 + (if self.input is Some { 1int } else { 0int }) + (if self.output is Some { 1int } else { 0int })
    }

    /// wTotalLength of the AC header: the header, the clock source, two
    /// terminals per stream and the additional descriptors.
    pub open spec fn spec_total_length(&self) -> int {
        9 + 8 + (if self.output is Some { 29int } else { 0int }) + (if self.input is Some { 29int } else { 0int })
            + descriptors_size(self.spec_additional())
    }

    /// Whether the configuration can be described: the total length fits in
    /// 16 bits and each stream's audio terminal id fits in a byte.
    pub open spec fn spec_records_fit(&self) -> bool {
        &&& self.spec_total_length() <= u16::MAX
        &&& self.output matches Some(o) ==> o.config.spec_base_id() < 255
        &&& self.input matches Some(i) ==> i.config.spec_base_id() < 255
    }

    /// The class-specific AC descriptors: the header, the clock source, the
    /// terminals of the output stream, then of the input stream, then the
    /// additional descriptors.
    pub open spec fn spec_ac_records(&self, clock: ClockSource) -> Seq<ConfigRecord> {
        seq![
            ConfigRecord::ClassSpecific(ClassDescriptor::AcHeader {
                category: self.device_category,
                total_length: self.spec_total_length() as u16,
            }),
            ConfigRecord::ClassSpecific(ClassDescriptor::Clock(clock)),
        ] + self.spec_terminal_records() + spec_additional_records(self.spec_additional())
    }

    /// The configuration descriptors of the function, in the order they are
    /// written: the interface association, the AudioControl interface, the
    /// class-specific AC descriptors, the input stream, the output stream and
    /// the feedback endpoint.
    pub open spec fn spec_configuration_records(&self, clock: ClockSource) -> Seq<ConfigRecord> {
        seq![
            ConfigRecord::InterfaceAssociation {
                first_interface: self.control_iface,
                interface_count: self.spec_interface_count() as u8,
                function_class: 1,
                function_sub_class: 0,
                function_protocol: 0x20,
            },
            ConfigRecord::Interface {
                number: self.control_iface,
                alternate_setting: 0,
                interface_class: 1,
                interface_sub_class: 1,
                interface_protocol: 0x20,
            },
        ] + self.spec_ac_records(clock) + match self.input {
            Some(i) => spec_stream_records(i, EndpointRole::AudioIn),
            None => Seq::<ConfigRecord>::empty(),
        } + match self.output {
            Some(o) => spec_stream_records(o, EndpointRole::AudioOut),
            None => Seq::<ConfigRecord>::empty(),
        } + if self.has_feedback {
            seq![ConfigRecord::Endpoint(EndpointRole::Feedback)]
        } else {
            Seq::<ConfigRecord>::empty()
        }
    }

    /// The terminal records: those of the output stream, then those of the
    /// input stream.
    pub open spec fn spec_terminal_records(&self) -> Seq<ConfigRecord> {
        (match self.output {
            Some(o) => seq![
                ConfigRecord::ClassSpecific(ClassDescriptor::Input(spec_out_terminals(&o.config).0)),
                ConfigRecord::ClassSpecific(ClassDescriptor::Output(spec_out_terminals(&o.config).1)),
            ],
            None => Seq::<ConfigRecord>::empty(),
        }) + (match self.input {
            Some(i) => seq![
                ConfigRecord::ClassSpecific(ClassDescriptor::Input(spec_in_terminals(&i.config).0)),
                ConfigRecord::ClassSpecific(ClassDescriptor::Output(spec_in_terminals(&i.config).1)),
            ],
            None => Seq::<ConfigRecord>::empty(),
        })
    }

    /// Whether the configuration can be described: wTotalLength fits in 16
    /// bits and each stream's audio terminal id fits in a byte.
    pub fn records_fit(&self) -> (r: bool)
        ensures
            r == self.spec_records_fit(),
    {
        if let Some(o) = &self.output {
            if o.config.base_id() == 255 {
                return false;
            }
        }
        if let Some(i) = &self.input {
            if i.config.base_id() == 255 {
                return false;
            }
        }
        let base: u32 = 9 + 8 + (if self.output.is_some() { 29u32 } else { 0u32 }) + (if self.input.is_some() {
            29u32
        } else {
            0u32
        });
        let descs: &[AudioClassDescriptor] = match self.additional_descriptors {
            Some(d) => d,
            None => {
                proof {
                    assert(descriptors_size(Seq::<AudioClassDescriptor>::empty()) == 0);
                }
                return true;
            },
        };
        let mut total: u32 = base;
        let mut i: usize = 0;
        proof {
            assert(descs@.take(0) =~= Seq::<AudioClassDescriptor>::empty());
        }
        while i < descs.len()
            invariant
                i <= descs@.len(),
                descs@ == self.spec_additional(),
                base == self.spec_total_length() - descriptors_size(descs@),
                total == base + descriptors_size(descs@.take(i as int)),
                total <= u16::MAX,
            decreases descs@.len() - i,
        {
            proof {
                assert(descs@.take(i + 1).drop_last() =~= descs@.take(i as int));
                lemma_descriptors_prefix_size(descs@, i + 1);
            }
            total = total + descs[i].size() as u32;
            if total > 65535 {
                return false;
            }
            i = i + 1;
        }
        assert(descs@.take(descs@.len() as int) =~= descs@);
        true
    }

    fn terminal_records(&self) -> (r: Vec<ConfigRecord>)
        requires
            self.spec_records_fit(),
        ensures
            r@ == self.spec_terminal_records(),
    {
        let mut v: Vec<ConfigRecord> = Vec::new();
        // UAC2 4.7.2.4 & 4.7.2.5 Input & Output Terminal Descriptors
        match &self.output {
            Some(stream) => {
                let descs = stream.config.get_configuration_descriptors();
                v.push(ConfigRecord::ClassSpecific(ClassDescriptor::Input(descs.0)));
                v.push(ConfigRecord::ClassSpecific(ClassDescriptor::Output(descs.1)));
            },
            None => {},
        }
        let ghost mid = v@;
        match &self.input {
            Some(stream) => {
                let descs = stream.config.get_configuration_descriptors();
                v.push(ConfigRecord::ClassSpecific(ClassDescriptor::Input(descs.0)));
                v.push(ConfigRecord::ClassSpecific(ClassDescriptor::Output(descs.1)));
            },
            None => {},
        }
        assert(v@ =~= self.spec_terminal_records());
        v
    }

    /// The configuration descriptors of the function, in the order they are
    /// written, with the clock source descriptor `clock`.
    #[verifier::rlimit(50)]
    pub fn configuration_records(&self, clock: ClockSource) -> (r: Vec<ConfigRecord>)
        requires
            self.spec_records_fit(),
        ensures
            r@ == self.spec_configuration_records(clock),
    {
        // Control + 0-2 streaming
        let n_interfaces: u8 = 1 + (if self.input.is_some() { 1u8 } else { 0u8 }) + (if self.output.is_some() {
            1u8
        } else {
            0u8
        });
        let mut v: Vec<ConfigRecord> = Vec::new();
        // UAC2 4.6 Interface Association Descriptor
        v.push(
            ConfigRecord::InterfaceAssociation {
                first_interface: self.control_iface,
                interface_count: n_interfaces,
                function_class: USB_CLASS_AUDIO,
                function_sub_class: InterfaceSubclass::Undefined.value(),
                function_protocol: FunctionProtocol::Version2.value(),
            },
        );
        // UAC2 4.7 Standard AC Interface Descriptor
        v.push(
            ConfigRecord::Interface {
                number: self.control_iface,
                alternate_setting: 0,
                interface_class: USB_CLASS_AUDIO,
                interface_sub_class: InterfaceSubclass::AudioControl.value(),
                interface_protocol: InterfaceProtocol::Version2.value(),
            },
        );
        let streams_length: u16 = (if self.output.is_some() { 29u16 } else { 0u16 }) + (if self.input.is_some() {
            29u16
        } else {
            0u16
        });
        let base_length: u16 = 9 + clock.size() as u16 + streams_length;
        let mut terminals = self.terminal_records();
        let (mut additional, total_length) = match self.additional_descriptors {
            Some(descs) => additional_records(descs, base_length),
            None => {
                proof {
                    assert(spec_additional_records(Seq::<AudioClassDescriptor>::empty()) =~= Seq::<ConfigRecord>::empty());
                }
                (Vec::new(), base_length)
            },
        };
        proof {
            lemma_descriptors_bytes_len(self.spec_additional());
        }
        assert(total_length == self.spec_total_length());
        let ghost start = v@;
        // UAC2 4.7.2 Class-specific AC Interface Descriptor
        v.push(
            ConfigRecord::ClassSpecific(ClassDescriptor::AcHeader { category: self.device_category, total_length }),
        );
        // UAC2 4.7.2.1 Clock Source Descriptor
        v.push(ConfigRecord::ClassSpecific(ClassDescriptor::Clock(clock)));
        v.append(&mut terminals);
        // UAC2 4.7
        v.append(&mut additional);
        assert(v@ =~= start + self.spec_ac_records(clock));
        let ghost after_ac = v@;
        // UAC2 4.9 & 2.4.10
        match &self.input {
            Some(stream) => {
                let mut recs = stream_records(stream, EndpointRole::AudioIn);
                v.append(&mut recs);
            },
            None => {},
        }
        match &self.output {
            Some(stream) => {
                let mut recs = stream_records(stream, EndpointRole::AudioOut);
                v.append(&mut recs);
            },
            None => {},
        }
        // UAC2 4.9.2.1 Feedback Endpoint Descriptor
        //   Should always be present if an OUT endpoint is present
        if self.has_feedback {
            v.push(ConfigRecord::Endpoint(EndpointRole::Feedback));
        }
        assert(v@ =~= self.spec_configuration_records(clock));
        v
    }
}

/// The records of the additional descriptors `descs`, and `base` plus the sum
/// of their sizes.
fn additional_records(descs: &[AudioClassDescriptor], base: u16) -> (r: (Vec<ConfigRecord>, u16))
    requires
        base + descriptors_size(descs@) <= u16::MAX,
    ensures
        r.0@ == spec_additional_records(descs@),
        r.1 == base + descriptors_size(descs@),
{
    let mut v: Vec<ConfigRecord> = Vec::new();
    let mut total: u16 = base;
    let mut i: usize = 0;
    proof {
        assert(descs@.take(0) =~= Seq::<AudioClassDescriptor>::empty());
        assert(spec_additional_records(descs@.take(0)) =~= Seq::<ConfigRecord>::empty());
    }
    while i < descs.len()
        invariant
            i <= descs@.len(),
            base + descriptors_size(descs@) <= u16::MAX,
            total == base + descriptors_size(descs@.take(i as int)),
            v@ == spec_additional_records(descs@.take(i as int)),
        decreases descs@.len() - i,
    {
        proof {
            assert(descs@.take(i + 1).drop_last() =~= descs@.take(i as int));
            lemma_descriptors_prefix_size(descs@, i + 1);
        }
        total = total + descs[i].size() as u16;
        v.push(ConfigRecord::ClassSpecific(ClassDescriptor::Additional(descs[i])));
        proof {
            assert(spec_additional_records(descs@.take(i + 1)) =~= spec_additional_records(descs@.take(i as int)).push(
                ConfigRecord::ClassSpecific(ClassDescriptor::Additional(descs@[i as int])),
            ));
        }
        i = i + 1;
    }
    proof {
        assert(descs@.take(descs@.len() as int) =~= descs@);
    }
    (v, total)
}
proof fn lemma_records_length_concat(a: Seq<ConfigRecord>, b: Seq<ConfigRecord>)
    ensures
        records_length(a + b) == records_length(a) + records_length(b),
    decreases b.len(),
{
    if b.len() > 0 {
        lemma_records_length_concat(a, b.drop_last());
        assert((a + b).drop_last() =~= a + b.drop_last());
    } else {
        assert(a + b =~= a);
    }
}

proof fn lemma_additional_records_length(descs: Seq<AudioClassDescriptor>)
    ensures
        records_length(spec_additional_records(descs)) == descriptors_size(descs),
    decreases descs.len(),
{
    if descs.len() > 0 {
        lemma_additional_records_length(descs.drop_last());
        assert(spec_additional_records(descs).drop_last() =~= spec_additional_records(descs.drop_last()));
    }
}

/// The AC header's wTotalLength counts exactly the class-specific AC
/// descriptors that follow the standard AC interface: the header itself, the
/// clock source, the terminals and the additional descriptors, each by the
/// size it states, and it is the number of bytes those descriptors are
/// written as.
pub proof fn lemma_total_length_counts_ac_descriptors(s: ClassState, clock: ClockSource)
    requires
        s.spec_records_fit(),
    ensures
        s.spec_ac_records(clock)[0] == ConfigRecord::ClassSpecific(
            ClassDescriptor::AcHeader {
                category: s.device_category,
                total_length: records_length(s.spec_ac_records(clock)) as u16,
            },
        ),
        records_length(s.spec_ac_records(clock)) == s.spec_total_length(),
        records_bytes(s.spec_ac_records(clock)).len() == s.spec_total_length(),
{
    lemma_records_bytes_len(s.spec_ac_records(clock));
    let head = seq![
        ConfigRecord::ClassSpecific(ClassDescriptor::AcHeader {
            category: s.device_category,
            total_length: s.spec_total_length() as u16,
        }),
        ConfigRecord::ClassSpecific(ClassDescriptor::Clock(clock)),
    ];
    let terms = s.spec_terminal_records();
    let adds = spec_additional_records(s.spec_additional());
    assert(records_length(head) == 17) by {
        reveal_with_fuel(records_length, 3);
        assert(head.drop_last() =~= seq![head[0]]);
        assert(head.drop_last().drop_last() =~= Seq::<ConfigRecord>::empty());
    }
    let out_terms = match s.output {
        Some(o) => seq![
            ConfigRecord::ClassSpecific(ClassDescriptor::Input(spec_out_terminals(&o.config).0)),
            ConfigRecord::ClassSpecific(ClassDescriptor::Output(spec_out_terminals(&o.config).1)),
        ],
        None => Seq::<ConfigRecord>::empty(),
    };
    let in_terms = match s.input {
        Some(i) => seq![
            ConfigRecord::ClassSpecific(ClassDescriptor::Input(spec_in_terminals(&i.config).0)),
            ConfigRecord::ClassSpecific(ClassDescriptor::Output(spec_in_terminals(&i.config).1)),
        ],
        None => Seq::<ConfigRecord>::empty(),
    };
    assert(records_length(out_terms) == (if s.output is Some { 29int } else { 0int })) by {
        if s.output is Some {
            reveal_with_fuel(records_length, 3);
            assert(out_terms.drop_last() =~= seq![out_terms[0]]);
            assert(out_terms.drop_last().drop_last() =~= Seq::<ConfigRecord>::empty());
        }
    }
    assert(records_length(in_terms) == (if s.input is Some { 29int } else { 0int })) by {
        if s.input is Some {
            reveal_with_fuel(records_length, 3);
            assert(in_terms.drop_last() =~= seq![in_terms[0]]);
            assert(in_terms.drop_last().drop_last() =~= Seq::<ConfigRecord>::empty());
        }
    }
    lemma_records_length_concat(out_terms, in_terms);
    lemma_additional_records_length(s.spec_additional());
    lemma_records_length_concat(head, terms);
    lemma_records_length_concat(head + terms, adds);
}

/// The number of interfaces among `records`: their interface descriptors in
/// alternate setting 0.
pub open spec fn records_interfaces(records: Seq<ConfigRecord>) -> int
    decreases records.len(),
{
    if records.len() == 0 {
        0
    } else {
        records_interfaces(records.drop_last()) + match records.last() {
            ConfigRecord::Interface { alternate_setting, .. } => if alternate_setting == 0 {
                1int
            } else {
                0int
            },
            _ => 0int,
        }
    }
}

proof fn lemma_records_interfaces_concat(a: Seq<ConfigRecord>, b: Seq<ConfigRecord>)
    ensures
        records_interfaces(a + b) == records_interfaces(a) + records_interfaces(b),
    decreases b.len(),
{
    if b.len() > 0 {
        lemma_records_interfaces_concat(a, b.drop_last());
        assert((a + b).drop_last() =~= a + b.drop_last());
    } else {
        assert(a + b =~= a);
    }
}

proof fn lemma_additional_records_interfaces(descs: Seq<AudioClassDescriptor>)
    ensures
        records_interfaces(spec_additional_records(descs)) == 0,
    decreases descs.len(),
{
    if descs.len() > 0 {
        lemma_additional_records_interfaces(descs.drop_last());
        assert(spec_additional_records(descs).drop_last() =~= spec_additional_records(descs.drop_last()));
    }
}

proof fn lemma_stream_records_interfaces<D>(stream: StreamState<D>, role: EndpointRole)
    ensures
        records_interfaces(spec_stream_records(stream, role)) == 1,
{
    let r = spec_stream_records(stream, role);
    reveal_with_fuel(records_interfaces, 7);
    assert(r.drop_last() =~= r.take(5));
    assert(r.take(5).drop_last() =~= r.take(4));
    assert(r.take(4).drop_last() =~= r.take(3));
    assert(r.take(3).drop_last() =~= r.take(2));
    assert(r.take(2).drop_last() =~= r.take(1));
    assert(r.take(1).drop_last() =~= Seq::<ConfigRecord>::empty());
}

/// The interface association counts exactly the interfaces the
/// configuration declares: the AudioControl interface and one
/// AudioStreaming interface per stream, each in its alternate setting 0.
pub proof fn lemma_interface_count_matches(s: ClassState, clock: ClockSource)
    ensures
        s.spec_configuration_records(clock)[0] matches ConfigRecord::InterfaceAssociation { interface_count, .. }
            && interface_count == s.spec_interface_count(),
        records_interfaces(s.spec_configuration_records(clock)) == s.spec_interface_count(),
{
    let head = seq![
        ConfigRecord::InterfaceAssociation {
            first_interface: s.control_iface,
            interface_count: s.spec_interface_count() as u8,
            function_class: 1,
            function_sub_class: 0,
            function_protocol: 0x20,
        },
        ConfigRecord::Interface {
            number: s.control_iface,
            alternate_setting: 0,
            interface_class: 1,
            interface_sub_class: 1,
            interface_protocol: 0x20,
        },
    ];
    assert(records_interfaces(head) == 1) by {
        reveal_with_fuel(records_interfaces, 3);
        assert(head.drop_last() =~= seq![head[0]]);
        assert(head.drop_last().drop_last() =~= Seq::<ConfigRecord>::empty());
    }
    let ac_head = seq![
        ConfigRecord::ClassSpecific(ClassDescriptor::AcHeader {
            category: s.device_category,
            total_length: s.spec_total_length() as u16,
        }),
        ConfigRecord::ClassSpecific(ClassDescriptor::Clock(clock)),
    ];
    assert(records_interfaces(ac_head) == 0) by {
        reveal_with_fuel(records_interfaces, 3);
        assert(ac_head.drop_last() =~= seq![ac_head[0]]);
        assert(ac_head.drop_last().drop_last() =~= Seq::<ConfigRecord>::empty());
    }
    let out_terms = match s.output {
        Some(o) => seq![
            ConfigRecord::ClassSpecific(ClassDescriptor::Input(spec_out_terminals(&o.config).0)),
            ConfigRecord::ClassSpecific(ClassDescriptor::Output(spec_out_terminals(&o.config).1)),
        ],
        None => Seq::<ConfigRecord>::empty(),
    };
    let in_terms = match s.input {
        Some(i) => seq![
            ConfigRecord::ClassSpecific(ClassDescriptor::Input(spec_in_terminals(&i.config).0)),
            ConfigRecord::ClassSpecific(ClassDescriptor::Output(spec_in_terminals(&i.config).1)),
        ],
        None => Seq::<ConfigRecord>::empty(),
    };
    assert(records_interfaces(out_terms) == 0) by {
        reveal_with_fuel(records_interfaces, 3);
        if s.output is Some {
            assert(out_terms.drop_last() =~= seq![out_terms[0]]);
            assert(out_terms.drop_last().drop_last() =~= Seq::<ConfigRecord>::empty());
        }
    }
    assert(records_interfaces(in_terms) == 0) by {
        reveal_with_fuel(records_interfaces, 3);
        if s.input is Some {
            assert(in_terms.drop_last() =~= seq![in_terms[0]]);
            assert(in_terms.drop_last().drop_last() =~= Seq::<ConfigRecord>::empty());
        }
    }
    lemma_records_interfaces_concat(out_terms, in_terms);
    assert(s.spec_terminal_records() == out_terms + in_terms);
    let adds = spec_additional_records(s.spec_additional());
    lemma_additional_records_interfaces(s.spec_additional());
    lemma_records_interfaces_concat(ac_head, s.spec_terminal_records());
    lemma_records_interfaces_concat(ac_head + s.spec_terminal_records(), adds);
    assert(s.spec_ac_records(clock) == ac_head + s.spec_terminal_records() + adds);
    let ins = match s.input {
        Some(i) => spec_stream_records(i, EndpointRole::AudioIn),
        None => Seq::<ConfigRecord>::empty(),
    };
    let outs = match s.output {
        Some(o) => spec_stream_records(o, EndpointRole::AudioOut),
        None => Seq::<ConfigRecord>::empty(),
    };
    let fb = if s.has_feedback {
        seq![ConfigRecord::Endpoint(EndpointRole::Feedback)]
    } else {
        Seq::<ConfigRecord>::empty()
    };
    if let Some(i) = s.input {
        lemma_stream_records_interfaces(i, EndpointRole::AudioIn);
    }
    if let Some(o) = s.output {
        lemma_stream_records_interfaces(o, EndpointRole::AudioOut);
    }
    assert(records_interfaces(fb) == 0) by {
        reveal_with_fuel(records_interfaces, 2);
        if s.has_feedback {
            assert(fb.drop_last() =~= Seq::<ConfigRecord>::empty());
        }
    }
    lemma_records_interfaces_concat(head, s.spec_ac_records(clock));
    lemma_records_interfaces_concat(head + s.spec_ac_records(clock), ins);
    lemma_records_interfaces_concat(head + s.spec_ac_records(clock) + ins, outs);
    lemma_records_interfaces_concat(head + s.spec_ac_records(clock) + ins + outs, fb);
    assert(s.spec_configuration_records(clock) == head + s.spec_ac_records(clock) + ins + outs + fb);
}

impl<'a> ClassState<'a> {
    /// The state of a function whose control interface is `control_iface`,
    /// before any stream is added: no stream, no feedback endpoint, and
    /// every streaming interface and endpoint number 0.
    pub fn new(
        control_iface: u8,
        device_category: FunctionCode,
        speed: UsbSpeed,
        audio_rate: u32,
        additional_descriptors: Option<&'a [AudioClassDescriptor]>,
    ) -> (r: Self)
        ensures
            r.control_iface == control_iface,
            r.device_category == device_category,
            r.output is None,
            r.input is None,
            !r.has_feedback,
            r.additional_descriptors == additional_descriptors,
            r.in_iface == 0,
            r.out_iface == 0,
            r.in_ep == 0,
            r.out_ep == 0,
            r.fb_ep == 0,
            r.speed == speed,
            r.audio_rate == audio_rate,
    {
        ClassState {
            control_iface,
            device_category,
            output: None,
            input: None,
            has_feedback: false,
            additional_descriptors,
            in_iface: 0,
            out_iface: 0,
            in_ep: 0,
            out_ep: 0,
            fb_ep: 0,
            speed,
            audio_rate,
        }
    }

    /// Adds the stream from the host on AudioStreaming interface `interface`,
    /// in the default alternate setting 0, with its data endpoint and its
    /// feedback endpoint.
    pub fn add_output(&mut self, config: TerminalConfig<Out>, interface: u8, endpoint: usize, feedback_endpoint: usize)
        ensures
            final(self).output == Some(StreamState { config, interface, alt_setting: 0 }),
            final(self).out_iface == interface,
            final(self).out_ep == endpoint,
            final(self).fb_ep == feedback_endpoint,
            final(self).has_feedback,
            final(self).input == old(self).input,
            final(self).in_iface == old(self).in_iface,
            final(self).in_ep == old(self).in_ep,
            final(self).control_iface == old(self).control_iface,
            final(self).device_category == old(self).device_category,
            final(self).additional_descriptors == old(self).additional_descriptors,
            final(self).speed == old(self).speed,
            final(self).audio_rate == old(self).audio_rate,
    {
        self.out_iface = interface;
        self.out_ep = endpoint;
        self.fb_ep = feedback_endpoint;
        self.output = Some(StreamState { config, interface, alt_setting: 0 });
        self.has_feedback = true;
    }

    /// Adds the stream to the host on AudioStreaming interface `interface`,
    /// in the default alternate setting 0, with its data endpoint.
    pub fn add_input(&mut self, config: TerminalConfig<In>, interface: u8, endpoint: usize)
        ensures
            final(self).input == Some(StreamState { config, interface, alt_setting: 0 }),
            final(self).in_iface == interface,
            final(self).in_ep == endpoint,
            final(self).output == old(self).output,
            final(self).out_iface == old(self).out_iface,
            final(self).out_ep == old(self).out_ep,
            final(self).fb_ep == old(self).fb_ep,
            final(self).has_feedback == old(self).has_feedback,
            final(self).control_iface == old(self).control_iface,
            final(self).device_category == old(self).device_category,
            final(self).additional_descriptors == old(self).additional_descriptors,
            final(self).speed == old(self).speed,
            final(self).audio_rate == old(self).audio_rate,
    {
        self.in_iface = interface;
        self.in_ep = endpoint;
        self.input = Some(StreamState { config, interface, alt_setting: 0 });
    }
}

} // verus!
