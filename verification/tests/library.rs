use usb_device::endpoint::{In, IsochronousSynchronizationType, Out};
use usb_device::UsbError;
use usbd_uac2::constants::{
    ClassSpecificRequest, ClockSourceControlSelector, FunctionCode, InterfaceProtocol, InterfaceSubclass,
    TerminalType,
};
use usbd_uac2::control::{
    clock_validity_response, feedback_payload, sample_rate_range_response, sample_rate_response, ClassDescriptor,
    ClassState, ConfigRecord, ControlInAction, ControlOutAction, ControlRequest, EndpointRole, Recipient,
    RequestType, ResponseError, StreamDirection, GET_INTERFACE, SET_INTERFACE,
};
use usbd_uac2::cursor::{Cursor, CursorError};
use usbd_uac2::descriptors::{
    AccessControl, AudioClassDescriptor, AudioStreamingEndpoint, AudioStreamingInterface, ChannelConfig, ClockType,
    Descriptor, ExtensionUnit, FeatureControls, FormatType1, LockDelay, ProcessingUnit, SamplingFrequencySet,
    Type1FormatBitmap,
};
use usbd_uac2::{
    clock_source_descriptor, data_packet_size, frequency_access, max_rate, stream_timing, validity_access, Error,
    RangeEntry, TerminalConfig, TerminalConfigurationDescriptors, UsbAudioClassError, UsbIsochronousFeedback,
    UsbSpeed, USB_CLASS_AUDIO,
};

fn written<D: Descriptor>(d: &D) -> Vec<u8> {
    let mut buf = [0u8; 64];
    let n = {
        let mut cur = Cursor::new(&mut buf[..]);
        d.write(&mut cur).unwrap();
        cur.position()
    };
    buf[..n].to_vec()
}

fn out_config(base_id: u8) -> TerminalConfig<Out> {
    TerminalConfig::new(
        base_id,
        1,
        2,
        FormatType1 { bytes_per_sample: 4, bit_resolution: 24 },
        TerminalType::OutSpeaker,
        ChannelConfig::default_chans(2),
        IsochronousSynchronizationType::Asynchronous,
        LockDelay::Undefined(0),
        None,
    )
}

fn in_config(base_id: u8) -> TerminalConfig<In> {
    TerminalConfig::new(
        base_id,
        1,
        2,
        FormatType1 { bytes_per_sample: 4, bit_resolution: 24 },
        TerminalType::InMicrophone,
        ChannelConfig::default_chans(2),
        IsochronousSynchronizationType::Asynchronous,
        LockDelay::Milliseconds(10),
        Some(7),
    )
}

/// A function with both streams: control interface 0, output on interface 1
/// (endpoint 1, feedback 2), input on interface 2 (endpoint 3).
fn full_state() -> ClassState<'static> {
    let mut s = ClassState::new(0, FunctionCode::IoBox, UsbSpeed::High, 8000, None);
    s.add_output(out_config(2), 1, 1, 2);
    s.add_input(in_config(4), 2, 3);
    s
}

fn request(request_type: RequestType, recipient: Recipient, request: u8, value: u16, index: u16) -> ControlRequest {
    ControlRequest { request_type, recipient, request, value, index }
}

fn set_interface(iface: u16, alt: u16) -> ControlRequest {
    request(RequestType::Standard, Recipient::Interface, SET_INTERFACE, alt, iface)
}

fn get_interface(iface: u16) -> ControlRequest {
    request(RequestType::Standard, Recipient::Interface, GET_INTERFACE, 0, iface)
}

fn clock_request(code: u8, control: u8) -> ControlRequest {
    // entity 1 (the clock source) on the control interface 0
    request(RequestType::Class, Recipient::Interface, code, (control as u16) << 8, 1 << 8)
}

fn clock() -> usbd_uac2::descriptors::ClockSource {
    clock_source_descriptor(1, ClockType::InternalProgrammable, false, Ok(true), None).unwrap()
}

#[test]
fn feedback_from_16_16() {
    let fb = UsbIsochronousFeedback::new(0x0001_8000);
    assert_eq!(fb.int, 1);
    assert_eq!(fb.frac, 0x8000);
    assert_eq!(fb.to_u32_12_13(), 0x0001_8000);
    // 1.5 in 10.14
    assert_eq!(fb.to_u32_10_14(), 0x6000);
    assert_eq!(fb.to_bytes_12_13(), [0x00, 0x80, 0x01, 0x00]);
    assert_eq!(fb.to_bytes_10_14(), [0x00, 0x60, 0x00]);
}

#[test]
fn feedback_round_trip() {
    for v in [0u32, 1, 0x0030_0000, 0x0006_2000, 0xffff_ffff] {
        assert_eq!(UsbIsochronousFeedback::new(v).to_u32_12_13(), v);
    }
}

#[test]
fn feedback_new_frac_keeps_both_parts() {
    let fb = UsbIsochronousFeedback::new_frac(48, 0xc123);
    assert_eq!((fb.int, fb.frac), (48, 0xc123));
    // the 10.14 form keeps the top 14 bits of the 16-bit fraction
    assert_eq!(fb.to_u32_10_14(), (48 << 14) | (0xc123 >> 2));
}

#[test]
fn feedback_payload_by_speed() {
    let fb = UsbIsochronousFeedback::new(48 << 16);
    assert_eq!(feedback_payload(UsbSpeed::Full, fb), vec![0x00, 0x00, 0x0c]);
    assert_eq!(feedback_payload(UsbSpeed::Low, fb), vec![0x00, 0x00, 0x0c]);
    assert_eq!(feedback_payload(UsbSpeed::High, fb), vec![0x00, 0x00, 0x30, 0x00]);
    assert_eq!(feedback_payload(UsbSpeed::Super, fb), vec![0x00, 0x00, 0x30, 0x00]);
}

#[test]
fn range_entry_bytes_and_reported_length() {
    let e = RangeEntry::new(44100u32, 48000, 3900);
    let mut cur_buf = [0u8; 12];
    let mut cur = Cursor::new(&mut cur_buf[..]);
    assert_eq!(e.write(&mut cur), Ok(12));
    assert_eq!(
        cur_buf.to_vec(),
        vec![0x44, 0xac, 0, 0, 0x80, 0xbb, 0, 0, 0x3c, 0x0f, 0, 0]
    );
}

#[test]
fn range_entry_fixed_signed() {
    let e = RangeEntry::new_fixed(-2i16);
    assert_eq!((e.min, e.max, e.res), (-2, -2, 0));
    let mut cur_buf = [0u8; 6];
    let mut cur = Cursor::new(&mut cur_buf[..]);
    assert_eq!(e.write(&mut cur), Ok(6));
    assert_eq!(cur_buf.to_vec(), vec![0xfe, 0xff, 0xfe, 0xff, 0, 0]);
    let mut cur8_buf = [0u8; 3];
    let mut cur8 = Cursor::new(&mut cur8_buf[..]);
    assert_eq!(RangeEntry::new(1u8, 2, 1).write(&mut cur8), Ok(3));
    assert_eq!(cur8_buf.to_vec(), vec![1, 2, 1]);
    let mut cur_i8_buf = [0u8; 3];
    let mut cur_i8 = Cursor::new(&mut cur_i8_buf[..]);
    assert_eq!(RangeEntry::new(-1i8, 5, 2).write(&mut cur_i8), Ok(3));
    assert_eq!(cur_i8_buf.to_vec(), vec![0xff, 5, 2]);
}

#[test]
fn range_entry_write_overflow() {
    let e = RangeEntry::new(1u32, 2, 3);
    let mut cur_buf = [0u8; 5];
    let mut cur = Cursor::new(&mut cur_buf[..]);
    assert_eq!(e.write(&mut cur), Err(CursorError::WriteZero));
    assert_eq!(cur.position(), 5);
    assert_eq!(cur_buf.to_vec(), vec![1, 0, 0, 0, 2]);
}

#[test]
fn range_entry_i32() {
    let e = RangeEntry::new(-65536i32, 0x0102_0304, 1);
    let mut cur_buf = [0u8; 12];
    let mut cur = Cursor::new(&mut cur_buf[..]);
    assert_eq!(e.write(&mut cur), Ok(12));
    assert_eq!(cur_buf.to_vec(), vec![0, 0, 0xff, 0xff, 4, 3, 2, 1, 1, 0, 0, 0]);
}

#[test]
fn constants_values() {
    assert_eq!(USB_CLASS_AUDIO, 1);
    assert_eq!(TerminalType::UsbStreaming.value(), 0x0101);
    assert_eq!(FunctionCode::ProAudio.value(), 0x0a);
    assert_eq!(InterfaceSubclass::AudioStreaming.value(), 2);
    assert_eq!(InterfaceProtocol::Version2.value(), 0x20);
    assert_eq!(Type1FormatBitmap::Pcm.value(), 1);
    assert_eq!(Type1FormatBitmap::Raw.value(), 1 << 31);
    assert_eq!(AccessControl::Programmable.value(), 3);
    assert_eq!(ClockType::InternalProgrammable.value(), 3);
}

#[test]
fn request_codes_round_trip() {
    for c in [ClassSpecificRequest::Undefined, ClassSpecificRequest::Cur, ClassSpecificRequest::Range, ClassSpecificRequest::Mem] {
        assert_eq!(ClassSpecificRequest::from_value(c.value()), Some(c));
    }
    assert_eq!(ClassSpecificRequest::from_value(4), None);
    assert_eq!(ClockSourceControlSelector::from_value(1), Some(ClockSourceControlSelector::SamFreqControl));
    assert_eq!(ClockSourceControlSelector::from_value(2), Some(ClockSourceControlSelector::ClockValidControl));
    assert_eq!(ClockSourceControlSelector::from_value(3), None);
}

#[test]
fn default_channel_configs() {
    assert_eq!(ChannelConfig::default_chans(1).into_bytes(), [0x01, 0, 0, 0]);
    assert_eq!(ChannelConfig::default_chans(2).into_bytes(), [0x03, 0, 0, 0]);
    assert_eq!(ChannelConfig::default_chans(4).into_bytes(), [0x33, 0, 0, 0]);
    assert_eq!(ChannelConfig::default_chans(6).into_bytes(), [0x3f, 0, 0, 0]);
    assert_eq!(ChannelConfig::default_chans(8).into_bytes(), [0x3f, 0x06, 0, 0]);
}

#[test]
fn channel_config_bits() {
    let c = ChannelConfig::new().with_side_right(true).with_raw_data(true).with_back_right_of_center(true);
    assert_eq!(c.into_bytes(), [0x00, 0x04, 0x00, 0x84]);
    assert_eq!(ChannelConfig::from_bytes([1, 2, 3, 4]).into_bytes(), [1, 2, 3, 4]);
    let cleared = c.with_side_right(false);
    assert_eq!(cleared.into_bytes(), [0x00, 0x00, 0x00, 0x84]);
    assert_eq!(FeatureControls::from_bytes([9, 8, 7, 6]).into_bytes(), [9, 8, 7, 6]);
    assert_eq!(FeatureControls::new().into_bytes(), [0, 0, 0, 0]);
}

#[test]
fn processing_unit_writes_as_many_bytes_as_it_states() {
    let pu: ProcessingUnit<4> = ProcessingUnit {
        id: 9,
        process_type: 0x0102,
        sources: [3, 4, 0, 0],
        num_channels: 2,
        n_sources: 2,
        channel_config: ChannelConfig::default_chans(2),
        channel_names: 0,
        enable_control: AccessControl::ReadOnly,
        mode_select_control: AccessControl::NotPresent,
        cluster_control: AccessControl::NotPresent,
        underflow_control: AccessControl::NotPresent,
        overflow_control: AccessControl::NotPresent,
        latency_control: AccessControl::Programmable,
        string: 5,
    };
    assert_eq!(pu.size(), 18);
    let bytes = written(&pu);
    assert_eq!(bytes.len(), 18);
    assert_eq!(
        bytes,
        vec![18, 0x24, 0x08, 9, 0x02, 0x01, 2, 3, 4, 2, 0x03, 0, 0, 0, 0, 0x01, 0x0c, 5]
    );
}

#[test]
fn extension_unit_writes_as_many_bytes_as_it_states() {
    let xu: ExtensionUnit<2> = ExtensionUnit {
        id: 10,
        extension_code: 0xbeef,
        sources: [6, 0],
        n_sources: 1,
        num_channels: 1,
        channel_config: ChannelConfig::default_chans(1),
        channel_names: 0,
        enable_control: AccessControl::Programmable,
        cluster_control: AccessControl::ReadOnly,
        underflow_control: AccessControl::NotPresent,
        overflow_control: AccessControl::NotPresent,
        string: 0,
    };
    assert_eq!(xu.size(), 16);
    let bytes = written(&xu);
    assert_eq!(bytes.len(), 16);
    assert_eq!(bytes, vec![16, 0x24, 0x09, 10, 0xef, 0xbe, 1, 6, 1, 1, 0, 0, 0, 0, 0x07, 0]);
}

#[test]
fn streaming_interface_descriptor_bytes() {
    let d = AudioStreamingInterface {
        terminal_id: 2,
        active_alt_setting: AccessControl::ReadOnly,
        valid_alt_settings: AccessControl::ReadOnly,
        format_type: usbd_uac2::constants::FormatType::Type1,
        format_bitmap: Type1FormatBitmap::Pcm,
        num_channels: 2,
        channel_config: ChannelConfig::default_chans(2),
        string: None,
    };
    let bytes = written(&d);
    assert_eq!(bytes.len(), d.size() as usize);
    assert_eq!(bytes, vec![16, 0x24, 0x01, 2, 0x05, 0x01, 1, 0, 0, 0, 2, 3, 0, 0, 0, 0]);
}

#[test]
fn streaming_endpoint_descriptor_bytes() {
    let d = AudioStreamingEndpoint {
        max_packets_only: true,
        pitch_control: AccessControl::Programmable,
        overrun_control: AccessControl::ReadOnly,
        underrun_control: AccessControl::NotPresent,
        lock_delay: LockDelay::Milliseconds(0x0102),
    };
    let bytes = written(&d);
    assert_eq!(bytes, vec![8, 0x25, 0x01, 0x80, 0x07, 1, 0x02, 0x01]);
    assert_eq!(LockDelay::DecodedSamples(5).units(), 2);
    assert_eq!(LockDelay::DecodedSamples(5).delay(), 5);
    assert_eq!(LockDelay::Undefined(0).units(), 0);
}

#[test]
fn sampling_frequency_set_sizes() {
    let freqs = [44100u32, 48000, 96000];
    assert_eq!(SamplingFrequencySet::Discrete(&freqs).size(), 9);
    assert_eq!(SamplingFrequencySet::Continuous(8000, 96000).size(), 6);
}

#[test]
fn terminal_config_values() {
    let c = in_config(4);
    assert_eq!(c.bytes_per_frame(), 8);
    assert_eq!(c.base_id(), 4);
    assert_eq!(c.num_channels(), 2);
    assert_eq!(c.string(), Some(7));
    assert_eq!(c.lock_delay(), LockDelay::Milliseconds(10));
    assert_eq!(c.format(), FormatType1 { bytes_per_sample: 4, bit_resolution: 24 });
    assert_eq!(c.channel_config().into_bytes(), [3, 0, 0, 0]);
    assert!(matches!(c.sync_type(), IsochronousSynchronizationType::Asynchronous));
}

#[test]
fn terminals_of_the_output_stream_are_linked() {
    let (it, ot) = out_config(2).get_configuration_descriptors();
    assert_eq!(it.id, 2);
    assert_eq!(it.terminal_type, TerminalType::UsbStreaming);
    assert_eq!(ot.id, 3);
    assert_eq!(ot.source_id, 2);
    assert_eq!(ot.terminal_type, TerminalType::OutSpeaker);
    assert_eq!(it.clock_source, 1);
    assert_eq!(ot.clock_source, 1);
}

#[test]
fn terminals_of_the_input_stream_are_linked() {
    let (it, ot) = in_config(4).get_configuration_descriptors();
    assert_eq!(ot.id, 4);
    assert_eq!(ot.terminal_type, TerminalType::UsbStreaming);
    assert_eq!(it.id, 5);
    assert_eq!(ot.source_id, 5);
    assert_eq!(it.terminal_type, TerminalType::InMicrophone);
    assert_eq!(it.string, Some(7));
}

#[test]
fn clock_descriptor_access() {
    assert_eq!(frequency_access(ClockType::InternalFixed), AccessControl::ReadOnly);
    assert_eq!(frequency_access(ClockType::InternalVariable), AccessControl::ReadOnly);
    assert_eq!(frequency_access(ClockType::External), AccessControl::Programmable);
    assert_eq!(validity_access(Ok(false)), Ok(true));
    assert_eq!(validity_access(Err(UsbAudioClassError::NotImplemented)), Ok(false));
    assert_eq!(validity_access(Err(UsbAudioClassError::Other)), Err(UsbAudioClassError::Other));

    let cs = clock_source_descriptor(1, ClockType::External, true, Ok(true), Some(3)).unwrap();
    assert_eq!(cs.frequency_access, AccessControl::Programmable);
    assert_eq!(cs.validity_access, AccessControl::ReadOnly);
    assert_eq!((cs.id, cs.sof_sync, cs.assoc_terminal, cs.string), (1, true, 0, Some(3)));
    let cs = clock_source_descriptor(1, ClockType::InternalFixed, false, Err(UsbAudioClassError::NotImplemented), None)
        .unwrap();
    assert_eq!(cs.validity_access, AccessControl::NotPresent);
    assert_eq!(cs.frequency_access, AccessControl::ReadOnly);
    assert_eq!(clock_source_descriptor(1, ClockType::InternalFixed, false, Err(UsbAudioClassError::Other), None), None);
}

#[test]
fn timing_by_speed() {
    assert_eq!(stream_timing(UsbSpeed::Full).ok(), Some((1, 1, 1000)));
    assert_eq!(stream_timing(UsbSpeed::High).ok(), Some((1, 4, 8000)));
    assert_eq!(stream_timing(UsbSpeed::Super).ok(), Some((1, 4, 8000)));
    assert!(matches!(stream_timing(UsbSpeed::Low), Err(Error::InvalidSpeed)));
}

#[test]
fn max_rate_of_the_greatest_subrange() {
    let rates = [RangeEntry::new_fixed(44100u32), RangeEntry::new(48000, 96000, 48000), RangeEntry::new_fixed(32000)];
    assert_eq!(max_rate(&rates), 96000);
    assert_eq!(max_rate(&[RangeEntry::new_fixed(48000u32)]), 48000);
}

#[test]
fn packet_size_with_headroom() {
    assert_eq!(data_packet_size(48000, 1000, 8), 392);
    assert_eq!(data_packet_size(44100, 1000, 4), 184);
    assert_eq!(data_packet_size(96000, 8000, 8), 104);
    // truncated to 16 bits
    assert_eq!(data_packet_size(65535 * 1000, 1000, 1), 0);
}

#[test]
fn error_from_usb_error() {
    assert!(matches!(Error::from(UsbError::WouldBlock), Error::UsbError(UsbError::WouldBlock)));
}

#[test]
fn set_interface_changes_the_stream_once() {
    let mut s = full_state();
    assert_eq!(
        s.control_out(&set_interface(1, 1), &[]),
        ControlOutAction::AltSettingChanged { direction: StreamDirection::Out, alt_setting: 1, start_feedback: true }
    );
    assert_eq!(s.output.as_ref().unwrap().alt_setting, 1);
    assert_eq!(s.control_out(&set_interface(1, 1), &[]), ControlOutAction::Ignore);
    assert_eq!(
        s.control_out(&set_interface(2, 1), &[]),
        ControlOutAction::AltSettingChanged { direction: StreamDirection::In, alt_setting: 1, start_feedback: false }
    );
    assert_eq!(s.input.as_ref().unwrap().alt_setting, 1);
    // unknown interface
    assert_eq!(s.control_out(&set_interface(7, 1), &[]), ControlOutAction::Ignore);
}

#[test]
fn get_interface_reads_back_the_setting() {
    let mut s = full_state();
    assert_eq!(s.control_in(&get_interface(1)), ControlInAction::AltSetting(0));
    s.control_out(&set_interface(1, 1), &[]);
    assert_eq!(s.control_in(&get_interface(1)), ControlInAction::AltSetting(1));
    assert_eq!(s.control_in(&get_interface(2)), ControlInAction::AltSetting(0));
    assert_eq!(s.control_in(&get_interface(0)), ControlInAction::Ignore);
}

#[test]
fn set_sample_rate_reads_four_little_endian_bytes() {
    let mut s = full_state();
    let req = clock_request(ClassSpecificRequest::Cur.value(), ClockSourceControlSelector::SamFreqControl.value());
    assert_eq!(s.control_out(&req, &[0x80, 0xbb, 0x00, 0x00]), ControlOutAction::SetSampleRate(48000));
    assert_eq!(s.control_out(&req, &[0x44, 0xac, 0x00, 0x00, 0xff]), ControlOutAction::SetSampleRate(44100));
    // too short
    assert_eq!(s.control_out(&req, &[0x80, 0xbb, 0x00]), ControlOutAction::Ignore);
    // not the clock entity
    let other = request(RequestType::Class, Recipient::Interface, 1, 1 << 8, 2 << 8);
    assert_eq!(s.control_out(&other, &[0, 0, 0, 0]), ControlOutAction::Ignore);
    // a vendor request
    let vendor = request(RequestType::Vendor, Recipient::Interface, 1, 1 << 8, 1 << 8);
    assert_eq!(s.control_out(&vendor, &[0, 0, 0, 0]), ControlOutAction::Ignore);
}

#[test]
fn clock_requests_in() {
    let s = full_state();
    let cur = ClassSpecificRequest::Cur.value();
    let range = ClassSpecificRequest::Range.value();
    assert_eq!(s.control_in(&clock_request(cur, 1)), ControlInAction::SampleRate);
    assert_eq!(s.control_in(&clock_request(cur, 2)), ControlInAction::ClockValidity);
    assert_eq!(s.control_in(&clock_request(cur, 0)), ControlInAction::Ignore);
    assert_eq!(s.control_in(&clock_request(range, 1)), ControlInAction::SampleRateRange);
    assert_eq!(s.control_in(&clock_request(range, 2)), ControlInAction::Ignore);
    let endpoint = request(RequestType::Class, Recipient::Endpoint, cur, 1 << 8, 1 << 8);
    assert_eq!(s.control_in(&endpoint), ControlInAction::Ignore);
}

#[test]
fn sample_rate_and_validity_responses() {
    assert_eq!(sample_rate_response(48000, 64), Ok((vec![0x80, 0xbb, 0, 0], 4)));
    assert_eq!(sample_rate_response(48000, 3), Err(ResponseError::BufferOverflow));
    assert_eq!(clock_validity_response(Ok(true), 64), Ok((vec![1], 1)));
    assert_eq!(clock_validity_response(Ok(false), 64), Ok((vec![0], 1)));
    assert_eq!(clock_validity_response(Ok(true), 0), Ok((vec![], 1)));
    assert_eq!(clock_validity_response(Err(UsbAudioClassError::NotImplemented), 64), Err(ResponseError::InvalidState));
}

#[test]
fn sample_rate_range_response_bytes() {
    let rates = [RangeEntry::new_fixed(44100u32), RangeEntry::new_fixed(48000u32)];
    let (bytes, n) = sample_rate_range_response(Ok(&rates), 64).unwrap();
    assert_eq!(n, 2 + 2 * 12);
    assert_eq!(
        bytes,
        vec![
            2, 0, //
            0x44, 0xac, 0, 0, 0x44, 0xac, 0, 0, 0, 0, 0, 0, //
            0x80, 0xbb, 0, 0, 0x80, 0xbb, 0, 0, 0, 0, 0, 0,
        ]
    );
    assert_eq!(sample_rate_range_response(Ok(&rates), 25), Err(ResponseError::BufferOverflow));
    assert_eq!(sample_rate_range_response(Ok(&rates), 1), Err(ResponseError::BufferOverflow));
    assert_eq!(sample_rate_range_response(Ok(&[]), 2), Ok((vec![0, 0], 2)));
    assert_eq!(sample_rate_range_response(Err(UsbAudioClassError::Other), 64), Err(ResponseError::InvalidState));
}

#[test]
fn endpoint_events() {
    let mut s = full_state();
    assert!(s.is_audio_out_endpoint(1));
    assert!(!s.is_audio_out_endpoint(3));
    assert!(s.is_feedback_endpoint(2));
    assert!(!s.is_feedback_endpoint(1));
    assert!(s.poll_drains_output());
    s.control_out(&set_interface(2, 1), &[]);
    assert!(!s.poll_drains_output());
    let none = ClassState::new(0, FunctionCode::Undefined, UsbSpeed::Full, 1000, None);
    assert!(!none.is_feedback_endpoint(0));
    assert!(!none.poll_drains_output());
}

#[test]
fn configuration_records_order_and_total_length() {
    let s = full_state();
    let records = s.configuration_records(clock());
    assert_eq!(records.len(), 2 + 2 + 4 + 6 + 6 + 1);
    assert_eq!(
        records[0],
        ConfigRecord::InterfaceAssociation {
            first_interface: 0,
            interface_count: 3,
            function_class: 1,
            function_sub_class: 0,
            function_protocol: 0x20,
        }
    );
    assert_eq!(
        records[2],
        ConfigRecord::ClassSpecific(ClassDescriptor::AcHeader { category: FunctionCode::IoBox, total_length: 75 })
    );
    // the AC header counts the class-specific AC descriptors that follow it
    let ac_len: u32 = records[2..8]
        .iter()
        .map(|r| match r {
            ConfigRecord::ClassSpecific(d) => d.size() as u32,
            _ => 0,
        })
        .sum();
    assert_eq!(ac_len, 75);
    // and each class-specific descriptor is written as as many bytes as it states
    let ac_bytes: usize = records[2..8]
        .iter()
        .map(|r| match r {
            ConfigRecord::ClassSpecific(d) => {
                assert_eq!(d.payload().len() + 2, d.size() as usize);
                d.payload().len() + 2
            }
            _ => 0,
        })
        .sum();
    assert_eq!(ac_bytes, 75);
    // the input stream is described before the output stream, the feedback endpoint last
    assert_eq!(records[12], ConfigRecord::Endpoint(EndpointRole::AudioIn));
    assert_eq!(records[18], ConfigRecord::Endpoint(EndpointRole::AudioOut));
    assert_eq!(records[20], ConfigRecord::Endpoint(EndpointRole::Feedback));
    assert_eq!(
        records[9],
        ConfigRecord::Interface {
            number: 2,
            alternate_setting: 1,
            interface_class: 1,
            interface_sub_class: 2,
            interface_protocol: 0x20,
        }
    );
}

#[test]
fn configuration_records_with_additional_descriptors() {
    let extra = [AudioClassDescriptor::ClockSource(clock_source_descriptor(
        9,
        ClockType::External,
        false,
        Ok(false),
        None,
    )
    .unwrap())];
    let s = ClassState::new(0, FunctionCode::Other, UsbSpeed::Full, 1000, Some(&extra));
    let records = s.configuration_records(clock());
    assert_eq!(records.len(), 5);
    assert_eq!(
        records[2],
        ConfigRecord::ClassSpecific(ClassDescriptor::AcHeader { category: FunctionCode::Other, total_length: 25 })
    );
    assert_eq!(records[4], ConfigRecord::ClassSpecific(ClassDescriptor::Additional(extra[0])));
    let header = match records[2] {
        ConfigRecord::ClassSpecific(d) => d.payload(),
        _ => unreachable!(),
    };
    assert_eq!(header, vec![0x01, 0, 2, 0xff, 25, 0, 0]);
}

#[test]
fn range_entries_order_by_minimum() {
    let a = RangeEntry::new_fixed(44100u32);
    let b = RangeEntry::new(48000u32, 96000, 48000);
    assert!(a < b);
    assert!(b > a);
    assert_eq!(a.partial_cmp(&a), Some(core::cmp::Ordering::Equal));
    // equal minimums: the maximum, then the resolution, decide, as `Ord` does
    let c = RangeEntry::new(44100u32, 48000, 100);
    assert_eq!(a.partial_cmp(&c), Some(core::cmp::Ordering::Less));
    assert_eq!(a.cmp(&c), core::cmp::Ordering::Less);
    assert_eq!(a.partial_cmp(&b), Some(a.cmp(&b)));
    assert_eq!(b.partial_cmp(&a), Some(b.cmp(&a)));
    let mut rates = vec![b, RangeEntry::new_fixed(32000u32), a];
    rates.sort();
    assert_eq!(rates, vec![RangeEntry::new_fixed(32000u32), a, b]);
    assert!(RangeEntry::new_fixed(-5i16) < RangeEntry::new_fixed(3i16));
    assert!(RangeEntry::new_fixed(200u8) >= RangeEntry::new_fixed(100u8));
}

#[test]
fn interface_association_counts_the_declared_interfaces() {
    let one_stream = {
        let mut s = ClassState::new(0, FunctionCode::DesktopSpeaker, UsbSpeed::Full, 1000, None);
        s.add_output(out_config(2), 1, 1, 2);
        s
    };
    for s in [full_state(), one_stream, ClassState::new(0, FunctionCode::Undefined, UsbSpeed::Full, 1000, None)] {
        let records = s.configuration_records(clock());
        let declared = records
            .iter()
            .filter(|r| matches!(r, ConfigRecord::Interface { alternate_setting: 0, .. }))
            .count();
        match records[0] {
            ConfigRecord::InterfaceAssociation { interface_count, .. } => assert_eq!(interface_count as usize, declared),
            _ => panic!("the configuration starts with the interface association"),
        }
    }
}

#[test]
fn sample_rate_answer_sets_the_same_rate() {
    let mut s = full_state();
    let set = clock_request(ClassSpecificRequest::Cur.value(), ClockSourceControlSelector::SamFreqControl.value());
    for rate in [0u32, 44100, 48000, 192000, u32::MAX] {
        let (bytes, _) = sample_rate_response(rate, 4).unwrap();
        assert_eq!(s.control_out(&set, &bytes), ControlOutAction::SetSampleRate(rate));
    }
}

#[test]
fn records_fit_bounds_length_and_ids() {
    assert!(full_state().records_fit());
    let mut high = ClassState::new(0, FunctionCode::Undefined, UsbSpeed::Full, 1000, None);
    high.add_input(in_config(255), 1, 1);
    assert!(!high.records_fit());
    let extra = vec![AudioClassDescriptor::ClockSource(clock()); 9000];
    let many = ClassState::new(0, FunctionCode::Undefined, UsbSpeed::Full, 1000, Some(&extra));
    assert!(!many.records_fit());
    let few = ClassState::new(0, FunctionCode::Undefined, UsbSpeed::Full, 1000, Some(&extra[..8000]));
    assert!(few.records_fit());
}

#[test]
fn feedback_10_14_saturates() {
    assert_eq!(UsbIsochronousFeedback::new_frac(1024, 0).to_bytes_10_14(), [0xff, 0xff, 0xff]);
    assert_eq!(UsbIsochronousFeedback::new_frac(0xffff, 0xffff).to_u32_10_14(), 0x00ff_ffff);
    assert_eq!(UsbIsochronousFeedback::new_frac(1023, 0xffff).to_u32_10_14(), 0x00ff_ffff);
    assert_eq!(UsbIsochronousFeedback::new_frac(1023, 0).to_bytes_10_14(), [0x00, 0xc0, 0xff]);
    // 16.16 holds every integer part
    assert_eq!(UsbIsochronousFeedback::new_frac(1024, 0).to_bytes_12_13(), [0, 0, 0, 4]);
}

#[test]
fn range_entry_reports_the_bytes_it_writes() {
    let e = RangeEntry::<u32>::new_fixed(48000);
    let mut buf = [0u8; 12];
    let mut cur = Cursor::new(&mut buf[..]);
    assert_eq!(e.write(&mut cur), Ok(12));
    assert_eq!(cur.position(), 12);
    assert_eq!(buf, [0x80, 0xbb, 0, 0, 0x80, 0xbb, 0, 0, 0, 0, 0, 0]);
}

#[test]
fn range_response_length_is_its_byte_count() {
    let rates = [RangeEntry::new(8000u32, 48000, 8000), RangeEntry::new_fixed(96000u32), RangeEntry::new_fixed(192000u32)];
    let (bytes, n) = sample_rate_range_response(Ok(&rates), 1024).unwrap();
    assert_eq!(n, 2 + 12 * 3);
    assert_eq!(bytes.len(), n);
    assert_eq!(sample_rate_range_response(Ok(&rates), 38).map(|(_, n)| n), Ok(38));
    assert_eq!(sample_rate_range_response(Ok(&rates), 37), Err(ResponseError::BufferOverflow));
}

#[test]
fn channel_config_getters_and_setters() {
    let mut c = ChannelConfig::new();
    assert!(!c.front_left());
    c.set_front_left(true);
    c.set_side_right(true);
    c.set_back_right_of_center(true);
    assert!(c.front_left());
    assert!(c.side_right());
    assert!(c.back_right_of_center());
    assert!(!c.front_right());
    assert_eq!(c.into_bytes(), [0x01, 0x04, 0x00, 0x04]);
    c.set_front_left(false);
    assert!(!c.front_left());
    assert!(c.side_right());
    assert_eq!(c.into_bytes(), [0x00, 0x04, 0x00, 0x04]);
    let d = ChannelConfig::default_chans(8);
    assert!(d.front_left() && d.front_center() && d.low_frequency_effects() && d.side_left() && d.side_right());
    assert!(!d.back_center() && !d.top_center());
}
