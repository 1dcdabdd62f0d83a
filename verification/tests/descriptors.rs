use usbd_uac2::constants::{FormatType, FunctionCode, TerminalType};
use usbd_uac2::cursor::Cursor;
use usbd_uac2::descriptors::{
    AccessControl, AudioClassDescriptor, AudioClassInterfaceDescriptor, AudioStreamingInterface, ChannelConfig,
    ClockMultiplier, ClockSelector, ClockSource, ClockType, Descriptor, FormatType1, InputTerminal, OutputTerminal,
    SelectorUnit, Type1FormatBitmap,
};

#[test]
fn test_clock_source() {
    let string = Some(10u8);
    let cs = ClockSource {
        id: 8,
        clock_type: ClockType::InternalFixed,
        sof_sync: false,
        frequency_access: AccessControl::ReadOnly,
        validity_access: AccessControl::ReadOnly,
        assoc_terminal: 6,
        string,
    };
    let mut buf = [0u8; ClockSource::MAX_SIZE];
    let mut cur = Cursor::new(&mut buf[..]);
    let len = cs.size();
    cs.write(&mut cur).unwrap();
    let descriptor = &buf[..len as usize];
    assert_eq!(
        descriptor,
        &[
            8,    // bLength
            0x24, // CS_INTERFACE
            0x0a, // CLOCK_SOURCE
            8,    // bClockId
            1,    // bmAttributes
            5,    // bmControls
            6,    // bAssocTerminal
            10,   // iClockSource
        ]
    )
}

#[test]
fn test_clock_selector() {
    let cs = ClockSelector {
        id: 8,
        n_sources: 3,
        sources: [2, 3, 4, 0],
        selector_access: AccessControl::Programmable,
        string: 10,
    };
    let mut buf = [0u8; ClockSelector::<4>::MAX_SIZE];
    let mut cur = Cursor::new(&mut buf[..]);
    let len = cs.size();
    cs.write(&mut cur).unwrap();
    let descriptor = &buf[..len as usize];
    assert_eq!(
        descriptor,
        &[
            10,   // bLength
            0x24, // CS_INTERFACE
            0x0b, // CLOCK_SELECTOR
            8,    // bClockId
            3,    // bNrInPins
            2,    // baCSourceId
            3, 4, 3,  // bmControls
            10, // iClockSelector
        ]
    )
}

#[test]
fn test_clock_multiplier() {
    let cm = ClockMultiplier {
        id: 8,
        source_id: 10,
        numerator_access: AccessControl::Programmable,
        denominator_access: AccessControl::ReadOnly,
        string: 20,
    };
    let mut buf = [0u8; ClockMultiplier::MAX_SIZE];
    let mut cur = Cursor::new(&mut buf[..]);
    let len = cm.size();

    cm.write(&mut cur).unwrap();
    let descriptor = &buf[0..len as usize];
    assert_eq!(
        descriptor,
        &[
            7,    // bLength
            0x24, // CS_INTERFACE
            0x0c, // CLOCK_MULTIPLIER
            8,    // bClockId
            10,   // bCSourceId
            7,    // bmControls
            20,   // iClockMultiplier
        ]
    )
}

#[test]
fn test_input_terminal() {
    let it = InputTerminal {
        id: 8,
        terminal_type: TerminalType::InMicrophone,
        assoc_terminal: 10,
        clock_source: 12,
        num_channels: 2,
        channel_config: ChannelConfig::new().with_front_left(true).with_front_right(true),
        channel_names: 14,
        copy_protect_control: AccessControl::NotPresent,
        connector_control: AccessControl::Programmable,
        overload_control: AccessControl::ReadOnly,
        cluster_control: AccessControl::Programmable,
        underflow_control: AccessControl::ReadOnly,
        overflow_control: AccessControl::ReadOnly,
        phantom_power_control: AccessControl::NotPresent,
        string: Some(20),
    };
    let mut buf = [0u8; InputTerminal::MAX_SIZE];
    let mut cur = Cursor::new(&mut buf[..]);
    let len = it.size();

    it.write(&mut cur).unwrap();
    let descriptor = &buf[..len as usize];
    assert_eq!(
        descriptor,
        &[
            17,   // bLength
            0x24, // CS_INTERFACE
            0x02, // INPUT_TERMINAL
            8,
            0x01, // wTerminalType (u16)
            0x02,
            10, // bAssocTerminal
            12, // bCSourceId
            2,  // bNrChannels
            3,  // bmChannelConfig (u32)
            0,
            0,
            0,
            14,                             // iChannelNames
            (3 << 2) | (1 << 4) | (3 << 6), // bmControls (u16)
            (1 << 0) | (1 << 2),
            20, // iTerminal
        ]
    )
}

#[test]
fn test_output_terminal() {
    let ot = OutputTerminal {
        id: 8,
        terminal_type: TerminalType::OutSpeaker,
        assoc_terminal: 10,
        source_id: 11,
        clock_source: 12,
        copy_protect_control: AccessControl::NotPresent,
        connector_control: AccessControl::Programmable,
        overload_control: AccessControl::ReadOnly,
        underflow_control: AccessControl::ReadOnly,
        overflow_control: AccessControl::ReadOnly,
        string: Some(20),
    };
    let mut buf = [0u8; OutputTerminal::MAX_SIZE];
    let mut cur = Cursor::new(&mut buf[..]);
    let len = ot.size();

    ot.write(&mut cur).unwrap();
    let descriptor = &buf[..len as usize];
    assert_eq!(
        descriptor,
        &[
            12,   // bLength
            0x24, // CS_INTERFACE
            0x03, // OUTPUT_TERMINAL
            8,    // bTerminalId
            01,   // wTerminalType (u16)
            03,
            10,                             // bAssocTerminal
            11,                             // bSourceId
            12,                             // bCSourceId
            (3 << 2) | (1 << 4) | (1 << 6), // bmControls (u16)
            1,
            20, // iTerminal
        ]
    )
}

#[test]
fn test_selector_unit() {
    let su = SelectorUnit {
        id: 8,
        n_sources: 3,
        sources: [2, 3, 4, 0],
        selector_control: AccessControl::Programmable,
        string: 20,
    };
    let mut buf = [0u8; SelectorUnit::<4>::MAX_SIZE];
    let mut cur = Cursor::new(&mut buf[..]);
    let len = su.size();

    su.write(&mut cur).unwrap();
    let descriptor = &buf[..len as usize];
    assert_eq!(
        descriptor,
        &[
            10,   // bLength
            0x24, // CS_INTERFACE
            0x05, // SELECTOR_UNIT
            8,    // bUnitId
            3,    // bNrInPins
            2,    // baSourceId[3]
            3, 4, 3,  // bmControls
            20, // iSelector
        ]
    )
}

#[test]
fn test_ac_interface() {
    let descriptors: [AudioClassDescriptor; 5] = [
        ClockSource {
            id: 1,
            clock_type: ClockType::InternalFixed,
            sof_sync: false,
            frequency_access: AccessControl::NotPresent,
            validity_access: AccessControl::NotPresent,
            assoc_terminal: 0,
            string: None,
        }
        .into(),
        InputTerminal {
            id: 2,
            terminal_type: TerminalType::UsbStreaming,
            assoc_terminal: 0,
            clock_source: 1,
            num_channels: 2,
            channel_config: ChannelConfig::default_chans(2),
            channel_names: 0,
            copy_protect_control: AccessControl::NotPresent,
            connector_control: AccessControl::NotPresent,
            overload_control: AccessControl::NotPresent,
            cluster_control: AccessControl::NotPresent,
            underflow_control: AccessControl::NotPresent,
            overflow_control: AccessControl::NotPresent,
            phantom_power_control: AccessControl::NotPresent,
            string: None,
        }
        .into(),
        OutputTerminal {
            id: 3,
            terminal_type: TerminalType::OutUndefined,
            assoc_terminal: 0,
            source_id: 2,
            clock_source: 1,
            copy_protect_control: AccessControl::NotPresent,
            connector_control: AccessControl::NotPresent,
            overload_control: AccessControl::NotPresent,
            underflow_control: AccessControl::NotPresent,
            overflow_control: AccessControl::NotPresent,
            string: None,
        }
        .into(),
        OutputTerminal {
            id: 4,
            source_id: 5,
            terminal_type: TerminalType::UsbStreaming,
            assoc_terminal: 0,
            clock_source: 1,
            copy_protect_control: AccessControl::NotPresent,
            connector_control: AccessControl::NotPresent,
            overload_control: AccessControl::NotPresent,
            underflow_control: AccessControl::NotPresent,
            overflow_control: AccessControl::NotPresent,
            string: None,
        }
        .into(),
        InputTerminal {
            id: 5,
            terminal_type: TerminalType::InUndefined,
            assoc_terminal: 0,
            clock_source: 1,
            num_channels: 2,
            channel_config: ChannelConfig::default_chans(2),
            channel_names: 0,
            copy_protect_control: AccessControl::NotPresent,
            connector_control: AccessControl::NotPresent,
            overload_control: AccessControl::NotPresent,
            cluster_control: AccessControl::NotPresent,
            underflow_control: AccessControl::NotPresent,
            overflow_control: AccessControl::NotPresent,
            phantom_power_control: AccessControl::NotPresent,
            string: None,
        }
        .into(),
    ];
    let ac = AudioClassInterfaceDescriptor::new(descriptors, FunctionCode::Undefined);
    let mut buf = [0u8; 1024];
    let len = {
        let mut cur = Cursor::new(&mut buf[..]);
        ac.write(&mut cur).unwrap();
        cur.position()
    };
    let bytes = &buf[..len];
    println!("{:02x?}", bytes);
    // the header's wTotalLength counts every byte written
    assert_eq!(len, ac.total_length() as usize);
    assert_eq!(len, 9 + 8 + 17 + 12 + 12 + 17);
    assert_eq!(&bytes[..9], &[9, 0x24, 0x01, 0, 2, 0, 75, 0, 0]);
}

#[test]
fn test_format_type1() {
    let format = FormatType1 {
        bytes_per_sample: 4,
        bit_resolution: 24,
    };
    let mut buf = [0u8; FormatType1::MAX_SIZE];
    let len = {
        let mut cur = Cursor::new(&mut buf[..]);
        format.write(&mut cur).unwrap();
        cur.position()
    };
    let descriptor = &buf[..len];
    assert_eq!(
        descriptor,
        &[
            6,    //bLength
            0x24, // CS_INTERFACE
            0x02, // FORMAT_TYPE
            0x01, // FORMAT_TYPE_I
            4,    // bSubframeSize
            24,   // bBitResolution
        ]
    );
}

#[test]
fn test_as_interface_desc() {
    let intf = AudioStreamingInterface {
        terminal_id: 2,
        active_alt_setting: AccessControl::Programmable,
        valid_alt_settings: AccessControl::ReadOnly,
        format_type: FormatType::Type1,
        format_bitmap: Type1FormatBitmap::Pcm,
        num_channels: 2,
        channel_config: ChannelConfig::default_chans(2),
        string: None,
    };
    let mut buf = [0u8; AudioStreamingInterface::MAX_SIZE];
    let len = {
        let mut cur = Cursor::new(&mut buf[..]);
        intf.write(&mut cur).unwrap();
        cur.position()
    };
    let descriptor = &buf[..len];
    assert_eq!(
        descriptor,
        &[
            16,
            0x24,         // CS_INTERFACE
            0x01,         // AS_GENERAL
            2,            // bTerminalLink
            3 | (1 << 2), // bmControls
            1,            // bFormatType
            1,            // bmFormats[0]
            0,            // bmFormats[1]
            0,            // bmFormats[2]
            0,            // bmFormats[3]
            2,            // bNrChannels
            3,            // bmChannelConfig[0]
            0,            // bmChannelConfig[1]
            0,            // bmChannelConfig[2]
            0,            // bmChannelConfig[3]
            0             // iChannelNames
        ]
    );
}
