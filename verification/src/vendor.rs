//! Manufacturers and the module types that each of them numbers for itself.

use vstd::prelude::*;
use crate::error::CodeSpace;
use crate::error::UndefinedCode;
use crate::registry::CodeRegistry;
use crate::registry::TypedIdentifier;
use crate::registry::checked;

verus! {

/// The registered module manufacturers.
#[allow(non_camel_case_types)]
#[derive(Debug, Clone, Copy, PartialEq, Eq, Structural)]
pub enum Manufacturer {
    /// Development mode manufacturer
    Development,
    /// https://www.merg.co.uk
    MERG,
    /// https://www.sprog-dcc.co.uk/
    SPROG,
    /// http://www.rocrail.net
    ROCRAIL,
    /// http://animatedmodeler.com  (Spectrum Engineering)
    SPECTRUM,
    /// range of MERG VLCB modules
    MERG_VLCB,
    /// Konrad Orlowski
    SYSPIXIE,
    /// http://rmeuk.com  (Railway Modelling Experts Limited)
    RME,
}

impl TypedIdentifier for Manufacturer {
    open spec fn code(self) -> u8 {
        match self {
            Manufacturer::Development => 13,
            Manufacturer::MERG => 165,
            Manufacturer::SPROG => 44,
            Manufacturer::ROCRAIL => 70,
            Manufacturer::SPECTRUM => 80,
            Manufacturer::MERG_VLCB => 250,
            Manufacturer::SYSPIXIE => 249,
            Manufacturer::RME => 248,
        }
    }

    open spec fn decode(code: u8) -> Option<Self> {
        match code {
            13 => Some(Manufacturer::Development),
            44 => Some(Manufacturer::SPROG),
            70 => Some(Manufacturer::ROCRAIL),
            80 => Some(Manufacturer::SPECTRUM),
            165 => Some(Manufacturer::MERG),
            248 => Some(Manufacturer::RME),
            249 => Some(Manufacturer::SYSPIXIE),
            250 => Some(Manufacturer::MERG_VLCB),
            _ => None,
        }
    }

    open spec fn space() -> CodeSpace {
        CodeSpace::Manufacturer
    }

    proof fn lemma_decode_inverts_code(i: Self, code: u8) {
    }
}

impl CodeRegistry for Manufacturer {
    fn to_code(self) -> (c: u8) {
        match self {
            Manufacturer::Development => 13,
            Manufacturer::MERG => 165,
            Manufacturer::SPROG => 44,
            Manufacturer::ROCRAIL => 70,
            Manufacturer::SPECTRUM => 80,
            Manufacturer::MERG_VLCB => 250,
            Manufacturer::SYSPIXIE => 249,
            Manufacturer::RME => 248,
        }
    }

    fn try_from_code(code: u8) -> (r: Result<Self, UndefinedCode>) {
        assert(Self::space() == CodeSpace::Manufacturer);
        match code {
            13 => Ok(Manufacturer::Development),
            44 => Ok(Manufacturer::SPROG),
            70 => Ok(Manufacturer::ROCRAIL),
            80 => Ok(Manufacturer::SPECTRUM),
            165 => Ok(Manufacturer::MERG),
            248 => Ok(Manufacturer::RME),
            249 => Ok(Manufacturer::SYSPIXIE),
            250 => Ok(Manufacturer::MERG_VLCB),
            _ => Err(UndefinedCode { space: CodeSpace::Manufacturer, value: code }),
        }
    }
}

impl From<Manufacturer> for u8 {
    /// The wire byte of `value`.
    fn from(value: Manufacturer) -> (c: u8) {
        value.to_code()
    }
}

impl vstd::std_specs::convert::FromSpecImpl<Manufacturer> for u8 {
    open spec fn obeys_from_spec() -> bool {
        true
    }

    open spec fn from_spec(value: Manufacturer) -> u8 {
        value.code()
    }
}

impl TryFrom<u8> for Manufacturer {
    type Error = UndefinedCode;

    /// The checked conversion of `code`.
    fn try_from(code: u8) -> (r: Result<Manufacturer, UndefinedCode>) {
        Manufacturer::try_from_code(code)
    }
}

impl vstd::std_specs::convert::TryFromSpecImpl<u8> for Manufacturer {
    open spec fn obeys_try_from_spec() -> bool {
        true
    }

    open spec fn try_from_spec(code: u8) -> Result<Manufacturer, UndefinedCode> {
        checked::<Manufacturer>(code)
    }
}

/// Module types of MERG.
#[allow(non_camel_case_types)]
#[derive(Debug, Clone, Copy, PartialEq, Eq, Structural)]
pub enum MergModuleType {
    /// default for SLiM nodes
    SLIM,
    /// Solenoid point driver
    CANACC4,
    /// Motorised point driver
    CANACC5,
    /// 8 digital outputs
    CANACC8,
    /// Control panel switch/button encoder
    CANACE3,
    /// 8 digital inputs
    CANACE8C,
    /// 64 led driver
    CANLED,
    /// 64 led driver (multi leds per event)
    CANLED64,
    /// 12v version of CANACC4
    CANACC4_2,
    /// CANCAB hand throttle
    CANCAB,
    /// CANCMD command station
    CANCMD,
    /// 8 servo driver (on canacc8 or similar hardware)
    CANSERVO,
    /// BC1a command station
    CANBC,
    /// RPI and RFID interface
    CANRPI,
    /// Turntable controller (turntable end)
    CANTTCA,
    /// Turntable controller (control panel end)
    CANTTCB,
    /// Handset controller for old BC1a type handsets
    CANHS,
    /// Track occupancy detector
    CANTOTI,
    /// 8 inputs 8 outputs
    CAN8I8O,
    /// Canservo with servo position feedback
    CANSERVO8C,
    /// RFID input
    CANRFID,
    /// Track circuit module
    CANTC4,
    /// 16 inputs
    CANACE16C,
    /// 8 way I/O
    CANIO8,
    /// Sound module
    CANSNDX,
    /// Ethernet interface
    CANEther,
    /// Multiple aspect signalling for CANLED module
    CANSIG64,
    /// Multiple aspect signalling for CANACC8 module
    CANSIG8,
    /// Conditional event generation
    CANCOND8C,
    /// Control panel 32/32
    CANPAN,
    /// Newer version of CANACE3 firmware
    CANACE3C,
    /// Control panel 64/64
    CANPanel,
    /// Multiple I/O - Universal CANMIO firmware
    CANMIO,
    /// Multiple IO module 16 inputs emulating CANACE8C on CANMIO hardware
    CANACE8MIO,
    /// Solenoid driver module
    CANSOL,
    /// Universal CANBIP firmware - Bipolar IO module with additional 8 I/O pins (CANMIO family)
    CANBIP,
    /// Solenoid driver module with additional 6 I/O pins (CANMIO family)
    CANCDU,
    /// CANACC4 firmware for the CANCDU
    CANACC4CDU,
    /// CAN to MiWi base station
    CANWiBase,
    /// Wireless cab using MiWi protocol
    WiCAB,
    /// CAN to WiFi connection with Withrottle to CBUS protocol conversion
    CANWiFi,
    /// Turntable controller configured using FLiM
    CANFTT,
    /// Handset (alternative to CANCAB)
    CANHNDST,
    /// Touchscreen handset
    CANTCHNDST,
    /// multi-channel RFID reader
    CANRFID8,
    /// either a 2ch or 8ch RFID reader
    CANmchRFID,
    /// a Raspberry Pi based module for WiFi
    CANPiWi,
    /// DC train controller
    CAN4DC,
    /// Nelevator controller
    CANELEV,
    /// 128 switch inputs
    CANSCAN,
    /// 16MHz 25k80 version of CANSERVO8c on CANMIO hardware
    CANMIO_SVO,
    /// 16MHz 25k80 version of CANACE8MIO on CANMIO hardware
    CANMIO_INP,
    /// 16MHz 25k80 version of CANACC8 on CANMIO hardware
    CANMIO_OUT,
    /// 16MHz 25k80 version of CANACC5 on CANBIP hardware
    CANBIP_OUT,
    /// DCC stop generator
    CANASTOP,
    /// CANCMD with on board 3A booster
    CANCSB,
    /// Magnet on Track detector
    CANMAG,
    /// 16 input equivalent to CANACE8C
    CANACE16CMIO,
    /// CBUS module based on Raspberry Pi
    CANPiNODE,
    /// 25K80 version of CANLED64 (IHart and MB)
    CANDISP,
    /// Compute Event processing engine
    CANCOMPUTE,
    /// Read/Write from/to RC522 RFID tags
    CANRC522,
    /// 8 inputs module (2g version of CANACE8c) (Pete Brownlow)
    CANINP,
    /// 8 outputs module (2g version of CANACC8) (Pete Brownlow)
    CANOUT,
    /// Extended CANMIO (24 I/O ports) (Pete Brownlow)
    CANXIO,
    /// DC cab
    CANCABDC,
    /// DC Railcom detector/reader
    CANRCOM,
    /// MP3 sound player in response to events (eg: station announcements) (Duncan Greenwood)
    CANMP3,
    /// Addressed RGB LED driver (Duncan Greenwood)
    CANXMAS,
    /// Servo setting box (Duncan Greenwood)
    CANSVOSET,
    /// DC Command station
    CANCMDDC,
    /// Text message display
    CANTEXT,
    /// Signal controller
    CANASIGNAL,
    /// DCC cab with slider control (Dave Radcliffe)
    CANSLIDER,
    /// DC ATC module (Dave Harris)
    CANDCATC,
    /// Logic module using and/or gates (Phil Silver)
    CANGATE,
    /// Q series PIC input module (Ian Hart)
    CANSINP,
    /// Q series PIC input module (Ian Hart)
    CANSOUT,
    /// Q series PIC input module (Ian Hart)
    CANSBIP,
    /// Message buffer (Phil Silver)
    CANBUFFER,
    /// Lever frame module (Tim Coombs)
    CANLEVER,
    /// Kit 110 Arduino shield test firmware
    CANSHIELD,
    /// 4 inputs 4 outputs (Arduino module)
    CAN4IN4OUT,
    /// CANCMD with built in booster (Simon West)
    CANCMDB,
    /// neopixel driver (Jon Denham)
    CANPIXEL,
    /// Cab2 with pot or encoder (Simon West hardware, Jon Denham new C firmware)
    CANCABPE,
    /// Smart train detector (Michael Smith)
    CANSMARTTD,
    /// All VLCB modules have the same ID
    VLCB,
    /// Software nodes
    CAN_SW,
    /// Empty module, bootloader only
    EMPTY,
    /// USB interface
    CANUSB,
}

impl TypedIdentifier for MergModuleType {
    open spec fn code(self) -> u8 {
        match self {
            MergModuleType::SLIM => 0,
            MergModuleType::CANACC4 => 1,
            MergModuleType::CANACC5 => 2,
            MergModuleType::CANACC8 => 3,
            MergModuleType::CANACE3 => 4,
            MergModuleType::CANACE8C => 5,
            MergModuleType::CANLED => 6,
            MergModuleType::CANLED64 => 7,
            MergModuleType::CANACC4_2 => 8,
            MergModuleType::CANCAB => 9,
            MergModuleType::CANCMD => 10,
            MergModuleType::CANSERVO => 11,
            MergModuleType::CANBC => 12,
            MergModuleType::CANRPI => 13,
            MergModuleType::CANTTCA => 14,
            MergModuleType::CANTTCB => 15,
            MergModuleType::CANHS => 16,
            MergModuleType::CANTOTI => 17,
            MergModuleType::CAN8I8O => 18,
            MergModuleType::CANSERVO8C => 19,
            MergModuleType::CANRFID => 20,
            MergModuleType::CANTC4 => 21,
            MergModuleType::CANACE16C => 22,
            MergModuleType::CANIO8 => 23,
            MergModuleType::CANSNDX => 24,
            MergModuleType::CANEther => 25,
            MergModuleType::CANSIG64 => 26,
            MergModuleType::CANSIG8 => 27,
            MergModuleType::CANCOND8C => 28,
            MergModuleType::CANPAN => 29,
            MergModuleType::CANACE3C => 30,
            MergModuleType::CANPanel => 31,
            MergModuleType::CANMIO => 32,
            MergModuleType::CANACE8MIO => 33,
            MergModuleType::CANSOL => 34,
            MergModuleType::CANBIP => 35,
            MergModuleType::CANCDU => 36,
            MergModuleType::CANACC4CDU => 37,
            MergModuleType::CANWiBase => 38,
            MergModuleType::WiCAB => 39,
            MergModuleType::CANWiFi => 40,
            MergModuleType::CANFTT => 41,
            MergModuleType::CANHNDST => 42,
            MergModuleType::CANTCHNDST => 43,
            MergModuleType::CANRFID8 => 44,
            MergModuleType::CANmchRFID => 45,
            MergModuleType::CANPiWi => 46,
            MergModuleType::CAN4DC => 47,
            MergModuleType::CANELEV => 48,
            MergModuleType::CANSCAN => 49,
            MergModuleType::CANMIO_SVO => 50,
            MergModuleType::CANMIO_INP => 51,
            MergModuleType::CANMIO_OUT => 52,
            MergModuleType::CANBIP_OUT => 53,
            MergModuleType::CANASTOP => 54,
            MergModuleType::CANCSB => 55,
            MergModuleType::CANMAG => 56,
            MergModuleType::CANACE16CMIO => 57,
            MergModuleType::CANPiNODE => 58,
            MergModuleType::CANDISP => 59,
            MergModuleType::CANCOMPUTE => 60,
            MergModuleType::CANRC522 => 61,
            MergModuleType::CANINP => 62,
            MergModuleType::CANOUT => 63,
            MergModuleType::CANXIO => 64,
            MergModuleType::CANCABDC => 65,
            MergModuleType::CANRCOM => 66,
            MergModuleType::CANMP3 => 67,
            MergModuleType::CANXMAS => 68,
            MergModuleType::CANSVOSET => 69,
            MergModuleType::CANCMDDC => 70,
            MergModuleType::CANTEXT => 71,
            MergModuleType::CANASIGNAL => 72,
            MergModuleType::CANSLIDER => 73,
            MergModuleType::CANDCATC => 74,
            MergModuleType::CANGATE => 75,
            MergModuleType::CANSINP => 76,
            MergModuleType::CANSOUT => 77,
            MergModuleType::CANSBIP => 78,
            MergModuleType::CANBUFFER => 79,
            MergModuleType::CANLEVER => 80,
            MergModuleType::CANSHIELD => 81,
            MergModuleType::CAN4IN4OUT => 82,
            MergModuleType::CANCMDB => 83,
            MergModuleType::CANPIXEL => 84,
            MergModuleType::CANCABPE => 85,
            MergModuleType::CANSMARTTD => 86,
            MergModuleType::VLCB => 252,
            MergModuleType::CAN_SW => 255,
            MergModuleType::EMPTY => 254,
            MergModuleType::CANUSB => 253,
        }
    }

    open spec fn decode(code: u8) -> Option<Self> {
        match code {
            0 => Some(MergModuleType::SLIM),
            1 => Some(MergModuleType::CANACC4),
            2 => Some(MergModuleType::CANACC5),
            3 => Some(MergModuleType::CANACC8),
            4 => Some(MergModuleType::CANACE3),
            5 => Some(MergModuleType::CANACE8C),
            6 => Some(MergModuleType::CANLED),
            7 => Some(MergModuleType::CANLED64),
            8 => Some(MergModuleType::CANACC4_2),
            9 => Some(MergModuleType::CANCAB),
            10 => Some(MergModuleType::CANCMD),
            11 => Some(MergModuleType::CANSERVO),
            12 => Some(MergModuleType::CANBC),
            13 => Some(MergModuleType::CANRPI),
            14 => Some(MergModuleType::CANTTCA),
            15 => Some(MergModuleType::CANTTCB),
            16 => Some(MergModuleType::CANHS),
            17 => Some(MergModuleType::CANTOTI),
            18 => Some(MergModuleType::CAN8I8O),
            19 => Some(MergModuleType::CANSERVO8C),
            20 => Some(MergModuleType::CANRFID),
            21 => Some(MergModuleType::CANTC4),
            22 => Some(MergModuleType::CANACE16C),
            23 => Some(MergModuleType::CANIO8),
            24 => Some(MergModuleType::CANSNDX),
            25 => Some(MergModuleType::CANEther),
            26 => Some(MergModuleType::CANSIG64),
            27 => Some(MergModuleType::CANSIG8),
            28 => Some(MergModuleType::CANCOND8C),
            29 => Some(MergModuleType::CANPAN),
            30 => Some(MergModuleType::CANACE3C),
            31 => Some(MergModuleType::CANPanel),
            32 => Some(MergModuleType::CANMIO),
            33 => Some(MergModuleType::CANACE8MIO),
            34 => Some(MergModuleType::CANSOL),
            35 => Some(MergModuleType::CANBIP),
            36 => Some(MergModuleType::CANCDU),
            37 => Some(MergModuleType::CANACC4CDU),
            38 => Some(MergModuleType::CANWiBase),
            39 => Some(MergModuleType::WiCAB),
            40 => Some(MergModuleType::CANWiFi),
            41 => Some(MergModuleType::CANFTT),
            42 => Some(MergModuleType::CANHNDST),
            43 => Some(MergModuleType::CANTCHNDST),
            44 => Some(MergModuleType::CANRFID8),
            45 => Some(MergModuleType::CANmchRFID),
            46 => Some(MergModuleType::CANPiWi),
            47 => Some(MergModuleType::CAN4DC),
            48 => Some(MergModuleType::CANELEV),
            49 => Some(MergModuleType::CANSCAN),
            50 => Some(MergModuleType::CANMIO_SVO),
            51 => Some(MergModuleType::CANMIO_INP),
            52 => Some(MergModuleType::CANMIO_OUT),
            53 => Some(MergModuleType::CANBIP_OUT),
            54 => Some(MergModuleType::CANASTOP),
            55 => Some(MergModuleType::CANCSB),
            56 => Some(MergModuleType::CANMAG),
            57 => Some(MergModuleType::CANACE16CMIO),
            58 => Some(MergModuleType::CANPiNODE),
            59 => Some(MergModuleType::CANDISP),
            60 => Some(MergModuleType::CANCOMPUTE),
            61 => Some(MergModuleType::CANRC522),
            62 => Some(MergModuleType::CANINP),
            63 => Some(MergModuleType::CANOUT),
            64 => Some(MergModuleType::CANXIO),
            65 => Some(MergModuleType::CANCABDC),
            66 => Some(MergModuleType::CANRCOM),
            67 => Some(MergModuleType::CANMP3),
            68 => Some(MergModuleType::CANXMAS),
            69 => Some(MergModuleType::CANSVOSET),
            70 => Some(MergModuleType::CANCMDDC),
            71 => Some(MergModuleType::CANTEXT),
            72 => Some(MergModuleType::CANASIGNAL),
            73 => Some(MergModuleType::CANSLIDER),
            74 => Some(MergModuleType::CANDCATC),
            75 => Some(MergModuleType::CANGATE),
            76 => Some(MergModuleType::CANSINP),
            77 => Some(MergModuleType::CANSOUT),
            78 => Some(MergModuleType::CANSBIP),
            79 => Some(MergModuleType::CANBUFFER),
            80 => Some(MergModuleType::CANLEVER),
            81 => Some(MergModuleType::CANSHIELD),
            82 => Some(MergModuleType::CAN4IN4OUT),
            83 => Some(MergModuleType::CANCMDB),
            84 => Some(MergModuleType::CANPIXEL),
            85 => Some(MergModuleType::CANCABPE),
            86 => Some(MergModuleType::CANSMARTTD),
            252 => Some(MergModuleType::VLCB),
            253 => Some(MergModuleType::CANUSB),
            254 => Some(MergModuleType::EMPTY),
            255 => Some(MergModuleType::CAN_SW),
            _ => None,
        }
    }

    open spec fn space() -> CodeSpace {
        CodeSpace::MergModuleType
    }

    proof fn lemma_decode_inverts_code(i: Self, code: u8) {
    }
}

impl CodeRegistry for MergModuleType {
    fn to_code(self) -> (c: u8) {
        match self {
            MergModuleType::SLIM => 0,
            MergModuleType::CANACC4 => 1,
            MergModuleType::CANACC5 => 2,
            MergModuleType::CANACC8 => 3,
            MergModuleType::CANACE3 => 4,
            MergModuleType::CANACE8C => 5,
            MergModuleType::CANLED => 6,
            MergModuleType::CANLED64 => 7,
            MergModuleType::CANACC4_2 => 8,
            MergModuleType::CANCAB => 9,
            MergModuleType::CANCMD => 10,
            MergModuleType::CANSERVO => 11,
            MergModuleType::CANBC => 12,
            MergModuleType::CANRPI => 13,
            MergModuleType::CANTTCA => 14,
            MergModuleType::CANTTCB => 15,
            MergModuleType::CANHS => 16,
            MergModuleType::CANTOTI => 17,
            MergModuleType::CAN8I8O => 18,
            MergModuleType::CANSERVO8C => 19,
            MergModuleType::CANRFID => 20,
            MergModuleType::CANTC4 => 21,
            MergModuleType::CANACE16C => 22,
            MergModuleType::CANIO8 => 23,
            MergModuleType::CANSNDX => 24,
            MergModuleType::CANEther => 25,
            MergModuleType::CANSIG64 => 26,
            MergModuleType::CANSIG8 => 27,
            MergModuleType::CANCOND8C => 28,
            MergModuleType::CANPAN => 29,
            MergModuleType::CANACE3C => 30,
            MergModuleType::CANPanel => 31,
            MergModuleType::CANMIO => 32,
            MergModuleType::CANACE8MIO => 33,
            MergModuleType::CANSOL => 34,
            MergModuleType::CANBIP => 35,
            MergModuleType::CANCDU => 36,
            MergModuleType::CANACC4CDU => 37,
            MergModuleType::CANWiBase => 38,
            MergModuleType::WiCAB => 39,
            MergModuleType::CANWiFi => 40,
            MergModuleType::CANFTT => 41,
            MergModuleType::CANHNDST => 42,
            MergModuleType::CANTCHNDST => 43,
            MergModuleType::CANRFID8 => 44,
            MergModuleType::CANmchRFID => 45,
            MergModuleType::CANPiWi => 46,
            MergModuleType::CAN4DC => 47,
            MergModuleType::CANELEV => 48,
            MergModuleType::CANSCAN => 49,
            MergModuleType::CANMIO_SVO => 50,
            MergModuleType::CANMIO_INP => 51,
            MergModuleType::CANMIO_OUT => 52,
            MergModuleType::CANBIP_OUT => 53,
            MergModuleType::CANASTOP => 54,
            MergModuleType::CANCSB => 55,
            MergModuleType::CANMAG => 56,
            MergModuleType::CANACE16CMIO => 57,
            MergModuleType::CANPiNODE => 58,
            MergModuleType::CANDISP => 59,
            MergModuleType::CANCOMPUTE => 60,
            MergModuleType::CANRC522 => 61,
            MergModuleType::CANINP => 62,
            MergModuleType::CANOUT => 63,
            MergModuleType::CANXIO => 64,
            MergModuleType::CANCABDC => 65,
            MergModuleType::CANRCOM => 66,
            MergModuleType::CANMP3 => 67,
            MergModuleType::CANXMAS => 68,
            MergModuleType::CANSVOSET => 69,
            MergModuleType::CANCMDDC => 70,
            MergModuleType::CANTEXT => 71,
            MergModuleType::CANASIGNAL => 72,
            MergModuleType::CANSLIDER => 73,
            MergModuleType::CANDCATC => 74,
            MergModuleType::CANGATE => 75,
            MergModuleType::CANSINP => 76,
            MergModuleType::CANSOUT => 77,
            MergModuleType::CANSBIP => 78,
            MergModuleType::CANBUFFER => 79,
            MergModuleType::CANLEVER => 80,
            MergModuleType::CANSHIELD => 81,
            MergModuleType::CAN4IN4OUT => 82,
            MergModuleType::CANCMDB => 83,
            MergModuleType::CANPIXEL => 84,
            MergModuleType::CANCABPE => 85,
            MergModuleType::CANSMARTTD => 86,
            MergModuleType::VLCB => 252,
            MergModuleType::CAN_SW => 255,
            MergModuleType::EMPTY => 254,
            MergModuleType::CANUSB => 253,
        }
    }

    fn try_from_code(code: u8) -> (r: Result<Self, UndefinedCode>) {
        assert(Self::space() == CodeSpace::MergModuleType);
        match code {
            0 => Ok(MergModuleType::SLIM),
            1 => Ok(MergModuleType::CANACC4),
            2 => Ok(MergModuleType::CANACC5),
            3 => Ok(MergModuleType::CANACC8),
            4 => Ok(MergModuleType::CANACE3),
            5 => Ok(MergModuleType::CANACE8C),
            6 => Ok(MergModuleType::CANLED),
            7 => Ok(MergModuleType::CANLED64),
            8 => Ok(MergModuleType::CANACC4_2),
            9 => Ok(MergModuleType::CANCAB),
            10 => Ok(MergModuleType::CANCMD),
            11 => Ok(MergModuleType::CANSERVO),
            12 => Ok(MergModuleType::CANBC),
            13 => Ok(MergModuleType::CANRPI),
            14 => Ok(MergModuleType::CANTTCA),
            15 => Ok(MergModuleType::CANTTCB),
            16 => Ok(MergModuleType::CANHS),
            17 => Ok(MergModuleType::CANTOTI),
            18 => Ok(MergModuleType::CAN8I8O),
            19 => Ok(MergModuleType::CANSERVO8C),
            20 => Ok(MergModuleType::CANRFID),
            21 => Ok(MergModuleType::CANTC4),
            22 => Ok(MergModuleType::CANACE16C),
            23 => Ok(MergModuleType::CANIO8),
            24 => Ok(MergModuleType::CANSNDX),
            25 => Ok(MergModuleType::CANEther),
            26 => Ok(MergModuleType::CANSIG64),
            27 => Ok(MergModuleType::CANSIG8),
            28 => Ok(MergModuleType::CANCOND8C),
            29 => Ok(MergModuleType::CANPAN),
            30 => Ok(MergModuleType::CANACE3C),
            31 => Ok(MergModuleType::CANPanel),
            32 => Ok(MergModuleType::CANMIO),
            33 => Ok(MergModuleType::CANACE8MIO),
            34 => Ok(MergModuleType::CANSOL),
            35 => Ok(MergModuleType::CANBIP),
            36 => Ok(MergModuleType::CANCDU),
            37 => Ok(MergModuleType::CANACC4CDU),
            38 => Ok(MergModuleType::CANWiBase),
            39 => Ok(MergModuleType::WiCAB),
            40 => Ok(MergModuleType::CANWiFi),
            41 => Ok(MergModuleType::CANFTT),
            42 => Ok(MergModuleType::CANHNDST),
            43 => Ok(MergModuleType::CANTCHNDST),
            44 => Ok(MergModuleType::CANRFID8),
            45 => Ok(MergModuleType::CANmchRFID),
            46 => Ok(MergModuleType::CANPiWi),
            47 => Ok(MergModuleType::CAN4DC),
            48 => Ok(MergModuleType::CANELEV),
            49 => Ok(MergModuleType::CANSCAN),
            50 => Ok(MergModuleType::CANMIO_SVO),
            51 => Ok(MergModuleType::CANMIO_INP),
            52 => Ok(MergModuleType::CANMIO_OUT),
            53 => Ok(MergModuleType::CANBIP_OUT),
            54 => Ok(MergModuleType::CANASTOP),
            55 => Ok(MergModuleType::CANCSB),
            56 => Ok(MergModuleType::CANMAG),
            57 => Ok(MergModuleType::CANACE16CMIO),
            58 => Ok(MergModuleType::CANPiNODE),
            59 => Ok(MergModuleType::CANDISP),
            60 => Ok(MergModuleType::CANCOMPUTE),
            61 => Ok(MergModuleType::CANRC522),
            62 => Ok(MergModuleType::CANINP),
            63 => Ok(MergModuleType::CANOUT),
            64 => Ok(MergModuleType::CANXIO),
            65 => Ok(MergModuleType::CANCABDC),
            66 => Ok(MergModuleType::CANRCOM),
            67 => Ok(MergModuleType::CANMP3),
            68 => Ok(MergModuleType::CANXMAS),
            69 => Ok(MergModuleType::CANSVOSET),
            70 => Ok(MergModuleType::CANCMDDC),
            71 => Ok(MergModuleType::CANTEXT),
            72 => Ok(MergModuleType::CANASIGNAL),
            73 => Ok(MergModuleType::CANSLIDER),
            74 => Ok(MergModuleType::CANDCATC),
            75 => Ok(MergModuleType::CANGATE),
            76 => Ok(MergModuleType::CANSINP),
            77 => Ok(MergModuleType::CANSOUT),
            78 => Ok(MergModuleType::CANSBIP),
            79 => Ok(MergModuleType::CANBUFFER),
            80 => Ok(MergModuleType::CANLEVER),
            81 => Ok(MergModuleType::CANSHIELD),
            82 => Ok(MergModuleType::CAN4IN4OUT),
            83 => Ok(MergModuleType::CANCMDB),
            84 => Ok(MergModuleType::CANPIXEL),
            85 => Ok(MergModuleType::CANCABPE),
            86 => Ok(MergModuleType::CANSMARTTD),
            252 => Ok(MergModuleType::VLCB),
            253 => Ok(MergModuleType::CANUSB),
            254 => Ok(MergModuleType::EMPTY),
            255 => Ok(MergModuleType::CAN_SW),
            _ => Err(UndefinedCode { space: CodeSpace::MergModuleType, value: code }),
        }
    }
}

impl From<MergModuleType> for u8 {
    /// The wire byte of `value`.
    fn from(value: MergModuleType) -> (c: u8) {
        value.to_code()
    }
}

impl vstd::std_specs::convert::FromSpecImpl<MergModuleType> for u8 {
    open spec fn obeys_from_spec() -> bool {
        true
    }

    open spec fn from_spec(value: MergModuleType) -> u8 {
        value.code()
    }
}

impl TryFrom<u8> for MergModuleType {
    type Error = UndefinedCode;

    /// The checked conversion of `code`.
    fn try_from(code: u8) -> (r: Result<MergModuleType, UndefinedCode>) {
        MergModuleType::try_from_code(code)
    }
}

impl vstd::std_specs::convert::TryFromSpecImpl<u8> for MergModuleType {
    open spec fn obeys_try_from_spec() -> bool {
        true
    }

    open spec fn try_from_spec(code: u8) -> Result<MergModuleType, UndefinedCode> {
        checked::<MergModuleType>(code)
    }
}

/// Module types of SPROG DCC.
#[allow(non_camel_case_types)]
#[derive(Debug, Clone, Copy, PartialEq, Eq, Structural)]
pub enum SprogModuleType {
    /// Pi-SPROG 3 programmer/command station
    CANPiSPRG3,
    /// SPROG 3 Plus programmer/command station
    CANSPROG3P,
    /// CAN SPROG programmer/command station
    CANSPROG,
    /// System Booster
    CANSBOOST,
    /// Pi-SPROG 3 Plus programmer/command station
    CANPiSPRGP,
    /// 8-channel (4-pairs) Solenoid I/O module
    CANSOLNOID,
    /// 8-channel Servo I/O module
    CANSERVOIO,
    /// CAN ISB Isolated CAN USB Interface
    CANISB,
    /// 8-channel (4-pairs) Solenoid I/O module
    CANSOLIO,
}

impl TypedIdentifier for SprogModuleType {
    open spec fn code(self) -> u8 {
        match self {
            SprogModuleType::CANPiSPRG3 => 1,
            SprogModuleType::CANSPROG3P => 2,
            SprogModuleType::CANSPROG => 3,
            SprogModuleType::CANSBOOST => 4,
            SprogModuleType::CANPiSPRGP => 5,
            SprogModuleType::CANSOLNOID => 8,
            SprogModuleType::CANSERVOIO => 50,
            SprogModuleType::CANISB => 100,
            SprogModuleType::CANSOLIO => 101,
        }
    }

    open spec fn decode(code: u8) -> Option<Self> {
        match code {
            1 => Some(SprogModuleType::CANPiSPRG3),
            2 => Some(SprogModuleType::CANSPROG3P),
            3 => Some(SprogModuleType::CANSPROG),
            4 => Some(SprogModuleType::CANSBOOST),
            5 => Some(SprogModuleType::CANPiSPRGP),
            8 => Some(SprogModuleType::CANSOLNOID),
            50 => Some(SprogModuleType::CANSERVOIO),
            100 => Some(SprogModuleType::CANISB),
            101 => Some(SprogModuleType::CANSOLIO),
            _ => None,
        }
    }

    open spec fn space() -> CodeSpace {
        CodeSpace::SprogModuleType
    }

    proof fn lemma_decode_inverts_code(i: Self, code: u8) {
    }
}

impl CodeRegistry for SprogModuleType {
    fn to_code(self) -> (c: u8) {
        match self {
            SprogModuleType::CANPiSPRG3 => 1,
            SprogModuleType::CANSPROG3P => 2,
            SprogModuleType::CANSPROG => 3,
            SprogModuleType::CANSBOOST => 4,
            SprogModuleType::CANPiSPRGP => 5,
            SprogModuleType::CANSOLNOID => 8,
            SprogModuleType::CANSERVOIO => 50,
            SprogModuleType::CANISB => 100,
            SprogModuleType::CANSOLIO => 101,
        }
    }

    fn try_from_code(code: u8) -> (r: Result<Self, UndefinedCode>) {
        assert(Self::space() == CodeSpace::SprogModuleType);
        match code {
            1 => Ok(SprogModuleType::CANPiSPRG3),
            2 => Ok(SprogModuleType::CANSPROG3P),
            3 => Ok(SprogModuleType::CANSPROG),
            4 => Ok(SprogModuleType::CANSBOOST),
            5 => Ok(SprogModuleType::CANPiSPRGP),
            8 => Ok(SprogModuleType::CANSOLNOID),
            50 => Ok(SprogModuleType::CANSERVOIO),
            100 => Ok(SprogModuleType::CANISB),
            101 => Ok(SprogModuleType::CANSOLIO),
            _ => Err(UndefinedCode { space: CodeSpace::SprogModuleType, value: code }),
        }
    }
}

impl From<SprogModuleType> for u8 {
    /// The wire byte of `value`.
    fn from(value: SprogModuleType) -> (c: u8) {
        value.to_code()
    }
}

impl vstd::std_specs::convert::FromSpecImpl<SprogModuleType> for u8 {
    open spec fn obeys_from_spec() -> bool {
        true
    }

    open spec fn from_spec(value: SprogModuleType) -> u8 {
        value.code()
    }
}

impl TryFrom<u8> for SprogModuleType {
    type Error = UndefinedCode;

    /// The checked conversion of `code`.
    fn try_from(code: u8) -> (r: Result<SprogModuleType, UndefinedCode>) {
        SprogModuleType::try_from_code(code)
    }
}

impl vstd::std_specs::convert::TryFromSpecImpl<u8> for SprogModuleType {
    open spec fn obeys_try_from_spec() -> bool {
        true
    }

    open spec fn try_from_spec(code: u8) -> Result<SprogModuleType, UndefinedCode> {
        checked::<SprogModuleType>(code)
    }
}

/// Module types of Rocrail.
#[allow(non_camel_case_types)]
#[derive(Debug, Clone, Copy, PartialEq, Eq, Structural)]
pub enum RocRailModuleType {
    /// RS232 PC interface
    CANGC1,
    /// 16 I/O
    CANGC2,
    /// Command station (derived from cancmd)
    CANGC3,
    /// 8 channel RFID reader
    CANGC4,
    /// Cab for fixed panels (derived from cancab)
    CANGC5,
    /// 4 channel servo controller
    CANGC6,
    /// Fast clock module
    CANGC7,
    /// CAN<->Ethernet interface
    CANGC1e,
}

impl TypedIdentifier for RocRailModuleType {
    open spec fn code(self) -> u8 {
        match self {
            RocRailModuleType::CANGC1 => 1,
            RocRailModuleType::CANGC2 => 2,
            RocRailModuleType::CANGC3 => 3,
            RocRailModuleType::CANGC4 => 4,
            RocRailModuleType::CANGC5 => 5,
            RocRailModuleType::CANGC6 => 6,
            RocRailModuleType::CANGC7 => 7,
            RocRailModuleType::CANGC1e => 11,
        }
    }

    open spec fn decode(code: u8) -> Option<Self> {
        match code {
            1 => Some(RocRailModuleType::CANGC1),
            2 => Some(RocRailModuleType::CANGC2),
            3 => Some(RocRailModuleType::CANGC3),
            4 => Some(RocRailModuleType::CANGC4),
            5 => Some(RocRailModuleType::CANGC5),
            6 => Some(RocRailModuleType::CANGC6),
            7 => Some(RocRailModuleType::CANGC7),
            11 => Some(RocRailModuleType::CANGC1e),
            _ => None,
        }
    }

    open spec fn space() -> CodeSpace {
        CodeSpace::RocRailModuleType
    }

    proof fn lemma_decode_inverts_code(i: Self, code: u8) {
    }
}

impl CodeRegistry for RocRailModuleType {
    fn to_code(self) -> (c: u8) {
        match self {
            RocRailModuleType::CANGC1 => 1,
            RocRailModuleType::CANGC2 => 2,
            RocRailModuleType::CANGC3 => 3,
            RocRailModuleType::CANGC4 => 4,
            RocRailModuleType::CANGC5 => 5,
            RocRailModuleType::CANGC6 => 6,
            RocRailModuleType::CANGC7 => 7,
            RocRailModuleType::CANGC1e => 11,
        }
    }

    fn try_from_code(code: u8) -> (r: Result<Self, UndefinedCode>) {
        assert(Self::space() == CodeSpace::RocRailModuleType);
        match code {
            1 => Ok(RocRailModuleType::CANGC1),
            2 => Ok(RocRailModuleType::CANGC2),
            3 => Ok(RocRailModuleType::CANGC3),
            4 => Ok(RocRailModuleType::CANGC4),
            5 => Ok(RocRailModuleType::CANGC5),
            6 => Ok(RocRailModuleType::CANGC6),
            7 => Ok(RocRailModuleType::CANGC7),
            11 => Ok(RocRailModuleType::CANGC1e),
            _ => Err(UndefinedCode { space: CodeSpace::RocRailModuleType, value: code }),
        }
    }
}

impl From<RocRailModuleType> for u8 {
    /// The wire byte of `value`.
    fn from(value: RocRailModuleType) -> (c: u8) {
        value.to_code()
    }
}

impl vstd::std_specs::convert::FromSpecImpl<RocRailModuleType> for u8 {
    open spec fn obeys_from_spec() -> bool {
        true
    }

    open spec fn from_spec(value: RocRailModuleType) -> u8 {
        value.code()
    }
}

impl TryFrom<u8> for RocRailModuleType {
    type Error = UndefinedCode;

    /// The checked conversion of `code`.
    fn try_from(code: u8) -> (r: Result<RocRailModuleType, UndefinedCode>) {
        RocRailModuleType::try_from_code(code)
    }
}

impl vstd::std_specs::convert::TryFromSpecImpl<u8> for RocRailModuleType {
    open spec fn obeys_try_from_spec() -> bool {
        true
    }

    open spec fn try_from_spec(code: u8) -> Result<RocRailModuleType, UndefinedCode> {
        checked::<RocRailModuleType>(code)
    }
}

/// Module types of Spectrum Engineering (Animated Modeller).
#[allow(non_camel_case_types)]
#[derive(Debug, Clone, Copy, PartialEq, Eq, Structural)]
pub enum SpectrumModuleType {
    /// Animation controller (firmware derived from cancmd)
    AMCTRLR,
    /// Dual cab based on cancab
    DUALCAB,
}

impl TypedIdentifier for SpectrumModuleType {
    open spec fn code(self) -> u8 {
        match self {
            SpectrumModuleType::AMCTRLR => 1,
            SpectrumModuleType::DUALCAB => 2,
        }
    }

    open spec fn decode(code: u8) -> Option<Self> {
        match code {
            1 => Some(SpectrumModuleType::AMCTRLR),
            2 => Some(SpectrumModuleType::DUALCAB),
            _ => None,
        }
    }

    open spec fn space() -> CodeSpace {
        CodeSpace::SpectrumModuleType
    }

    proof fn lemma_decode_inverts_code(i: Self, code: u8) {
    }
}

impl CodeRegistry for SpectrumModuleType {
    fn to_code(self) -> (c: u8) {
        match self {
            SpectrumModuleType::AMCTRLR => 1,
            SpectrumModuleType::DUALCAB => 2,
        }
    }

    fn try_from_code(code: u8) -> (r: Result<Self, UndefinedCode>) {
        assert(Self::space() == CodeSpace::SpectrumModuleType);
        match code {
            1 => Ok(SpectrumModuleType::AMCTRLR),
            2 => Ok(SpectrumModuleType::DUALCAB),
            _ => Err(UndefinedCode { space: CodeSpace::SpectrumModuleType, value: code }),
        }
    }
}

impl From<SpectrumModuleType> for u8 {
    /// The wire byte of `value`.
    fn from(value: SpectrumModuleType) -> (c: u8) {
        value.to_code()
    }
}

impl vstd::std_specs::convert::FromSpecImpl<SpectrumModuleType> for u8 {
    open spec fn obeys_from_spec() -> bool {
        true
    }

    open spec fn from_spec(value: SpectrumModuleType) -> u8 {
        value.code()
    }
}

impl TryFrom<u8> for SpectrumModuleType {
    type Error = UndefinedCode;

    /// The checked conversion of `code`.
    fn try_from(code: u8) -> (r: Result<SpectrumModuleType, UndefinedCode>) {
        SpectrumModuleType::try_from_code(code)
    }
}

impl vstd::std_specs::convert::TryFromSpecImpl<u8> for SpectrumModuleType {
    open spec fn obeys_try_from_spec() -> bool {
        true
    }

    open spec fn try_from_spec(code: u8) -> Result<SpectrumModuleType, UndefinedCode> {
        checked::<SpectrumModuleType>(code)
    }
}

/// Module types of SysPixie (Konrad Orlowski).
#[allow(non_camel_case_types)]
#[derive(Debug, Clone, Copy, PartialEq, Eq, Structural)]
pub enum SysPixieModuleType {
    /// Motorised point motor driver with current sense
    CANPMSense,
}

impl TypedIdentifier for SysPixieModuleType {
    open spec fn code(self) -> u8 {
        match self {
            SysPixieModuleType::CANPMSense => 1,
        }
    }

    open spec fn decode(code: u8) -> Option<Self> {
        match code {
            1 => Some(SysPixieModuleType::CANPMSense),
            _ => None,
        }
    }

    open spec fn space() -> CodeSpace {
        CodeSpace::SysPixieModuleType
    }

    proof fn lemma_decode_inverts_code(i: Self, code: u8) {
    }
}

impl CodeRegistry for SysPixieModuleType {
    fn to_code(self) -> (c: u8) {
        match self {
            SysPixieModuleType::CANPMSense => 1,
        }
    }

    fn try_from_code(code: u8) -> (r: Result<Self, UndefinedCode>) {
        assert(Self::space() == CodeSpace::SysPixieModuleType);
        match code {
            1 => Ok(SysPixieModuleType::CANPMSense),
            _ => Err(UndefinedCode { space: CodeSpace::SysPixieModuleType, value: code }),
        }
    }
}

impl From<SysPixieModuleType> for u8 {
    /// The wire byte of `value`.
    fn from(value: SysPixieModuleType) -> (c: u8) {
        value.to_code()
    }
}

impl vstd::std_specs::convert::FromSpecImpl<SysPixieModuleType> for u8 {
    open spec fn obeys_from_spec() -> bool {
        true
    }

    open spec fn from_spec(value: SysPixieModuleType) -> u8 {
        value.code()
    }
}

impl TryFrom<u8> for SysPixieModuleType {
    type Error = UndefinedCode;

    /// The checked conversion of `code`.
    fn try_from(code: u8) -> (r: Result<SysPixieModuleType, UndefinedCode>) {
        SysPixieModuleType::try_from_code(code)
    }
}

impl vstd::std_specs::convert::TryFromSpecImpl<u8> for SysPixieModuleType {
    open spec fn obeys_try_from_spec() -> bool {
        true
    }

    open spec fn try_from_spec(code: u8) -> Result<SysPixieModuleType, UndefinedCode> {
        checked::<SysPixieModuleType>(code)
    }
}

} // verus!
