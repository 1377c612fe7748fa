//! The small parts one by one: registers, command blocks, strings, decoders.

use atasmart::disk::{identify_device, SmartData, SmartInfo, SmartThresholds};
use atasmart::identify::parse_identify_data;
use atasmart::smart::attributes::{attribute_info, parse_attribute};
use atasmart::smart::blob::{BlobData, BlobTag};
use atasmart::smart::parse::parse_smart_data;
use atasmart::transport::ata::{AtaCommand, Direction, SmartCommand};
use atasmart::transport::commands::AtaRegisters;
use atasmart::transport::request::Step;
use atasmart::transport::scsi::{
    ScsiCdb12, ScsiCdb16, SG_DXFER_FROM_DEV, SG_DXFER_NONE, SG_DXFER_TO_DEV,
};
use atasmart::types::TIMEOUT_MS;
use atasmart::utils::{
    clean_string, push_decimal, read_ata_string, read_le16, read_le32, read_le48, str_contains,
    str_eq, swap_string_bytes, trim_spaces,
};
use atasmart::{
    AttributeUnit, Disk, DiskType, Duration, Error, OfflineDataCollectionStatus,
    SelfTestExecutionStatus, SmartParsedData, SmartSelfTest,
};

#[test]
fn test_library_compiles() {
    assert!(true);
}

#[test]
fn test_identify_device_blob() {
    let result = match identify_device(DiskType::Blob, None) {
        Step::Done(result) => result,
        Step::Send(_) => panic!("a snapshot takes no command"),
    };
    assert!(result.is_ok());
    let data = result.unwrap();
    assert_eq!(data.len(), 512);
}

#[test]
fn test_disk_creation() {
    let disk = Disk::new(DiskType::AtaPassthrough16, 1000);
    assert_eq!(disk.size(), 1000);
    assert_eq!(disk.disk_type(), DiskType::AtaPassthrough16);
    assert!(disk.identify_data().is_none());
    assert!(disk.smart_data().is_none());
    assert!(disk.smart_thresholds().is_none());
    assert!(disk.get_smart_status_internal().is_none());
}

#[test]
fn test_ata_command_values() {
    assert_eq!(AtaCommand::IdentifyDevice.code(), 0xEC);
    assert_eq!(AtaCommand::Smart.code(), 0xB0);
}

#[test]
fn test_all_command_values() {
    assert_eq!(AtaCommand::IdentifyPacketDevice.code(), 0xA1);
    assert_eq!(AtaCommand::CheckPowerMode.code(), 0xE5);
    assert_eq!(SmartCommand::ReadThresholds.code(), 0xD1);
    assert_eq!(SmartCommand::ExecuteOfflineImmediate.code(), 0xD4);
    assert_eq!(SmartCommand::EnableOperations.code(), 0xD8);
    assert_eq!(SmartCommand::DisableOperations.code(), 0xD9);
}

#[test]
fn test_smart_command_values() {
    assert_eq!(SmartCommand::ReadData.code(), 0xD0);
    assert_eq!(SmartCommand::ReturnStatus.code(), 0xDA);
}

#[test]
fn test_ata_registers() {
    let mut regs = AtaRegisters::new();
    regs.set_features(0x12);
    regs.set_sector_count(0x01);
    regs.set_lba_low(0xAB);
    regs.set_lba_mid(0xCD);
    regs.set_lba_high(0xEF);

    assert_eq!(regs.data[1], 0x12);
    assert_eq!(regs.data[3], 0x01);
    assert_eq!(regs.data[9], 0xAB);
    assert_eq!(regs.data[8], 0xCD);
    assert_eq!(regs.data[7], 0xEF);
}

#[test]
fn test_ata_registers_device_status_error() {
    let mut regs = AtaRegisters::new();
    regs.set_device(0x40);
    assert_eq!(regs.data[10], 0x40);
    regs.data[11] = 0x50;
    regs.data[2] = 0x04;
    assert_eq!(regs.status(), 0x50);
    assert_eq!(regs.error(), 0x04);
    assert_eq!(regs.data[0], 0);
}

#[test]
fn test_ioctl_definitions() {
    assert_eq!(SG_DXFER_NONE, -1);
    assert_eq!(SG_DXFER_TO_DEV, -2);
    assert_eq!(SG_DXFER_FROM_DEV, -3);
    assert_eq!(TIMEOUT_MS, 2000);
}

#[test]
fn test_cdb_creation() {
    let cdb12 = ScsiCdb12::new();
    assert_eq!(cdb12.data.len(), 12);

    let cdb16 = ScsiCdb16::new();
    assert_eq!(cdb16.data.len(), 16);
    assert!(cdb12.data.iter().all(|&b| b == 0));
    assert!(cdb16.data.iter().all(|&b| b == 0));
}

#[test]
fn test_parse_identify_data() {
    let mut data = [0u8; 512];
    data[20] = b'E';
    data[21] = b'T';
    data[22] = b'S';
    data[23] = b'T';

    let result = parse_identify_data(&data);
    assert!(result.is_ok());

    let parsed = result.unwrap();
    assert!(!parsed.serial.is_empty());
    assert_eq!(parsed.serial, "TETS");
    assert_eq!(parsed.firmware, "");
    assert_eq!(parsed.model, "");
}

#[test]
fn test_attribute_info_table() {
    assert!(attribute_info(1).is_some());
    assert_eq!(attribute_info(1).unwrap().name, "raw-read-error-rate");

    assert!(attribute_info(9).is_some());
    assert_eq!(attribute_info(9).unwrap().name, "power-on-hours");
    assert_eq!(attribute_info(9).unwrap().unit, AttributeUnit::Milliseconds);
}

#[test]
fn test_attribute_info_table_edges() {
    assert!(attribute_info(0).is_none());
    assert!(attribute_info(14).is_none());
    assert!(attribute_info(173).is_none());
    assert!(attribute_info(255).is_none());
    assert_eq!(attribute_info(5).unwrap().unit, AttributeUnit::Sectors);
    assert_eq!(attribute_info(194).unwrap().name, "temperature-celsius-2");
    assert_eq!(attribute_info(194).unwrap().unit, AttributeUnit::MilliKelvin);
    assert_eq!(attribute_info(232).unwrap().unit, AttributeUnit::Percent);
    assert_eq!(attribute_info(241).unwrap().unit, AttributeUnit::Megabytes);
    assert_eq!(attribute_info(250).unwrap().name, "read-error-retry-rate");
    assert_eq!(attribute_info(12).unwrap().unit, AttributeUnit::Dimensionless);
    let named = (0..=255u8).filter(|&id| attribute_info(id).is_some()).count();
    assert_eq!(named, 68);
}

#[test]
fn test_parse_attribute() {
    let mut raw_data = [0u8; 12];
    raw_data[0] = 9;
    raw_data[1] = 0x02;
    raw_data[2] = 0x00;
    raw_data[3] = 100;
    raw_data[4] = 100;
    raw_data[5] = 0xE8;
    raw_data[6] = 0x03;

    let attr = parse_attribute(&raw_data, None, 0).unwrap();

    assert_eq!(attr.id, 9);
    assert_eq!(attr.name, "power-on-hours");
    assert_eq!(attr.current_value, 100);
    assert!(attr.online);
    assert!(!attr.prefailure);

    assert_eq!(attr.pretty_value, 1000 * 60 * 60 * 1000);
}

#[test]
fn test_blob_tag_conversion() {
    assert_eq!(BlobTag::from_u32(0x49444659), Some(BlobTag::Identify));
    assert_eq!(BlobTag::from_u32(0x534D5354), Some(BlobTag::SmartStatus));
    assert_eq!(BlobTag::from_u32(0x534D4454), Some(BlobTag::SmartData));
    assert_eq!(
        BlobTag::from_u32(0x534D5448),
        Some(BlobTag::SmartThresholds)
    );
    assert_eq!(BlobTag::from_u32(0x12345678), None);
}

#[test]
fn test_blob_tag_values() {
    assert_eq!(BlobTag::Identify.value(), u32::from_be_bytes(*b"IDFY"));
    assert_eq!(BlobTag::SmartStatus.value(), u32::from_be_bytes(*b"SMST"));
    assert_eq!(BlobTag::SmartData.value(), u32::from_be_bytes(*b"SMDT"));
    assert_eq!(BlobTag::SmartThresholds.value(), u32::from_be_bytes(*b"SMTH"));
    assert_eq!(BlobTag::Identify.payload_len(), 512);
    assert_eq!(BlobTag::SmartStatus.payload_len(), 4);
    assert_eq!(BlobTag::SmartData.payload_len(), 512);
    assert_eq!(BlobTag::SmartThresholds.payload_len(), 512);
}

#[test]
fn test_blob_data_creation() {
    let blob_data = BlobData::new();
    assert!(blob_data.identify.is_none());
    assert!(blob_data.smart_status.is_none());
    assert!(blob_data.smart_data.is_none());
    assert!(blob_data.smart_thresholds.is_none());
}

#[test]
fn test_smart_operations() {
    let mut smart = [0u8; 512];
    smart[2] = 12;
    smart[2 + 5] = 7;
    let data = SmartData::new(smart, 0);
    assert_eq!(data.raw()[2], 12);
    let attributes = data.parse_attributes(None).unwrap();
    assert_eq!(attributes.len(), 1);
    assert_eq!(attributes[0].name, "power-cycle-count");
    assert_eq!(attributes[0].pretty_value, 7);
    assert!(!attributes[0].threshold_valid);

    let mut thresholds = [0u8; 512];
    thresholds[2 + 12 * 4] = 12;
    thresholds[2 + 12 * 4 + 1] = 20;
    let thresholds = SmartThresholds::new(thresholds);
    assert_eq!(thresholds.raw()[2 + 12 * 4 + 1], 20);
    let info = SmartInfo::new(data, Some(thresholds));
    let attributes = info.parse_attributes().unwrap();
    assert_eq!(attributes.len(), 1);
    assert_eq!(attributes[0].threshold, 20);
    assert!(attributes[0].threshold_valid);
    assert!(data.parse().is_ok());
}

#[test]
fn test_parse_smart_data() {
    let mut data = [0u8; 512];
    data[362] = 0x00;
    data[363] = 0x00;
    data[364] = 100;
    data[365] = 0;
    data[367] = 0x11;
    data[372] = 2;
    data[373] = 60;
    data[374] = 2;

    let parsed = parse_smart_data(&data).unwrap();

    assert_eq!(
        parsed.offline_data_collection_status,
        OfflineDataCollectionStatus::Never
    );
    assert_eq!(
        parsed.self_test_execution_status,
        SelfTestExecutionStatus::SuccessOrNever
    );
    assert_eq!(parsed.self_test_execution_percent_remaining, 0);
    assert_eq!(parsed.total_offline_data_collection_seconds, 100);
    assert_eq!(parsed.short_test_polling_minutes, 2);
    assert_eq!(parsed.extended_test_polling_minutes, 60);
}

#[test]
fn test_parse_extended_test_time_extended_format() {
    let mut data = [0u8; 512];
    data[373] = 0xFF;
    data[375] = 0x2C;
    data[376] = 0x01;

    let parsed = parse_smart_data(&data).unwrap();
    assert_eq!(parsed.extended_test_polling_minutes, 300);
}

#[test]
fn test_parse_smart_data_every_offline_status() {
    let cases = [
        (0x00u8, OfflineDataCollectionStatus::Never),
        (0x80, OfflineDataCollectionStatus::Never),
        (0x02, OfflineDataCollectionStatus::Success),
        (0x82, OfflineDataCollectionStatus::Success),
        (0x03, OfflineDataCollectionStatus::InProgress),
        (0x04, OfflineDataCollectionStatus::Suspended),
        (0x84, OfflineDataCollectionStatus::Suspended),
        (0x05, OfflineDataCollectionStatus::Aborted),
        (0x85, OfflineDataCollectionStatus::Aborted),
        (0x06, OfflineDataCollectionStatus::Fatal),
        (0x86, OfflineDataCollectionStatus::Fatal),
        (0x01, OfflineDataCollectionStatus::Unknown),
        (0x83, OfflineDataCollectionStatus::Unknown),
        (0xFF, OfflineDataCollectionStatus::Unknown),
    ];
    for (byte, expected) in cases {
        let mut data = [0u8; 512];
        data[362] = byte;
        assert_eq!(
            parse_smart_data(&data).unwrap().offline_data_collection_status,
            expected
        );
    }
}

#[test]
fn test_parse_smart_data_self_test_nibbles() {
    let cases = [
        (0u8, SelfTestExecutionStatus::SuccessOrNever),
        (1, SelfTestExecutionStatus::Aborted),
        (2, SelfTestExecutionStatus::Interrupted),
        (3, SelfTestExecutionStatus::Fatal),
        (4, SelfTestExecutionStatus::ErrorUnknown),
        (5, SelfTestExecutionStatus::ErrorElectrical),
        (6, SelfTestExecutionStatus::ErrorServo),
        (7, SelfTestExecutionStatus::ErrorRead),
        (8, SelfTestExecutionStatus::ErrorHandling),
        (9, SelfTestExecutionStatus::SuccessOrNever),
        (14, SelfTestExecutionStatus::SuccessOrNever),
        (15, SelfTestExecutionStatus::InProgress),
    ];
    for (code, expected) in cases {
        let mut data = [0u8; 512];
        data[363] = (code << 4) | 0x07;
        let parsed = parse_smart_data(&data).unwrap();
        assert_eq!(parsed.self_test_execution_status, expected);
        assert_eq!(parsed.self_test_execution_percent_remaining, 70);
    }
    let mut data = [0u8; 512];
    data[363] = 0xFF;
    assert_eq!(
        parse_smart_data(&data).unwrap().self_test_execution_percent_remaining,
        150
    );
}

#[test]
fn test_parse_smart_data_capabilities() {
    let mut data = [0u8; 512];
    data[364] = 0x34;
    data[365] = 0x12;
    data[367] = 0x20;
    data[374] = 9;
    let parsed = parse_smart_data(&data).unwrap();
    assert_eq!(parsed.total_offline_data_collection_seconds, 0x1234);
    assert!(parsed.conveyance_test_available);
    assert!(!parsed.short_and_extended_test_available);
    assert!(!parsed.start_test_available);
    assert!(parsed.abort_test_available);
    assert_eq!(parsed.conveyance_test_polling_minutes, 9);

    data[367] = 0x08;
    let parsed = parse_smart_data(&data).unwrap();
    assert!(parsed.abort_test_available);
    assert!(!parsed.conveyance_test_available);

    data[367] = 0x10;
    let parsed = parse_smart_data(&data).unwrap();
    assert!(parsed.short_and_extended_test_available);
    assert!(!parsed.abort_test_available);

    data[373] = 0xFE;
    data[375] = 0x2C;
    data[376] = 0x01;
    assert_eq!(parse_smart_data(&data).unwrap().extended_test_polling_minutes, 0xFE);
}

#[test]
fn test_statistics_methods_exist() {
    let disk = Disk::new(DiskType::AtaPassthrough16, 0);
    assert_eq!(disk.smart_get_bad_sectors(), Err(Error::NoData));
    assert_eq!(disk.smart_get_power_on(), Err(Error::NoData));
    assert_eq!(disk.smart_get_power_cycle(), Err(Error::NoData));
    assert_eq!(disk.smart_get_temperature(), Err(Error::NoData));
}

#[test]
fn test_smart_self_test_values() {
    assert_eq!(SmartSelfTest::Short.code(), 1);
    assert_eq!(SmartSelfTest::Extended.code(), 2);
    assert_eq!(SmartSelfTest::Abort.code(), 127);
    assert_eq!(SmartSelfTest::Conveyance.code(), 3);
}

#[test]
fn test_status_strings() {
    assert!(!OfflineDataCollectionStatus::Success.as_str().is_empty());
    assert!(!SelfTestExecutionStatus::InProgress.as_str().is_empty());
    assert_eq!(AttributeUnit::Megabytes.as_str(), "MB");
    assert_eq!(AttributeUnit::MilliKelvin.as_str(), "mK");
}

fn sample_smart_parsed_data() -> SmartParsedData {
    SmartParsedData {
        offline_data_collection_status: OfflineDataCollectionStatus::Never,
        total_offline_data_collection_seconds: 0,
        self_test_execution_status: SelfTestExecutionStatus::SuccessOrNever,
        self_test_execution_percent_remaining: 0,
        short_and_extended_test_available: true,
        conveyance_test_available: false,
        start_test_available: true,
        abort_test_available: true,
        short_test_polling_minutes: 2,
        extended_test_polling_minutes: 60,
        conveyance_test_polling_minutes: 0,
    }
}

#[test]
fn test_smart_parsed_data_self_test() {
    let data = sample_smart_parsed_data();

    assert!(data.self_test_available(SmartSelfTest::Short));
    assert!(!data.self_test_available(SmartSelfTest::Conveyance));
    assert_eq!(data.self_test_polling_minutes(SmartSelfTest::Short), 2);
}

#[test]
fn test_smart_parsed_data_self_test_more() {
    let mut data = sample_smart_parsed_data();
    assert!(data.self_test_available(SmartSelfTest::Extended));
    assert!(data.self_test_available(SmartSelfTest::Abort));
    assert_eq!(data.self_test_polling_minutes(SmartSelfTest::Extended), 60);
    assert_eq!(data.self_test_polling_minutes(SmartSelfTest::Conveyance), 0);
    assert_eq!(data.self_test_polling_minutes(SmartSelfTest::Abort), 0);
    data.conveyance_test_available = true;
    data.conveyance_test_polling_minutes = 5;
    assert_eq!(data.self_test_polling_minutes(SmartSelfTest::Conveyance), 5);
    data.start_test_available = false;
    assert!(!data.self_test_available(SmartSelfTest::Short));
    assert!(!data.self_test_available(SmartSelfTest::Abort));
    assert_eq!(data.self_test_polling_minutes(SmartSelfTest::Short), 0);
}

#[test]
fn test_duration() {
    let dur = Duration::from_hours(24);
    assert_eq!(dur.as_hours(), 24);
    assert_eq!(dur.as_millis() as f64 / (24.0 * 3600.0 * 1000.0), 1.0);

    let dur2 = Duration::from_millis(3600000);
    assert_eq!(dur2.as_hours(), 1);
}

#[test]
fn test_duration_conversions() {
    let d = Duration::from_minutes(90);
    assert_eq!(d.as_millis(), 5_400_000);
    assert_eq!(d.as_secs(), 5400);
    assert_eq!(d.as_minutes(), 90);
    assert_eq!(d.as_hours(), 1);
    assert_eq!(Duration::from_millis(999).as_secs(), 0);
    assert!(Duration::from_millis(1) < Duration::from_millis(2));
    assert_eq!(Duration::from_hours(1), Duration::from_minutes(60));
}

#[test]
fn test_swap_string_bytes() {
    let mut data = b"ABCD".to_vec();
    swap_string_bytes(&mut data);
    assert_eq!(&data, b"BADC");
}

#[test]
fn test_swap_string_bytes_empty() {
    let mut data: Vec<u8> = Vec::new();
    swap_string_bytes(&mut data);
    assert!(data.is_empty());
}

#[test]
fn test_clean_string() {
    let mut data = vec![0x01, b'A', 0x7F, b'B'];
    clean_string(&mut data);
    assert_eq!(&data, b" A B");
}

#[test]
fn test_clean_string_keeps_printable() {
    let mut data = vec![0x1F, 0x20, 0x7E, 0x7F, 0x80, 0xFF, 0x00];
    clean_string(&mut data);
    assert_eq!(data, vec![0x20, 0x20, 0x7E, 0x20, 0x20, 0x20, 0x20]);
}

#[test]
fn test_trim_spaces() {
    assert_eq!(trim_spaces("  hello   world  "), "hello world");
}

#[test]
fn test_trim_spaces_edges() {
    assert_eq!(trim_spaces(""), "");
    assert_eq!(trim_spaces("   "), "");
    assert_eq!(trim_spaces("a"), "a");
    assert_eq!(trim_spaces("\ta\n\nb\r c "), "a b c");
    assert_eq!(trim_spaces("a\u{00A0}b\u{3000}c"), "a b c");
    assert_eq!(trim_spaces("é  ü"), "é ü");
    let text = "  one two   three\tfour ";
    let expected = text.split_whitespace().collect::<Vec<_>>().join(" ");
    assert_eq!(trim_spaces(text), expected);
}

#[test]
fn test_read_ata_string() {
    assert_eq!(read_ata_string(b"eHll o"), "Hello");
    assert_eq!(read_ata_string(b"  BA  "), "AB");
    assert_eq!(read_ata_string(&[0, 0, 0, 0]), "");
    assert_eq!(read_ata_string(&[b'B', b'A', 0x01, 0xFF, b'D', b'C']), "AB CD");
    assert_eq!(read_ata_string(&[]), "");
}

#[test]
fn test_text_helpers() {
    assert!(str_eq("abc", "abc"));
    assert!(!str_eq("abc", "abd"));
    assert!(!str_eq("abc", "abcd"));
    assert!(str_eq("", ""));
    assert!(str_contains("spin-up-time", "spin-up"));
    assert!(str_contains("load-in-time", "load-in"));
    assert!(!str_contains("power-on-hours", "spin-up"));
    assert!(str_contains("abc", ""));
    assert!(str_contains("abc", "abc"));
    assert!(str_contains("abc", "c"));
    assert!(!str_contains("ab", "abc"));
    let mut s = String::from("n=");
    push_decimal(&mut s, 0);
    push_decimal(&mut s, 7);
    push_decimal(&mut s, 1203);
    assert_eq!(s, "n=071203");
    let mut s = String::new();
    push_decimal(&mut s, u64::MAX);
    assert_eq!(s, u64::MAX.to_string());
}

#[test]
fn test_little_endian_loads() {
    let data = [0x01u8, 0x02, 0x03, 0x04, 0x05, 0x06, 0x07];
    assert_eq!(read_le16(&data, 0), 0x0201);
    assert_eq!(read_le16(&data, 5), 0x0706);
    assert_eq!(read_le32(&data, 1), 0x05040302);
    assert_eq!(read_le48(&data, 1), 0x0706_0504_0302);
    assert_eq!(read_le48(&[0xFF; 6], 0), 0xFFFF_FFFF_FFFF);
    assert_eq!(read_le32(&[0xFF; 4], 0), u32::MAX);
}

#[test]
fn test_error_messages() {
    assert_eq!(Error::Io(5).message(), "I/O error, OS error 5");
    assert_eq!(Error::Io(-13).message(), "I/O error, OS error -13");
    assert_eq!(Error::Io(0).message(), "I/O error, OS error 0");
    assert_eq!(
        Error::Io(i32::MIN).message(),
        "I/O error, OS error -2147483648"
    );
    assert_eq!(
        Error::NotSupported("x".to_string()).message(),
        "not supported: x"
    );
    assert_eq!(Error::InvalidData("y".to_string()).message(), "invalid data: y");
    assert_eq!(Error::SmartNotAvailable.message(), "the device has no SMART");
    assert_eq!(Error::DeviceSleeping.message(), "the device is asleep");
    assert_eq!(Error::NoData.message(), "the data has not been read");
}

#[test]
fn test_direction_is_plain_value() {
    assert_ne!(Direction::In, Direction::Out);
    assert_ne!(Direction::NonData, Direction::In);
}
