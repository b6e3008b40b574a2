use weather_station::mqtt_message::{
    MessageError, SensorMessage, SensorMessagePayload, MAGIC_NUMBER, MESSAGE_LENGTH,
};

/// A frame with the given magic number and readings, little endian.
fn frame(magic: u32, time: i64, floats: [f32; 5], eco2: u16, tvoc: u16) -> Vec<u8> {
    let mut bytes = Vec::new();
    bytes.extend_from_slice(&magic.to_le_bytes());
    bytes.extend_from_slice(&time.to_le_bytes());
    bytes.extend_from_slice(&floats[0].to_le_bytes());
    bytes.extend_from_slice(&floats[1].to_le_bytes());
    bytes.extend_from_slice(&floats[2].to_le_bytes());
    bytes.extend_from_slice(&eco2.to_le_bytes());
    bytes.extend_from_slice(&tvoc.to_le_bytes());
    bytes.extend_from_slice(&floats[3].to_le_bytes());
    bytes.extend_from_slice(&floats[4].to_le_bytes());
    bytes
}

fn sample() -> Vec<u8> {
    frame(0x12345678, 1742069972, [21.5, 101325.0, 40.25, 22.0, 41.0], 450, 25)
}

#[test]
fn frame_has_thirty_six_bytes() {
    assert_eq!(MESSAGE_LENGTH, 36);
    assert_eq!(sample().len(), 36);
}

#[test]
fn well_formed_frame_is_read_field_by_field() {
    let message = SensorMessage::from_bytes(&sample()).unwrap();
    assert_eq!(message.header.magic_number, MAGIC_NUMBER);
    assert_eq!(message.payload.posix_time, 1742069972);
    assert_eq!(f32::from_bits(message.payload.bme_temperature), 21.5);
    assert_eq!(f32::from_bits(message.payload.bme_pressure), 101325.0);
    assert_eq!(f32::from_bits(message.payload.bme_humidity), 40.25);
    assert_eq!(message.payload.sgp30_eCO2, 450);
    assert_eq!(message.payload.sgp30_TVOC, 25);
    assert_eq!(f32::from_bits(message.payload.dht22_temperature), 22.0);
    assert_eq!(f32::from_bits(message.payload.dht22_humidity), 41.0);
}

#[test]
fn fields_are_little_endian() {
    let mut bytes = vec![0u8; 36];
    bytes[..4].copy_from_slice(&[0x78, 0x56, 0x34, 0x12]);
    bytes[4..12].copy_from_slice(&[0x01, 0x02, 0x03, 0x04, 0x05, 0x06, 0x07, 0x08]);
    bytes[12..16].copy_from_slice(&[0xAA, 0xBB, 0xCC, 0xDD]);
    bytes[24..26].copy_from_slice(&[0x34, 0x12]);
    bytes[26..28].copy_from_slice(&[0xFF, 0x00]);
    bytes[32..36].copy_from_slice(&[0x01, 0x00, 0x00, 0x80]);
    let message = SensorMessage::from_bytes(&bytes).unwrap();
    assert_eq!(message.payload.posix_time, 0x0807060504030201);
    assert_eq!(message.payload.bme_temperature, 0xDDCCBBAA);
    assert_eq!(message.payload.bme_pressure, 0);
    assert_eq!(message.payload.sgp30_eCO2, 0x1234);
    assert_eq!(message.payload.sgp30_TVOC, 0x00FF);
    assert_eq!(message.payload.dht22_humidity, 0x80000001);
}

#[test]
fn negative_time_is_read_as_twos_complement() {
    let bytes = frame(0x12345678, -2, [0.0; 5], 0, 0);
    assert_eq!(SensorMessage::from_bytes(&bytes).unwrap().payload.posix_time, -2);
    let bytes = frame(0x12345678, i64::MIN, [0.0; 5], 0, 0);
    assert_eq!(SensorMessage::from_bytes(&bytes).unwrap().payload.posix_time, i64::MIN);
    let bytes = frame(0x12345678, i64::MAX, [0.0; 5], u16::MAX, u16::MAX);
    let message = SensorMessage::from_bytes(&bytes).unwrap();
    assert_eq!(message.payload.posix_time, i64::MAX);
    assert_eq!(message.payload.sgp30_eCO2, u16::MAX);
}

#[test]
fn bytes_beyond_the_frame_are_ignored() {
    let mut bytes = sample();
    bytes.extend_from_slice(&[0xEE; 9]);
    let message = SensorMessage::from_bytes(&bytes).unwrap();
    assert_eq!(message.payload.posix_time, 1742069972);
    assert_eq!(f32::from_bits(message.payload.dht22_humidity), 41.0);
}

#[test]
fn short_input_is_truncated() {
    let bytes = sample();
    for length in 0..36 {
        assert_eq!(
            SensorMessage::from_bytes(&bytes[..length]).err(),
            Some(MessageError::Truncated)
        );
    }
}

#[test]
fn short_input_with_wrong_magic_is_truncated() {
    let bytes = frame(0xDEADBEEF, 0, [0.0; 5], 0, 0);
    assert_eq!(SensorMessage::from_bytes(&bytes[..35]).err(), Some(MessageError::Truncated));
}

#[test]
fn swapped_magic_is_wrong_endianness() {
    let bytes = frame(0x78563412, 0, [0.0; 5], 0, 0);
    assert_eq!(SensorMessage::from_bytes(&bytes).err(), Some(MessageError::WrongEndianness));
}

#[test]
fn other_magic_is_reported_with_its_value() {
    let bytes = frame(0xDEADBEEF, 0, [0.0; 5], 0, 0);
    assert_eq!(
        SensorMessage::from_bytes(&bytes).err(),
        Some(MessageError::BadMagic(0xDEADBEEF))
    );
    let bytes = frame(0, 0, [0.0; 5], 0, 0);
    assert_eq!(SensorMessage::from_bytes(&bytes).err(), Some(MessageError::BadMagic(0)));
}

#[test]
fn dummy_readings_have_the_documented_values() {
    let dummy = SensorMessagePayload::create_dummy();
    assert_eq!(dummy.posix_time, 1742069972);
    assert_eq!(f32::from_bits(dummy.bme_temperature), 100f32);
    assert_eq!(f32::from_bits(dummy.bme_pressure), 101325f32);
    assert_eq!(f32::from_bits(dummy.bme_humidity), 20f32);
    assert_eq!(dummy.sgp30_eCO2, 450);
    assert_eq!(dummy.sgp30_TVOC, 25);
    assert_eq!(f32::from_bits(dummy.dht22_temperature), 95f32);
    assert_eq!(f32::from_bits(dummy.dht22_humidity), 20f32);
}
