use libcamera_core::camera::CameraConfigurationStatus;
use libcamera_core::logging::{LoggingLevel, LoggingStream, LoggingTarget};
use libcamera_core::pixel_format::PixelFormat;
use libcamera_core::request::RequestStatus;
use libcamera_core::stream::StreamRole;
use libcamera_core::utils::Immutable;

#[test]
fn configuration_status_predicates() {
    let s = CameraConfigurationStatus::try_from(0).unwrap();
    assert!(s.is_valid() && !s.is_adjusted() && !s.is_invalid());
    let s = CameraConfigurationStatus::try_from(1).unwrap();
    assert!(s.is_adjusted());
    let s = CameraConfigurationStatus::try_from(2).unwrap();
    assert!(s.is_invalid());
    assert!(CameraConfigurationStatus::try_from(3).is_err());
}

#[test]
fn stream_role_codes_round_trip() {
    for code in 0..4u32 {
        let role = StreamRole::try_from(code).unwrap();
        assert_eq!(role.code(), code);
    }
    assert!(StreamRole::try_from(4).is_err());
    assert!(matches!(StreamRole::try_from(3), Ok(StreamRole::ViewFinder)));
}

#[test]
fn request_status_codes() {
    assert!(matches!(RequestStatus::try_from(0), Ok(RequestStatus::Pending)));
    assert!(matches!(RequestStatus::try_from(1), Ok(RequestStatus::Complete)));
    assert!(matches!(RequestStatus::try_from(2), Ok(RequestStatus::Cancelled)));
    assert_eq!(RequestStatus::try_from(9).unwrap_err(), "Unknown request status: 9");
}

#[test]
fn logging_names_and_codes() {
    assert_eq!(LoggingLevel::Debug.name(), "DEBUG");
    assert_eq!(LoggingLevel::Fatal.name(), "FATAL");
    assert_eq!(LoggingTarget::Syslog.code(), 1);
    assert_eq!(LoggingStream::StdErr.code(), 1);
    assert_eq!(LoggingStream::StdOut.code(), 0);
}

#[test]
fn pixel_format_accessors() {
    let mut f = PixelFormat::new(u32::from_le_bytes([b'M', b'J', b'P', b'G']), 0);
    assert_eq!(f.fourcc(), u32::from_le_bytes([b'M', b'J', b'P', b'G']));
    assert_eq!(f.modifier(), 0);
    f.set_modifier(7);
    f.set_fourcc(42);
    assert_eq!(f, PixelFormat::new(42, 7));
}

#[test]
fn immutable_offers_the_value() {
    let cell = Immutable::new(17u32);
    assert_eq!(*cell.value(), 17);
}
