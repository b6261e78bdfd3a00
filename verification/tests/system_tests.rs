use rust_kernel::multimedia::capture::{CameraDevice, CaptureDevice, CapturedFrame};
use rust_kernel::multimedia::codecs::h264::H264Decoder;
use rust_kernel::multimedia::codecs::VideoDecoder;
use rust_kernel::multimedia::format::{CodecId, FormatCapability, FormatError, FormatNegotiator, Rational, Resolution};
use rust_kernel::multimedia::pipeline::{Bus, Message};
use rust_kernel::multimedia::{MediaError, MediaFormat, MediaType, PixelFormat};
use rust_kernel::nt::object::Handle;
use rust_kernel::nt::registry::{RegistryDisposition, RegistryManager, RegistryOptions, RegistryRights};
use rust_kernel::nt::NtStatus;

#[test]
fn rational_is_reduced() {
    let r = Rational::new(48000, 1000);
    assert_eq!((r.num, r.den), (48, 1));
    let z = Rational::new(0, 5);
    assert_eq!((z.num, z.den), (0, 1));
}

#[test]
fn h264_keeps_size_after_failed_unit() {
    let mut d = H264Decoder::new();
    assert!(matches!(d.decode_frame(&[]), Err(MediaError::InvalidFormat)));
    let f = d.decode_frame(&[0x65, 0x88]).unwrap();
    assert_eq!(f.width, 1920);
    assert_eq!(f.height, 1080);
    assert_eq!(f.pixel_format, PixelFormat::YUV420P);
    assert_eq!(f.data[0].len(), 2073600);
    assert_eq!(f.data[1].len(), 518400);
    assert_eq!(f.data[2].len(), 518400);
    assert!(f.data[0].iter().all(|b| *b == 0));
    assert!(f.data[1].iter().all(|b| *b == 128));
    assert_eq!(f.linesize, vec![1920, 960, 960]);
}

#[test]
fn registry_create_then_open_finds_key() {
    let mut mgr = RegistryManager::new();
    let opts = RegistryOptions { bits: 0 };
    let rights = RegistryRights { bits: 0 };
    let (parent, d0) = mgr.create_key(None, "Software", opts, rights).unwrap();
    assert_eq!(d0, RegistryDisposition::RegCreatedNewKey);
    let (h, d1) = mgr.create_key(Some(parent), "Vendor", opts, rights).unwrap();
    assert_eq!(d1, RegistryDisposition::RegCreatedNewKey);
    let (h2, d2) = mgr.create_key(Some(parent), "Vendor", opts, rights).unwrap();
    assert_eq!(d2, RegistryDisposition::RegOpenedExistingKey);
    assert_eq!(h2.0, h.0);
    assert_eq!(mgr.open_key(Some(parent), "Vendor").unwrap().0, h.0);
    assert!(matches!(mgr.create_key(Some(Handle(9999)), "X", opts, rights), Err(NtStatus::InvalidHandle)));
}

#[test]
fn registry_delete_forgets_key() {
    let mut mgr = RegistryManager::new();
    let opts = RegistryOptions { bits: 0 };
    let rights = RegistryRights { bits: 0 };
    let (parent, _) = mgr.create_key(None, "Software", opts, rights).unwrap();
    let (child, _) = mgr.create_key(Some(parent), "Vendor", opts, rights).unwrap();
    assert_eq!(mgr.delete_key(parent), NtStatus::AccessDenied);
    assert_eq!(mgr.delete_key(child), NtStatus::Success);
    assert!(matches!(mgr.open_key(Some(parent), "Vendor"), Err(NtStatus::ObjectNameNotFound)));
    assert!(matches!(mgr.get_value(child, "x"), Err(NtStatus::InvalidHandle)));
    assert_eq!(mgr.delete_key(Handle(9999)), NtStatus::InvalidHandle);
}

fn video_request(codec: &str, w: u32, h: u32, pf: PixelFormat) -> MediaFormat {
    MediaFormat {
        media_type: MediaType::Video,
        codec: codec.to_string(),
        bitrate: None,
        sample_rate: None,
        channels: None,
        width: Some(w),
        height: Some(h),
        pixel_format: Some(pf),
        audio_format: None,
        extra_data: Vec::new(),
    }
}

#[test]
fn negotiation_adjusts_and_is_idempotent() {
    let mut neg = FormatNegotiator::new();
    neg.add_capability(FormatCapability {
        media_type: MediaType::Video,
        codecs: vec![CodecId::H264],
        pixel_formats: Some(vec![PixelFormat::NV12]),
        audio_formats: None,
        sample_rates: None,
        channel_counts: None,
        resolutions: Some(vec![Resolution { width: 1280, height: 720 }, Resolution { width: 1920, height: 1080 }]),
        frame_rates: None,
    });
    let n = neg.negotiate(&video_request("AVC", 1900, 1000, PixelFormat::RGB24)).unwrap();
    assert_eq!(n.pixel_format, Some(PixelFormat::NV12));
    assert_eq!((n.width, n.height), (Some(1920), Some(1080)));
    let n2 = neg.negotiate(&n).unwrap();
    assert_eq!(n2.pixel_format, n.pixel_format);
    assert_eq!((n2.width, n2.height), (n.width, n.height));
    assert!(matches!(neg.negotiate(&video_request("vp9", 640, 480, PixelFormat::NV12)), Err(FormatError::UnsupportedFormat)));
}

#[test]
fn camera_state_machine() {
    let mut cam = CameraDevice::new("cam0", 0);
    assert!(matches!(cam.start_capture(), Err(MediaError::InvalidState)));
    assert!(cam.open().is_ok());
    assert!(matches!(cam.open(), Err(MediaError::InvalidState)));
    assert!(cam.start_capture().is_ok());
    assert!(cam.can_capture());
    match cam.capture_frame() {
        Ok(CapturedFrame::Video(v)) => {
            assert_eq!(v.data.len(), 1920 * 1080 * 3 / 2);
            assert_eq!(v.timestamp, 1000 / 30);
        }
        _ => panic!("expected a video frame"),
    }
    assert!(cam.close().is_ok());
    assert!(matches!(cam.capture_frame(), Err(MediaError::InvalidState)));
}

#[test]
fn bus_polls_latest_first() {
    let mut bus = Bus::new();
    assert!(bus.poll().is_none());
    bus.post(Message::Eos);
    bus.post(Message::Buffering { percent: 40 });
    assert!(matches!(bus.poll(), Some(Message::Buffering { percent: 40 })));
    assert!(matches!(bus.poll(), Some(Message::Eos)));
    assert!(bus.poll().is_none());
}
