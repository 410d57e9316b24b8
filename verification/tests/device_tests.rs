use tensor_bridge::device::DeviceCache;
use tensor_bridge::device::DeviceTag;
use tensor_bridge::error::TensorError;

#[test]
fn locale_names_parse_exactly() {
    assert_eq!(DeviceTag::from_name("cpu"), Some(DeviceTag::Cpu));
    assert_eq!(DeviceTag::from_name("cuda"), Some(DeviceTag::Cuda));
    assert_eq!(DeviceTag::from_name("gpu"), None);
    assert_eq!(DeviceTag::from_name("Cpu"), None);
    assert_eq!(DeviceTag::from_name(""), None);
}

#[test]
fn locale_names_round_trip() {
    for tag in [DeviceTag::Cpu, DeviceTag::Cuda] {
        assert_eq!(DeviceTag::from_name(tag.name()), Some(tag));
    }
}

#[test]
fn the_plain_processor_is_always_available() {
    let mut cache = DeviceCache::new();
    let d = cache.as_device(DeviceTag::Cpu).unwrap();
    assert!(matches!(d, candle_core::Device::Cpu));
    let again = cache.as_device(DeviceTag::Cpu).unwrap();
    assert!(matches!(again, candle_core::Device::Cpu));
}

#[test]
fn a_failed_accelerator_init_is_reported_and_may_be_retried() {
    // This build carries no accelerator support, so initialization fails;
    // the failure must surface as a backend error and must not be cached,
    // so a second request fails the same way instead of handing out a
    // poisoned handle.
    let mut cache = DeviceCache::new();
    match cache.as_device(DeviceTag::Cuda) {
        Ok(_) => {
            // An accelerator is actually present; the cached handle must
            // then serve the second request too.
            cache.as_device(DeviceTag::Cuda).unwrap();
        }
        Err(TensorError::BackendFailure { message }) => {
            assert!(!message.is_empty());
            assert!(matches!(
                cache.as_device(DeviceTag::Cuda),
                Err(TensorError::BackendFailure { .. })
            ));
        }
        Err(other) => panic!("expected BackendFailure, got {other:?}"),
    }
}
