use whisper::Device;
use whisper::ModelSize;

#[test]
fn model_size_names() {
    assert_eq!(ModelSize::Tiny.to_string(), "tiny");
    assert_eq!(ModelSize::TinyEnglishOnly.to_string(), "tiny.en");
    assert_eq!(ModelSize::Base.to_string(), "base");
    assert_eq!(ModelSize::BaseEnglishOnly.to_string(), "base.en");
    assert_eq!(ModelSize::Small.to_string(), "small");
    assert_eq!(ModelSize::SmallEnglishOnly.to_string(), "small.en");
    assert_eq!(ModelSize::Medium.to_string(), "medium");
    assert_eq!(ModelSize::MediumEnglishOnly.to_string(), "medium.en");
    assert_eq!(ModelSize::Large.to_string(), "large");
}

#[test]
fn model_size_default_is_small() {
    assert_eq!(ModelSize::default().to_string(), "small");
    assert_eq!(ModelSize::default(), ModelSize::Small);
}

#[test]
fn device_names() {
    assert_eq!(Device::Cpu.to_string(), "cpu");
    assert_eq!(Device::Cuda(None).to_string(), "cuda");
    assert_eq!(Device::Cuda(Some(0)).to_string(), "cuda:0");
    assert_eq!(Device::Cuda(Some(7)).to_string(), "cuda:7");
    assert_eq!(Device::Cuda(Some(12)).to_string(), "cuda:12");
    assert_eq!(Device::Cuda(Some(40370)).to_string(), "cuda:40370");
}
