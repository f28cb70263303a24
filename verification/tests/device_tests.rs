use quantized_llm_service::device::{parse_device, DeviceChoice};

#[test]
fn cpu_in_any_case_is_the_cpu() {
    assert_eq!(parse_device("cpu", true), DeviceChoice::Cpu);
    assert_eq!(parse_device("CPU", true), DeviceChoice::Cpu);
    assert_eq!(parse_device("cPu", false), DeviceChoice::Cpu);
}

#[test]
fn unknown_names_fall_back_to_the_cpu() {
    assert_eq!(parse_device("tpu", true), DeviceChoice::Cpu);
    assert_eq!(parse_device("", true), DeviceChoice::Cpu);
    assert_eq!(parse_device("cud", true), DeviceChoice::Cpu);
}

#[test]
fn cuda_without_availability_is_the_cpu() {
    assert_eq!(parse_device("cuda", false), DeviceChoice::Cpu);
    assert_eq!(parse_device("cuda:2", false), DeviceChoice::Cpu);
}

#[test]
fn cuda_picks_the_indexed_card() {
    assert_eq!(parse_device("cuda", true), DeviceChoice::Cuda(0));
    assert_eq!(parse_device("cuda:0", true), DeviceChoice::Cuda(0));
    assert_eq!(parse_device("CUDA:1", true), DeviceChoice::Cuda(1));
    assert_eq!(parse_device("cuda:12", true), DeviceChoice::Cuda(12));
}

#[test]
fn cuda_index_is_the_segment_between_the_colons() {
    assert_eq!(parse_device("cuda:3:9", true), DeviceChoice::Cuda(3));
}

#[test]
fn unparsable_cuda_index_defaults_to_zero() {
    assert_eq!(parse_device("cuda:", true), DeviceChoice::Cuda(0));
    assert_eq!(parse_device("cuda:abc", true), DeviceChoice::Cuda(0));
    assert_eq!(parse_device("cuda:-1", true), DeviceChoice::Cuda(0));
    assert_eq!(
        parse_device("cuda:99999999999999999999999999", true),
        DeviceChoice::Cuda(0)
    );
}

#[test]
fn a_leading_plus_sign_is_accepted_in_the_index() {
    assert_eq!(parse_device("cuda:+7", true), DeviceChoice::Cuda(7));
}
