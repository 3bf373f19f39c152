use audio_engine::device_description::{
    DeviceDescriptionBuilder, DeviceDirection, DeviceType, InterfaceType,
};
use audio_engine::host::{find_host, get_all_hosts_list, host_id_from_name, host_id_name};
use audio_engine::types::{get_all_hosts, HostId, SampleFormat, I24, U24};

#[test]
fn test_i24() {
    let val = I24::new(0x12345678);
    assert_eq!(val.to_i32(), 0x345678);
}

#[test]
fn test_u24() {
    let val = U24::new(0x12345678);
    assert_eq!(val.to_u32(), 0x345678);
}

#[test]
fn all_hosts_lists_the_six_known_identities() {
    let hosts = get_all_hosts();
    assert_eq!(hosts, vec![
        HostId::Alsa,
        HostId::Jack,
        HostId::Wasapi,
        HostId::Asio,
        HostId::CoreAudio,
        HostId::Emscripten,
    ]);
    assert_eq!(get_all_hosts_list(), hosts);
}

#[test]
fn host_names_round_trip() {
    for id in get_all_hosts() {
        assert_eq!(host_id_from_name(host_id_name(id)), id);
    }
    assert_eq!(host_id_name(HostId::Other), "");
}

#[test]
fn unknown_host_name_is_other() {
    assert_eq!(host_id_from_name("pulse"), HostId::Other);
    assert_eq!(host_id_from_name(""), HostId::Other);
    assert_eq!(host_id_from_name("alsa"), HostId::Alsa);
    assert_eq!(host_id_from_name("coreaudio"), HostId::CoreAudio);
}

#[test]
fn find_host_returns_the_first_match() {
    let available = vec![HostId::Jack, HostId::Alsa, HostId::Alsa];
    assert_eq!(find_host(&available, HostId::Alsa), Some(1));
    assert_eq!(find_host(&available, HostId::Jack), Some(0));
    assert_eq!(find_host(&available, HostId::Wasapi), None);
    assert_eq!(find_host(&vec![], HostId::Alsa), None);
}

#[test]
fn engine_supported_formats() {
    assert!(SampleFormat::I16.engine_supported());
    assert!(SampleFormat::U16.engine_supported());
    assert!(SampleFormat::F32.engine_supported());
    assert!(!SampleFormat::I8.engine_supported());
    assert!(!SampleFormat::F64.engine_supported());
}

#[test]
fn builder_defaults_when_nothing_is_set() {
    let builder = DeviceDescriptionBuilder::new();
    let description = builder.build();
    assert_eq!(description.name, "");
    assert_eq!(description.direction, DeviceDirection::Output);
    assert_eq!(description.device_type, DeviceType::Other);
    assert_eq!(description.interface_type, InterfaceType::Other);
}

#[test]
fn builder_keeps_what_was_set() {
    let mut builder = DeviceDescriptionBuilder::new();
    builder.name("Front Speakers".to_string());
    builder.direction(DeviceDirection::Input);
    builder.device_type(DeviceType::Usb);
    builder.interface_type(InterfaceType::Alsa);
    let description = builder.build();
    assert_eq!(description.name, "Front Speakers");
    assert_eq!(description.direction, DeviceDirection::Input);
    assert_eq!(description.device_type, DeviceType::Usb);
    assert_eq!(description.interface_type, InterfaceType::Alsa);
}
