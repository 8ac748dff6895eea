use bootcom::{Settings, SettingsBuilder};
use serialport::{DataBits, FlowControl, Parity, StopBits};

#[test]
fn all_default() {
    let settings = SettingsBuilder::new().finalize();
    assert_eq!(
        settings,
        Settings {
            path: None,
            baud_rate: 230_400,
            data_bits: DataBits::Eight,
            flow_control: FlowControl::None,
            parity: Parity::None,
            stop_bits: StopBits::One,
            kernel_image: None,
        }
    )
}

#[test]
fn path() {
    let settings = SettingsBuilder::new().path("/dev/ttyUSB0").finalize();
    assert_eq!(settings.path.unwrap(), "/dev/ttyUSB0");
}

#[test]
fn baud_rate() {
    let baud_rate = 96_000;
    let settings = SettingsBuilder::new().baud_rate(baud_rate).finalize();
    assert_eq!(settings.baud_rate, baud_rate);
}

#[test]
fn data_bits() {
    let data_bits = DataBits::Seven;
    let settings = SettingsBuilder::new().data_bits(data_bits).finalize();
    assert_eq!(settings.data_bits, data_bits);
}

#[test]
fn flow_control() {
    let flow_control = FlowControl::Hardware;
    let settings = SettingsBuilder::new().flow_control(flow_control).finalize();
    assert_eq!(settings.flow_control, flow_control);
}

#[test]
fn stop_bits() {
    let stop_bits = StopBits::Two;
    let settings = SettingsBuilder::new().stop_bits(stop_bits).finalize();
    assert_eq!(settings.stop_bits, stop_bits);
}

#[test]
fn parity() {
    let parity = Parity::Even;
    let settings = SettingsBuilder::new().parity(parity).finalize();
    assert_eq!(settings.parity, parity);
}

#[test]
fn kernel_image() {
    let settings = SettingsBuilder::new()
        .kernel_image("test_kernel8.img")
        .finalize();
    assert_eq!(settings.kernel_image.unwrap(), "test_kernel8.img");
}

#[test]
fn every_field_set_reads_back_in_any_order() {
    let a = SettingsBuilder::new()
        .path("/dev/ttyACM1")
        .baud_rate(115_200)
        .data_bits(DataBits::Six)
        .flow_control(FlowControl::Software)
        .parity(Parity::Odd)
        .stop_bits(StopBits::Two)
        .kernel_image("image.img")
        .finalize();
    let b = SettingsBuilder::default()
        .kernel_image("image.img")
        .stop_bits(StopBits::Two)
        .parity(Parity::Odd)
        .flow_control(FlowControl::Software)
        .data_bits(DataBits::Six)
        .baud_rate(115_200)
        .path("/dev/ttyACM1")
        .finalize();
    assert_eq!(
        a,
        Settings {
            path: Some("/dev/ttyACM1".to_string()),
            baud_rate: 115_200,
            data_bits: DataBits::Six,
            flow_control: FlowControl::Software,
            parity: Parity::Odd,
            stop_bits: StopBits::Two,
            kernel_image: Some("image.img".to_string()),
        }
    );
    assert_eq!(a, b);
    assert_eq!(a.clone(), a);
}

#[test]
fn kernel_image_defaults_to_kernel8() {
    let unset = SettingsBuilder::new().finalize();
    assert_eq!(unset.kernel_image_path(), "kernel8.img");
    let set = SettingsBuilder::new().kernel_image("other.img").finalize();
    assert_eq!(set.kernel_image_path(), "other.img");
}
