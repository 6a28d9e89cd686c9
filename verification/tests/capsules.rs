use lib::analog_comparator::{
    command_result, decode_command, AnalogComparator, ComparatorCommand, PeripheralResponse,
    DRIVER_NUM,
};
use lib::analog_sensor::{
    AnalogLightSensor, AnalogLightSensorType, AnalogTemperatureSensor,
    AnalogTemperatureSensorType,
};
use lib::hello_world::Sosp;
use lib::hil;
use lib::sensys::Sensys;
use lib::{AppId, Callback, ReturnCode};

struct Comparator;

impl hil::AnalogComparator for Comparator {
    fn enable(&self) -> ReturnCode {
        ReturnCode::EOFF
    }
    fn comparison(&self, ac: usize) -> bool {
        ac == 1
    }
    fn window_comparison(&self, window: usize) -> bool {
        window == 0
    }
    fn enable_interrupts(&self, ac: usize) -> ReturnCode {
        if ac < 4 { ReturnCode::SUCCESS } else { ReturnCode::EINVAL }
    }
}

struct Adc;

impl hil::Adc for Adc {
    type Channel = u8;
    fn sample(&self, channel: &u8) -> ReturnCode {
        if *channel == 0 { ReturnCode::SUCCESS } else { ReturnCode::EBUSY }
    }
}

#[test]
fn comparator_commands() {
    let ac = Comparator;
    let app = AppId::new(0);
    let driver: AnalogComparator<Comparator> = AnalogComparator::new(&ac);
    assert_eq!(DRIVER_NUM, 7);
    assert_eq!(driver.command(0, 0, 0, app), ReturnCode::SUCCESS);
    assert_eq!(driver.command(1, 0, 0, app), ReturnCode::EOFF);
    assert_eq!(driver.command(2, 1, 0, app), ReturnCode::SuccessWithValue { value: 1 });
    assert_eq!(driver.command(2, 0, 0, app), ReturnCode::SuccessWithValue { value: 0 });
    assert_eq!(driver.command(3, 0, 0, app), ReturnCode::SuccessWithValue { value: 1 });
    assert_eq!(driver.command(4, 9, 0, app), ReturnCode::EINVAL);
    assert_eq!(driver.command(5, 0, 0, app), ReturnCode::ENOSUPPORT);
    assert_eq!(decode_command(3), ComparatorCommand::WindowComparison);
    assert_eq!(decode_command(usize::MAX), ComparatorCommand::Unsupported);
}

#[test]
fn comparator_subscription_and_interrupt() {
    let ac = Comparator;
    let app = AppId::new(2);
    let cb = Callback::new(app, 11, 0x3001);
    let mut driver: AnalogComparator<Comparator> = AnalogComparator::new(&ac);
    assert_eq!(driver.callback(), None);
    assert_eq!(driver.subscribe(1, Some(cb), app), ReturnCode::ENOSUPPORT);
    assert_eq!(driver.callback(), None);
    assert_eq!(driver.subscribe(0, Some(cb), app), ReturnCode::SUCCESS);
    assert_eq!(driver.callback(), Some(cb));
    assert_eq!(driver.fired(), (cb, 0, 0, 0));
    assert_eq!(driver.subscribe(0, None, app), ReturnCode::SUCCESS);
    assert_eq!(driver.callback(), None);
}

#[test]
fn light_sensor_reports_raw_sample() {
    let adc = Adc;
    let channel = 0u8;
    let mut s: AnalogLightSensor<Adc, &str> =
        AnalogLightSensor::new(&adc, &channel, AnalogLightSensorType::LightDependentResistor);
    assert_eq!(s.read_light_intensity(), ReturnCode::SUCCESS);
    let other_channel = 2u8;
    let busy: AnalogLightSensor<Adc, u8> =
        AnalogLightSensor::new(&adc, &other_channel, AnalogLightSensorType::LightDependentResistor);
    assert_eq!(busy.read_light_intensity(), ReturnCode::EBUSY);
    assert!(s.sample_ready(512).is_none());
    s.set_client("client");
    let (c, m) = s.sample_ready(512).unwrap();
    assert_eq!(*c, "client");
    assert_eq!(m, 512);
}

#[test]
fn temperature_sensors() {
    let adc = Adc;
    let channel = 1u8;
    let mut s: AnalogTemperatureSensor<Adc, u8> = AnalogTemperatureSensor::new(
        &adc,
        &channel,
        AnalogTemperatureSensorType::MicrochipMcp9700,
    );
    assert_eq!(s.read_temperature(), ReturnCode::EBUSY);
    assert!(s.sample_ready(300).is_none());
    s.set_client(3);
    let (c, m) = s.sample_ready(u16::MAX).unwrap();
    assert_eq!(*c, 3);
    assert_eq!(m, 65535);
}

#[test]
fn course_capsules_greet() {
    let alarm = 0u32;
    let light = 0u32;
    let s = Sensys::new(&alarm, &light);
    assert_eq!(s.start(), "Hello World");
    let t = Sosp::new(&alarm, &light);
    assert_eq!(t.start(), "Hello World");
}

#[test]
fn comparator_command_results() {
    assert_eq!(
        command_result(ComparatorCommand::DriverCheck, PeripheralResponse::NotAsked),
        ReturnCode::SUCCESS
    );
    assert_eq!(
        command_result(ComparatorCommand::Unsupported, PeripheralResponse::NotAsked),
        ReturnCode::ENOSUPPORT
    );
    assert_eq!(
        command_result(ComparatorCommand::Enable, PeripheralResponse::Status(ReturnCode::EBUSY)),
        ReturnCode::EBUSY
    );
    assert_eq!(
        command_result(ComparatorCommand::WindowComparison, PeripheralResponse::Comparison(false)),
        ReturnCode::SuccessWithValue { value: 0 }
    );
    assert_eq!(
        command_result(ComparatorCommand::Comparison, PeripheralResponse::Comparison(true)),
        ReturnCode::SuccessWithValue { value: 1 }
    );
}
