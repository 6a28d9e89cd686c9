//! Light and temperature sensors that need only an ADC: a sample becomes a
//! measurement for the sensor's client.
use vstd::prelude::*;
use crate::hil::Adc;
use crate::returncode::ReturnCode;

verus! {

/// The kind of light sensor, which says how a raw sample becomes a light
/// value.
#[derive(Clone, Copy, Debug, PartialEq, Eq, Structural)]
pub enum AnalogLightSensorType {
    LightDependentResistor,
}

/// The kind of temperature sensor, which says how a raw sample becomes a
/// temperature value.
#[derive(Clone, Copy, Debug, PartialEq, Eq, Structural)]
pub enum AnalogTemperatureSensorType {
    MicrochipMcp9700,
}

/// The measurement a light sensor reports for a raw sample: the sample
/// itself (no conversion is applied yet).
pub open spec fn light_measurement(sensor_type: AnalogLightSensorType, sample: u16) -> usize {
    match sensor_type {
        AnalogLightSensorType::LightDependentResistor => sample as usize,
    }
}

/// The measurement a temperature sensor reports for a raw sample: the
/// sample itself (no conversion is applied yet).
pub open spec fn temperature_measurement(
    sensor_type: AnalogTemperatureSensorType,
    sample: u16,
) -> usize {
    match sensor_type {
        AnalogTemperatureSensorType::MicrochipMcp9700 => sample as usize,
    }
}

/// An analog light sensor on a channel of an ADC, with the client told of
/// each reading.
pub struct AnalogLightSensor<'a, A: Adc, C> {
    adc: &'a A,
    channel: &'a A::Channel,
    sensor_type: AnalogLightSensorType,
    client: Option<C>,
}

impl<'a, A: Adc, C> AnalogLightSensor<'a, A, C> {
    pub closed spec fn sensor_type_value(&self) -> AnalogLightSensorType {
        self.sensor_type
    }

    /// The ADC the sensor is on.
    pub closed spec fn adc_value(&self) -> &'a A {
        self.adc
    }

    /// The ADC channel the sensor is on.
    pub closed spec fn channel_value(&self) -> &'a A::Channel {
        self.channel
    }

    pub closed spec fn client_value(&self) -> Option<C> {
        self.client
    }

    /// A light sensor of type `sensor_type` on `channel` of `adc`, with no
    /// client.
    pub fn new(adc: &'a A, channel: &'a A::Channel, sensor_type: AnalogLightSensorType) -> (r:
        AnalogLightSensor<'a, A, C>)
        ensures
            r.sensor_type_value() == sensor_type,
            r.client_value() is None,
            r.adc_value() == adc,
            r.channel_value() == channel,
    {
        AnalogLightSensor { adc, channel, sensor_type, client: None }
    }

    /// A sample is ready: the client to tell, with the light measurement;
    /// nothing when no client is set.
    pub fn sample_ready(&self, sample: u16) -> (r: Option<(&C, usize)>)
        ensures
            match r {
                Some((c, m)) => self.client_value() == Some(*c) && m == light_measurement(
                    self.sensor_type_value(),
                    sample,
                ),
                None => self.client_value() is None,
            },
    {
        let measurement: usize = match self.sensor_type {
            AnalogLightSensorType::LightDependentResistor => sample as usize,
        };
        match &self.client {
            Some(c) => Some((c, measurement)),
            None => None,
        }
    }

    /// Sets the client told of readings.
    pub fn set_client(&mut self, client: C)
        ensures
            final(self).client_value() == Some(client),
            final(self).sensor_type_value() == old(self).sensor_type_value(),
    {
        self.client = Some(client);
    }

    /// Starts a reading: samples the sensor's channel on its ADC, and
    /// returns what that sampling returned.
    pub fn read_light_intensity(&self) -> (r: ReturnCode)
        ensures
            call_ensures(A::sample, (self.adc_value(), self.channel_value()), r),
    {
        self.adc.sample(self.channel)
    }
}

/// An analog temperature sensor on a channel of an ADC, with the client
/// told of each reading.
pub struct AnalogTemperatureSensor<'a, A: Adc, C> {
    adc: &'a A,
    channel: &'a A::Channel,
    sensor_type: AnalogTemperatureSensorType,
    client: Option<C>,
}

impl<'a, A: Adc, C> AnalogTemperatureSensor<'a, A, C> {
    pub closed spec fn sensor_type_value(&self) -> AnalogTemperatureSensorType {
        self.sensor_type
    }

    /// The ADC the sensor is on.
    pub closed spec fn adc_value(&self) -> &'a A {
        self.adc
    }

    /// The ADC channel the sensor is on.
    pub closed spec fn channel_value(&self) -> &'a A::Channel {
        self.channel
    }

    pub closed spec fn client_value(&self) -> Option<C> {
        self.client
    }

    /// A temperature sensor of type `sensor_type` on `channel` of `adc`,
    /// with no client.
    pub fn new(
        adc: &'a A,
        channel: &'a A::Channel,
        sensor_type: AnalogTemperatureSensorType,
    ) -> (r: AnalogTemperatureSensor<'a, A, C>)
        ensures
            r.sensor_type_value() == sensor_type,
            r.client_value() is None,
            r.adc_value() == adc,
            r.channel_value() == channel,
    {
        AnalogTemperatureSensor { adc, channel, sensor_type, client: None }
    }

    /// A sample is ready: the client to tell, with the temperature
    /// measurement; nothing when no client is set.
    pub fn sample_ready(&self, sample: u16) -> (r: Option<(&C, usize)>)
        ensures
            match r {
                Some((c, m)) => self.client_value() == Some(*c) && m == temperature_measurement(
                    self.sensor_type_value(),
                    sample,
                ),
                None => self.client_value() is None,
            },
    {
        let measurement: usize = match self.sensor_type {
            AnalogTemperatureSensorType::MicrochipMcp9700 => sample as usize,
        };
        match &self.client {
            Some(c) => Some((c, measurement)),
            None => None,
        }
    }

    /// Sets the client told of readings.
    pub fn set_client(&mut self, client: C)
        ensures
            final(self).client_value() == Some(client),
            final(self).sensor_type_value() == old(self).sensor_type_value(),
    {
        self.client = Some(client);
    }

    /// Starts a reading: samples the sensor's channel on its ADC, and
    /// returns what that sampling returned.
    pub fn read_temperature(&self) -> (r: ReturnCode)
        ensures
            call_ensures(A::sample, (self.adc_value(), self.channel_value()), r),
    {
        self.adc.sample(self.channel)
    }
}

} // verus!
