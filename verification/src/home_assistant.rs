//! Messages in the form that the home-automation system expects: the
//! device's state, and the discovery records that announce its components.

use vstd::prelude::*;
use crate::mqtt::{MqttMessage, MAX_PAYLOAD, MAX_TOPIC};
use crate::text::{
    decimal_of, decimal_text, joined, long_as_str, long_concat, long_len, medium_as_str,
    medium_text, medium_write, short_as_str, short_concat, utf8_len, views, written,
};

verus! {

/// Most bytes a state payload may occupy.
pub const MAX_STATE_PAYLOAD: usize = 256;

pub const TOPIC_PREFIX: &'static str = "homeassistant/device/";

pub const STATE_SUFFIX: &'static str = "/state";

pub const CONFIG_SUFFIX: &'static str = "/config";

pub const PUMP_SUFFIX: &'static str = "/pump";

pub const STATE_TEMPERATURE: &'static str = "{\"temperature\":";

pub const STATE_HUMIDITY: &'static str = ",\"humidity\":";

pub const STATE_SOIL: &'static str = ",\"soil_moisture\":";

pub const STATE_PUMP: &'static str = ",\"pump_state\":\"";

pub const STATE_END: &'static str = "\"}";

pub const PUMP_ON: &'static str = "ON";

pub const PUMP_OFF: &'static str = "OFF";

pub const DEVICE_OPEN: &'static str = "{\n\"dev\":{\"ids\":\"";

pub const DEVICE_CLOSE: &'static str =
    "\",\"name\":\"WateringSystem\"},\n\"o\": {\"name\":\"watering-system\"},\n\"cmps\":{";

pub const TEMPERATURE_COMPONENT: &'static str =
    "\"temperature_cmp\":{\"p\":\"sensor\",\"dev_cla\":\"temperature\",\"unit_of_measurement\":\"\u{b0}C\",\"val_tpl\":\"{{ value_json.temperature }}\",\"unique_id\":\"";

pub const TEMPERATURE_ID_SUFFIX: &'static str = "-temperature\"}},\n\"state_topic\":\"";

pub const HUMIDITY_COMPONENT: &'static str =
    "\"humidity_cmp\":{\"p\":\"sensor\",\"dev_cla\":\"humidity\",\"unit_of_measurement\":\"%\",\"val_tpl\":\"{{ value_json.humidity }}\",\"unique_id\":\"";

pub const HUMIDITY_ID_SUFFIX: &'static str = "_humidity\"}},\n\"state_topic\":\"";

pub const SOIL_COMPONENT: &'static str =
    "\"soil_cmp\":{\"p\":\"sensor\",\"name\":\"Soil moisture\",\"unit_of_measurement\":\"%\",\"dev_cla\":\"moisture\",\"val_tpl\":\"{{ value_json.soil_moisture }}\",\"unique_id\":\"";

pub const SOIL_ID_SUFFIX: &'static str = "_soil\"}},\n\"state_topic\":\"";

pub const PUMP_COMPONENT: &'static str =
    "\"pump_cmp\":{\"p\":\"switch\",\"name\":\"Pump\",\"command_topic\":\"";

pub const PUMP_TEMPLATE: &'static str =
    "\",\"val_tpl\":\"{{ value_json.pump_state }}\",\"unique_id\":\"";

pub const PUMP_ID_SUFFIX: &'static str = "_pump\"}},\n\"state_topic\":\"";

pub const DISCOVERY_END: &'static str = "/state\"\n}";

/// The pieces of a topic of this device.
pub open spec fn topic_pieces(device_id: Seq<char>, suffix: Seq<char>) -> Seq<Seq<char>> {
    seq![TOPIC_PREFIX@, device_id, suffix]
}

/// The pieces of a state payload.
pub open spec fn state_pieces(
    temperature: Seq<char>,
    humidity: Seq<char>,
    soil_moisture: u16,
    pump_on: bool,
) -> Seq<Seq<char>> {
    seq![
        STATE_TEMPERATURE@,
        temperature,
        STATE_HUMIDITY@,
        humidity,
        STATE_SOIL@,
        decimal_of(soil_moisture),
        STATE_PUMP@,
        if pump_on {
            PUMP_ON@
        } else {
            PUMP_OFF@
        },
        STATE_END@,
    ]
}

/// The pieces of the discovery payload of a sensor: the device, the
/// component up to its unique id, the id's suffix, and the state topic.
pub open spec fn sensor_pieces(
    device_id: Seq<char>,
    component: Seq<char>,
    id_suffix: Seq<char>,
) -> Seq<Seq<char>> {
    seq![
        DEVICE_OPEN@,
        device_id,
        DEVICE_CLOSE@,
        component,
        device_id,
        id_suffix,
        TOPIC_PREFIX@,
        device_id,
        DISCOVERY_END@,
    ]
}

/// The pieces of the discovery payload of the pump switch, which also
/// names the topic that commands arrive on.
pub open spec fn pump_pieces(device_id: Seq<char>) -> Seq<Seq<char>> {
    seq![
        DEVICE_OPEN@,
        device_id,
        DEVICE_CLOSE@,
        PUMP_COMPONENT@,
        pump_topic_text(device_id),
        PUMP_TEMPLATE@,
        device_id,
        PUMP_ID_SUFFIX@,
        TOPIC_PREFIX@,
        device_id,
        DISCOVERY_END@,
    ]
}

/// The text of the pump's command topic: prefix, device id and suffix, cut
/// off before the first of them that 128 bytes have no room for.
pub open spec fn pump_topic_text(device_id: Seq<char>) -> Seq<char> {
    written(Seq::empty(), topic_pieces(device_id, PUMP_SUFFIX@), 128)
}

/// A message exists for a topic and a payload exactly when both fit.
pub open spec fn message_of(
    message: Option<MqttMessage>,
    topic: Seq<char>,
    payload: Seq<char>,
    room: usize,
) -> bool {
    &&& message is Some <==> utf8_len(topic) <= MAX_TOPIC && utf8_len(payload) <= room
    &&& message is Some ==> message.unwrap()@.topic == topic && message.unwrap()@.content
        == payload
}

/// The identity under which the device is announced.
pub struct HomeAssistantFacadeConfig {
    device_id: &'static str,
}

impl HomeAssistantFacadeConfig {
    pub fn new(device_id: &'static str) -> (config: Self)
        ensures
            config.device_id() == device_id,
    {
        Self { device_id }
    }

    /// The configuration for the device name that the build was given.
    pub fn new_from_env(device_name: &'static str) -> (config: Self)
        ensures
            config.device_id() == device_name,
    {
        Self { device_id: device_name }
    }

    pub closed spec fn device_id(&self) -> &'static str {
        self.device_id
    }
}

/// Composer of the messages that the home-automation system reads.
pub struct HomeAssistantFacade {
    _config: HomeAssistantFacadeConfig,
}

impl HomeAssistantFacade {
    pub fn new(config: HomeAssistantFacadeConfig) -> (facade: Self)
        ensures
            facade.device_id() == config.device_id(),
    {
        Self { _config: config }
    }

    pub closed spec fn device_id(&self) -> &'static str {
        self._config.device_id
    }

    /// The state of the device: the two readings in the form in which they
    /// are to appear, the soil moisture in decimal, and the pump, `ON` or
    /// `OFF`.
    /// Nothing if the topic or the payload does not fit.
    pub fn get_state_mqtt_message(
        &self,
        temperature: &str,
        humidity: &str,
        soil_moisture: u16,
        pump_on: bool,
    ) -> (message: Option<MqttMessage>)
        ensures
            message_of(
                message,
                joined(topic_pieces(self.device_id()@, STATE_SUFFIX@)),
                joined(state_pieces(temperature@, humidity@, soil_moisture, pump_on)),
                MAX_STATE_PAYLOAD,
            ),
    {
        let soil_text = decimal_text(soil_moisture);
        let soil = soil_text.as_str();
        let pump = if pump_on {
            PUMP_ON
        } else {
            PUMP_OFF
        };
        let topic_parts = vec![TOPIC_PREFIX, self._config.device_id, STATE_SUFFIX];
        let payload_parts = vec![
            STATE_TEMPERATURE,
            temperature,
            STATE_HUMIDITY,
            humidity,
            STATE_SOIL,
            soil,
            STATE_PUMP,
            pump,
            STATE_END,
        ];
        proof {
            assert(views(topic_parts@) =~= topic_pieces(self.device_id()@, STATE_SUFFIX@));
            assert(views(payload_parts@) =~= state_pieces(
                temperature@,
                humidity@,
                soil_moisture,
                pump_on,
            ));
        }
        match (short_concat(&topic_parts), long_concat(&payload_parts)) {
            (Some(topic), Some(payload)) => {
                if long_len(&payload) > MAX_STATE_PAYLOAD {
                    None
                } else {
                    MqttMessage::new(short_as_str(&topic), long_as_str(&payload))
                }
            },
            _ => None,
        }
    }

    /// The discovery record of a sensor.
    fn sensor_discovery(
        &self,
        component: &'static str,
        id_suffix: &'static str,
    ) -> (message: Option<MqttMessage>)
        ensures
            message_of(
                message,
                joined(topic_pieces(self.device_id()@, CONFIG_SUFFIX@)),
                joined(sensor_pieces(self.device_id()@, component@, id_suffix@)),
                MAX_PAYLOAD,
            ),
    {
        let id = self._config.device_id;
        let topic_parts = vec![TOPIC_PREFIX, id, CONFIG_SUFFIX];
        let payload_parts = vec![
            DEVICE_OPEN,
            id,
            DEVICE_CLOSE,
            component,
            id,
            id_suffix,
            TOPIC_PREFIX,
            id,
            DISCOVERY_END,
        ];
        proof {
            assert(views(topic_parts@) =~= topic_pieces(self.device_id()@, CONFIG_SUFFIX@));
            assert(views(payload_parts@) =~= sensor_pieces(
                self.device_id()@,
                component@,
                id_suffix@,
            ));
        }
        match (short_concat(&topic_parts), long_concat(&payload_parts)) {
            (Some(topic), Some(payload)) => MqttMessage::new(
                short_as_str(&topic),
                long_as_str(&payload),
            ),
            _ => None,
        }
    }

    /// The discovery record of the temperature sensor.
    pub fn get_discovery_message_temperature(&self) -> (message: Option<MqttMessage>)
        ensures
            message_of(
                message,
                joined(topic_pieces(self.device_id()@, CONFIG_SUFFIX@)),
                joined(
                    sensor_pieces(
                        self.device_id()@,
                        TEMPERATURE_COMPONENT@,
                        TEMPERATURE_ID_SUFFIX@,
                    ),
                ),
                MAX_PAYLOAD,
            ),
    {
        self.sensor_discovery(TEMPERATURE_COMPONENT, TEMPERATURE_ID_SUFFIX)
    }

    /// The discovery record of the humidity sensor.
    pub fn get_discovery_message_humidity(&self) -> (message: Option<MqttMessage>)
        ensures
            message_of(
                message,
                joined(topic_pieces(self.device_id()@, CONFIG_SUFFIX@)),
                joined(sensor_pieces(self.device_id()@, HUMIDITY_COMPONENT@, HUMIDITY_ID_SUFFIX@)),
                MAX_PAYLOAD,
            ),
    {
        self.sensor_discovery(HUMIDITY_COMPONENT, HUMIDITY_ID_SUFFIX)
    }

    /// The discovery record of the soil-moisture sensor.
    pub fn get_discovery_message_soil_moisture(&self) -> (message: Option<MqttMessage>)
        ensures
            message_of(
                message,
                joined(topic_pieces(self.device_id()@, CONFIG_SUFFIX@)),
                joined(sensor_pieces(self.device_id()@, SOIL_COMPONENT@, SOIL_ID_SUFFIX@)),
                MAX_PAYLOAD,
            ),
    {
        self.sensor_discovery(SOIL_COMPONENT, SOIL_ID_SUFFIX)
    }

    /// The discovery record of the pump switch.
    pub fn get_discovery_message_pump(&self) -> (message: Option<MqttMessage>)
        ensures
            message_of(
                message,
                joined(topic_pieces(self.device_id()@, CONFIG_SUFFIX@)),
                joined(pump_pieces(self.device_id()@)),
                MAX_PAYLOAD,
            ),
    {
        let id = self._config.device_id;
        let pump_topic = self.get_pump_topic();
        let command_topic = medium_as_str(&pump_topic);
        let topic_parts = vec![TOPIC_PREFIX, id, CONFIG_SUFFIX];
        let payload_parts = vec![
            DEVICE_OPEN,
            id,
            DEVICE_CLOSE,
            PUMP_COMPONENT,
            command_topic,
            PUMP_TEMPLATE,
            id,
            PUMP_ID_SUFFIX,
            TOPIC_PREFIX,
            id,
            DISCOVERY_END,
        ];
        proof {
            assert(views(topic_parts@) =~= topic_pieces(self.device_id()@, CONFIG_SUFFIX@));
            assert(views(payload_parts@) =~= pump_pieces(self.device_id()@));
        }
        match (short_concat(&topic_parts), long_concat(&payload_parts)) {
            (Some(topic), Some(payload)) => MqttMessage::new(
                short_as_str(&topic),
                long_as_str(&payload),
            ),
            _ => None,
        }
    }

    /// The topic on which commands for the pump arrive.
    pub fn get_pump_topic(&self) -> (topic: heapless::String<128>)
        ensures
            medium_text(topic) == pump_topic_text(self.device_id()@),
    {
        let parts = vec![TOPIC_PREFIX, self._config.device_id, PUMP_SUFFIX];
        proof {
            assert(views(parts@) =~= topic_pieces(self.device_id()@, PUMP_SUFFIX@));
        }
        medium_write(&parts)
    }
}

} // verus!
