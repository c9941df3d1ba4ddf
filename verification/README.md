# modbus-mqtt-bridge

A bridge between a Modbus RTU serial line and an MQTT broker.

Commands arrive as JSON on the command topic, go out over the serial line one at a time, and are
answered on the response topic. A scan looks for devices at several baud rates, and its result is
published, retained, on the discovery topic.

- `src/` is the verified library: settings, frames, the state machines that drive the serial port,
  and what is published when. `src/laws/` states and proves what holds of them together.
- `app/` performs what the library asks for: it owns the serial port and the MQTT connection.
- `tests/` runs the library.

The state machines never touch a port. Each says by `action` what is to be done next and takes by
`step` how it went.

## Commands

```text
{"action":"read_holding_registers","slave_id":1,"address":0,"count":10}
{"action":"read_input_registers","slave_id":1,"address":0,"count":4}
{"action":"read_coils","slave_id":1,"address":0,"count":8}
{"action":"read_discrete_inputs","slave_id":1,"address":0,"count":8}
{"action":"write_single_register","slave_id":1,"address":0,"value":42}
{"action":"write_multiple_registers","slave_id":1,"address":0,"values":[1,2,3]}
{"action":"write_single_coil","slave_id":1,"address":0,"value":true}
{"action":"scan_bus"}
{"action":"scan_bus","baud_rates":[9600],"slave_id_start":1,"slave_id_end":5}
```

A `scan_bus` without fields scans all baud rates and slave ids in the settings; each field that is
left out is taken from there. An optional `request_id` comes back in the response.

## Settings

Environment variables: `SERIAL_PORT`, `BAUD_RATE`, `TIMEOUT_MS`, `MQTT_HOST`, `MQTT_PORT`,
`MQTT_CLIENT_ID`, `TOPIC_COMMAND`, `TOPIC_RESPONSE`, `TOPIC_STATUS`, `TOPIC_DISCOVERED`,
`SCAN_ON_STARTUP`, `SCAN_BAUD_RATES`, `SCAN_SLAVE_START`, `SCAN_SLAVE_END`.
