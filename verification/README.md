# ruwm

The verified core of a battery powered water meter with a motorised valve,
a small display, MQTT and a web interface.

`src/` is a Verus library. Every function there carries a contract that Verus
proves, and the `law_*` proof functions state the properties that hold across
calls (what a state machine keeps, what a second call changes, what a
published value parses back to).

- `battery`, `valve`, `water_meter`, `water_meter_stats`, `ulp_meter`: the
  device data and the state machines of the valve motor, the pulse counting
  with its leak watch, and the flow statistics.
- `keepalive`, `emergency`, `button`, `wifi`: the decisions of the tasks that
  put the device to sleep, close the valve on a leak or a flat battery,
  debounce button presses and keep the wifi connected.
- `text`, `mqtt`, `mqtt_publish`, `web`: command parsing, what is published
  and when, and who may see and do what over the web.
- `geometry`, `framebuffer`, `shapes`, `widgets`, `pages`, `screen`: the
  display: a packed framebuffer, the icons and pages as lists of drawing
  operations, and the screen state that picks what to draw.

`app/` is the device side that Verus does not see: the serde forms of the
data, an executor that carries out the drawing operations with
`embedded-graphics`, and the async tasks that feed the state machines.

`tests/` runs the library on concrete values.
