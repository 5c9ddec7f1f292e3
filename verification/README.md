# charts

A real-time candlestick chart's core logic, written in Verus and verified.

- `src/` is the verified library:
  - `rendering/triple_buffer/`: three GPU buffer slots rotating with the
    frame counter, their fences, capacities, allocation counters and a
    ring of per-frame debug timings;
  - `rendering/upload.rs`: what one frame uploads (which buffers to create
    or write, which bind group to renew) and what the render pass draws;
  - `rendering/instancing.rs`, `helpers.rs`, `time_labels.rs`: vertex
    layouts of the instance records, nearest-candle lookup, axis labels;
  - `websocket.rs`: stream configuration, connection state and the
    decisions of the reconnecting stream loop;
  - `chat.rs`, `assistant.rs`: the chat panel and the assistant session's
    reply handling;
  - `text.rs`, `theme.rs`, `screenshot.rs`, `types.rs`, `clock.rs`: number
    formatting, color codes, file names, timeframe intervals, clock
    readings.
- `app/` holds what runs around it: the WebSocket and JSON, float prices
  and GPU records, the device that carries out upload commands, image
  cropping and the chat channels.
- `tests/` exercises the library on concrete values.
