# esp32_s3_box3

Firmware logic of an ESP32-S3-BOX-3 voice assistant and smart speaker,
written in Verus. The library's own functions in `src/` carry contracts
that the verifier proves. The calls into other crates are the exception:
Verus takes the contracts of these trusted items on trust, and each one's
doc comment names the function it calls.

## Trusted items

- `src/url.rs`: `string_from_utf8` (`String::from_utf8`) and the declared
  type `FromUtf8Error`.
- `src/framebuffer.rs`: `rgb565_into_storage` (`Rgb565::new` and
  `into_storage`, embedded-graphics-core) and `intersect`
  (`Rectangle::intersection`).
- `src/speaker.rs`: the pipe `SpeakerPipe` with `new`, `try_write` and
  `try_read` (embassy-sync `Pipe`), and the declared types `TryWriteError`
  and `TryReadError`.
- `src/applications/zigduck.rs`: the declared heapless `String` and `Vec`
  types; `new256`, `push256`, `len256`, `capacity256`, `as_str256`,
  `string128_from`, `push_str128`, `as_str128`, `new_dir_list`, `push_dir`
  and `dir_get` (heapless); `is_whitespace` (`char::is_whitespace`) and
  `str_from_utf8` (`core::str::from_utf8`); and the names `chars256`,
  `chars128` and `dir_entries` for what those strings and lists hold.

## Layout

- `src/url.rs`, `src/text.rs` – percent-encoding and decoding, string helpers.
- `src/time.rs` – NTP answers to local (Central European) time, the minute tick.
- `src/framebuffer.rs` – the double-buffered 320x240 RGB565 framebuffer.
- `src/gt911.rs`, `src/es7210.rs` – the touch controller driver's steps and
  decoding, and the microphone codec's register programming.
- `src/audio.rs`, `src/speaker.rs` – microphone chunking, the voice stream
  protocol, PCM framing and the speaker's ring buffer.
- `src/settings.rs`, `src/display.rs`, `src/api.rs` – volume and gain plans,
  battery and sensor readings, the display task's state machine and the HTTP
  API's handlers.
- `src/ota.rs` – which boot states confirm the running image, and how a new
  image is cut into flash sectors.
- `src/gui/` – the app launcher (page cache and frame composition) and the
  Wi-Fi page (split animation, scan list, glow lines, gauge layout, icon blits).
- `src/applications/` – the TV remote, home-automation requests, the gallery.
- `app/` – board bring-up and the async tasks that perform the I/O the library
  decides on.
- `tests/` – tests of the library on concrete values.
