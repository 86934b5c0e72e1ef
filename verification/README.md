# sensor_net

Middleware between a serial radio gateway and an HTTPS endpoint. Sensor
nodes send binary packets through the gateway; the middleware reads the
gateway's JSON notifications line by line from a serial device, decodes the
packets (decrypting AES-128-ECB radio frames), and forwards each reading as a
JSON sensor message.

- `src/` is the library, verified with Verus:
  - `le_bytes`: little-endian fields of a packet;
  - `num_format`: zero-padded hexadecimal and decimal text of integers;
  - `sensor_message`: the packet layouts of types 2 to 5 and their decoder;
  - `payload`: hexadecimal decoding (`hex`) and AES decryption (`openssl`);
  - `gateway`: from a notification's JSON text (read with `serde_json`) to a
    sensor message;
  - `line_buffer`: framing of the serial stream into lines;
  - `auth_request`, `clock`: OAuth token bookkeeping, its JSON texts
    (`serde_json`), and UTC time (`chrono`);
  - `json`: the serde_json types the library carries;
  - `serial_config`: the raw 8N1 terminal settings and setup error texts.
- `app/` is the program: environment, serial device (libc), TLS and HTTP
  (hyper, reqwest), writing sensor messages as JSON (serde), float
  conversions, and logging.
