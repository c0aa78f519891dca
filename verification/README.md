# sensor_data_server

A server that receives readings of garden sensors (temperature, humidity,
air pressure, light intensity, CO2, chip temperature, battery voltage) over
MQTT and HTTP, stores them in PostgreSQL and sends warning e-mails.

## Layout

- `src/` is the verified library (Verus). It holds the data model of the
  messages and of the stored records and the conversions between them, the
  alerting rules, the checks and texts of the HTTP answers, the checks made
  before an averaging query, the construction of e-mail messages, the
  decisions of the MQTT client (which handlers a message runs, how their
  failures are reported) and the lexer of topic routes.
  Decimal readings are `mantissa * 10^-scale` with an `i128` mantissa;
  the difference of two readings is kept as its two operands, so it is
  exact however large its digits. Instants of readings and requests are
  microseconds since the Unix epoch, the database's precision; the time
  of the previous temperature and the current time, which decide whether
  a warning is repeated, are nanoseconds.
- `app/` is the program around it: configuration file, logging, the
  database queries, SMTP, the actix-web routes and the MQTT event loop. It
  converts between the JSON shapes of the messages and the library's
  values and hands every decision to the library.
- `tests/` runs the library on concrete values.
