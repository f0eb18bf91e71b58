[package]
name = "paper_name_plate"
version = "0.1.0"
edition = "2021"
publish = false

[dependencies]
critical-section = "1"
embedded-graphics = "0.8"
embedded-hal = "1.0"
embedded-hal-bus = "0.3"
embedded-io = "0.6"
embedded-storage = "0.3"
esp-alloc = "*"
esp-backtrace = { version = "*", features = ["esp32s3", "panic-handler", "println"] }
esp-bootloader-esp-idf = { version = "*", features = ["esp32s3"] }
esp-hal = { version = "1", features = ["esp32s3", "unstable"] }
esp-println = { version = "*", features = ["esp32s3", "log-04"] }
esp-radio = { version = "*", features = ["esp32s3", "ble", "unstable"] }
esp-rtos = { version = "*", features = ["esp32s3", "esp-radio", "esp-alloc"] }
esp-storage = { version = "*", features = ["esp32s3"] }
log = "0.4"
static_cell = "2"
u8g2-fonts = "*"
