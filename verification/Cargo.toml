[package]
name = "c_ward"
version = "0.1.0"
edition = "2021"
publish = false

[dependencies]
rand = "=0.8.8"
tz-rs = "=0.6.14"
libc = "=0.2.191"
errno = "=0.3.14"
rustix = { version = "=0.38.44", features = ["fs", "process", "param", "termios", "net", "pipe", "mm", "stdio", "system", "thread", "procfs"] }
printf-compat = "=0.1.1"
libm = "=0.2.16"
sync-resolve = "=0.3.1"
realpath-ext = "=0.1.3"
parking_lot = "=0.12.5"
memoffset = "=0.9.1"
dlmalloc = { version = "=0.2.14", features = ["global"] }
