[package]
name = "stock_metrics"
version = "0.1.0"
edition = "2021"
publish = false

[dependencies]
chrono = "*"
chrono-tz = "*"
ta = "*"
yahoo_finance_api = "*"
