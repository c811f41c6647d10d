[package]
name = "parser_boundary"
version = "0.1.0"
edition = "2021"
publish = false

[dependencies]
oxc_allocator = { version = "=0.139.0", features = ["from_raw_parts"] }
oxc_parser = "=0.139.0"
oxc_span = "=0.139.0"
oxc_ast = { version = "=0.139.0", features = ["serialize"] }
oxc_diagnostics = "=0.139.0"
flexbuffers = "=25.12.19"
serde = "=1.0.229"
serde_json = "=1.0.151"
simdutf8 = "=0.1.5"
tokio = { version = "=1.53.2", features = ["rt-multi-thread"] }
