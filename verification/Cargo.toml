[package]
name = "graph_allow_list"
version = "0.1.0"
edition = "2021"
publish = false

[dependencies]
graphql-parser = "*"
serde_json = "*"
