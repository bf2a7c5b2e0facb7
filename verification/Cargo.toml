[package]
name = "ngap_frontend"
version = "0.1.0"
edition = "2021"

[dependencies]
asn1-codecs = "*"
entropic = "*"
