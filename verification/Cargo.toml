[package]
name = "rendezvous"
version = "0.1.0"
edition = "2021"
publish = false

[dependencies]
serde_json = "=1.0.154"
worker = "=0.8.7"
wasm-bindgen = "=0.2.129"
wasm-bindgen-futures = "=0.4.79"
js-sys = "=0.3.106"
futures = "=0.3.34"
futures-channel = "=0.3.34"
cfg-if = "=1.0.5"
console_error_panic_hook = "=0.1.7"
web-sys = { version = "=0.3.106", features = ["Document", "Element", "ErrorEvent", "HtmlMediaElement", "HtmlVideoElement", "MediaDevices", "MediaStream", "MediaStreamConstraints", "MediaStreamTrack", "MessageEvent", "Navigator", "RtcConfiguration", "RtcIceCandidate", "RtcIceCandidateInit", "RtcIceConnectionState", "RtcPeerConnection", "RtcPeerConnectionIceEvent", "RtcRtpSender", "RtcSdpType", "RtcSessionDescriptionInit", "RtcSignalingState", "RtcTrackEvent", "WebSocket", "Window", "console"] }
