use janus_client::preflight::missing_plugins;

fn names(xs: &[&str]) -> Vec<String> {
    xs.iter().map(|s| String::from(*s)).collect()
}

#[test]
fn nothing_missing_when_all_available() {
    let required = names(&["webrtc", "nice", "dtls"]);
    let available = names(&["rtp", "dtls", "nice", "webrtc", "srtp"]);
    let missing = missing_plugins(&required, &available);
    assert_eq!(missing.len(), 0);
}

#[test]
fn missing_names_keep_required_order() {
    let required = names(&["videotestsrc", "vpx", "webrtc", "nice", "srtp"]);
    let available = names(&["videotestsrc", "nice"]);
    let missing = missing_plugins(&required, &available);
    assert_eq!(missing, names(&["vpx", "webrtc", "srtp"]));
}

#[test]
fn empty_required_is_never_missing() {
    let required: Vec<String> = Vec::new();
    let available = names(&["webrtc"]);
    let missing = missing_plugins(&required, &available);
    assert_eq!(missing.len(), 0);
}

#[test]
fn nothing_available_misses_everything() {
    let required = names(&["webrtc", "nice"]);
    let available: Vec<String> = Vec::new();
    let missing = missing_plugins(&required, &available);
    assert_eq!(missing, required);
}

#[test]
fn repeated_requirement_is_reported_each_time() {
    let required = names(&["vpx", "vpx"]);
    let available = names(&["webrtc"]);
    let missing = missing_plugins(&required, &available);
    assert_eq!(missing, names(&["vpx", "vpx"]));
}
