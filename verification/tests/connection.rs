use rustrdp::config::Server;
use rustrdp::connection::{
    build_config, extract_tls_server_public_key, first_address, public_key_of, server_public_key,
    static_channels, supported_verify_schemes, with_context, BitmapSettings, ChangeDate,
    ConnectStage, KeyboardType, LicenseCache, Platform, PublicKeyError, SignatureScheme,
    StaticChannel,
};

/// A DER value: a tag, a length and the contents.
fn der(tag: u8, contents: &[u8]) -> Vec<u8> {
    let mut bytes = vec![tag];
    if contents.len() < 128 {
        bytes.push(contents.len() as u8);
    } else {
        bytes.push(0x82);
        bytes.push((contents.len() >> 8) as u8);
        bytes.push(contents.len() as u8);
    }
    bytes.extend_from_slice(contents);
    bytes
}

/// A certificate whose subject public key is the given bit string contents.
fn certificate(key: &[u8]) -> Vec<u8> {
    let algorithm = der(0x30, &der(0x06, &[0x2b, 0x65, 0x70]));
    let mut validity = der(0x17, b"250101000000Z");
    validity.extend(der(0x17, b"350101000000Z"));
    let mut info = algorithm.clone();
    info.extend(der(0x03, key));
    let mut body = der(0xa0, &der(0x02, &[2]));
    body.extend(der(0x02, &[1]));
    body.extend(algorithm.clone());
    body.extend(der(0x30, &[]));
    body.extend(der(0x30, &validity));
    body.extend(der(0x30, &[]));
    body.extend(der(0x30, &info));
    let mut cert = der(0x30, &body);
    cert.extend(algorithm);
    cert.extend(der(0x03, &[0, 9, 9, 9]));
    der(0x30, &cert)
}

#[test]
fn config_announces_the_login_and_the_size() {
    let config = build_config(&Server::default(), "me", "pw", "CORP", 1280, 800);
    assert_eq!(config.username, "me");
    assert_eq!(config.password, "pw");
    assert_eq!(config.domain.as_deref(), Some("CORP"));
    assert_eq!((config.width, config.height), (1280, 800));
    assert!(config.enable_tls && config.enable_credssp);
    assert_eq!(config.keyboard_type, KeyboardType::IbmEnhanced);
    assert_eq!(config.keyboard_functional_keys_count, 12);
    assert_eq!(config.client_name, "rustrdp");
    assert_eq!(config.client_dir, "C:\\Windows\\System32\\mstscax.dll");
    assert_eq!(config.platform, Platform::Macintosh);
    assert!(config.enable_server_pointer && config.pointer_software_rendering);
    assert!(!config.autologon && !config.enable_audio_playback);
    assert_eq!(config.performance_flags, 0x86);
}

#[test]
fn config_leaves_the_rest_unset() {
    let config = build_config(&Server::default(), "me", "pw", "CORP", 1280, 800);
    assert_eq!(config.bitmap, BitmapSettings::Unset);
    assert!(config.request_data.is_none());
    assert!(config.compression_type.is_none());
    assert!(config.multitransport_flags.is_none());
    assert!(config.hardware_id.is_none());
    assert_eq!(config.license_cache, LicenseCache::Unset);
}

#[test]
fn time_zone_is_that_of_the_protocol_crate() {
    let zone = build_config(&Server::default(), "me", "pw", "", 200, 200).time_zone;
    let usual = ironrdp::pdu::rdp::client_info::TimezoneInfo::default();
    assert_eq!((zone.bias, zone.standard_bias, zone.daylight_bias), (0, 0, 0));
    assert_eq!(
        (usual.bias, usual.standard_bias, usual.daylight_bias),
        (zone.bias, zone.standard_bias, zone.daylight_bias)
    );
    assert_eq!(zone.standard_name, usual.standard_name);
    assert_eq!(zone.daylight_name, usual.daylight_name);
    assert_eq!((zone.standard_date, zone.daylight_date), (ChangeDate::Unset, ChangeDate::Unset));
    assert!(usual.standard_date.0.is_none() && usual.daylight_date.0.is_none());
}

#[test]
fn empty_domain_is_not_announced() {
    assert!(build_config(&Server::default(), "me", "pw", "", 200, 200).domain.is_none());
}

#[test]
fn channels_follow_the_clipboard_setting() {
    assert_eq!(static_channels(false), vec![StaticChannel::DynamicChannels]);
    assert_eq!(static_channels(true), vec![StaticChannel::DynamicChannels, StaticChannel::Clipboard]);
}

#[test]
fn stages_follow_each_other() {
    let mut stage = ConnectStage::Lookup;
    let mut contexts = Vec::new();
    while stage != ConnectStage::Connected {
        contexts.push(stage.advance(Err("why")).unwrap_err());
        stage = stage.advance(Ok(())).unwrap();
    }
    assert_eq!(
        contexts,
        vec![
            "lookup addr: why",
            "TCP connect: why",
            "get socket local address: why",
            "begin connection: why",
            "TLS upgrade: why",
            "finalize connection: why",
        ]
    );
}

#[test]
fn context_stands_before_the_cause() {
    assert_eq!(with_context("read frame", "broken"), "read frame: broken");
}

#[test]
fn first_address_is_taken() {
    assert_eq!(first_address(vec![3, 4]), Ok(3));
    assert_eq!(first_address(Vec::<u8>::new()), Err("socket address not found".into()));
}

#[test]
fn public_key_is_read_from_the_certificate() {
    let cert = certificate(&[0, 1, 2, 3, 4]);
    assert_eq!(extract_tls_server_public_key(&cert).unwrap(), vec![1, 2, 3, 4]);
    let other = certificate(&[0, 7]);
    assert_eq!(server_public_key(&vec![other, cert]).unwrap(), vec![7]);
}

#[test]
fn unaligned_public_key_is_an_error() {
    let error = extract_tls_server_public_key(&certificate(&[4, 0xf0])).unwrap_err();
    assert!(matches!(error, PublicKeyError::Unaligned));
    assert_eq!(error.message(""), "subject public key BIT STRING is not aligned");
    assert!(matches!(public_key_of(Ok(None)), Err(PublicKeyError::Unaligned)));
    assert_eq!(public_key_of(Ok(Some(vec![5]))).unwrap(), vec![5]);
}

#[test]
fn malformed_certificate_is_an_error() {
    let error = extract_tls_server_public_key(&[1, 2, 3]).unwrap_err();
    assert!(matches!(error, PublicKeyError::Malformed(_)));
    assert_eq!(error.message("bad DER"), "bad DER");
}

#[test]
fn missing_certificate_is_an_error() {
    let error = server_public_key(&Vec::new()).unwrap_err();
    assert!(matches!(error, PublicKeyError::MissingCertificate));
    assert_eq!(error.message(""), "peer certificate is missing");
}

#[test]
fn all_schemes_are_offered_once() {
    let schemes = supported_verify_schemes();
    assert_eq!(schemes.len(), 13);
    assert_eq!(schemes[0], SignatureScheme::RSA_PKCS1_SHA1);
    assert_eq!(schemes[12], SignatureScheme::ED448);
    for (i, scheme) in schemes.iter().enumerate() {
        assert!(!schemes[..i].contains(scheme));
    }
}
