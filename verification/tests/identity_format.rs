use machine_attest::identity::{identity_from_reads, format_mac};
use machine_attest::config::RegistryConfig;
use machine_attest::fingerprint::read_identity;

#[test]
fn mac_formats_lowercase_colon_separated() {
    assert_eq!(
        format_mac(&[0xaa, 0xbb, 0xcc, 0xdd, 0xee, 0xff]),
        "aa:bb:cc:dd:ee:ff"
    );
}

#[test]
fn mac_formats_mixed_digits_with_leading_zeros() {
    assert_eq!(
        format_mac(&[0x00, 0x1a, 0x2b, 0x09, 0xf0, 0x7e]),
        "00:1a:2b:09:f0:7e"
    );
    assert_eq!(
        format_mac(&[0x11, 0x22, 0x33, 0x44, 0x55, 0x66]),
        "11:22:33:44:55:66"
    );
}

#[test]
fn failed_reads_fall_back_to_sentinels() {
    let id = identity_from_reads(None, None);
    assert_eq!(id.cpu_brand, "Unknown CPU");
    assert_eq!(id.mac_address, "Unknown MAC");
    assert!(id.is_sentinel_pair());
}

#[test]
fn successful_reads_keep_their_values() {
    let id = identity_from_reads(
        Some("Intel(R) Core(TM) i7".to_string()),
        Some([0xaa, 0xbb, 0xcc, 0xdd, 0xee, 0xff]),
    );
    assert_eq!(id.cpu_brand, "Intel(R) Core(TM) i7");
    assert_eq!(id.mac_address, "aa:bb:cc:dd:ee:ff");
    assert!(!id.is_sentinel_pair());
}

#[test]
fn one_failed_read_is_not_the_sentinel_pair() {
    let cpu_only = identity_from_reads(Some("Some CPU".to_string()), None);
    assert_eq!(cpu_only.mac_address, "Unknown MAC");
    assert!(!cpu_only.is_sentinel_pair());

    let mac_only = identity_from_reads(None, Some([1, 2, 3, 4, 5, 6]));
    assert_eq!(mac_only.cpu_brand, "Unknown CPU");
    assert_eq!(mac_only.mac_address, "01:02:03:04:05:06");
    assert!(!mac_only.is_sentinel_pair());
}

#[test]
fn read_identity_never_fails_and_normalizes_the_mac() {
    let id = read_identity();
    let mac = id.mac_address;
    if mac != "Unknown MAC" {
        assert_eq!(mac.len(), 17);
        for (i, c) in mac.chars().enumerate() {
            if i % 3 == 2 {
                assert_eq!(c, ':');
            } else {
                assert!(c.is_ascii_hexdigit());
                assert!(!c.is_ascii_uppercase());
            }
        }
    }
}

#[test]
fn connection_string_with_tls() {
    let cfg = RegistryConfig {
        host: "registry.example.com".to_string(),
        port: 5432,
        user: "attestor".to_string(),
        credential: "example-credential".to_string(),
        database: "allowlist".to_string(),
        tls_required: true,
    };
    assert_eq!(
        cfg.connection_string(),
        "host=registry.example.com user=attestor password=example-credential dbname=allowlist port=5432 sslmode=require"
    );
}

#[test]
fn connection_string_without_tls_and_short_port() {
    let cfg = RegistryConfig {
        host: "localhost".to_string(),
        port: 7,
        user: "u".to_string(),
        credential: "p".to_string(),
        database: "d".to_string(),
        tls_required: false,
    };
    assert_eq!(
        cfg.connection_string(),
        "host=localhost user=u password=p dbname=d port=7"
    );
}
