use pinger::classify::{classify_ext_err, error_seq, IcmpError, ORIGIN_ICMP};

const IP: u32 = 0xC0A80001; // 192.168.0.1
const SEQ: u16 = 5;

#[test]
fn unreachable_codes_map_to_variants() {
    assert_eq!(
        classify_ext_err(ORIGIN_ICMP, 3, 0, IP, SEQ),
        IcmpError::NetworkUnreachable { ip: IP, seq: SEQ }
    );
    assert_eq!(
        classify_ext_err(ORIGIN_ICMP, 3, 1, IP, SEQ),
        IcmpError::HostUnreachable { ip: IP, seq: SEQ }
    );
    assert_eq!(
        classify_ext_err(ORIGIN_ICMP, 3, 2, IP, SEQ),
        IcmpError::ProtocolUnreachable { ip: IP, seq: SEQ }
    );
    assert_eq!(
        classify_ext_err(ORIGIN_ICMP, 3, 3, IP, SEQ),
        IcmpError::PortUnreachable { ip: IP, seq: SEQ }
    );
}

#[test]
fn other_unreachable_keeps_its_code() {
    assert_eq!(
        classify_ext_err(ORIGIN_ICMP, 3, 9, IP, SEQ),
        IcmpError::OtherUnreachable { ip: IP, seq: SEQ, code: 9 }
    );
}

#[test]
fn time_exceeded_ignores_its_code() {
    assert_eq!(
        classify_ext_err(ORIGIN_ICMP, 11, 0, IP, SEQ),
        IcmpError::TimeExceeded { ip: IP, seq: SEQ }
    );
    assert_eq!(
        classify_ext_err(ORIGIN_ICMP, 11, 1, IP, SEQ),
        IcmpError::TimeExceeded { ip: IP, seq: SEQ }
    );
}

#[test]
fn unknown_icmp_type_is_kept() {
    assert_eq!(
        classify_ext_err(ORIGIN_ICMP, 42, 7, IP, SEQ),
        IcmpError::Unknown { ip: IP, seq: SEQ, ee_type: 42, ee_code: 7 }
    );
}

#[test]
fn non_icmp_origin_is_kept_whole() {
    assert_eq!(
        classify_ext_err(1, 3, 1, IP, SEQ),
        IcmpError::UnknownOrigin { ip: IP, seq: SEQ, origin: 1, ee_type: 3, ee_code: 1 }
    );
}

#[test]
fn error_seq_names_the_probe() {
    assert_eq!(error_seq(&IcmpError::HostUnreachable { ip: IP, seq: 3 }), Some(3));
    assert_eq!(error_seq(&IcmpError::TimeExceeded { ip: IP, seq: 9 }), Some(9));
    assert_eq!(
        error_seq(&IcmpError::UnknownOrigin { ip: IP, seq: 1, origin: 0, ee_type: 0, ee_code: 0 }),
        Some(1)
    );
    assert_eq!(error_seq(&IcmpError::Io { errno: 13 }), None);
}
