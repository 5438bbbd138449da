//! The kernel's crypto: its listing, the addresses asked of it, and what the
//! module measured.
use nanochrono::kcrypto::{
    after_read, after_write, alg_address, available, check_digest, check_encrypt, driver_for,
    drivers, iv_block, parse_proc_crypto, parse_ring0, Descriptors, Driver, Kind, Progress,
    RequestError, Ring0,
};
use nanochrono::machine::{Machine, Target};

fn target(linux: bool) -> Target {
    Target {
        machine: Machine::X86Wide,
        little_endian: true,
        simd: true,
        v7: false,
        freestanding: false,
        linux,
    }
}

#[test]
fn proc_crypto_stanzas_parse() {
    let text = "\
name         : ccm(aes)
driver       : ccm_base(ctr-aes-vaes-avx2,cbcmac-aes-lib)
module       : kernel
priority     : 450
refcnt       : 3
selftest     : passed
internal     : no
type         : aead

name         : sha256
driver       : sha256-generic
module       : kernel
priority     : 100
selftest     : passed
internal     : no
type         : shash

name         : sha256
driver       : sha256-avx2
module       : kernel
priority     : 170
selftest     : passed
internal     : no
type         : shash
";
    let drivers = parse_proc_crypto(text);
    assert_eq!(drivers.len(), 3);
    assert_eq!(drivers[0].name, "ccm(aes)");
    assert_eq!(drivers[0].priority, 450);
    assert_eq!(drivers[0].kind, "aead");
    assert!(drivers[0].selftest_passed);
    assert!(!drivers[0].internal);
}

#[test]
fn the_highest_priority_implementation_wins() {
    let text = "\
name         : sha256
driver       : sha256-generic
priority     : 100
internal     : no
type         : shash

name         : sha256
driver       : sha256-avx2
priority     : 170
internal     : no
type         : shash
";
    let drivers = parse_proc_crypto(text);
    let best = driver_for(&drivers, "sha256").expect("an implementation");
    assert_eq!(best.driver, "sha256-avx2");
}

#[test]
fn internal_algorithms_are_flagged() {
    let text = "\
name         : cbcmac(aes)
driver       : cbcmac-aes-lib
priority     : 300
internal     : yes
type         : shash
";
    let drivers = parse_proc_crypto(text);
    assert!(drivers[0].internal);
    assert_eq!(driver_for(&drivers, "cbcmac(aes)"), None);
}

#[test]
fn accelerated_driver_names_are_recognised() {
    let accelerated = ["sha256-avx2", "aes-aesni", "sha256-ce", "ctr-aes-vaes-avx2"];
    for driver in accelerated {
        let d = Driver {
            name: "x".into(),
            driver: driver.into(),
            kind: "shash".into(),
            priority: 0,
            module: "kernel".into(),
            internal: false,
            selftest_passed: true,
        };
        assert!(d.looks_accelerated(), "{driver} should read as accelerated");
    }
    let generic = Driver {
        name: "sha256".into(),
        driver: "sha256-generic".into(),
        kind: "shash".into(),
        priority: 100,
        module: "kernel".into(),
        internal: false,
        selftest_passed: true,
    };
    assert!(!generic.looks_accelerated());
}

#[test]
fn the_modules_crypto_lines_parse() {
    let text = "\
version=3
arch=x86
crypto_payload_bytes=16384
crypto_rounds=64
crypto=sha256,10431
crypto=sha512,24887
crypto=ccm_base(ctr-aes,cbcmac-aes),91002
something else entirely
";
    let report = parse_ring0(text);
    assert_eq!(report.payload_bytes, 16384);
    assert_eq!(report.rounds, 64);
    assert_eq!(
        report.timings,
        vec![
            ("sha256".to_string(), 10431),
            ("sha512".to_string(), 24887),
            ("ccm_base(ctr-aes,cbcmac-aes)".to_string(), 91002),
        ]
    );
}

#[test]
fn a_session_does_not_close_a_descriptor_it_does_not_own() {
    let mut session = Descriptors { bound: 3, op: 4 };
    let mut closed = session.close();
    closed.sort();
    assert_eq!(closed, vec![3, 4]);
    // The numbers belong to somebody else from here on.
    assert!(session.close().is_empty());
    let mut half_open = Descriptors { bound: 7, op: -1 };
    assert_eq!(half_open.close(), vec![7]);
}

#[test]
fn a_missing_listing_lists_nothing() {
    assert!(drivers(&None).is_empty());
    assert_eq!(drivers(&Some("name : crc32c\n".to_string())).len(), 1);
    assert!(available(&target(true), 5));
    assert!(!available(&target(true), -1));
    assert!(!available(&target(false), 5));
}

#[test]
fn addresses_hold_whole_names_only() {
    let address = alg_address(&target(true), Kind::Hash, b"sha256").expect("an address");
    assert_eq!(&address.salg_type[..5], b"hash\0");
    assert_eq!(&address.salg_name[..7], b"sha256\0");
    assert_eq!((address.salg_type.len(), address.salg_name.len()), (14, 64));
    assert_eq!(
        alg_address(&target(true), Kind::Skcipher, &[b'a'; 64]),
        Err(RequestError::InvalidInput)
    );
    assert_eq!(
        alg_address(&target(false), Kind::Hash, b"sha256"),
        Err(RequestError::Unsupported)
    );
    assert_eq!(Kind::Skcipher.salg_type(), b"skcipher".to_vec());
    assert_ne!(RequestError::InvalidInput.message(), RequestError::Unsupported.message());
}

#[test]
fn an_iv_is_sent_behind_its_length() {
    let block = iv_block(&[9; 16], true).expect("a block");
    assert_eq!(&block[..4], &[16, 0, 0, 0]);
    assert_eq!(&block[4..20], &[9; 16]);
    let big = iv_block(&[9; 16], false).expect("a block");
    assert_eq!(&big[..4], &[0, 0, 0, 16]);
    assert_eq!(iv_block(&[0; 17], true), Err(RequestError::InvalidInput));
}

#[test]
fn requests_must_fit_their_session() {
    assert_eq!(check_digest(Kind::Hash), Ok(()));
    assert!(check_digest(Kind::Skcipher).is_err());
    assert_eq!(check_encrypt(Kind::Skcipher, 64, 64), Ok(()));
    assert!(check_encrypt(Kind::Skcipher, 64, 63).is_err());
    assert!(check_encrypt(Kind::Hash, 64, 64).is_err());
}

#[test]
fn transfers_go_on_until_they_are_whole() {
    assert_eq!(after_write(10, 0, 4), Progress::Again { from: 4 });
    assert_eq!(after_write(10, 4, 6), Progress::Done { moved: 10 });
    assert_eq!(after_write(10, 4, -1), Progress::Failed);
    assert_eq!(after_write(10, 4, 0), Progress::Stalled);
    assert_eq!(after_read(10, 0, 4), Progress::Again { from: 4 });
    assert_eq!(after_read(10, 4, 6), Progress::Done { moved: 10 });
    assert_eq!(after_read(10, 4, 0), Progress::Done { moved: 4 });
    assert_eq!(after_read(10, 4, -1), Progress::Failed);
}

#[test]
fn the_first_report_with_timings_is_taken() {
    let old = Some("version=1\narch=x86\n".to_string());
    let new = Some("version=3\ncrypto_rounds=64\ncrypto=sha256,10431\n".to_string());
    let report = Ring0::read(&vec![None, old.clone(), new]).expect("a report");
    assert_eq!(report.timings[0].1, 10431);
    assert_eq!(Ring0::read(&vec![old]), None);
    assert_eq!(Ring0::read(&Vec::new()), None);
    assert_eq!(Ring0::default().timings.len(), 0);
}
