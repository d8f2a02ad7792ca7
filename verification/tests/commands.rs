use redis_ac::commands::{
    psubscribe_command, punsubscribe_command, subscribe_command, unsubscribe_command, u64_to_dec,
    ScanFactory,
};

fn parts(v: &[&[u8]]) -> Vec<Vec<u8>> {
    v.iter().map(|p| p.to_vec()).collect()
}

#[test]
fn decimal_digits() {
    assert_eq!(u64_to_dec(0), b"0".to_vec());
    assert_eq!(u64_to_dec(7), b"7".to_vec());
    assert_eq!(u64_to_dec(10), b"10".to_vec());
    assert_eq!(u64_to_dec(105), b"105".to_vec());
    assert_eq!(u64_to_dec(u64::MAX), b"18446744073709551615".to_vec());
}

#[test]
fn scan_command() {
    let f = ScanFactory::scan();
    assert_eq!(f.build(0).parts, parts(&[b"SCAN", b"0"]));
    assert_eq!(f.build(42).parts, parts(&[b"SCAN", b"42"]));
}

#[test]
fn scan_match_command() {
    let f = ScanFactory::scan_match(b"key:*".to_vec());
    assert_eq!(f.build(5).parts, parts(&[b"SCAN", b"5", b"MATCH", b"key:*"]));
}

#[test]
fn hscan_commands() {
    let f = ScanFactory::hscan(b"hash".to_vec());
    assert_eq!(f.build(0).parts, parts(&[b"HSCAN", b"hash", b"0"]));
    let g = ScanFactory::hscan_match(b"hash".to_vec(), b"key:*".to_vec());
    assert_eq!(
        g.build(9).parts,
        parts(&[b"HSCAN", b"hash", b"9", b"MATCH", b"key:*"])
    );
}

#[test]
fn sscan_commands() {
    let f = ScanFactory::sscan(b"set".to_vec());
    assert_eq!(f.build(3).parts, parts(&[b"SSCAN", b"set", b"3"]));
    let g = ScanFactory::sscan_match(b"set".to_vec(), b"key:*".to_vec());
    assert_eq!(
        g.build(0).parts,
        parts(&[b"SSCAN", b"set", b"0", b"MATCH", b"key:*"])
    );
}

#[test]
fn zscan_commands() {
    let f = ScanFactory::zscan(b"zset".to_vec());
    assert_eq!(f.build(1).parts, parts(&[b"ZSCAN", b"zset", b"1"]));
    let g = ScanFactory::zscan_match(b"zset".to_vec(), b"key:*".to_vec());
    assert_eq!(
        g.build(8).parts,
        parts(&[b"ZSCAN", b"zset", b"8", b"MATCH", b"key:*"])
    );
}

#[test]
fn subscription_commands() {
    let s = subscribe_command(vec![b"foo".to_vec(), b"bar".to_vec()]);
    assert_eq!(s.parts, parts(&[b"SUBSCRIBE", b"foo", b"bar"]));
    let p = psubscribe_command(vec![b"news.*".to_vec()]);
    assert_eq!(p.parts, parts(&[b"PSUBSCRIBE", b"news.*"]));
    assert_eq!(unsubscribe_command().parts, parts(&[b"UNSUBSCRIBE"]));
    assert_eq!(punsubscribe_command().parts, parts(&[b"PUNSUBSCRIBE"]));
}
