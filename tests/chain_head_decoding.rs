use subgraph_monitor::chain_head::decode_chain_head;
use subgraph_monitor::verdict::{ChainHead, FetchError};

fn height(text: &str) -> Result<i64, FetchError> {
    decode_chain_head(text).map(|h: ChainHead| h.block_height)
}

#[test]
fn decodes_prefixed_hex() {
    assert_eq!(height("0x64"), Ok(100));
    assert_eq!(height("0x1b4"), Ok(436));
    assert_eq!(height("0xFF"), Ok(255));
    assert_eq!(height("0xaBc"), Ok(2748));
}

#[test]
fn decodes_without_prefix() {
    assert_eq!(height("10"), Ok(16));
    assert_eq!(height("0x0"), Ok(0));
    assert_eq!(height("0"), Ok(0));
    assert_eq!(height("000000000000000000000000001"), Ok(1));
    assert_eq!(height("0x0000000000000000000000000ff"), Ok(255));
}

#[test]
fn rejects_repeated_prefix_and_signs() {
    assert_eq!(height("0x0x1f"), Err(FetchError::Decode));
    assert_eq!(height("0x+10"), Err(FetchError::Decode));
    assert_eq!(height("0x-10"), Err(FetchError::Decode));
    assert_eq!(height("-0x1"), Err(FetchError::Decode));
    assert_eq!(height("+1"), Err(FetchError::Decode));
    assert_eq!(height("-1"), Err(FetchError::Decode));
}

#[test]
fn rejects_malformed_text() {
    assert_eq!(height(""), Err(FetchError::Decode));
    assert_eq!(height("0x"), Err(FetchError::Decode));
    assert_eq!(height("x1"), Err(FetchError::Decode));
    assert_eq!(height("-"), Err(FetchError::Decode));
    assert_eq!(height("0xzz"), Err(FetchError::Decode));
    assert_eq!(height("0x12g"), Err(FetchError::Decode));
    assert_eq!(height(" 0x1"), Err(FetchError::Decode));
    assert_eq!(height("0x1 "), Err(FetchError::Decode));
    assert_eq!(height("0X10"), Err(FetchError::Decode));
}

#[test]
fn range_limits() {
    assert_eq!(height("0x7fffffffffffffff"), Ok(i64::MAX));
    assert_eq!(height("0x8000000000000000"), Err(FetchError::Decode));
    assert_eq!(height("0xffffffffffffffff"), Err(FetchError::Decode));
    assert_eq!(height("0x1000000000000000000000000"), Err(FetchError::Decode));
}

#[test]
fn agrees_with_from_str_radix_on_unsigned_digits() {
    for text in ["1", "ff", "deadbeef", "7fffffffffffffff", "8000000000000000", "DEADbeef"] {
        let expected = u64::from_str_radix(text, 16).ok().filter(|v| *v <= i64::MAX as u64).map(|v| v as i64);
        assert_eq!(height(text).ok(), expected, "text {:?}", text);
        let prefixed = format!("0x{}", text);
        assert_eq!(height(&prefixed).ok(), expected, "text {:?}", prefixed);
    }
}
